//! The records exchanged with the front-end and with remote peers.

use vstd::prelude::*;

verus! {

/// A point in time: whole seconds since the Unix epoch and the nanoseconds
/// past that second (beyond 999,999,999 only during a leap second).
#[derive(Debug, Clone, Copy, PartialEq, Eq, Structural)]
pub struct Timestamp {
    pub seconds: i64,
    pub nanos: u32,
}

/// A remote daemon that can be messaged directly.
#[derive(Debug, Clone)]
pub struct IpcPeer {
    /// The peer's full message id; the registry key.
    pub id: String,
    /// The peer's display name.
    pub username: String,
    /// The peer's IPv4 address in dotted-decimal form.
    pub ip: String,
    pub port: u16,
}

/// What an [`IpcPeer`] holds.
pub struct PeerModel {
    pub id: Seq<char>,
    pub username: Seq<char>,
    pub ip: Seq<char>,
    pub port: u16,
}

impl View for IpcPeer {
    type V = PeerModel;

    open spec fn view(&self) -> PeerModel {
        PeerModel { id: self.id@, username: self.username@, ip: self.ip@, port: self.port }
    }
}

impl IpcPeer {
    /// A copy of this peer with the same contents.
    pub fn duplicate(&self) -> (r: IpcPeer)
        ensures
            r@ == self@,
    {
        IpcPeer {
            id: self.id.clone(),
            username: self.username.clone(),
            ip: self.ip.clone(),
            port: self.port,
        }
    }
}

/// One chat message.
#[derive(Debug, Clone)]
pub struct Message {
    /// Fresh for every send.
    pub id: String,
    /// The sender's full message id.
    pub sender: String,
    /// The recipient's peer id.
    pub recipient: String,
    pub content: String,
    pub timestamp: Timestamp,
    /// Whether the receiving side wrote the message itself; always false on
    /// the wire.
    pub is_self: bool,
}

/// What a [`Message`] holds.
pub struct MessageModel {
    pub id: Seq<char>,
    pub sender: Seq<char>,
    pub recipient: Seq<char>,
    pub content: Seq<char>,
    pub timestamp: Timestamp,
    pub is_self: bool,
}

impl View for Message {
    type V = MessageModel;

    open spec fn view(&self) -> MessageModel {
        MessageModel {
            id: self.id@,
            sender: self.sender@,
            recipient: self.recipient@,
            content: self.content@,
            timestamp: self.timestamp,
            is_self: self.is_self,
        }
    }
}

impl Message {
    /// A copy of this message with the same contents.
    pub fn duplicate(&self) -> (r: Message)
        ensures
            r@ == self@,
    {
        Message {
            id: self.id.clone(),
            sender: self.sender.clone(),
            recipient: self.recipient.clone(),
            content: self.content.clone(),
            timestamp: self.timestamp,
            is_self: self.is_self,
        }
    }
}

/// A request from the front-end.
#[derive(Debug, Clone)]
pub enum GuiToDaemonCommand {
    GetPeers,
    SendMessage { recipient_id: String, content: String },
    RequestHistory { peer_id: String, since_timestamp: Option<Timestamp> },
    SetUsername { username: String },
    ClearDaemonPeerCache,
}

/// A record sent to the front-end.
#[derive(Debug, Clone)]
pub enum DaemonToGuiMessage {
    DaemonStatus { is_connected_to_network: bool, active_interface_name: Option<String> },
    PeerList(Vec<IpcPeer>),
    NewMessage(Message),
    HistoryResponse { peer_id: String, messages: Vec<Message> },
    Error(String),
    IdentityInfo { user_id: String },
    Success(String),
}

/// What a [`DaemonToGuiMessage`] holds.
pub enum ReplyModel {
    DaemonStatus { is_connected_to_network: bool, active_interface_name: Option<Seq<char>> },
    PeerList(Seq<PeerModel>),
    NewMessage(MessageModel),
    HistoryResponse { peer_id: Seq<char>, messages: Seq<MessageModel> },
    Error(Seq<char>),
    IdentityInfo { user_id: Seq<char> },
    Success(Seq<char>),
}

impl View for DaemonToGuiMessage {
    type V = ReplyModel;

    open spec fn view(&self) -> ReplyModel {
        match self {
            DaemonToGuiMessage::DaemonStatus { is_connected_to_network, active_interface_name } => {
                ReplyModel::DaemonStatus {
                    is_connected_to_network: *is_connected_to_network,
                    active_interface_name: match active_interface_name {
                        Some(n) => Some(n@),
                        None => None,
                    },
                }
            },
            DaemonToGuiMessage::PeerList(peers) => ReplyModel::PeerList(
                peers@.map_values(|p: IpcPeer| p@),
            ),
            DaemonToGuiMessage::NewMessage(m) => ReplyModel::NewMessage(m@),
            DaemonToGuiMessage::HistoryResponse { peer_id, messages } => {
                ReplyModel::HistoryResponse {
                    peer_id: peer_id@,
                    messages: messages@.map_values(|m: Message| m@),
                }
            },
            DaemonToGuiMessage::Error(e) => ReplyModel::Error(e@),
            DaemonToGuiMessage::IdentityInfo { user_id } => ReplyModel::IdentityInfo {
                user_id: user_id@,
            },
            DaemonToGuiMessage::Success(s) => ReplyModel::Success(s@),
        }
    }
}

} // verus!
