//! Delivery of one chat message to one peer: what to send and where, and the
//! reply that each outcome of the delivery earns.

use vstd::prelude::*;
use crate::address::{decimal, push_decimal};
use crate::identity::{IdentityManager, IdentityModel};
use crate::protocol::{DaemonToGuiMessage, IpcPeer, Message, MessageModel, PeerModel, ReplyModel, Timestamp};
use crate::registry::{EntryModel, PeerRegistry};
use crate::text::push_char;

verus! {

/// The error text when no identity has been set yet.
pub const NO_IDENTITY_ERROR: &'static str =
    "Cannot send message: User identity not set. Please set username first.";

/// A message ready to be written to one peer.
#[derive(Debug, Clone)]
pub struct OutboundSend {
    /// The recipient.
    pub peer: IpcPeer,
    /// `ip:port` of the recipient.
    pub address: String,
    /// The message, as it goes on the wire.
    pub message: Message,
}

/// What an [`OutboundSend`] holds.
pub struct SendModel {
    pub peer: PeerModel,
    pub address: Seq<char>,
    pub message: MessageModel,
}

impl View for OutboundSend {
    type V = SendModel;

    open spec fn view(&self) -> SendModel {
        SendModel { peer: self.peer@, address: self.address@, message: self.message@ }
    }
}

/// The error text for a recipient id that no known peer has.
pub open spec fn not_found_text(id: Seq<char>) -> Seq<char> {
    "Recipient '"@ + id + "' not found."@
}

/// `ip:port` of `peer`.
pub open spec fn address_of(peer: PeerModel) -> Seq<char> {
    peer.ip + seq![':'] + decimal(peer.port as nat)
}

/// The delivery that sending `content` to `recipient` calls for: refused when
/// no identity is set, then when no known peer has that id; otherwise one
/// message from this user's full id, with the given fresh id and time.
pub open spec fn send_plan(
    identity: Option<IdentityModel>,
    peers: Map<Seq<char>, EntryModel>,
    recipient: Seq<char>,
    content: Seq<char>,
    message_id: Seq<char>,
    timestamp: Timestamp,
) -> Result<SendModel, Seq<char>> {
    match identity {
        None => Err(NO_IDENTITY_ERROR@),
        Some(me) => if !peers.contains_key(recipient) {
            Err(not_found_text(recipient))
        } else {
            let peer = peers[recipient].peer;
            Ok(
                SendModel {
                    peer,
                    address: address_of(peer),
                    message: MessageModel {
                        id: message_id,
                        sender: me.full_id,
                        recipient,
                        content,
                        timestamp,
                        is_self: false,
                    },
                },
            )
        },
    }
}

/// The view of a planned delivery.
pub open spec fn plan_view(r: Result<OutboundSend, String>) -> Result<SendModel, Seq<char>> {
    match r {
        Ok(s) => Ok(s@),
        Err(e) => Err(e@),
    }
}

/// `ip:port` of `peer`.
pub fn peer_address(peer: &IpcPeer) -> (r: String)
    ensures
        r@ == address_of(peer@),
{
    let mut s = peer.ip.clone();
    push_char(&mut s, ':');
    push_decimal(&mut s, peer.port as u64);
    assert(s@ =~= address_of(peer@));
    s
}

/// Plans the delivery of `content` to the peer `recipient_id`, with an
/// already drawn message id and time.
pub fn plan_send(
    identity: &IdentityManager,
    registry: &PeerRegistry,
    recipient_id: &str,
    content: &str,
    message_id: &str,
    timestamp: Timestamp,
) -> (r: Result<OutboundSend, String>)
    requires
        registry.wf(),
    ensures
        plan_view(r) == send_plan(identity@, registry@, recipient_id@, content@, message_id@, timestamp),
{
    let me = match identity.current() {
        Some(me) => me,
        None => return Err(String::from_str(NO_IDENTITY_ERROR)),
    };
    let peer = match registry.get(recipient_id) {
        Some(p) => p,
        None => {
            let mut e = String::from_str("Recipient '");
            e.append(recipient_id);
            e.append("' not found.");
            return Err(e);
        },
    };
    let address = peer_address(&peer);
    let message = Message {
        id: String::from_str(message_id),
        sender: me.full_message_id,
        recipient: String::from_str(recipient_id),
        content: String::from_str(content),
        timestamp,
        is_self: false,
    };
    Ok(OutboundSend { peer, address, message })
}

/// Relies on `uuid::Uuid::new_v4` and its hyphenated text form: a fresh
/// random identifier of 36 characters.
#[verifier::external_body]
pub(crate) fn fresh_message_id() -> (r: String)
    ensures
        r@.len() == 36,
{
    uuid::Uuid::new_v4().to_string()
}

/// Relies on `chrono::Utc::now`: the current time since the Unix epoch, with
/// the nanoseconds of a `SystemTime` duration.
#[verifier::external_body]
pub(crate) fn current_time() -> (r: Timestamp)
    ensures
        r.seconds >= 0,
        r.nanos < 1_000_000_000,
{
    let now = chrono::Utc::now();
    Timestamp { seconds: now.timestamp(), nanos: now.timestamp_subsec_nanos() }
}

/// Plans the delivery of `content` to the peer `recipient_id`, with a fresh
/// message id and the current time.
pub fn prepare_send(
    identity: &IdentityManager,
    registry: &PeerRegistry,
    recipient_id: &str,
    content: &str,
) -> (r: Result<OutboundSend, String>)
    requires
        registry.wf(),
    ensures
        exists|message_id: Seq<char>, timestamp: Timestamp|
            plan_view(r) == send_plan(identity@, registry@, recipient_id@, content@, message_id, timestamp),
{
    let message_id = fresh_message_id();
    let timestamp = current_time();
    plan_send(identity, registry, recipient_id, content, message_id.as_str(), timestamp)
}

/// The stage at which a delivery failed, with the failure's text.
#[derive(Debug, Clone)]
pub enum SendFailure {
    Connect(String),
    Encode(String),
    Write(String),
    Flush(String),
}

/// The reply for a delivery to a peer named `username` that ended in `outcome`.
pub open spec fn outcome_text(username: Seq<char>, outcome: Result<(), SendFailure>) -> ReplyModel {
    match outcome {
        Ok(()) => ReplyModel::Success("Message successfully sent to "@ + username),
        Err(SendFailure::Connect(e)) => ReplyModel::Error("Could not connect to "@ + username + ": "@ + e@),
        Err(SendFailure::Encode(e)) => ReplyModel::Error(
            "Failed to prepare message for "@ + username + ": "@ + e@,
        ),
        Err(SendFailure::Write(e)) => ReplyModel::Error("Failed to send message to "@ + username + ": "@ + e@),
        Err(SendFailure::Flush(e)) => ReplyModel::Error("Network error sending to "@ + username + ": "@ + e@),
    }
}

fn staged_error(prefix: &str, username: &str, e: &String) -> (r: DaemonToGuiMessage)
    ensures
        r@ == ReplyModel::Error(prefix@ + username@ + ": "@ + e@),
{
    let mut s = String::from_str(prefix);
    s.append(username);
    s.append(": ");
    s.append(e.as_str());
    DaemonToGuiMessage::Error(s)
}

/// The reply for a delivery to the peer named `username` that ended in `outcome`.
pub fn send_outcome(username: &str, outcome: &Result<(), SendFailure>) -> (r: DaemonToGuiMessage)
    ensures
        r@ == outcome_text(username@, *outcome),
{
    match outcome {
        Ok(()) => {
            let mut s = String::from_str("Message successfully sent to ");
            s.append(username);
            DaemonToGuiMessage::Success(s)
        },
        Err(SendFailure::Connect(e)) => staged_error("Could not connect to ", username, e),
        Err(SendFailure::Encode(e)) => staged_error("Failed to prepare message for ", username, e),
        Err(SendFailure::Write(e)) => staged_error("Failed to send message to ", username, e),
        Err(SendFailure::Flush(e)) => staged_error("Network error sending to ", username, e),
    }
}

} // verus!
