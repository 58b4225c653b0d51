//! The front-end session: what each command does to the daemon's state and
//! what the session must do next, plus the per-line rules of both wire
//! protocols.

use vstd::prelude::*;
use crate::dispatch::{current_time, fresh_message_id, not_found_text, plan_send, send_plan, OutboundSend, SendModel};
use crate::identity::{
    derive_identity, identity_of, random_alphanumeric, set_identity_step, valid_suffix, IdentityManager, IdentityModel,
    UserIdentity, SUFFIX_LEN,
};
use crate::protocol::{DaemonToGuiMessage, GuiToDaemonCommand, Message, MessageModel, ReplyModel, Timestamp};
use crate::registry::{EntryModel, PeerRegistry};
use crate::text::push_char;

verus! {

/// The reply to a second attempt to choose a name.
pub const ALREADY_SET_ERROR: &'static str = "Username already set.";

/// The reply to a history request.
pub const NO_HISTORY_ERROR: &'static str = "History feature not yet implemented";

/// The shared state of the daemon: who this user is and which peers are known.
pub struct DaemonState {
    pub identity: IdentityManager,
    pub registry: PeerRegistry,
}

/// What the session does after a command.
#[derive(Debug)]
pub enum SessionStep {
    /// Write this record to the front-end.
    Reply(DaemonToGuiMessage),
    /// Start announcing and browsing with this identity, then write the reply.
    Register { identity: UserIdentity, reply: DaemonToGuiMessage },
    /// Deliver this message; the outcome decides the reply.
    Deliver(OutboundSend),
    /// Nothing to write.
    Silent,
}

/// What a [`SessionStep`] holds.
pub enum StepModel {
    Reply(ReplyModel),
    Register { identity: IdentityModel, reply: ReplyModel },
    Deliver(SendModel),
    Silent,
}

impl View for SessionStep {
    type V = StepModel;

    open spec fn view(&self) -> StepModel {
        match self {
            SessionStep::Reply(m) => StepModel::Reply(m@),
            SessionStep::Register { identity, reply } => StepModel::Register {
                identity: identity@,
                reply: reply@,
            },
            SessionStep::Deliver(s) => StepModel::Deliver(s@),
            SessionStep::Silent => StepModel::Silent,
        }
    }
}

/// How the command `cmd` takes the daemon from `before` to `after` with step
/// `step`, given the random `suffix` for a new identity and the fresh
/// `message_id` and `timestamp` for a new message.
pub open spec fn handled(
    before: DaemonState,
    after: DaemonState,
    cmd: GuiToDaemonCommand,
    suffix: Seq<char>,
    message_id: Seq<char>,
    timestamp: Timestamp,
    step: StepModel,
) -> bool {
    &&& after.wf()
    &&& match cmd {
        GuiToDaemonCommand::GetPeers => {
            &&& after == before
            &&& step == StepModel::Reply(ReplyModel::PeerList(before.registry.listing()))
        },
        GuiToDaemonCommand::SendMessage { recipient_id, content } => {
            &&& after == before
            &&& step == match send_plan(
                before.identity@,
                before.registry@,
                recipient_id@,
                content@,
                message_id,
                timestamp,
            ) {
                Ok(p) => StepModel::Deliver(p),
                Err(e) => StepModel::Reply(ReplyModel::Error(e)),
            }
        },
        GuiToDaemonCommand::RequestHistory { .. } => {
            &&& after == before
            &&& step == StepModel::Reply(ReplyModel::Error(NO_HISTORY_ERROR@))
        },
        GuiToDaemonCommand::SetUsername { username } => {
            let (next, res) = set_identity_step(before.identity@, username@, suffix);
            &&& after.identity@ == next
            &&& after.registry == before.registry
            &&& step == match res {
                Ok(id) => StepModel::Register {
                    identity: identity_of(username@, suffix),
                    reply: ReplyModel::IdentityInfo { user_id: id },
                },
                Err(_) => StepModel::Reply(ReplyModel::Error(ALREADY_SET_ERROR@)),
            }
        },
        GuiToDaemonCommand::ClearDaemonPeerCache => {
            &&& after.identity == before.identity
            &&& after.registry@ == Map::<Seq<char>, EntryModel>::empty()
            &&& step == StepModel::Silent
        },
    }
}

impl DaemonState {
    /// The registry is well formed.
    pub open spec fn wf(&self) -> bool {
        self.registry.wf()
    }

    /// A daemon with no identity and no known peer.
    pub fn new() -> (r: DaemonState)
        ensures
            r.wf(),
            r.identity@ is None,
            r.registry@ == Map::<Seq<char>, EntryModel>::empty(),
    {
        DaemonState { identity: IdentityManager::new(), registry: PeerRegistry::new() }
    }

    /// Carries out `cmd` with the given random suffix, message id and time.
    pub fn handle_command_with(
        &mut self,
        cmd: GuiToDaemonCommand,
        suffix: &str,
        message_id: &str,
        timestamp: Timestamp,
    ) -> (r: SessionStep)
        requires
            old(self).wf(),
        ensures
            handled(*old(self), *final(self), cmd, suffix@, message_id@, timestamp, r@),
    {
        match cmd {
            GuiToDaemonCommand::GetPeers => {
                let peers = self.registry.list();
                SessionStep::Reply(DaemonToGuiMessage::PeerList(peers))
            },
            GuiToDaemonCommand::SendMessage { recipient_id, content } => {
                match plan_send(
                    &self.identity,
                    &self.registry,
                    recipient_id.as_str(),
                    content.as_str(),
                    message_id,
                    timestamp,
                ) {
                    Ok(p) => SessionStep::Deliver(p),
                    Err(e) => SessionStep::Reply(DaemonToGuiMessage::Error(e)),
                }
            },
            GuiToDaemonCommand::RequestHistory { .. } => {
                SessionStep::Reply(DaemonToGuiMessage::Error(String::from_str(NO_HISTORY_ERROR)))
            },
            GuiToDaemonCommand::SetUsername { username } => {
                match self.identity.set_identity(username.as_str(), suffix) {
                    Ok(id) => SessionStep::Register {
                        identity: derive_identity(username.as_str(), suffix),
                        reply: DaemonToGuiMessage::IdentityInfo { user_id: id },
                    },
                    Err(_) => SessionStep::Reply(
                        DaemonToGuiMessage::Error(String::from_str(ALREADY_SET_ERROR)),
                    ),
                }
            },
            GuiToDaemonCommand::ClearDaemonPeerCache => {
                self.registry.clear();
                SessionStep::Silent
            },
        }
    }

    /// Carries out `cmd`, drawing a random suffix, a fresh message id and the
    /// current time where the command needs them.
    pub fn handle_command(&mut self, cmd: GuiToDaemonCommand) -> (r: SessionStep)
        requires
            old(self).wf(),
        ensures
            exists|suffix: Seq<char>, message_id: Seq<char>, timestamp: Timestamp|
                valid_suffix(suffix) && handled(*old(self), *final(self), cmd, suffix, message_id, timestamp, r@),
    {
        let suffix = random_alphanumeric(SUFFIX_LEN);
        let message_id = fresh_message_id();
        let timestamp = current_time();
        assert(valid_suffix(suffix@));
        self.handle_command_with(cmd, suffix.as_str(), message_id.as_str(), timestamp)
    }
}

/// The reply to a line that is not a known command.
pub fn invalid_command(reason: &str) -> (r: DaemonToGuiMessage)
    ensures
        r@ == ReplyModel::Error("Invalid command format: "@ + reason@),
{
    let mut s = String::from_str("Invalid command format: ");
    s.append(reason);
    DaemonToGuiMessage::Error(s)
}

/// A message as this daemon hands it on after receiving it from a peer.
pub open spec fn received(m: MessageModel) -> MessageModel {
    MessageModel { is_self: false, ..m }
}

/// The record that forwards a message received from a peer to the front-end.
pub fn accept_inbound(msg: Message) -> (r: DaemonToGuiMessage)
    ensures
        r@ == ReplyModel::NewMessage(received(msg@)),
{
    let mut m = msg;
    m.is_self = false;
    DaemonToGuiMessage::NewMessage(m)
}

/// `s` without leading and trailing white space (`str::trim`).
pub uninterp spec fn trimmed(s: Seq<char>) -> Seq<char>;

/// Relies on `str::trim`: the text without leading and trailing white space;
/// empty text stays empty.
#[verifier::external_body]
fn trim_text(s: &str) -> (r: String)
    ensures
        r@ == trimmed(s@),
        s@.len() == 0 ==> r@.len() == 0,
{
    s.trim().to_string()
}

/// The record carried by one received line: the line without surrounding
/// white space, or nothing when that leaves it empty.
pub fn frame_line(line: &str) -> (r: Option<String>)
    ensures
        match r {
            Some(t) => t@ == trimmed(line@) && t@.len() > 0,
            None => trimmed(line@).len() == 0,
        },
{
    let t = trim_text(line);
    if t.unicode_len() == 0 {
        None
    } else {
        Some(t)
    }
}

/// One encoded record as a line of the wire: the record and a newline.
pub fn record_line(record: &str) -> (r: String)
    ensures
        r@ == record@.push('\n'),
{
    let mut s = String::from_str(record);
    push_char(&mut s, '\n');
    s
}

/// Asking for the peers twice in a row changes nothing and gives the same
/// list both times.
pub proof fn lemma_get_peers_pure(
    d0: DaemonState,
    d1: DaemonState,
    d2: DaemonState,
    suffix: Seq<char>,
    message_id: Seq<char>,
    timestamp: Timestamp,
    first: StepModel,
    second: StepModel,
)
    requires
        handled(d0, d1, GuiToDaemonCommand::GetPeers, suffix, message_id, timestamp, first),
        handled(d1, d2, GuiToDaemonCommand::GetPeers, suffix, message_id, timestamp, second),
    ensures
        d2 == d0,
        first == second,
{
}

/// With an identity set, sending to an id that no known peer has is refused
/// with an error naming that id, and nothing is delivered.
pub proof fn lemma_unknown_recipient_refused(
    d0: DaemonState,
    d1: DaemonState,
    recipient_id: String,
    content: String,
    suffix: Seq<char>,
    message_id: Seq<char>,
    timestamp: Timestamp,
    step: StepModel,
)
    requires
        d0.identity@ is Some,
        !d0.registry@.contains_key(recipient_id@),
        handled(d0, d1, GuiToDaemonCommand::SendMessage { recipient_id, content }, suffix, message_id, timestamp, step),
    ensures
        step == StepModel::Reply(ReplyModel::Error(not_found_text(recipient_id@))),
        not_found_text(recipient_id@).subrange(11, 11 + recipient_id@.len() as int) == recipient_id@,
        !(step is Deliver),
        d1 == d0,
{
    reveal_strlit("Recipient '");
    assert(not_found_text(recipient_id@).subrange(11, 11 + recipient_id@.len() as int) =~= recipient_id@);
}

/// Clearing the peer cache and then asking for the peers gives an empty list,
/// whatever was known before.
pub proof fn lemma_clear_then_list_empty(
    d0: DaemonState,
    d1: DaemonState,
    d2: DaemonState,
    suffix: Seq<char>,
    message_id: Seq<char>,
    timestamp: Timestamp,
    first: StepModel,
    second: StepModel,
)
    requires
        handled(d0, d1, GuiToDaemonCommand::ClearDaemonPeerCache, suffix, message_id, timestamp, first),
        handled(d1, d2, GuiToDaemonCommand::GetPeers, suffix, message_id, timestamp, second),
    ensures
        second == StepModel::Reply(ReplyModel::PeerList(Seq::empty())),
{
    d1.registry.lemma_listing_exact();
    assert(d1.registry.listing() =~= Seq::empty());
}

/// A message sent to a known peer carries the content, the sender's full id
/// and `is_self == false`, and the receiving daemon forwards it to its
/// front-end unchanged.
pub proof fn lemma_round_trip(
    d0: DaemonState,
    d1: DaemonState,
    me: IdentityModel,
    recipient_id: String,
    content: String,
    suffix: Seq<char>,
    message_id: Seq<char>,
    timestamp: Timestamp,
    step: StepModel,
)
    requires
        d0.identity@ == Some(me),
        d0.registry@.contains_key(recipient_id@),
        handled(d0, d1, GuiToDaemonCommand::SendMessage { recipient_id, content }, suffix, message_id, timestamp, step),
    ensures
        step is Deliver,
        ({
            let m = step->Deliver_0.message;
            &&& m.content == content@
            &&& m.sender == me.full_id
            &&& m.recipient == recipient_id@
            &&& !m.is_self
            &&& received(m) == m
        }),
{
}

} // verus!
