//! A serverless local-network chat daemon: identity, peer registry, discovery
//! records and events, message dispatch planning and the front-end session
//! protocol, each stated as a contract over mathematical models.

pub mod text;
pub mod address;
pub mod config;
pub mod identity;
pub mod protocol;
pub mod registry;
pub mod discovery;
pub mod dispatch;
pub mod session;
pub mod settings;

pub use address::IpAddress;
pub use discovery::{InterfaceAddress, ResolvedService, ServiceRecord};
pub use dispatch::{OutboundSend, SendFailure};
pub use identity::{IdentityError, IdentityManager, UserIdentity};
pub use protocol::{DaemonToGuiMessage, GuiToDaemonCommand, IpcPeer, Message, Timestamp};
pub use registry::{PeerEntry, PeerRegistry};
pub use session::{DaemonState, SessionStep};
pub use settings::SettingsState;
