//! Verified core of a peer-to-peer file exchange tool.
//!
//! One party offers a local file and obtains a portable ticket; a second
//! party, holding only that ticket, fetches the file from the first party's
//! endpoint. This crate holds the decisions of such a run and performs no
//! I/O itself: a driver carries out each [`Action`] that the run hands out
//! and answers with an [`Event`].
//!
//! - [`ticket`]: the ticket and its codec, with the round trip between
//!   writing and reading.
//! - [`args`]: the configuration and the rules it must meet before anything
//!   starts.
//! - [`host`]: the endpoint, the content store and the router, brought up
//!   and torn down as one unit.
//! - [`session`]: the send flow, the receive flow, and the whole run from
//!   bring-up to teardown.
//! - [`report`], [`error`]: the texts shown and the failures reported.
//! - [`protocol`]: what passes between the run and its driver.
//! - [`guarantees`]: what holds of every run, whatever the driver answers.

pub mod args;
pub mod error;
pub mod guarantees;
pub mod host;
pub mod protocol;
pub mod report;
pub mod session;
pub mod ticket;

pub use args::{Args, SessionMode};
pub use error::{ConfigFault, SessionError};
pub use host::{HostPhase, IrohData};
pub use protocol::{Action, Event, IngestRequest, TransferOutcome, DOWNLOAD_TIMEOUT_SECS};
pub use session::{App, Outcome, Stage};
pub use ticket::{decode, encode, ContentFormat, PeerAddress, Ticket};
