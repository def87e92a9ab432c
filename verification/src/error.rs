//! The failures a session can end with.

use vstd::prelude::*;
use vstd::string::*;

verus! {

/// Why a configuration was turned down.
#[derive(Clone, Copy, Debug, PartialEq, Eq, Structural)]
pub enum ConfigFault {
    /// Both the send and the receive mode were asked for.
    BothModes,
    /// Neither the send nor the receive mode was asked for.
    NoMode,
    /// The receive mode was asked for without a ticket, or with an empty one.
    MissingTicket,
    /// The receive mode was asked for with a destination that already exists.
    DestinationExists,
}

/// A failure that ends a session or the lifetime of its host.
#[derive(Debug, PartialEq, Eq)]
pub enum SessionError {
    /// The configuration was turned down before any network activity.
    InvalidConfiguration(ConfigFault),
    /// The ticket text does not name a peer, a content hash and a format.
    MalformedTicket,
    /// The download was not established and finalized within the window.
    ConnectionTimeout,
    /// The source path could not be resolved; the text is the system's.
    PathNotFound(String),
    /// A local read or write failed; the text is the system's.
    Io(String),
    /// A collaborator failed to start or to stop; the text is its own.
    HostLifecycle(String),
}

/// The mathematical value of a [`SessionError`].
pub enum SessionErrorView {
    InvalidConfiguration(ConfigFault),
    MalformedTicket,
    ConnectionTimeout,
    PathNotFound(Seq<char>),
    Io(Seq<char>),
    HostLifecycle(Seq<char>),
}

impl View for SessionError {
    type V = SessionErrorView;

    open spec fn view(&self) -> SessionErrorView {
        match self {
            SessionError::InvalidConfiguration(fault) => SessionErrorView::InvalidConfiguration(*fault),
            SessionError::MalformedTicket => SessionErrorView::MalformedTicket,
            SessionError::ConnectionTimeout => SessionErrorView::ConnectionTimeout,
            SessionError::PathNotFound(detail) => SessionErrorView::PathNotFound(detail@),
            SessionError::Io(detail) => SessionErrorView::Io(detail@),
            SessionError::HostLifecycle(detail) => SessionErrorView::HostLifecycle(detail@),
        }
    }
}

/// The text shown for a turned-down configuration.
pub open spec fn fault_text(fault: ConfigFault) -> Seq<char> {
    match fault {
        ConfigFault::BothModes => "Sending and receiving can't be asked for together."@,
        ConfigFault::NoMode => "Either sending or receiving must be asked for."@,
        ConfigFault::MissingTicket => "A non-empty ticket must be specified."@,
        ConfigFault::DestinationExists => "The recieving path can't be an existing one."@,
    }
}

/// The guidance shown when the download did not come about in time.
pub open spec fn timeout_text() -> Seq<char> {
    "Ticket connection timed out.\nMake sure the sender hasn't closed their connection and that you're using the right ticket."@
}

/// The text shown for a ticket that cannot be read or written.
pub open spec fn malformed_text() -> Seq<char> {
    "The ticket is malformed."@
}

/// The text that [`SessionError::message`] gives.
pub open spec fn message_text(error: SessionErrorView) -> Seq<char> {
    match error {
        SessionErrorView::InvalidConfiguration(fault) => fault_text(fault),
        SessionErrorView::MalformedTicket => malformed_text(),
        SessionErrorView::ConnectionTimeout => timeout_text(),
        SessionErrorView::PathNotFound(detail) => detail,
        SessionErrorView::Io(detail) => detail,
        SessionErrorView::HostLifecycle(detail) => detail,
    }
}

impl ConfigFault {
    /// The text shown for this fault.
    pub fn message(&self) -> (res: String)
        ensures
            res@ == fault_text(*self),
    {
        match self {
            ConfigFault::BothModes => String::from_str(
                "Sending and receiving can't be asked for together.",
            ),
            ConfigFault::NoMode => String::from_str("Either sending or receiving must be asked for."),
            ConfigFault::MissingTicket => String::from_str("A non-empty ticket must be specified."),
            ConfigFault::DestinationExists => String::from_str(
                "The recieving path can't be an existing one.",
            ),
        }
    }
}

impl SessionError {
    /// The text for the operator. What a collaborator or the system reported
    /// is handed on unchanged.
    pub fn message(&self) -> (res: String)
        ensures
            res@ == message_text(self@),
    {
        match self {
            SessionError::InvalidConfiguration(fault) => fault.message(),
            SessionError::MalformedTicket => String::from_str("The ticket is malformed."),
            SessionError::ConnectionTimeout => String::from_str(
                "Ticket connection timed out.\nMake sure the sender hasn't closed their connection and that you're using the right ticket.",
            ),
            SessionError::PathNotFound(detail) => detail.clone(),
            SessionError::Io(detail) => detail.clone(),
            SessionError::HostLifecycle(detail) => detail.clone(),
        }
    }
}

impl Clone for SessionError {
    /// A copy of this error.
    fn clone(&self) -> (res: SessionError)
        ensures
            res@ == self@,
    {
        match self {
            SessionError::InvalidConfiguration(fault) => SessionError::InvalidConfiguration(*fault),
            SessionError::MalformedTicket => SessionError::MalformedTicket,
            SessionError::ConnectionTimeout => SessionError::ConnectionTimeout,
            SessionError::PathNotFound(detail) => SessionError::PathNotFound(detail.clone()),
            SessionError::Io(detail) => SessionError::Io(detail.clone()),
            SessionError::HostLifecycle(detail) => SessionError::HostLifecycle(detail.clone()),
        }
    }
}

} // verus!
