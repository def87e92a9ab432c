//! The configuration of one invocation, and the rules it must meet before a
//! session may start.

use vstd::prelude::*;

use crate::error::{ConfigFault, SessionError, SessionErrorView};
use crate::ticket::text_option_view;

verus! {

/// What one invocation asks for.
#[derive(Clone, Debug, PartialEq, Eq)]
pub struct Args {
    /// Offer the file at `path`.
    pub send: bool,
    /// Fetch the ticket's content into `path`.
    pub receive: bool,
    /// The ticket to fetch by; after a send, the ticket that was minted.
    pub ticket: Option<String>,
    /// The source file when sending, the destination when receiving.
    pub path: String,
}

/// The mathematical value of [`Args`].
#[verifier::ext_equal]
pub struct ArgsView {
    pub send: bool,
    pub receive: bool,
    pub ticket: Option<Seq<char>>,
    pub path: Seq<char>,
}

impl View for Args {
    type V = ArgsView;

    open spec fn view(&self) -> ArgsView {
        ArgsView {
            send: self.send,
            receive: self.receive,
            ticket: text_option_view(self.ticket),
            path: self.path@,
        }
    }
}

/// The one mode a session runs in.
#[derive(Clone, Copy, Debug, PartialEq, Eq, Structural)]
pub enum SessionMode {
    Send,
    Receive,
}

/// Whether a ticket is absent or empty.
pub open spec fn ticket_missing(ticket: Option<Seq<char>>) -> bool {
    match ticket {
        Some(text) => text.len() == 0,
        None => true,
    }
}

/// The first rule that a configuration breaks, if it breaks any: exactly one
/// mode; when receiving, a non-empty ticket; when receiving, a destination
/// that does not exist yet.
pub open spec fn config_fault(
    send: bool,
    receive: bool,
    ticket: Option<Seq<char>>,
    path_exists: bool,
) -> Option<ConfigFault> {
    if send && receive {
        Some(ConfigFault::BothModes)
    } else if !send && !receive {
        Some(ConfigFault::NoMode)
    } else if receive && ticket_missing(ticket) {
        Some(ConfigFault::MissingTicket)
    } else if receive && path_exists {
        Some(ConfigFault::DestinationExists)
    } else {
        None
    }
}

impl ArgsView {
    /// Whether the configuration meets the rules that do not depend on the
    /// file system.
    pub open spec fn well_formed(self) -> bool {
        config_fault(self.send, self.receive, self.ticket, false) is None
    }

    /// The ticket text, or the empty text where there is none.
    pub open spec fn ticket_text(self) -> Seq<char> {
        match self.ticket {
            Some(text) => text,
            None => Seq::empty(),
        }
    }
}

impl Args {
    /// Whether a ticket is absent or empty.
    fn lacks_ticket(&self) -> (res: bool)
        ensures
            res == ticket_missing(self@.ticket),
    {
        match &self.ticket {
            Some(text) => text.as_str().is_empty(),
            None => true,
        }
    }

    /// Holds the configuration to the rules. `path_exists` says whether
    /// something already exists at `path`.
    pub fn run_checks(&self, path_exists: bool) -> (res: Result<(), SessionError>)
        ensures
            match res {
                Ok(_) => config_fault(self.send, self.receive, self@.ticket, path_exists) is None,
                Err(e) => config_fault(self.send, self.receive, self@.ticket, path_exists) matches Some(
                    fault,
                ) && e@ == SessionErrorView::InvalidConfiguration(fault),
            },
    {
        if self.send && self.receive {
            return Err(SessionError::InvalidConfiguration(ConfigFault::BothModes));
        }
        if !self.send && !self.receive {
            return Err(SessionError::InvalidConfiguration(ConfigFault::NoMode));
        }
        if self.receive && self.lacks_ticket() {
            return Err(SessionError::InvalidConfiguration(ConfigFault::MissingTicket));
        }
        if self.receive && path_exists {
            return Err(SessionError::InvalidConfiguration(ConfigFault::DestinationExists));
        }
        Ok(())
    }

    /// A configuration that meets the rules, or the first rule it breaks.
    /// `path_exists` says whether something already exists at `path`.
    pub fn new(send: bool, receive: bool, ticket: Option<String>, path: String, path_exists: bool) -> (res:
        Result<Args, SessionError>)
        ensures
            match res {
                Ok(args) => config_fault(send, receive, text_option_view(ticket), path_exists) is None
                    && args.send == send && args.receive == receive && args.ticket == ticket
                    && args.path == path,
                Err(e) => config_fault(send, receive, text_option_view(ticket), path_exists) matches Some(
                    fault,
                ) && e@ == SessionErrorView::InvalidConfiguration(fault),
            },
    {
        let args = Args { send, receive, ticket, path };
        match args.run_checks(path_exists) {
            Ok(_) => Ok(args),
            Err(e) => Err(e),
        }
    }

    /// The mode of a configuration that asks for exactly one.
    pub fn mode(&self) -> (res: Option<SessionMode>)
        ensures
            res == mode_of(self@),
    {
        if self.send && !self.receive {
            Some(SessionMode::Send)
        } else if self.receive && !self.send {
            Some(SessionMode::Receive)
        } else {
            None
        }
    }
}

/// The mode a configuration asks for, where it asks for exactly one.
pub open spec fn mode_of(args: ArgsView) -> Option<SessionMode> {
    if args.send && !args.receive {
        Some(SessionMode::Send)
    } else if args.receive && !args.send {
        Some(SessionMode::Receive)
    } else {
        None
    }
}

/// A configuration with both modes, or with neither, is turned down, whatever
/// the ticket and the path.
pub proof fn lemma_exactly_one_mode(send: bool, receive: bool, ticket: Option<Seq<char>>, path_exists: bool)
    requires
        send == receive,
    ensures
        config_fault(send, receive, ticket, path_exists) is Some,
{
}

/// A receive configuration without a ticket, or with an empty one, is turned
/// down whether or not the destination exists.
pub proof fn lemma_receive_needs_ticket(send: bool, ticket: Option<Seq<char>>, path_exists: bool)
    requires
        ticket_missing(ticket),
    ensures
        config_fault(send, true, ticket, path_exists) is Some,
        !send ==> config_fault(send, true, ticket, path_exists) == Some(ConfigFault::MissingTicket),
{
}

/// A receive configuration whose destination already exists is turned down.
pub proof fn lemma_receive_needs_fresh_destination(send: bool, ticket: Option<Seq<char>>)
    ensures
        config_fault(send, true, ticket, true) is Some,
{
}

/// A configuration that passes names exactly one mode, and a non-empty
/// ticket when that mode is receive.
pub proof fn lemma_accepted_configuration(args: ArgsView, path_exists: bool)
    requires
        config_fault(args.send, args.receive, args.ticket, path_exists) is None,
    ensures
        args.well_formed(),
        mode_of(args) is Some,
        args.receive ==> args.ticket_text().len() > 0,
{
}

} // verus!
