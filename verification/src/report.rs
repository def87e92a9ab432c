//! The texts a session shows on its output stream.

use vstd::prelude::*;
use vstd::string::*;

verus! {

/// The name under which the tool is run, as shown in the receive hint.
pub const APP_NAME: &'static str = "peer_transfer";

/// The text shown when a download begins.
pub open spec fn starting_text() -> Seq<char> {
    "Starting download..."@
}

/// The text shown when a download is stored.
pub open spec fn finished_text() -> Seq<char> {
    "Download finished!"@
}

/// The text used where a ticket is to be minted before the endpoint has an
/// identity.
pub open spec fn no_identity_text() -> Seq<char> {
    "The endpoint has no identity."@
}

/// The text shown on a terminal once a file is offered: that the connection
/// is open, and the very invocation that fetches the file.
pub open spec fn hint_text(ticket: Seq<char>, path: Seq<char>) -> Seq<char> {
    "Opened connection!\nYou can now recieve the data by running the app like so:\n    "@ + APP_NAME@
        + " --receive --ticket "@ + ticket + " "@ + path
}

/// What is shown once a file is offered: on a terminal the hint, elsewhere
/// the bare ticket.
pub open spec fn offer_text(is_interactive: bool, ticket: Seq<char>, path: Seq<char>) -> Seq<char> {
    if is_interactive {
        hint_text(ticket, path)
    } else {
        ticket
    }
}

/// The text shown when a download begins.
pub fn starting() -> (res: String)
    ensures
        res@ == starting_text(),
{
    String::from_str("Starting download...")
}

/// The text shown when a download is stored.
pub fn finished() -> (res: String)
    ensures
        res@ == finished_text(),
{
    String::from_str("Download finished!")
}

/// The text used where a ticket is to be minted before the endpoint has an
/// identity.
pub fn no_identity() -> (res: String)
    ensures
        res@ == no_identity_text(),
{
    String::from_str("The endpoint has no identity.")
}

/// What is shown once a file is offered: on a terminal the hint with the
/// invocation that fetches the file, elsewhere the bare ticket and nothing
/// else.
pub fn offer(is_interactive: bool, ticket: &str, path: &str) -> (res: String)
    ensures
        res@ == offer_text(is_interactive, ticket@, path@),
        !is_interactive ==> res@ == ticket@,
{
    if is_interactive {
        let text = String::from_str(
            "Opened connection!\nYou can now recieve the data by running the app like so:\n    ",
        );
        let text = text.concat(APP_NAME);
        let text = text.concat(" --receive --ticket ");
        let text = text.concat(ticket);
        let text = text.concat(" ");
        text.concat(path)
    } else {
        String::from_str(ticket)
    }
}

} // verus!
