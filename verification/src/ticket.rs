//! Tickets: the portable locator of an offered blob, and its codec.
//!
//! A ticket names the offering peer, the hash of the content and the format
//! of the content. The text form is the one `iroh_base` gives its blob
//! tickets; this module holds the ticket as plain values and checks, each
//! time it writes a ticket out, that the text reads back as the same ticket.

use iroh_base::hash::BlobFormat;
use iroh_base::key::PublicKey;
use iroh_base::node_addr::NodeAddr;
use iroh_base::ticket::BlobTicket;
use vstd::prelude::*;

use crate::error::{SessionError, SessionErrorView};

verus! {

/// What the bytes named by a content hash are.
#[derive(Clone, Copy, Debug, PartialEq, Eq, Structural)]
pub enum ContentFormat {
    /// A single raw blob.
    Raw,
    /// A sequence of hashes, standing for a collection.
    HashSeq,
}

/// The identity of the offering node and the places where it may be reached.
#[derive(Debug)]
pub struct PeerAddress {
    /// The node's public key.
    pub node_id: [u8; 32],
    /// The URL of the node's home relay, if it has one.
    pub relay_url: Option<String>,
    /// Socket addresses (`ip:port`) at which the node may be reached directly.
    /// Order and repetition carry no meaning.
    pub direct_addresses: Vec<String>,
}

/// A self-contained locator: who offers the content, which content, in which
/// format.
#[derive(Debug)]
pub struct Ticket {
    pub peer_address: PeerAddress,
    pub content_hash: [u8; 32],
    pub content_format: ContentFormat,
}

/// The mathematical value of a [`PeerAddress`].
#[verifier::ext_equal]
pub struct PeerAddressView {
    pub node_id: Seq<u8>,
    pub relay_url: Option<Seq<char>>,
    pub direct_addresses: Set<Seq<char>>,
}

/// The mathematical value of a [`Ticket`].
#[verifier::ext_equal]
pub struct TicketView {
    pub peer_address: PeerAddressView,
    pub content_hash: Seq<u8>,
    pub content_format: ContentFormat,
}

/// The set of the texts in a list.
pub open spec fn text_set(list: Seq<String>) -> Set<Seq<char>> {
    Set::new(|text: Seq<char>| exists|i: int| 0 <= i < list.len() && #[trigger] list[i]@ == text)
}

/// The value of an optional text.
pub open spec fn text_option_view(text: Option<String>) -> Option<Seq<char>> {
    match text {
        Some(t) => Some(t@),
        None => None,
    }
}

/// The value of an optional ticket.
pub open spec fn ticket_option_view(ticket: Option<Ticket>) -> Option<TicketView> {
    match ticket {
        Some(t) => Some(t@),
        None => None,
    }
}

impl View for PeerAddress {
    type V = PeerAddressView;

    open spec fn view(&self) -> PeerAddressView {
        PeerAddressView {
            node_id: self.node_id@,
            relay_url: text_option_view(self.relay_url),
            direct_addresses: text_set(self.direct_addresses@),
        }
    }
}

impl View for Ticket {
    type V = TicketView;

    open spec fn view(&self) -> TicketView {
        TicketView {
            peer_address: self.peer_address@,
            content_hash: self.content_hash@,
            content_format: self.content_format,
        }
    }
}

impl PeerAddress {
    /// The address of a node known by its identity alone.
    pub fn new(node_id: [u8; 32]) -> (res: PeerAddress)
        ensures
            res@.node_id == node_id@,
            res@.relay_url is None,
            res@.direct_addresses == Set::<Seq<char>>::empty(),
    {
        PeerAddress { node_id, relay_url: None, direct_addresses: Vec::new() }
    }
}

impl Clone for PeerAddress {
    /// A copy of this address.
    fn clone(&self) -> (res: PeerAddress)
        ensures
            res@ == self@,
    {
        let mut direct_addresses: Vec<String> = Vec::new();
        let mut i: usize = 0;
        while i < self.direct_addresses.len()
            invariant
                i <= self.direct_addresses.len(),
                direct_addresses@ == self.direct_addresses@.subrange(0, i as int),
            decreases self.direct_addresses.len() - i,
        {
            direct_addresses.push(self.direct_addresses[i].clone());
            i += 1;
        }
        assert(direct_addresses@ =~= self.direct_addresses@);
        let relay_url = match &self.relay_url {
            Some(url) => Some(url.clone()),
            None => None,
        };
        PeerAddress { node_id: self.node_id, relay_url, direct_addresses }
    }
}

impl Clone for Ticket {
    /// A copy of this ticket.
    fn clone(&self) -> (res: Ticket)
        ensures
            res@ == self@,
    {
        Ticket {
            peer_address: self.peer_address.clone(),
            content_hash: self.content_hash,
            content_format: self.content_format,
        }
    }
}

impl Ticket {
    /// The ticket for `content_hash`, in `content_format`, offered by
    /// `peer_address`.
    pub fn new(peer_address: PeerAddress, content_hash: [u8; 32], content_format: ContentFormat) -> (res:
        Ticket)
        ensures
            res.peer_address == peer_address,
            res.content_hash == content_hash,
            res.content_format == content_format,
    {
        Ticket { peer_address, content_hash, content_format }
    }
}

/// The kind that the text of every blob ticket begins with.
pub open spec fn kind_text() -> Seq<char> {
    "blob"@
}

/// Whether a text begins with the kind of a blob ticket.
pub open spec fn has_kind(text: Seq<char>) -> bool {
    kind_text().is_prefix_of(text)
}

/// The text that `iroh_base`'s blob ticket prints for the ticket made of
/// these values; `None` where the values make no such ticket (the node
/// identity is no public key, the relay text no URL, or an address text no
/// socket address).
pub uninterp spec fn ticket_text(ticket: TicketView) -> Option<Seq<char>>;

/// The ticket that `iroh_base` reads from a text, as plain values; `None`
/// where it reads none.
pub uninterp spec fn ticket_parse(text: Seq<char>) -> Option<TicketView>;

/// Builds `iroh_base::ticket::BlobTicket` from the plain values (through
/// `PublicKey::from_bytes`, the `FromStr` of `RelayUrl` and of the socket
/// address, `NodeAddr::from_parts`, the `From` of `Hash` and `BlobTicket::new`) and
/// prints it with its `Display`. Claimed: the outcome depends on the ticket's
/// value alone, is absent exactly where one of the conversions fails, and
/// begins with the ticket's kind.
#[verifier::external_body]
fn render_ticket(ticket: &Ticket) -> (res: Option<String>)
    ensures
        text_option_view(res) == ticket_text(ticket@),
        res matches Some(text) ==> has_kind(text@),
{
    let peer = &ticket.peer_address;
    let key = PublicKey::from_bytes(&peer.node_id).ok()?;
    let relay = match &peer.relay_url {
        Some(url) => Some(url.parse().ok()?),
        None => None,
    };
    let direct = peer.direct_addresses.iter().map(|a| a.parse()).collect::<Result<Vec<_>, _>>();
    let node = NodeAddr::from_parts(key, relay, direct.ok()?);
    let format = match ticket.content_format {
        ContentFormat::Raw => BlobFormat::Raw,
        ContentFormat::HashSeq => BlobFormat::HashSeq,
    };
    Some(BlobTicket::new(node, ticket.content_hash.into(), format).ok()?.to_string())
}

/// Reads a text with the `FromStr` of `iroh_base::ticket::BlobTicket` and
/// hands the ticket's parts out as plain values (`PublicKey::as_bytes`,
/// `Hash::as_bytes`, the `Display` of the relay URL and of each socket
/// address). Claimed: the outcome depends on the text alone, is absent
/// exactly where `from_str` fails, and `from_str` fails on a text that does
/// not begin with the ticket's kind.
#[verifier::external_body]
fn parse_ticket(text: &str) -> (res: Option<Ticket>)
    ensures
        ticket_option_view(res) == ticket_parse(text@),
        res is Some ==> has_kind(text@),
{
    let parsed = text.parse::<BlobTicket>().ok()?;
    let node = parsed.node_addr();
    let peer_address = PeerAddress {
        node_id: *node.node_id.as_bytes(),
        relay_url: node.relay_url().map(|url| url.to_string()),
        direct_addresses: node.direct_addresses().map(|a| a.to_string()).collect(),
    };
    let content_format = match parsed.format() {
        BlobFormat::Raw => ContentFormat::Raw,
        BlobFormat::HashSeq => ContentFormat::HashSeq,
    };
    Some(Ticket { peer_address, content_hash: *parsed.hash().as_bytes(), content_format })
}

/// Whether two byte arrays hold the same bytes.
pub fn same_bytes(a: &[u8; 32], b: &[u8; 32]) -> (res: bool)
    ensures
        res == (a@ == b@),
{
    let mut i: usize = 0;
    while i < 32
        invariant
            i <= 32,
            forall|j: int| 0 <= j < i ==> a@[j] == b@[j],
        decreases 32 - i,
    {
        if a[i] != b[i] {
            return false;
        }
        i += 1;
    }
    assert(a@ =~= b@);
    true
}

/// Whether two optional texts are the same.
pub fn same_optional_text(a: &Option<String>, b: &Option<String>) -> (res: bool)
    ensures
        res == (text_option_view(*a) == text_option_view(*b)),
{
    match a {
        Some(x) => match b {
            Some(y) => *x == *y,
            None => false,
        },
        None => b.is_none(),
    }
}

/// Whether a text occurs in a list.
pub fn holds_text(list: &Vec<String>, text: &String) -> (res: bool)
    ensures
        res == text_set(list@).contains(text@),
{
    let mut i: usize = 0;
    while i < list.len()
        invariant
            i <= list.len(),
            forall|j: int| 0 <= j < i ==> list@[j]@ != text@,
        decreases list.len() - i,
    {
        if list[i] == *text {
            return true;
        }
        i += 1;
    }
    false
}

/// Whether every text of `a` occurs in `b`.
pub fn covered_by(a: &Vec<String>, b: &Vec<String>) -> (res: bool)
    ensures
        res == text_set(a@).subset_of(text_set(b@)),
{
    let mut i: usize = 0;
    while i < a.len()
        invariant
            i <= a.len(),
            forall|j: int| 0 <= j < i ==> text_set(b@).contains(#[trigger] a@[j]@),
        decreases a.len() - i,
    {
        if !holds_text(b, &a[i]) {
            return false;
        }
        i += 1;
    }
    true
}

/// Whether two tickets have the same value: the same peer (its addresses
/// taken as a set), the same hash, the same format.
pub fn same_ticket(a: &Ticket, b: &Ticket) -> (res: bool)
    ensures
        res == (a@ == b@),
{
    let same_peer = same_bytes(&a.peer_address.node_id, &b.peer_address.node_id)
        && same_optional_text(&a.peer_address.relay_url, &b.peer_address.relay_url)
        && covered_by(&a.peer_address.direct_addresses, &b.peer_address.direct_addresses)
        && covered_by(&b.peer_address.direct_addresses, &a.peer_address.direct_addresses);
    let same_format = match (a.content_format, b.content_format) {
        (ContentFormat::Raw, ContentFormat::Raw) => true,
        (ContentFormat::HashSeq, ContentFormat::HashSeq) => true,
        _ => false,
    };
    let res = same_peer && same_bytes(&a.content_hash, &b.content_hash) && same_format;
    proof {
        if res {
            assert(a@ =~~= b@);
        }
    }
    res
}

/// What [`encode`] gives for a ticket: the codec's text for it, provided the
/// text is not empty and reads back as that ticket.
pub open spec fn encode_spec(ticket: TicketView) -> Option<Seq<char>> {
    match ticket_text(ticket) {
        Some(text) => if text.len() > 0 && ticket_parse(text) == Some(ticket) {
            Some(text)
        } else {
            None
        },
        None => None,
    }
}

/// What [`decode`] gives for a text: nothing for the empty text, else what
/// the codec reads.
pub open spec fn decode_spec(text: Seq<char>) -> Option<TicketView> {
    if text.len() == 0 {
        None
    } else {
        ticket_parse(text)
    }
}

/// Decides whether a rendered text may be given out for `ticket`: only if it
/// is not empty and `reparsed`, what the codec read back from it, is the
/// ticket again.
pub fn confirm_rendered(ticket: &Ticket, text: String, reparsed: Option<Ticket>) -> (res: Result<
    String,
    SessionError,
>)
    ensures
        match res {
            Ok(out) => out@ == text@ && text@.len() > 0 && ticket_option_view(reparsed) == Some(
                ticket@,
            ),
            Err(e) => e@ == SessionErrorView::MalformedTicket && !(text@.len() > 0
                && ticket_option_view(reparsed) == Some(ticket@)),
        },
{
    if text.as_str().is_empty() {
        return Err(SessionError::MalformedTicket);
    }
    match reparsed {
        Some(back) => {
            if same_ticket(&back, ticket) {
                Ok(text)
            } else {
                Err(SessionError::MalformedTicket)
            }
        },
        None => Err(SessionError::MalformedTicket),
    }
}

/// Decides what a read attempt amounts to: the ticket, or a malformed-ticket
/// failure where the codec read none.
pub fn accept_parsed(parsed: Option<Ticket>) -> (res: Result<Ticket, SessionError>)
    ensures
        match res {
            Ok(t) => parsed == Some(t),
            Err(e) => e@ == SessionErrorView::MalformedTicket && parsed is None,
        },
{
    match parsed {
        Some(t) => Ok(t),
        None => Err(SessionError::MalformedTicket),
    }
}

/// Writes a ticket as a single printable text.
///
/// The text depends on the ticket's value alone, so the order in which the
/// direct addresses are listed does not show in it. Succeeds exactly where
/// the codec has a text for the ticket that reads back as the same ticket;
/// a malformed part (a node identity that is no key, a relay URL or an
/// address that is not in the form the codec writes) is turned down.
pub fn encode(ticket: &Ticket) -> (res: Result<String, SessionError>)
    ensures
        match res {
            Ok(text) => encode_spec(ticket@) == Some(text@) && has_kind(text@),
            Err(e) => e@ == SessionErrorView::MalformedTicket && encode_spec(ticket@) is None,
        },
{
    match render_ticket(ticket) {
        Some(text) => {
            let reparsed = parse_ticket(text.as_str());
            confirm_rendered(ticket, text, reparsed)
        },
        None => Err(SessionError::MalformedTicket),
    }
}

/// Reads a ticket from its text.
///
/// The empty text is turned down at once, before the codec is asked; a text
/// that does not begin with the kind of a blob ticket is never read as one.
pub fn decode(text: &str) -> (res: Result<Ticket, SessionError>)
    ensures
        match res {
            Ok(t) => decode_spec(text@) == Some(t@),
            Err(e) => e@ == SessionErrorView::MalformedTicket && decode_spec(text@) is None,
        },
        text@.len() == 0 || !has_kind(text@) ==> res is Err,
{
    if text.is_empty() {
        return Err(SessionError::MalformedTicket);
    }
    accept_parsed(parse_ticket(text))
}

/// Round trip: whatever text [`encode`] gives for a ticket, [`decode`] reads
/// that ticket from it.
pub proof fn lemma_decode_inverts_encode(ticket: TicketView, text: Seq<char>)
    requires
        encode_spec(ticket) == Some(text),
    ensures
        decode_spec(text) == Some(ticket),
{
}

/// The same ticket always yields the same text, however its addresses are
/// listed: two tickets of one value encode alike.
pub proof fn lemma_encode_is_a_function_of_the_value(a: Ticket, b: Ticket)
    requires
        a@ == b@,
    ensures
        encode_spec(a@) == encode_spec(b@),
{
}

} // verus!
