use peer_transfer::{decode, encode, ContentFormat, PeerAddress, SessionError, Ticket};

const NODE_ID: [u8; 32] = [
    174, 88, 255, 136, 51, 36, 26, 200, 45, 111, 247, 97, 16, 70, 237, 103, 181, 7, 45, 20, 44, 88,
    141, 0, 99, 233, 66, 217, 167, 85, 2, 182,
];

const HASH: [u8; 32] = [
    11, 132, 211, 88, 228, 200, 190, 108, 56, 98, 107, 33, 130, 255, 87, 88, 24, 186, 107, 211, 244,
    185, 4, 100, 153, 75, 225, 76, 179, 84, 160, 114,
];

const RAW_TEXT: &str = "blobacxfr74igmsbvsbnn73wcecg5vt3kbzncqwfrdiampuufwnhkublmaaaaafyju2y4tel43bymjvsdax7k5mbrotl2p2lsbdetff6ctftksqhe";

const HASH_SEQ_TEXT: &str = "blobacxfr74igmsbvsbnn73wcecg5vt3kbzncqwfrdiampuufwnhkublmaaaaefyju2y4tel43bymjvsdax7k5mbrotl2p2lsbdetff6ctftksqhe";

fn bare_ticket(format: ContentFormat) -> Ticket {
    Ticket::new(PeerAddress::new(NODE_ID), HASH, format)
}

#[test]
fn encode_gives_the_known_text() {
    assert_eq!(encode(&bare_ticket(ContentFormat::Raw)).unwrap(), RAW_TEXT);
    assert_eq!(encode(&bare_ticket(ContentFormat::HashSeq)).unwrap(), HASH_SEQ_TEXT);
}

#[test]
fn decode_reads_the_known_text() {
    let ticket = decode(RAW_TEXT).unwrap();
    assert_eq!(ticket.peer_address.node_id, NODE_ID);
    assert_eq!(ticket.peer_address.relay_url, None);
    assert!(ticket.peer_address.direct_addresses.is_empty());
    assert_eq!(ticket.content_hash, HASH);
    assert_eq!(ticket.content_format, ContentFormat::Raw);
    assert_eq!(decode(HASH_SEQ_TEXT).unwrap().content_format, ContentFormat::HashSeq);
}

#[test]
fn round_trip_of_a_bare_ticket() {
    let ticket = bare_ticket(ContentFormat::Raw);
    let back = decode(&encode(&ticket).unwrap()).unwrap();
    assert_eq!(back.peer_address.node_id, ticket.peer_address.node_id);
    assert_eq!(back.peer_address.relay_url, ticket.peer_address.relay_url);
    assert_eq!(back.peer_address.direct_addresses, ticket.peer_address.direct_addresses);
    assert_eq!(back.content_hash, ticket.content_hash);
    assert_eq!(back.content_format, ticket.content_format);
}

#[test]
fn round_trip_with_relay_and_addresses() {
    let peer = PeerAddress {
        node_id: NODE_ID,
        relay_url: Some("https://relay.example./".to_string()),
        direct_addresses: vec!["127.0.0.1:1234".to_string(), "[::1]:4433".to_string()],
    };
    let ticket = Ticket::new(peer, HASH, ContentFormat::HashSeq);
    let text = encode(&ticket).unwrap();
    assert!(text.starts_with("blob"));
    let back = decode(&text).unwrap();
    assert_eq!(back.peer_address.node_id, NODE_ID);
    assert_eq!(back.peer_address.relay_url, Some("https://relay.example./".to_string()));
    assert_eq!(
        back.peer_address.direct_addresses,
        vec!["127.0.0.1:1234".to_string(), "[::1]:4433".to_string()]
    );
    assert_eq!(back.content_hash, HASH);
    assert_eq!(back.content_format, ContentFormat::HashSeq);
}

#[test]
fn address_order_and_repetition_do_not_show() {
    let listed = |addresses: Vec<&str>| {
        let peer = PeerAddress {
            node_id: NODE_ID,
            relay_url: None,
            direct_addresses: addresses.into_iter().map(|a| a.to_string()).collect(),
        };
        encode(&Ticket::new(peer, HASH, ContentFormat::Raw)).unwrap()
    };
    let one = listed(vec!["127.0.0.1:1234", "10.0.0.7:80"]);
    let other = listed(vec!["10.0.0.7:80", "127.0.0.1:1234", "10.0.0.7:80"]);
    assert_eq!(one, other);
    assert_ne!(one, RAW_TEXT);
}

#[test]
fn decode_rejects_the_empty_text() {
    assert!(matches!(decode(""), Err(SessionError::MalformedTicket)));
}

#[test]
fn decode_rejects_what_is_no_ticket() {
    assert!(matches!(decode("not-a-valid-ticket"), Err(SessionError::MalformedTicket)));
    assert!(matches!(decode("blob"), Err(SessionError::MalformedTicket)));
    assert!(matches!(decode("blob!!!"), Err(SessionError::MalformedTicket)));
    assert!(matches!(decode(&RAW_TEXT[..RAW_TEXT.len() - 3]), Err(SessionError::MalformedTicket)));
}

#[test]
fn encode_rejects_an_address_that_is_none() {
    let peer = PeerAddress {
        node_id: NODE_ID,
        relay_url: None,
        direct_addresses: vec!["nowhere".to_string()],
    };
    let res = encode(&Ticket::new(peer, HASH, ContentFormat::Raw));
    assert!(matches!(res, Err(SessionError::MalformedTicket)));
}

#[test]
fn encode_rejects_a_relay_that_is_no_url() {
    let peer = PeerAddress {
        node_id: NODE_ID,
        relay_url: Some("no url".to_string()),
        direct_addresses: Vec::new(),
    };
    let res = encode(&Ticket::new(peer, HASH, ContentFormat::Raw));
    assert!(matches!(res, Err(SessionError::MalformedTicket)));
}
