use nwc_bridge::codec::seal_response;
use nwc_bridge::session::Tag;
use nwc_bridge::codec::open_request;
use nwc_bridge::session::{EventMeta, Id32, KIND_WALLET_CONNECT_REQUEST};

const SENDER_SECRET: &str = "6b911fd37cdf5c81d4c0adb1ab7fa822ed253ab0ad9aa18d77257c88b29b718e";
const RECEIVER_SECRET: &str = "7b911fd37cdf5c81d4c0adb1ab7fa822ed253ab0ad9aa18d77257c88b29b718e";
const CONTENT: &str = "dJc+WbBgaFCD2/kfg1XCWJParplBDxnZIdJGZ6FCTOg=?iv=M6VxRPkMZu7aIdD+10xPuw==";

fn id32(b: &[u8; 32]) -> Id32 {
    let w = |i: usize| u64::from_be_bytes(b[8 * i..8 * i + 8].try_into().unwrap());
    Id32 { w0: w(0), w1: w(1), w2: w(2), w3: w(3) }
}

fn sender_public() -> [u8; 32] {
    let sk = nostr::key::SecretKey::from_hex(SENDER_SECRET).unwrap();
    nostr::key::Keys::new(sk).public_key().to_bytes()
}

fn request_from(author: Id32, signature_valid: bool) -> EventMeta {
    EventMeta {
        id: Id32 { w0: 1, w1: 2, w2: 3, w3: 4 },
        kind: KIND_WALLET_CONNECT_REQUEST,
        author,
        signature_valid,
    }
}

#[test]
fn authenticated_request_is_decrypted() {
    let pk = sender_public();
    let client = id32(&pk);
    let server_secret = hex::decode(RECEIVER_SECRET).unwrap();
    let opened = open_request(&request_from(client, true), client, &server_secret, &pk, CONTENT);
    assert_eq!(opened, Some("Saturn, bringer of old age".to_string()));
}

#[test]
fn request_with_bad_signature_is_not_opened() {
    let pk = sender_public();
    let client = id32(&pk);
    let server_secret = hex::decode(RECEIVER_SECRET).unwrap();
    assert_eq!(open_request(&request_from(client, false), client, &server_secret, &pk, CONTENT), None);
}

#[test]
fn malformed_content_is_not_opened() {
    let pk = sender_public();
    let client = id32(&pk);
    let server_secret = hex::decode(RECEIVER_SECRET).unwrap();
    assert_eq!(open_request(&request_from(client, true), client, &server_secret, &pk, "no iv here"), None);
    assert_eq!(open_request(&request_from(client, true), client, &[0u8; 5], &pk, CONTENT), None);
}

#[test]
fn sealed_response_opens_to_the_same_text() {
    let client_secret = hex::decode(SENDER_SECRET).unwrap();
    let client_pk = sender_public();
    let server_sk = nostr::key::SecretKey::from_hex(RECEIVER_SECRET).unwrap();
    let server_pk = nostr::key::Keys::new(server_sk).public_key().to_bytes();
    let server_secret = hex::decode(RECEIVER_SECRET).unwrap();
    let request = request_from(id32(&client_pk), true);
    let json = "{\"result_type\":\"get_balance\"}";
    let d = "entry-7".to_string();
    let (sealed, tags) = seal_response(&request, Some(&d), &server_secret, &client_pk, json).unwrap();
    assert_ne!(sealed, json);
    assert_eq!(tags.len(), 3);
    assert!(matches!(&tags[2], Tag::Identifier(s) if s == "entry-7"));
    // The server opens it with its own pair, the client with the mirrored one.
    assert_eq!(open_request(&request, id32(&client_pk), &server_secret, &client_pk, &sealed), Some(json.to_string()));
    let from_server = request_from(id32(&server_pk), true);
    assert_eq!(open_request(&from_server, id32(&server_pk), &client_secret, &server_pk, &sealed), Some(json.to_string()));
}

#[test]
fn sealing_with_unusable_keys_gives_nothing() {
    let request = request_from(id32(&sender_public()), true);
    assert!(seal_response(&request, None, &[0u8; 3], &sender_public(), "x").is_none());
}
