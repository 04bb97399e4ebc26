use vstd::prelude::*;

use crate::session::{
    authenticated, id_view, is_authenticated, is_response_tags, response_tags, EventMeta, Id32, Tag,
};

verus! {

/// Relies on `nostr::nips::nip04::decrypt`: the plaintext that the shared
/// secret of a 32-byte secret key and a 32-byte x-only public key recovers
/// from an encrypted content, when both keys are valid and it decrypts.
pub uninterp spec fn nip04_plaintext(
    secret_key: Seq<u8>,
    public_key: Seq<u8>,
    content: Seq<char>,
) -> Option<Seq<char>>;

/// Relies on `nostr::key::SecretKey::from_slice`, `nostr::key::PublicKey::from_slice`
/// and `nostr::nips::nip04::decrypt`: the outcome depends on the key bytes
/// and the content alone.
#[verifier::external_body]
fn nip04_decrypt(secret_key: &[u8], public_key: &[u8], content: &str) -> (r: Option<String>)
    ensures
        match nip04_plaintext(secret_key@, public_key@, content@) {
            Some(p) => r matches Some(s) && s@ == p,
            None => r is None,
        },
{
    let sk = nostr::key::SecretKey::from_slice(secret_key).ok()?;
    let pk = nostr::key::PublicKey::from_slice(public_key).ok()?;
    nostr::nips::nip04::decrypt(&sk, &pk, content).ok()
}

/// Opens an incoming request: an event that is not an authenticated
/// request of the counterparty is never decrypted; otherwise its content is
/// decrypted with the server's secret key and the counterparty's public key.
/// `None` means there is nothing to answer.
pub fn open_request(
    meta: &EventMeta,
    counterparty: Id32,
    server_secret: &[u8],
    counterparty_public: &[u8],
    content: &str,
) -> (r: Option<String>)
    ensures
        !authenticated(*meta, counterparty) ==> r is None,
        match opened(*meta, counterparty, server_secret@, counterparty_public@, content@) {
            Some(p) => r matches Some(s) && s@ == p,
            None => r is None,
        },
{
    if !is_authenticated(meta, counterparty) {
        return None;
    }
    nip04_decrypt(server_secret, counterparty_public, content)
}

/// Relies on `nostr::key::SecretKey::from_slice`, `nostr::key::PublicKey::from_slice`
/// and `nostr::nips::nip04::encrypt`: the initialisation vector is random, so
/// only this is promised of every outcome: decrypting the result with the
/// same pair of keys gives the plaintext back (`encrypt_with_iv` and
/// `decrypt_to_bytes` derive the same shared key from that pair).
#[verifier::external_body]
fn nip04_encrypt(secret_key: &[u8], public_key: &[u8], plaintext: &str) -> (r: Option<String>)
    ensures
        r matches Some(c) ==> nip04_plaintext(secret_key@, public_key@, c@) == Some(plaintext@),
{
    let sk = nostr::key::SecretKey::from_slice(secret_key).ok()?;
    let pk = nostr::key::PublicKey::from_slice(public_key).ok()?;
    nostr::nips::nip04::encrypt(&sk, &pk, plaintext).ok()
}

/// Seals the answer to `request`: the serialized result encrypted for the
/// counterparty, and the tags that point back to the request (and to the
/// batch entry, when `id` is given). `None` when the keys are unusable.
pub fn seal_response(
    request: &EventMeta,
    id: Option<&String>,
    server_secret: &[u8],
    counterparty_public: &[u8],
    json: &str,
) -> (r: Option<(String, Vec<Tag>)>)
    ensures
        r matches Some((c, tags)) ==> nip04_plaintext(server_secret@, counterparty_public@, c@)
            == Some(json@) && is_response_tags(tags@, *request, id_view(id)),
{
    match nip04_encrypt(server_secret, counterparty_public, json) {
        Some(c) => Some((c, response_tags(request, id))),
        None => None,
    }
}

/// What a request opens to: nothing unless it is an authenticated request
/// of the counterparty, else the decryption of its content.
pub open spec fn opened(
    meta: EventMeta,
    counterparty: Id32,
    server_secret: Seq<u8>,
    counterparty_public: Seq<u8>,
    content: Seq<char>,
) -> Option<Seq<char>> {
    if authenticated(meta, counterparty) {
        nip04_plaintext(server_secret, counterparty_public, content)
    } else {
        None
    }
}

/// The codec round trip: an answer sealed with a key pair, carried in an
/// authenticated event, opens with the same pair to exactly the text that
/// was sealed.
pub proof fn lemma_sealed_response_opens(
    meta: EventMeta,
    counterparty: Id32,
    server_secret: Seq<u8>,
    counterparty_public: Seq<u8>,
    sealed: Seq<char>,
    json: Seq<char>,
)
    requires
        authenticated(meta, counterparty),
        nip04_plaintext(server_secret, counterparty_public, sealed) == Some(json),
    ensures
        opened(meta, counterparty, server_secret, counterparty_public, sealed) == Some(json),
{
}

} // verus!
