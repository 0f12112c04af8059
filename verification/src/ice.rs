//! Short-lived TURN credentials, signed with HMAC-SHA1 under a shared secret.

use vstd::prelude::*;
use vstd::string::StringExecFns;
use vstd::utf8::encode_utf8;
use crate::limits::TURN_TTL;

verus! {

/// One entry of the ICE server list.
#[derive(Debug, PartialEq, Eq)]
pub struct IceServer {
    pub urls: String,
    pub username: String,
    pub credential: String,
}

/// What the server answers when a client asks how to reach its peers.
#[derive(Debug, PartialEq, Eq)]
pub struct IceConfig {
    pub ice_servers: Vec<IceServer>,
}

/// The HMAC-SHA1 tag of `message` under `key`, as the `hmac` and `sha1` crates
/// compute it.
pub uninterp spec fn hmac_sha1(key: Seq<u8>, message: Seq<u8>) -> Seq<u8>;

/// The text that `base64`'s `STANDARD` engine writes for `bytes`: the standard
/// alphabet, with padding.
pub uninterp spec fn base64_standard(bytes: Seq<u8>) -> Seq<char>;

/// Makes an `Hmac<Sha1>` with `new_from_slice`, feeds it `message` with
/// `update` and takes the tag with `finalize` and `into_bytes`. HMAC takes a
/// key of any length, so the first call does not fail. Believed: the result is
/// the tag that `hmac_sha1` names, and it has the 20 bytes of a SHA-1 output.
#[verifier::external_body]
pub(crate) fn compute_hmac_sha1(key: &[u8], message: &[u8]) -> (tag: Vec<u8>)
    ensures
        tag@ == hmac_sha1(key@, message@),
        tag@.len() == 20,
{
    let mut mac = <hmac::Hmac<sha1::Sha1> as hmac::Mac>::new_from_slice(key).expect(
        "HMAC can take key of any size",
    );
    hmac::Mac::update(&mut mac, message);
    hmac::Mac::finalize(mac).into_bytes().to_vec()
}

/// Calls `encode` of `base64::engine::general_purpose::STANDARD`. The call
/// panics where the encoded length does not fit in `usize`, which `requires`
/// leaves out. Believed: the result is the text that `base64_standard` names.
#[verifier::external_body]
pub(crate) fn encode_base64(bytes: &[u8]) -> (text: String)
    requires
        bytes@.len() / 3 * 4 + 4 <= usize::MAX,
    ensures
        text@ == base64_standard(bytes@),
{
    base64::Engine::encode(&base64::engine::general_purpose::STANDARD, bytes)
}

/// The decimal digit `d`.
pub open spec fn digit_char(d: int) -> char {
    if d == 0 {
        '0'
    } else if d == 1 {
        '1'
    } else if d == 2 {
        '2'
    } else if d == 3 {
        '3'
    } else if d == 4 {
        '4'
    } else if d == 5 {
        '5'
    } else if d == 6 {
        '6'
    } else if d == 7 {
        '7'
    } else if d == 8 {
        '8'
    } else {
        '9'
    }
}

/// `n` in decimal, without leading zeros.
pub open spec fn decimal(n: nat) -> Seq<char>
    decreases n,
{
    if n < 10 {
        seq![digit_char(n as int)]
    } else {
        decimal(n / 10).push(digit_char((n % 10) as int))
    }
}

/// The user name of a credential issued at `now`, in seconds since the epoch:
/// the instant at which it expires, then `:moli`.
pub open spec fn username_text(now: u64) -> Seq<char> {
    decimal((now + TURN_TTL) as nat) + ":moli"@
}

/// The password that belongs to `username` under `secret`: the base64 text of
/// the HMAC-SHA1 tag of the user name's bytes.
pub open spec fn credential_text(secret: Seq<u8>, username: Seq<char>) -> Seq<char> {
    base64_standard(hmac_sha1(secret, encode_utf8(username)))
}

/// The address of the TURN relay.
pub open spec fn turn_url() -> Seq<char> {
    "turn:moli-green.is:3478"@
}

/// The address of the STUN server that is offered as a fallback.
pub open spec fn stun_url() -> Seq<char> {
    "stun:stun.l.google.com:19302"@
}

fn digit_str(d: u8) -> (text: &'static str)
    requires
        d < 10,
    ensures
        text@ == seq![digit_char(d as int)],
{
    proof {
        reveal_strlit("0");
        reveal_strlit("1");
        reveal_strlit("2");
        reveal_strlit("3");
        reveal_strlit("4");
        reveal_strlit("5");
        reveal_strlit("6");
        reveal_strlit("7");
        reveal_strlit("8");
        reveal_strlit("9");
    }
    let text: &'static str = if d == 0 {
        "0"
    } else if d == 1 {
        "1"
    } else if d == 2 {
        "2"
    } else if d == 3 {
        "3"
    } else if d == 4 {
        "4"
    } else if d == 5 {
        "5"
    } else if d == 6 {
        "6"
    } else if d == 7 {
        "7"
    } else if d == 8 {
        "8"
    } else {
        "9"
    };
    assert(text@ =~= seq![digit_char(d as int)]);
    text
}

/// Appends `n` in decimal to `out`.
pub fn append_decimal(out: &mut String, n: u128)
    ensures
        final(out)@ == old(out)@ + decimal(n as nat),
    decreases n,
{
    if n >= 10 {
        append_decimal(out, n / 10);
    }
    let d: u8 = (n % 10) as u8;
    out.append(digit_str(d));
    assert(out@ =~= old(out)@ + decimal(n as nat));
}

/// The user name of a credential issued at `now`.
pub fn turn_username(now: u64) -> (username: String)
    ensures
        username@ == username_text(now),
{
    let expiry: u128 = now as u128 + TURN_TTL as u128;
    let mut username = String::new();
    append_decimal(&mut username, expiry);
    username.append(":moli");
    assert(username@ =~= username_text(now));
    username
}

/// The password that belongs to `username` under `secret`.
pub fn turn_credential(secret: &[u8], username: &str) -> (credential: String)
    ensures
        credential@ == credential_text(secret@, username@),
{
    let tag = compute_hmac_sha1(secret, username.as_bytes());
    encode_base64(tag.as_slice())
}

/// The ICE configuration issued at `now` under `secret`: the TURN relay with a
/// credential that expires after `TURN_TTL` seconds, then the STUN fallback
/// with empty credentials. The same secret and instant give the same answer.
pub fn ice_config(secret: &[u8], now: u64) -> (config: IceConfig)
    ensures
        config.ice_servers@.len() == 2,
        config.ice_servers@[0].urls@ == turn_url(),
        config.ice_servers@[0].username@ == username_text(now),
        config.ice_servers@[0].credential@ == credential_text(secret@, username_text(now)),
        config.ice_servers@[1].urls@ == stun_url(),
        config.ice_servers@[1].username@ == Seq::<char>::empty(),
        config.ice_servers@[1].credential@ == Seq::<char>::empty(),
{
    let username = turn_username(now);
    let credential = turn_credential(secret, username.as_str());
    let turn = IceServer { urls: "turn:moli-green.is:3478".to_owned(), username, credential };
    let stun = IceServer {
        urls: "stun:stun.l.google.com:19302".to_owned(),
        username: String::new(),
        credential: String::new(),
    };
    let mut ice_servers: Vec<IceServer> = Vec::new();
    ice_servers.push(turn);
    ice_servers.push(stun);
    IceConfig { ice_servers }
}

} // verus!
