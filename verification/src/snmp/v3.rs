//! The SNMPv3 user-based security model (RFC 3414, RFC 3826): protocol
//! selection, password-to-key derivation and localisation, message
//! authentication, and privacy with AES in CFB-128 mode or DES in CBC mode.

use vstd::prelude::*;
use vstd::string::StringSliceAdditionalSpecFns;
use crate::snmp::ber::be_bytes;
use crate::text::{eq_str, to_owned_string, to_uppercase, uppercase};

verus! {

// ---------------------------------------------------------------------------
// Protocols
// ---------------------------------------------------------------------------

#[derive(Debug, Clone, Copy, PartialEq, Eq, Structural)]
pub enum AuthProtocol {
    /// No authentication.
    NoAuth,
    Md5,
    Sha1,
    Sha256,
    Sha256_192,
    Sha384,
    Sha512,
}

#[derive(Debug, Clone, Copy, PartialEq, Eq, Structural)]
pub enum PrivProtocol {
    /// No privacy.
    NoPriv,
    Des,
    Aes128,
    Aes192,
    Aes256,
}

/// Errors of the privacy and authentication operations.
#[derive(Debug, Clone, Copy, PartialEq, Eq, Structural)]
pub enum UsmError {
    /// The privacy parameter holds fewer than eight bytes.
    IvParamTooShort,
    /// The privacy key is shorter than the cipher needs (bytes needed).
    KeyTooShort(usize),
    /// No AES variant has this key length.
    UnsupportedKeyLength(usize),
    /// The DES key holds fewer than eight bytes.
    DesKeyTooShort,
    /// The DES key or the privacy parameter holds fewer than eight bytes.
    DesInvalidKeyOrIv,
    /// The DES ciphertext is not a whole number of blocks.
    DesDecrypt,
    /// No authentication protocol is configured.
    NoAuthProtocol,
}

/// The authentication protocol that an upper-cased name selects.
pub open spec fn auth_protocol_of(u: Seq<char>) -> AuthProtocol {
    if u == "MD5"@ {
        AuthProtocol::Md5
    } else if u == "SHA"@ || u == "SHA1"@ || u == "SHA-1"@ || u == "SHA96"@ || u == "HMACSHA96"@ {
        AuthProtocol::Sha1
    } else if u == "SHA256AUTH"@ || u == "SHA256-192"@ || u == "SHA-256-192"@ || u == "HMAC-SHA2-256-192"@ {
        AuthProtocol::Sha256_192
    } else if u == "SHA256"@ || u == "SHA-256"@ || u == "SHA2-256"@ || u == "SHA256-128"@
        || u == "HMACSHA256"@ || u == "HMAC-SHA2-256-128"@ {
        AuthProtocol::Sha256
    } else if u == "SHA384"@ || u == "SHA-384"@ || u == "SHA2-384"@ || u == "HMAC-SHA2-384-192"@ {
        AuthProtocol::Sha384
    } else if u == "SHA512"@ || u == "SHA-512"@ || u == "SHA2-512"@ || u == "HMAC-SHA2-512-256"@ {
        AuthProtocol::Sha512
    } else {
        AuthProtocol::NoAuth
    }
}

/// The privacy protocol that an upper-cased name selects.
pub open spec fn priv_protocol_of(u: Seq<char>) -> PrivProtocol {
    if u == "DES"@ || u == "DES-CBC"@ || u == "CBC-DES"@ {
        PrivProtocol::Des
    } else if u == "AES"@ || u == "AES128"@ || u == "AES-128"@ || u == "AES-128-CFB"@ {
        PrivProtocol::Aes128
    } else if u == "AES192"@ || u == "AES-192"@ || u == "AES-192-CFB"@ {
        PrivProtocol::Aes192
    } else if u == "AES256"@ || u == "AES-256"@ || u == "AES-256-CFB"@ {
        PrivProtocol::Aes256
    } else {
        PrivProtocol::NoPriv
    }
}

/// The authentication protocol named by an upper-case string.
pub fn auth_protocol_from_upper(u: &str) -> (r: AuthProtocol)
    ensures
        r == auth_protocol_of(u@),
{
    if eq_str(u, "MD5") {
        AuthProtocol::Md5
    } else if eq_str(u, "SHA") || eq_str(u, "SHA1") || eq_str(u, "SHA-1") || eq_str(u, "SHA96")
        || eq_str(u, "HMACSHA96") {
        AuthProtocol::Sha1
    } else if eq_str(u, "SHA256AUTH") || eq_str(u, "SHA256-192") || eq_str(u, "SHA-256-192")
        || eq_str(u, "HMAC-SHA2-256-192") {
        AuthProtocol::Sha256_192
    } else if eq_str(u, "SHA256") || eq_str(u, "SHA-256") || eq_str(u, "SHA2-256") || eq_str(
        u,
        "SHA256-128",
    ) || eq_str(u, "HMACSHA256") || eq_str(u, "HMAC-SHA2-256-128") {
        AuthProtocol::Sha256
    } else if eq_str(u, "SHA384") || eq_str(u, "SHA-384") || eq_str(u, "SHA2-384") || eq_str(
        u,
        "HMAC-SHA2-384-192",
    ) {
        AuthProtocol::Sha384
    } else if eq_str(u, "SHA512") || eq_str(u, "SHA-512") || eq_str(u, "SHA2-512") || eq_str(
        u,
        "HMAC-SHA2-512-256",
    ) {
        AuthProtocol::Sha512
    } else {
        AuthProtocol::NoAuth
    }
}

/// The privacy protocol named by an upper-case string.
pub fn priv_protocol_from_upper(u: &str) -> (r: PrivProtocol)
    ensures
        r == priv_protocol_of(u@),
{
    if eq_str(u, "DES") || eq_str(u, "DES-CBC") || eq_str(u, "CBC-DES") {
        PrivProtocol::Des
    } else if eq_str(u, "AES") || eq_str(u, "AES128") || eq_str(u, "AES-128") || eq_str(
        u,
        "AES-128-CFB",
    ) {
        PrivProtocol::Aes128
    } else if eq_str(u, "AES192") || eq_str(u, "AES-192") || eq_str(u, "AES-192-CFB") {
        PrivProtocol::Aes192
    } else if eq_str(u, "AES256") || eq_str(u, "AES-256") || eq_str(u, "AES-256-CFB") {
        PrivProtocol::Aes256
    } else {
        PrivProtocol::NoPriv
    }
}

impl AuthProtocol {
    /// Reads a protocol name case-insensitively (Unicode upper-casing);
    /// unknown names give no protocol.
    pub fn from_str(s: &str) -> (r: Self)
        ensures
            r == auth_protocol_of(uppercase(s@)),
    {
        let u = to_uppercase(s);
        auth_protocol_from_upper(u.as_str())
    }

    pub open spec fn digest_length_spec(&self) -> nat {
        match self {
            AuthProtocol::NoAuth => 0,
            AuthProtocol::Md5 => 12,
            AuthProtocol::Sha1 => 12,
            AuthProtocol::Sha256 => 16,
            AuthProtocol::Sha256_192 => 24,
            AuthProtocol::Sha384 => 24,
            AuthProtocol::Sha512 => 32,
        }
    }

    pub open spec fn key_length_spec(&self) -> nat {
        match self {
            AuthProtocol::NoAuth => 0,
            AuthProtocol::Md5 => 16,
            AuthProtocol::Sha1 => 20,
            AuthProtocol::Sha256 => 32,
            AuthProtocol::Sha256_192 => 32,
            AuthProtocol::Sha384 => 48,
            AuthProtocol::Sha512 => 64,
        }
    }

    /// Bytes of the truncated authentication code carried in a message.
    pub fn digest_length(&self) -> (r: usize)
        ensures
            r == self.digest_length_spec(),
    {
        match self {
            AuthProtocol::NoAuth => 0,
            AuthProtocol::Md5 => 12,
            AuthProtocol::Sha1 => 12,
            AuthProtocol::Sha256 => 16,
            AuthProtocol::Sha256_192 => 24,
            AuthProtocol::Sha384 => 24,
            AuthProtocol::Sha512 => 32,
        }
    }

    /// Bytes of a key derived with this protocol's hash.
    pub fn key_length(&self) -> (r: usize)
        ensures
            r == self.key_length_spec(),
    {
        match self {
            AuthProtocol::NoAuth => 0,
            AuthProtocol::Md5 => 16,
            AuthProtocol::Sha1 => 20,
            AuthProtocol::Sha256 => 32,
            AuthProtocol::Sha256_192 => 32,
            AuthProtocol::Sha384 => 48,
            AuthProtocol::Sha512 => 64,
        }
    }
}

impl PrivProtocol {
    /// Reads a protocol name case-insensitively (Unicode upper-casing);
    /// unknown names give no protocol.
    pub fn from_str(s: &str) -> (r: Self)
        ensures
            r == priv_protocol_of(uppercase(s@)),
    {
        let u = to_uppercase(s);
        priv_protocol_from_upper(u.as_str())
    }

    pub open spec fn key_length_spec(&self) -> nat {
        match self {
            PrivProtocol::NoPriv => 0,
            PrivProtocol::Des => 16,
            PrivProtocol::Aes128 => 16,
            PrivProtocol::Aes192 => 24,
            PrivProtocol::Aes256 => 32,
        }
    }

    /// Bytes of privacy key the protocol uses (DES: key and pre-IV).
    pub fn key_length(&self) -> (r: usize)
        ensures
            r == self.key_length_spec(),
    {
        match self {
            PrivProtocol::NoPriv => 0,
            PrivProtocol::Des => 16,
            PrivProtocol::Aes128 => 16,
            PrivProtocol::Aes192 => 24,
            PrivProtocol::Aes256 => 32,
        }
    }
}

// ---------------------------------------------------------------------------
// Hash functions and HMAC (RustCrypto)
// ---------------------------------------------------------------------------

/// A name for what `md5::Md5::digest` returns on `data`.
pub uninterp spec fn md5_digest(data: Seq<u8>) -> Seq<u8>;

/// A name for what `sha1::Sha1::digest` returns on `data`.
pub uninterp spec fn sha1_digest(data: Seq<u8>) -> Seq<u8>;

/// A name for what `sha2::Sha256::digest` returns on `data`.
pub uninterp spec fn sha256_digest(data: Seq<u8>) -> Seq<u8>;

/// A name for what `sha2::Sha384::digest` returns on `data`.
pub uninterp spec fn sha384_digest(data: Seq<u8>) -> Seq<u8>;

/// A name for what `sha2::Sha512::digest` returns on `data`.
pub uninterp spec fn sha512_digest(data: Seq<u8>) -> Seq<u8>;

/// A name for the tag that `hmac::Hmac<Md5>` computes over `msg` with `key`.
pub uninterp spec fn hmac_md5_tag(key: Seq<u8>, msg: Seq<u8>) -> Seq<u8>;

/// A name for the tag that `hmac::Hmac<Sha1>` computes over `msg` with `key`.
pub uninterp spec fn hmac_sha1_tag(key: Seq<u8>, msg: Seq<u8>) -> Seq<u8>;

/// A name for the tag that `hmac::Hmac<Sha256>` computes over `msg` with `key`.
pub uninterp spec fn hmac_sha256_tag(key: Seq<u8>, msg: Seq<u8>) -> Seq<u8>;

/// A name for the tag that `hmac::Hmac<Sha384>` computes over `msg` with `key`.
pub uninterp spec fn hmac_sha384_tag(key: Seq<u8>, msg: Seq<u8>) -> Seq<u8>;

/// A name for the tag that `hmac::Hmac<Sha512>` computes over `msg` with `key`.
pub uninterp spec fn hmac_sha512_tag(key: Seq<u8>, msg: Seq<u8>) -> Seq<u8>;

/// `md5::Md5::digest`: the 16-byte MD5 digest of `data`.
#[verifier::external_body]
fn md5_hash(data: &[u8]) -> (r: Vec<u8>)
    ensures
        r@ == md5_digest(data@),
        r@.len() == 16,
{
    <md5::Md5 as md5::Digest>::digest(data).to_vec()
}

/// `sha1::Sha1::digest`: the 20-byte SHA-1 digest of `data`.
#[verifier::external_body]
fn sha1_hash(data: &[u8]) -> (r: Vec<u8>)
    ensures
        r@ == sha1_digest(data@),
        r@.len() == 20,
{
    <sha1::Sha1 as sha1::Digest>::digest(data).to_vec()
}

/// `sha2::Sha256::digest`: the 32-byte SHA-256 digest of `data`.
#[verifier::external_body]
pub(crate) fn sha256_hash(data: &[u8]) -> (r: Vec<u8>)
    ensures
        r@ == sha256_digest(data@),
        r@.len() == 32,
{
    <sha2::Sha256 as sha2::Digest>::digest(data).to_vec()
}

/// `sha2::Sha384::digest`: the 48-byte SHA-384 digest of `data`.
#[verifier::external_body]
fn sha384_hash(data: &[u8]) -> (r: Vec<u8>)
    ensures
        r@ == sha384_digest(data@),
        r@.len() == 48,
{
    <sha2::Sha384 as sha2::Digest>::digest(data).to_vec()
}

/// `sha2::Sha512::digest`: the 64-byte SHA-512 digest of `data`.
#[verifier::external_body]
fn sha512_hash(data: &[u8]) -> (r: Vec<u8>)
    ensures
        r@ == sha512_digest(data@),
        r@.len() == 64,
{
    <sha2::Sha512 as sha2::Digest>::digest(data).to_vec()
}

/// HMAC-MD5 through `hmac::Hmac<Md5>` (`new_from_slice`, which accepts any key
/// length, then `update` and `finalize`): the 16-byte tag.
#[verifier::external_body]
fn hmac_md5(key: &[u8], msg: &[u8]) -> (r: Vec<u8>)
    ensures
        r@ == hmac_md5_tag(key@, msg@),
        r@.len() == 16,
{
    let mut mac = <hmac::Hmac<md5::Md5> as hmac::Mac>::new_from_slice(key).unwrap();
    hmac::Mac::update(&mut mac, msg);
    hmac::Mac::finalize(mac).into_bytes().to_vec()
}

/// HMAC-SHA1 through `hmac::Hmac<Sha1>`: the 20-byte tag.
#[verifier::external_body]
fn hmac_sha1(key: &[u8], msg: &[u8]) -> (r: Vec<u8>)
    ensures
        r@ == hmac_sha1_tag(key@, msg@),
        r@.len() == 20,
{
    let mut mac = <hmac::Hmac<sha1::Sha1> as hmac::Mac>::new_from_slice(key).unwrap();
    hmac::Mac::update(&mut mac, msg);
    hmac::Mac::finalize(mac).into_bytes().to_vec()
}

/// HMAC-SHA256 through `hmac::Hmac<Sha256>`: the 32-byte tag.
#[verifier::external_body]
fn hmac_sha256(key: &[u8], msg: &[u8]) -> (r: Vec<u8>)
    ensures
        r@ == hmac_sha256_tag(key@, msg@),
        r@.len() == 32,
{
    let mut mac = <hmac::Hmac<sha2::Sha256> as hmac::Mac>::new_from_slice(key).unwrap();
    hmac::Mac::update(&mut mac, msg);
    hmac::Mac::finalize(mac).into_bytes().to_vec()
}

/// HMAC-SHA384 through `hmac::Hmac<Sha384>`: the 48-byte tag.
#[verifier::external_body]
fn hmac_sha384(key: &[u8], msg: &[u8]) -> (r: Vec<u8>)
    ensures
        r@ == hmac_sha384_tag(key@, msg@),
        r@.len() == 48,
{
    let mut mac = <hmac::Hmac<sha2::Sha384> as hmac::Mac>::new_from_slice(key).unwrap();
    hmac::Mac::update(&mut mac, msg);
    hmac::Mac::finalize(mac).into_bytes().to_vec()
}

/// HMAC-SHA512 through `hmac::Hmac<Sha512>`: the 64-byte tag.
#[verifier::external_body]
fn hmac_sha512(key: &[u8], msg: &[u8]) -> (r: Vec<u8>)
    ensures
        r@ == hmac_sha512_tag(key@, msg@),
        r@.len() == 64,
{
    let mut mac = <hmac::Hmac<sha2::Sha512> as hmac::Mac>::new_from_slice(key).unwrap();
    hmac::Mac::update(&mut mac, msg);
    hmac::Mac::finalize(mac).into_bytes().to_vec()
}

/// The hash that an authentication protocol uses (empty for none).
pub open spec fn proto_hash(proto: AuthProtocol, data: Seq<u8>) -> Seq<u8> {
    match proto {
        AuthProtocol::Md5 => md5_digest(data),
        AuthProtocol::Sha1 => sha1_digest(data),
        AuthProtocol::Sha256 | AuthProtocol::Sha256_192 => sha256_digest(data),
        AuthProtocol::Sha384 => sha384_digest(data),
        AuthProtocol::Sha512 => sha512_digest(data),
        AuthProtocol::NoAuth => Seq::empty(),
    }
}

/// The HMAC that an authentication protocol uses.
pub open spec fn proto_hmac(proto: AuthProtocol, key: Seq<u8>, msg: Seq<u8>) -> Seq<u8> {
    match proto {
        AuthProtocol::Md5 => hmac_md5_tag(key, msg),
        AuthProtocol::Sha1 => hmac_sha1_tag(key, msg),
        AuthProtocol::Sha256 | AuthProtocol::Sha256_192 => hmac_sha256_tag(key, msg),
        AuthProtocol::Sha384 => hmac_sha384_tag(key, msg),
        AuthProtocol::Sha512 => hmac_sha512_tag(key, msg),
        AuthProtocol::NoAuth => Seq::empty(),
    }
}

fn hash_with(proto: AuthProtocol, data: &[u8]) -> (r: Vec<u8>)
    ensures
        r@ == proto_hash(proto, data@),
        r@.len() == proto.key_length_spec(),
{
    match proto {
        AuthProtocol::Md5 => md5_hash(data),
        AuthProtocol::Sha1 => sha1_hash(data),
        AuthProtocol::Sha256 | AuthProtocol::Sha256_192 => sha256_hash(data),
        AuthProtocol::Sha384 => sha384_hash(data),
        AuthProtocol::Sha512 => sha512_hash(data),
        AuthProtocol::NoAuth => Vec::new(),
    }
}

// ---------------------------------------------------------------------------
// Password to key (RFC 3414, appendix A)
// ---------------------------------------------------------------------------

/// Bytes of password material that are hashed: one megabyte.
pub const PASSWORD_EXPANSION: usize = 1_048_576;

/// The first `n` bytes of the password repeated without end.
pub open spec fn repeat_to(p: Seq<u8>, n: nat) -> Seq<u8> {
    Seq::new(n, |i: int| p[i % (p.len() as int)])
}

/// A key localised to an engine: the hash of key, engine ID, key.
pub open spec fn localize_spec(key: Seq<u8>, engine_id: Seq<u8>, proto: AuthProtocol) -> Seq<u8> {
    proto_hash(proto, key + engine_id + key)
}

/// The localised key for a password: hash of one megabyte of repeated
/// password, localised to the engine; empty for an empty password or no protocol.
pub open spec fn password_to_key_spec(password: Seq<u8>, engine_id: Seq<u8>, proto: AuthProtocol) -> Seq<u8> {
    if password.len() == 0 || proto == AuthProtocol::NoAuth {
        Seq::empty()
    } else {
        localize_spec(proto_hash(proto, repeat_to(password, PASSWORD_EXPANSION as nat)), engine_id, proto)
    }
}

/// Hashes `key || engine_id || key` with the protocol's hash.
fn localize_key(key: &[u8], engine_id: &[u8], proto: AuthProtocol) -> (r: Vec<u8>)
    ensures
        r@ == localize_spec(key@, engine_id@, proto),
        r@.len() == proto.key_length_spec(),
{
    let mut data: Vec<u8> = Vec::new();
    extend_from(&mut data, key);
    extend_from(&mut data, engine_id);
    extend_from(&mut data, key);
    hash_with(proto, data.as_slice())
}

/// Appends the bytes of `src`.
pub(crate) fn extend_from(out: &mut Vec<u8>, src: &[u8])
    ensures
        final(out)@ == old(out)@ + src@,
{
    let ghost start = out@;
    let mut i: usize = 0;
    while i < src.len()
        invariant
            i <= src.len(),
            out@ == start + src@.take(i as int),
        decreases src.len() - i,
    {
        out.push(src[i]);
        i += 1;
        assert(src@.take(i as int) == src@.take(i - 1).push(src@[i - 1]));
    }
    assert(src@.take(src.len() as int) =~= src@);
}

/// One megabyte of the password repeated.
fn expand_password(p: &[u8]) -> (r: Vec<u8>)
    requires
        p.len() > 0,
    ensures
        r@ == repeat_to(p@, PASSWORD_EXPANSION as nat),
{
    let mut out: Vec<u8> = Vec::new();
    let mut i: usize = 0;
    let mut j: usize = 0;
    while i < PASSWORD_EXPANSION
        invariant
            i <= PASSWORD_EXPANSION,
            p.len() > 0,
            j < p.len(),
            j as int == (i as int) % (p.len() as int),
            out@ == repeat_to(p@, i as nat),
        decreases PASSWORD_EXPANSION - i,
    {
        out.push(p[j]);
        proof {
            assert(out@ =~= repeat_to(p@, (i + 1) as nat));
            vstd::arithmetic::div_mod::lemma_fundamental_div_mod(i as int, p.len() as int);
            vstd::arithmetic::div_mod::lemma_fundamental_div_mod((i + 1) as int, p.len() as int);
        }
        i += 1;
        j = if j + 1 == p.len() { 0 } else { j + 1 };
        proof {
            let n = p.len() as int;
            let q = (i - 1) / n;
            if j == 0 {
                assert(i == n * (q + 1)) by (nonlinear_arith)
                    requires
                        i - 1 == n * q + (n - 1),
                ;
                vstd::arithmetic::div_mod::lemma_mod_multiples_basic(q + 1, n);
                assert((n * (q + 1)) % n == 0) by {
                    vstd::arithmetic::mul::lemma_mul_is_commutative(n, q + 1);
                }
            } else {
                vstd::arithmetic::div_mod::lemma_mod_multiples_vanish(q, j as int, n);
                vstd::arithmetic::div_mod::lemma_small_mod(j as nat, n as nat);
                assert(i == n * q + j);
            }
        }
    }
    out
}

/// Turns a password into the key localised to an engine (RFC 3414 section 2.6).
pub fn password_to_key(password: &str, engine_id: &[u8], proto: &AuthProtocol) -> (r: Vec<u8>)
    ensures
        r@ == password_to_key_spec(password.spec_bytes(), engine_id@, *proto),
        (password.spec_bytes().len() > 0 && *proto != AuthProtocol::NoAuth)
            ==> r@.len() == proto.key_length_spec(),
{
    let password_bytes = password.as_bytes();
    if password_bytes.len() == 0 || *proto == AuthProtocol::NoAuth {
        return Vec::new();
    }
    let extended = expand_password(password_bytes);
    let key = hash_with(*proto, extended.as_slice());
    localize_key(key.as_slice(), engine_id, *proto)
}

/// Extends a key with its own localisation until it holds `required` bytes.
pub open spec fn extend_key(key: Seq<u8>, engine_id: Seq<u8>, proto: AuthProtocol, required: nat) -> Seq<u8>
    decreases (if key.len() < required { required - key.len() } else { 0 }),
{
    if key.len() >= required {
        key
    } else {
        let e = localize_spec(key, engine_id, proto);
        if e.len() == 0 { key } else { extend_key(key + e, engine_id, proto, required) }
    }
}

/// The privacy key: the password's localised key, extended and cut to the
/// length the privacy protocol needs.
pub open spec fn derive_priv_key_spec(
    password: Seq<u8>,
    engine_id: Seq<u8>,
    auth: AuthProtocol,
    privp: PrivProtocol,
) -> Seq<u8> {
    let required = privp.key_length_spec();
    let key = password_to_key_spec(password, engine_id, auth);
    if required == 0 || key.len() == 0 {
        Seq::empty()
    } else {
        let k = extend_key(key, engine_id, auth, required);
        if k.len() > required { k.take(required as int) } else { k }
    }
}

/// Derives the privacy key; AES-192 and AES-256 keys are extended
/// deterministically when the localised key is too short.
pub fn derive_priv_key(
    password: &str,
    engine_id: &[u8],
    auth_proto: &AuthProtocol,
    priv_proto: &PrivProtocol,
) -> (r: Vec<u8>)
    ensures
        r@ == derive_priv_key_spec(password.spec_bytes(), engine_id@, *auth_proto, *priv_proto),
        (password.spec_bytes().len() > 0 && *auth_proto != AuthProtocol::NoAuth)
            ==> r@.len() == priv_proto.key_length_spec(),
{
    let required = priv_proto.key_length();
    if required == 0 {
        return Vec::new();
    }
    let mut key = password_to_key(password, engine_id, auth_proto);
    if key.len() == 0 {
        return key;
    }
    let ghost key0 = key@;
    while key.len() < required
        invariant
            required <= 32,
            *auth_proto != AuthProtocol::NoAuth,
            extend_key(key0, engine_id@, *auth_proto, required as nat)
                == extend_key(key@, engine_id@, *auth_proto, required as nat),
        ensures
            extend_key(key0, engine_id@, *auth_proto, required as nat) == key@,
            key@.len() >= required,
        decreases (if key.len() < required { required - key.len() } else { 0 }),
    {
        let extension = localize_key(key.as_slice(), engine_id, *auth_proto);
        if extension.len() == 0 {
            break;
        }
        extend_from(&mut key, extension.as_slice());
    }
    key.truncate(required);
    key
}

// ---------------------------------------------------------------------------
// Authentication (RFC 3414 section 7.3)
// ---------------------------------------------------------------------------

/// The authentication code of a message: the protocol's HMAC, truncated to
/// its digest length; an error when no protocol is configured.
pub fn authenticate_message(message: &[u8], auth_key: &[u8], proto: &AuthProtocol) -> (r: Result<Vec<u8>, UsmError>)
    ensures
        match r {
            Ok(tag) => *proto != AuthProtocol::NoAuth
                && tag@ == proto_hmac(*proto, auth_key@, message@).take(proto.digest_length_spec() as int)
                && tag@.len() == proto.digest_length_spec(),
            Err(e) => *proto == AuthProtocol::NoAuth && e == UsmError::NoAuthProtocol,
        },
{
    let tag = match proto {
        AuthProtocol::Md5 => hmac_md5(auth_key, message),
        AuthProtocol::Sha1 => hmac_sha1(auth_key, message),
        AuthProtocol::Sha256 | AuthProtocol::Sha256_192 => hmac_sha256(auth_key, message),
        AuthProtocol::Sha384 => hmac_sha384(auth_key, message),
        AuthProtocol::Sha512 => hmac_sha512(auth_key, message),
        AuthProtocol::NoAuth => return Err(UsmError::NoAuthProtocol),
    };
    let digest_len = proto.digest_length();
    let n = if digest_len < tag.len() { digest_len } else { tag.len() };
    let mut out: Vec<u8> = Vec::new();
    extend_from(&mut out, vstd::slice::slice_subrange(tag.as_slice(), 0, n));
    assert(out@ =~= tag@.take(digest_len as int));
    Ok(out)
}

// ---------------------------------------------------------------------------
// Privacy: AES in CFB-128 mode (RFC 3826)
// ---------------------------------------------------------------------------

/// A name for one block that `aes::Aes128` encrypts with `key`.
pub uninterp spec fn aes128_encrypt_block(key: Seq<u8>, block: Seq<u8>) -> Seq<u8>;

/// A name for one block that `aes::Aes192` encrypts with `key`.
pub uninterp spec fn aes192_encrypt_block(key: Seq<u8>, block: Seq<u8>) -> Seq<u8>;

/// A name for one block that `aes::Aes256` encrypts with `key`.
pub uninterp spec fn aes256_encrypt_block(key: Seq<u8>, block: Seq<u8>) -> Seq<u8>;

/// `aes::Aes128` (`KeyInit::new_from_slice` with a 16-byte key, then
/// `BlockEncrypt::encrypt_block`): one encrypted 16-byte block.
#[verifier::external_body]
fn aes128_block(key: &[u8], block: &[u8]) -> (r: Vec<u8>)
    requires
        key.len() == 16,
        block.len() == 16,
    ensures
        r@ == aes128_encrypt_block(key@, block@),
        r@.len() == 16,
{
    let c = <aes::Aes128 as aes::cipher::KeyInit>::new_from_slice(key).unwrap();
    let mut b = aes::cipher::generic_array::GenericArray::clone_from_slice(block);
    aes::cipher::BlockEncrypt::encrypt_block(&c, &mut b);
    b.to_vec()
}

/// `aes::Aes192` with a 24-byte key: one encrypted 16-byte block.
#[verifier::external_body]
fn aes192_block(key: &[u8], block: &[u8]) -> (r: Vec<u8>)
    requires
        key.len() == 24,
        block.len() == 16,
    ensures
        r@ == aes192_encrypt_block(key@, block@),
        r@.len() == 16,
{
    let c = <aes::Aes192 as aes::cipher::KeyInit>::new_from_slice(key).unwrap();
    let mut b = aes::cipher::generic_array::GenericArray::clone_from_slice(block);
    aes::cipher::BlockEncrypt::encrypt_block(&c, &mut b);
    b.to_vec()
}

/// `aes::Aes256` with a 32-byte key: one encrypted 16-byte block.
#[verifier::external_body]
fn aes256_block(key: &[u8], block: &[u8]) -> (r: Vec<u8>)
    requires
        key.len() == 32,
        block.len() == 16,
    ensures
        r@ == aes256_encrypt_block(key@, block@),
        r@.len() == 16,
{
    let c = <aes::Aes256 as aes::cipher::KeyInit>::new_from_slice(key).unwrap();
    let mut b = aes::cipher::generic_array::GenericArray::clone_from_slice(block);
    aes::cipher::BlockEncrypt::encrypt_block(&c, &mut b);
    b.to_vec()
}

/// Eight random bytes from `rand::thread_rng` (`RngCore::fill_bytes`); only
/// their number is known.
#[verifier::external_body]
fn random_salt() -> (r: Vec<u8>)
    ensures
        r@.len() == 8,
{
    let mut salt = [0u8; 8];
    rand::RngCore::fill_bytes(&mut rand::thread_rng(), &mut salt);
    salt.to_vec()
}

/// The AES variant that the key length selects (16, 24 or 32 bytes).
pub open spec fn aes_block(key: Seq<u8>, block: Seq<u8>) -> Seq<u8> {
    if key.len() == 16 {
        aes128_encrypt_block(key, block)
    } else if key.len() == 24 {
        aes192_encrypt_block(key, block)
    } else {
        aes256_encrypt_block(key, block)
    }
}

/// Bytewise exclusive or of `p` with the keystream `k`.
pub open spec fn xor_bytes(p: Seq<u8>, k: Seq<u8>) -> Seq<u8> {
    Seq::new(p.len(), |i: int| p[i] ^ k[i])
}

/// CFB-128 encryption: each block is the plaintext xor the encrypted previous
/// ciphertext block (the IV first); a short last block uses a prefix of the keystream.
pub open spec fn cfb_encrypt_spec(key: Seq<u8>, feedback: Seq<u8>, data: Seq<u8>) -> Seq<u8>
    decreases data.len(),
{
    if data.len() == 0 {
        Seq::empty()
    } else if data.len() <= 16 {
        xor_bytes(data, aes_block(key, feedback))
    } else {
        let c = xor_bytes(data.take(16), aes_block(key, feedback));
        c + cfb_encrypt_spec(key, c, data.skip(16))
    }
}

/// CFB-128 decryption: the keystream comes from the previous ciphertext block.
pub open spec fn cfb_decrypt_spec(key: Seq<u8>, feedback: Seq<u8>, data: Seq<u8>) -> Seq<u8>
    decreases data.len(),
{
    if data.len() == 0 {
        Seq::empty()
    } else if data.len() <= 16 {
        xor_bytes(data, aes_block(key, feedback))
    } else {
        let c = data.take(16);
        xor_bytes(c, aes_block(key, feedback)) + cfb_decrypt_spec(key, c, data.skip(16))
    }
}

proof fn lemma_cfb_encrypt_len(key: Seq<u8>, fb: Seq<u8>, data: Seq<u8>)
    ensures
        cfb_encrypt_spec(key, fb, data).len() == data.len(),
    decreases data.len(),
{
    if data.len() > 16 {
        let c = xor_bytes(data.take(16), aes_block(key, fb));
        lemma_cfb_encrypt_len(key, c, data.skip(16));
    }
}

proof fn lemma_xor_twice(p: Seq<u8>, k: Seq<u8>)
    ensures
        xor_bytes(xor_bytes(p, k), k) == p,
{
    assert forall|i: int| 0 <= i < p.len() implies #[trigger] xor_bytes(xor_bytes(p, k), k)[i] == p[i] by {
        let a = p[i];
        let b = k[i];
        assert((a ^ b) ^ b == a) by (bit_vector);
    }
    assert(xor_bytes(xor_bytes(p, k), k) =~= p);
}

/// CFB decryption undoes CFB encryption under the same key and IV.
pub proof fn lemma_cfb_roundtrip(key: Seq<u8>, fb: Seq<u8>, data: Seq<u8>)
    ensures
        cfb_decrypt_spec(key, fb, cfb_encrypt_spec(key, fb, data)) == data,
    decreases data.len(),
{
    let enc = cfb_encrypt_spec(key, fb, data);
    if data.len() == 0 {
    } else if data.len() <= 16 {
        lemma_xor_twice(data, aes_block(key, fb));
    } else {
        let ks = aes_block(key, fb);
        let c = xor_bytes(data.take(16), ks);
        let rest = cfb_encrypt_spec(key, c, data.skip(16));
        lemma_cfb_encrypt_len(key, c, data.skip(16));
        assert(enc == c + rest);
        assert(enc.take(16) =~= c);
        assert(enc.skip(16) =~= rest);
        lemma_xor_twice(data.take(16), ks);
        lemma_cfb_roundtrip(key, c, data.skip(16));
        assert(data =~= data.take(16) + data.skip(16));
    }
}

fn aes_block_exec(key: &[u8], block: &[u8]) -> (r: Vec<u8>)
    requires
        key.len() == 16 || key.len() == 24 || key.len() == 32,
        block.len() == 16,
    ensures
        r@ == aes_block(key@, block@),
        r@.len() == 16,
{
    if key.len() == 16 {
        aes128_block(key, block)
    } else if key.len() == 24 {
        aes192_block(key, block)
    } else {
        aes256_block(key, block)
    }
}

/// CFB-128 over `data`, encrypting (`decrypt` false) or decrypting.
fn aes_cfb128(key: &[u8], iv: &[u8], data: &[u8], decrypt: bool) -> (r: Vec<u8>)
    requires
        key.len() == 16 || key.len() == 24 || key.len() == 32,
        iv.len() == 16,
    ensures
        r@ == (if decrypt { cfb_decrypt_spec(key@, iv@, data@) } else { cfb_encrypt_spec(key@, iv@, data@) }),
{
    let mut out: Vec<u8> = Vec::new();
    let mut feedback: Vec<u8> = vstd::slice::slice_to_vec(iv);
    let mut offset: usize = 0;
    let ghost total = if decrypt { cfb_decrypt_spec(key@, iv@, data@) } else { cfb_encrypt_spec(key@, iv@, data@) };
    assert(data@.skip(0) =~= data@);
    while offset < data.len()
        invariant
            key.len() == 16 || key.len() == 24 || key.len() == 32,
            offset <= data.len(),
            feedback@.len() == 16,
            total == (if decrypt { cfb_decrypt_spec(key@, iv@, data@) } else { cfb_encrypt_spec(key@, iv@, data@) }),
            total == out@ + (if decrypt {
                cfb_decrypt_spec(key@, feedback@, data@.skip(offset as int))
            } else {
                cfb_encrypt_spec(key@, feedback@, data@.skip(offset as int))
            }),
        decreases data.len() - offset,
    {
        let ks = aes_block_exec(key, feedback.as_slice());
        let rem = data.len() - offset;
        let n = if rem < 16 { rem } else { 16 };
        let ghost rest = data@.skip(offset as int);
        let ghost before = out@;
        let mut chunk: Vec<u8> = Vec::new();
        let mut i: usize = 0;
        while i < n
            invariant
                i <= n,
                n <= 16,
                n <= rest.len(),
                ks@.len() == 16,
                rest == data@.skip(offset as int),
                offset + n <= data.len(),
                chunk@ == xor_bytes(rest.take(i as int), ks@),
            decreases n - i,
        {
            chunk.push(data[offset + i] ^ ks[i]);
            i += 1;
            assert(chunk@ =~= xor_bytes(rest.take(i as int), ks@));
        }
        extend_from(&mut out, chunk.as_slice());
        if n == 16 && rem > 16 {
            if decrypt {
                feedback = vstd::slice::slice_to_vec(vstd::slice::slice_subrange(data, offset, offset + 16));
                assert(feedback@ =~= rest.take(16));
            } else {
                feedback = chunk;
            }
            assert(rest.skip(16) =~= data@.skip(offset + 16));
        } else {
            assert(rest.take(n as int) =~= rest);
            assert(data@.skip(offset + n) =~= Seq::<u8>::empty());
        }
        offset = offset + n;
        proof {
            assert(out@ =~= before + chunk@);
        }
    }
    assert(data@.skip(offset as int) =~= Seq::<u8>::empty());
    assert(out@ + Seq::<u8>::empty() =~= out@);
    out
}

/// IV of RFC 3826: engine boots (4 bytes, big-endian), engine time (4 bytes),
/// then the first eight bytes of the privacy parameter.
pub open spec fn aes_iv_spec(engine_boots: u32, engine_time: u32, priv_param: Seq<u8>) -> Seq<u8> {
    be_bytes(engine_boots as nat, 4) + be_bytes(engine_time as nat, 4) + priv_param.take(8)
}

/// Builds the AES IV; the privacy parameter must hold at least eight bytes.
fn build_aes_iv(engine_boots: u32, engine_time: u32, priv_param: &[u8]) -> (r: Result<Vec<u8>, UsmError>)
    ensures
        match r {
            Ok(iv) => priv_param.len() >= 8 && iv@ == aes_iv_spec(engine_boots, engine_time, priv_param@)
                && iv@.len() == 16,
            Err(e) => priv_param.len() < 8 && e == UsmError::IvParamTooShort,
        },
{
    if priv_param.len() < 8 {
        return Err(UsmError::IvParamTooShort);
    }
    let mut iv: Vec<u8> = Vec::new();
    push_be4(&mut iv, engine_boots);
    push_be4(&mut iv, engine_time);
    extend_from(&mut iv, vstd::slice::slice_subrange(priv_param, 0, 8));
    proof {
        crate::snmp::ber::lemma_be_bytes_len(engine_boots as nat, 4);
        crate::snmp::ber::lemma_be_bytes_len(engine_time as nat, 4);
    }
    assert(iv@ =~= aes_iv_spec(engine_boots, engine_time, priv_param@));
    Ok(iv)
}

/// Appends `v` as four big-endian bytes.
fn push_be4(out: &mut Vec<u8>, v: u32)
    ensures
        final(out)@ == old(out)@ + be_bytes(v as nat, 4),
{
    out.push((v / 0x100_0000 % 256) as u8);
    out.push((v / 0x1_0000 % 256) as u8);
    out.push((v / 0x100 % 256) as u8);
    out.push((v % 256) as u8);
    proof {
        reveal_with_fuel(be_bytes, 5);
        assert(v / 256 / 256 == v / 0x1_0000);
        assert(v / 256 / 256 / 256 == v / 0x100_0000);
    }
    assert(final(out)@ =~= old(out)@ + be_bytes(v as nat, 4));
}

/// What AES privacy yields with a given salt: ciphertext and salt, or the
/// error for a short key, a short salt or an unknown key length (in that order).
pub open spec fn aes_encrypt_spec(
    priv_key: Seq<u8>,
    key_len: nat,
    engine_boots: u32,
    engine_time: u32,
    salt: Seq<u8>,
    data: Seq<u8>,
) -> Result<(Seq<u8>, Seq<u8>), UsmError> {
    if priv_key.len() < key_len {
        Err(UsmError::KeyTooShort(key_len as usize))
    } else if salt.len() < 8 {
        Err(UsmError::IvParamTooShort)
    } else if key_len != 16 && key_len != 24 && key_len != 32 {
        Err(UsmError::UnsupportedKeyLength(key_len as usize))
    } else {
        Ok((cfb_encrypt_spec(priv_key.take(key_len as int), aes_iv_spec(engine_boots, engine_time, salt), data), salt.take(8)))
    }
}

/// What AES privacy decryption yields.
pub open spec fn aes_decrypt_spec(
    priv_key: Seq<u8>,
    key_len: nat,
    engine_boots: u32,
    engine_time: u32,
    priv_param: Seq<u8>,
    ciphertext: Seq<u8>,
) -> Result<Seq<u8>, UsmError> {
    if priv_key.len() < key_len {
        Err(UsmError::KeyTooShort(key_len as usize))
    } else if priv_param.len() < 8 {
        Err(UsmError::IvParamTooShort)
    } else if key_len != 16 && key_len != 24 && key_len != 32 {
        Err(UsmError::UnsupportedKeyLength(key_len as usize))
    } else {
        Ok(cfb_decrypt_spec(priv_key.take(key_len as int), aes_iv_spec(engine_boots, engine_time, priv_param), ciphertext))
    }
}

/// AES-CFB privacy with the given salt: returns the ciphertext and the salt
/// that goes into msgPrivacyParameters.
pub fn encrypt_aes_cfb_with_salt(
    priv_key: &[u8],
    key_len: usize,
    engine_boots: u32,
    engine_time: u32,
    salt: &[u8],
    data: &[u8],
) -> (r: Result<(Vec<u8>, Vec<u8>), UsmError>)
    ensures
        match r {
            Ok((c, s)) => aes_encrypt_spec(priv_key@, key_len as nat, engine_boots, engine_time, salt@, data@) == Ok::<(Seq<u8>, Seq<u8>), UsmError>((c@, s@)),
            Err(e) => aes_encrypt_spec(priv_key@, key_len as nat, engine_boots, engine_time, salt@, data@) == Err::<(Seq<u8>, Seq<u8>), UsmError>(e),
        },
{
    if priv_key.len() < key_len {
        return Err(UsmError::KeyTooShort(key_len));
    }
    let iv = match build_aes_iv(engine_boots, engine_time, salt) {
        Ok(iv) => iv,
        Err(e) => return Err(e),
    };
    if key_len != 16 && key_len != 24 && key_len != 32 {
        return Err(UsmError::UnsupportedKeyLength(key_len));
    }
    let key = vstd::slice::slice_subrange(priv_key, 0, key_len);
    assert(key@ =~= priv_key@.take(key_len as int));
    let output = aes_cfb128(key, iv.as_slice(), data, false);
    let salt_out = vstd::slice::slice_to_vec(vstd::slice::slice_subrange(salt, 0, 8));
    assert(salt_out@ =~= salt@.take(8));
    Ok((output, salt_out))
}

/// AES-CFB privacy decryption with the given key length.
pub fn decrypt_aes_cfb(
    priv_key: &[u8],
    key_len: usize,
    engine_boots: u32,
    engine_time: u32,
    priv_param: &[u8],
    ciphertext: &[u8],
) -> (r: Result<Vec<u8>, UsmError>)
    ensures
        match r {
            Ok(p) => aes_decrypt_spec(priv_key@, key_len as nat, engine_boots, engine_time, priv_param@, ciphertext@) == Ok::<Seq<u8>, UsmError>(p@),
            Err(e) => aes_decrypt_spec(priv_key@, key_len as nat, engine_boots, engine_time, priv_param@, ciphertext@) == Err::<Seq<u8>, UsmError>(e),
        },
{
    if priv_key.len() < key_len {
        return Err(UsmError::KeyTooShort(key_len));
    }
    let iv = match build_aes_iv(engine_boots, engine_time, priv_param) {
        Ok(iv) => iv,
        Err(e) => return Err(e),
    };
    if key_len != 16 && key_len != 24 && key_len != 32 {
        return Err(UsmError::UnsupportedKeyLength(key_len));
    }
    let key = vstd::slice::slice_subrange(priv_key, 0, key_len);
    assert(key@ =~= priv_key@.take(key_len as int));
    Ok(aes_cfb128(key, iv.as_slice(), ciphertext, true))
}

/// AES privacy with a fresh random salt: what holds for every salt drawn.
fn encrypt_aes_random(priv_key: &[u8], key_len: usize, engine_boots: u32, engine_time: u32, data: &[u8])
    -> (r: Result<(Vec<u8>, Vec<u8>), UsmError>)
    requires
        key_len == 16 || key_len == 24 || key_len == 32,
    ensures
        r is Ok <==> priv_key.len() >= key_len,
        r matches Err(e) ==> e == UsmError::KeyTooShort(key_len),
        r matches Ok((c, s)) ==> s@.len() == 8
            && aes_encrypt_spec(priv_key@, key_len as nat, engine_boots, engine_time, s@, data@) == Ok::<(Seq<u8>, Seq<u8>), UsmError>((c@, s@)),
{
    if priv_key.len() < key_len {
        return Err(UsmError::KeyTooShort(key_len));
    }
    let salt = random_salt();
    let r = encrypt_aes_cfb_with_salt(priv_key, key_len, engine_boots, engine_time, salt.as_slice(), data);
    proof {
        assert(salt@.take(8) =~= salt@);
    }
    r
}

/// AES-128-CFB privacy (RFC 3826) with a random salt.
pub fn encrypt_aes128(priv_key: &[u8], engine_boots: u32, engine_time: u32, data: &[u8])
    -> (r: Result<(Vec<u8>, Vec<u8>), UsmError>)
    ensures
        r is Ok <==> priv_key.len() >= 16,
        r matches Err(e) ==> e == UsmError::KeyTooShort(16),
        r matches Ok((c, s)) ==> s@.len() == 8
            && aes_encrypt_spec(priv_key@, 16, engine_boots, engine_time, s@, data@) == Ok::<(Seq<u8>, Seq<u8>), UsmError>((c@, s@)),
{
    encrypt_aes_random(priv_key, 16, engine_boots, engine_time, data)
}

/// AES-192-CFB privacy with a random salt.
pub fn encrypt_aes192(priv_key: &[u8], engine_boots: u32, engine_time: u32, data: &[u8])
    -> (r: Result<(Vec<u8>, Vec<u8>), UsmError>)
    ensures
        r is Ok <==> priv_key.len() >= 24,
        r matches Err(e) ==> e == UsmError::KeyTooShort(24),
        r matches Ok((c, s)) ==> s@.len() == 8
            && aes_encrypt_spec(priv_key@, 24, engine_boots, engine_time, s@, data@) == Ok::<(Seq<u8>, Seq<u8>), UsmError>((c@, s@)),
{
    encrypt_aes_random(priv_key, 24, engine_boots, engine_time, data)
}

/// AES-256-CFB privacy with a random salt.
pub fn encrypt_aes256(priv_key: &[u8], engine_boots: u32, engine_time: u32, data: &[u8])
    -> (r: Result<(Vec<u8>, Vec<u8>), UsmError>)
    ensures
        r is Ok <==> priv_key.len() >= 32,
        r matches Err(e) ==> e == UsmError::KeyTooShort(32),
        r matches Ok((c, s)) ==> s@.len() == 8
            && aes_encrypt_spec(priv_key@, 32, engine_boots, engine_time, s@, data@) == Ok::<(Seq<u8>, Seq<u8>), UsmError>((c@, s@)),
{
    encrypt_aes_random(priv_key, 32, engine_boots, engine_time, data)
}

/// AES-128-CFB decryption.
pub fn decrypt_aes128(priv_key: &[u8], engine_boots: u32, engine_time: u32, priv_param: &[u8], ciphertext: &[u8])
    -> (r: Result<Vec<u8>, UsmError>)
    ensures
        match r {
            Ok(p) => aes_decrypt_spec(priv_key@, 16, engine_boots, engine_time, priv_param@, ciphertext@) == Ok::<Seq<u8>, UsmError>(p@),
            Err(e) => aes_decrypt_spec(priv_key@, 16, engine_boots, engine_time, priv_param@, ciphertext@) == Err::<Seq<u8>, UsmError>(e),
        },
{
    decrypt_aes_cfb(priv_key, 16, engine_boots, engine_time, priv_param, ciphertext)
}

/// AES-192-CFB decryption.
pub fn decrypt_aes192(priv_key: &[u8], engine_boots: u32, engine_time: u32, priv_param: &[u8], ciphertext: &[u8])
    -> (r: Result<Vec<u8>, UsmError>)
    ensures
        match r {
            Ok(p) => aes_decrypt_spec(priv_key@, 24, engine_boots, engine_time, priv_param@, ciphertext@) == Ok::<Seq<u8>, UsmError>(p@),
            Err(e) => aes_decrypt_spec(priv_key@, 24, engine_boots, engine_time, priv_param@, ciphertext@) == Err::<Seq<u8>, UsmError>(e),
        },
{
    decrypt_aes_cfb(priv_key, 24, engine_boots, engine_time, priv_param, ciphertext)
}

/// AES-256-CFB decryption.
pub fn decrypt_aes256(priv_key: &[u8], engine_boots: u32, engine_time: u32, priv_param: &[u8], ciphertext: &[u8])
    -> (r: Result<Vec<u8>, UsmError>)
    ensures
        match r {
            Ok(p) => aes_decrypt_spec(priv_key@, 32, engine_boots, engine_time, priv_param@, ciphertext@) == Ok::<Seq<u8>, UsmError>(p@),
            Err(e) => aes_decrypt_spec(priv_key@, 32, engine_boots, engine_time, priv_param@, ciphertext@) == Err::<Seq<u8>, UsmError>(e),
        },
{
    decrypt_aes_cfb(priv_key, 32, engine_boots, engine_time, priv_param, ciphertext)
}

/// Decrypting with the returned salt gives back the plaintext that was encrypted.
pub proof fn lemma_aes_privacy_roundtrip(
    priv_key: Seq<u8>,
    key_len: nat,
    engine_boots: u32,
    engine_time: u32,
    salt: Seq<u8>,
    data: Seq<u8>,
)
    ensures
        aes_encrypt_spec(priv_key, key_len, engine_boots, engine_time, salt, data) matches Ok((c, s))
            ==> aes_decrypt_spec(priv_key, key_len, engine_boots, engine_time, s, c) == Ok::<Seq<u8>, UsmError>(data),
{
    if let Ok((c, s)) = aes_encrypt_spec(priv_key, key_len, engine_boots, engine_time, salt, data) {
        assert(s.take(8) =~= salt.take(8));
        assert(aes_iv_spec(engine_boots, engine_time, s) == aes_iv_spec(engine_boots, engine_time, salt));
        lemma_cfb_roundtrip(priv_key.take(key_len as int), aes_iv_spec(engine_boots, engine_time, salt), data);
    }
}

// ---------------------------------------------------------------------------
// Privacy: DES in CBC mode (RFC 3414 section 8)
// ---------------------------------------------------------------------------

/// A name for what `cbc::Encryptor<des::Des>` yields (no padding) with `key` and `iv`.
pub uninterp spec fn des_cbc_encrypt_block_run(key: Seq<u8>, iv: Seq<u8>, data: Seq<u8>) -> Seq<u8>;

/// A name for what `cbc::Decryptor<des::Des>` yields (no padding) with `key` and `iv`.
pub uninterp spec fn des_cbc_decrypt_block_run(key: Seq<u8>, iv: Seq<u8>, data: Seq<u8>) -> Seq<u8>;

/// `cbc::Encryptor<des::Des>` (`KeyIvInit::new_from_slices`, then
/// `encrypt_padded_vec_mut::<NoPadding>`) over whole blocks: as many bytes out
/// as in, and CBC decryption with the same key and IV gives the blocks back.
#[verifier::external_body]
fn des_cbc_encrypt(key: &[u8], iv: &[u8], data: &[u8]) -> (r: Vec<u8>)
    requires
        key.len() == 8,
        iv.len() == 8,
        data.len() % 8 == 0,
    ensures
        r@ == des_cbc_encrypt_block_run(key@, iv@, data@),
        r@.len() == data@.len(),
        des_cbc_decrypt_block_run(key@, iv@, r@) == data@,
{
    let enc = <cbc::Encryptor<des::Des> as cipher::KeyIvInit>::new_from_slices(key, iv).unwrap();
    cipher::BlockEncryptMut::encrypt_padded_vec_mut::<cipher::block_padding::NoPadding>(enc, data)
}

/// `cbc::Decryptor<des::Des>` (`decrypt_padded_vec_mut::<NoPadding>`): fails
/// exactly when the input is not a whole number of 8-byte blocks.
#[verifier::external_body]
fn des_cbc_decrypt(key: &[u8], iv: &[u8], data: &[u8]) -> (r: Option<Vec<u8>>)
    requires
        key.len() == 8,
        iv.len() == 8,
    ensures
        r.is_some() == (data.len() % 8 == 0),
        r matches Some(p) ==> p@ == des_cbc_decrypt_block_run(key@, iv@, data@) && p@.len() == data@.len(),
{
    let dec = <cbc::Decryptor<des::Des> as cipher::KeyIvInit>::new_from_slices(key, iv).unwrap();
    cipher::BlockDecryptMut::decrypt_padded_vec_mut::<cipher::block_padding::NoPadding>(dec, data).ok()
}

/// The DES salt: the pre-IV (key bytes 8 to 16, zeros when the key is shorter)
/// with the engine boots xored into its first four bytes.
pub open spec fn des_salt_spec(priv_key: Seq<u8>, engine_boots: u32) -> Seq<u8> {
    let pre = if priv_key.len() >= 16 { priv_key.subrange(8, 16) } else { Seq::new(8, |i: int| 0u8) };
    let boots = be_bytes(engine_boots as nat, 4);
    Seq::new(8, |i: int| if i < 4 { pre[i] ^ boots[i] } else { pre[i] })
}

/// `data` padded with zero bytes to a whole number of 8-byte blocks.
pub open spec fn zero_pad8(data: Seq<u8>) -> Seq<u8> {
    let n: int = if data.len() % 8 == 0 { data.len() as int } else { data.len() + (8 - data.len() % 8) };
    Seq::new(n as nat, |i: int| if i < data.len() { data[i] } else { 0u8 })
}

/// What DES privacy yields: ciphertext and salt, or an error for a short key.
pub open spec fn des_encrypt_spec(priv_key: Seq<u8>, engine_boots: u32, data: Seq<u8>) -> Result<(Seq<u8>, Seq<u8>), UsmError> {
    if priv_key.len() < 8 {
        Err(UsmError::DesKeyTooShort)
    } else {
        let salt = des_salt_spec(priv_key, engine_boots);
        Ok((des_cbc_encrypt_block_run(priv_key.take(8), salt, zero_pad8(data)), salt))
    }
}

/// DES-CBC privacy (legacy SNMPv3).
pub fn encrypt_des(priv_key: &[u8], engine_boots: u32, data: &[u8]) -> (r: Result<(Vec<u8>, Vec<u8>), UsmError>)
    requires
        data.len() + 7 <= usize::MAX,
    ensures
        match r {
            Ok((c, s)) => des_encrypt_spec(priv_key@, engine_boots, data@) == Ok::<(Seq<u8>, Seq<u8>), UsmError>((c@, s@)),
            Err(e) => des_encrypt_spec(priv_key@, engine_boots, data@) == Err::<(Seq<u8>, Seq<u8>), UsmError>(e),
        },
        r matches Ok((c, s)) ==> des_decrypt_spec(priv_key@, s@, c@) == Ok::<Seq<u8>, UsmError>(zero_pad8(data@)),
{
    if priv_key.len() < 8 {
        return Err(UsmError::DesKeyTooShort);
    }
    let key = vstd::slice::slice_subrange(priv_key, 0, 8);
    let mut salt: Vec<u8> = if priv_key.len() >= 16 {
        vstd::slice::slice_to_vec(vstd::slice::slice_subrange(priv_key, 8, 16))
    } else {
        vec![0u8, 0u8, 0u8, 0u8, 0u8, 0u8, 0u8, 0u8]
    };
    let mut boots: Vec<u8> = Vec::new();
    push_be4(&mut boots, engine_boots);
    proof {
        crate::snmp::ber::lemma_be_bytes_len(engine_boots as nat, 4);
    }
    let ghost pre = salt@;
    let mut i: usize = 0;
    while i < 4
        invariant
            i <= 4,
            salt@.len() == 8,
            pre.len() == 8,
            boots@ == be_bytes(engine_boots as nat, 4),
            boots@.len() == 4,
            forall|j: int| 0 <= j < 8 ==> #[trigger] salt@[j] == (if j < i { pre[j] ^ boots@[j] } else { pre[j] }),
        decreases 4 - i,
    {
        let b = salt[i] ^ boots[i];
        salt.set(i, b);
        i += 1;
    }
    let ghost expected = des_salt_spec(priv_key@, engine_boots);
    assert(pre =~= (if priv_key@.len() >= 16 { priv_key@.subrange(8, 16) } else { Seq::new(8, |i: int| 0u8) }));
    assert(salt@ =~= expected);
    let padded_len = if data.len() % 8 == 0 { data.len() } else { data.len() + (8 - data.len() % 8) };
    let mut padded: Vec<u8> = Vec::new();
    let mut k: usize = 0;
    while k < padded_len
        invariant
            k <= padded_len,
            padded_len >= data.len(),
            padded@.len() == k,
            forall|j: int| 0 <= j < k ==> #[trigger] padded@[j] == (if j < data.len() { data@[j] } else { 0u8 }),
        decreases padded_len - k,
    {
        if k < data.len() {
            padded.push(data[k]);
        } else {
            padded.push(0u8);
        }
        k += 1;
    }
    assert(padded@ =~= zero_pad8(data@));
    assert(key@ =~= priv_key@.take(8));
    let ciphertext = des_cbc_encrypt(key, salt.as_slice(), padded.as_slice());
    assert(salt@.take(8) =~= salt@);
    Ok((ciphertext, salt))
}

/// What DES privacy decryption yields.
pub open spec fn des_decrypt_spec(priv_key: Seq<u8>, priv_param: Seq<u8>, ciphertext: Seq<u8>) -> Result<Seq<u8>, UsmError> {
    if priv_key.len() < 8 || priv_param.len() < 8 {
        Err(UsmError::DesInvalidKeyOrIv)
    } else if ciphertext.len() % 8 != 0 {
        Err(UsmError::DesDecrypt)
    } else {
        Ok(des_cbc_decrypt_block_run(priv_key.take(8), priv_param.take(8), ciphertext))
    }
}

/// DES-CBC privacy decryption.
pub fn decrypt_des(priv_key: &[u8], priv_param: &[u8], ciphertext: &[u8]) -> (r: Result<Vec<u8>, UsmError>)
    ensures
        match r {
            Ok(p) => des_decrypt_spec(priv_key@, priv_param@, ciphertext@) == Ok::<Seq<u8>, UsmError>(p@),
            Err(e) => des_decrypt_spec(priv_key@, priv_param@, ciphertext@) == Err::<Seq<u8>, UsmError>(e),
        },
{
    if priv_key.len() < 8 || priv_param.len() < 8 {
        return Err(UsmError::DesInvalidKeyOrIv);
    }
    let key = vstd::slice::slice_subrange(priv_key, 0, 8);
    let iv = vstd::slice::slice_subrange(priv_param, 0, 8);
    assert(key@ =~= priv_key@.take(8));
    assert(iv@ =~= priv_param@.take(8));
    match des_cbc_decrypt(key, iv, ciphertext) {
        Some(p) => Ok(p),
        None => Err(UsmError::DesDecrypt),
    }
}

// ---------------------------------------------------------------------------
// USM parameters
// ---------------------------------------------------------------------------

/// USM security parameters of one SNMPv3 user.
#[derive(Debug, Clone)]
pub struct UsmSecurityParams {
    pub username: String,
    pub auth_protocol: AuthProtocol,
    pub auth_key_localized: Vec<u8>,
    pub priv_protocol: PrivProtocol,
    pub priv_key_localized: Vec<u8>,
    pub engine_id: Vec<u8>,
    pub engine_boots: u32,
    pub engine_time: u32,
}

impl UsmSecurityParams {
    /// Parameters for a user, with keys derived from the passwords and
    /// localised to the engine.
    pub fn new(
        username: &str,
        auth_proto: AuthProtocol,
        auth_password: &str,
        priv_proto: PrivProtocol,
        priv_password: &str,
        engine_id: &[u8],
        engine_boots: u32,
        engine_time: u32,
    ) -> (r: Self)
        ensures
            r.username@ == username@,
            r.auth_protocol == auth_proto,
            r.priv_protocol == priv_proto,
            r.auth_key_localized@ == password_to_key_spec(auth_password.spec_bytes(), engine_id@, auth_proto),
            r.priv_key_localized@ == derive_priv_key_spec(priv_password.spec_bytes(), engine_id@, auth_proto, priv_proto),
            r.engine_id@ == engine_id@,
            r.engine_boots == engine_boots,
            r.engine_time == engine_time,
    {
        let auth_key = password_to_key(auth_password, engine_id, &auth_proto);
        let priv_key = derive_priv_key(priv_password, engine_id, &auth_proto, &priv_proto);
        UsmSecurityParams {
            username: to_owned_string(username),
            auth_protocol: auth_proto,
            auth_key_localized: auth_key,
            priv_protocol: priv_proto,
            priv_key_localized: priv_key,
            engine_id: vstd::slice::slice_to_vec(engine_id),
            engine_boots,
            engine_time,
        }
    }
}

} // verus!
