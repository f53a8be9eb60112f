//! The credential hasher and the authentication gate: salted, memory-hard
//! password hashing with self-describing encoded hashes, and HTTP Basic
//! credential checking against the user store. The hashing calls are
//! CPU-bound by design; the program around the library dispatches them to an
//! isolated worker so they never stall the request-handling scheduler.

use crate::config::{Config, PasswordConfig};
use crate::db::{Store, User};
use crate::reject::{bad_request, unauthorized, FiliteRejection};
use rand::Rng;
use vstd::prelude::*;

verus! {

use vstd::utf8::{decode_utf8, encode_utf8, valid_utf8};

/// The encoded hash that argon2 derives from a password, salt, and cost
/// parameters (with the fixed Argon2i variant, version 0x13, and empty
/// associated data): a function of these arguments alone.
pub uninterp spec fn argon_encoded(
    password: Seq<u8>,
    salt: Seq<u8>,
    hash_length: u32,
    lanes: u32,
    mem_cost: u32,
    time_cost: u32,
    secret: Seq<u8>,
) -> Seq<char>;

/// Whether argon2 accepts `encoded` as a well-formed encoded hash: it
/// parses, and the parameters embedded in it pass validation (with the
/// memory limit of a 64-bit build).
pub uninterp spec fn argon_wf(encoded: Seq<char>) -> bool;

/// Whether argon2's verification of `password` (with `secret`) against the
/// salt, parameters, and digest embedded in `encoded` succeeds: a function
/// of these arguments alone.
pub uninterp spec fn argon_verifies(encoded: Seq<char>, password: Seq<u8>, secret: Seq<u8>) -> bool;

/// What a base64 decode of `s` yields, with the standard alphabet: a
/// function of the input characters alone; `None` is the invalid-input
/// case.
pub uninterp spec fn b64_decoded(s: Seq<char>) -> Option<Seq<u8>>;

/// The parameter combinations argon2 validates: how many lanes, how much
/// memory relative to them, how many passes, how long a salt and digest,
/// and inputs small enough for the encoding's length fields.
pub open spec fn valid_hash_params(
    password_len: nat,
    salt_len: nat,
    hash_length: u32,
    lanes: u32,
    mem_cost: u32,
    time_cost: u32,
    secret_len: nat,
) -> bool {
    &&& 1 <= lanes <= 0xFFFFFF
    &&& mem_cost >= 8 * lanes
    &&& 8 <= mem_cost <= 0x200000
    &&& time_cost >= 1
    &&& hash_length >= 4
    &&& 8 <= salt_len <= 0xFFFFFFFF
    &&& password_len <= 0xFFFFFFFF
    &&& secret_len <= 0xFFFFFFFF
}

/// The parameter combinations argon2 rejects on every build, whatever the
/// build's memory cap: too few or too many lanes, memory below the floor or
/// below eight blocks per lane, no passes, a digest shorter than four
/// bytes, a salt outside its bounds, or an input too long for the
/// encoding's length fields.
pub open spec fn invalid_hash_params(
    password_len: nat,
    salt_len: nat,
    hash_length: u32,
    lanes: u32,
    mem_cost: u32,
    time_cost: u32,
    secret_len: nat,
) -> bool {
    ||| lanes < 1
    ||| lanes > 0xFFFFFF
    ||| mem_cost < 8
    ||| mem_cost < 8 * lanes
    ||| time_cost < 1
    ||| hash_length < 4
    ||| salt_len < 8
    ||| salt_len > 0xFFFFFFFF
    ||| password_len > 0xFFFFFFFF
    ||| secret_len > 0xFFFFFFFF
}

/// Relies on rust-argon2's `hash_encoded`, on its default configuration but
/// for the cost parameters set here (variant Argon2i, version 0x13, empty
/// associated data, sequential lanes): the outcome depends on the arguments
/// alone; parameter validation is the only failure, so a combination it
/// rejects on every build yields `None`, never a silently defaulted hash;
/// and the encoded result re-parses and verifies against the same password
/// and secret.
#[verifier::external_body]
fn argon2_hash_raw(
    password: &[u8],
    salt: &[u8],
    hash_length: u32,
    lanes: u32,
    mem_cost: u32,
    time_cost: u32,
    secret: &[u8],
) -> (r: Option<String>)
    ensures
        valid_hash_params(
            password@.len(),
            salt@.len(),
            hash_length,
            lanes,
            mem_cost,
            time_cost,
            secret@.len(),
        ) ==> r is Some,
        invalid_hash_params(
            password@.len(),
            salt@.len(),
            hash_length,
            lanes,
            mem_cost,
            time_cost,
            secret@.len(),
        ) ==> r is None,
        r matches Some(s) ==> s@ == argon_encoded(
            password@,
            salt@,
            hash_length,
            lanes,
            mem_cost,
            time_cost,
            secret@,
        ),
        r matches Some(s) ==> argon_wf(s@),
        r matches Some(s) ==> argon_verifies(s@, password@, secret@),
{
    let mut cfg = argon2::Config::default();
    cfg.hash_length = hash_length;
    cfg.lanes = lanes;
    cfg.mem_cost = mem_cost;
    cfg.time_cost = time_cost;
    cfg.secret = secret;
    argon2::hash_encoded(password, salt, &cfg).ok()
}

/// Relies on rust-argon2's `verify_encoded_ext` (with empty associated
/// data): the outcome depends on the arguments alone; a malformed or
/// invalid `encoded` is the only failure for inputs whose lengths fit the
/// encoding. The success-failure boundary is stated for a 64-bit build,
/// whose memory cap admits every cost the encoding can carry.
#[verifier::external_body]
fn argon2_verify_raw(encoded: &str, password: &[u8], secret: &[u8]) -> (r: Option<bool>)
    ensures
        password@.len() <= 0xFFFFFFFF && secret@.len() <= 0xFFFFFFFF ==> (r is Some <==> argon_wf(
            encoded@,
        )),
        r matches Some(b) ==> b == argon_verifies(encoded@, password@, secret@),
{
    argon2::verify_encoded_ext(encoded, password, secret, &[]).ok()
}

/// Relies on rand's `thread_rng` filling a byte buffer: only the length of
/// the drawn salt is promised, never anything about its contents.
#[verifier::external_body]
fn random_bytes(len: usize) -> (r: Vec<u8>)
    ensures
        r@.len() == len,
{
    let mut buf = vec![0u8; len];
    rand::thread_rng().fill(&mut buf[..]);
    buf
}

/// Relies on base64's `decode` with the standard alphabet: the outcome is a
/// function of the input characters alone; invalid input is the `None`
/// case.
#[verifier::external_body]
pub(crate) fn b64_decode(s: &str) -> (r: Option<Vec<u8>>)
    ensures
        r is Some <==> b64_decoded(s@) is Some,
        r matches Some(v) ==> b64_decoded(s@) == Some(v@),
{
    base64::decode(s).ok()
}

/// Relies on `String::from_utf8`: it succeeds exactly on valid UTF-8 and
/// decodes it.
#[verifier::external_body]
fn bytes_to_string(v: Vec<u8>) -> (r: Option<String>)
    ensures
        r is Some <==> valid_utf8(v@),
        r matches Some(s) ==> s@ == decode_utf8(v@),
{
    String::from_utf8(v).ok()
}

/// A failure of the credential hasher, fatal to the calling operation.
#[derive(Debug, PartialEq, Eq)]
pub enum HashError {
    /// The configured parameter combination fails the algorithm's
    /// validation.
    InvalidParameters,
    /// The encoded hash handed to verification is malformed.
    MalformedEncoding,
}

/// The digest length used when none is configured.
pub open spec fn spec_hash_length(c: PasswordConfig) -> u32 {
    match c.hash_length {
        Some(v) => v,
        None => 32,
    }
}

/// The salt length used when none is configured.
pub open spec fn spec_salt_length(c: PasswordConfig) -> usize {
    match c.salt_length {
        Some(v) => v,
        None => 16,
    }
}

/// The lane count used when none is configured.
pub open spec fn spec_lanes(c: PasswordConfig) -> u32 {
    match c.lanes {
        Some(v) => v,
        None => 1,
    }
}

/// The memory cost used when none is configured.
pub open spec fn spec_memory_cost(c: PasswordConfig) -> u32 {
    match c.memory_cost {
        Some(v) => v,
        None => 4096,
    }
}

/// The pass count used when none is configured.
pub open spec fn spec_time_cost(c: PasswordConfig) -> u32 {
    match c.time_cost {
        Some(v) => v,
        None => 3,
    }
}

/// The secret (pepper) bytes: the configured string's UTF-8 bytes, or none.
pub open spec fn spec_secret(c: PasswordConfig) -> Seq<u8> {
    match c.secret {
        Some(s) => encode_utf8(s@),
        None => Seq::<u8>::empty(),
    }
}

/// Whether the configured parameters, with defaults filled in, pass the
/// algorithm's validation for every password of encodable length.
pub open spec fn spec_params_valid(c: PasswordConfig) -> bool {
    &&& 1 <= spec_lanes(c) <= 0xFFFFFF
    &&& spec_memory_cost(c) >= 8 * spec_lanes(c)
    &&& 8 <= spec_memory_cost(c) <= 0x200000
    &&& spec_time_cost(c) >= 1
    &&& spec_hash_length(c) >= 4
    &&& 8 <= spec_salt_length(c) <= 0xFFFFFFFF
    &&& spec_secret(c).len() <= 0xFFFFFFFF
}

/// Whether the configured parameters, with defaults filled in, are rejected
/// by the algorithm on every build. Between this and `spec_params_valid`
/// lies only a band of memory costs that a 32-bit build refuses.
pub open spec fn spec_params_invalid(c: PasswordConfig) -> bool {
    ||| spec_lanes(c) < 1
    ||| spec_lanes(c) > 0xFFFFFF
    ||| spec_memory_cost(c) < 8
    ||| spec_memory_cost(c) < 8 * spec_lanes(c)
    ||| spec_time_cost(c) < 1
    ||| spec_hash_length(c) < 4
    ||| spec_salt_length(c) < 8
    ||| spec_salt_length(c) > 0xFFFFFFFF
    ||| spec_secret(c).len() > 0xFFFFFFFF
}

/// The configured secret as bytes.
fn secret_bytes(config: &PasswordConfig) -> (r: Vec<u8>)
    ensures
        r@ == spec_secret(*config),
{
    match &config.secret {
        Some(s) => s.as_str().as_bytes_vec(),
        None => Vec::new(),
    }
}

/// Derives a salted, memory-hard digest of `password`. Each parameter left
/// unset in `config` takes the algorithm default; a fresh random salt is
/// drawn per call and embedded, with the parameters, in the returned
/// encoding, so verification is self-describing. The secret is not
/// embedded and must be supplied identically at verification time. An
/// invalid parameter combination is fatal, never silently defaulted.
pub fn hash(password: &[u8], config: &PasswordConfig) -> (r: Result<String, HashError>)
    ensures
        r matches Ok(s) ==> argon_wf(s@) && argon_verifies(s@, password@, spec_secret(*config)),
        r matches Ok(s) ==> (exists|salt: Seq<u8>|
            salt.len() == spec_salt_length(*config) && s@ == argon_encoded(
                password@,
                salt,
                spec_hash_length(*config),
                spec_lanes(*config),
                spec_memory_cost(*config),
                spec_time_cost(*config),
                spec_secret(*config),
            )),
        spec_params_valid(*config) && password@.len() <= 0xFFFFFFFF ==> r is Ok,
        spec_params_invalid(*config) || password@.len() > 0xFFFFFFFF ==> r is Err,
        r is Err ==> r == Err::<String, HashError>(HashError::InvalidParameters),
{
    let hash_length = match config.hash_length {
        Some(v) => v,
        None => 32,
    };
    let lanes = match config.lanes {
        Some(v) => v,
        None => 1,
    };
    let mem_cost = match config.memory_cost {
        Some(v) => v,
        None => 4096,
    };
    let time_cost = match config.time_cost {
        Some(v) => v,
        None => 3,
    };
    let salt_length = match config.salt_length {
        Some(v) => v,
        None => 16,
    };
    let secret = secret_bytes(config);
    let salt = random_bytes(salt_length);
    match argon2_hash_raw(
        password,
        salt.as_slice(),
        hash_length,
        lanes,
        mem_cost,
        time_cost,
        secret.as_slice(),
    ) {
        Some(s) => Ok(s),
        None => Err(HashError::InvalidParameters),
    }
}

/// Recomputes the digest using the salt and parameters embedded in
/// `encoded`, plus the configured secret, and compares in constant time.
/// A wrong password or mismatched secret comes back as `false`; only a
/// malformed `encoded` is an error.
pub fn verify(encoded: &str, password: &[u8], config: &PasswordConfig) -> (r: Result<
    bool,
    HashError,
>)
    ensures
        r matches Ok(b) ==> b == argon_verifies(encoded@, password@, spec_secret(*config)),
        password@.len() <= 0xFFFFFFFF && spec_secret(*config).len() <= 0xFFFFFFFF ==> (r is Ok
            <==> argon_wf(encoded@)),
        r is Err ==> r == Err::<bool, HashError>(HashError::MalformedEncoding),
{
    let secret = secret_bytes(config);
    match argon2_verify_raw(encoded, password, secret.as_slice()) {
        Some(b) => Ok(b),
        None => Err(HashError::MalformedEncoding),
    }
}

/// Where the first colon stands in a decoded credential.
pub open spec fn is_first_colon(bytes: Seq<u8>, i: int) -> bool {
    &&& 0 <= i < bytes.len()
    &&& bytes[i] == 58u8
    &&& forall|j: int| 0 <= j < i ==> bytes[j] != 58u8
}

/// The username and password halves of a decoded credential: the split at
/// the first colon byte, since passwords may themselves contain colons.
/// `None` when no colon is present.
pub open spec fn spec_split_colon(bytes: Seq<u8>) -> Option<(Seq<u8>, Seq<u8>)> {
    if exists|i: int| is_first_colon(bytes, i) {
        let i = choose|i: int| is_first_colon(bytes, i);
        Some((bytes.take(i), bytes.skip(i + 1)))
    } else {
        None
    }
}

/// What a Basic `Authorization` header value carries: after the exact
/// `Basic ` scheme prefix, base64 of `user:password`, split at the first
/// colon, with a username that must be valid UTF-8. `None` for anything
/// malformed.
pub open spec fn spec_basic_credentials(h: Seq<char>) -> Option<(Seq<char>, Seq<u8>)> {
    if h.len() >= 6 && h.take(6) == "Basic "@ {
        match b64_decoded(h.skip(6)) {
            Some(bytes) => match spec_split_colon(bytes) {
                Some(parts) => if valid_utf8(parts.0) {
                    Some((decode_utf8(parts.0), parts.1))
                } else {
                    None
                },
                None => None,
            },
            None => None,
        }
    } else {
        None
    }
}

/// Splits a decoded credential at its first colon byte.
fn split_colon(bytes: &Vec<u8>) -> (r: Option<(Vec<u8>, Vec<u8>)>)
    ensures
        match r {
            Some(parts) => spec_split_colon(bytes@) == Some((parts.0@, parts.1@)),
            None => spec_split_colon(bytes@) is None,
        },
{
    let n = bytes.len();
    let mut i: usize = 0;
    while i < n
        invariant
            n == bytes@.len(),
            i <= n,
            forall|j: int| 0 <= j < i ==> bytes@[j] != 58u8,
        decreases n - i,
    {
        if bytes[i] == 58u8 {
            proof {
                assert(is_first_colon(bytes@, i as int));
                let k = choose|k: int| is_first_colon(bytes@, k);
                if k < i as int {
                    assert(bytes@[k] != 58u8);
                } else if k > i as int {
                    assert(bytes@[i as int] != 58u8);
                }
            }
            let user = vstd::slice::slice_to_vec(vstd::slice::slice_subrange(
                bytes.as_slice(),
                0,
                i,
            ));
            let pass = vstd::slice::slice_to_vec(vstd::slice::slice_subrange(
                bytes.as_slice(),
                i + 1,
                n,
            ));
            proof {
                assert(user@ =~= bytes@.take(i as int));
                assert(pass@ =~= bytes@.skip(i + 1));
            }
            return Some((user, pass));
        }
        i += 1;
    }
    proof {
        assert(forall|k: int| !is_first_colon(bytes@, k));
    }
    None
}

/// Parses a Basic `Authorization` header value into the username and the
/// raw password bytes. `None` for a malformed header: no `Basic ` scheme,
/// invalid base64, no colon in the decoded pair, or a username that is not
/// valid UTF-8.
pub fn parse_basic(header: &str) -> (r: Option<(String, Vec<u8>)>)
    ensures
        match r {
            Some(cred) => spec_basic_credentials(header@) == Some((cred.0@, cred.1@)),
            None => spec_basic_credentials(header@) is None,
        },
{
    let n = header.unicode_len();
    if n < 6 {
        return None;
    }
    let scheme = header.substring_char(0, 6);
    if !crate::util::str_eq(scheme, "Basic ") {
        proof {
            assert(scheme@ =~= header@.take(6));
        }
        return None;
    }
    let payload = header.substring_char(6, n);
    proof {
        assert(scheme@ =~= header@.take(6));
        assert(payload@ =~= header@.skip(6));
    }
    let bytes = match b64_decode(payload) {
        Some(b) => b,
        None => {
            return None;
        }
    };
    let parts = match split_colon(&bytes) {
        Some(p) => p,
        None => {
            return None;
        }
    };
    let user = match bytes_to_string(parts.0) {
        Some(s) => s,
        None => {
            return None;
        }
    };
    Some((user, parts.1))
}

/// Authenticates one request from its `Authorization` header: parses the
/// Basic credentials, resolves the user, and checks the password against
/// the stored hash. A missing header is challenged; a malformed one is a
/// bad request; an unknown username and a wrong password surface as the
/// same unauthorized outcome, never saying which of the two occurred.
pub fn authenticate(header: Option<&str>, db: &Store, config: &Config) -> (r: Result<
    User,
    FiliteRejection,
>)
    requires
        db.wf(),
    ensures
        header is None ==> (r matches Err(rej) && rej matches FiliteRejection::Unauthorized(m)
            && m@ == "Authentication Required"@),
        (header matches Some(h) && spec_basic_credentials(h@) is None) ==> (r matches Err(rej)
            && rej matches FiliteRejection::BadRequest(m) && m@ == "Invalid Credentials"@),
        (header matches Some(h) && spec_basic_credentials(h@) matches Some(cred)
            && !db.users().contains_key(cred.0)) ==> (r matches Err(rej) && rej matches
            FiliteRejection::Unauthorized(m) && m@ == "Invalid Credentials"@),
        header matches Some(h) ==> spec_basic_credentials(h@) matches Some(cred)
            ==> db.users().contains_key(cred.0) ==> {
            let stored = db.users()[cred.0];
            let good = argon_verifies(
                stored.password_hash,
                cred.1,
                spec_secret(config.password),
            );
            &&& (r matches Ok(u) ==> u@ == stored && good)
            &&& (cred.1.len() <= 0xFFFFFFFF && spec_secret(config.password).len() <= 0xFFFFFFFF
                ==> {
                &&& (argon_wf(stored.password_hash) && good ==> (r matches Ok(u) && u@
                    == stored))
                &&& (argon_wf(stored.password_hash) && !good ==> (r matches Err(rej)
                    && rej matches FiliteRejection::Unauthorized(m) && m@
                    == "Invalid Credentials"@))
                &&& (!argon_wf(stored.password_hash) ==> r == Err::<User, FiliteRejection>(
                    FiliteRejection::InternalServerError,
                ))
            })
        },
{
    let h = match header {
        Some(h) => h,
        None => {
            return Err(unauthorized("Authentication Required".to_owned()));
        }
    };
    let cred = match parse_basic(h) {
        Some(c) => c,
        None => {
            return Err(bad_request("Invalid Credentials".to_owned()));
        }
    };
    let user = match crate::db::user(cred.0.as_str(), db) {
        Some(u) => u,
        None => {
            return Err(unauthorized("Invalid Credentials".to_owned()));
        }
    };
    let valid = match verify(user.password_hash.as_str(), cred.1.as_slice(), &config.password) {
        Ok(v) => v,
        Err(_) => {
            return Err(FiliteRejection::InternalServerError);
        }
    };
    if valid {
        Ok(user)
    } else {
        Err(unauthorized("Invalid Credentials".to_owned()))
    }
}

} // verus!
