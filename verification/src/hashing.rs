//! The hashing engine: salted Argon2 hashes of passwords, their verification,
//! and the decoy computation that keeps a login for an unknown account as
//! costly as one for a known account.

use crate::error::{AuthError, AuthErrorView, AuthResult};
use crate::policy::byte_length;
use crate::text::{decimal_value, is_numeral, numeral_exceeds};
use argon2::password_hash::rand_core::OsRng;
use argon2::password_hash::{PasswordHash, PasswordHasher, PasswordVerifier, SaltString};
use argon2::Argon2;
use vstd::prelude::*;
use vstd::string::{StrSliceExecFns, StringExecFns};

verus! {

/// What Argon2 with its default parameters (Argon2id, version 19) gives for
/// `password` and the B64 salt `salt`: the hash as a PHC string, or the text
/// of the engine's error where the salt is not acceptable or hashing fails.
pub uninterp spec fn argon2_phc(password: Seq<char>, salt: Seq<char>) -> Result<
    Seq<char>,
    Seq<char>,
>;

/// What checking `password` against the PHC string `stored` gives: whether
/// the digest recomputed with the salt and parameters embedded in `stored`
/// equals the embedded digest, or the text of the parser's error where
/// `stored` is not a PHC string.
pub uninterp spec fn phc_verification(password: Seq<char>, stored: Seq<char>) -> Result<
    bool,
    Seq<char>,
>;

/// The parameters that the parser reads in the PHC string `stored`, in their
/// order, each as its name and the text of its value; none where `stored` is
/// no PHC string.
pub uninterp spec fn phc_parameters(stored: Seq<char>) -> Seq<(Seq<char>, Seq<char>)>;

/// A list of parameters with its strings taken by their views.
pub open spec fn parameters_view(params: Seq<(String, String)>) -> Seq<(Seq<char>, Seq<char>)> {
    Seq::new(params.len(), |i: int| (params[i].0@, params[i].1@))
}

/// The greatest degree of parallelism that the engine works with.
pub open spec fn max_lanes() -> nat {
    0xFF_FFFF
}

/// The value of the parameter `p`, the degree of parallelism, as the engine
/// takes it from a list of parameters: that of the last one of that name.
pub open spec fn lanes_text(params: Seq<(Seq<char>, Seq<char>)>) -> Option<Seq<char>>
    decreases params.len(),
{
    if params.len() == 0 {
        None
    } else if params.last().0 == seq!['p'] {
        Some(params.last().1)
    } else {
        lanes_text(params.drop_last())
    }
}

/// Whether a list of parameters asks for more parallelism than the engine
/// works with. The engine verifies no password against such a hash.
pub open spec fn lanes_exceed(params: Seq<(Seq<char>, Seq<char>)>) -> bool {
    lanes_text(params) matches Some(text) && is_numeral(text) && decimal_value(text) > max_lanes()
}

/// What `verify_password` gives for `password` and the stored text `stored`:
/// `false` where `stored` asks for more parallelism than the engine works
/// with, else what the engine's answer comes to.
pub open spec fn password_verdict(password: Seq<char>, stored: Seq<char>) -> Result<
    bool,
    AuthErrorView,
> {
    if lanes_exceed(phc_parameters(stored)) {
        Ok(false)
    } else {
        verification_result(phc_verification(password, stored))
    }
}

/// A result of the engine with its strings taken by their views.
pub open spec fn engine_text(result: Result<String, String>) -> Result<Seq<char>, Seq<char>> {
    match result {
        Ok(text) => Ok(text@),
        Err(reason) => Err(reason@),
    }
}

/// A verdict of the engine with its error text taken by its view.
pub open spec fn engine_verdict(result: Result<bool, String>) -> Result<bool, Seq<char>> {
    match result {
        Ok(matches) => Ok(matches),
        Err(reason) => Err(reason@),
    }
}

/// A hash or an error, each taken by its view.
pub open spec fn hash_view(result: AuthResult<String>) -> Result<Seq<char>, AuthErrorView> {
    match result {
        Ok(hash) => Ok(hash@),
        Err(error) => Err(error@),
    }
}

/// What `hash_password` makes of the engine's answer: the hash, or a hashing
/// error that quotes the engine.
pub open spec fn hashing_result(engine: Result<Seq<char>, Seq<char>>) -> Result<
    Seq<char>,
    AuthErrorView,
> {
    match engine {
        Ok(hash) => Ok(hash),
        Err(reason) => Err(AuthErrorView::PasswordHashing("Erro ao hashear senha: "@ + reason)),
    }
}

/// What `verify_password` makes of the engine's answer: the verdict, or a
/// hashing error that quotes the parser where the stored hash is malformed.
pub open spec fn verification_result(engine: Result<bool, Seq<char>>) -> Result<
    bool,
    AuthErrorView,
> {
    match engine {
        Ok(matches) => Ok(matches),
        Err(reason) => Err(AuthErrorView::PasswordHashing("Erro ao analisar hash: "@ + reason)),
    }
}

/// What every hash of this engine begins with: the tag of Argon2id, its
/// version, and the default parameters.
pub open spec fn hash_header() -> Seq<char> {
    "$argon2id$v=19$m=19456,t=2,p=1$"@
}

/// Whether `hash` is laid out as the engine lays out a hash made under
/// `salt`: the header, the salt as it was given, a `$`, and then the digest.
/// A salt that the engine takes holds no `$`.
pub open spec fn carries_salt(hash: Seq<char>, salt: Seq<char>) -> bool {
    let start = hash_header() + salt + seq!['$'];
    &&& !salt.contains('$')
    &&& start.len() <= hash.len()
    &&& hash.subrange(0, start.len() as int) == start
}

/// Whether `password` verifies against the PHC string `stored`.
pub open spec fn verifies(password: Seq<char>, stored: Seq<char>) -> bool {
    password_verdict(password, stored) == Ok::<bool, AuthErrorView>(true)
}

/// Whether `hash` is a hash of `password` as this engine makes them: the
/// engine's output for `password` and some salt, which verifies against that
/// same password.
pub open spec fn is_hash_of(hash: Seq<char>, password: Seq<char>) -> bool {
    &&& exists|salt: Seq<char>| #[trigger]
        argon2_phc(password, salt) == Ok::<Seq<char>, Seq<char>>(hash)
    &&& verifies(password, hash)
}

/// The longest password, in bytes, that the engine hashes.
pub open spec fn max_password_bytes() -> nat {
    0xFFFF_FFFF
}

/// Whether the engine hashes every password it can take under `salt`.
pub open spec fn salt_serves(salt: Seq<char>) -> bool {
    forall|password: Seq<char>|
        byte_length(password) <= max_password_bytes() ==> (#[trigger] argon2_phc(
            password,
            salt,
        )) is Ok
}

/// Calls `SaltString::generate` on the operating system's random generator
/// and hands the salt out as text. The salt differs from call to call; what
/// holds of each is that it is the B64 text of sixteen bytes, which the
/// engine reads back and accepts, so that hashing under it fails for no
/// password but one of more than 0xFFFFFFFF bytes. The process ends if the
/// system has no entropy to give.
#[verifier::external_body]
fn fresh_salt() -> (salt: String)
    ensures
        salt_serves(salt@),
{
    SaltString::generate(&mut OsRng).as_str().to_owned()
}

/// Calls `Argon2::default().hash_password` on the bytes of `password` and the
/// salt that `SaltString::from_b64` reads from `salt`, and renders the hash
/// as a PHC string. The result is a function of the two arguments alone. A
/// hash made this way verifies against the password it was made from: the
/// PHC string carries the algorithm, version, parameters and salt, and
/// verification recomputes the digest from them. Its parameters are the
/// engine's defaults, with a parallelism of one. The string is written as
/// `$argon2id$v=19$m=19456,t=2,p=1$`, the salt as it was given, `$`, and the
/// digest; a salt that is read holds only letters, digits and `/+.-`.
#[verifier::external_body]
fn argon2_hash(password: &str, salt: &str) -> (hashed: Result<String, String>)
    ensures
        engine_text(hashed) == argon2_phc(password@, salt@),
        hashed matches Ok(hash) ==> verifies(password@, hash@),
        hashed matches Ok(hash) ==> carries_salt(hash@, salt@),
{
    let salt = match SaltString::from_b64(salt) {
        Ok(salt) => salt,
        Err(e) => return Err(e.to_string()),
    };
    match Argon2::default().hash_password(password.as_bytes(), &salt) {
        Ok(hash) => Ok(hash.to_string()),
        Err(e) => Err(e.to_string()),
    }
}

/// Calls `PasswordHash::new` on `stored` and hands out the parameters of
/// the parsed hash as `ParamsString::iter` walks them, each as the text of
/// its name and of its value; an empty list where `stored` does not parse.
/// The result is a function of `stored` alone.
#[verifier::external_body]
fn read_parameters(stored: &str) -> (params: Vec<(String, String)>)
    ensures
        parameters_view(params@) == phc_parameters(stored@),
{
    match PasswordHash::new(stored) {
        Ok(parsed) => parsed.params.iter().map(
            |(name, value)| (name.as_str().to_owned(), value.as_str().to_owned()),
        ).collect(),
        Err(_) => Vec::new(),
    }
}

/// Calls `PasswordHash::new` on `stored` and, where that parses,
/// `Argon2::default().verify_password` on the bytes of `password` and the
/// parsed hash. `Ok` holds whether verification succeeded; `Err` holds the
/// parser's error as text. The result is a function of the two arguments
/// alone.
///
/// The engine multiplies the parallelism it reads by eight in 32 bits
/// before it tests its range, which overflows from 0x20000000 on. Texts
/// whose parallelism is beyond the engine's maximum, which is far below
/// that, are therefore kept from this call.
#[verifier::external_body]
fn argon2_verify(password: &str, stored: &str) -> (verdict: Result<bool, String>)
    requires
        !lanes_exceed(phc_parameters(stored@)),
    ensures
        engine_verdict(verdict) == phc_verification(password@, stored@),
{
    match PasswordHash::new(stored) {
        Ok(parsed) => Ok(Argon2::default().verify_password(password.as_bytes(), &parsed).is_ok()),
        Err(e) => Err(e.to_string()),
    }
}

/// Turns the engine's answer to a hashing request into the result that
/// `hash_password` reports.
pub fn hashing_outcome(engine: Result<String, String>) -> (hashed: AuthResult<String>)
    ensures
        hash_view(hashed) == hashing_result(engine_text(engine)),
{
    match engine {
        Ok(hash) => Ok(hash),
        Err(reason) => Err(
            AuthError::PasswordHashing(
                String::from_str("Erro ao hashear senha: ").concat(reason.as_str()),
            ),
        ),
    }
}

/// Turns the engine's answer to a verification request into the result that
/// `verify_password` reports.
pub fn verification_outcome(engine: Result<bool, String>) -> (verdict: AuthResult<bool>)
    ensures
        crate::error::result_view(verdict) == verification_result(engine_verdict(engine)),
{
    match engine {
        Ok(matches) => Ok(matches),
        Err(reason) => Err(
            AuthError::PasswordHashing(
                String::from_str("Erro ao analisar hash: ").concat(reason.as_str()),
            ),
        ),
    }
}

/// Hashes `password` with the given B64 salt. The same password and salt
/// always give the same hash.
pub fn hash_password_with_salt(password: &str, salt: &str) -> (hashed: AuthResult<String>)
    ensures
        hash_view(hashed) == hashing_result(argon2_phc(password@, salt@)),
        hashed matches Ok(hash) ==> is_hash_of(hash@, password@),
        hashed matches Ok(hash) ==> carries_salt(hash@, salt@),
{
    let engine = argon2_hash(password, salt);
    hashing_outcome(engine)
}

/// Hashes `password` with a salt drawn for this call, and returns the hash
/// as a self-describing string: algorithm, version, parameters, salt and
/// digest. Each hash verifies against its password, and two calls that draw
/// different salts give different strings, also on one password. Hashing
/// succeeds for every password of at most 0xFFFFFFFF bytes.
pub fn hash_password(password: &str) -> (hashed: AuthResult<String>)
    ensures
        exists|salt: Seq<char>|
            hash_view(hashed) == hashing_result(#[trigger] argon2_phc(password@, salt)) && (
            hashed matches Ok(hash) ==> carries_salt(hash@, salt)),
        hashed matches Ok(hash) ==> is_hash_of(hash@, password@),
        byte_length(password@) <= max_password_bytes() ==> hashed is Ok,
{
    let salt = fresh_salt();
    hash_password_with_salt(password, salt.as_str())
}

/// Decides whether a list of parameters asks for more parallelism than the
/// engine works with.
pub fn lanes_beyond_engine(params: &Vec<(String, String)>) -> (beyond: bool)
    ensures
        beyond == lanes_exceed(parameters_view(params@)),
{
    let ghost all = parameters_view(params@);
    let mut beyond = false;
    let mut i: usize = 0;
    while i < params.len()
        invariant
            i <= params.len(),
            all == parameters_view(params@),
            beyond == lanes_exceed(all.take(i as int)),
        decreases params.len() - i,
    {
        proof {
            let after = all.take(i as int + 1);
            assert(after.drop_last() =~= all.take(i as int));
            assert(after.last() == all[i as int]);
        }
        let name = params[i].0.as_str();
        if name.unicode_len() == 1 && name.get_char(0) == 'p' {
            assert(name@ =~= seq!['p']);
            beyond = numeral_exceeds(params[i].1.as_str(), 0xFF_FFFF);
        }
        i += 1;
    }
    assert(all.take(params.len() as int) =~= all);
    beyond
}

/// Checks `password` against a stored hash. `Ok` tells whether the digest
/// recomputed from `password` with the stored salt and parameters matches the
/// stored digest; a stored hash that cannot be read is an error, never a
/// plain `false`. A stored hash that asks for more parallelism than the
/// engine works with verifies no password: the answer is `false`, and the
/// engine is not asked.
pub fn verify_password(password: &str, stored_hash: &str) -> (verdict: AuthResult<bool>)
    ensures
        crate::error::result_view(verdict) == password_verdict(password@, stored_hash@),
{
    let params = read_parameters(stored_hash);
    if lanes_beyond_engine(&params) {
        return Ok(false);
    }
    let engine = argon2_verify(password, stored_hash);
    verification_outcome(engine)
}

/// A hash that this engine made verifies against its password: where `hash`
/// is a hash of `password`, `verify_password` on the two returns `Ok(true)`.
pub proof fn lemma_own_hash_verifies(hash: Seq<char>, password: Seq<char>)
    requires
        is_hash_of(hash, password),
    ensures
        password_verdict(password, hash) == Ok::<bool, AuthErrorView>(true),
{
}

/// Hashes made under different salts are different texts: the salt stands
/// in the hash as it was given, so two calls of `hash_password` that draw
/// different salts return different strings, also for one password.
pub proof fn lemma_salts_tell_hashes_apart(
    first: Seq<char>,
    first_salt: Seq<char>,
    second: Seq<char>,
    second_salt: Seq<char>,
)
    requires
        carries_salt(first, first_salt),
        carries_salt(second, second_salt),
        first_salt != second_salt,
    ensures
        first != second,
{
    if first == second {
        let header = hash_header();
        let first_start = header + first_salt + seq!['$'];
        let second_start = header + second_salt + seq!['$'];
        if first_salt.len() == second_salt.len() {
            assert forall|i: int| 0 <= i < first_salt.len() implies first_salt[i]
                == second_salt[i] by {
                assert(first_start[header.len() + i] == first_salt[i]);
                assert(second_start[header.len() + i] == second_salt[i]);
            }
            assert(first_salt =~= second_salt);
        } else if first_salt.len() < second_salt.len() {
            let at = (header.len() + first_salt.len()) as int;
            assert(first_start[at] == '$');
            assert(second_start[at] == second_salt[first_salt.len() as int]);
            assert(second_salt.contains('$'));
        } else {
            let at = (header.len() + second_salt.len()) as int;
            assert(second_start[at] == '$');
            assert(first_start[at] == first_salt[second_salt.len() as int]);
            assert(first_salt.contains('$'));
        }
    }
}

/// Hashes a fixed decoy password with a fresh salt and throws the hash away.
/// A login for an account that does not exist calls this, so that it costs
/// what verifying a password would have cost.
pub fn dummy_hash_operation() {
    let salt = fresh_salt();
    let _ = argon2_hash("dummy_password", salt.as_str());
}

} // verus!
