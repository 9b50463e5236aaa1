use vstd::prelude::*;
use vstd::string::{StrSliceExecFns, StringExecFns};

verus! {

#[verifier::external_type_specification]
#[verifier::external_body]
pub struct ExEncodingKey(jsonwebtoken::EncodingKey);

#[verifier::external_type_specification]
#[verifier::external_body]
pub struct ExJwtError(jsonwebtoken::errors::Error);

/// Failure kinds of obtaining an installation-scoped client.
#[derive(Debug, Clone, Copy, PartialEq, Eq, Structural)]
pub enum GetOctocrabError {
    /// The app's private key is not an RSA private key in PEM form.
    InvalidJsonWebToken,
    /// The host refused the app, the installation lookup or the token exchange.
    OctocrabError,
}

/// Whether `pem` is accepted as an RSA private key in PEM form.
pub uninterp spec fn is_rsa_pem_key(pem: Seq<char>) -> bool;

/// Relies on jsonwebtoken::EncodingKey::from_rsa_pem, which parses PEM text
/// into an RSA signing key; whether it succeeds depends on the text alone.
#[verifier::external_body]
fn rsa_key_from_pem(pem: &str) -> (r: Result<jsonwebtoken::EncodingKey, jsonwebtoken::errors::Error>)
    ensures
        r is Ok <==> is_rsa_pem_key(pem@),
{
    jsonwebtoken::EncodingKey::from_rsa_pem(pem.as_bytes())
}

/// The app's long-lived credentials.
#[derive(Clone)]
pub struct AppState {
    pub github_app_id: u64,
    pub github_app_private_key: String,
}

impl AppState {
    /// The key that signs the app's JSON Web Tokens, read from its private key.
    pub fn signing_key(&self) -> (r: Result<jsonwebtoken::EncodingKey, GetOctocrabError>)
        ensures
            r is Ok <==> is_rsa_pem_key(self.github_app_private_key@),
            r is Err ==> r->Err_0 == GetOctocrabError::InvalidJsonWebToken,
    {
        match rsa_key_from_pem(self.github_app_private_key.as_str()) {
            Ok(key) => Ok(key),
            Err(_) => Err(GetOctocrabError::InvalidJsonWebToken),
        }
    }
}

pub open spec fn is_digit(c: char) -> bool {
    '0' <= c && c <= '9'
}

/// The number that the decimal digits `d` write.
pub open spec fn decimal_value(d: Seq<char>) -> int
    decreases d.len(),
{
    if d.len() == 0 {
        0
    } else {
        decimal_value(d.drop_last()) * 10 + (d.last() as int - '0' as int)
    }
}

/// The digits of `s` once an optional leading `+` is dropped.
pub open spec fn unsigned_digits(s: Seq<char>) -> Seq<char> {
    if s.len() > 0 && s[0] == '+' {
        s.drop_first()
    } else {
        s
    }
}

/// The `u64` that `s` writes in decimal, with an optional leading `+`; none
/// when it has no digit, another character, or a value too large.
pub open spec fn parsed_u64(s: Seq<char>) -> Option<u64> {
    let d = unsigned_digits(s);
    if d.len() > 0 && (forall|i: int| 0 <= i < d.len() ==> is_digit(#[trigger] d[i]))
        && decimal_value(d) <= u64::MAX {
        Some(decimal_value(d) as u64)
    } else {
        None
    }
}

proof fn lemma_decimal_value_grows(d: Seq<char>, j: int)
    requires
        0 <= j <= d.len(),
        forall|i: int| 0 <= i < d.len() ==> is_digit(#[trigger] d[i]),
    ensures
        0 <= decimal_value(d.take(j)) <= decimal_value(d),
    decreases d.len() - j,
{
    if j < d.len() {
        lemma_decimal_value_grows(d, j + 1);
        assert(d.take(j + 1).drop_last() =~= d.take(j));
        let v = decimal_value(d.take(j));
        assert(v * 10 >= v) by (nonlinear_arith)
            requires
                v >= 0,
        ;
    } else {
        assert(d.take(j) =~= d);
        lemma_decimal_value_nonnegative(d);
    }
}

proof fn lemma_decimal_value_nonnegative(d: Seq<char>)
    requires
        forall|i: int| 0 <= i < d.len() ==> is_digit(#[trigger] d[i]),
    ensures
        decimal_value(d) >= 0,
    decreases d.len(),
{
    if d.len() > 0 {
        lemma_decimal_value_nonnegative(d.drop_last());
        let v = decimal_value(d.drop_last());
        assert(v * 10 >= 0) by (nonlinear_arith)
            requires
                v >= 0,
        ;
    }
}

/// Reads a `u64` written in decimal, as `str::parse::<u64>` does.
pub fn parse_u64(s: &str) -> (r: Option<u64>)
    ensures
        r == parsed_u64(s@),
{
    let n = s.unicode_len();
    let mut start: usize = 0;
    if n > 0 && s.get_char(0) == '+' {
        start = 1;
    }
    let ghost d = unsigned_digits(s@);
    assert(d =~= s@.subrange(start as int, n as int));
    if start == n {
        return None;
    }
    let mut value: u64 = 0;
    let mut i: usize = start;
    while i < n
        invariant
            start <= i <= n,
            n == s@.len(),
            d == s@.subrange(start as int, n as int),
            d == unsigned_digits(s@),
            forall|k: int| 0 <= k < i - start ==> is_digit(#[trigger] d[k]),
            value as int == decimal_value(d.take(i - start)),
        decreases n - i,
    {
        let c = s.get_char(i);
        assert(d[i - start] == c);
        if !('0' <= c && c <= '9') {
            assert(!is_digit(d[i - start]));
            assert(!(forall|k: int| 0 <= k < d.len() ==> is_digit(#[trigger] d[k])));
            assert(parsed_u64(s@) is None);
            return None;
        }
        let digit = (c as u32 - '0' as u32) as u64;
        assert(d.take(i - start + 1).drop_last() =~= d.take(i - start));
        assert(d.take(i - start + 1).last() == c);
        assert(decimal_value(d.take(i - start + 1)) == value as int * 10 + digit as int);
        if value > (u64::MAX - digit) / 10 {
            proof {
                let v = value as int;
                assert(v * 10 + digit > u64::MAX) by (nonlinear_arith)
                    requires
                        v > (u64::MAX - digit) / 10,
                        0 <= digit <= 9,
                ;
                if forall|k: int| 0 <= k < d.len() ==> is_digit(#[trigger] d[k]) {
                    lemma_decimal_value_grows(d, i - start + 1);
                    assert(decimal_value(d) > u64::MAX);
                }
                assert(parsed_u64(s@) is None);
            }
            return None;
        }
        value = value * 10 + digit;
        i = i + 1;
    }
    assert(d.take(n - start) =~= d);
    Some(value)
}

impl AppState {
    /// The credentials from the settings' values: the app id as decimal text
    /// and the private key, each absent when it was not set.
    pub fn from_settings(app_id: Option<String>, private_key: Option<String>) -> (r: Result<
        AppState,
        String,
    >)
        ensures
            app_id is None ==> r is Err && r->Err_0@ == "GITHUB_APP_ID must be set"@,
            app_id is Some && parsed_u64(app_id->Some_0@) is None ==> r is Err && r->Err_0@
                == "GITHUB_APP_ID must be a valid u64"@,
            app_id is Some && parsed_u64(app_id->Some_0@) is Some && private_key is None ==> r is Err
                && r->Err_0@ == "GITHUB_APP_PRIVATE_KEY must be set"@,
            app_id is Some && parsed_u64(app_id->Some_0@) is Some && private_key is Some ==> r is Ok
                && r->Ok_0.github_app_id == parsed_u64(app_id->Some_0@)->Some_0
                && r->Ok_0.github_app_private_key@ == private_key->Some_0@,
    {
        let app_id = match app_id {
            Some(text) => text,
            None => return Err(String::from_str("GITHUB_APP_ID must be set")),
        };
        let github_app_id = match parse_u64(app_id.as_str()) {
            Some(id) => id,
            None => return Err(String::from_str("GITHUB_APP_ID must be a valid u64")),
        };
        match private_key {
            Some(github_app_private_key) => Ok(AppState { github_app_id, github_app_private_key }),
            None => Err(String::from_str("GITHUB_APP_PRIVATE_KEY must be set")),
        }
    }
}

} // verus!
