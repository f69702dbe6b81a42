use vstd::prelude::*;

use jwt_simple::prelude::{Claims, Duration, HS256Key, JWTClaims, MACLike, NoCustomClaims};

use crate::commands::login::password_authenticate_user::PasswordAuthenticateUserError;

verus! {

#[verifier::external_type_specification]
#[verifier::external_body]
pub struct ExHS256Key(HS256Key);

#[verifier::external_type_specification]
#[verifier::external_body]
pub struct ExNoCustomClaims(NoCustomClaims);

#[verifier::external_type_specification]
#[verifier::external_body]
#[verifier::reject_recursive_types(CustomClaims)]
pub struct ExJWTClaims<CustomClaims>(JWTClaims<CustomClaims>);

#[verifier::external_type_specification]
#[verifier::external_body]
pub struct ExJwtError(jwt_simple::Error);

/// How long, in seconds, a session token stays valid.
pub const SESSION_TOKEN_VALIDITY_SECS: u64 = 2600;

/// An HS256 signing key, with the length in bytes of its secret.
pub struct SessionKey {
    key: HS256Key,
    secret_len: usize,
}

impl SessionKey {
    /// The length in bytes of the key's secret.
    pub closed spec fn secret_len(self) -> nat {
        self.secret_len as nat
    }
}

/// The standard claims of a session token, with the issue time (in whole
/// seconds since the UNIX epoch) and the validity (in seconds) they hold.
pub struct SessionClaims {
    claims: JWTClaims<NoCustomClaims>,
    issued_at: u64,
    valid_for: u64,
}

impl SessionClaims {
    /// When the claims say the token was issued, in seconds since the UNIX epoch.
    pub closed spec fn issued_at(self) -> nat {
        self.issued_at as nat
    }

    /// How many seconds after its issue the claims let the token expire.
    pub closed spec fn valid_for(self) -> nat {
        self.valid_for as nat
    }
}

/// A character of the URL-safe base64 alphabet.
pub open spec fn is_base64url_char(c: char) -> bool {
    ||| 'A' <= c && c <= 'Z'
    ||| 'a' <= c && c <= 'z'
    ||| '0' <= c && c <= '9'
    ||| c == '-'
    ||| c == '_'
}

/// The URL-safe base64 digit of `n`, for `0 <= n < 64`.
pub open spec fn base64url_digit(n: int) -> char {
    if n < 26 {
        (('A' as int) + n) as char
    } else if n < 52 {
        (('a' as int) + n - 26) as char
    } else if n < 62 {
        (('0' as int) + n - 52) as char
    } else if n == 62 {
        '-'
    } else {
        '_'
    }
}

/// The URL-safe base64 text of `bytes`, without padding.
pub open spec fn base64url(bytes: Seq<u8>) -> Seq<char>
    decreases bytes.len(),
{
    let b0 = bytes[0] as int;
    let b1 = bytes[1] as int;
    let b2 = bytes[2] as int;
    if bytes.len() == 0 {
        Seq::empty()
    } else if bytes.len() == 1 {
        seq![base64url_digit(b0 / 4), base64url_digit((b0 % 4) * 16)]
    } else if bytes.len() == 2 {
        seq![
            base64url_digit(b0 / 4),
            base64url_digit((b0 % 4) * 16 + b1 / 16),
            base64url_digit((b1 % 16) * 4),
        ]
    } else {
        seq![
            base64url_digit(b0 / 4),
            base64url_digit((b0 % 4) * 16 + b1 / 16),
            base64url_digit((b1 % 16) * 4 + b2 / 64),
            base64url_digit(b2 % 64),
        ] + base64url(bytes.subrange(3, bytes.len() as int))
    }
}

/// The bytes of ASCII text.
pub open spec fn ascii_bytes(text: Seq<char>) -> Seq<u8> {
    text.map_values(|c: char| c as u8)
}

/// The decimal text of `n`, without leading zeros.
pub open spec fn decimal_text(n: nat) -> Seq<char>
    decreases n,
{
    if n < 10 {
        seq![(('0' as int) + n) as char]
    } else {
        decimal_text(n / 10) + seq![(('0' as int) + n % 10) as char]
    }
}

/// The JSON of the claims of a session token issued at `issued_at` and
/// valid for `valid_for` seconds: issue time, expiry and not-before time.
pub open spec fn session_claims_json(issued_at: nat, valid_for: nat) -> Seq<char> {
    seq!['{', '"', 'i', 'a', 't', '"', ':'] + decimal_text(issued_at) + seq![
        ',',
        '"',
        'e',
        'x',
        'p',
        '"',
        ':',
    ] + decimal_text(issued_at + valid_for) + seq![',', '"', 'n', 'b', 'f', '"', ':']
        + decimal_text(issued_at) + seq!['}']
}

/// A compact JWT made of a header segment, a claims segment and a tag segment.
pub open spec fn jwt_text(header: Seq<char>, claims: Seq<char>, tag: Seq<char>) -> Seq<char> {
    header + seq!['.'] + claims + seq!['.'] + tag
}

/// Whether the claims segment of the compact JWT `t` is the URL-safe base64
/// of `session_claims_json(issued_at, valid_for)`.
pub open spec fn carries_session_claims(t: Seq<char>, issued_at: nat, valid_for: nat) -> bool {
    exists|header: Seq<char>, tag: Seq<char>|
        #[trigger] jwt_text(
            header,
            base64url(ascii_bytes(session_claims_json(issued_at, valid_for))),
            tag,
        ) == t
}

/// How many dots `t` holds.
pub open spec fn dot_count(t: Seq<char>) -> nat
    decreases t.len(),
{
    if t.len() == 0 {
        0
    } else {
        dot_count(t.drop_last()) + if t.last() == '.' {
            1nat
        } else {
            0nat
        }
    }
}

/// The compact form of a JWT: URL-safe base64 segments joined by exactly two
/// dots, neither at the start nor at the end.
pub open spec fn is_compact_jwt(t: Seq<char>) -> bool {
    &&& t.len() > 0
    &&& t[0] != '.'
    &&& t.last() != '.'
    &&& dot_count(t) == 2
    &&& forall|k: int| 0 <= k < t.len() ==> #[trigger] t[k] == '.' || is_base64url_char(t[k])
}

/// The URL-safe base64 text of the 15 bytes `{"alg":"HS256",`.
pub open spec fn hs256_header_start() -> Seq<char> {
    seq!['e', 'y', 'J', 'h', 'b', 'G', 'c', 'i', 'O', 'i', 'J', 'I', 'U', 'z', 'I', '1', 'N', 'i', 'I', 's']
}

/// Whether the header of the compact JWT `t` is JSON that names the HS256
/// algorithm first: its first 20 characters encode `{"alg":"HS256",`.
pub open spec fn has_hs256_header(t: Seq<char>) -> bool {
    t.len() > 20 && t.subrange(0, 20) == hs256_header_start()
}

/// A session token: an HS256 JWT in compact form whose claims say it expires
/// `SESSION_TOKEN_VALIDITY_SECS` seconds after it was issued.
pub open spec fn is_session_token(t: Seq<char>) -> bool {
    &&& is_compact_jwt(t)
    &&& has_hs256_header(t)
    &&& exists|issued_at: nat| #[trigger]
        carries_session_claims(t, issued_at, SESSION_TOKEN_VALIDITY_SECS as nat)
}

/// Calls `HS256Key::generate` and reads the length of the new key's secret
/// with `HS256Key::to_bytes`. The secret is random; the contract claims only
/// its length, 32 bytes, which `HMACKey::generate` fills.
#[verifier::external_body]
fn generate_hs256_key() -> (key: SessionKey)
    ensures
        key.secret_len() == 32,
{
    let key = HS256Key::generate();
    let secret_len = key.to_bytes().len();
    SessionKey { key, secret_len }
}

/// Calls `Claims::create` with a validity of `valid_for_secs` seconds and
/// reads the issue time it set (`issued_at`, in whole seconds). The issue time
/// is the current time, so no value of it is claimed; the contract
/// claims that the claims carry the validity they were made with, as
/// `Claims::create` sets the expiry to the issue time plus `valid_for`.
/// `requires` keeps the expiry far from the overflow of the clock's `u64`.
#[verifier::external_body]
fn claims_valid_for(valid_for_secs: u64) -> (claims: SessionClaims)
    requires
        valid_for_secs <= 31_536_000,
    ensures
        claims.valid_for() == valid_for_secs,
{
    let claims = Claims::create(Duration::from_secs(valid_for_secs));
    let issued_at = claims.issued_at.unwrap_or_default().as_secs();
    SessionClaims { claims, issued_at, valid_for: valid_for_secs }
}

/// Calls `MACLike::authenticate` of `HS256Key` on the claims. It refuses only
/// keys whose secret is shorter than 12 bytes; the serialisation it does
/// cannot fail on these claims. The token is built by `Token::build` as three
/// URL-safe base64 segments (header, claims, tag) joined by dots. The header
/// is the JSON of a `JWTHeader`, whose first field is `"alg":"HS256"` and
/// which always holds more fields (at least `"typ":"JWT"`). The claims are the
/// JSON of the `JWTClaims` that `Claims::create` made: issue time, expiry and
/// not-before time, in whole seconds, in that order, with no other field. The
/// tag, which depends on the secret, is not claimed.
#[verifier::external_body]
fn authenticate_claims(key: &SessionKey, claims: SessionClaims) -> (r: Result<
    String,
    jwt_simple::Error,
>)
    ensures
        key.secret_len() >= 12 ==> r is Ok,
        r matches Ok(t) ==> {
            &&& is_compact_jwt(t@)
            &&& has_hs256_header(t@)
            &&& carries_session_claims(t@, claims.issued_at(), claims.valid_for())
        },
{
    key.key.authenticate(claims.claims)
}

/// Issues a session token signed with a fresh key, valid for
/// `SESSION_TOKEN_VALIDITY_SECS` seconds from its issue.
pub fn issue_session_token() -> (r: Result<String, PasswordAuthenticateUserError>)
    ensures
        r matches Ok(token) && is_session_token(token@),
{
    let key = generate_hs256_key();
    let claims = claims_valid_for(SESSION_TOKEN_VALIDITY_SECS);
    let ghost issued_at = claims.issued_at();
    let signed = authenticate_claims(&key, claims);
    assert(carries_session_claims(signed->Ok_0@, issued_at, SESSION_TOKEN_VALIDITY_SECS as nat));
    signed_session_token(signed)
}

/// The result of a login whose token signing answered `signed`: the token
/// itself when it was signed, an `UnknownError` when signing failed.
pub fn signed_session_token(signed: Result<String, jwt_simple::Error>) -> (r: Result<
    String,
    PasswordAuthenticateUserError,
>)
    ensures
        match signed {
            Ok(token) => r matches Ok(t) && t@ == token@,
            Err(_) => r == Err::<String, PasswordAuthenticateUserError>(
                PasswordAuthenticateUserError::UnknownError,
            ),
        },
{
    match signed {
        Ok(token) => Ok(token),
        Err(_) => Err(PasswordAuthenticateUserError::UnknownError),
    }
}

} // verus!
