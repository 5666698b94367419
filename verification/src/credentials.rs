//! Passwords and access tokens.
//!
//! An account stores the SHA-256 digest of its password, written as
//! lower-case hexadecimal digits. A login is answered with claims that expire
//! a week later.

use vstd::prelude::*;
use vstd::string::StringSliceAdditionalSpecFns;
use vstd::utf8::encode_utf8;
use crate::handlers::Rejection;
use crate::model::{User, UserView};
use crate::persistence::PersistenceError;

verus! {

/// The SHA-256 digest of `data`.
pub uninterp spec fn sha256(data: Seq<u8>) -> Seq<u8>;

/// The hexadecimal digit for a value below sixteen, in lower case.
pub open spec fn hex_digit(value: int) -> char {
    seq!['0', '1', '2', '3', '4', '5', '6', '7', '8', '9', 'a', 'b', 'c', 'd', 'e', 'f'][value]
}

/// `data` in hexadecimal: two lower-case digits for every byte, the high half
/// of the byte first.
pub open spec fn hex_lower(data: Seq<u8>) -> Seq<char> {
    Seq::new(
        2 * data.len(),
        |i: int|
            if i % 2 == 0 {
                hex_digit(data[i / 2] as int / 16)
            } else {
                hex_digit(data[i / 2] as int % 16)
            },
    )
}

/// Calls `hmac_sha256::Hash::hash`, which returns the SHA-256 digest of its
/// input as an array of 32 bytes. The hasher counts the bits of its input in
/// a `usize`, so inputs whose length in bits does not fit are left out.
#[verifier::external_body]
fn digest(data: &[u8]) -> (r: Vec<u8>)
    requires
        data@.len() * 8 <= usize::MAX,
    ensures
        r@ == sha256(data@),
        r@.len() == 32,
{
    hmac_sha256::Hash::hash(data).to_vec()
}

/// Calls `hex::encode`, which writes every byte as two lower-case
/// hexadecimal digits.
#[verifier::external_body]
fn hex_encode(data: &[u8]) -> (r: String)
    ensures
        r@ == hex_lower(data@),
{
    hex::encode(data)
}

/// The text with every match of `pattern` replaced by `with`. The matches
/// are found from left to right, and none begins before the one before it has
/// ended. Meant for a pattern that is not empty; with an empty one the text
/// is left as it is.
pub open spec fn replaced(text: Seq<char>, pattern: Seq<char>, with: Seq<char>) -> Seq<char>
    decreases text.len(),
{
    if pattern.len() == 0 || text.len() < pattern.len() {
        text
    } else if text.take(pattern.len() as int) == pattern {
        with + replaced(text.skip(pattern.len() as int), pattern, with)
    } else {
        seq![text[0]] + replaced(text.skip(1), pattern, with)
    }
}

/// Whether `pattern` occurs somewhere in `text`.
pub open spec fn has_match(text: Seq<char>, pattern: Seq<char>) -> bool {
    exists|i: int|
        0 <= i && i + pattern.len() <= text.len() && #[trigger] text.subrange(
            i,
            i + pattern.len(),
        ) == pattern
}

/// Calls `str::replace`, which replaces all matches of a pattern with another
/// string. The matches of a pattern are disjoint and taken from the left.
/// The empty pattern, which matches between all characters, is left out.
#[verifier::external_body]
fn replace_all(text: &str, pattern: &str, with: &str) -> (r: String)
    requires
        pattern@.len() > 0,
    ensures
        r@ == replaced(text@, pattern@, with@),
{
    text.replace(pattern, with)
}

/// Whether a password is short enough to be hashed: its length in bits must
/// fit a `usize`.
pub open spec fn hashable(password: Seq<char>) -> bool {
    encode_utf8(password).len() * 8 <= usize::MAX
}

/// What an account stores for a password: the SHA-256 digest of its UTF-8
/// bytes in lower-case hexadecimal.
pub open spec fn password_hash_of(password: Seq<char>) -> Seq<char> {
    hex_lower(sha256(encode_utf8(password)))
}

/// The hash to store for `password`; `None` for a password too long to hash.
pub fn hash_password(password: &str) -> (r: Option<String>)
    ensures
        r is Some <==> hashable(password@),
        r matches Some(hash) ==> hash@ == password_hash_of(password@) && hash@.len() == 64,
{
    let bytes = password.as_bytes();
    if bytes.len() > usize::MAX / 8 {
        None
    } else {
        let hash = digest(bytes);
        Some(hex_encode(hash.as_slice()))
    }
}

/// Whether `password` is the password whose hash is `stored`.
pub fn password_matches(stored: &String, password: &str) -> (r: bool)
    ensures
        r == (hashable(password@) && stored@ == password_hash_of(password@)),
{
    match hash_password(password) {
        Some(hash) => hash == *stored,
        None => false,
    }
}

/// An account as the store keeps it: the user and the hash of the password.
#[derive(Debug, PartialEq, Eq)]
pub struct Account {
    pub user: User,
    pub password: String,
}

/// What an [`Account`] stands for in contracts.
pub struct AccountView {
    pub user: UserView,
    pub password: Seq<char>,
}

impl View for Account {
    type V = AccountView;

    open spec fn view(&self) -> AccountView {
        AccountView { user: self.user@, password: self.password@ }
    }
}

/// The view of what the store answered about an account.
pub open spec fn account_lookup_view(lookup: Result<Account, PersistenceError>) -> Result<
    AccountView,
    PersistenceError,
> {
    match lookup {
        Ok(a) => Ok(a@),
        Err(e) => Err(e),
    }
}

/// Whether a login succeeds, as a function of what the store answered about
/// the account and of the password given.
pub open spec fn login_of(account: Result<AccountView, PersistenceError>, password: Seq<char>) -> Result<
    (),
    Rejection,
> {
    match account {
        Err(_) => Err(Rejection::AccountNotFound),
        Ok(a) => if hashable(password) && a.password == password_hash_of(password) {
            Ok(())
        } else {
            Err(Rejection::IncorrectPassword)
        },
    }
}

/// Decides a login: the account must be in the store, and the password must
/// be the one whose hash the account stores.
pub fn login_check(account: &Result<Account, PersistenceError>, password: &str) -> (r: Result<
    (),
    Rejection,
>)
    ensures
        r == login_of(account_lookup_view(*account), password@),
{
    match account {
        Err(_) => Err(Rejection::AccountNotFound),
        Ok(a) => if password_matches(&a.password, password) {
            Ok(())
        } else {
            Err(Rejection::IncorrectPassword)
        },
    }
}

/// The view of what the store answered about a user.
pub open spec fn user_lookup_view(lookup: Result<User, PersistenceError>) -> Result<
    UserView,
    PersistenceError,
> {
    match lookup {
        Ok(u) => Ok(u@),
        Err(e) => Err(e),
    }
}

/// Who a request is admitted as, as a function of whether its credential is
/// valid and of what the store answered about the user the credential names.
pub open spec fn admission_of(credential_valid: bool, user: Result<UserView, PersistenceError>) -> Result<
    UserView,
    Rejection,
> {
    if !credential_valid {
        Err(Rejection::Unauthorized)
    } else {
        match user {
            Ok(u) => Ok(u),
            Err(_) => Err(Rejection::UserNotFound),
        }
    }
}

/// The view of an admission.
pub open spec fn admission_view(admission: Result<User, Rejection>) -> Result<UserView, Rejection> {
    match admission {
        Ok(u) => Ok(u@),
        Err(r) => Err(r),
    }
}

/// Decides whether a request is admitted, before anything is done for it: a
/// request without a valid credential is refused, then one whose credential
/// names a user that is not in the store. An admitted request is the user's.
pub fn admission(credential_valid: bool, user: Result<User, PersistenceError>) -> (r: Result<
    User,
    Rejection,
>)
    ensures
        admission_view(r) == admission_of(credential_valid, user_lookup_view(user)),
{
    if !credential_valid {
        Err(Rejection::Unauthorized)
    } else {
        match user {
            Ok(u) => Ok(u),
            Err(_) => Err(Rejection::UserNotFound),
        }
    }
}

/// What stands before the credential in an `Authorization` header.
pub open spec fn bearer_prefix() -> Seq<char> {
    "Bearer "@
}

/// The credential in an `Authorization` header: the header with every
/// `Bearer ` taken out. A request without the header has no credential: the
/// empty one.
pub open spec fn bearer_token_of(header: Option<Seq<char>>) -> Seq<char> {
    match header {
        Some(h) => replaced(h, bearer_prefix(), Seq::empty()),
        None => Seq::empty(),
    }
}

/// The credential in an `Authorization` header.
pub fn bearer_token(header: Option<&str>) -> (r: String)
    ensures
        r@ == bearer_token_of(
            match header {
                Some(h) => Some(h@),
                None => None,
            },
        ),
{
    match header {
        Some(h) => {
            proof {
                reveal_strlit("Bearer ");
                reveal_strlit("");
                assert(""@ =~= Seq::<char>::empty());
            }
            replace_all(h, "Bearer ", "")
        },
        None => String::new(),
    }
}

/// A text in which the pattern does not occur is left as it is.
pub proof fn lemma_replaced_without_match(text: Seq<char>, pattern: Seq<char>, with: Seq<char>)
    requires
        !has_match(text, pattern),
    ensures
        replaced(text, pattern, with) == text,
    decreases text.len(),
{
    let n = pattern.len() as int;
    if n > 0 && text.len() >= n {
        assert(text.take(n) == text.subrange(0, 0 + n));
        let rest = text.skip(1);
        assert forall|i: int| 0 <= i && i + n <= rest.len() implies #[trigger] rest.subrange(
            i,
            i + n,
        ) != pattern by {
            assert(rest.subrange(i, i + n) =~= text.subrange(i + 1, i + 1 + n));
        }
        lemma_replaced_without_match(rest, pattern, with);
        assert(seq![text[0]] + rest =~= text);
    }
}

/// A header made of `Bearer ` and a credential in which `Bearer ` does not
/// occur has that credential, and so has the bare credential.
pub proof fn lemma_bearer_token(token: Seq<char>)
    requires
        !has_match(token, bearer_prefix()),
    ensures
        bearer_token_of(Some(bearer_prefix() + token)) == token,
        bearer_token_of(Some(token)) == token,
{
    reveal_strlit("Bearer ");
    let prefix = bearer_prefix();
    let header = prefix + token;
    lemma_replaced_without_match(token, prefix, Seq::empty());
    assert(header.take(prefix.len() as int) =~= prefix);
    assert(header.skip(prefix.len() as int) =~= token);
    assert(Seq::<char>::empty() + token =~= token);
}

/// How long an access token is valid, in seconds: seven days.
pub const TOKEN_LIFETIME: i64 = 604800;

/// What an access token says about its bearer.
#[derive(Debug, PartialEq, Eq)]
pub struct Claims {
    pub username: String,
    pub id: String,
    /// When the token expires, in seconds since the Unix epoch.
    pub exp: usize,
}

/// What [`Claims`] stand for in contracts.
pub struct ClaimsView {
    pub username: Seq<char>,
    pub id: Seq<char>,
    pub exp: int,
}

impl View for Claims {
    type V = ClaimsView;

    open spec fn view(&self) -> ClaimsView {
        ClaimsView { username: self.username@, id: self.id@, exp: self.exp as int }
    }
}

impl Clone for Claims {
    fn clone(&self) -> (r: Self)
        ensures
            r@ == self@,
    {
        Claims { username: self.username.clone(), id: self.id.clone(), exp: self.exp }
    }
}

/// The claims of a token issued to `user` at the time `now`, in seconds since
/// the Unix epoch.
pub open spec fn claims_of(user: UserView, now: int) -> ClaimsView {
    ClaimsView { username: user.username, id: user.id, exp: now + TOKEN_LIFETIME }
}

impl Claims {
    /// The claims of a token issued to `user` at the time `now`: they name the
    /// user and expire a week later. `None` when the time of expiry cannot be
    /// held: before the epoch, or beyond what a `usize` can count.
    pub fn issue(user: &User, now: i64) -> (r: Option<Claims>)
        ensures
            r is Some <==> 0 <= now + TOKEN_LIFETIME <= usize::MAX,
            r matches Some(claims) ==> claims@ == claims_of(user@, now as int),
    {
        let expiry: i128 = now as i128 + TOKEN_LIFETIME as i128;
        if expiry < 0 || expiry > usize::MAX as i128 {
            None
        } else {
            Some(Claims { username: user.username.clone(), id: user.id.clone(), exp: expiry as usize })
        }
    }
}

} // verus!
