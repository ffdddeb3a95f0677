use vstd::prelude::*;

verus! {

/// The byte that separates the user name from the password in a cookie file.
pub const COOKIE_SEPARATOR: u8 = 58;

/// Index of the first separator byte in `s`, if there is one.
pub open spec fn first_separator(s: Seq<u8>) -> Option<int>
    decreases s.len(),
{
    if s.len() == 0 {
        None
    } else if s[0] == COOKIE_SEPARATOR {
        Some(0)
    } else {
        match first_separator(s.drop_first()) {
            Some(i) => Some(i + 1),
            None => None,
        }
    }
}

/// The credential pair that a cookie holds: everything before the first
/// separator, and everything after it.
pub open spec fn cookie_parts(s: Seq<u8>) -> Option<(Seq<u8>, Seq<u8>)> {
    match first_separator(s) {
        Some(i) => Some((s.subrange(0, i), s.subrange(i + 1, s.len() as int))),
        None => None,
    }
}

/// Why a cookie could not be read.
#[derive(Debug, Clone, Copy, PartialEq, Eq, Structural)]
pub enum CookieError {
    MissingSeparator,
}

/// `first_separator` is the least index that holds a separator.
pub proof fn lemma_first_separator(s: Seq<u8>)
    ensures
        match first_separator(s) {
            Some(i) => 0 <= i < s.len() && s[i] == COOKIE_SEPARATOR && forall|j: int|
                0 <= j < i ==> s[j] != COOKIE_SEPARATOR,
            None => forall|j: int| 0 <= j < s.len() ==> s[j] != COOKIE_SEPARATOR,
        },
    decreases s.len(),
{
    if s.len() > 0 && s[0] != COOKIE_SEPARATOR {
        lemma_first_separator(s.drop_first());
        assert forall|j: int| 1 <= j < s.len() implies s[j] == s.drop_first()[j - 1] by {}
    }
}

/// Splits the contents of a cookie file on its first separator into a user
/// name and a password.
pub fn parse_cookie(contents: &[u8]) -> (r: Result<(Vec<u8>, Vec<u8>), CookieError>)
    ensures
        match cookie_parts(contents@) {
            Some(parts) => r is Ok && r->Ok_0.0@ == parts.0 && r->Ok_0.1@ == parts.1,
            None => r == Err::<(Vec<u8>, Vec<u8>), CookieError>(CookieError::MissingSeparator),
        },
{
    proof {
        lemma_first_separator(contents@);
    }
    let n = contents.len();
    let mut i: usize = 0;
    let mut user: Vec<u8> = Vec::new();
    while i < n
        invariant
            n == contents@.len(),
            i <= n,
            forall|j: int| 0 <= j < i ==> contents@[j] != COOKIE_SEPARATOR,
            user@ == contents@.subrange(0, i as int),
        ensures
            i <= n,
            forall|j: int| 0 <= j < i ==> contents@[j] != COOKIE_SEPARATOR,
            user@ == contents@.subrange(0, i as int),
            i < n ==> contents@[i as int] == COOKIE_SEPARATOR,
        decreases n - i,
    {
        if contents[i] == COOKIE_SEPARATOR {
            break;
        }
        user.push(contents[i]);
        i = i + 1;
    }
    if i == n {
        return Err(CookieError::MissingSeparator);
    }
    assert(contents@[i as int] == COOKIE_SEPARATOR);
    assert(first_separator(contents@) == Some(i as int));
    let mut password: Vec<u8> = Vec::new();
    let mut k: usize = i + 1;
    while k < n
        invariant
            n == contents@.len(),
            i < k <= n,
            password@ == contents@.subrange(i + 1, k as int),
        decreases n - k,
    {
        password.push(contents[k]);
        k = k + 1;
    }
    Ok((user, password))
}

/// A cookie `user:pass` whose user name holds no separator reads back as
/// exactly that user name and that password, whatever the password holds
/// (further separators included); a cookie without any separator is refused.
pub proof fn lemma_cookie_round_trip(user: Seq<u8>, pass: Seq<u8>)
    requires
        forall|j: int| 0 <= j < user.len() ==> user[j] != COOKIE_SEPARATOR,
    ensures
        cookie_parts(user + seq![COOKIE_SEPARATOR] + pass) == Some((user, pass)),
{
    let s = user + seq![COOKIE_SEPARATOR] + pass;
    lemma_first_separator(s);
    assert(s[user.len() as int] == COOKIE_SEPARATOR);
    let i = first_separator(s)->Some_0;
    assert(forall|j: int| 0 <= j < user.len() ==> s[j] == user[j]);
    assert(i == user.len());
    assert(s.subrange(0, i) =~= user);
    assert(s.subrange(i + 1, s.len() as int) =~= pass);
}

/// Contents without any separator are refused.
pub proof fn lemma_cookie_without_separator(s: Seq<u8>)
    requires
        forall|j: int| 0 <= j < s.len() ==> s[j] != COOKIE_SEPARATOR,
    ensures
        cookie_parts(s) is None,
{
    lemma_first_separator(s);
}

/// Only the first separator splits: `u:p:extra` gives `u` and `p:extra`.
pub proof fn lemma_cookie_splits_on_first(user: Seq<u8>, rest: Seq<u8>)
    requires
        forall|j: int| 0 <= j < user.len() ==> user[j] != COOKIE_SEPARATOR,
        exists|j: int| 0 <= j < rest.len() && rest[j] == COOKIE_SEPARATOR,
    ensures
        cookie_parts(user + seq![COOKIE_SEPARATOR] + rest) == Some((user, rest)),
{
    lemma_cookie_round_trip(user, rest);
}

} // verus!
