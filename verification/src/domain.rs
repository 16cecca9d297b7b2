//! Validated domain values: a subscriber's name and email address.
//!
//! Both parsers take an untrusted string and either return an immutable
//! value object or reject the input with a human-readable reason.

use vstd::prelude::*;
use vstd::string::*;

verus! {

/// A character a subscriber name must not contain.
pub open spec fn forbidden_char(c: char) -> bool {
    c == '/' || c == '(' || c == ')' || c == '"' || c == '<' || c == '>' || c == '\\' || c == '{'
        || c == '}'
}

/// A Unicode White_Space character — the set `char::is_whitespace`
/// recognizes. A name must trim to something, so one made only of these is
/// rejected; an email address may not contain any of them.
pub open spec fn whitespace_char(c: char) -> bool {
    ||| c == '\t' || c == '\n' || c == '\u{b}' || c == '\u{c}' || c == '\r' || c == ' '
    ||| c == '\u{85}' || c == '\u{a0}' || c == '\u{1680}'
    ||| 0x2000 <= c as u32 <= 0x200a
    ||| c == '\u{2028}' || c == '\u{2029}' || c == '\u{202f}' || c == '\u{205f}'
    ||| c == '\u{3000}'
}

/// A well-formed subscriber name: at most 256 characters, not empty or
/// all whitespace, and free of the forbidden characters.
pub open spec fn valid_subscriber_name(s: Seq<char>) -> bool {
    &&& s.len() <= 256
    &&& exists|i: int| 0 <= i < s.len() && !whitespace_char(s[i])
    &&& forall|i: int| 0 <= i < s.len() ==> !forbidden_char(s[i])
}

fn is_forbidden_char(c: char) -> (r: bool)
    ensures
        r == forbidden_char(c),
{
    c == '/' || c == '(' || c == ')' || c == '"' || c == '<' || c == '>' || c == '\\' || c == '{'
        || c == '}'
}

fn is_whitespace_char(c: char) -> (r: bool)
    ensures
        r == whitespace_char(c),
{
    c == '\t' || c == '\n' || c == '\u{b}' || c == '\u{c}' || c == '\r' || c == ' '
        || c == '\u{85}' || c == '\u{a0}' || c == '\u{1680}'
        || (0x2000 <= c as u32 && c as u32 <= 0x200a)
        || c == '\u{2028}' || c == '\u{2029}' || c == '\u{202f}' || c == '\u{205f}'
        || c == '\u{3000}'
}

/// A subscriber's name, guaranteed well formed at construction and never
/// mutated afterwards.
#[derive(Debug)]
pub struct SubscriberName(String);

impl View for SubscriberName {
    type V = Seq<char>;

    closed spec fn view(&self) -> Seq<char> {
        self.0@
    }
}

impl SubscriberName {
    /// Returns a validated name exactly when the input satisfies
    /// `valid_subscriber_name`; otherwise returns the reason for rejection.
    pub fn parse(s: String) -> (r: Result<SubscriberName, String>)
        ensures
            match r {
                Ok(name) => valid_subscriber_name(s@) && name@ == s@,
                Err(e) => !valid_subscriber_name(s@) && e@ == s@
                    + " is not a valid subscriber name."@,
            },
    {
        let len = s.as_str().unicode_len();
        let mut all_whitespace = true;
        let mut has_forbidden = false;
        let mut i: usize = 0;
        while i < len
            invariant
                len == s@.len(),
                i <= len,
                all_whitespace == (forall|j: int| 0 <= j < i ==> whitespace_char(s@[j])),
                has_forbidden == (exists|j: int| 0 <= j < i && forbidden_char(s@[j])),
            decreases len - i,
        {
            let c = s.as_str().get_char(i);
            if !is_whitespace_char(c) {
                all_whitespace = false;
            }
            if is_forbidden_char(c) {
                has_forbidden = true;
            }
            i += 1;
        }
        if len <= 256 && !all_whitespace && !has_forbidden {
            Ok(SubscriberName(s))
        } else {
            let mut message = s;
            message.append(" is not a valid subscriber name.");
            Err(message)
        }
    }

    /// The underlying string of a validated name.
    pub fn as_str(&self) -> (r: &str)
        ensures
            r@ == self@,
    {
        self.0.as_str()
    }
}

/// The mailbox shape `local@domain` with the separator at position `at`:
/// `at` is the only `@`, both parts are non-empty, no whitespace occurs
/// anywhere, and the domain contains a dot that is neither its first nor
/// the address's last character.
pub open spec fn email_parts_ok(s: Seq<char>, at: int) -> bool {
    &&& 1 <= at < s.len() - 1
    &&& forall|j: int| 0 <= j < s.len() && j != at ==> s[j] != '@'
    &&& forall|j: int| 0 <= j < s.len() ==> !whitespace_char(s[j])
    &&& exists|j: int| at < j < s.len() && s[j] == '.'
    &&& s[at + 1] != '.'
    &&& s[s.len() - 1] != '.'
}

/// A syntactically valid mailbox: some position splits it per
/// `email_parts_ok`.
pub open spec fn valid_email(s: Seq<char>) -> bool {
    exists|at: int| 0 <= at < s.len() && s[at] == '@' && email_parts_ok(s, at)
}

/// First position at or after `from` holding character `c`, if any.
fn find_char(s: &str, c: char, from: usize) -> (r: Option<usize>)
    requires
        from <= s@.len(),
    ensures
        match r {
            Some(i) => from <= i < s@.len() && s@[i as int] == c && (forall|j: int|
                from <= j < i ==> s@[j] != c),
            None => forall|j: int| from <= j < s@.len() ==> s@[j] != c,
        },
{
    let len = s.unicode_len();
    let mut i: usize = from;
    while i < len
        invariant
            from <= i <= len,
            len == s@.len(),
            forall|j: int| from <= j < i ==> s@[j] != c,
        decreases len - i,
    {
        if s.get_char(i) == c {
            return Some(i);
        }
        i += 1;
    }
    None
}

/// Whether any character of `s` is whitespace.
fn has_whitespace(s: &str) -> (r: bool)
    ensures
        r == exists|j: int| 0 <= j < s@.len() && whitespace_char(s@[j]),
{
    let len = s.unicode_len();
    let mut i: usize = 0;
    while i < len
        invariant
            i <= len,
            len == s@.len(),
            forall|j: int| 0 <= j < i ==> !whitespace_char(s@[j]),
        decreases len - i,
    {
        if is_whitespace_char(s.get_char(i)) {
            return true;
        }
        i += 1;
    }
    false
}

/// A valid address can only be split at its first `@`: `email_parts_ok`
/// tolerates no other `@`, so whatever position a witness uses is the one
/// `at` names.
proof fn lemma_split_is_first_at(s: Seq<char>, at: int)
    requires
        0 <= at < s.len(),
        s[at] == '@',
        forall|j: int| 0 <= j < at ==> s[j] != '@',
        valid_email(s),
    ensures
        email_parts_ok(s, at),
{
    let i = choose|i: int| 0 <= i < s.len() && s[i] == '@' && email_parts_ok(s, i);
    assert(i == at);
}

/// Decides `valid_email` on the string's characters.
fn email_shape_ok(s: &str) -> (r: bool)
    ensures
        r == valid_email(s@),
{
    let len = s.unicode_len();
    let at = match find_char(s, '@', 0) {
        None => {
            return false;
        },
        Some(a) => a,
    };
    // From here on, any witness splitting the address must use `at`; each
    // early exit refutes `email_parts_ok(s@, at)`, hence `valid_email`.
    if at == 0 || at >= len - 1 {
        proof {
            if valid_email(s@) {
                lemma_split_is_first_at(s@, at as int);
            }
        }
        return false;
    }
    if find_char(s, '@', at + 1).is_some() {
        proof {
            if valid_email(s@) {
                lemma_split_is_first_at(s@, at as int);
            }
        }
        return false;
    }
    if has_whitespace(s) {
        return false;
    }
    match find_char(s, '.', at + 1) {
        None => {
            proof {
                if valid_email(s@) {
                    lemma_split_is_first_at(s@, at as int);
                }
            }
            return false;
        },
        Some(_) => {},
    }
    if s.get_char(at + 1) == '.' || s.get_char(len - 1) == '.' {
        proof {
            if valid_email(s@) {
                lemma_split_is_first_at(s@, at as int);
            }
        }
        return false;
    }
    proof {
        assert(email_parts_ok(s@, at as int));
    }
    true
}

/// A subscriber's email address, guaranteed syntactically valid at
/// construction and never mutated afterwards.
#[derive(Debug)]
pub struct SubscriberEmail(String);

impl View for SubscriberEmail {
    type V = Seq<char>;

    closed spec fn view(&self) -> Seq<char> {
        self.0@
    }
}

impl SubscriberEmail {
    /// Returns a validated address exactly when the input satisfies
    /// `valid_email`; otherwise returns the reason for rejection.
    pub fn parse(s: String) -> (r: Result<SubscriberEmail, String>)
        ensures
            match r {
                Ok(email) => valid_email(s@) && email@ == s@,
                Err(e) => !valid_email(s@) && e@ == s@ + " is not a valid subscriber email."@,
            },
    {
        if email_shape_ok(s.as_str()) {
            Ok(SubscriberEmail(s))
        } else {
            let mut message = s;
            message.append(" is not a valid subscriber email.");
            Err(message)
        }
    }

    /// The underlying string of a validated address.
    pub fn as_str(&self) -> (r: &str)
        ensures
            r@ == self@,
    {
        self.0.as_str()
    }
}

/// One validated subscriber: a well-formed name together with a
/// syntactically valid email address.
#[derive(Debug)]
pub struct NewSubscriber {
    pub email: SubscriberEmail,
    pub name: SubscriberName,
}

} // verus!
