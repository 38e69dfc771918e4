//! The e-mail address value object.
use vstd::prelude::*;

use crate::errors::{is_format_error, CategoryError, TypeError, UserDomainError};
use crate::text::{
    ascii_alnum, ascii_alpha, ascii_lowercase, chars_of, is_ascii_alnum, is_ascii_alpha,
    lemma_lower_idempotent, lemma_split_ends, lemma_split_on_nonempty, lemma_split_without_sep, lemma_trim_end_shape,
    lemma_trim_fixed, lemma_trim_start_shape, lower_seq, split_chars, split_on, trim_end,
    trim_start, trim_text, trimmed,
};

verus! {

pub const MIN_EMAIL_LEN: usize = 6;

pub const MAX_EMAIL_LEN: usize = 254;

pub open spec fn is_local_char(c: char) -> bool {
    is_ascii_alnum(c) || c == '.' || c == '_' || c == '-'
}

/// The part before `@`: 1 to 65 characters that start and end alphanumeric,
/// with `.`, `_` or `-` allowed between.
pub open spec fn valid_local_part(s: Seq<char>) -> bool {
    &&& 1 <= s.len() <= 65
    &&& is_ascii_alnum(s[0])
    &&& is_ascii_alnum(s.last())
    &&& forall|i: int| 0 <= i < s.len() ==> is_local_char(#[trigger] s[i])
}

/// A domain label: 1 to 63 alphanumerics or hyphens, alphanumeric at both ends.
pub open spec fn valid_label(s: Seq<char>) -> bool {
    &&& 1 <= s.len() <= 63
    &&& is_ascii_alnum(s[0])
    &&& is_ascii_alnum(s.last())
    &&& forall|i: int| 0 <= i < s.len() ==> is_ascii_alnum(#[trigger] s[i]) || s[i] == '-'
}

/// A top-level domain: 2 to 24 ASCII letters.
pub open spec fn valid_tld(s: Seq<char>) -> bool {
    &&& 2 <= s.len() <= 24
    &&& forall|i: int| 0 <= i < s.len() ==> is_ascii_alpha(#[trigger] s[i])
}

/// Every piece but the last is a domain label.
pub open spec fn leading_labels(parts: Seq<Seq<char>>) -> bool {
    forall|i: int| 0 <= i < parts.len() - 1 ==> valid_label(#[trigger] parts[i])
}

/// One or more labels, then the top-level domain, separated by dots.
pub open spec fn valid_domain(s: Seq<char>) -> bool {
    &&& split_on(s, '.').len() >= 2
    &&& leading_labels(split_on(s, '.'))
    &&& valid_tld(split_on(s, '.').last())
}

/// `local@domain.tld`, with exactly one `@`.
pub open spec fn email_format(s: Seq<char>) -> bool {
    let parts = split_on(s, '@');
    &&& parts.len() == 2
    &&& valid_local_part(parts[0])
    &&& valid_domain(parts[1])
}

/// The normal form of a raw address: trimmed and in ASCII lower case.
pub open spec fn email_canonical(raw: Seq<char>) -> Seq<char> {
    lower_seq(trimmed(raw))
}

/// Whether [`Email::new`] accepts `raw`.
pub open spec fn email_accepts(raw: Seq<char>) -> bool {
    let c = email_canonical(raw);
    &&& MIN_EMAIL_LEN <= c.len() <= MAX_EMAIL_LEN
    &&& email_format(c)
}

/// The error that [`Email::new`] gives for a rejected `raw`.
pub open spec fn email_error(raw: Seq<char>, e: UserDomainError) -> bool {
    let c = email_canonical(raw);
    &&& e.category == CategoryError::Email
    &&& if c.len() == 0 {
        e.detail == TypeError::Empty
    } else if c.len() < MIN_EMAIL_LEN {
        e.detail == (TypeError::TooShort { short: MIN_EMAIL_LEN as u16 })
    } else if c.len() > MAX_EMAIL_LEN {
        e.detail == (TypeError::TooLong { long: MAX_EMAIL_LEN as u32 })
    } else {
        e.detail is Format && e.detail->format@ == "EMAIL_REGEX"@
    }
}

fn local_char(c: char) -> (r: bool)
    ensures
        r == is_local_char(c),
{
    ascii_alnum(c) || c == '.' || c == '_' || c == '-'
}

fn check_local_part(s: &Vec<char>) -> (r: bool)
    ensures
        r == valid_local_part(s@),
{
    let n = s.len();
    if n < 1 || n > 65 || !ascii_alnum(s[0]) || !ascii_alnum(s[n - 1]) {
        return false;
    }
    let mut i: usize = 0;
    while i < n
        invariant
            n == s.len(),
            i <= n,
            forall|j: int| 0 <= j < i ==> is_local_char(#[trigger] s@[j]),
        decreases n - i,
    {
        if !local_char(s[i]) {
            return false;
        }
        i = i + 1;
    }
    true
}

fn check_label(s: &Vec<char>) -> (r: bool)
    ensures
        r == valid_label(s@),
{
    let n = s.len();
    if n < 1 || n > 63 || !ascii_alnum(s[0]) || !ascii_alnum(s[n - 1]) {
        return false;
    }
    let mut i: usize = 0;
    while i < n
        invariant
            n == s.len(),
            i <= n,
            forall|j: int| 0 <= j < i ==> is_ascii_alnum(#[trigger] s@[j]) || s@[j] == '-',
        decreases n - i,
    {
        if !ascii_alnum(s[i]) && s[i] != '-' {
            return false;
        }
        i = i + 1;
    }
    true
}

fn check_tld(s: &Vec<char>) -> (r: bool)
    ensures
        r == valid_tld(s@),
{
    let n = s.len();
    if n < 2 || n > 24 {
        return false;
    }
    let mut i: usize = 0;
    while i < n
        invariant
            n == s.len(),
            i <= n,
            forall|j: int| 0 <= j < i ==> is_ascii_alpha(#[trigger] s@[j]),
        decreases n - i,
    {
        if !ascii_alpha(s[i]) {
            return false;
        }
        i = i + 1;
    }
    true
}

fn check_domain(s: &Vec<char>) -> (r: bool)
    ensures
        r == valid_domain(s@),
{
    let parts = split_chars(s, '.');
    let ghost sp = split_on(s@, '.');
    let n = parts.len();
    if n < 2 {
        return false;
    }
    let mut i: usize = 0;
    while i < n - 1
        invariant
            n == parts@.len(),
            sp == split_on(s@, '.'),
            n == sp.len(),
            n >= 2,
            i <= n - 1,
            forall|k: int| 0 <= k < n ==> #[trigger] parts@[k]@ == sp[k],
            forall|k: int| 0 <= k < i ==> valid_label(#[trigger] sp[k]),
        decreases n - 1 - i,
    {
        if !check_label(&parts[i]) {
            assert(!valid_label(sp[i as int]));
            assert(!leading_labels(sp));
            return false;
        }
        i = i + 1;
    }
    assert(parts@[n - 1]@ == sp.last());
    check_tld(&parts[n - 1])
}

/// Whether `s` has the shape `local@domain.tld`.
pub fn check_email_format(s: &Vec<char>) -> (r: bool)
    ensures
        r == email_format(s@),
{
    let parts = split_chars(s, '@');
    if parts.len() != 2 {
        return false;
    }
    check_local_part(&parts[0]) && check_domain(&parts[1])
}

/// A syntactically valid e-mail address in normal form.
#[derive(Debug, Clone, Eq, Hash)]
pub struct Email(String);

impl View for Email {
    type V = Seq<char>;

    closed spec fn view(&self) -> Seq<char> {
        self.0@
    }
}

impl PartialEq for Email {
    fn eq(&self, other: &Email) -> (r: bool)
        ensures
            r == (self@ == other@),
    {
        self.0 == other.0
    }
}

impl vstd::std_specs::cmp::PartialEqSpecImpl for Email {
    open spec fn obeys_eq_spec() -> bool {
        true
    }

    open spec fn eq_spec(&self, other: &Email) -> bool {
        self@ == other@
    }
}

impl Email {
    /// Trims, lower-cases ASCII letters, then checks the length (6 to 254)
    /// and the shape `local@domain.tld`.
    pub fn new(value: &str) -> (r: Result<Email, UserDomainError>)
        ensures
            match r {
                Ok(e) => email_accepts(value@) && e@ == email_canonical(value@),
                Err(e) => !email_accepts(value@) && email_error(value@, e),
            },
    {
        let t = trim_text(value);
        let lowered = ascii_lowercase(t);
        let cs = chars_of(lowered.as_str());
        let n = cs.len();
        if n == 0 {
            return Err(UserDomainError::new(CategoryError::Email, TypeError::Empty));
        }
        if n < MIN_EMAIL_LEN {
            return Err(
                UserDomainError::new(
                    CategoryError::Email,
                    TypeError::TooShort { short: MIN_EMAIL_LEN as u16 },
                ),
            );
        }
        if n > MAX_EMAIL_LEN {
            return Err(
                UserDomainError::new(
                    CategoryError::Email,
                    TypeError::TooLong { long: MAX_EMAIL_LEN as u32 },
                ),
            );
        }
        if !check_email_format(&cs) {
            return Err(UserDomainError::format(CategoryError::Email, "EMAIL_REGEX"));
        }
        Ok(Email(lowered))
    }

    /// Same as [`Email::new`].
    pub fn try_from(value: &str) -> (r: Result<Email, UserDomainError>)
        ensures
            match r {
                Ok(e) => email_accepts(value@) && e@ == email_canonical(value@),
                Err(e) => !email_accepts(value@) && email_error(value@, e),
            },
    {
        Email::new(value)
    }

    pub fn as_str(&self) -> (r: &str)
        ensures
            r@ == self@,
    {
        self.0.as_str()
    }

    /// The address as an owned string.
    pub fn to_string(&self) -> (r: String)
        ensures
            r@ == self@,
    {
        self.0.clone()
    }

    /// A copy of this address.
    pub fn duplicate(&self) -> (r: Email)
        ensures
            r == *self,
    {
        Email(self.0.clone())
    }
}

/// An accepted address is already in normal form, so building an `Email`
/// from its own text succeeds and gives the same address.
pub proof fn lemma_email_idempotent(raw: Seq<char>)
    requires
        email_accepts(raw),
    ensures
        email_accepts(email_canonical(raw)),
        email_canonical(email_canonical(raw)) == email_canonical(raw),
{
    let c = email_canonical(raw);
    let t = trimmed(raw);
    lemma_trim_start_shape(raw);
    lemma_trim_end_shape(trim_start(raw));
    // The normal form starts and ends with characters that are no white space.
    lemma_split_on_nonempty(c, '@');
    lemma_email_ends(c);
    lemma_trim_fixed(c);
    lemma_lower_idempotent(t);
}

/// A well-formed address starts and ends with an ASCII letter or digit.
pub proof fn lemma_email_ends(s: Seq<char>)
    requires
        email_format(s),
    ensures
        s.len() > 0,
        is_ascii_alnum(s[0]),
        is_ascii_alnum(s.last()),
{
    let p = split_on(s, '@');
    lemma_split_ends(s, '@');
    let d = p[1];
    lemma_split_ends(d, '.');
    let q = split_on(d, '.');
    let t = q.last();
    assert(t[t.len() - 1] == d[d.len() - t.len() + t.len() - 1]);
    assert(p.last() == d);
    assert(d[d.len() - 1] == s[s.len() - d.len() + d.len() - 1]);
    assert(is_ascii_alpha(t[t.len() - 1]));
}

/// Blank input fails as `Empty`, input over 254 characters as `TooLong`; an
/// address of acceptable length without `@`, or whose domain is malformed,
/// fails as a `Format` error.
pub proof fn lemma_email_rejections(raw: Seq<char>)
    ensures
        trimmed(raw).len() == 0 ==> !email_accepts(raw) && forall|e: UserDomainError|
            email_error(raw, e) ==> e == (UserDomainError {
                category: CategoryError::Email,
                detail: TypeError::Empty,
            }),
        email_canonical(raw).len() > MAX_EMAIL_LEN ==> !email_accepts(raw) && forall|
            e: UserDomainError,
        |
            email_error(raw, e) ==> e == (UserDomainError {
                category: CategoryError::Email,
                detail: TypeError::TooLong { long: MAX_EMAIL_LEN as u32 },
            }),
        MIN_EMAIL_LEN <= email_canonical(raw).len() <= MAX_EMAIL_LEN && !email_canonical(
            raw,
        ).contains('@') ==> !email_accepts(raw) && forall|e: UserDomainError|
            email_error(raw, e) ==> is_format_error(e, CategoryError::Email, "EMAIL_REGEX"@),
        MIN_EMAIL_LEN <= email_canonical(raw).len() <= MAX_EMAIL_LEN && split_on(
            email_canonical(raw),
            '@',
        ).len() == 2 && !valid_domain(split_on(email_canonical(raw), '@')[1]) ==> !email_accepts(
            raw,
        ) && forall|e: UserDomainError|
            email_error(raw, e) ==> is_format_error(e, CategoryError::Email, "EMAIL_REGEX"@),
{
    let c = email_canonical(raw);
    if !c.contains('@') {
        lemma_split_without_sep(c, '@');
    }
}

} // verus!
