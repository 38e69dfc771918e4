//! Character-level helpers shared by the value objects: trimming, ASCII case
//! folding, character classes and splitting.
use vstd::prelude::*;

verus! {

/// The characters of Unicode's `White_Space` property.
pub open spec fn is_white_space(c: char) -> bool {
    ('\u{9}' <= c && c <= '\u{d}') || c == ' ' || c == '\u{85}' || c == '\u{a0}'
        || c == '\u{1680}' || ('\u{2000}' <= c && c <= '\u{200a}') || c == '\u{2028}'
        || c == '\u{2029}' || c == '\u{202f}' || c == '\u{205f}' || c == '\u{3000}'
}

pub open spec fn is_ascii_digit(c: char) -> bool {
    '0' <= c && c <= '9'
}

pub open spec fn is_ascii_lower(c: char) -> bool {
    'a' <= c && c <= 'z'
}

pub open spec fn is_ascii_upper(c: char) -> bool {
    'A' <= c && c <= 'Z'
}

pub open spec fn is_ascii_alpha(c: char) -> bool {
    is_ascii_lower(c) || is_ascii_upper(c)
}

pub open spec fn is_ascii_alnum(c: char) -> bool {
    is_ascii_alpha(c) || is_ascii_digit(c)
}

/// Unicode's general category `Cc`.
pub open spec fn is_control(c: char) -> bool {
    c <= '\u{1f}' || ('\u{7f}' <= c && c <= '\u{9f}')
}

pub open spec fn ascii_lower(c: char) -> char {
    if is_ascii_upper(c) {
        ((c as u8) + 32) as u8 as char
    } else {
        c
    }
}

pub open spec fn ascii_upper(c: char) -> char {
    if is_ascii_lower(c) {
        ((c as u8) - 32) as u8 as char
    } else {
        c
    }
}

/// Every ASCII capital replaced by its small letter; nothing else changes.
pub open spec fn lower_seq(s: Seq<char>) -> Seq<char> {
    Seq::new(s.len(), |i: int| ascii_lower(s[i]))
}

pub open spec fn trim_start(s: Seq<char>) -> Seq<char>
    decreases s.len(),
{
    if s.len() > 0 && is_white_space(s[0]) {
        trim_start(s.drop_first())
    } else {
        s
    }
}

pub open spec fn trim_end(s: Seq<char>) -> Seq<char>
    decreases s.len(),
{
    if s.len() > 0 && is_white_space(s.last()) {
        trim_end(s.drop_last())
    } else {
        s
    }
}

/// `s` without its leading and trailing white space.
pub open spec fn trimmed(s: Seq<char>) -> Seq<char> {
    trim_end(trim_start(s))
}

/// `s` with every white-space character removed.
pub open spec fn strip_white(s: Seq<char>) -> Seq<char>
    decreases s.len(),
{
    if s.len() == 0 {
        s
    } else if is_white_space(s.last()) {
        strip_white(s.drop_last())
    } else {
        strip_white(s.drop_last()).push(s.last())
    }
}

/// The pieces of `s` between occurrences of `sep`; there is always at least one.
pub open spec fn split_on(s: Seq<char>, sep: char) -> Seq<Seq<char>>
    decreases s.len(),
{
    if s.len() == 0 {
        seq![Seq::<char>::empty()]
    } else {
        let prev = split_on(s.drop_last(), sep);
        if s.last() == sep {
            prev.push(Seq::<char>::empty())
        } else {
            prev.update(prev.len() - 1, prev.last().push(s.last()))
        }
    }
}

pub proof fn lemma_split_on_nonempty(s: Seq<char>, sep: char)
    ensures
        split_on(s, sep).len() >= 1,
    decreases s.len(),
{
    if s.len() > 0 {
        lemma_split_on_nonempty(s.drop_last(), sep);
    }
}

/// The first piece is a prefix of `s`, the last a suffix, and a single piece is `s` itself.
pub proof fn lemma_split_ends(s: Seq<char>, sep: char)
    ensures
        split_on(s, sep).len() >= 1,
        split_on(s, sep).len() == 1 ==> split_on(s, sep)[0] == s,
        split_on(s, sep)[0].len() <= s.len(),
        forall|i: int|
            0 <= i < split_on(s, sep)[0].len() ==> #[trigger] split_on(s, sep)[0][i] == s[i],
        split_on(s, sep).last().len() <= s.len(),
        forall|i: int|
            0 <= i < split_on(s, sep).last().len() ==> #[trigger] split_on(s, sep).last()[i]
                == s[s.len() - split_on(s, sep).last().len() + i],
    decreases s.len(),
{
    if s.len() > 0 {
        let prev = split_on(s.drop_last(), sep);
        lemma_split_ends(s.drop_last(), sep);
        let p = split_on(s, sep);
        if s.last() != sep {
            if prev.len() == 1 {
                assert(p[0] =~= s);
            }
            assert forall|i: int| 0 <= i < p.last().len() implies #[trigger] p.last()[i]
                == s[s.len() - p.last().len() + i] by {
                if i < p.last().len() - 1 {
                    assert(p.last()[i] == prev.last()[i]);
                }
            }
        }
    }
}

/// Text without `sep` is a single piece.
pub proof fn lemma_split_without_sep(s: Seq<char>, sep: char)
    requires
        !s.contains(sep),
    ensures
        split_on(s, sep).len() == 1,
    decreases s.len(),
{
    if s.len() > 0 {
        assert(!s.drop_last().contains(sep)) by {
            if s.drop_last().contains(sep) {
                let k = choose|k: int| 0 <= k < s.drop_last().len() && s.drop_last()[k] == sep;
                assert(s[k] == sep);
            }
        }
        assert(s.last() != sep) by {
            assert(s[s.len() - 1] == s.last());
        }
        lemma_split_without_sep(s.drop_last(), sep);
    }
}

pub proof fn lemma_lower_idempotent(s: Seq<char>)
    ensures
        lower_seq(lower_seq(s)) == lower_seq(s),
{
    assert(lower_seq(lower_seq(s)) =~= lower_seq(s));
}

pub proof fn lemma_trim_start_shape(s: Seq<char>)
    ensures
        trim_start(s).len() == 0 || !is_white_space(trim_start(s)[0]),
    decreases s.len(),
{
    if s.len() > 0 && is_white_space(s[0]) {
        lemma_trim_start_shape(s.drop_first());
    }
}

pub proof fn lemma_trim_end_shape(s: Seq<char>)
    ensures
        trim_end(s).len() == 0 || !is_white_space(trim_end(s).last()),
        trim_end(s).len() == 0 || trim_end(s)[0] == s[0],
        trim_end(s).len() <= s.len(),
    decreases s.len(),
{
    if s.len() > 0 && is_white_space(s.last()) {
        lemma_trim_end_shape(s.drop_last());
    }
}

/// Text that has no white space at either end is its own trimmed form.
pub proof fn lemma_trim_fixed(s: Seq<char>)
    requires
        s.len() == 0 || (!is_white_space(s[0]) && !is_white_space(s.last())),
    ensures
        trimmed(s) == s,
{
}

/// Relies on `str::trim`: leading and trailing `White_Space` characters are removed.
#[verifier::external_body]
pub(crate) fn trim_text<'a>(s: &'a str) -> (r: &'a str)
    ensures
        r@ == trimmed(s@),
{
    s.trim()
}

/// Relies on `str::to_ascii_lowercase`: ASCII capitals become small letters, all else is kept.
#[verifier::external_body]
pub(crate) fn ascii_lowercase(s: &str) -> (r: String)
    ensures
        r@ == lower_seq(s@),
{
    s.to_ascii_lowercase()
}

/// Relies on `String::from_iter`: the string holds the characters in order.
#[verifier::external_body]
pub(crate) fn string_from_chars(v: &Vec<char>) -> (r: String)
    ensures
        r@ == v@,
{
    String::from_iter(v)
}

pub fn chars_of(s: &str) -> (r: Vec<char>)
    ensures
        r@ == s@,
{
    let mut r: Vec<char> = Vec::new();
    for c in it: s.chars()
        invariant
            r@ == it.seq().subrange(0, it.index() as int),
    {
        r.push(c);
    }
    r
}

pub fn white_space(c: char) -> (r: bool)
    ensures
        r == is_white_space(c),
{
    ('\u{9}' <= c && c <= '\u{d}') || c == ' ' || c == '\u{85}' || c == '\u{a0}'
        || c == '\u{1680}' || ('\u{2000}' <= c && c <= '\u{200a}') || c == '\u{2028}'
        || c == '\u{2029}' || c == '\u{202f}' || c == '\u{205f}' || c == '\u{3000}'
}

pub fn ascii_digit(c: char) -> (r: bool)
    ensures
        r == is_ascii_digit(c),
{
    '0' <= c && c <= '9'
}

pub fn ascii_lower_letter(c: char) -> (r: bool)
    ensures
        r == is_ascii_lower(c),
{
    'a' <= c && c <= 'z'
}

pub fn ascii_upper_letter(c: char) -> (r: bool)
    ensures
        r == is_ascii_upper(c),
{
    'A' <= c && c <= 'Z'
}

pub fn ascii_alpha(c: char) -> (r: bool)
    ensures
        r == is_ascii_alpha(c),
{
    ascii_lower_letter(c) || ascii_upper_letter(c)
}

pub fn ascii_alnum(c: char) -> (r: bool)
    ensures
        r == is_ascii_alnum(c),
{
    ascii_alpha(c) || ascii_digit(c)
}

pub fn control(c: char) -> (r: bool)
    ensures
        r == is_control(c),
{
    c <= '\u{1f}' || ('\u{7f}' <= c && c <= '\u{9f}')
}

pub fn upper_char(c: char) -> (r: char)
    ensures
        r == ascii_upper(c),
{
    if 'a' <= c && c <= 'z' {
        ((c as u8) - 32) as char
    } else {
        c
    }
}

/// Whether `v` holds exactly the characters of `s`.
pub fn same_text(v: &Vec<char>, s: &str) -> (r: bool)
    ensures
        r == (v@ == s@),
{
    let w = chars_of(s);
    if v.len() != w.len() {
        return false;
    }
    let mut i: usize = 0;
    while i < v.len()
        invariant
            i <= v.len(),
            v.len() == w.len(),
            w@ == s@,
            forall|j: int| 0 <= j < i ==> v@[j] == w@[j],
        decreases v.len() - i,
    {
        if v[i] != w[i] {
            return false;
        }
        i = i + 1;
    }
    assert(v@ =~= w@);
    true
}

/// `v` with every white-space character removed.
pub fn remove_white(v: &Vec<char>) -> (r: Vec<char>)
    ensures
        r@ == strip_white(v@),
{
    let mut r: Vec<char> = Vec::new();
    let mut i: usize = 0;
    while i < v.len()
        invariant
            i <= v.len(),
            r@ == strip_white(v@.subrange(0, i as int)),
        decreases v.len() - i,
    {
        assert(v@.subrange(0, i + 1).drop_last() =~= v@.subrange(0, i as int));
        if !white_space(v[i]) {
            r.push(v[i]);
        }
        i = i + 1;
    }
    assert(v@.subrange(0, v.len() as int) =~= v@);
    r
}

/// Whether every character of `v` is an ASCII digit.
pub fn all_digits(v: &Vec<char>) -> (r: bool)
    ensures
        r == (forall|i: int| 0 <= i < v@.len() ==> is_ascii_digit(#[trigger] v@[i])),
{
    let mut i: usize = 0;
    while i < v.len()
        invariant
            i <= v.len(),
            forall|j: int| 0 <= j < i ==> is_ascii_digit(#[trigger] v@[j]),
        decreases v.len() - i,
    {
        if !ascii_digit(v[i]) {
            return false;
        }
        i = i + 1;
    }
    true
}

/// The pieces of `v` between occurrences of `sep`.
pub fn split_chars(v: &Vec<char>, sep: char) -> (r: Vec<Vec<char>>)
    ensures
        r@.len() == split_on(v@, sep).len(),
        forall|k: int| 0 <= k < r@.len() ==> #[trigger] r@[k]@ == split_on(v@, sep)[k],
{
    let mut done: Vec<Vec<char>> = Vec::new();
    let mut cur: Vec<char> = Vec::new();
    let mut i: usize = 0;
    while i < v.len()
        invariant
            i <= v.len(),
            split_on(v@.subrange(0, i as int), sep).len() == done@.len() + 1,
            forall|k: int|
                0 <= k < done@.len() ==> #[trigger] done@[k]@ == split_on(
                    v@.subrange(0, i as int),
                    sep,
                )[k],
            cur@ == split_on(v@.subrange(0, i as int), sep).last(),
        decreases v.len() - i,
    {
        assert(v@.subrange(0, i + 1).drop_last() =~= v@.subrange(0, i as int));
        assert(v@.subrange(0, i + 1).last() == v@[i as int]);
        if v[i] == sep {
            done.push(cur);
            cur = Vec::new();
        } else {
            cur.push(v[i]);
        }
        i = i + 1;
    }
    assert(v@.subrange(0, v.len() as int) =~= v@);
    done.push(cur);
    done
}

} // verus!
