//! Character and string helpers shared by the rest of the crate.
//!
//! Strings are modelled by their sequence of characters. Which characters
//! are whitespace is written out here. The other facts about Unicode that
//! the crate relies on (which characters are alphabetic, what the lowercase
//! form of a string is) are taken from the standard library and appear in
//! contracts under a name of their own.

use vstd::prelude::*;
use vstd::string::StrSliceExecFns;

verus! {

/// Whether `c` has the Unicode property `White_Space`: the controls from
/// tab to carriage return, the space, the next-line control, the no-break
/// space, the Ogham space mark, the spaces from en quad to hair space, the
/// line and the paragraph separator, the narrow no-break space, the medium
/// mathematical space and the ideographic space.
pub open spec fn white_space(c: char) -> bool {
    let code = c as u32;
    ||| 0x0009 <= code <= 0x000D
    ||| code == 0x0020
    ||| code == 0x0085
    ||| code == 0x00A0
    ||| code == 0x1680
    ||| 0x2000 <= code <= 0x200A
    ||| code == 0x2028
    ||| code == 0x2029
    ||| code == 0x202F
    ||| code == 0x205F
    ||| code == 0x3000
}

/// Whether `c` has the Unicode property `Alphabetic`, as `char::is_alphabetic` decides it.
pub uninterp spec fn alphabetic(c: char) -> bool;

/// The lowercase form of `s`, as `str::to_lowercase` computes it.
pub uninterp spec fn lowercase(s: Seq<char>) -> Seq<char>;

/// `char::is_whitespace` answers for the property `White_Space`, which is
/// the set of characters written out in `white_space`.
pub assume_specification[ char::is_whitespace ](c: char) -> (b: bool)
    ensures
        b == white_space(c),
;

/// `char::is_alphabetic` answers for the property of that name.
pub assume_specification[ char::is_alphabetic ](c: char) -> (b: bool)
    ensures
        b == alphabetic(c),
;

/// `str::to_lowercase` returns the lowercase form of the whole string.
pub assume_specification[ str::to_lowercase ](s: &str) -> (r: String)
    ensures
        r@ == lowercase(s@),
;

/// Two string slices compare equal exactly when they hold the same characters.
pub assume_specification[ <str as PartialEq>::eq ](a: &str, b: &str) -> (r: bool)
    ensures
        r == (a@ == b@),
;

/// `String::push` appends one character at the end.
pub assume_specification[ String::push ](s: &mut String, c: char)
    ensures
        final(s)@ == old(s)@.push(c),
;

/// Whether `c` is whitespace, decided from its code point.
pub fn in_white_space(c: char) -> (b: bool)
    ensures
        b == white_space(c),
{
    let code: u32 = c as u32;
    (0x0009 <= code && code <= 0x000D) || code == 0x0020 || code == 0x0085 || code == 0x00A0
        || code == 0x1680 || (0x2000 <= code && code <= 0x200A) || code == 0x2028 || code == 0x2029
        || code == 0x202F || code == 0x205F || code == 0x3000
}

/// The characters of `s`, in order.
pub fn to_chars(s: &str) -> (v: Vec<char>)
    ensures
        v@ == s@,
{
    let mut v: Vec<char> = Vec::new();
    for c in it: s.chars()
        invariant
            it.seq() == s@,
            v@ == s@.take(it.index() as int),
    {
        v.push(c);
    }
    v
}

/// The string made of `v[from..to]`.
pub(crate) fn from_chars(v: &Vec<char>, from: usize, to: usize) -> (s: String)
    requires
        from <= to <= v.len(),
    ensures
        s@ == v@.subrange(from as int, to as int),
{
    let mut s = String::new();
    let mut i: usize = from;
    while i < to
        invariant
            from <= i <= to <= v.len(),
            s@ == v@.subrange(from as int, i as int),
        decreases to - i,
    {
        s.push(v[i]);
        i += 1;
    }
    s
}

/// The number of bytes that `s` takes in UTF-8, as `str::len` reports it.
pub open spec fn byte_length(s: Seq<char>) -> usize {
    vstd::utf8::encode_utf8(s).len() as usize
}

/// `s` without its leading whitespace.
pub open spec fn trim_start(s: Seq<char>) -> Seq<char>
    decreases s.len(),
{
    if s.len() > 0 && white_space(s[0]) {
        trim_start(s.drop_first())
    } else {
        s
    }
}

/// `s` without its trailing whitespace.
pub open spec fn trim_end(s: Seq<char>) -> Seq<char>
    decreases s.len(),
{
    if s.len() > 0 && white_space(s.last()) {
        trim_end(s.drop_last())
    } else {
        s
    }
}

/// `s` without leading and trailing whitespace.
pub open spec fn trimmed(s: Seq<char>) -> Seq<char> {
    trim_end(trim_start(s))
}

/// Whether `s` is empty or holds whitespace only.
pub open spec fn is_blank(s: Seq<char>) -> bool {
    forall|i: int| 0 <= i < s.len() ==> white_space(#[trigger] s[i])
}

/// The whitespace-delimited tokens of `s`: its maximal runs of characters
/// that are not whitespace, in the order in which they occur.
///
/// The definition reads `s` from the left, one character at a time: a
/// whitespace character adds nothing, a character that follows a token
/// character extends the last token, and any other character starts a new one.
pub open spec fn tokens(s: Seq<char>) -> Seq<Seq<char>>
    decreases s.len(),
{
    if s.len() == 0 {
        Seq::empty()
    } else {
        let before = tokens(s.drop_last());
        let c = s.last();
        if white_space(c) {
            before
        } else if s.len() >= 2 && !white_space(s[s.len() - 2]) && before.len() > 0 {
            before.drop_last().push(before.last().push(c))
        } else {
            before.push(seq![c])
        }
    }
}

/// Whether `needle` occurs in `hay` at position `at`.
pub open spec fn occurs_at(hay: Seq<char>, needle: Seq<char>, at: int) -> bool {
    &&& 0 <= at
    &&& at + needle.len() <= hay.len()
    &&& hay.subrange(at, at + needle.len()) == needle
}

/// Whether `needle` occurs somewhere in `hay`.
pub open spec fn has_substring(hay: Seq<char>, needle: Seq<char>) -> bool {
    exists|at: int| occurs_at(hay, needle, at)
}

/// Whether `s` begins with `prefix`.
pub open spec fn has_prefix(s: Seq<char>, prefix: Seq<char>) -> bool {
    occurs_at(s, prefix, 0)
}

/// Whether `s` ends with `suffix`.
pub open spec fn has_suffix(s: Seq<char>, suffix: Seq<char>) -> bool {
    occurs_at(s, suffix, s.len() - suffix.len())
}

/// Removes leading and trailing whitespace.
pub fn trim(s: &str) -> (r: String)
    ensures
        r@ == trimmed(s@),
{
    let v = to_chars(s);
    let n = v.len();
    let mut i: usize = 0;
    assert(v@.skip(0) =~= v@);
    while i < n && v[i].is_whitespace()
        invariant
            i <= n,
            n == v.len(),
            trim_start(v@) == trim_start(v@.skip(i as int)),
        decreases n - i,
    {
        assert(v@.skip(i as int).drop_first() =~= v@.skip(i + 1));
        i += 1;
    }
    assert(trim_start(v@) == v@.skip(i as int));
    assert(v@.skip(i as int) =~= v@.subrange(i as int, n as int));
    let mut j: usize = n;
    while j > i && v[j - 1].is_whitespace()
        invariant
            i <= j <= n,
            n == v.len(),
            trimmed(v@) == trim_end(v@.subrange(i as int, j as int)),
        decreases j,
    {
        assert(v@.subrange(i as int, j as int).drop_last() =~= v@.subrange(i as int, j - 1));
        j -= 1;
    }
    from_chars(&v, i, j)
}

/// The first `max_chars` characters of `s`, and all of `s` where it has no more.
pub open spec fn truncated(s: Seq<char>, max_chars: nat) -> Seq<char> {
    if s.len() <= max_chars {
        s
    } else {
        s.take(max_chars as int)
    }
}

/// Cuts `s` down to its first `max_chars` characters.
pub fn truncate_str(s: &str, max_chars: usize) -> (r: &str)
    ensures
        r@ == truncated(s@, max_chars as nat),
{
    if s.unicode_len() <= max_chars {
        s
    } else {
        let r = s.substring_char(0, max_chars);
        assert(s@.subrange(0, max_chars as int) =~= s@.take(max_chars as int));
        r
    }
}

/// Removes trailing whitespace.
pub fn trim_trailing(s: &str) -> (r: String)
    ensures
        r@ == trim_end(s@),
{
    let v = to_chars(s);
    let mut j: usize = v.len();
    assert(v@.subrange(0, v.len() as int) =~= v@);
    while j > 0 && v[j - 1].is_whitespace()
        invariant
            j <= v.len(),
            trim_end(v@) == trim_end(v@.subrange(0, j as int)),
        decreases j,
    {
        assert(v@.subrange(0, j as int).drop_last() =~= v@.subrange(0, j - 1));
        j -= 1;
    }
    from_chars(&v, 0, j)
}

/// Whether `s` is empty or holds whitespace only.
pub fn blank(s: &str) -> (b: bool)
    ensures
        b == is_blank(s@),
{
    let v = to_chars(s);
    let mut i: usize = 0;
    while i < v.len()
        invariant
            i <= v.len(),
            v@ == s@,
            forall|k: int| 0 <= k < i ==> white_space(#[trigger] v@[k]),
        decreases v.len() - i,
    {
        if !v[i].is_whitespace() {
            assert(!white_space(s@[i as int]));
            return false;
        }
        i += 1;
    }
    true
}

/// Splits `s` into its whitespace-delimited tokens.
pub fn split_tokens(s: &str) -> (r: Vec<String>)
    ensures
        r.deep_view() == tokens(s@),
{
    let v = to_chars(s);
    let mut done: Vec<String> = Vec::new();
    let mut start: usize = 0;
    let mut i: usize = 0;
    // `start..i` is the token being read, if `i` stands right behind a token character
    while i < v.len()
        invariant
            start <= i <= v.len(),
            start < i ==> !white_space(v@[i - 1]),
            start < i ==> tokens(v@.take(i as int)) == done.deep_view().push(
                v@.subrange(start as int, i as int),
            ),
            start == i ==> tokens(v@.take(i as int)) == done.deep_view(),
            start == i && i > 0 ==> white_space(v@[i - 1]),
        decreases v.len() - i,
    {
        let ghost before = v@.take(i as int);
        let ghost now = v@.take(i + 1);
        assert(now.drop_last() =~= before);
        assert(now.last() == v@[i as int]);
        if v[i].is_whitespace() {
            if start < i {
                let word = from_chars(&v, start, i);
                let ghost prev = done.deep_view();
                done.push(word);
                assert(done.deep_view() =~= prev.push(v@.subrange(start as int, i as int)));
            }
            start = i + 1;
        } else {
            if start < i {
                let ghost open = v@.subrange(start as int, i as int);
                assert(tokens(before).drop_last() =~= done.deep_view());
                assert(tokens(before).last() == open);
                assert(open.push(v@[i as int]) =~= v@.subrange(start as int, i + 1));
            } else {
                assert(seq![v@[i as int]] =~= v@.subrange(start as int, i + 1));
            }
        }
        i += 1;
    }
    assert(v@.take(v.len() as int) =~= v@);
    if start < i {
        let word = from_chars(&v, start, i);
        let ghost prev = done.deep_view();
        done.push(word);
        assert(done.deep_view() =~= prev.push(v@.subrange(start as int, i as int)));
    }
    done
}

/// Whether `needle` occurs somewhere in `hay`.
pub fn contains(hay: &str, needle: &str) -> (b: bool)
    ensures
        b == has_substring(hay@, needle@),
{
    let h = to_chars(hay);
    let n = to_chars(needle);
    if n.len() > h.len() {
        return false;
    }
    let last: usize = h.len() - n.len();
    let mut at: usize = 0;
    while at < last
        invariant
            h@ == hay@,
            n@ == needle@,
            last == h.len() - n.len(),
            at <= last,
            forall|k: int| 0 <= k < at ==> !occurs_at(h@, n@, k),
        decreases last - at,
    {
        if matches_at(&h, &n, at) {
            assert(occurs_at(hay@, needle@, at as int));
            return true;
        }
        at += 1;
    }
    let found = matches_at(&h, &n, last);
    assert(found ==> occurs_at(hay@, needle@, last as int));
    found
}

/// Whether `needle` occurs in `hay` at position `at`.
pub(crate) fn matches_at(hay: &Vec<char>, needle: &Vec<char>, at: usize) -> (b: bool)
    requires
        at + needle.len() <= hay.len(),
    ensures
        b == occurs_at(hay@, needle@, at as int),
{
    let mut k: usize = 0;
    while k < needle.len()
        invariant
            k <= needle.len(),
            at + needle.len() <= hay.len(),
            forall|j: int| 0 <= j < k ==> hay@[at + j] == needle@[j],
        decreases needle.len() - k,
    {
        if hay[at + k] != needle[k] {
            assert(hay@.subrange(at as int, at + needle.len())[k as int] != needle@[k as int]);
            return false;
        }
        k += 1;
    }
    assert(hay@.subrange(at as int, at + needle.len()) =~= needle@);
    true
}

/// Whether `s` begins with `prefix`.
pub fn starts_with(s: &str, prefix: &str) -> (b: bool)
    ensures
        b == has_prefix(s@, prefix@),
{
    let h = to_chars(s);
    let p = to_chars(prefix);
    if p.len() > h.len() {
        return false;
    }
    matches_at(&h, &p, 0)
}

/// Whether `s` ends with `suffix`.
pub fn ends_with(s: &str, suffix: &str) -> (b: bool)
    ensures
        b == has_suffix(s@, suffix@),
{
    let h = to_chars(s);
    let p = to_chars(suffix);
    if p.len() > h.len() {
        return false;
    }
    matches_at(&h, &p, h.len() - p.len())
}

/// The pieces of `s` between the occurrences of `separator`. A string
/// without the separator is one piece, and so is the empty string.
pub open spec fn fields(s: Seq<char>, separator: char) -> Seq<Seq<char>>
    decreases s.len(),
{
    if s.len() == 0 {
        seq![Seq::empty()]
    } else {
        let before = fields(s.drop_last(), separator);
        if s.last() == separator {
            before.push(Seq::empty())
        } else {
            before.drop_last().push(before.last().push(s.last()))
        }
    }
}

/// The position of the first `c` in `s`.
pub open spec fn position(s: Seq<char>, c: char) -> Option<int>
    decreases s.len(),
{
    if s.len() == 0 {
        None
    } else if s[0] == c {
        Some(0)
    } else {
        match position(s.drop_first(), c) {
            Some(i) => Some(i + 1),
            None => None,
        }
    }
}

/// The position of the first decimal digit in `s`.
pub open spec fn digit_position(s: Seq<char>) -> Option<int>
    decreases s.len(),
{
    if s.len() == 0 {
        None
    } else if '0' <= s[0] && s[0] <= '9' {
        Some(0)
    } else {
        match digit_position(s.drop_first()) {
            Some(i) => Some(i + 1),
            None => None,
        }
    }
}

/// The position of the first occurrence of `needle` in `hay` at or after `from`.
pub open spec fn occurrence_from(hay: Seq<char>, needle: Seq<char>, from: int) -> Option<int>
    decreases hay.len() - from + 1,
{
    if 0 <= from && from + needle.len() <= hay.len() {
        if occurs_at(hay, needle, from) {
            Some(from)
        } else {
            occurrence_from(hay, needle, from + 1)
        }
    } else {
        None
    }
}

/// The position of the first occurrence of `needle` in `hay`.
pub open spec fn first_occurrence(hay: Seq<char>, needle: Seq<char>) -> Option<int> {
    occurrence_from(hay, needle, 0)
}

/// Where `needle` is found first, it occurs.
pub proof fn lemma_first_occurrence_occurs(hay: Seq<char>, needle: Seq<char>)
    ensures
        first_occurrence(hay, needle) matches Some(at) ==> occurs_at(hay, needle, at),
{
    lemma_occurrence_from_occurs(hay, needle, 0);
}

/// Where `needle` is found at or after `from`, it occurs.
pub proof fn lemma_occurrence_from_occurs(hay: Seq<char>, needle: Seq<char>, from: int)
    ensures
        occurrence_from(hay, needle, from) matches Some(at) ==> from <= at && occurs_at(
            hay,
            needle,
            at,
        ),
    decreases hay.len() - from + 1,
{
    if 0 <= from && from + needle.len() <= hay.len() && !occurs_at(hay, needle, from) {
        lemma_occurrence_from_occurs(hay, needle, from + 1);
    }
}

/// `s` without any number of trailing repetitions of `suffix`.
pub open spec fn without_trailing(s: Seq<char>, suffix: Seq<char>) -> Seq<char>
    decreases s.len(),
{
    if suffix.len() > 0 && has_suffix(s, suffix) {
        without_trailing(s.take(s.len() - suffix.len()), suffix)
    } else {
        s
    }
}

/// Splits `s` at every occurrence of `separator`.
pub fn split_fields(s: &str, separator: char) -> (r: Vec<String>)
    ensures
        r.deep_view() == fields(s@, separator),
        r.len() >= 1,
{
    let v = to_chars(s);
    let mut done: Vec<String> = Vec::new();
    let mut start: usize = 0;
    let mut i: usize = 0;
    assert(v@.take(0) =~= Seq::<char>::empty());
    assert(done.deep_view().push(v@.subrange(0, 0)) =~= seq![Seq::<char>::empty()]);
    while i < v.len()
        invariant
            start <= i <= v.len(),
            fields(v@.take(i as int), separator) == done.deep_view().push(
                v@.subrange(start as int, i as int),
            ),
        decreases v.len() - i,
    {
        let ghost now = v@.take(i + 1);
        assert(now.drop_last() =~= v@.take(i as int));
        let ghost open = v@.subrange(start as int, i as int);
        let ghost before = done.deep_view();
        assert(before.push(open).drop_last() =~= before);
        if v[i] == separator {
            let piece = from_chars(&v, start, i);
            done.push(piece);
            assert(done.deep_view() =~= before.push(open));
            start = i + 1;
            assert(v@.subrange(start as int, start as int) =~= Seq::<char>::empty());
        } else {
            assert(open.push(v@[i as int]) =~= v@.subrange(start as int, i + 1));
        }
        i += 1;
    }
    assert(v@.take(v.len() as int) =~= v@);
    let piece = from_chars(&v, start, i);
    let ghost before = done.deep_view();
    done.push(piece);
    assert(done.deep_view() =~= before.push(v@.subrange(start as int, i as int)));
    done
}

/// Finds the first `c` in `s`.
pub fn find_char(s: &Vec<char>, c: char) -> (found: Option<usize>)
    ensures
        match found {
            Some(i) => position(s@, c) == Some(i as int) && i < s.len() && s@[i as int] == c,
            None => position(s@, c) is None,
        },
{
    let mut i: usize = s.len();
    let mut found: Option<usize> = None;
    assert(s@.skip(s.len() as int) =~= Seq::<char>::empty());
    while i > 0
        invariant
            i <= s.len(),
            match found {
                Some(k) => position(s@.skip(i as int), c) == Some(k - i) && i <= k < s.len()
                    && s@[k as int] == c,
                None => position(s@.skip(i as int), c) is None,
            },
        decreases i,
    {
        i -= 1;
        assert(s@.skip(i as int).drop_first() =~= s@.skip(i + 1));
        if s[i] == c {
            found = Some(i);
        }
    }
    assert(s@.skip(0) =~= s@);
    found
}

/// Finds the first decimal digit in `s`.
pub fn find_digit(s: &Vec<char>) -> (found: Option<usize>)
    ensures
        match found {
            Some(i) => digit_position(s@) == Some(i as int) && i < s.len(),
            None => digit_position(s@) is None,
        },
{
    let mut i: usize = s.len();
    let mut found: Option<usize> = None;
    assert(s@.skip(s.len() as int) =~= Seq::<char>::empty());
    while i > 0
        invariant
            i <= s.len(),
            match found {
                Some(k) => digit_position(s@.skip(i as int)) == Some(k - i) && i <= k < s.len(),
                None => digit_position(s@.skip(i as int)) is None,
            },
        decreases i,
    {
        i -= 1;
        assert(s@.skip(i as int).drop_first() =~= s@.skip(i + 1));
        if '0' <= s[i] && s[i] <= '9' {
            found = Some(i);
        }
    }
    assert(s@.skip(0) =~= s@);
    found
}

/// Finds the first occurrence of `needle` in `hay`.
pub fn find_substring(hay: &Vec<char>, needle: &Vec<char>) -> (found: Option<usize>)
    ensures
        match found {
            Some(i) => first_occurrence(hay@, needle@) == Some(i as int) && i + needle.len()
                <= hay.len(),
            None => first_occurrence(hay@, needle@) is None,
        },
{
    if needle.len() > hay.len() {
        return None;
    }
    let last: usize = hay.len() - needle.len();
    let mut at: usize = 0;
    while at < last
        invariant
            last == hay.len() - needle.len(),
            at <= last,
            first_occurrence(hay@, needle@) == occurrence_from(hay@, needle@, at as int),
        decreases last - at,
    {
        if matches_at(hay, needle, at) {
            return Some(at);
        }
        at += 1;
    }
    if matches_at(hay, needle, last) {
        Some(last)
    } else {
        assert(occurrence_from(hay@, needle@, last + 1) is None);
        None
    }
}

/// Removes every trailing repetition of `suffix`.
pub fn trim_end_matches(s: &str, suffix: &str) -> (r: String)
    ensures
        r@ == without_trailing(s@, suffix@),
{
    let v = to_chars(s);
    let p = to_chars(suffix);
    let mut end: usize = v.len();
    assert(v@.take(v.len() as int) =~= v@);
    if p.len() > 0 {
        while end >= p.len() && matches_at_end(&v, &p, end)
            invariant
                end <= v.len(),
                p.len() > 0,
                without_trailing(v@, p@) == without_trailing(v@.take(end as int), p@),
            decreases end,
        {
            assert(v@.take(end as int).take(end - p.len()) =~= v@.take(end - p.len()));
            end -= p.len();
        }
    }
    assert(v@.take(end as int) =~= v@.subrange(0, end as int));
    from_chars(&v, 0, end)
}

/// Whether `hay[..end]` ends with `needle`.
fn matches_at_end(hay: &Vec<char>, needle: &Vec<char>, end: usize) -> (b: bool)
    requires
        needle.len() <= end <= hay.len(),
    ensures
        b == has_suffix(hay@.take(end as int), needle@),
{
    let b = matches_at(hay, needle, end - needle.len());
    assert(hay@.take(end as int).subrange(end - needle.len(), end as int) =~= hay@.subrange(
        end - needle.len(),
        end as int,
    ));
    b
}

/// A token is not empty and holds no whitespace.
pub proof fn lemma_tokens_are_words(s: Seq<char>)
    ensures
        forall|k: int|
            0 <= k < tokens(s).len() ==> (#[trigger] tokens(s)[k]).len() > 0 && forall|j: int|
                0 <= j < tokens(s)[k].len() ==> !white_space(#[trigger] tokens(s)[k][j]),
    decreases s.len(),
{
    if s.len() > 0 {
        lemma_tokens_are_words(s.drop_last());
        let before = tokens(s.drop_last());
        let all = tokens(s);
        let c = s.last();
        assert forall|k: int| 0 <= k < all.len() implies (#[trigger] all[k]).len() > 0 && forall|
            j: int,
        |
            0 <= j < all[k].len() ==> !white_space(#[trigger] all[k][j]) by {
            if white_space(c) {
                assert(all[k] == before[k]);
            } else if s.len() >= 2 && !white_space(s[s.len() - 2]) && before.len() > 0 {
                if k < before.len() - 1 {
                    assert(all[k] == before[k]);
                } else {
                    let grown = before.last().push(c);
                    assert(all[k] == grown);
                    assert forall|j: int| 0 <= j < grown.len() implies !white_space(
                        #[trigger] grown[j],
                    ) by {
                        if j < before.last().len() {
                            assert(grown[j] == before[before.len() - 1][j]);
                        }
                    }
                }
            } else {
                if k < before.len() {
                    assert(all[k] == before[k]);
                } else {
                    assert(all[k] == seq![c]);
                }
            }
        }
    }
}

/// No piece holds the separator.
pub proof fn lemma_fields_hold_no_separator(s: Seq<char>, separator: char)
    ensures
        fields(s, separator).len() >= 1,
        forall|k: int, j: int|
            0 <= k < fields(s, separator).len() && 0 <= j < fields(s, separator)[k].len() ==> (
            #[trigger] fields(s, separator)[k][j]) != separator,
    decreases s.len(),
{
    if s.len() > 0 {
        lemma_fields_hold_no_separator(s.drop_last(), separator);
        let before = fields(s.drop_last(), separator);
        let all = fields(s, separator);
        assert forall|k: int, j: int| 0 <= k < all.len() && 0 <= j < all[k].len() implies (
        #[trigger] all[k][j]) != separator by {
            if s.last() == separator {
                assert(all[k] == before.push(Seq::empty())[k]);
                if k < before.len() {
                    assert(all[k][j] == before[k][j]);
                }
            } else {
                if k < before.len() - 1 {
                    assert(all[k] == before[k]);
                    assert(all[k][j] == before[k][j]);
                } else {
                    let grown = before.last().push(s.last());
                    assert(all[k] == grown);
                    if j < before.last().len() {
                        assert(grown[j] == before[before.len() - 1][j]);
                    }
                }
            }
        }
    }
}

/// What is left of a text without its leading whitespace begins with
/// another character, and is all of the text where that begins with one.
pub proof fn lemma_trim_start_is_tight(s: Seq<char>)
    ensures
        trim_start(s).len() > 0 ==> !white_space(trim_start(s)[0]),
        trim_start(s).len() <= s.len(),
        is_blank(s) <==> trim_start(s).len() == 0,
    decreases s.len(),
{
    if s.len() > 0 {
        lemma_trim_start_is_tight(s.drop_first());
        if white_space(s[0]) {
            if is_blank(s) {
                assert forall|i: int| 0 <= i < s.drop_first().len() implies white_space(
                    #[trigger] s.drop_first()[i],
                ) by {
                    assert(s.drop_first()[i] == s[i + 1]);
                }
            }
            if is_blank(s.drop_first()) {
                assert forall|i: int| 0 <= i < s.len() implies white_space(#[trigger] s[i]) by {
                    if i > 0 {
                        assert(s[i] == s.drop_first()[i - 1]);
                    }
                }
            }
        } else {
            assert(!white_space(s[0]));
        }
    }
}

/// What is left of a text without its trailing whitespace ends with another
/// character, and begins as the text does.
pub proof fn lemma_trim_end_is_tight(s: Seq<char>)
    ensures
        trim_end(s).len() > 0 ==> !white_space(trim_end(s).last()),
        trim_end(s).len() <= s.len(),
        s.len() > 0 && !white_space(s[0]) ==> trim_end(s).len() > 0 && trim_end(s)[0] == s[0],
    decreases s.len(),
{
    if s.len() > 0 && white_space(s.last()) {
        lemma_trim_end_is_tight(s.drop_last());
        if !white_space(s[0]) {
            assert(s.len() >= 2);
            assert(s.drop_last()[0] == s[0]);
        }
    }
}

/// A trimmed text neither begins nor ends with whitespace, and it is empty
/// exactly where the text holds nothing but whitespace.
pub proof fn lemma_trimmed_is_tight(s: Seq<char>)
    ensures
        trimmed(s).len() > 0 ==> !white_space(trimmed(s)[0]) && !white_space(trimmed(s).last()),
        is_blank(s) <==> trimmed(s).len() == 0,
{
    lemma_trim_start_is_tight(s);
    lemma_trim_end_is_tight(trim_start(s));
}

} // verus!
