//! Text helpers over `&str`: white space, trimming, comparison, and the small
//! replacements that remote command lines and their replies need.
//!
//! Every contract speaks of the characters of a string, `s@`.

use vstd::prelude::*;
use vstd::string::*;

verus! {

/// The characters that count as white space: the Unicode `White_Space` set.
pub open spec fn is_space(c: char) -> bool {
    let u = c as u32;
    (0x09 <= u <= 0x0D) || u == 0x20 || u == 0x85 || u == 0xA0 || u == 0x1680 || (0x2000 <= u
        <= 0x200A) || u == 0x2028 || u == 0x2029 || u == 0x202F || u == 0x205F || u == 0x3000
}

/// `s` without its leading white space.
pub open spec fn trim_start(s: Seq<char>) -> Seq<char>
    decreases s.len(),
{
    if s.len() > 0 && is_space(s[0]) {
        trim_start(s.drop_first())
    } else {
        s
    }
}

/// `s` without its trailing white space.
pub open spec fn trim_end(s: Seq<char>) -> Seq<char>
    decreases s.len(),
{
    if s.len() > 0 && is_space(s.last()) {
        trim_end(s.drop_last())
    } else {
        s
    }
}

/// `s` without leading and trailing white space.
pub open spec fn trimmed(s: Seq<char>) -> Seq<char> {
    trim_end(trim_start(s))
}

/// `s` with every line feed replaced by a comma.
pub open spec fn comma_joined(s: Seq<char>) -> Seq<char> {
    Seq::new(
        s.len(),
        |i: int|
            if s[i] == '\n' {
                ','
            } else {
                s[i]
            },
    )
}

/// The position of the first `c` in `s`, or the length of `s` if there is none.
pub open spec fn first_index_of(s: Seq<char>, c: char) -> int
    decreases s.len(),
{
    if s.len() == 0 || s[0] == c {
        0
    } else {
        1 + first_index_of(s.drop_first(), c)
    }
}

/// The part of `s` before its first full stop; all of `s` if it has none.
pub open spec fn stem(s: Seq<char>) -> Seq<char> {
    s.take(first_index_of(s, '.'))
}

/// What `trim_start` leaves is the end of the text, and begins with no
/// white space.
pub proof fn lemma_trim_start(s: Seq<char>)
    ensures
        trim_start(s).len() <= s.len(),
        trim_start(s) == s.skip(s.len() - trim_start(s).len()),
        forall|i: int| 0 <= i < s.len() - trim_start(s).len() ==> is_space(s[i]),
        trim_start(s).len() > 0 ==> !is_space(trim_start(s)[0]),
    decreases s.len(),
{
    if s.len() > 0 && is_space(s[0]) {
        let rest = s.drop_first();
        lemma_trim_start(rest);
        let cut = rest.len() - trim_start(rest).len();
        assert(rest.skip(cut) =~= s.skip(cut + 1));
        assert forall|i: int| 0 <= i < s.len() - trim_start(s).len() implies is_space(s[i]) by {
            if i > 0 {
                assert(s[i] == rest[i - 1]);
            }
        }
    } else {
        assert(s.skip(0) =~= s);
    }
}

/// What `trim_end` leaves is the beginning of the text, and ends with no
/// white space.
pub proof fn lemma_trim_end(s: Seq<char>)
    ensures
        trim_end(s).len() <= s.len(),
        trim_end(s) == s.take(trim_end(s).len() as int),
        forall|i: int| trim_end(s).len() <= i < s.len() ==> is_space(s[i]),
        trim_end(s).len() > 0 ==> !is_space(trim_end(s).last()),
    decreases s.len(),
{
    if s.len() > 0 && is_space(s.last()) {
        let rest = s.drop_last();
        lemma_trim_end(rest);
        assert(rest.take(trim_end(rest).len() as int) =~= s.take(trim_end(rest).len() as int));
    } else {
        assert(s.take(s.len() as int) =~= s);
    }
}

/// A trimmed text is what lies between the white space at the two ends of
/// the text: it begins and ends with no white space, everything before and
/// behind it is white space, and trimming it again changes nothing.
pub proof fn lemma_trimmed(s: Seq<char>)
    ensures
        trimmed(s).len() > 0 ==> !is_space(trimmed(s).first()) && !is_space(trimmed(s).last()),
        exists|from: int, to: int|
            {
                &&& 0 <= from <= to <= s.len()
                &&& trimmed(s) == #[trigger] s.subrange(from, to)
                &&& forall|i: int| 0 <= i < from ==> is_space(s[i])
                &&& forall|i: int| to <= i < s.len() ==> is_space(s[i])
            },
        trimmed(trimmed(s)) == trimmed(s),
{
    let rest = trim_start(s);
    lemma_trim_start(s);
    lemma_trim_end(rest);
    let from = s.len() - rest.len();
    let to = from + trimmed(s).len();
    assert(trimmed(s) =~= s.subrange(from, to));
    assert forall|i: int| to <= i < s.len() implies is_space(s[i]) by {
        assert(s[i] == rest[i - from]);
    }
    if trimmed(s).len() > 0 {
        assert(trimmed(s).first() == rest[0]);
    }
    assert(trim_start(trimmed(s)) == trimmed(s));
    assert(trim_end(trimmed(s)) == trimmed(s));
}

/// `first_index_of` is where the character stands first: it stands there,
/// and nowhere before.
pub proof fn lemma_first_index_of_bounds(s: Seq<char>, c: char)
    ensures
        0 <= first_index_of(s, c) <= s.len(),
        first_index_of(s, c) < s.len() ==> s[first_index_of(s, c)] == c,
        forall|i: int| 0 <= i < first_index_of(s, c) ==> s[i] != c,
    decreases s.len(),
{
    if s.len() > 0 && s[0] != c {
        let t = s.drop_first();
        lemma_first_index_of_bounds(t, c);
        assert forall|i: int| 0 <= i < first_index_of(s, c) implies s[i] != c by {
            if i > 0 {
                assert(s[i] == t[i - 1]);
            }
        }
    }
}

/// The first position at or after `from` whose character is `c` decides
/// `first_index_of` once everything before `from` is known to differ from `c`.
proof fn lemma_first_index_of_skip(s: Seq<char>, c: char, from: int)
    requires
        0 <= from <= s.len(),
        forall|i: int| 0 <= i < from ==> s[i] != c,
    ensures
        first_index_of(s, c) == from + first_index_of(s.skip(from), c),
    decreases from,
{
    if from == 0 {
        assert(s.skip(0) =~= s);
    } else {
        let t = s.drop_first();
        assert forall|i: int| 0 <= i < from - 1 implies t[i] != c by {
            assert(t[i] == s[i + 1]);
        }
        lemma_first_index_of_skip(t, c, from - 1);
        assert(t.skip(from - 1) =~= s.skip(from));
    }
}

/// Whether a character counts as white space.
pub fn char_is_space(c: char) -> (r: bool)
    ensures
        r == is_space(c),
{
    let u: u32 = c as u32;
    (0x09 <= u && u <= 0x0D) || u == 0x20 || u == 0x85 || u == 0xA0 || u == 0x1680 || (0x2000
        <= u && u <= 0x200A) || u == 0x2028 || u == 0x2029 || u == 0x202F || u == 0x205F || u
        == 0x3000
}

/// The characters of `s`, one by one.
pub fn to_chars(s: &str) -> (v: Vec<char>)
    ensures
        v@ == s@,
{
    let mut v: Vec<char> = Vec::new();
    for c in it: s.chars()
        invariant
            it.seq() == s@,
            v@ == s@.take(it.index() as int),
    {
        v.push(c);
    }
    v
}

/// Whether two strings hold the same characters.
pub fn same_text(a: &str, b: &str) -> (r: bool)
    ensures
        r == (a@ == b@),
{
    let x = to_chars(a);
    let y = to_chars(b);
    if x.len() != y.len() {
        return false;
    }
    let mut i: usize = 0;
    while i < x.len()
        invariant
            i <= x.len(),
            x.len() == y.len(),
            x@ == a@,
            y@ == b@,
            forall|k: int| 0 <= k < i ==> x@[k] == y@[k],
        decreases x.len() - i,
    {
        if x[i] != y[i] {
            return false;
        }
        i += 1;
    }
    assert(x@ =~= y@);
    true
}

/// `s` without leading and trailing white space, as `str::trim` gives it.
pub fn trim(s: &str) -> (r: &str)
    ensures
        r@ == trimmed(s@),
{
    let v = to_chars(s);
    let n = v.len();
    let mut start: usize = 0;
    assert(v@.skip(0) =~= v@);
    while start < n && char_is_space(v[start])
        invariant
            start <= n,
            n == v@.len(),
            trim_start(v@) == trim_start(v@.skip(start as int)),
        decreases n - start,
    {
        assert(v@.skip(start as int).drop_first() =~= v@.skip(start as int + 1));
        start += 1;
    }
    let mut end: usize = n;
    while end > start && char_is_space(v[end - 1])
        invariant
            start <= end <= n,
            n == v@.len(),
            trimmed(v@) == trim_end(v@.subrange(start as int, end as int)),
        decreases end,
    {
        assert(v@.subrange(start as int, end as int).drop_last() =~= v@.subrange(
            start as int,
            end as int - 1,
        ));
        end -= 1;
    }
    s.substring_char(start, end)
}

/// Whether `s` holds nothing but white space.
pub fn is_blank(s: &str) -> (r: bool)
    ensures
        r == (trimmed(s@).len() == 0),
{
    trim(s).unicode_len() == 0
}

/// `s` with every line feed replaced by a comma.
pub fn join_lines_with_commas(s: &str) -> (r: String)
    ensures
        r@ == comma_joined(s@),
{
    let v = to_chars(s);
    let n = v.len();
    let mut out = String::from_str("");
    proof {
        reveal_strlit("");
        reveal_strlit(",");
    }
    let mut i: usize = 0;
    while i < n
        invariant
            i <= n,
            n == v@.len(),
            v@ == s@,
            ","@ == seq![','],
            out@ == comma_joined(s@).take(i as int),
        decreases n - i,
    {
        if v[i] == '\n' {
            out.append(",");
        } else {
            out.append(s.substring_char(i, i + 1));
        }
        i += 1;
    }
    out
}

/// The part of `s` before its first full stop; all of `s` if it has none.
pub fn stem_of(s: &str) -> (r: &str)
    ensures
        r@ == stem(s@),
{
    let v = to_chars(s);
    let n = v.len();
    let mut i: usize = 0;
    while i < n && v[i] != '.'
        invariant
            i <= n,
            n == v@.len(),
            forall|k: int| 0 <= k < i ==> v@[k] != '.',
        decreases n - i,
    {
        i += 1;
    }
    proof {
        lemma_first_index_of_skip(v@, '.', i as int);
    }
    s.substring_char(0, i)
}

} // verus!
