//! Verified helpers for working with strings character by character:
//! case-insensitive comparison, trimming, and joining with a separator.

use vstd::prelude::*;
use vstd::string::StrSliceExecFns;
use vstd::string::StringExecFns;

verus! {

/// Code point of a character after folding an ASCII upper-case letter to
/// lower case; other characters keep their own code point.
pub open spec fn lower_code(c: char) -> int {
    if 65 <= c as int && c as int <= 90 {
        c as int + 32
    } else {
        c as int
    }
}

/// Two characters are equal up to ASCII case.
pub open spec fn chars_eq_nocase(a: char, b: char) -> bool {
    lower_code(a) == lower_code(b)
}

/// Two character sequences are equal up to ASCII case.
pub open spec fn eq_ignore_ascii_case(a: Seq<char>, b: Seq<char>) -> bool {
    &&& a.len() == b.len()
    &&& forall|i: int| 0 <= i < a.len() ==> chars_eq_nocase(a[i], b[i])
}

/// Compares two strings for equality up to ASCII case.
pub fn str_eq_ignore_ascii_case(a: &str, b: &str) -> (r: bool)
    ensures
        r == eq_ignore_ascii_case(a@, b@),
{
    let alen = a.unicode_len();
    let blen = b.unicode_len();
    if alen != blen {
        return false;
    }
    for i in 0..alen
        invariant
            alen == a@.len(),
            blen == b@.len(),
            alen == blen,
            forall|j: int| 0 <= j < i ==> chars_eq_nocase(a@[j], b@[j]),
    {
        let va = a.get_char(i) as u32;
        let vb = b.get_char(i) as u32;
        let la = if 65 <= va && va <= 90 { va + 32 } else { va };
        let lb = if 65 <= vb && vb <= 90 { vb + 32 } else { vb };
        if la != lb {
            return false;
        }
    }
    true
}

/// Compares two strings for exact equality.
pub fn str_eq(a: &str, b: &str) -> (r: bool)
    ensures
        r == (a@ == b@),
{
    let alen = a.unicode_len();
    let blen = b.unicode_len();
    if alen != blen {
        return false;
    }
    for i in 0..alen
        invariant
            alen == a@.len(),
            blen == b@.len(),
            alen == blen,
            forall|j: int| 0 <= j < i ==> a@[j] == b@[j],
    {
        if a.get_char(i) != b.get_char(i) {
            return false;
        }
    }
    proof {
        assert(a@ =~= b@);
    }
    true
}

/// The Unicode white-space characters, as `str::trim` removes them.
pub open spec fn is_space_char(c: char) -> bool {
    let v = c as int;
    v == 9 || v == 10 || v == 11 || v == 12 || v == 13 || v == 32 || v == 0x85 || v == 0xA0 || v
        == 0x1680 || (0x2000 <= v && v <= 0x200A) || v == 0x2028 || v == 0x2029 || v == 0x202F || v
        == 0x205F || v == 0x3000
}

pub(crate) fn is_space_char_exec(c: char) -> (r: bool)
    ensures
        r == is_space_char(c),
{
    let v = c as u32;
    v == 9 || v == 10 || v == 11 || v == 12 || v == 13 || v == 32 || v == 0x85 || v == 0xA0 || v
        == 0x1680 || (0x2000 <= v && v <= 0x200A) || v == 0x2028 || v == 0x2029 || v == 0x202F || v
        == 0x205F || v == 0x3000
}

/// The sequence with leading white space removed.
pub open spec fn spec_trim_start(s: Seq<char>) -> Seq<char>
    decreases s.len(),
{
    if s.len() > 0 && is_space_char(s.first()) {
        spec_trim_start(s.drop_first())
    } else {
        s
    }
}

/// The sequence with trailing white space removed.
pub open spec fn spec_trim_end(s: Seq<char>) -> Seq<char>
    decreases s.len(),
{
    if s.len() > 0 && is_space_char(s.last()) {
        spec_trim_end(s.drop_last())
    } else {
        s
    }
}

/// The sequence with white space removed at both ends.
pub open spec fn spec_trim(s: Seq<char>) -> Seq<char> {
    spec_trim_end(spec_trim_start(s))
}

/// Dropping leading spaces is the same as skipping to the first character
/// that is not a space.
proof fn lemma_trim_start_skip(s: Seq<char>, i: int)
    requires
        0 <= i <= s.len(),
        forall|j: int| 0 <= j < i ==> is_space_char(s[j]),
        i < s.len() ==> !is_space_char(s[i]),
    ensures
        spec_trim_start(s) == s.skip(i),
    decreases i,
{
    if i == 0 {
        assert(s.skip(0) =~= s);
    } else {
        lemma_trim_start_skip(s.drop_first(), i - 1);
        assert(s.drop_first().skip(i - 1) =~= s.skip(i));
    }
}

/// Dropping trailing spaces is the same as taking up to the last character
/// that is not a space.
proof fn lemma_trim_end_take(s: Seq<char>, j: int)
    requires
        0 <= j <= s.len(),
        forall|k: int| j <= k < s.len() ==> is_space_char(s[k]),
        j > 0 ==> !is_space_char(s[j - 1]),
    ensures
        spec_trim_end(s) == s.take(j),
    decreases s.len(),
{
    if j == s.len() {
        if s.len() > 0 {
            assert(!is_space_char(s.last()));
        }
        assert(s.take(j) =~= s);
    } else {
        assert(is_space_char(s.last()));
        lemma_trim_end_take(s.drop_last(), j);
        assert(s.drop_last().take(j) =~= s.take(j));
    }
}

/// Removes white space from both ends of a string.
pub fn trim_text(s: &str) -> (r: String)
    ensures
        r@ == spec_trim(s@),
{
    let n = s.unicode_len();
    let mut start: usize = 0;
    while start < n && is_space_char_exec(s.get_char(start))
        invariant
            0 <= start <= n,
            n == s@.len(),
            forall|j: int| 0 <= j < start ==> is_space_char(s@[j]),
        decreases n - start,
    {
        start = start + 1;
    }
    let mut end: usize = n;
    while end > start && is_space_char_exec(s.get_char(end - 1))
        invariant
            start <= end <= n,
            n == s@.len(),
            forall|k: int| end <= k < n ==> is_space_char(s@[k]),
        decreases end,
    {
        end = end - 1;
    }
    let out = s.substring_char(start, end);
    proof {
        lemma_trim_start_skip(s@, start as int);
        lemma_trim_end_take(s@.skip(start as int), end - start);
        assert(s@.skip(start as int).take(end - start) =~= s@.subrange(start as int, end as int));
    }
    String::from_str(out)
}

/// The items joined by one separator character between each neighbouring
/// pair.
pub open spec fn spec_join_with(items: Seq<Seq<char>>, separator: char) -> Seq<char>
    decreases items.len(),
{
    if items.len() == 0 {
        Seq::empty()
    } else if items.len() == 1 {
        items[0]
    } else {
        spec_join_with(items.drop_last(), separator) + seq![separator] + items.last()
    }
}

/// Joins strings with a one-character separator.
pub fn join_with(items: &Vec<String>, separator: &str) -> (r: String)
    requires
        separator@.len() == 1,
    ensures
        r@ == spec_join_with(items.deep_view(), separator@[0]),
{
    let mut out = String::new();
    let n = items.len();
    for i in 0..n
        invariant
            n == items@.len(),
            separator@.len() == 1,
            out@ == spec_join_with(items.deep_view().take(i as int), separator@[0]),
    {
        if i > 0 {
            out.append(separator);
        }
        out.append(items[i].as_str());
        proof {
            assert(separator@ =~= seq![separator@[0]]);
            assert(items.deep_view().take(i + 1).drop_last() =~= items.deep_view().take(i as int));
            assert(items.deep_view().take(i + 1).last() == items.deep_view()[i as int]);
            assert(out@ =~= spec_join_with(items.deep_view().take(i + 1), separator@[0]));
        }
    }
    proof {
        assert(items.deep_view().take(n as int) =~= items.deep_view());
    }
    out
}

} // verus!
