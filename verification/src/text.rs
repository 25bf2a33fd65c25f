//! Character-level helpers on strings: substring search, prefix test,
//! Unicode whitespace trimming and lower-casing.

use vstd::prelude::*;

verus! {

broadcast use vstd::string::group_string_axioms;

/// The characters of `s`, in order.
pub fn chars_of(s: &str) -> (r: Vec<char>)
    ensures
        r@ == s@,
{
    let mut r: Vec<char> = Vec::new();
    for c in it: s.chars()
        invariant
            r@ == it.seq().take(it.index() as int),
            it.seq() == s@,
    {
        r.push(c);
    }
    r
}

/// `needle` occurs in `hay` as a contiguous run of characters.
pub open spec fn contains_seq(hay: Seq<char>, needle: Seq<char>) -> bool {
    exists|i: int|
        0 <= i && i + needle.len() <= hay.len() && #[trigger] hay.subrange(i, i + needle.len())
            == needle
}

/// `prefix` is a prefix of `s`.
pub open spec fn starts_with_seq(s: Seq<char>, prefix: Seq<char>) -> bool {
    prefix.len() <= s.len() && s.subrange(0, prefix.len() as int) == prefix
}

/// Substring search over characters (what `str::contains` computes for a string pattern).
pub fn contains(hay: &str, needle: &str) -> (r: bool)
    ensures
        r == contains_seq(hay@, needle@),
{
    let hv = chars_of(hay);
    let nv = chars_of(needle);
    let n = hv.len();
    let m = nv.len();
    if m > n {
        return false;
    }
    if m == 0 {
        assert(hay@.subrange(0int, 0int + needle@.len()) =~= needle@);
        return true;
    }
    let mut i: usize = 0;
    while i <= n - m
        invariant
            hv@ == hay@,
            nv@ == needle@,
            n == hv.len(),
            m == nv.len(),
            1 <= m <= n,
            i <= n - m + 1,
            forall|j: int| 0 <= j < i ==> #[trigger] hv@.subrange(j, j + nv@.len()) != nv@,
        decreases n - m + 1 - i,
    {
        let mut k: usize = 0;
        let mut all_match = true;
        while k < m
            invariant
                hv@ == hay@,
                nv@ == needle@,
                n == hv.len(),
                m == nv.len(),
                m <= n,
                i <= n - m,
                k <= m,
                all_match ==> forall|t: int| 0 <= t < k ==> hv@[i + t] == nv@[t],
                !all_match ==> hv@.subrange(i as int, i + nv@.len()) != nv@,
            decreases m - k,
        {
            if hv[i + k] != nv[k] {
                if all_match {
                    assert(hv@.subrange(i as int, i + nv@.len())[k as int] != nv@[k as int]);
                }
                all_match = false;
            }
            k = k + 1;
        }
        if all_match {
            assert(hv@.subrange(i as int, i + nv@.len()) =~= nv@);
            return true;
        }
        i = i + 1;
    }
    false
}

/// Prefix test over characters (what `str::starts_with` computes for a string pattern).
pub fn starts_with(s: &str, prefix: &str) -> (r: bool)
    ensures
        r == starts_with_seq(s@, prefix@),
{
    let sv = chars_of(s);
    let pv = chars_of(prefix);
    if pv.len() > sv.len() {
        return false;
    }
    let mut k: usize = 0;
    while k < pv.len()
        invariant
            sv@ == s@,
            pv@ == prefix@,
            pv.len() <= sv.len(),
            k <= pv.len(),
            forall|t: int| 0 <= t < k ==> sv@[t] == pv@[t],
        decreases pv.len() - k,
    {
        if sv[k] != pv[k] {
            assert(sv@.subrange(0, pv@.len() as int)[k as int] != pv@[k as int]);
            return false;
        }
        k = k + 1;
    }
    assert(sv@.subrange(0, pv@.len() as int) =~= pv@);
    true
}

/// The Unicode `White_Space` property (the whitespace of `char::is_whitespace`).
pub open spec fn is_white_space(c: char) -> bool {
    let u = c as u32;
    (0x09 <= u <= 0x0D) || u == 0x20 || u == 0x85 || u == 0xA0 || u == 0x1680 || (0x2000 <= u
        <= 0x200A) || u == 0x2028 || u == 0x2029 || u == 0x202F || u == 0x205F || u == 0x3000
}

/// Executable test of [`is_white_space`].
pub fn is_whitespace_char(c: char) -> (r: bool)
    ensures
        r == is_white_space(c),
{
    let u = c as u32;
    (0x09 <= u && u <= 0x0D) || u == 0x20 || u == 0x85 || u == 0xA0 || u == 0x1680 || (0x2000 <= u
        && u <= 0x200A) || u == 0x2028 || u == 0x2029 || u == 0x202F || u == 0x205F || u == 0x3000
}

/// `s` without its leading whitespace.
pub open spec fn trim_front(s: Seq<char>) -> Seq<char>
    decreases s.len(),
{
    if s.len() > 0 && is_white_space(s[0]) {
        trim_front(s.drop_first())
    } else {
        s
    }
}

/// `s` without its trailing whitespace.
pub open spec fn trim_back(s: Seq<char>) -> Seq<char>
    decreases s.len(),
{
    if s.len() > 0 && is_white_space(s.last()) {
        trim_back(s.drop_last())
    } else {
        s
    }
}

/// `s` without leading and trailing whitespace (what `str::trim` computes).
pub open spec fn trimmed(s: Seq<char>) -> Seq<char> {
    trim_back(trim_front(s))
}

/// Removes leading and trailing Unicode whitespace.
pub fn trim(s: &str) -> (r: String)
    ensures
        r@ == trimmed(s@),
{
    let v = chars_of(s);
    let n = v.len();
    let mut i: usize = 0;
    assert(v@.subrange(0, n as int) =~= v@);
    while i < n && is_whitespace_char(v[i])
        invariant
            v@ == s@,
            n == v.len(),
            i <= n,
            trim_front(v@) == trim_front(v@.subrange(i as int, n as int)),
        decreases n - i,
    {
        assert(v@.subrange(i as int, n as int).drop_first() =~= v@.subrange(i + 1, n as int));
        i = i + 1;
    }
    assert(trim_front(v@) == v@.subrange(i as int, n as int)) by {
        if i == n {
            assert(v@.subrange(i as int, n as int).len() == 0);
        }
    }
    let mut j: usize = n;
    while j > i && is_whitespace_char(v[j - 1])
        invariant
            v@ == s@,
            n == v.len(),
            i <= j <= n,
            trim_back(v@.subrange(i as int, n as int)) == trim_back(
                v@.subrange(i as int, j as int),
            ),
        decreases j - i,
    {
        assert(v@.subrange(i as int, j as int).drop_last() =~= v@.subrange(i as int, j - 1));
        j = j - 1;
    }
    assert(trim_back(v@.subrange(i as int, j as int)) == v@.subrange(i as int, j as int)) by {
        if j == i {
            assert(v@.subrange(i as int, j as int).len() == 0);
        }
    }
    let sub = s.substring_char(i, j);
    sub.to_owned()
}

/// What `str::to_lowercase` returns for a string, by Unicode's lowercase mapping.
pub uninterp spec fn lowercase(s: Seq<char>) -> Seq<char>;

/// Calls `str::to_lowercase`. Claims only that the result is a function of the
/// argument's characters, named [`lowercase`]; the Unicode mapping itself is not stated.
#[verifier::external_body]
pub(crate) fn to_lower(s: &str) -> (r: String)
    ensures
        r@ == lowercase(s@),
{
    s.to_lowercase()
}

} // verus!
