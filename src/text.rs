//! Small string operations with exact specifications, used to build and
//! inspect command arguments, paths and messages.

use vstd::prelude::*;

verus! {

/// The texts held by a sequence of strings.
pub open spec fn strings_view(v: Seq<String>) -> Seq<Seq<char>> {
    v.map_values(|s: String| s@)
}

/// The text of an optional string.
pub open spec fn opt_text(o: Option<String>) -> Option<Seq<char>> {
    match o {
        Some(s) => Some(s@),
        None => None,
    }
}

/// `a` and `b` are the same character once ASCII upper case is folded to lower case.
pub open spec fn same_char_ignoring_ascii_case(a: char, b: char) -> bool {
    ||| a == b
    ||| ('A' <= a && a <= 'Z' && (a as u32) + 32 == (b as u32))
    ||| ('A' <= b && b <= 'Z' && (b as u32) + 32 == (a as u32))
}

/// `a` and `b` are equal once ASCII upper case is folded to lower case.
pub open spec fn eq_ignoring_ascii_case(a: Seq<char>, b: Seq<char>) -> bool {
    &&& a.len() == b.len()
    &&& forall|i: int| 0 <= i < a.len() ==> same_char_ignoring_ascii_case(#[trigger] a[i], b[i])
}

/// `s` ends with `suffix`.
pub open spec fn has_suffix(s: Seq<char>, suffix: Seq<char>) -> bool {
    suffix.len() <= s.len() && s.subrange(s.len() - suffix.len(), s.len() as int) == suffix
}

/// `s` starts with `prefix`.
pub open spec fn has_prefix(s: Seq<char>, prefix: Seq<char>) -> bool {
    prefix.len() <= s.len() && s.subrange(0, prefix.len() as int) == prefix
}

/// `s` with every single quote doubled, the quoting rule of a single-quoted
/// PowerShell string.
pub open spec fn single_quotes_doubled(s: Seq<char>) -> Seq<char>
    decreases s.len(),
{
    if s.len() == 0 {
        Seq::empty()
    } else {
        let rest = single_quotes_doubled(s.drop_last());
        if s.last() == '\'' {
            rest + seq!['\'', '\'']
        } else {
            rest.push(s.last())
        }
    }
}

pub fn concat2(a: &str, b: &str) -> (r: String)
    ensures
        r@ == a@ + b@,
{
    let mut r = String::from_str(a);
    r.append(b);
    r
}

pub fn concat3(a: &str, b: &str, c: &str) -> (r: String)
    ensures
        r@ == a@ + b@ + c@,
{
    let mut r = String::from_str(a);
    r.append(b);
    r.append(c);
    r
}

pub fn chars_equal_ignoring_ascii_case(a: char, b: char) -> (r: bool)
    ensures
        r == same_char_ignoring_ascii_case(a, b),
{
    let x = a as u32;
    let y = b as u32;
    if x == y {
        true
    } else if 65 <= x && x <= 90 {
        x + 32 == y
    } else if 65 <= y && y <= 90 {
        y + 32 == x
    } else {
        false
    }
}

pub fn equals_ignoring_ascii_case(a: &str, b: &str) -> (r: bool)
    ensures
        r == eq_ignoring_ascii_case(a@, b@),
{
    let n = a.unicode_len();
    let m = b.unicode_len();
    if n != m {
        return false;
    }
    let mut i: usize = 0;
    while i < n
        invariant
            n == a@.len(),
            m == b@.len(),
            n == m,
            i <= n,
            forall|j: int| 0 <= j < i ==> same_char_ignoring_ascii_case(#[trigger] a@[j], b@[j]),
        decreases n - i,
    {
        if !chars_equal_ignoring_ascii_case(a.get_char(i), b.get_char(i)) {
            return false;
        }
        i = i + 1;
    }
    true
}

/// Whether `a` and `b` hold the same characters.
pub fn texts_equal(a: &str, b: &str) -> (r: bool)
    ensures
        r == (a@ == b@),
{
    let n = a.unicode_len();
    if n != b.unicode_len() {
        return false;
    }
    let mut i: usize = 0;
    while i < n
        invariant
            n == a@.len(),
            n == b@.len(),
            i <= n,
            forall|j: int| 0 <= j < i ==> #[trigger] a@[j] == b@[j],
        decreases n - i,
    {
        if a.get_char(i) != b.get_char(i) {
            return false;
        }
        i = i + 1;
    }
    assert(a@ =~= b@);
    true
}

/// Whether `s` ends with `suffix`, character for character.
pub fn ends_with(s: &str, suffix: &str) -> (r: bool)
    ensures
        r == has_suffix(s@, suffix@),
{
    let n = s.unicode_len();
    let k = suffix.unicode_len();
    if k > n {
        return false;
    }
    let start = n - k;
    let mut i: usize = 0;
    while i < k
        invariant
            n == s@.len(),
            k == suffix@.len(),
            start == n - k,
            i <= k,
            forall|j: int| 0 <= j < i ==> #[trigger] suffix@[j] == s@[start + j],
        decreases k - i,
    {
        if s.get_char(start + i) != suffix.get_char(i) {
            assert(s@.subrange(start as int, n as int)[i as int] != suffix@[i as int]);
            return false;
        }
        i = i + 1;
    }
    assert(s@.subrange(start as int, n as int) =~= suffix@);
    true
}

/// Whether `s` starts with `prefix`, character for character.
pub fn starts_with(s: &str, prefix: &str) -> (r: bool)
    ensures
        r == has_prefix(s@, prefix@),
{
    let n = s.unicode_len();
    let k = prefix.unicode_len();
    if k > n {
        return false;
    }
    let mut i: usize = 0;
    while i < k
        invariant
            n == s@.len(),
            k == prefix@.len(),
            k <= n,
            i <= k,
            forall|j: int| 0 <= j < i ==> #[trigger] prefix@[j] == s@[j],
        decreases k - i,
    {
        if s.get_char(i) != prefix.get_char(i) {
            assert(s@.subrange(0, k as int)[i as int] != prefix@[i as int]);
            return false;
        }
        i = i + 1;
    }
    assert(s@.subrange(0, k as int) =~= prefix@);
    true
}

/// The first `len` characters of `s`.
pub fn prefix_of(s: &str, len: usize) -> (r: String)
    requires
        len <= s@.len(),
    ensures
        r@ == s@.subrange(0, len as int),
{
    String::from_str(s.substring_char(0, len))
}

/// `s` with every single quote doubled, so that it can stand inside a
/// single-quoted PowerShell string.
pub fn double_single_quotes(s: &str) -> (r: String)
    ensures
        r@ == single_quotes_doubled(s@),
{
    let n = s.unicode_len();
    let mut r = String::new();
    let mut i: usize = 0;
    proof {
        reveal_strlit("''");
        assert(s@.subrange(0, 0) =~= Seq::<char>::empty());
    }
    while i < n
        invariant
            n == s@.len(),
            i <= n,
            r@ == single_quotes_doubled(s@.subrange(0, i as int)),
            "''"@ == seq!['\'', '\''],
        decreases n - i,
    {
        let c = s.get_char(i);
        let piece = s.substring_char(i, i + 1);
        proof {
            let next = s@.subrange(0, i + 1);
            assert(next.drop_last() =~= s@.subrange(0, i as int));
            assert(next.last() == c);
            assert(piece@ =~= seq![c]);
        }
        if c == '\'' {
            r.append("''");
        } else {
            r.append(piece);
        }
        i = i + 1;
    }
    assert(s@.subrange(0, n as int) =~= s@);
    r
}

/// `needle` occurs in `hay` as a contiguous run.
pub open spec fn contains_text(hay: Seq<char>, needle: Seq<char>) -> bool {
    exists|k: int| 0 <= k && k + needle.len() <= hay.len() && #[trigger] hay.subrange(k, k + needle.len()) == needle
}

pub proof fn lemma_contains_in_concat(a: Seq<char>, b: Seq<char>, needle: Seq<char>)
    ensures
        contains_text(a, needle) ==> contains_text(a + b, needle),
        contains_text(b, needle) ==> contains_text(a + b, needle),
{
    if contains_text(a, needle) {
        let k = choose|k: int| 0 <= k && k + needle.len() <= a.len() && #[trigger] a.subrange(k, k + needle.len()) == needle;
        assert((a + b).subrange(k, k + needle.len()) =~= a.subrange(k, k + needle.len()));
    }
    if contains_text(b, needle) {
        let k = choose|k: int| 0 <= k && k + needle.len() <= b.len() && #[trigger] b.subrange(k, k + needle.len()) == needle;
        assert((a + b).subrange(a.len() + k, a.len() + k + needle.len()) =~= b.subrange(k, k + needle.len()));
    }
}

/// Whether `needle` occurs in `hay` as a contiguous run.
pub fn contains(hay: &str, needle: &str) -> (r: bool)
    ensures
        r == contains_text(hay@, needle@),
{
    let n = hay.unicode_len();
    let m = needle.unicode_len();
    if m > n {
        return false;
    }
    if m == 0 {
        assert(hay@.subrange(0, 0 + needle@.len() as int) =~= needle@);
        return true;
    }
    let mut k: usize = 0;
    while k <= n - m
        invariant
            n == hay@.len(),
            m == needle@.len(),
            1 <= m <= n,
            forall|j: int| 0 <= j < k ==> #[trigger] hay@.subrange(j, j + m) != needle@,
        decreases n - m + 1 - k,
    {
        let mut i: usize = 0;
        let mut same = true;
        while i < m
            invariant
                n == hay@.len(),
                m == needle@.len(),
                k + m <= n,
                i <= m,
                same ==> forall|j: int| 0 <= j < i ==> #[trigger] needle@[j] == hay@[k + j],
                !same ==> hay@.subrange(k as int, k + m) != needle@,
            decreases m - i,
        {
            if same && hay.get_char(k + i) != needle.get_char(i) {
                assert(hay@.subrange(k as int, k + m)[i as int] != needle@[i as int]);
                same = false;
            }
            i = i + 1;
        }
        if same {
            assert(hay@.subrange(k as int, k + m) =~= needle@);
            return true;
        }
        k = k + 1;
    }
    assert forall|j: int| 0 <= j && j + needle@.len() <= hay@.len() implies #[trigger] hay@.subrange(j, j + needle@.len()) != needle@ by {
        assert(j < k);
    }
    false
}

} // verus!
