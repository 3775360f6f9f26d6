//! The compiled-in classification systems, keyed by name. Configuration
//! names a system this build carries; it never adds one, and a name this
//! build does not carry refuses boot.
use vstd::prelude::*;

verus! {

/// Every system this build carries, the kernel's own US system first. Order
/// is not precedence: selection is by name, and names are unique.
pub const SYSTEM_NAMES: [&'static str; 2] = ["US", "AUS"];

/// The registry's names, in order.
pub open spec fn registry() -> Seq<Seq<char>> {
    seq!["US"@, "AUS"@]
}

/// The names this build carries, in registry order.
pub fn names() -> (r: Vec<&'static str>)
    ensures
        r@.len() == registry().len(),
        forall|i: int| 0 <= i < r@.len() ==> #[trigger] r@[i]@ == registry()[i],
{
    let mut r: Vec<&'static str> = Vec::new();
    r.push("US");
    r.push("AUS");
    r
}

/// White space as `char::is_whitespace` has it (the Unicode `White_Space`
/// property).
pub open spec fn is_space(c: char) -> bool {
    let v = c as u32;
    ||| 9 <= v <= 13
    ||| v == 32
    ||| v == 0x85
    ||| v == 0xA0
    ||| v == 0x1680
    ||| 0x2000 <= v <= 0x200A
    ||| v == 0x2028
    ||| v == 0x2029
    ||| v == 0x202F
    ||| v == 0x205F
    ||| v == 0x3000
}

/// `s` without its leading and trailing white space: the characters from
/// `lo` to `hi` when every character outside that range is white space and
/// the range begins and ends with a character that is not (an all-space
/// string trims to the empty range at its end).
pub open spec fn trimmed_range(s: Seq<char>, lo: int, hi: int) -> bool {
    &&& 0 <= lo <= hi <= s.len()
    &&& forall|i: int| 0 <= i < lo ==> is_space(#[trigger] s[i])
    &&& forall|i: int| hi <= i < s.len() ==> is_space(#[trigger] s[i])
    &&& lo < hi ==> !is_space(s[lo]) && !is_space(s[hi - 1])
    &&& lo == hi ==> lo == s.len()
}

/// ASCII case folding of one character.
pub open spec fn fold(c: char) -> u32 {
    if 65 <= c as u32 <= 90 {
        (c as u32 + 32) as u32
    } else {
        c as u32
    }
}

/// Equality ignoring ASCII case.
pub open spec fn eq_ignore_ascii_case(a: Seq<char>, b: Seq<char>) -> bool {
    a.len() == b.len() && forall|i: int| 0 <= i < a.len() ==> fold(#[trigger] a[i]) == fold(b[i])
}

/// `name` selects the registry entry `k`: its trimmed text equals that
/// entry's name ignoring ASCII case, and no earlier entry's.
pub open spec fn selects(name: Seq<char>, k: int) -> bool {
    exists|lo: int, hi: int|
        #![trigger trimmed_range(name, lo, hi)]
        trimmed_range(name, lo, hi) && 0 <= k < registry().len() && eq_ignore_ascii_case(
            name.subrange(lo, hi),
            registry()[k],
        ) && forall|j: int|
            0 <= j < k ==> !eq_ignore_ascii_case(name.subrange(lo, hi), #[trigger] registry()[j])
}

/// The trimmed range of a string is unique.
pub proof fn lemma_trimmed_range_unique(s: Seq<char>, lo1: int, hi1: int, lo2: int, hi2: int)
    requires
        trimmed_range(s, lo1, hi1),
        trimmed_range(s, lo2, hi2),
    ensures
        lo1 == lo2 && hi1 == hi2,
{
    if lo1 < hi1 {
        if lo2 == hi2 {
            assert(is_space(s[lo1]));
        } else {
            if lo1 < lo2 {
                assert(is_space(s[lo1]));
            }
            if lo2 < lo1 {
                assert(is_space(s[lo2]));
            }
            if hi1 < hi2 {
                assert(is_space(s[hi2 - 1]));
            }
            if hi2 < hi1 {
                assert(is_space(s[hi1 - 1]));
            }
        }
    } else if lo2 < hi2 {
        assert(is_space(s[lo2]));
    } else {
        if lo1 < lo2 {
            assert(false);
        }
    }
}

/// Whether a character is white space.
fn char_is_space(c: char) -> (r: bool)
    ensures
        r == is_space(c),
{
    let v = c as u32;
    (9 <= v && v <= 13) || v == 32 || v == 0x85 || v == 0xA0 || v == 0x1680 || (0x2000 <= v && v
        <= 0x200A) || v == 0x2028 || v == 0x2029 || v == 0x202F || v == 0x205F || v == 0x3000
}

/// The bounds of a string's text without its leading and trailing white space.
fn trim_bounds(s: &str) -> (r: (usize, usize))
    ensures
        trimmed_range(s@, r.0 as int, r.1 as int),
{
    let n = s.unicode_len();
    let mut lo: usize = 0;
    while lo < n && char_is_space(s.get_char(lo))
        invariant
            n == s@.len(),
            0 <= lo <= n,
            forall|i: int| 0 <= i < lo ==> is_space(#[trigger] s@[i]),
        decreases n - lo,
    {
        lo = lo + 1;
    }
    if lo == n {
        return (n, n);
    }
    let mut hi: usize = n;
    while hi > lo && char_is_space(s.get_char(hi - 1))
        invariant
            n == s@.len(),
            lo < n,
            !is_space(s@[lo as int]),
            lo <= hi <= n,
            forall|i: int| 0 <= i < lo ==> is_space(#[trigger] s@[i]),
            forall|i: int| hi <= i < n ==> is_space(#[trigger] s@[i]),
        decreases hi - lo,
    {
        hi = hi - 1;
    }
    (lo, hi)
}

/// ASCII case folding of one character.
fn fold_char(c: char) -> (r: u32)
    ensures
        r == fold(c),
{
    let v = c as u32;
    if 65 <= v && v <= 90 {
        v + 32
    } else {
        v
    }
}

/// Whether the characters of `s` from `lo` to `hi` equal `target` ignoring
/// ASCII case.
fn range_eq_ignore_ascii_case(s: &str, lo: usize, hi: usize, target: &str) -> (r: bool)
    requires
        lo <= hi <= s@.len(),
    ensures
        r == eq_ignore_ascii_case(s@.subrange(lo as int, hi as int), target@),
{
    let tn = target.unicode_len();
    if hi - lo != tn {
        return false;
    }
    let mut i: usize = 0;
    while i < tn
        invariant
            lo <= hi <= s@.len(),
            tn == target@.len(),
            hi - lo == tn,
            0 <= i <= tn,
            forall|j: int| 0 <= j < i ==> fold(s@[lo + j]) == fold(target@[j]),
        decreases tn - i,
    {
        if fold_char(s.get_char(lo + i)) != fold_char(target.get_char(i)) {
            assert(s@.subrange(lo as int, hi as int)[i as int] == s@[lo + i]);
            return false;
        }
        i = i + 1;
    }
    assert forall|j: int| 0 <= j < tn implies fold(
        #[trigger] s@.subrange(lo as int, hi as int)[j],
    ) == fold(target@[j]) by {
        assert(s@.subrange(lo as int, hi as int)[j] == s@[lo + j]);
    }
    true
}

/// The system `name` selects, matched ignoring ASCII case on the trimmed
/// name, or `None` when this build carries no such system.
pub fn select(name: &str) -> (r: Option<&'static str>)
    ensures
        r matches Some(n) ==> exists|k: int| selects(name@, k) && n@ == #[trigger] registry()[k],
        r is None ==> forall|k: int| 0 <= k < registry().len() ==> !#[trigger] selects(name@, k),
{
    let (lo, hi) = trim_bounds(name);
    proof {
        assert forall|lo2: int, hi2: int| #[trigger]
            trimmed_range(name@, lo2, hi2) implies lo2 == lo && hi2 == hi by {
            lemma_trimmed_range_unique(name@, lo as int, hi as int, lo2, hi2);
        }
    }
    if range_eq_ignore_ascii_case(name, lo, hi, "US") {
        assert(selects(name@, 0));
        return Some("US");
    }
    if range_eq_ignore_ascii_case(name, lo, hi, "AUS") {
        assert(selects(name@, 1));
        return Some("AUS");
    }
    None
}

} // verus!
