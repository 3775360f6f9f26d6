//! Byte-level facts about slash-separated paths and dotted action names.
//!
//! Every rule here is about ASCII bytes (`/`, `.`, NUL). UTF-8 never places an
//! ASCII byte inside a multi-byte sequence, so reading a string's UTF-8 bytes
//! answers these questions exactly as reading its characters would.
use vstd::prelude::*;

verus! {

/// The byte `/`.
pub const SLASH: u8 = 47;

/// The byte `.`.
pub const DOT: u8 = 46;

/// The NUL byte.
pub const NUL: u8 = 0;

/// The UTF-8 bytes of a string.
pub open spec fn bytes_of(s: Seq<char>) -> Seq<u8> {
    vstd::utf8::encode_utf8(s)
}

/// The segment that starts after the slash at `i` is empty.
pub open spec fn empty_segment_at(p: Seq<u8>, i: int) -> bool {
    &&& 0 <= i < p.len()
    &&& p[i] == SLASH
    &&& (i + 1 == p.len() || p[i + 1] == SLASH)
}

/// The segment that starts after the slash at `i` is `.` or `..`.
pub open spec fn dot_segment_at(p: Seq<u8>, i: int) -> bool {
    &&& 0 <= i < p.len()
    &&& p[i] == SLASH
    &&& i + 1 < p.len()
    &&& p[i + 1] == DOT
    &&& (i + 2 == p.len() || p[i + 2] == SLASH || (p[i + 2] == DOT && (i + 3 == p.len() || p[i
        + 3] == SLASH)))
}

/// The segment after the slash at `i` is empty, `.` or `..`.
pub open spec fn bad_segment_at(p: Seq<u8>, i: int) -> bool {
    empty_segment_at(p, i) || dot_segment_at(p, i)
}

/// No segment of the path is empty, `.` or `..`.
pub open spec fn no_bad_segment(p: Seq<u8>) -> bool {
    forall|i: int| 0 <= i < p.len() ==> !#[trigger] bad_segment_at(p, i)
}

/// `i` is the first position at which a bad segment starts.
pub open spec fn first_bad_segment(p: Seq<u8>, i: int) -> bool {
    &&& bad_segment_at(p, i)
    &&& forall|j: int| 0 <= j < i ==> !#[trigger] bad_segment_at(p, j)
}

/// The path is absolute.
pub open spec fn absolute(p: Seq<u8>) -> bool {
    p.len() > 0 && p[0] == SLASH
}

/// The path is the root `/`.
pub open spec fn is_root(p: Seq<u8>) -> bool {
    p =~= seq![SLASH]
}

/// Canonical spelling: absolute, and either the root or a path whose
/// segments are all non-empty and neither `.` nor `..` (so no `//` and no
/// trailing slash).
pub open spec fn canonical(p: Seq<u8>) -> bool {
    absolute(p) && (is_root(p) || no_bad_segment(p))
}

/// Whether the byte `b` occurs in `s`.
pub open spec fn has_byte(s: Seq<u8>, b: u8) -> bool {
    exists|i: int| 0 <= i < s.len() && s[i] == b
}

/// How many times the byte `b` occurs in `s`.
pub open spec fn count_byte(s: Seq<u8>, b: u8) -> nat
    decreases s.len(),
{
    if s.len() == 0 {
        0
    } else {
        count_byte(s.drop_last(), b) + if s.last() == b {
            1nat
        } else {
            0nat
        }
    }
}

/// `s` begins with `prefix`.
pub open spec fn starts_with(s: Seq<u8>, prefix: Seq<u8>) -> bool {
    prefix.len() <= s.len() && s.subrange(0, prefix.len() as int) =~= prefix
}

/// Exact-segment membership of a dotted name in a class: the name is the
/// class, or the class followed by `.` and more.
pub open spec fn in_class_bytes(action: Seq<u8>, class: Seq<u8>) -> bool {
    action =~= class || (action.len() > class.len() && action[class.len() as int] == DOT
        && starts_with(action, class))
}

/// The UTF-8 bytes of a string slice.
pub fn str_bytes(s: &str) -> (b: &[u8])
    ensures
        b@ == bytes_of(s@),
{
    s.as_bytes()
}

/// Byte-sequence equality.
pub fn bytes_eq(a: &[u8], b: &[u8]) -> (r: bool)
    ensures
        r == (a@ =~= b@),
{
    if a.len() != b.len() {
        return false;
    }
    let mut i: usize = 0;
    while i < a.len()
        invariant
            a@.len() == b@.len(),
            0 <= i <= a@.len(),
            forall|j: int| 0 <= j < i ==> a@[j] == b@[j],
        decreases a@.len() - i,
    {
        if a[i] != b[i] {
            return false;
        }
        i = i + 1;
    }
    true
}

/// Whether `s` begins with `prefix`.
pub fn bytes_start_with(s: &[u8], prefix: &[u8]) -> (r: bool)
    ensures
        r == starts_with(s@, prefix@),
{
    if prefix.len() > s.len() {
        return false;
    }
    let mut i: usize = 0;
    while i < prefix.len()
        invariant
            prefix@.len() <= s@.len(),
            0 <= i <= prefix@.len(),
            forall|j: int| 0 <= j < i ==> s@[j] == prefix@[j],
        decreases prefix@.len() - i,
    {
        if s[i] != prefix[i] {
            assert(s@.subrange(0, prefix@.len() as int)[i as int] != prefix@[i as int]);
            return false;
        }
        i = i + 1;
    }
    assert(s@.subrange(0, prefix@.len() as int) =~= prefix@);
    true
}

/// Whether the byte `b` occurs in `s`.
pub fn contains_byte(s: &[u8], b: u8) -> (r: bool)
    ensures
        r == has_byte(s@, b),
{
    let mut i: usize = 0;
    while i < s.len()
        invariant
            0 <= i <= s@.len(),
            forall|j: int| 0 <= j < i ==> s@[j] != b,
        decreases s@.len() - i,
    {
        if s[i] == b {
            return true;
        }
        i = i + 1;
    }
    false
}

/// How many times the byte `b` occurs in `s`.
pub fn count_bytes(s: &[u8], b: u8) -> (n: usize)
    ensures
        n == count_byte(s@, b),
        n <= s@.len(),
{
    let mut n: usize = 0;
    let mut i: usize = 0;
    while i < s.len()
        invariant
            0 <= i <= s@.len(),
            n == count_byte(s@.take(i as int), b),
            n <= i,
        decreases s@.len() - i,
    {
        assert(s@.take(i + 1).drop_last() =~= s@.take(i as int));
        if s[i] == b {
            n = n + 1;
        }
        i = i + 1;
    }
    assert(s@.take(s@.len() as int) =~= s@);
    n
}

/// Whether a bad segment starts at `i`.
pub fn bad_segment(p: &[u8], i: usize) -> (r: bool)
    requires
        i < p@.len(),
    ensures
        r == bad_segment_at(p@, i as int),
        r ==> (empty_segment_at(p@, i as int) || dot_segment_at(p@, i as int)),
{
    if p[i] != SLASH {
        return false;
    }
    let n = p.len();
    if i + 1 == n || p[i + 1] == SLASH {
        return true;
    }
    if p[i + 1] != DOT {
        return false;
    }
    i + 2 == n || p[i + 2] == SLASH || (p[i + 2] == DOT && (i + 3 == n || p[i + 3] == SLASH))
}

/// The first position at which a bad segment starts, if any.
pub fn find_bad_segment(p: &[u8]) -> (r: Option<usize>)
    ensures
        r matches Some(i) ==> i < p@.len() && first_bad_segment(p@, i as int),
        r is None ==> no_bad_segment(p@),
{
    let mut i: usize = 0;
    while i < p.len()
        invariant
            0 <= i <= p@.len(),
            forall|j: int| 0 <= j < i ==> !#[trigger] bad_segment_at(p@, j),
        decreases p@.len() - i,
    {
        if bad_segment(p, i) {
            return Some(i);
        }
        i = i + 1;
    }
    None
}

/// Exact-segment class match of a dotted action name.
pub fn in_class(action: &str, class: &str) -> (r: bool)
    ensures
        r == in_class_bytes(bytes_of(action@), bytes_of(class@)),
{
    let a = str_bytes(action);
    let c = str_bytes(class);
    if bytes_eq(a, c) {
        return true;
    }
    a.len() > c.len() && a[c.len()] == DOT && bytes_start_with(a, c)
}

} // verus!
