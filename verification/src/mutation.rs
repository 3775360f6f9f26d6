//! Mutation preparation decisions. The caller verifies the subject's
//! delegated descriptor (an I/O step); these functions decide whether a
//! mutation may be attempted at all, what must be verified, and, from the
//! verified location, which paths are authorized and under which scope.
use crate::handler::{discharge_plan, honorable, lexical_pregate, pregate_refusal, Obligation, Verb, WriteMode};
use crate::mutation_exchange::{EffectEntry, MutationReport, MutationScope, ReportedEffect, ReportedFinish, MAX_MUTATION_DEPTH, MAX_MUTATION_PATH_BYTES};
use crate::paths::{bytes_eq, bytes_of, contains_byte, has_byte, str_bytes, DOT, NUL, SLASH};
use vstd::prelude::*;

verus! {

/// The filesystem operation a mutation performs.
#[derive(Debug, Clone, Copy, PartialEq, Eq, Structural)]
pub enum FsOperation {
    WriteExisting,
    WriteCreate,
    DeleteEntry,
    DeleteTree,
    Mkdir,
}

/// The path a mutation verb names, if it is one.
pub open spec fn mutation_path(verb: Verb) -> Option<String> {
    match verb {
        Verb::FsWrite { path, .. } => Some(path),
        Verb::FsDelete { path, .. } => Some(path),
        Verb::FsMkdir { path, .. } => Some(path),
        _ => None,
    }
}

/// The path a mutation verb names, if it is one.
pub fn path(verb: &Verb) -> (r: Option<&str>)
    ensures
        r matches Some(p) ==> mutation_path(*verb) matches Some(q) && p@ == q@,
        r is None <==> mutation_path(*verb) is None,
{
    match verb {
        Verb::FsWrite { path, .. } => Some(path.as_str()),
        Verb::FsDelete { path, .. } => Some(path.as_str()),
        Verb::FsMkdir { path, .. } => Some(path.as_str()),
        _ => None,
    }
}

/// A component that names exactly one directory entry: non-empty, neither
/// `.` nor `..`, and without `/` or NUL.
pub open spec fn normal_bytes(c: Seq<u8>) -> bool {
    &&& c.len() > 0
    &&& c != seq![DOT]
    &&& c != seq![DOT, DOT]
    &&& !has_byte(c, SLASH)
    &&& !has_byte(c, NUL)
}

/// Whether a component names exactly one directory entry.
pub fn normal(component: &str) -> (r: bool)
    ensures
        r == normal_bytes(bytes_of(component@)),
{
    let c = str_bytes(component);
    if c.len() == 0 {
        return false;
    }
    if c.len() == 1 && c[0] == DOT {
        assert(c@ =~= seq![DOT]);
        return false;
    }
    if c.len() == 2 && c[0] == DOT && c[1] == DOT {
        assert(c@ =~= seq![DOT, DOT]);
        return false;
    }
    !contains_byte(c, SLASH) && !contains_byte(c, NUL)
}

/// Why a mutation path is refused: over the length bound or holding NUL,
/// and otherwise the read path pre-gate's reason.
pub open spec fn path_refusal(p: Seq<u8>) -> Option<Seq<char>> {
    if p.len() > MAX_MUTATION_PATH_BYTES || has_byte(p, NUL) {
        Some("mutation path limit or NUL"@)
    } else {
        pregate_refusal(p)
    }
}

/// Check a mutation path.
pub fn checked(path: &str) -> (r: Result<(), String>)
    ensures
        r is Ok <==> path_refusal(bytes_of(path@)) is None,
        r matches Err(m) ==> path_refusal(bytes_of(path@)) == Some(m@),
{
    let p = str_bytes(path);
    if p.len() > MAX_MUTATION_PATH_BYTES || contains_byte(p, NUL) {
        return Err(String::from_str("mutation path limit or NUL"));
    }
    match lexical_pregate(path) {
        Ok(()) => Ok(()),
        Err(m) => Err(String::from_str(m)),
    }
}

/// What the caller must verify about the delegated descriptor before the
/// mutation can be planned.
#[derive(Debug, Clone, Copy, PartialEq, Eq, Structural)]
pub enum Evidence {
    /// An existing, writable object (a write to an existing file).
    WritableObject,
    /// The directory the namespace change happens in.
    Directory,
}

/// The first refusal of a mutation request before any evidence is taken.
pub open spec fn admission_refusal(verb: Verb, lane_is_local: bool, has_descriptor: bool) -> Option<
    Seq<char>,
> {
    match mutation_path(verb) {
        None => Some("not a mutation"@),
        Some(p) => if path_refusal(bytes_of(p@)) is Some {
            path_refusal(bytes_of(p@))
        } else if !lane_is_local {
            Some("mutation requires local subject execution"@)
        } else if !has_descriptor {
            Some("mutation descriptor missing"@)
        } else {
            None
        },
    }
}

/// The evidence each admitted verb needs.
pub open spec fn evidence_for(verb: Verb) -> Evidence {
    match verb {
        Verb::FsWrite { mode: WriteMode::Existing, .. } => Evidence::WritableObject,
        _ => Evidence::Directory,
    }
}

/// Admit a mutation request: it names a path that passes the checks, comes
/// from the local lane, and delegated a descriptor. On admission, the
/// evidence the descriptor must be verified as.
pub fn admission(verb: &Verb, lane_is_local: bool, has_descriptor: bool) -> (r: Result<Evidence, String>)
    ensures
        r is Ok <==> admission_refusal(*verb, lane_is_local, has_descriptor) is None,
        r matches Err(m) ==> admission_refusal(*verb, lane_is_local, has_descriptor) == Some(m@),
        r matches Ok(e) ==> e == evidence_for(*verb),
{
    let asked = match path(verb) {
        Some(p) => p,
        None => return Err(String::from_str("not a mutation")),
    };
    checked(asked)?;
    if !lane_is_local {
        return Err(String::from_str("mutation requires local subject execution"));
    }
    if !has_descriptor {
        return Err(String::from_str("mutation descriptor missing"));
    }
    match verb {
        Verb::FsWrite { mode: WriteMode::Existing, .. } => Ok(Evidence::WritableObject),
        _ => Ok(Evidence::Directory),
    }
}

/// What a prepared mutation operates on.
#[derive(Debug, Clone)]
pub enum Operation {
    /// An existing writable object, replaced by the daemon.
    Existing,
    /// A namespace change the subject performs and reports under a scope.
    Namespace { scope: MutationScope },
}

/// A prepared mutation: its operation, the paths to authorize (the mutated
/// one last), and its kind.
#[derive(Debug, Clone)]
pub struct PreparedMutation {
    pub operation: Operation,
    pub paths: Vec<String>,
    pub kind: FsOperation,
}

/// Plan a write to an existing object at the path its verified descriptor
/// reports.
pub fn plan_existing(object_path: &str) -> (r: Result<PreparedMutation, String>)
    ensures
        r is Ok <==> path_refusal(bytes_of(object_path@)) is None,
        r matches Err(m) ==> path_refusal(bytes_of(object_path@)) == Some(m@),
        r matches Ok(p) ==> p.kind == FsOperation::WriteExisting && p.operation is Existing
            && p.paths@.len() == 1 && p.paths@[0]@ == object_path@,
{
    checked(object_path)?;
    let mut paths: Vec<String> = Vec::new();
    paths.push(String::from_str(object_path));
    Ok(PreparedMutation { operation: Operation::Existing, paths, kind: FsOperation::WriteExisting })
}

/// `child` appended to `base` as one more path component.
pub open spec fn join_component(base: Seq<char>, child: Seq<char>) -> Seq<char> {
    if base.len() == 0 {
        child
    } else if base.last() == '/' {
        base + child
    } else {
        base + "/"@ + child
    }
}

/// The paths obtained by pushing each component in turn onto `base`.
pub open spec fn pushed(base: Seq<char>, components: Seq<Seq<char>>) -> Seq<Seq<char>>
    decreases components.len(),
{
    if components.len() == 0 {
        Seq::empty()
    } else {
        let prev = pushed(base, components.drop_last());
        let cur = if prev.len() == 0 {
            base
        } else {
            prev.last()
        };
        prev.push(join_component(cur, components.last()))
    }
}

/// The text `/c1/c2/.../ck` of a component list.
pub open spec fn slash_joined(components: Seq<Seq<char>>) -> Seq<char>
    decreases components.len(),
{
    if components.len() == 0 {
        Seq::empty()
    } else {
        slash_joined(components.drop_last()) + "/"@ + components.last()
    }
}

/// `i` is the position of the last `/` of `p`.
pub open spec fn last_slash_at(p: Seq<char>, i: int) -> bool {
    0 <= i < p.len() && p[i] == '/' && forall|j: int| i < j < p.len() ==> p[j] != '/'
}

/// The text after the last `/` of `p`, or all of `p` where it has none.
pub open spec fn leaf_of(p: Seq<char>) -> Seq<char> {
    if exists|i: int| last_slash_at(p, i) {
        let i = choose|i: int| last_slash_at(p, i);
        p.subrange(i + 1, p.len() as int)
    } else {
        p
    }
}

/// The strings' characters.
pub open spec fn chars_of(v: Seq<String>) -> Seq<Seq<char>> {
    v.map_values(|s: String| s@)
}

/// Why the components of a namespace mutation are refused, if they are: an
/// mkdir's component list must be non-empty, within the depth bound, a single
/// component unless parents are created, every component normal, and the
/// requested path must end with exactly those components; any other
/// mutation's single component is the requested path's leaf, which must be
/// normal.
pub open spec fn components_refusal(verb: Verb, asked: Seq<char>) -> Option<Seq<char>> {
    match verb {
        Verb::FsMkdir { components, parents, .. } => {
            let cs = chars_of(components@);
            if cs.len() == 0 || cs.len() > MAX_MUTATION_DEPTH || (!parents && cs.len() != 1) {
                Some("invalid mkdir suffix length"@)
            } else if exists|i: int| 0 <= i < cs.len() && !normal_bytes(bytes_of(#[trigger] cs[i])) {
                Some("invalid mkdir component"@)
            } else if !(slash_joined(cs).len() <= asked.len() && asked.subrange(
                asked.len() - slash_joined(cs).len(),
                asked.len() as int,
            ) == slash_joined(cs)) {
                Some("mkdir suffix does not match requested path"@)
            } else {
                None
            }
        },
        _ => if !normal_bytes(bytes_of(leaf_of(asked))) {
            Some("missing normal leaf"@)
        } else {
            None
        },
    }
}

/// The components a namespace mutation creates or removes, in order.
pub open spec fn components_of(verb: Verb, asked: Seq<char>) -> Seq<Seq<char>> {
    match verb {
        Verb::FsMkdir { components, .. } => chars_of(components@),
        _ => seq![leaf_of(asked)],
    }
}

/// `k` is the first of the paths that is refused.
pub open spec fn first_refused_at(ps: Seq<Seq<char>>, k: int) -> bool {
    &&& 0 <= k < ps.len()
    &&& path_refusal(bytes_of(ps[k])) is Some
    &&& forall|j: int| 0 <= j < k ==> path_refusal(bytes_of(#[trigger] ps[j])) is None
}

/// The first refusal among the paths, in order.
pub open spec fn first_refusal(ps: Seq<Seq<char>>) -> Option<Seq<char>> {
    if exists|k: int| first_refused_at(ps, k) {
        let k = choose|k: int| first_refused_at(ps, k);
        path_refusal(bytes_of(ps[k]))
    } else {
        None
    }
}

/// Pushing a prefix of the components gives the same prefix of the paths.
pub proof fn lemma_pushed_prefix(base: Seq<char>, cs: Seq<Seq<char>>, m: int)
    requires
        0 <= m <= cs.len(),
    ensures
        pushed(base, cs).len() == cs.len(),
        pushed(base, cs.take(m)) == pushed(base, cs).take(m),
    decreases cs.len(),
{
    if cs.len() > 0 {
        lemma_pushed_prefix(base, cs.drop_last(), if m < cs.len() {
            m
        } else {
            0
        });
        if m == cs.len() {
            assert(cs.take(m) =~= cs);
            assert(pushed(base, cs).take(m) =~= pushed(base, cs));
        } else {
            assert(cs.drop_last().take(m) =~= cs.take(m));
            assert(pushed(base, cs).take(m) =~= pushed(base, cs.drop_last()).take(m));
        }
    } else {
        assert(cs.take(m) =~= cs);
    }
}

/// Two spellings name the confinement root: equal, or equal but for one
/// trailing `/` on the configured home.
pub open spec fn is_home(root: Seq<char>, home: Seq<char>) -> bool {
    root == home || root + "/"@ == home
}

/// A namespace mutation's kind and scope match the verb: an exclusive create
/// is an exact created file; a delete is a recursive delete of the root or
/// an exact deleted entry; an mkdir creating parents covers the whole chain
/// and otherwise is an exact created directory.
pub open spec fn plan_matches(verb: Verb, ps: Seq<Seq<char>>, kind: FsOperation, scope: MutationScope) -> bool {
    let root = ps.last();
    match verb {
        Verb::FsWrite { mode: WriteMode::CreateExclusive, .. } => {
            &&& kind == FsOperation::WriteCreate
            &&& scope matches MutationScope::Exact { path, effect }
            &&& path@ == root
            &&& effect == ReportedEffect::CreatedFile
        },
        Verb::FsDelete { recursive, .. } => if recursive {
            &&& kind == FsOperation::DeleteTree
            &&& scope matches MutationScope::RecursiveDelete { root: r }
            &&& r@ == root
        } else {
            &&& kind == FsOperation::DeleteEntry
            &&& scope matches MutationScope::Exact { path, effect }
            &&& path@ == root
            &&& effect == ReportedEffect::DeletedEntry
        },
        Verb::FsMkdir { parents, .. } => {
            &&& kind == FsOperation::Mkdir
            &&& if parents {
                scope matches MutationScope::Directories { paths } && chars_of(paths@) == ps
            } else {
                &&& scope matches MutationScope::Exact { path, effect }
                &&& path@ == root
                &&& effect == ReportedEffect::CreatedDirectory
            }
        },
        _ => false,
    }
}

/// A field-for-field copy of a list of strings.
fn copy_strings(v: &Vec<String>) -> (r: Vec<String>)
    ensures
        r@ == v@,
{
    let mut r: Vec<String> = Vec::new();
    let mut i: usize = 0;
    while i < v.len()
        invariant
            0 <= i <= v@.len(),
            r@ =~= v@.take(i as int),
        decreases v@.len() - i,
    {
        r.push(v[i].clone());
        proof {
            assert(v@.take(i + 1) =~= v@.take(i as int).push(v@[i as int]));
        }
        i = i + 1;
    }
    assert(v@.take(i as int) =~= v@);
    r
}

/// The last `/` of a string, if it has one.
fn last_slash(s: &str) -> (r: Option<usize>)
    ensures
        r matches Some(i) ==> last_slash_at(s@, i as int),
        r is None ==> forall|j: int| 0 <= j < s@.len() ==> s@[j] != '/',
{
    let n = s.unicode_len();
    let mut i: usize = n;
    while i > 0
        invariant
            n == s@.len(),
            0 <= i <= n,
            forall|j: int| i <= j < n ==> s@[j] != '/',
        decreases i,
    {
        if s.get_char(i - 1) == '/' {
            return Some(i - 1);
        }
        i = i - 1;
    }
    None
}

/// The text after the last `/` of a string, or all of it where it has none.
fn leaf(s: &str) -> (r: String)
    ensures
        r@ == leaf_of(s@),
{
    match last_slash(s) {
        Some(i) => {
            proof {
                let c = choose|k: int| last_slash_at(s@, k);
                if c < i {
                    assert(s@[i as int] != '/');
                } else if c > i {
                    assert(s@[c] != '/');
                }
            }
            let n = s.unicode_len();
            String::from_str(s.substring_char(i + 1, n))
        },
        None => String::from_str(s),
    }
}

/// `child` appended to `base` as one more path component.
fn push_component(base: &str, child: &str) -> (r: String)
    ensures
        r@ == join_component(base@, child@),
{
    let n = base.unicode_len();
    if n == 0 {
        return String::from_str(child);
    }
    let mut r = String::from_str(base);
    if base.get_char(n - 1) != '/' {
        r.append("/");
    }
    r.append(child);
    r
}

/// The text `/c1/c2/.../ck` of a component list.
fn slash_joined_string(cs: &Vec<String>) -> (r: String)
    ensures
        r@ == slash_joined(chars_of(cs@)),
{
    let ghost v = chars_of(cs@);
    let mut r = String::new();
    let mut i: usize = 0;
    while i < cs.len()
        invariant
            v == chars_of(cs@),
            0 <= i <= cs@.len(),
            r@ == slash_joined(v.take(i as int)),
        decreases cs@.len() - i,
    {
        r.append("/");
        r.append(cs[i].as_str());
        proof {
            assert(v.take(i + 1).drop_last() =~= v.take(i as int));
            assert(v.take(i + 1).last() == cs@[i as int]@);
        }
        i = i + 1;
    }
    assert(v.take(i as int) =~= v);
    r
}

/// Whether the string `s` ends with the text `suffix`.
fn ends_with_text(s: &str, suffix: &str) -> (r: bool)
    ensures
        r == (suffix@.len() <= s@.len() && s@.subrange(s@.len() - suffix@.len(), s@.len() as int)
            == suffix@),
{
    let n = s.unicode_len();
    let m = suffix.unicode_len();
    if m > n {
        return false;
    }
    let tail = s.substring_char(n - m, n);
    let a = String::from_str(tail);
    let b = String::from_str(suffix);
    a == b
}

/// The components of a namespace mutation, checked: an mkdir's list as
/// given, any other mutation's leaf.
#[verifier::loop_isolation(false)]
fn components(verb: &Verb, asked: &str) -> (r: Result<Vec<String>, String>)
    requires
        mutation_path(*verb) matches Some(p) && p@ == asked@,
    ensures
        components_refusal(*verb, asked@) matches Some(m) ==> r matches Err(e) && e@ == m,
        components_refusal(*verb, asked@) is None ==> (r matches Ok(cs) && chars_of(cs@)
            == components_of(*verb, asked@) && cs@.len() >= 1),
{
    match verb {
        Verb::FsMkdir { components, parents, .. } => {
            let ghost cs = chars_of(components@);
            if components.len() == 0 || components.len() > MAX_MUTATION_DEPTH as usize || (!*parents
                && components.len() != 1) {
                return Err(String::from_str("invalid mkdir suffix length"));
            }
            let mut i: usize = 0;
            while i < components.len()
                invariant
                    cs == chars_of(components@),
                    0 <= i <= components@.len(),
                    forall|j: int| 0 <= j < i ==> normal_bytes(bytes_of(#[trigger] cs[j])),
                decreases components@.len() - i,
            {
                if !normal(components[i].as_str()) {
                    assert(cs[i as int] == components@[i as int]@);
                    assert(!normal_bytes(bytes_of(cs[i as int])));
                    return Err(String::from_str("invalid mkdir component"));
                }
                i = i + 1;
            }
            let joined = slash_joined_string(components);
            if !ends_with_text(asked, joined.as_str()) {
                return Err(String::from_str("mkdir suffix does not match requested path"));
            }
            Ok(copy_strings(components))
        },
        _ => {
            let l = leaf(asked);
            if !normal(l.as_str()) {
                return Err(String::from_str("missing normal leaf"));
            }
            let mut v: Vec<String> = Vec::new();
            v.push(l);
            proof {
                assert(chars_of(v@) =~= seq![leaf_of(asked@)]);
            }
            Ok(v)
        },
    }
}

/// The first `k` refused is unique.
proof fn lemma_first_refused_unique(ps: Seq<Seq<char>>, k: int)
    requires
        first_refused_at(ps, k),
    ensures
        first_refusal(ps) == path_refusal(bytes_of(ps[k])),
{
    let c = choose|c: int| first_refused_at(ps, c);
    assert(first_refused_at(ps, c));
    if c < k {
        assert(path_refusal(bytes_of(ps[c])) is None);
    } else if c > k {
        assert(path_refusal(bytes_of(ps[k])) is None);
    }
}

/// Whether a verb names a namespace operation that has a scope.
pub open spec fn namespace_verb(verb: Verb) -> bool {
    match verb {
        Verb::FsWrite { mode: WriteMode::CreateExclusive, .. } => true,
        Verb::FsDelete { .. } => true,
        Verb::FsMkdir { .. } => true,
        _ => false,
    }
}

/// Why a namespace mutation is refused once its directory is verified at
/// `directory`: its components, then the first of the resulting paths that
/// fails the path checks, then a delete of the confinement root itself, then
/// a verb that has no namespace plan.
pub open spec fn namespace_refusal(verb: Verb, directory: Seq<char>, home: Seq<char>) -> Option<
    Seq<char>,
> {
    match mutation_path(verb) {
        None => Some("not a mutation"@),
        Some(asked) => {
            let ps = pushed(directory, components_of(verb, asked@));
            if components_refusal(verb, asked@) is Some {
                components_refusal(verb, asked@)
            } else if first_refusal(ps) is Some {
                first_refusal(ps)
            } else if verb is FsDelete && is_home(ps.last(), home) {
                Some("cannot delete confinement root"@)
            } else if !namespace_verb(verb) {
                Some("invalid mutation operation"@)
            } else {
                None
            }
        },
    }
}

/// Plan a namespace mutation once its directory has been verified at
/// `directory` beneath the confinement root `home`: the paths to authorize,
/// one per component and the mutated one last, and the scope the subject's
/// report is held to.
#[verifier::loop_isolation(false)]
pub fn plan_namespace(verb: &Verb, directory: &str, home: &str) -> (r: Result<PreparedMutation, String>)
    ensures
        r is Ok <==> namespace_refusal(*verb, directory@, home@) is None,
        r matches Err(m) ==> namespace_refusal(*verb, directory@, home@) == Some(m@),
        r matches Ok(p) ==> mutation_path(*verb) matches Some(asked) && {
            &&& chars_of(p.paths@) == pushed(directory@, components_of(*verb, asked@))
            &&& p.operation matches Operation::Namespace { scope }
            &&& plan_matches(*verb, chars_of(p.paths@), p.kind, scope)
        },
{
    let asked = match path(verb) {
        Some(a) => a,
        None => return Err(String::from_str("not a mutation")),
    };
    let comps = components(verb, asked)?;
    let ghost cs = chars_of(comps@);
    let ghost ps = pushed(directory@, cs);
    proof {
        lemma_pushed_prefix(directory@, cs, cs.len() as int);
    }
    let mut paths: Vec<String> = Vec::new();
    let mut current = String::from_str(directory);
    let mut i: usize = 0;
    while i < comps.len()
        invariant
            cs == chars_of(comps@),
            ps == pushed(directory@, cs),
            ps.len() == cs.len(),
            0 <= i <= comps@.len(),
            chars_of(paths@) == ps.take(i as int),
            current@ == (if i == 0 { directory@ } else { ps[i - 1] }),
            forall|j: int| 0 <= j < i ==> path_refusal(bytes_of(#[trigger] ps[j])) is None,
        decreases comps@.len() - i,
    {
        let p = push_component(current.as_str(), comps[i].as_str());
        proof {
            lemma_pushed_prefix(directory@, cs, i as int);
            lemma_pushed_prefix(directory@, cs, i + 1);
            assert(cs.take(i + 1).drop_last() =~= cs.take(i as int));
            assert(cs.take(i + 1).last() == cs[i as int]);
            assert(cs[i as int] == comps@[i as int]@);
            assert(ps.take(i + 1)[i as int] == ps[i as int]);
            assert(p@ == ps[i as int]);
        }
        match checked(p.as_str()) {
            Ok(()) => {},
            Err(m) => {
                proof {
                    assert(first_refused_at(ps, i as int));
                    lemma_first_refused_unique(ps, i as int);
                }
                return Err(m);
            },
        }
        paths.push(p.clone());
        proof {
            assert(chars_of(paths@) =~= ps.take(i + 1));
        }
        current = p;
        i = i + 1;
    }
    proof {
        assert(ps.take(i as int) =~= ps);
        assert(first_refusal(ps) is None) by {
            if exists|k: int| first_refused_at(ps, k) {
                let k = choose|k: int| first_refused_at(ps, k);
                assert(path_refusal(bytes_of(ps[k])) is None);
            }
        }
    }
    let n = paths.len();
    let root = paths[n - 1].clone();
    assert(root@ == ps.last());
    let kind: FsOperation;
    let scope: MutationScope;
    match verb {
        Verb::FsWrite { mode: WriteMode::CreateExclusive, .. } => {
            kind = FsOperation::WriteCreate;
            scope = MutationScope::Exact { path: root, effect: ReportedEffect::CreatedFile };
        },
        Verb::FsDelete { recursive, .. } => {
            let home_text = String::from_str(home);
            let mut slashed = root.clone();
            slashed.append("/");
            if root == home_text || slashed == home_text {
                return Err(String::from_str("cannot delete confinement root"));
            }
            if *recursive {
                kind = FsOperation::DeleteTree;
                scope = MutationScope::RecursiveDelete { root };
            } else {
                kind = FsOperation::DeleteEntry;
                scope = MutationScope::Exact { path: root, effect: ReportedEffect::DeletedEntry };
            }
        },
        Verb::FsMkdir { parents, .. } => {
            kind = FsOperation::Mkdir;
            if *parents {
                scope = MutationScope::Directories { paths: copy_strings(&paths) };
            } else {
                scope = MutationScope::Exact {
                    path: root,
                    effect: ReportedEffect::CreatedDirectory,
                };
            }
        },
        _ => return Err(String::from_str("invalid mutation operation")),
    }
    Ok(PreparedMutation { operation: Operation::Namespace { scope }, paths, kind })
}

/// What a failed operation observed of its own effect.
#[derive(Debug, Clone, Copy, PartialEq, Eq, Structural)]
pub enum EffectState {
    NoEffect,
    Applied,
    Partial,
    DurabilityUnknown,
}

/// The status a mutation's audit record carries.
#[derive(Debug, Clone, Copy, PartialEq, Eq, Structural)]
pub enum MutationStatus {
    IntentOnly,
    Applied,
    NoEffect,
    Partial,
    DurabilityUnknown,
    Incomplete,
    ReportedProgress,
    ReportedSuccess,
    ReportedOsRefused,
    ReportedPartial,
    ReportedLimitReached,
    ReportedPathChanged,
    ReportedUnsupportedName,
    ReportedDurabilityUnknown,
}

/// The status that records an observed effect state.
pub open spec fn state_status(state: EffectState) -> MutationStatus {
    match state {
        EffectState::NoEffect => MutationStatus::NoEffect,
        EffectState::Applied => MutationStatus::Applied,
        EffectState::Partial => MutationStatus::Partial,
        EffectState::DurabilityUnknown => MutationStatus::DurabilityUnknown,
    }
}

/// The completion status of a daemon-executed write and whether the client
/// is told it succeeded. Only an operation that returned success is a
/// success: a failed operation that had already applied its effect is
/// recorded as applied and still answered as a refusal.
pub fn observed_result(result: Result<(), EffectState>) -> (r: (MutationStatus, bool))
    ensures
        r == (match result {
            Ok(()) => (MutationStatus::Applied, true),
            Err(state) => (state_status(state), false),
        }),
{
    match result {
        Ok(()) => (MutationStatus::Applied, true),
        Err(state) => (
            match state {
                EffectState::NoEffect => MutationStatus::NoEffect,
                EffectState::Applied => MutationStatus::Applied,
                EffectState::Partial => MutationStatus::Partial,
                EffectState::DurabilityUnknown => MutationStatus::DurabilityUnknown,
            },
            false,
        ),
    }
}

/// The status a client's final report is recorded under.
pub open spec fn finish_status(outcome: ReportedFinish) -> MutationStatus {
    match outcome {
        ReportedFinish::Success => MutationStatus::ReportedSuccess,
        ReportedFinish::OsRefused => MutationStatus::ReportedOsRefused,
        ReportedFinish::Partial => MutationStatus::ReportedPartial,
        ReportedFinish::LimitReached => MutationStatus::ReportedLimitReached,
        ReportedFinish::PathChanged => MutationStatus::ReportedPathChanged,
        ReportedFinish::UnsupportedName => MutationStatus::ReportedUnsupportedName,
        ReportedFinish::DurabilityUnknown => MutationStatus::ReportedDurabilityUnknown,
    }
}

/// The status a client's final report is recorded under.
pub fn reported_status(outcome: ReportedFinish) -> (r: MutationStatus)
    ensures
        r == finish_status(outcome),
{
    match outcome {
        ReportedFinish::Success => MutationStatus::ReportedSuccess,
        ReportedFinish::OsRefused => MutationStatus::ReportedOsRefused,
        ReportedFinish::Partial => MutationStatus::ReportedPartial,
        ReportedFinish::LimitReached => MutationStatus::ReportedLimitReached,
        ReportedFinish::PathChanged => MutationStatus::ReportedPathChanged,
        ReportedFinish::UnsupportedName => MutationStatus::ReportedUnsupportedName,
        ReportedFinish::DurabilityUnknown => MutationStatus::ReportedDurabilityUnknown,
    }
}

/// Recording a client's report never turns into a kernel observation: each
/// reported outcome has its own status, apart from the statuses of effects
/// the kernel observed itself, and no two outcomes share one.
pub proof fn law_reported_outcomes_stay_client_reported(a: ReportedFinish, b: ReportedFinish, s: EffectState)
    ensures
        finish_status(a) != state_status(s),
        finish_status(a) == finish_status(b) ==> a == b,
{
}

/// The final decision on one of a mutation's paths.
#[derive(Debug, Clone)]
pub enum PathDecision {
    Permit { obligations: Vec<Obligation> },
    Deny { reason: String },
}

/// Why a decided path stops the mutation, if it does: a deny's reason, or a
/// permit whose obligations cannot all be honored.
pub open spec fn path_decision_refusal(decision: PathDecision) -> Option<Seq<char>> {
    match decision {
        PathDecision::Deny { reason } => Some(reason@),
        PathDecision::Permit { obligations } => if forall|i: int|
            0 <= i < obligations@.len() ==> honorable(#[trigger] obligations@[i]) {
            None
        } else {
            Some("unhonorable mutation obligation"@)
        },
    }
}

/// Settle one path's decision: the mutation goes on only past a permit whose
/// obligations are all honorable; otherwise the refusal names the reason and
/// the path it was refused on.
pub fn settle_path(path: &str, decision: &PathDecision) -> (r: Result<(), (String, String)>)
    ensures
        r is Ok <==> path_decision_refusal(*decision) is None,
        r matches Err((reason, at)) ==> path_decision_refusal(*decision) == Some(reason@) && at@
            == path@,
{
    match decision {
        PathDecision::Deny { reason } => Err((reason.clone(), String::from_str(path))),
        PathDecision::Permit { obligations } => match discharge_plan(obligations.as_slice()) {
            Ok(()) => Ok(()),
            Err(_) => Err(
                (String::from_str("unhonorable mutation obligation"), String::from_str(path)),
            ),
        },
    }
}

/// Where in its life a mutation's record stands.
#[derive(Debug, Clone, Copy, PartialEq, Eq, Structural)]
pub enum MutationPhase {
    Intent,
    Progress,
    Completion,
}

/// Who observed what a mutation record states.
#[derive(Debug, Clone, Copy, PartialEq, Eq, Structural)]
pub enum MutationOrigin {
    KernelObserved,
    ClientReported,
}

/// The mutation facts an audit record carries.
#[derive(Debug, Clone)]
pub struct MutationAudit {
    pub operation: Option<FsOperation>,
    pub authorized_paths: Vec<String>,
    pub intent_seq: u64,
    pub phase: MutationPhase,
    pub origin: MutationOrigin,
    pub status: MutationStatus,
    pub content_length: Option<u64>,
    pub first_index: Option<u32>,
    pub effects: Vec<EffectEntry>,
    pub stopped_at: Option<String>,
}

/// A bare mutation record body: its correlation, phase, origin and status,
/// and nothing else.
pub open spec fn bare_meta(m: MutationAudit, seq: u64, phase: MutationPhase, origin: MutationOrigin, status: MutationStatus) -> bool {
    &&& m.operation is None
    &&& m.authorized_paths@.len() == 0
    &&& m.intent_seq == seq
    &&& m.phase == phase
    &&& m.origin == origin
    &&& m.status == status
    &&& m.content_length is None
    &&& m.first_index is None
    &&& m.effects@.len() == 0
    &&& m.stopped_at is None
}

/// A bare mutation record body.
pub fn mutation_meta(seq: u64, phase: MutationPhase, origin: MutationOrigin, status: MutationStatus) -> (m:
    MutationAudit)
    ensures
        bare_meta(m, seq, phase, origin, status),
{
    MutationAudit {
        operation: None,
        authorized_paths: Vec::new(),
        intent_seq: seq,
        phase,
        origin,
        status,
        content_length: None,
        first_index: None,
        effects: Vec::new(),
        stopped_at: None,
    }
}

/// The intent's body: kernel observed, intent only, naming the operation,
/// every authorized path and the content length.
pub fn intent_meta(seq: u64, content_length: Option<u64>, kind: FsOperation, paths: Vec<String>) -> (m:
    MutationAudit)
    ensures
        m.intent_seq == seq,
        m.phase == MutationPhase::Intent,
        m.origin == MutationOrigin::KernelObserved,
        m.status == MutationStatus::IntentOnly,
        m.operation == Some(kind),
        m.authorized_paths@ == paths@,
        m.content_length == content_length,
        m.first_index is None,
        m.effects@.len() == 0,
        m.stopped_at is None,
{
    let mut m = mutation_meta(seq, MutationPhase::Intent, MutationOrigin::KernelObserved, MutationStatus::IntentOnly);
    m.content_length = content_length;
    m.operation = Some(kind);
    m.authorized_paths = paths;
    m
}

/// A completion's body, kernel observed, correlated to the intent's `seq`.
pub fn completion_meta(intent_seq: u64, status: MutationStatus) -> (m: MutationAudit)
    ensures
        bare_meta(m, intent_seq, MutationPhase::Completion, MutationOrigin::KernelObserved, status),
{
    mutation_meta(intent_seq, MutationPhase::Completion, MutationOrigin::KernelObserved, status)
}

/// The body recorded for an accepted client report: client reported; a
/// batch is progress carrying its first index and effects; a finish is the
/// completion carrying its next index, where it stopped and the status of
/// its outcome. Returns whether the report ends the exchange.
pub fn report_meta(intent_seq: u64, report: &MutationReport) -> (r: (MutationAudit, bool))
    ensures
        r.0.intent_seq == intent_seq,
        r.0.origin == MutationOrigin::ClientReported,
        r.0.operation is None,
        r.0.authorized_paths@.len() == 0,
        r.0.content_length is None,
        report matches MutationReport::Batch { first_index, effects, .. } ==> {
            &&& r.0.phase == MutationPhase::Progress
            &&& r.0.status == MutationStatus::ReportedProgress
            &&& r.0.first_index == Some(*first_index)
            &&& r.0.effects@ == effects@
            &&& r.0.stopped_at is None
            &&& !r.1
        },
        report matches MutationReport::Finished { next_index, outcome, stopped_at, .. } ==> {
            &&& r.0.phase == MutationPhase::Completion
            &&& r.0.status == finish_status(*outcome)
            &&& r.0.first_index == Some(*next_index)
            &&& r.0.effects@.len() == 0
            &&& r.0.stopped_at == *stopped_at
            &&& r.1
        },
{
    let mut m = mutation_meta(
        intent_seq,
        MutationPhase::Completion,
        MutationOrigin::ClientReported,
        MutationStatus::ReportedProgress,
    );
    match report {
        MutationReport::Batch { first_index, effects, .. } => {
            m.phase = MutationPhase::Progress;
            m.first_index = Some(*first_index);
            let mut copied: Vec<EffectEntry> = Vec::new();
            let mut i: usize = 0;
            while i < effects.len()
                invariant
                    0 <= i <= effects@.len(),
                    copied@ =~= effects@.take(i as int),
                decreases effects@.len() - i,
            {
                copied.push(EffectEntry { path: effects[i].path.clone(), effect: effects[i].effect });
                proof {
                    assert(effects@.take(i + 1) =~= effects@.take(i as int).push(effects@[i as int]));
                }
                i = i + 1;
            }
            assert(effects@.take(i as int) =~= effects@);
            m.effects = copied;
            (m, false)
        },
        MutationReport::Finished { next_index, outcome, stopped_at, .. } => {
            m.first_index = Some(*next_index);
            m.stopped_at = match stopped_at {
                Some(p) => Some(p.clone()),
                None => None,
            };
            m.status = reported_status(*outcome);
            (m, true)
        },
    }
}

/// What preparing a mutation guarantees, from admission to plan: an
/// admitted request comes from the local lane with a delegated descriptor
/// and names a path that passes the checks; it needs writable-object
/// evidence exactly when it writes an existing file, and directory evidence
/// otherwise; a namespace plan that succeeds authorizes only paths that pass
/// the checks, one per component, and never deletes the confinement root.
pub proof fn law_prepared_mutation(
    verb: Verb,
    lane_is_local: bool,
    has_descriptor: bool,
    directory: Seq<char>,
    home: Seq<char>,
)
    requires
        admission_refusal(verb, lane_is_local, has_descriptor) is None,
    ensures
        lane_is_local,
        has_descriptor,
        mutation_path(verb) matches Some(p) && path_refusal(bytes_of(p@)) is None,
        evidence_for(verb) is WritableObject <==> verb matches Verb::FsWrite {
            mode: WriteMode::Existing,
            ..
        },
        namespace_refusal(verb, directory, home) is None ==> ({
            let ps = pushed(directory, components_of(verb, mutation_path(verb)->0@));
            &&& ps.len() >= 1
            &&& forall|k: int| 0 <= k < ps.len() ==> path_refusal(bytes_of(#[trigger] ps[k])) is None
            &&& verb is FsDelete ==> !is_home(ps.last(), home)
        }),
{
    if namespace_refusal(verb, directory, home) is None {
        law_planned_paths_pass_the_checks(verb, directory, home);
    }
}

/// Some path refused means a first path refused.
proof fn lemma_some_refused_has_first(ps: Seq<Seq<char>>, k: int)
    requires
        0 <= k < ps.len(),
        path_refusal(bytes_of(ps[k])) is Some,
    ensures
        exists|f: int| first_refused_at(ps, f),
    decreases k,
{
    if forall|j: int| 0 <= j < k ==> path_refusal(bytes_of(#[trigger] ps[j])) is None {
        assert(first_refused_at(ps, k));
    } else {
        let j = choose|j: int| 0 <= j < k && path_refusal(bytes_of(#[trigger] ps[j])) is Some;
        lemma_some_refused_has_first(ps, j);
    }
}

/// A namespace mutation that is planned authorizes only paths that pass the
/// path checks, one per component with the mutated one last, and a delete
/// never targets the confinement root.
pub proof fn law_planned_paths_pass_the_checks(verb: Verb, directory: Seq<char>, home: Seq<char>)
    requires
        namespace_refusal(verb, directory, home) is None,
    ensures
        mutation_path(verb) is Some,
        ({
            let ps = pushed(directory, components_of(verb, mutation_path(verb)->0@));
            &&& ps.len() >= 1
            &&& forall|k: int| 0 <= k < ps.len() ==> path_refusal(bytes_of(#[trigger] ps[k])) is None
            &&& verb is FsDelete ==> !is_home(ps.last(), home)
        }),
{
    let asked = mutation_path(verb)->0@;
    let cs = components_of(verb, asked);
    let ps = pushed(directory, cs);
    lemma_pushed_prefix(directory, cs, 0);
    assert(cs.len() >= 1) by {
        match verb {
            Verb::FsMkdir { components, .. } => {},
            _ => {},
        }
    }
    assert forall|k: int| 0 <= k < ps.len() implies path_refusal(bytes_of(#[trigger] ps[k])) is None by {
        if path_refusal(bytes_of(ps[k])) is Some {
            lemma_some_refused_has_first(ps, k);
        }
    }
}

/// The objects a mutation's record names: the path the decision was made
/// on, and the client's own path only when it differs from that one.
pub fn recorded_objects(asked: &str, decided: &str) -> (r: (String, Option<String>))
    ensures
        r.0@ == decided@,
        asked@ == decided@ ==> r.1 is None,
        asked@ != decided@ ==> (r.1 matches Some(a) && a@ == asked@),
{
    let a = String::from_str(asked);
    let d = String::from_str(decided);
    if a == d {
        (d, None)
    } else {
        (d, Some(a))
    }
}

/// Where a mutation's record stands, for its outcome fields.
#[derive(Debug, Clone, PartialEq, Eq)]
pub enum MutationRecordStage {
    /// Refused before any effect, with the refusal's reason.
    Refused(String),
    /// The durable intent of an authorized mutation.
    Intent,
    /// A kernel-observed completion.
    Completion,
    /// A client's authenticated progress or finish report.
    ClientReport,
    /// The exchange ended without a valid report; the reason says how.
    Incomplete(String),
}

/// The result, reason and posture a mutation record carries at each stage.
/// An intent is a permit that does not claim execution; a completion says
/// authorization is separate from effect; a client report says its effects
/// were not observed by the kernel.
pub open spec fn stage_outcome(stage: MutationRecordStage) -> (Seq<char>, Seq<char>, Seq<char>) {
    match stage {
        MutationRecordStage::Refused(reason) => ("deny"@, reason@, "unauthorized"@),
        MutationRecordStage::Intent => (
            "permit"@,
            "authorized; intent alone does not establish execution"@,
            "authorized"@,
        ),
        MutationRecordStage::Completion => (
            "permit"@,
            "kernel-observed mutation outcome; authorization is separate from effect"@,
            "authorized"@,
        ),
        MutationRecordStage::ClientReport => (
            "permit"@,
            "authenticated client report; effects not independently observed"@,
            "authorized"@,
        ),
        MutationRecordStage::Incomplete(reason) => ("permit"@, reason@, "authorized"@),
    }
}

/// The outcome fields of a mutation record at `stage`.
pub fn stage_fields(stage: MutationRecordStage) -> (r: (String, String, String))
    ensures
        (r.0@, r.1@, r.2@) == stage_outcome(stage),
{
    match stage {
        MutationRecordStage::Refused(reason) => (
            String::from_str("deny"),
            reason,
            String::from_str("unauthorized"),
        ),
        MutationRecordStage::Intent => (
            String::from_str("permit"),
            String::from_str("authorized; intent alone does not establish execution"),
            String::from_str("authorized"),
        ),
        MutationRecordStage::Completion => (
            String::from_str("permit"),
            String::from_str("kernel-observed mutation outcome; authorization is separate from effect"),
            String::from_str("authorized"),
        ),
        MutationRecordStage::ClientReport => (
            String::from_str("permit"),
            String::from_str("authenticated client report; effects not independently observed"),
            String::from_str("authorized"),
        ),
        MutationRecordStage::Incomplete(reason) => (
            String::from_str("permit"),
            reason,
            String::from_str("authorized"),
        ),
    }
}

/// The refusal when every mutation worker is busy.
pub const WORKER_BUDGET_EXHAUSTED: &'static str = "mutation worker budget exhausted";

/// The refusal when preparation or the policy did not finish in time.
pub const PREPARATION_TIMED_OUT: &'static str = "mutation preparation or policy timed out/failed";

/// The incomplete reason when a report is missing or does not decode.
pub const REPORT_MISSING: &'static str = "mutation report missing or malformed; effects unknown";

/// The incomplete reason when a report fails validation.
pub const REPORT_REJECTED: &'static str = "mutation report rejected; effects unknown";

} // verus!
