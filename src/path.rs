//! Resolution of logical asset paths into request paths.
use vstd::prelude::*;

verus! {

/// Whether `p` begins with `e`.
pub open spec fn starts_with(p: Seq<char>, e: Seq<char>) -> bool {
    e.len() <= p.len() && p.take(e.len() as int) == e
}

/// Whether an occurrence of `e` begins at position `i` of `p`.
pub open spec fn occurs_at(p: Seq<char>, e: Seq<char>, i: int) -> bool {
    0 <= i <= p.len() && starts_with(p.skip(i), e)
}

/// The path `p` with each occurrence of the escape sequence `esc` turned into a
/// separator. Occurrences are taken from left to right, and one that begins inside
/// an occurrence already taken is not one. An empty escape sequence occurs before
/// each character and at the end.
pub open spec fn unescape(p: Seq<char>, esc: Seq<char>) -> Seq<char>
    decreases p.len(),
{
    if p.len() == 0 {
        if esc.len() == 0 {
            seq!['/']
        } else {
            Seq::empty()
        }
    } else if esc.len() == 0 {
        seq!['/', p[0]] + unescape(p.skip(1), esc)
    } else if starts_with(p, esc) {
        seq!['/'] + unescape(p.skip(esc.len() as int), esc)
    } else {
        seq![p[0]] + unescape(p.skip(1), esc)
    }
}

/// The suffix that names the metadata sidecar of an asset.
pub open spec fn meta_suffix() -> Seq<char> {
    seq!['.', 'm', 'e', 't', 'a']
}

/// The request path of the metadata sidecar of the asset at logical path `p`.
pub open spec fn meta_path(p: Seq<char>, esc: Seq<char>) -> Seq<char> {
    unescape(p, esc) + meta_suffix()
}

/// A path in which the escape sequence never occurs resolves to itself.
pub proof fn resolve_without_escape_is_identity(p: Seq<char>, esc: Seq<char>)
    requires
        forall|i: int| 0 <= i <= p.len() ==> !occurs_at(p, esc, i),
    ensures
        unescape(p, esc) == p,
    decreases p.len(),
{
    assert(p.skip(0) =~= p);
    assert(!occurs_at(p, esc, 0));
    if esc.len() == 0 {
        assert(p.take(0) =~= esc);
    }
    if p.len() == 0 {
        assert(p =~= Seq::<char>::empty());
    } else {
        let q = p.skip(1);
        assert forall|i: int| 0 <= i <= q.len() implies !occurs_at(q, esc, i) by {
            assert(q.skip(i) =~= p.skip(i + 1));
            assert(!occurs_at(p, esc, i + 1));
        }
        resolve_without_escape_is_identity(q, esc);
        assert(seq![p[0]] + q =~= p);
    }
}

/// The first occurrence of a non-empty escape sequence becomes a separator, and
/// the rest of the path after it is resolved in turn. With the identity above,
/// this replaces every occurrence, at the start, at the end and side by side,
/// except one that begins inside an occurrence already replaced.
pub proof fn resolve_replaces_first_escape(p: Seq<char>, esc: Seq<char>, i: int)
    requires
        esc.len() > 0,
        occurs_at(p, esc, i),
        forall|j: int| 0 <= j < i ==> !occurs_at(p, esc, j),
    ensures
        unescape(p, esc) == p.take(i) + seq!['/'] + unescape(p.skip(i + esc.len()), esc),
    decreases i,
{
    assert(p.skip(0) =~= p);
    if i == 0 {
        assert(p.take(0) + seq!['/'] =~= seq!['/']);
    } else {
        assert(!occurs_at(p, esc, 0));
        let q = p.skip(1);
        assert(q.skip(i - 1) =~= p.skip(i));
        assert forall|j: int| 0 <= j < i - 1 implies !occurs_at(q, esc, j) by {
            assert(q.skip(j) =~= p.skip(j + 1));
            assert(!occurs_at(p, esc, j + 1));
        }
        resolve_replaces_first_escape(q, esc, i - 1);
        assert(q.skip(i - 1 + esc.len()) =~= p.skip(i + esc.len()));
        assert(seq![p[0]] + q.take(i - 1) =~= p.take(i));
        assert(seq![p[0]] + (q.take(i - 1) + seq!['/'] + unescape(p.skip(i + esc.len()), esc))
            =~= p.take(i) + seq!['/'] + unescape(p.skip(i + esc.len()), esc));
    }
}

/// The sidecar of an asset is fetched at the asset's resolved path with the
/// metadata suffix appended.
pub proof fn meta_path_is_resolved_path_with_suffix(p: Seq<char>, esc: Seq<char>)
    ensures
        meta_path(p, esc) == unescape(p, esc) + meta_suffix(),
{
}

/// The characters of `s`, one per element.
fn chars_of(s: &str) -> (r: Vec<char>)
    ensures
        r@ == s@,
{
    let n = s.unicode_len();
    let mut v: Vec<char> = Vec::new();
    let mut i: usize = 0;
    while i < n
        invariant
            n == s@.len(),
            i <= n,
            v@ == s@.take(i as int),
        decreases n - i,
    {
        v.push(s.get_char(i));
        i += 1;
        assert(v@ =~= s@.take(i as int));
    }
    assert(s@.take(n as int) =~= s@);
    v
}

/// Whether an occurrence of `e` begins at position `i` of `p`.
fn occurs_at_exec(p: &Vec<char>, e: &Vec<char>, i: usize) -> (r: bool)
    requires
        i <= p@.len(),
    ensures
        r == occurs_at(p@, e@, i as int),
{
    if e.len() > p.len() - i {
        return false;
    }
    let m = p.len();
    let mut k: usize = 0;
    while k < e.len()
        invariant
            m == p@.len(),
            k <= e@.len(),
            i + e@.len() <= p@.len(),
            forall|j: int| 0 <= j < k ==> p@[i + j] == e@[j],
        decreases e@.len() - k,
    {
        if p[i + k] != e[k] {
            assert(p@.skip(i as int).take(e@.len() as int)[k as int] == p@[i + k]);
            return false;
        }
        k += 1;
    }
    assert(p@.skip(i as int).take(e@.len() as int) =~= e@);
    true
}

/// Resolves the logical path `path`: each occurrence of `escape` becomes a
/// separator, as `unescape` describes.
pub fn resolve_path(path: &str, escape: &str) -> (r: String)
    ensures
        r@ == unescape(path@, escape@),
{
    let p = chars_of(path);
    let e = chars_of(escape);
    let n = p.len();
    let mut out = String::new();
    let mut i: usize = 0;
    proof {
        reveal_strlit("/");
        assert(p@.skip(0) =~= p@);
    }
    while i < n
        invariant
            n == p@.len(),
            p@ == path@,
            e@ == escape@,
            i <= n,
            "/"@ == seq!['/'],
            out@ + unescape(p@.skip(i as int), e@) == unescape(p@, e@),
        decreases n - i,
    {
        let ghost before = out@;
        let ghost rest = p@.skip(i as int);
        assert(rest[0] == p@[i as int]);
        if e.len() == 0 {
            let c = path.substring_char(i, i + 1);
            out.append("/");
            out.append(c);
            assert(c@ =~= seq![p@[i as int]]);
            assert(rest.skip(1) =~= p@.skip(i + 1));
            assert(out@ =~= before + seq!['/', rest[0]]);
            i += 1;
        } else if occurs_at_exec(&p, &e, i) {
            out.append("/");
            assert(rest.skip(e@.len() as int) =~= p@.skip(i + e@.len()));
            i += e.len();
        } else {
            let c = path.substring_char(i, i + 1);
            out.append(c);
            assert(c@ =~= seq![p@[i as int]]);
            assert(rest.skip(1) =~= p@.skip(i + 1));
            i += 1;
        }
        assert(out@ + unescape(p@.skip(i as int), e@) =~= before + unescape(rest, e@));
    }
    if e.len() == 0 {
        out.append("/");
    }
    assert(out@ =~= unescape(p@, e@));
    out
}

} // verus!
