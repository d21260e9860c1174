//! Virtual paths: a client's argument is resolved against the session's
//! working directory into a list of plain segments, which can never climb
//! above the virtual root, and is then placed beneath the user's real root.
use vstd::prelude::*;

use crate::text::{find_char, lacks, lemma_find_char, split, split_str};

verus! {

/// Why a path argument is refused.
#[derive(Clone, Copy, Debug, PartialEq, Eq)]
pub enum PathError {
    /// The argument is empty where a path is required.
    Empty,
    /// The argument starts with "/".
    Absolute,
}

/// A segment that names an entry: not empty, no "/", and neither "." nor "..".
pub open spec fn plain_segment(s: Seq<char>) -> bool {
    s.len() > 0 && lacks(s, '/') && s != seq!['.'] && s != seq!['.', '.']
}

/// Every segment is plain.
pub open spec fn plain_segments(segs: Seq<Seq<char>>) -> bool {
    forall|i: int| 0 <= i < segs.len() ==> plain_segment(#[trigger] segs[i])
}

/// The effect of one segment on the list of segments walked so far: empty
/// segments and "." change nothing, ".." drops the last one (and changes nothing
/// at the root), any other is appended.
pub open spec fn walk_segment(stack: Seq<Seq<char>>, s: Seq<char>) -> Seq<Seq<char>> {
    if s.len() == 0 || s == seq!['.'] {
        stack
    } else if s == seq!['.', '.'] {
        if stack.len() > 0 {
            stack.drop_last()
        } else {
            stack
        }
    } else {
        stack.push(s)
    }
}

/// Walks the segments in order, starting from `stack`.
pub open spec fn walk(stack: Seq<Seq<char>>, segs: Seq<Seq<char>>) -> Seq<Seq<char>>
    decreases segs.len(),
{
    if segs.len() == 0 {
        stack
    } else {
        walk(walk_segment(stack, segs[0]), segs.drop_first())
    }
}

/// Resolves the argument `p` against the working directory `cwd` (a list of
/// plain segments): an empty or absolute argument is refused, anything else is
/// split on "/" and walked from `cwd`.
pub open spec fn resolve_path(cwd: Seq<Seq<char>>, p: Seq<char>) -> Result<
    Seq<Seq<char>>,
    PathError,
> {
    if p.len() == 0 {
        Err(PathError::Empty)
    } else if p[0] == '/' {
        Err(PathError::Absolute)
    } else {
        Ok(walk(cwd, split(p, '/')))
    }
}

/// The virtual path of a list of segments: "/" for none, else "/a/b/c".
pub open spec fn virtual_path(segs: Seq<Seq<char>>) -> Seq<char>
    decreases segs.len(),
{
    if segs.len() == 0 {
        seq!['/']
    } else {
        slashed(segs)
    }
}

/// Each segment preceded by "/".
pub open spec fn slashed(segs: Seq<Seq<char>>) -> Seq<char>
    decreases segs.len(),
{
    if segs.len() == 0 {
        seq![]
    } else {
        slashed(segs.drop_last()) + seq!['/'] + segs.last()
    }
}

/// The real path of a list of segments beneath the real root `root`.
pub open spec fn real_path(root: Seq<char>, segs: Seq<Seq<char>>) -> Seq<char> {
    root + virtual_path(segs)
}

/// `path` lies beneath `root`: it is `root` followed by a virtual path made of
/// plain segments only, so that no ".." can lead out of `root`.
pub open spec fn is_beneath(path: Seq<char>, root: Seq<char>) -> bool {
    exists|segs: Seq<Seq<char>>| plain_segments(segs) && path == #[trigger] real_path(root, segs)
}

pub open spec fn views(v: Seq<String>) -> Seq<Seq<char>> {
    v.map_values(|s: String| s@)
}

/// The pieces of a split hold no separator.
pub proof fn lemma_split_lacks(s: Seq<char>, c: char)
    ensures
        forall|i: int| 0 <= i < split(s, c).len() ==> lacks(#[trigger] split(s, c)[i], c),
    decreases s.len(),
{
    lemma_find_char(s, c);
    let i = find_char(s, c);
    if i >= 0 {
        lemma_split_lacks(s.skip(i + 1), c);
        let rest = split(s.skip(i + 1), c);
        assert forall|k: int| 0 <= k < split(s, c).len() implies lacks(
            #[trigger] split(s, c)[k],
            c,
        ) by {
            if k > 0 {
                assert(split(s, c)[k] == rest[k - 1]);
            }
        }
    }
}

/// Walking plain segments from plain segments by pieces without "/" leaves only
/// plain segments.
pub proof fn lemma_walk_plain(stack: Seq<Seq<char>>, segs: Seq<Seq<char>>)
    requires
        plain_segments(stack),
        forall|i: int| 0 <= i < segs.len() ==> lacks(#[trigger] segs[i], '/'),
    ensures
        plain_segments(walk(stack, segs)),
    decreases segs.len(),
{
    if segs.len() > 0 {
        let next = walk_segment(stack, segs[0]);
        assert(plain_segments(next)) by {
            if segs[0].len() == 0 || segs[0] == seq!['.'] {
            } else if segs[0] == seq!['.', '.'] {
                if stack.len() > 0 {
                    assert forall|i: int| 0 <= i < next.len() implies plain_segment(
                        #[trigger] next[i],
                    ) by {
                        assert(next[i] == stack[i]);
                    }
                }
            } else {
                assert forall|i: int| 0 <= i < next.len() implies plain_segment(
                    #[trigger] next[i],
                ) by {
                    if i < stack.len() {
                        assert(next[i] == stack[i]);
                    }
                }
            }
        }
        let rest = segs.drop_first();
        assert forall|i: int| 0 <= i < rest.len() implies lacks(#[trigger] rest[i], '/') by {
            assert(rest[i] == segs[i + 1]);
        }
        lemma_walk_plain(next, rest);
    }
}

/// A resolved path is made of plain segments, and its real path lies beneath the root.
pub proof fn lemma_resolve_beneath(cwd: Seq<Seq<char>>, p: Seq<char>, root: Seq<char>)
    requires
        plain_segments(cwd),
        resolve_path(cwd, p) is Ok,
    ensures
        plain_segments(resolve_path(cwd, p)->Ok_0),
        is_beneath(real_path(root, resolve_path(cwd, p)->Ok_0), root),
{
    lemma_split_lacks(p, '/');
    lemma_walk_plain(cwd, split(p, '/'));
    lemma_real_path_beneath(root, resolve_path(cwd, p)->Ok_0);
}

/// The real path of plain segments lies beneath the root.
pub proof fn lemma_real_path_beneath(root: Seq<char>, segs: Seq<Seq<char>>)
    requires
        plain_segments(segs),
    ensures
        is_beneath(real_path(root, segs), root),
{
}

fn is_dot(s: &str) -> (r: bool)
    ensures
        r == (s@ == seq!['.']),
{
    if s.unicode_len() != 1 {
        return false;
    }
    let r = s.get_char(0) == '.';
    assert(r ==> s@ =~= seq!['.']);
    r
}

fn is_dot_dot(s: &str) -> (r: bool)
    ensures
        r == (s@ == seq!['.', '.']),
{
    if s.unicode_len() != 2 {
        return false;
    }
    let r = s.get_char(0) == '.' && s.get_char(1) == '.';
    assert(r ==> s@ =~= seq!['.', '.']);
    r
}

/// A copy of a list of segments.
pub fn copy_segments(v: &Vec<String>) -> (r: Vec<String>)
    ensures
        r@ == v@,
{
    let mut r: Vec<String> = Vec::new();
    let mut i: usize = 0;
    while i < v.len()
        invariant
            i <= v@.len(),
            r@ == v@.take(i as int),
        decreases v@.len() - i,
    {
        r.push(v[i].clone());
        assert(r@ =~= v@.take(i + 1));
        i = i + 1;
    }
    assert(v@.take(i as int) =~= v@);
    r
}

/// Resolves the argument `p` against the working directory `cwd`: an empty or
/// absolute argument is refused; otherwise "." and empty segments are dropped
/// and ".." drops the last segment, never going above the root.
pub fn resolve(cwd: &Vec<String>, p: &str) -> (r: Result<Vec<String>, PathError>)
    ensures
        match r {
            Ok(v) => resolve_path(views(cwd@), p@) == Ok::<_, PathError>(views(v@)),
            Err(e) => resolve_path(views(cwd@), p@) == Err::<Seq<Seq<char>>, _>(e),
        },
{
    if p.unicode_len() == 0 {
        return Err(PathError::Empty);
    }
    if p.get_char(0) == '/' {
        return Err(PathError::Absolute);
    }
    let pieces = split_str(p, '/');
    let ghost segs = split(p@, '/');
    let mut stack: Vec<String> = copy_segments(cwd);
    assert(segs.skip(0) == segs);
    let mut i: usize = 0;
    while i < pieces.len()
        invariant
            views(pieces@) == segs,
            segs == split(p@, '/'),
            i <= pieces@.len(),
            walk(views(stack@), segs.skip(i as int)) == walk(views(cwd@), segs),
        decreases pieces@.len() - i,
    {
        let piece = &pieces[i];
        assert(piece@ == segs[i as int]);
        let ghost before = views(stack@);
        assert(segs.skip(i as int).drop_first() == segs.skip(i + 1));
        assert(walk(before, segs.skip(i as int)) == walk(
            walk_segment(before, segs[i as int]),
            segs.skip(i + 1),
        ));
        if piece.unicode_len() == 0 || is_dot(piece.as_str()) {
        } else if is_dot_dot(piece.as_str()) {
            if stack.len() > 0 {
                stack.pop();
                assert(views(stack@) =~= before.drop_last());
            }
        } else {
            stack.push(piece.clone());
            assert(views(stack@) =~= before.push(piece@));
        }
        i = i + 1;
    }
    assert(segs.skip(i as int).len() == 0);
    Ok(stack)
}

/// The virtual path of a list of segments: "/" for none, else "/a/b/c".
pub fn virtual_string(segs: &Vec<String>) -> (r: String)
    ensures
        r@ == virtual_path(views(segs@)),
{
    proof {
        reveal_strlit("/");
    }
    if segs.len() == 0 {
        return String::from_str("/");
    }
    let mut out = String::new();
    let mut i: usize = 0;
    while i < segs.len()
        invariant
            i <= segs@.len(),
            out@ == slashed(views(segs@).take(i as int)),
        decreases segs@.len() - i,
    {
        let ghost before = out@;
        proof {
            reveal_strlit("/");
        }
        out.append("/");
        out.append(segs[i].as_str());
        assert(views(segs@).take(i + 1).drop_last() == views(segs@).take(i as int));
        assert(views(segs@).take(i + 1).last() == segs@[i as int]@);
        assert(out@ =~= before + seq!['/'] + segs@[i as int]@);
        i = i + 1;
    }
    assert(views(segs@).take(i as int) == views(segs@));
    out
}

/// The real path of a list of segments beneath the real root `root`.
pub fn real_string(root: &str, segs: &Vec<String>) -> (r: String)
    ensures
        r@ == real_path(root@, views(segs@)),
{
    let mut out = String::from_str(root);
    let v = virtual_string(segs);
    out.append(v.as_str());
    out
}

} // verus!
