//! Symlink-target resolution: normalizing a link's raw target text to an
//! absolute location and classifying the outcome of probing it.
//!
//! Reading the link text and probing the normalized path are blocking
//! calls performed by the caller at the edge; this module holds the
//! normalization and the classification, which are where the decisions
//! live.

use vstd::prelude::*;
use vstd::string::*;
use crate::enums::Typ;
use crate::node::{Metadata, Node};

verus! {

/// Whether a path is absolute.
pub open spec fn is_absolute(p: Seq<char>) -> bool {
    p.len() > 0 && p[0] == '/'
}

/// The index of the last path separator in `p`, or -1 when there is none.
pub open spec fn last_slash_at(p: Seq<char>) -> int
    decreases p.len(),
{
    if p.len() == 0 {
        -1
    } else if p[p.len() - 1] == '/' {
        p.len() - 1
    } else {
        last_slash_at(p.drop_last())
    }
}

/// The parent directory of `p`: everything before the last separator (the
/// root when the last separator is the leading one), empty when `p` has no
/// separator at all.
pub open spec fn parent_of(p: Seq<char>) -> Seq<char> {
    let i = last_slash_at(p);
    if i < 0 {
        Seq::<char>::empty()
    } else if i == 0 {
        seq!['/']
    } else {
        p.subrange(0, i)
    }
}

/// `rel` joined onto `base`: a separator is added only where `base` does
/// not already end with one, and an empty `base` leaves `rel` as it is.
pub open spec fn join_path(base: Seq<char>, rel: Seq<char>) -> Seq<char> {
    if base.len() == 0 {
        rel
    } else if base[base.len() - 1] == '/' {
        base + rel
    } else {
        base + seq!['/'] + rel
    }
}

/// Where a symlink at `path` with raw link text `link` points: an absolute
/// link text is used verbatim, a relative one resolves against the
/// symlink's own parent directory — never against the directory the
/// process happens to run in.
pub open spec fn resolved_target(path: Seq<char>, link: Seq<char>) -> Seq<char> {
    if is_absolute(link) {
        link
    } else {
        join_path(parent_of(path), link)
    }
}

/// A relative link text resolves against the symlink's own parent
/// directory alone: two symlinks whose paths share a parent directory
/// resolve the same relative link text to the same target, independent of
/// anything else about the invocation.
pub proof fn lemma_relative_target_uses_own_parent(p1: Seq<char>, p2: Seq<char>, link: Seq<char>)
    requires
        !is_absolute(link),
        parent_of(p1) == parent_of(p2),
    ensures
        resolved_target(p1, link) == resolved_target(p2, link),
{
}

/// A separator at `i` with none after it is the last one.
proof fn lemma_last_slash_found(p: Seq<char>, i: int)
    requires
        0 <= i < p.len(),
        p[i] == '/',
        forall|k: int| i < k < p.len() ==> p[k] != '/',
    ensures
        last_slash_at(p) == i,
    decreases p.len(),
{
    if i < p.len() - 1 {
        lemma_last_slash_found(p.drop_last(), i);
    }
}

/// A path without separators has no last one.
proof fn lemma_no_slash(p: Seq<char>)
    requires
        forall|k: int| 0 <= k < p.len() ==> p[k] != '/',
    ensures
        last_slash_at(p) == -1,
    decreases p.len(),
{
    if p.len() > 0 {
        lemma_no_slash(p.drop_last());
    }
}

/// The index of the last path separator in `s`, if any.
fn last_slash_index(s: &str) -> (r: Option<usize>)
    ensures
        r matches Some(i) ==> 0 <= i < s@.len() && last_slash_at(s@) == i as int,
        r is None ==> last_slash_at(s@) == -1,
{
    let n = s.unicode_len();
    let mut j = n;
    while j > 0
        invariant
            j <= n,
            n == s@.len(),
            forall|k: int| j <= k < n ==> s@[k] != '/',
        decreases j,
    {
        let c = s.get_char(j - 1);
        if c == '/' {
            proof {
                lemma_last_slash_found(s@, j - 1);
            }
            return Some(j - 1);
        }
        j = j - 1;
    }
    proof {
        lemma_no_slash(s@);
    }
    None
}

/// The parent directory of `path` (empty when it has none).
fn parent_str(path: &str) -> (r: String)
    ensures
        r@ == parent_of(path@),
{
    match last_slash_index(path) {
        None => String::new(),
        Some(i) => {
            if i == 0 {
                let r = String::from_str("/");
                proof {
                    reveal_strlit("/");
                    assert(r@ =~= seq!['/']);
                }
                r
            } else {
                String::from_str(path.substring_char(0, i))
            }
        },
    }
}

/// Join `rel` onto `base` with exactly one separator between them.
fn join_str(base: String, rel: &str) -> (r: String)
    ensures
        r@ == join_path(base@, rel@),
{
    let ghost b0 = base@;
    let blen = base.as_str().unicode_len();
    if blen == 0 {
        return String::from_str(rel);
    }
    let last = base.as_str().get_char(blen - 1);
    let mut s = base;
    if last != '/' {
        s.append("/");
        proof {
            reveal_strlit("/");
        }
    }
    s.append(rel);
    proof {
        assert(s@ =~= join_path(b0, rel@));
    }
    s
}

/// Normalize a symlink's raw link text to the absolute location it points
/// at, resolving a relative text against the symlink's own parent
/// directory.
pub fn resolve_target_path(path: &str, link: &str) -> (r: String)
    ensures
        r@ == resolved_target(path@, link@),
{
    let n = link.unicode_len();
    if n > 0 && link.get_char(0) == '/' {
        return String::from_str(link);
    }
    let base = parent_str(path);
    join_str(base, link)
}

/// The outcome of reading a symlink's raw target text.
pub enum LinkReading {
    /// the raw link text
    Text(String),
    /// the link text could not be read; carries the rendered error
    Unreadable(String),
}

/// The outcome of probing the existence of a normalized target path.
pub enum TargetProbe {
    /// the target exists; carries what a construction-time probe of the
    /// target yielded: its entry type and metadata
    Exists(Typ, Option<Metadata>),
    /// the target does not exist
    Missing,
    /// the probe failed with the platform's symlink-loop condition
    LoopDetected,
    /// the probe failed for another reason; carries the rendered error
    Inaccessible(String),
}

/// How a symlink's target resolved.
pub enum SymTarget {
    /// the target exists; wraps a freshly constructed node for it
    Resolved(Box<Node>),
    /// the target path does not exist; carries the raw link text
    Broken(String),
    /// resolution ran into a symlink loop; carries the raw link text
    Cyclic(String),
    /// resolution failed for another I/O reason; carries the rendered
    /// error
    Failed(String),
}

impl Node {
    /// Classify where this node's link points, given the outcome of
    /// reading its link text and of probing the normalized target path.
    /// Only a symlink has a target; every failure is recovered into a
    /// [`SymTarget`] variant rather than surfaced as an error.
    pub fn target_from(&self, reading: LinkReading, probe: TargetProbe) -> (r: Option<SymTarget>)
        ensures
            self.typ != Typ::Symlink ==> r is None,
            self.typ == Typ::Symlink ==> match reading {
                LinkReading::Unreadable(e) => r == Some(SymTarget::Failed(e)),
                LinkReading::Text(t) => match probe {
                    TargetProbe::LoopDetected => r == Some(SymTarget::Cyclic(t)),
                    TargetProbe::Inaccessible(e) => r == Some(SymTarget::Failed(e)),
                    TargetProbe::Missing => r == Some(SymTarget::Broken(t)),
                    TargetProbe::Exists(typ, meta) => r matches Some(st) && st matches
                        SymTarget::Resolved(n) && n.path@ == resolved_target(self.path@, t@)
                        && n.typ == typ && n.meta == meta && n.canon is None && n.sym_text
                        == Some(t),
                },
            },
    {
        if !matches!(self.typ, Typ::Symlink) {
            return None;
        }
        let text = match reading {
            LinkReading::Text(t) => t,
            LinkReading::Unreadable(e) => return Some(SymTarget::Failed(e)),
        };
        match probe {
            TargetProbe::LoopDetected => Some(SymTarget::Cyclic(text)),
            TargetProbe::Inaccessible(e) => Some(SymTarget::Failed(e)),
            TargetProbe::Missing => Some(SymTarget::Broken(text)),
            TargetProbe::Exists(typ, meta) => {
                let abs = resolve_target_path(self.path.as_str(), text.as_str());
                let node = Node::new(abs, typ, meta, None).symlink(text);
                Some(SymTarget::Resolved(Box::new(node)))
            },
        }
    }
}

/// The capability interface for symlink-target resolution.
pub trait Sym {
    /// Classify where a node's link points; `None` for a node that is not
    /// a symlink.
    fn target(&self, reading: LinkReading, probe: TargetProbe) -> Option<SymTarget>;
}

impl Sym for Node {
    fn target(&self, reading: LinkReading, probe: TargetProbe) -> (r: Option<SymTarget>)
        ensures
            self.typ != Typ::Symlink ==> r is None,
            self.typ == Typ::Symlink ==> match reading {
                LinkReading::Unreadable(e) => r == Some(SymTarget::Failed(e)),
                LinkReading::Text(t) => match probe {
                    TargetProbe::LoopDetected => r == Some(SymTarget::Cyclic(t)),
                    TargetProbe::Inaccessible(e) => r == Some(SymTarget::Failed(e)),
                    TargetProbe::Missing => r == Some(SymTarget::Broken(t)),
                    TargetProbe::Exists(typ, meta) => r matches Some(st) && st matches
                        SymTarget::Resolved(n) && n.path@ == resolved_target(self.path@, t@)
                        && n.typ == typ && n.meta == meta && n.canon is None && n.sym_text
                        == Some(t),
                },
            },
    {
        self.target_from(reading, probe)
    }
}

} // verus!
