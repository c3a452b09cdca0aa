//! Version-control status: discovering the enclosing repository of an
//! entry, mapping raw status bits to the two-character display code, and
//! the scoped directory aggregation that avoids a full-repository scan.
//!
//! The repository itself is queried through the git2 crate behind trusted
//! wrappers; every decision made on what the queries return is verified
//! here.

use vstd::prelude::*;
use vstd::string::*;
use crate::config::EntryConst;
use crate::enums::Typ;
use crate::fmt::{markup, markup_of};
use crate::node::Node;

verus! {

/// Status bit: path added to the index.
pub const INDEX_NEW: u32 = 0x0001;

/// Status bit: path modified in the index.
pub const INDEX_MODIFIED: u32 = 0x0002;

/// Status bit: path deleted in the index.
pub const INDEX_DELETED: u32 = 0x0004;

/// Status bit: path renamed in the index.
pub const INDEX_RENAMED: u32 = 0x0008;

/// Status bit: path type-changed in the index.
pub const INDEX_TYPECHANGE: u32 = 0x0010;

/// Status bit: path new (untracked) in the worktree.
pub const WT_NEW: u32 = 0x0080;

/// Status bit: path modified in the worktree.
pub const WT_MODIFIED: u32 = 0x0100;

/// Status bit: path deleted in the worktree.
pub const WT_DELETED: u32 = 0x0200;

/// Status bit: path type-changed in the worktree.
pub const WT_TYPECHANGE: u32 = 0x0400;

/// Status bit: path renamed in the worktree.
pub const WT_RENAMED: u32 = 0x0800;

/// Status bit: path covered by the ignore rules.
pub const IGNORED: u32 = 0x4000;

/// Status bit: path carries a merge conflict.
pub const CONFLICTED: u32 = 0x8000;

/// The style under which staged (index-side) changes are shown.
pub open spec fn green_style() -> Seq<char> {
    seq!['g', 'r', 'e', 'e', 'n']
}

/// The style under which unstaged (worktree-side) and special changes are
/// shown.
pub open spec fn red_style() -> Seq<char> {
    seq!['r', 'e', 'd']
}

/// The blank-blank cell: no status to report.
pub open spec fn blank_cell() -> Seq<char> {
    seq![' ', ' ']
}

/// The generic "modified" marker a directory reports when any of its
/// immediate children carries a change.
pub open spec fn modified_cell() -> Seq<char> {
    markup_of(red_style(), seq![' ', '*'])
}

/// The index-side indicator: added, modified, deleted, renamed,
/// type-changed, else blank — first match wins.
pub open spec fn index_char(s: u32) -> char {
    if s & INDEX_NEW != 0 {
        'A'
    } else if s & INDEX_MODIFIED != 0 {
        'M'
    } else if s & INDEX_DELETED != 0 {
        'D'
    } else if s & INDEX_RENAMED != 0 {
        'R'
    } else if s & INDEX_TYPECHANGE != 0 {
        'T'
    } else {
        ' '
    }
}

/// The worktree-side indicator: untracked, modified, deleted, renamed,
/// type-changed, else blank — first match wins.
pub open spec fn worktree_char(s: u32) -> char {
    if s & WT_NEW != 0 {
        '?'
    } else if s & WT_MODIFIED != 0 {
        'M'
    } else if s & WT_DELETED != 0 {
        'D'
    } else if s & WT_RENAMED != 0 {
        'R'
    } else if s & WT_TYPECHANGE != 0 {
        'T'
    } else {
        ' '
    }
}

/// One side of the code: a blank indicator stays a bare space, any other
/// is wrapped in its side's style.
pub open spec fn side_cell(c: char, style: Seq<char>) -> Seq<char> {
    if c == ' ' {
        seq![' ']
    } else {
        markup_of(style, seq![c])
    }
}

/// The display code for raw status bits: ignored and conflicted are the
/// only whole-code overrides; otherwise the two per-side indicators stand
/// together, staged side first (an untracked path shows its `?` on the
/// worktree side alone).
pub open spec fn git_code(s: u32) -> Seq<char> {
    if s & IGNORED != 0 {
        markup_of(red_style(), seq!['!', '!'])
    } else if s & CONFLICTED != 0 {
        markup_of(red_style(), seq!['U', 'U'])
    } else {
        side_cell(index_char(s), green_style()) + side_cell(worktree_char(s), red_style())
    }
}

/// An ignored path shows the ignored code whatever other status bits
/// apply.
pub proof fn lemma_ignored_overrides(s: u32)
    requires
        s & IGNORED != 0,
    ensures
        git_code(s) == markup_of(red_style(), seq!['!', '!']),
{
}

/// Status bits that show nothing on either side render the blank-blank
/// cell.
pub proof fn lemma_clean_is_blank(s: u32)
    requires
        index_char(s) == ' ',
        worktree_char(s) == ' ',
        s & IGNORED == 0,
        s & CONFLICTED == 0,
    ensures
        git_code(s) == blank_cell(),
{
    assert(git_code(s) =~= blank_cell());
}

/// What a status cell can be: the directory "modified" marker or the
/// display code of some status bits (the blank-blank cell is the code of
/// empty bits).
pub open spec fn is_status_cell(s: Seq<char>) -> bool {
    s == modified_cell() || exists|bits: u32| s == #[trigger] git_code(bits)
}

/// The index-side indicator for `s`, as a one-character string.
fn index_char_str(s: u32) -> (r: &'static str)
    ensures
        r@ == seq![index_char(s)],
{
    proof {
        reveal_strlit("A");
        reveal_strlit("M");
        reveal_strlit("D");
        reveal_strlit("R");
        reveal_strlit("T");
        reveal_strlit(" ");
    }
    let r: &'static str = if s & INDEX_NEW != 0 {
        "A"
    } else if s & INDEX_MODIFIED != 0 {
        "M"
    } else if s & INDEX_DELETED != 0 {
        "D"
    } else if s & INDEX_RENAMED != 0 {
        "R"
    } else if s & INDEX_TYPECHANGE != 0 {
        "T"
    } else {
        " "
    };
    proof {
        assert(r@ =~= seq![index_char(s)]);
    }
    r
}

/// The worktree-side indicator for `s`, as a one-character string.
fn worktree_char_str(s: u32) -> (r: &'static str)
    ensures
        r@ == seq![worktree_char(s)],
{
    proof {
        reveal_strlit("?");
        reveal_strlit("M");
        reveal_strlit("D");
        reveal_strlit("R");
        reveal_strlit("T");
        reveal_strlit(" ");
    }
    let r: &'static str = if s & WT_NEW != 0 {
        "?"
    } else if s & WT_MODIFIED != 0 {
        "M"
    } else if s & WT_DELETED != 0 {
        "D"
    } else if s & WT_RENAMED != 0 {
        "R"
    } else if s & WT_TYPECHANGE != 0 {
        "T"
    } else {
        " "
    };
    proof {
        assert(r@ =~= seq![worktree_char(s)]);
    }
    r
}

/// One side of the code, rendered: blank stays bare, anything else is
/// styled.
fn side_cell_str(piece: &'static str, green: bool) -> (r: String)
    requires
        piece@.len() == 1,
    ensures
        green ==> r@ == side_cell(piece@[0], green_style()),
        !green ==> r@ == side_cell(piece@[0], red_style()),
{
    proof {
        reveal_strlit(" ");
        reveal_strlit("green");
        reveal_strlit("red");
    }
    let blank = piece.get_char(0) == ' ';
    if blank {
        let r = String::from_str(" ");
        proof {
            assert(r@ =~= seq![' ']);
        }
        r
    } else {
        let style: &'static str = if green {
            "green"
        } else {
            "red"
        };
        let r = markup(style, piece);
        proof {
            assert(piece@ =~= seq![piece@[0]]);
            assert("green"@ =~= green_style());
            assert("red"@ =~= red_style());
        }
        r
    }
}

/// Map raw status bits to the two-character display code, color-coded:
/// staged side green, unstaged side red, whole-code overrides for ignored
/// and conflicted paths.
pub fn format_git_status(status: u32) -> (r: String)
    ensures
        r@ == git_code(status),
{
    proof {
        reveal_strlit("red");
        reveal_strlit("!!");
        reveal_strlit("UU");
        assert("red"@ =~= red_style());
        assert("!!"@ =~= seq!['!', '!']);
        assert("UU"@ =~= seq!['U', 'U']);
    }
    if status & IGNORED != 0 {
        markup("red", "!!")
    } else if status & CONFLICTED != 0 {
        markup("red", "UU")
    } else {
        let mut s = side_cell_str(index_char_str(status), true);
        let w = side_cell_str(worktree_char_str(status), false);
        s.append(w.as_str());
        s
    }
}

/// The path of `p` relative to the base directory `base`, when `p` lies
/// under it: what is left of `p` after the base and the separating slash.
pub open spec fn stripped_rel(path: Seq<char>, base: Seq<char>) -> Option<Seq<char>> {
    if path.len() >= base.len() && path.subrange(0, base.len() as int) == base {
        let rest = path.subrange(base.len() as int, path.len() as int);
        if rest.len() == 0 {
            Some(rest)
        } else if base.len() > 0 && base[base.len() - 1] == '/' {
            Some(rest)
        } else if rest[0] == '/' {
            Some(rest.drop_first())
        } else {
            None
        }
    } else {
        None
    }
}

/// Compute the path of `path` relative to `base`, or nothing when `path`
/// does not lie under `base`.
pub fn strip_prefix_str(path: &str, base: &str) -> (r: Option<String>)
    ensures
        r matches Some(s) ==> stripped_rel(path@, base@) == Some(s@),
        r is None ==> stripped_rel(path@, base@) is None,
{
    let plen = path.unicode_len();
    let blen = base.unicode_len();
    if plen < blen {
        return None;
    }
    let mut i: usize = 0;
    while i < blen
        invariant
            i <= blen,
            blen == base@.len(),
            blen <= plen == path@.len(),
            forall|k: int| 0 <= k < i ==> path@[k] == base@[k],
        decreases blen - i,
    {
        if path.get_char(i) != base.get_char(i) {
            proof {
                assert(path@.subrange(0, blen as int)[i as int] != base@[i as int]);
            }
            return None;
        }
        i = i + 1;
    }
    proof {
        assert(path@.subrange(0, blen as int) =~= base@);
    }
    let ghost rest = path@.subrange(blen as int, plen as int);
    if plen == blen {
        let r = String::new();
        proof {
            assert(rest =~= r@);
        }
        return Some(r);
    }
    if blen > 0 && base.get_char(blen - 1) == '/' {
        return Some(String::from_str(path.substring_char(blen, plen)));
    }
    if path.get_char(blen) == '/' {
        let r = String::from_str(path.substring_char(blen + 1, plen));
        proof {
            assert(rest.drop_first() =~= r@);
        }
        return Some(r);
    }
    proof {
        assert(rest[0] == path@[blen as int]);
    }
    None
}

/// Whether `p` names an entry directly inside the directory `dir` (the
/// repository root when `dir` is empty): under it, and with no further
/// separator after it.
pub open spec fn is_direct_child(dir: Seq<char>, p: Seq<char>) -> bool {
    if dir.len() == 0 {
        !p.contains('/')
    } else {
        p.len() > dir.len() && p.subrange(0, dir.len() as int) == dir && p[dir.len() as int] == '/'
            && !p.subrange(dir.len() as int + 1, p.len() as int).contains('/')
    }
}

/// Whether `s` holds a separator anywhere in positions `from..`.
fn has_slash_from(s: &str, from: usize) -> (r: bool)
    requires
        from <= s@.len(),
    ensures
        r == s@.subrange(from as int, s@.len() as int).contains('/'),
{
    let n = s.unicode_len();
    let mut i = from;
    while i < n
        invariant
            from <= i <= n,
            n == s@.len(),
            forall|k: int| from <= k < i ==> s@[k] != '/',
        decreases n - i,
    {
        if s.get_char(i) == '/' {
            proof {
                assert(s@.subrange(from as int, n as int)[i - from] == '/');
            }
            return true;
        }
        i = i + 1;
    }
    proof {
        let rest = s@.subrange(from as int, n as int);
        assert forall|j: int| 0 <= j < rest.len() implies rest[j] != '/' by {
            assert(rest[j] == s@[from + j]);
        }
    }
    false
}

/// Decide whether `p` names an entry directly inside `dir`.
fn path_is_direct_child(dir: &str, p: &str) -> (r: bool)
    ensures
        r == is_direct_child(dir@, p@),
{
    let dlen = dir.unicode_len();
    let plen = p.unicode_len();
    if dlen == 0 {
        let has = has_slash_from(p, 0);
        proof {
            assert(p@.subrange(0, plen as int) =~= p@);
        }
        return if has {
            false
        } else {
            true
        };
    }
    if plen <= dlen {
        return false;
    }
    let mut i: usize = 0;
    while i < dlen
        invariant
            i <= dlen,
            dlen == dir@.len(),
            dlen < plen == p@.len(),
            forall|k: int| 0 <= k < i ==> p@[k] == dir@[k],
        decreases dlen - i,
    {
        if p.get_char(i) != dir.get_char(i) {
            proof {
                assert(p@.subrange(0, dlen as int)[i as int] != dir@[i as int]);
            }
            return false;
        }
        i = i + 1;
    }
    proof {
        assert(p@.subrange(0, dlen as int) =~= dir@);
    }
    if p.get_char(dlen) != '/' {
        return false;
    }
    let has = has_slash_from(p, dlen + 1);
    if has {
        false
    } else {
        true
    }
}

/// Whether any entry of a status listing names a direct child of the
/// directory `dir` (an absent entry path is no change).
pub open spec fn any_direct_child(dir: Seq<char>, es: Seq<Option<String>>) -> bool {
    exists|i: int|
        0 <= i < es.len() && ((#[trigger] es[i]) matches Some(p) && is_direct_child(dir, p@))
}

/// Whether any status entry names a direct child of the directory `rel`
/// (an absent entry path is no change).
pub fn dir_has_direct_change(rel: &str, entries: &Vec<Option<String>>) -> (r: bool)
    ensures
        r == any_direct_child(rel@, entries@),
{
    let n = entries.len();
    let mut i: usize = 0;
    while i < n
        invariant
            i <= n,
            n == entries@.len(),
            forall|k: int|
                0 <= k < i ==> !((#[trigger] entries@[k]) matches Some(p) && is_direct_child(
                    rel@,
                    p@,
                )),
        decreases n - i,
    {
        match &entries[i] {
            Some(p) => {
                if path_is_direct_child(rel, p.as_str()) {
                    return true;
                }
            },
            None => {},
        }
        i = i + 1;
    }
    false
}

/// The pathspec limiting a status query to the immediate contents of the
/// directory `rel` (everything, for the repository root).
pub open spec fn pathspec_of(rel: Seq<char>) -> Seq<char> {
    if rel.len() == 0 {
        seq!['*']
    } else {
        rel + seq!['/', '*']
    }
}

/// Build the pathspec for the immediate contents of `rel`.
fn make_pathspec(rel: &str) -> (r: String)
    ensures
        r@ == pathspec_of(rel@),
{
    proof {
        reveal_strlit("*");
        reveal_strlit("/*");
    }
    if rel.unicode_len() == 0 {
        let r = String::from_str("*");
        proof {
            assert(r@ =~= pathspec_of(rel@));
        }
        r
    } else {
        let mut r = String::from_str(rel);
        r.append("/*");
        proof {
            assert(r@ =~= pathspec_of(rel@));
        }
        r
    }
}

/// The cell a file entry shows for the outcome of its single-path status
/// query: blank when the query failed or reported nothing, the display
/// code of the bits otherwise.
pub open spec fn file_cell_of(query: Option<u32>) -> Seq<char> {
    match query {
        Some(bits) => if bits == 0 {
            blank_cell()
        } else {
            git_code(bits)
        },
        None => blank_cell(),
    }
}

/// Map the outcome of a file's single-path status query to its cell.
pub fn file_status_cell(query: Option<u32>) -> (r: String)
    ensures
        r@ == file_cell_of(query),
{
    match query {
        Some(bits) => if bits == 0 {
            blank_cell_str()
        } else {
            format_git_status(bits)
        },
        None => blank_cell_str(),
    }
}

/// The view of an optional status-entry listing.
pub open spec fn entries_view(entries: Option<Vec<Option<String>>>) -> Option<
    Seq<Option<String>>,
> {
    match entries {
        Some(es) => Some(es@),
        None => None,
    }
}

/// The cell a directory shows for the outcome of its scoped child query:
/// blank when the query failed or no entry names a direct child of the
/// directory, the generic "modified" marker otherwise.
pub open spec fn dir_children_cell_of(rel: Seq<char>, entries: Option<Seq<Option<String>>>) -> Seq<
    char,
> {
    match entries {
        Some(es) => if any_direct_child(rel, es) {
            modified_cell()
        } else {
            blank_cell()
        },
        None => blank_cell(),
    }
}

/// Map the outcome of a directory's scoped status query to its cell.
pub fn dir_children_cell(rel: &str, entries: Option<Vec<Option<String>>>) -> (r: String)
    ensures
        r@ == dir_children_cell_of(rel@, entries_view(entries)),
{
    match &entries {
        Some(es) => {
            let has = dir_has_direct_change(rel, es);
            proof {
                assert(entries_view(entries) == Some(es@));
            }
            if has {
                modified_cell_str()
            } else {
                blank_cell_str()
            }
        },
        None => blank_cell_str(),
    }
}

/// Any outcome of a file's single-path query maps to a status cell.
proof fn lemma_file_cell_is_cell(query: Option<u32>)
    ensures
        is_status_cell(file_cell_of(query)),
{
    lemma_blank_is_cell(blank_cell());
    match query {
        Some(bits) => if bits != 0 {
            assert(file_cell_of(query) == git_code(bits));
        },
        None => {},
    }
}

/// Any outcome of a directory's scoped query maps to a status cell.
proof fn lemma_dir_children_cell_is_cell(rel: Seq<char>, entries: Option<Seq<Option<String>>>)
    ensures
        is_status_cell(dir_children_cell_of(rel, entries)),
{
    lemma_blank_is_cell(blank_cell());
}

/// Whether `s` holds a NUL character anywhere.
fn contains_nul(s: &str) -> (r: bool)
    ensures
        r == s@.contains('\0'),
{
    let n = s.unicode_len();
    let mut i: usize = 0;
    while i < n
        invariant
            i <= n,
            n == s@.len(),
            forall|k: int| 0 <= k < i ==> s@[k] != '\0',
        decreases n - i,
    {
        if s.get_char(i) == '\0' {
            proof {
                assert(s@.contains('\0'));
            }
            return true;
        }
        i = i + 1;
    }
    proof {
        assert(!s@.contains('\0')) by {
            if s@.contains('\0') {
                let j = choose|j: int| 0 <= j < s@.len() && s@[j] == '\0';
                assert(s@[j] != '\0');
            }
        }
    }
    false
}

/// A pathspec built from a NUL-free relative path holds no NUL either.
proof fn lemma_pathspec_nul_free(rel: Seq<char>)
    requires
        !rel.contains('\0'),
    ensures
        !pathspec_of(rel).contains('\0'),
{
    let p = pathspec_of(rel);
    assert forall|i: int| 0 <= i < p.len() implies p[i] != '\0' by {
        if rel.len() == 0 {
            assert(p[0] == '*');
        } else {
            if i < rel.len() {
                assert(p[i] == rel[i]);
                if rel[i] == '\0' {
                    assert(rel.contains('\0'));
                }
            } else {
                assert(p[i] == seq!['/', '*'][i - rel.len()]);
            }
        }
    }
    if p.contains('\0') {
        let j = choose|j: int| 0 <= j < p.len() && p[j] == '\0';
        assert(p[j] != '\0');
    }
}

/// The blank-blank cell, rendered.
fn blank_cell_str() -> (r: String)
    ensures
        r@ == blank_cell(),
{
    let r = String::from_str("  ");
    proof {
        reveal_strlit("  ");
        assert(r@ =~= blank_cell());
    }
    r
}

#[verifier::external_type_specification]
#[verifier::external_body]
pub struct ExRepository(git2::Repository);

/// Relies on git2::Repository::discover: walk upward from `path` looking
/// for an enclosing repository; which repository (if any) comes back
/// depends on what is on disk.
#[verifier::external_body]
fn repo_discover(path: &str) -> (r: Option<git2::Repository>) {
    git2::Repository::discover(path).ok()
}

/// Relies on git2::Repository::workdir: the working directory of the
/// repository, absent for a bare repository.
#[verifier::external_body]
fn repo_workdir(repo: &git2::Repository) -> (r: Option<String>) {
    repo.workdir().map(|p| p.to_string_lossy().to_string())
}

/// Relies on git2::Repository::is_path_ignored: whether the ignore rules
/// of the repository cover `path`; absent when the check itself failed.
#[verifier::external_body]
fn repo_is_ignored(repo: &git2::Repository, path: &str) -> (r: Option<bool>) {
    repo.is_path_ignored(path).ok()
}

/// Relies on git2::Repository::status_file: the status bits of exactly
/// one path relative to the repository root — a targeted query, not a
/// repository scan; absent when the query failed.
#[verifier::external_body]
fn repo_status_file(repo: &git2::Repository, rel: &str) -> (r: Option<u32>) {
    repo.status_file(std::path::Path::new(rel)).ok().map(|s| s.bits())
}

/// Relies on git2::Repository::statuses: the status entries matching a
/// pathspec, each handed back as its path (absent for one that is not
/// valid text); absent as a whole when the query failed. The pathspec
/// must hold no NUL character: the option builder's C-string conversion
/// admits none.
#[verifier::external_body]
fn repo_statuses(
    repo: &git2::Repository,
    pathspec: &str,
    include_untracked: bool,
    include_ignored: bool,
    recurse_untracked: bool,
) -> (r: Option<Vec<Option<String>>>)
    requires
        !pathspec@.contains('\0'),
{
    let mut opts = git2::StatusOptions::new();
    opts.include_untracked(include_untracked);
    opts.include_ignored(include_ignored);
    opts.recurse_untracked_dirs(recurse_untracked);
    opts.pathspec(pathspec);
    match repo.statuses(Some(&mut opts)) {
        Ok(statuses) => Some(
            statuses.iter().map(|e| e.path().ok().map(|p| p.to_string())).collect(),
        ),
        Err(_) => None,
    }
}

impl Node {
    /// The status cell for this entry: discover the enclosing repository
    /// from the entry's canonical path and report against it. An entry
    /// whose path did not canonicalize, or that lies in no repository,
    /// reports the blank-blank cell.
    pub fn git(&self, _entry_const: &EntryConst) -> (r: Option<String>)
        ensures
            r is Some,
            self.canon is None ==> (r matches Some(s) && s@ == blank_cell()),
            r matches Some(s) ==> is_status_cell(s@),
    {
        let canon = match &self.canon {
            Some(c) => c,
            None => {
                let b = blank_cell_str();
                proof {
                    lemma_blank_is_cell(b@);
                }
                return Some(b);
            },
        };
        let repo_opt = repo_discover(canon.as_str());
        self.git_from_repo(repo_opt)
    }

    /// The status cell for this entry against an already-discovered
    /// repository (none meaning no repository encloses the entry). There
    /// is always a cell: a missing repository reports blank, and
    /// everything after discovery is decided by [`Self::git_in_workdir`]
    /// against the repository's working-directory query.
    pub fn git_from_repo(&self, repo_opt: Option<git2::Repository>) -> (r: Option<String>)
        ensures
            r is Some,
            self.canon is None ==> (r matches Some(s) && s@ == blank_cell()),
            repo_opt is None ==> (r matches Some(s) && s@ == blank_cell()),
            r matches Some(s) ==> is_status_cell(s@),
    {
        proof {
            lemma_blank_is_cell(blank_cell());
        }
        let repo = match repo_opt {
            Some(r) => r,
            None => return Some(blank_cell_str()),
        };
        let workdir = repo_workdir(&repo);
        Some(self.git_in_workdir(&repo, workdir))
    }

    /// The status cell for this entry against a discovered repository and
    /// the outcome of its working-directory query. Every pre-query
    /// fallback is the blank-blank cell, stated per outcome: an entry
    /// with no canonical path, a bare repository (one without a working
    /// directory), a canonical path outside the working directory, and a
    /// relative path no query can take (one holding a NUL character). An
    /// ignored path then reports the ignored code before any per-path
    /// query; a file is answered by its single-path query, a directory
    /// first by its own path's status, else by the query scoped to its
    /// immediate children — each query outcome mapped to its cell by
    /// [`format_git_status`], [`file_status_cell`] and
    /// [`dir_children_cell`], whose contracts fix the cell for every
    /// outcome, failures included.
    pub fn git_in_workdir(&self, repo: &git2::Repository, workdir: Option<String>) -> (r: String)
        ensures
            is_status_cell(r@),
            self.canon is None ==> r@ == blank_cell(),
            workdir is None ==> r@ == blank_cell(),
            (self.canon matches Some(c) && workdir matches Some(w) && stripped_rel(c@, w@)
                is None) ==> r@ == blank_cell(),
            (self.canon matches Some(c) && workdir matches Some(w) && stripped_rel(c@, w@)
                matches Some(rel) && rel.contains('\0')) ==> r@ == blank_cell(),
    {
        proof {
            lemma_blank_is_cell(blank_cell());
        }
        let canon = match &self.canon {
            Some(c) => c,
            None => return blank_cell_str(),
        };
        let w = match workdir {
            Some(w) => w,
            None => return blank_cell_str(),
        };
        let rel = match strip_prefix_str(canon.as_str(), w.as_str()) {
            Some(r) => r,
            None => return blank_cell_str(),
        };
        if contains_nul(rel.as_str()) {
            return blank_cell_str();
        }
        let ignored = match repo_is_ignored(repo, canon.as_str()) {
            Some(b) => b,
            None => false,
        };
        if ignored {
            return format_git_status(IGNORED);
        }
        if !matches!(self.typ, Typ::Dir) {
            let query = repo_status_file(repo, rel.as_str());
            proof {
                lemma_file_cell_is_cell(query);
            }
            file_status_cell(query)
        } else {
            let own = repo_status_file(repo, rel.as_str());
            match own {
                Some(bits) => {
                    if bits != 0 {
                        return format_git_status(bits);
                    }
                },
                None => {},
            }
            let pathspec = make_pathspec(rel.as_str());
            proof {
                lemma_pathspec_nul_free(rel@);
            }
            let entries = repo_statuses(repo, pathspec.as_str(), true, false, false);
            proof {
                lemma_dir_children_cell_is_cell(rel@, entries_view(entries));
            }
            dir_children_cell(rel.as_str(), entries)
        }
    }
}

/// The directory "modified" marker, rendered.
fn modified_cell_str() -> (r: String)
    ensures
        r@ == modified_cell(),
{
    proof {
        reveal_strlit("red");
        reveal_strlit(" *");
        assert("red"@ =~= red_style());
        assert(" *"@ =~= seq![' ', '*']);
    }
    markup("red", " *")
}

/// The blank-blank cell is the display code of empty status bits.
proof fn lemma_blank_is_cell(s: Seq<char>)
    requires
        s == blank_cell(),
    ensures
        is_status_cell(s),
{
    assert(0u32 & 0x0001u32 == 0u32 && 0u32 & 0x0002u32 == 0u32 && 0u32 & 0x0004u32 == 0u32
        && 0u32 & 0x0008u32 == 0u32 && 0u32 & 0x0010u32 == 0u32 && 0u32 & 0x0080u32 == 0u32
        && 0u32 & 0x0100u32 == 0u32 && 0u32 & 0x0200u32 == 0u32 && 0u32 & 0x0400u32 == 0u32
        && 0u32 & 0x0800u32 == 0u32 && 0u32 & 0x4000u32 == 0u32 && 0u32 & 0x8000u32 == 0u32)
        by (bit_vector);
    assert(index_char(0) == ' ');
    assert(worktree_char(0) == ' ');
    assert(git_code(0) =~= blank_cell());
}

} // verus!
