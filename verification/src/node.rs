//! The in-memory representation of one filesystem entry under
//! consideration, together with its raw metadata.

use vstd::prelude::*;
use crate::enums::Typ;

verus! {

/// One entry's raw metadata, as plain values: the numbers the metadata API
/// reports for it. Each timestamp may be absent on its own (a platform may
/// not report a creation time, for instance); the whole record is absent
/// when the metadata could not be fetched at all. Timestamps carry whole
/// seconds: a format description asking for finer components renders them
/// as zero.
pub struct Metadata {
    /// byte length
    pub size: u64,
    /// number of on-disk blocks
    pub blocks: u64,
    /// device id
    pub dev: u64,
    /// inode number
    pub ino: u64,
    /// hard-link count
    pub nlink: u64,
    /// raw permission mode bits
    pub mode: u32,
    /// owning user id
    pub uid: u32,
    /// owning group id
    pub gid: u32,
    /// last access time, seconds since the epoch
    pub atime: Option<i64>,
    /// creation time, seconds since the epoch
    pub btime: Option<i64>,
    /// last status-change time, seconds since the epoch
    pub ctime: Option<i64>,
    /// last modification time, seconds since the epoch
    pub mtime: Option<i64>,
}

/// One filesystem entry being decorated for display. The entry type and
/// metadata are determined once, when the node is constructed, and never
/// re-derived afterwards.
pub struct Node {
    /// the path the entry was named by
    pub path: String,
    /// the entry's type, fixed at construction
    pub typ: Typ,
    /// the entry's metadata; absent when it could not be fetched
    pub meta: Option<Metadata>,
    /// the entry's canonical absolute path; absent when canonicalization
    /// failed (not every path must resolve)
    pub canon: Option<String>,
    /// the literal link text this node was reached through, when it was
    /// constructed as a symlink's target; kept for display purposes
    pub sym_text: Option<String>,
}

impl Node {
    /// A node for one input path, with everything the construction-time
    /// probe of the entry yielded.
    pub fn new(path: String, typ: Typ, meta: Option<Metadata>, canon: Option<String>) -> (r: Node)
        ensures
            r.path == path,
            r.typ == typ,
            r.meta == meta,
            r.canon == canon,
            r.sym_text is None,
    {
        Node { path, typ, meta, canon, sym_text: None }
    }

    /// The same node, recording the literal link text it was reached
    /// through.
    pub fn symlink(self, text: String) -> (r: Node)
        ensures
            r.path == self.path,
            r.typ == self.typ,
            r.meta == self.meta,
            r.canon == self.canon,
            r.sym_text == Some(text),
    {
        Node { sym_text: Some(text), ..self }
    }
}

} // verus!
