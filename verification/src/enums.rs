//! Plain enumerations shared across the entry-decoration components.

use vstd::prelude::*;

verus! {

/// The type of a filesystem entry, determined once when the entry's node is
/// constructed and never re-derived afterwards.
#[derive(Clone, Copy, Debug, PartialEq, Eq, Structural)]
pub enum Typ {
    /// a regular file
    File,
    /// a directory
    Dir,
    /// a symbolic link
    Symlink,
    /// any other entry kind (socket, fifo, device, ...)
    Other,
}

/// How byte sizes are rendered: raw bytes, or scaled to higher units in
/// powers of 2^10 (binary) or 10^3 (metric).
#[derive(Clone, Copy, Debug, PartialEq, Eq, Structural)]
pub enum SizeUnit {
    /// the raw byte count
    Bytes,
    /// binary multiples: KiB, MiB, GiB, ...
    Binary,
    /// metric multiples: KB, MB, GB, ...
    Metric,
}

/// The timestamp fields a node can render.
#[derive(Clone, Copy, Debug, PartialEq, Eq, Structural)]
pub enum DetailField {
    /// last access time
    Atime,
    /// creation (birth) time
    Btime,
    /// last status-change time
    Ctime,
    /// last modification time
    Mtime,
}

} // verus!
