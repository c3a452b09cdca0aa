//! Per-entry detail accessors: each one computes independently, renders as
//! a marked-up string, and degrades to `None` when the value it needs is
//! unavailable, so no entry can fail the whole listing.

use vstd::prelude::*;
use crate::config::EntryConst;
use crate::enums::{DetailField, Typ};
use crate::fmt::{dec_str, markup_dec, markup_of, oct_str, render_size, size_text};
use crate::node::Node;
use crate::owner::{IdentityCache, IdentitySource};
use crate::perm::{styled_perm, Perm};
use crate::owner::bumped;
use crate::timestamp::{
    format_unix, local_offset_seconds, opt_text, time_text_of, MAX_UTC_OFFSET_SECS,
};

verus! {

/// The byte size of an entry: directories have none, since a directory
/// "size" is not meaningful to the tool.
pub open spec fn size_val_of(n: Node) -> Option<u64> {
    match n.meta {
        Some(m) => if n.typ != Typ::Dir {
            Some(m.size)
        } else {
            None
        },
        None => None,
    }
}

/// The block count of an entry, with the same directory exclusion as the
/// byte size.
pub open spec fn blocks_val_of(n: Node) -> Option<u64> {
    match n.meta {
        Some(m) => if n.typ != Typ::Dir {
            Some(m.blocks)
        } else {
            None
        },
        None => None,
    }
}

/// A directory entry has neither a byte size nor a block count.
pub proof fn lemma_dir_has_no_size(n: Node)
    requires
        n.typ == Typ::Dir,
    ensures
        size_val_of(n) is None,
        blocks_val_of(n) is None,
{
}

/// The timestamp of the chosen field, seconds since the epoch.
pub open spec fn time_val_of(n: Node, field: DetailField) -> Option<i64> {
    match n.meta {
        Some(m) => match field {
            DetailField::Atime => m.atime,
            DetailField::Btime => m.btime,
            DetailField::Ctime => m.ctime,
            DetailField::Mtime => m.mtime,
        },
        None => None,
    }
}

/// The owning user's display name, as the identity table resolves it.
pub open spec fn user_name_of(n: Node, src: IdentitySource) -> Option<String> {
    match n.meta {
        Some(m) => src.user_identity(m.uid).name,
        None => None,
    }
}

/// The owning group's display name, as the identity table resolves it.
pub open spec fn group_name_of(n: Node, src: IdentitySource) -> Option<String> {
    match n.meta {
        Some(m) => src.group_identity(m.gid).name,
        None => None,
    }
}

/// What one user-side resolution through the shared cache does to it: a
/// node without metadata touches nothing; otherwise a cached owning uid
/// leaves the cache untouched, an uncached one consults the identity
/// table exactly once, and the uid is cached afterwards — so a second
/// resolution of the same node performs no further lookup.
pub open spec fn user_lookup_step(n: Node, pre: IdentityCache, post: IdentityCache) -> bool {
    match n.meta {
        Some(m) => {
            &&& pre.cached_user(m.uid) is Some ==> post == pre
            &&& pre.cached_user(m.uid) is None ==> post.source.lookups == bumped(
                pre.source.lookups,
            )
            &&& post.cached_user(m.uid) is Some
            &&& post.groups == pre.groups
        },
        None => post == pre,
    }
}

/// What one group-side resolution through the shared cache does to it,
/// exactly as [`user_lookup_step`] for the owning gid.
pub open spec fn group_lookup_step(n: Node, pre: IdentityCache, post: IdentityCache) -> bool {
    match n.meta {
        Some(m) => {
            &&& pre.cached_group(m.gid) is Some ==> post == pre
            &&& pre.cached_group(m.gid) is None ==> post.source.lookups == bumped(
                pre.source.lookups,
            )
            &&& post.cached_group(m.gid) is Some
            &&& post.users == pre.users
        },
        None => post == pre,
    }
}

/// The rendered device-number cell.
pub open spec fn dev_cell_of(n: Node, entry_const: EntryConst) -> Option<Seq<char>> {
    match n.meta {
        Some(m) => Some(markup_of(entry_const.dev_style@, dec_str(m.dev as nat))),
        None => None,
    }
}

/// The rendered inode-number cell.
pub open spec fn ino_cell_of(n: Node, entry_const: EntryConst) -> Option<Seq<char>> {
    match n.meta {
        Some(m) => Some(markup_of(entry_const.ino_style@, dec_str(m.ino as nat))),
        None => None,
    }
}

/// The rendered hard-link-count cell, styled by whether the count is
/// notable for the entry's type.
pub open spec fn nlink_cell_of(n: Node, entry_const: EntryConst) -> Option<Seq<char>> {
    match n.meta {
        Some(m) => Some(
            markup_of(entry_const.nlink_styles.style_of(m.nlink, n.typ), dec_str(m.nlink as nat)),
        ),
        None => None,
    }
}

/// The rendered symbolic-permissions cell.
pub open spec fn perm_cell_of(n: Node, entry_const: EntryConst) -> Option<Seq<char>> {
    match n.meta {
        Some(m) => Some(styled_perm(m.mode, entry_const)),
        None => None,
    }
}

/// The rendered octal-permissions cell.
pub open spec fn oct_cell_of(n: Node, entry_const: EntryConst) -> Option<Seq<char>> {
    match n.meta {
        Some(m) => Some(markup_of(entry_const.oct_style@, oct_str((m.mode & 0o7777) as nat))),
        None => None,
    }
}

/// The rendered byte-size cell (directories have none): the size under
/// the configured unit system, marked up.
pub open spec fn size_cell_of(n: Node, entry_const: EntryConst) -> Option<Seq<char>> {
    match size_val_of(n) {
        Some(v) => Some(
            markup_of(entry_const.size_style@, size_text(v as nat, entry_const.size_unit)),
        ),
        None => None,
    }
}

/// The rendered block-count cell (directories have none).
pub open spec fn blocks_cell_of(n: Node, entry_const: EntryConst) -> Option<Seq<char>> {
    match blocks_val_of(n) {
        Some(v) => Some(markup_of(entry_const.blocks_style@, dec_str(v as nat))),
        None => None,
    }
}

/// The rendered owning-user cell: the name (or the id when no name is
/// known), highlighted when the owner is the invoking user.
pub open spec fn user_cell_of(n: Node, src: IdentitySource, entry_const: EntryConst) -> Option<
    Seq<char>,
> {
    match n.meta {
        Some(m) => Some(
            markup_of(
                src.user_identity(m.uid).style_of(entry_const),
                src.user_identity(m.uid).shown_name(),
            ),
        ),
        None => None,
    }
}

/// The rendered owning-uid cell.
pub open spec fn uid_cell_of(n: Node, src: IdentitySource, entry_const: EntryConst) -> Option<
    Seq<char>,
> {
    match n.meta {
        Some(m) => Some(
            markup_of(src.user_identity(m.uid).style_of(entry_const), dec_str(m.uid as nat)),
        ),
        None => None,
    }
}

/// The rendered owning-group cell.
pub open spec fn group_cell_of(n: Node, src: IdentitySource, entry_const: EntryConst) -> Option<
    Seq<char>,
> {
    match n.meta {
        Some(m) => Some(
            markup_of(
                src.group_identity(m.gid).style_of(entry_const),
                src.group_identity(m.gid).shown_name(),
            ),
        ),
        None => None,
    }
}

/// The rendered owning-gid cell.
pub open spec fn gid_cell_of(n: Node, src: IdentitySource, entry_const: EntryConst) -> Option<
    Seq<char>,
> {
    match n.meta {
        Some(m) => Some(
            markup_of(src.group_identity(m.gid).style_of(entry_const), dec_str(m.gid as nat)),
        ),
        None => None,
    }
}

/// The rendered timestamp cell for the chosen field at a given UTC
/// offset.
pub open spec fn time_cell_of(
    n: Node,
    field: DetailField,
    offset_secs: i32,
    entry_const: EntryConst,
) -> Option<Seq<char>> {
    match time_val_of(n, field) {
        Some(secs) => time_text_of(secs, offset_secs, entry_const.timestamp_format_of(field)),
        None => None,
    }
}

impl Node {
    /// The size of the node in bytes, `None` for directories.
    pub fn size_val(&self) -> (r: Option<u64>)
        ensures
            r == size_val_of(*self),
    {
        match &self.meta {
            Some(m) => if !matches!(self.typ, Typ::Dir) {
                Some(m.size)
            } else {
                None
            },
            None => None,
        }
    }

    /// The block count of the node, `None` for directories.
    pub fn blocks_val(&self) -> (r: Option<u64>)
        ensures
            r == blocks_val_of(*self),
    {
        match &self.meta {
            Some(m) => if !matches!(self.typ, Typ::Dir) {
                Some(m.blocks)
            } else {
                None
            },
            None => None,
        }
    }

    /// The timestamp of the field specified by `field`.
    pub fn time_val(&self, field: DetailField) -> (r: Option<i64>)
        ensures
            r == time_val_of(*self, field),
    {
        match &self.meta {
            Some(m) => match field {
                DetailField::Atime => m.atime,
                DetailField::Btime => m.btime,
                DetailField::Ctime => m.ctime,
                DetailField::Mtime => m.mtime,
            },
            None => None,
        }
    }

    /// The name of the user that owns this node, if known.
    pub fn user_val(&self, owner_man: &mut IdentityCache) -> (r: Option<String>)
        ensures
            old(owner_man).wf() ==> final(owner_man).wf(),
            old(owner_man).wf() ==> r == user_name_of(*self, old(owner_man).source),
            final(owner_man).source.users == old(owner_man).source.users,
            final(owner_man).source.groups == old(owner_man).source.groups,
            final(owner_man).source.current_uid == old(owner_man).source.current_uid,
            final(owner_man).source.current_gid == old(owner_man).source.current_gid,
            user_lookup_step(*self, *old(owner_man), *final(owner_man)),
    {
        match &self.meta {
            Some(m) => owner_man.user(m.uid).name,
            None => None,
        }
    }

    /// The name of the group that owns this node, if known.
    pub fn group_val(&self, owner_man: &mut IdentityCache) -> (r: Option<String>)
        ensures
            old(owner_man).wf() ==> final(owner_man).wf(),
            old(owner_man).wf() ==> r == group_name_of(*self, old(owner_man).source),
            final(owner_man).source.users == old(owner_man).source.users,
            final(owner_man).source.groups == old(owner_man).source.groups,
            final(owner_man).source.current_uid == old(owner_man).source.current_uid,
            final(owner_man).source.current_gid == old(owner_man).source.current_gid,
            group_lookup_step(*self, *old(owner_man), *final(owner_man)),
    {
        match &self.meta {
            Some(m) => owner_man.group(m.gid).name,
            None => None,
        }
    }

    /// The device number of the node, marked up.
    pub fn dev(&self, entry_const: &EntryConst) -> (r: Option<String>)
        ensures
            opt_text(r) == dev_cell_of(*self, *entry_const),
    {
        match &self.meta {
            Some(m) => Some(markup_dec(entry_const.dev_style.as_str(), m.dev)),
            None => None,
        }
    }

    /// The inode number of the node, marked up.
    pub fn ino(&self, entry_const: &EntryConst) -> (r: Option<String>)
        ensures
            opt_text(r) == ino_cell_of(*self, *entry_const),
    {
        match &self.meta {
            Some(m) => Some(markup_dec(entry_const.ino_style.as_str(), m.ino)),
            None => None,
        }
    }

    /// The hard-link count of the node, marked up: a file with more than
    /// one link and a directory with exactly one are the notable cases.
    pub fn nlink(&self, entry_const: &EntryConst) -> (r: Option<String>)
        ensures
            opt_text(r) == nlink_cell_of(*self, *entry_const),
    {
        match &self.meta {
            Some(m) => Some(entry_const.nlink_styles.format(m.nlink, &self.typ)),
            None => None,
        }
    }

    /// The symbolic permission rendering of the node, marked up.
    pub fn perm(&self, entry_const: &EntryConst) -> (r: Option<String>)
        ensures
            opt_text(r) == perm_cell_of(*self, *entry_const),
    {
        match &self.meta {
            Some(m) => Some(Perm::from_mode(m.mode).sym(entry_const)),
            None => None,
        }
    }

    /// The octal permission rendering of the node, marked up.
    pub fn oct(&self, entry_const: &EntryConst) -> (r: Option<String>)
        ensures
            opt_text(r) == oct_cell_of(*self, *entry_const),
    {
        match &self.meta {
            Some(m) => Some(Perm::from_mode(m.mode).oct(entry_const)),
            None => None,
        }
    }

    /// The owning user of the node, marked up and highlighted when it is
    /// the invoking user.
    pub fn user(&self, owner_man: &mut IdentityCache, entry_const: &EntryConst) -> (r: Option<
        String,
    >)
        ensures
            old(owner_man).wf() ==> final(owner_man).wf(),
            old(owner_man).wf() ==> opt_text(r) == user_cell_of(
                *self,
                old(owner_man).source,
                *entry_const,
            ),
            final(owner_man).source.users == old(owner_man).source.users,
            final(owner_man).source.groups == old(owner_man).source.groups,
            final(owner_man).source.current_uid == old(owner_man).source.current_uid,
            final(owner_man).source.current_gid == old(owner_man).source.current_gid,
            user_lookup_step(*self, *old(owner_man), *final(owner_man)),
    {
        match &self.meta {
            Some(m) => {
                let identity = owner_man.user(m.uid);
                Some(identity.name(entry_const))
            },
            None => None,
        }
    }

    /// The owning user id of the node, marked up and highlighted when it
    /// is the invoking user.
    pub fn uid(&self, owner_man: &mut IdentityCache, entry_const: &EntryConst) -> (r: Option<
        String,
    >)
        ensures
            old(owner_man).wf() ==> final(owner_man).wf(),
            old(owner_man).wf() ==> opt_text(r) == uid_cell_of(
                *self,
                old(owner_man).source,
                *entry_const,
            ),
            final(owner_man).source.users == old(owner_man).source.users,
            final(owner_man).source.groups == old(owner_man).source.groups,
            final(owner_man).source.current_uid == old(owner_man).source.current_uid,
            final(owner_man).source.current_gid == old(owner_man).source.current_gid,
            user_lookup_step(*self, *old(owner_man), *final(owner_man)),
    {
        match &self.meta {
            Some(m) => {
                let identity = owner_man.user(m.uid);
                Some(identity.id(entry_const))
            },
            None => None,
        }
    }

    /// The owning group of the node, marked up and highlighted when the
    /// invoking user belongs to it.
    pub fn group(&self, owner_man: &mut IdentityCache, entry_const: &EntryConst) -> (r: Option<
        String,
    >)
        ensures
            old(owner_man).wf() ==> final(owner_man).wf(),
            old(owner_man).wf() ==> opt_text(r) == group_cell_of(
                *self,
                old(owner_man).source,
                *entry_const,
            ),
            final(owner_man).source.users == old(owner_man).source.users,
            final(owner_man).source.groups == old(owner_man).source.groups,
            final(owner_man).source.current_uid == old(owner_man).source.current_uid,
            final(owner_man).source.current_gid == old(owner_man).source.current_gid,
            group_lookup_step(*self, *old(owner_man), *final(owner_man)),
    {
        match &self.meta {
            Some(m) => {
                let identity = owner_man.group(m.gid);
                Some(identity.name(entry_const))
            },
            None => None,
        }
    }

    /// The owning group id of the node, marked up and highlighted when
    /// the invoking user belongs to it.
    pub fn gid(&self, owner_man: &mut IdentityCache, entry_const: &EntryConst) -> (r: Option<
        String,
    >)
        ensures
            old(owner_man).wf() ==> final(owner_man).wf(),
            old(owner_man).wf() ==> opt_text(r) == gid_cell_of(
                *self,
                old(owner_man).source,
                *entry_const,
            ),
            final(owner_man).source.users == old(owner_man).source.users,
            final(owner_man).source.groups == old(owner_man).source.groups,
            final(owner_man).source.current_uid == old(owner_man).source.current_uid,
            final(owner_man).source.current_gid == old(owner_man).source.current_gid,
            group_lookup_step(*self, *old(owner_man), *final(owner_man)),
    {
        match &self.meta {
            Some(m) => {
                let identity = owner_man.group(m.gid);
                Some(identity.id(entry_const))
            },
            None => None,
        }
    }

    /// The byte size of the node under the configured unit system, marked
    /// up; `None` for directories.
    pub fn size(&self, entry_const: &EntryConst) -> (r: Option<String>)
        ensures
            opt_text(r) == size_cell_of(*self, *entry_const),
    {
        match self.size_val() {
            Some(v) => {
                let value = render_size(v, entry_const.size_unit);
                Some(crate::fmt::markup(entry_const.size_style.as_str(), value.as_str()))
            },
            None => None,
        }
    }

    /// The block count of the node, marked up; `None` for directories.
    pub fn blocks(&self, entry_const: &EntryConst) -> (r: Option<String>)
        ensures
            opt_text(r) == blocks_cell_of(*self, *entry_const),
    {
        match self.blocks_val() {
            Some(v) => Some(markup_dec(entry_const.blocks_style.as_str(), v)),
            None => None,
        }
    }

    /// The chosen timestamp rendered at a given UTC offset under the
    /// configured format; `None` when the timestamp is unavailable or the
    /// format description is not renderable.
    pub fn time_with_offset(
        &self,
        field: DetailField,
        offset_secs: i32,
        entry_const: &EntryConst,
    ) -> (r: Option<String>)
        ensures
            opt_text(r) == time_cell_of(*self, field, offset_secs, *entry_const),
    {
        match self.time_val(field) {
            Some(secs) => format_unix(secs, offset_secs, entry_const.timestamp_format(field)),
            None => None,
        }
    }

    /// The chosen timestamp rendered at the process's current UTC offset,
    /// falling back to UTC when the offset cannot be determined.
    pub fn time(&self, field: DetailField, entry_const: &EntryConst) -> (r: Option<String>)
        ensures
            time_val_of(*self, field) is None ==> r is None,
            exists|off: i32|
                -MAX_UTC_OFFSET_SECS <= off <= MAX_UTC_OFFSET_SECS && opt_text(r) == time_cell_of(
                    *self,
                    field,
                    off,
                    *entry_const,
                ),
    {
        let off = match local_offset_seconds() {
            Some(o) => o,
            None => 0,
        };
        let r = self.time_with_offset(field, off, entry_const);
        proof {
            assert(opt_text(r) == time_cell_of(*self, field, off, *entry_const));
        }
        r
    }
}

/// The capability interface for one entry's detail fields: the raw values
/// the listing sorts by, and the marked-up renderings it displays.
pub trait Detail {
    /// The byte size; `None` for directories.
    fn size_val(&self) -> Option<u64>;

    /// The block count; `None` for directories.
    fn blocks_val(&self) -> Option<u64>;

    /// The timestamp of the chosen field, seconds since the epoch.
    fn time_val(&self, field: DetailField) -> Option<i64>;

    /// The owning user's name, if known.
    fn user_val(&self, owner_man: &mut IdentityCache) -> Option<String>;

    /// The owning group's name, if known.
    fn group_val(&self, owner_man: &mut IdentityCache) -> Option<String>;

    /// The device number, marked up.
    fn dev(&self, entry_const: &EntryConst) -> Option<String>;

    /// The inode number, marked up.
    fn ino(&self, entry_const: &EntryConst) -> Option<String>;

    /// The hard-link count, marked up.
    fn nlink(&self, entry_const: &EntryConst) -> Option<String>;

    /// The symbolic permission rendering, marked up.
    fn perm(&self, entry_const: &EntryConst) -> Option<String>;

    /// The octal permission rendering, marked up.
    fn oct(&self, entry_const: &EntryConst) -> Option<String>;

    /// The owning user, marked up.
    fn user(&self, owner_man: &mut IdentityCache, entry_const: &EntryConst) -> Option<String>;

    /// The owning user id, marked up.
    fn uid(&self, owner_man: &mut IdentityCache, entry_const: &EntryConst) -> Option<String>;

    /// The owning group, marked up.
    fn group(&self, owner_man: &mut IdentityCache, entry_const: &EntryConst) -> Option<String>;

    /// The owning group id, marked up.
    fn gid(&self, owner_man: &mut IdentityCache, entry_const: &EntryConst) -> Option<String>;

    /// The byte size, marked up.
    fn size(&self, entry_const: &EntryConst) -> Option<String>;

    /// The block count, marked up.
    fn blocks(&self, entry_const: &EntryConst) -> Option<String>;

    /// The chosen timestamp, marked up.
    fn time(&self, field: DetailField, entry_const: &EntryConst) -> Option<String>;

    /// The version-control status cell.
    fn git(&self, entry_const: &EntryConst) -> Option<String>;
}

impl Detail for Node {
    fn size_val(&self) -> (r: Option<u64>)
        ensures
            r == size_val_of(*self),
    {
        Node::size_val(self)
    }

    fn blocks_val(&self) -> (r: Option<u64>)
        ensures
            r == blocks_val_of(*self),
    {
        Node::blocks_val(self)
    }

    fn time_val(&self, field: DetailField) -> (r: Option<i64>)
        ensures
            r == time_val_of(*self, field),
    {
        Node::time_val(self, field)
    }

    fn user_val(&self, owner_man: &mut IdentityCache) -> (r: Option<String>)
        ensures
            old(owner_man).wf() ==> final(owner_man).wf(),
            final(owner_man).source.users == old(owner_man).source.users,
            final(owner_man).source.groups == old(owner_man).source.groups,
            final(owner_man).source.current_uid == old(owner_man).source.current_uid,
            final(owner_man).source.current_gid == old(owner_man).source.current_gid,
            user_lookup_step(*self, *old(owner_man), *final(owner_man)),
            old(owner_man).wf() ==> r == user_name_of(*self, old(owner_man).source),
    {
        Node::user_val(self, owner_man)
    }

    fn group_val(&self, owner_man: &mut IdentityCache) -> (r: Option<String>)
        ensures
            old(owner_man).wf() ==> final(owner_man).wf(),
            final(owner_man).source.users == old(owner_man).source.users,
            final(owner_man).source.groups == old(owner_man).source.groups,
            final(owner_man).source.current_uid == old(owner_man).source.current_uid,
            final(owner_man).source.current_gid == old(owner_man).source.current_gid,
            group_lookup_step(*self, *old(owner_man), *final(owner_man)),
            old(owner_man).wf() ==> r == group_name_of(*self, old(owner_man).source),
    {
        Node::group_val(self, owner_man)
    }

    fn dev(&self, entry_const: &EntryConst) -> (r: Option<String>)
        ensures
            opt_text(r) == dev_cell_of(*self, *entry_const),
    {
        Node::dev(self, entry_const)
    }

    fn ino(&self, entry_const: &EntryConst) -> (r: Option<String>)
        ensures
            opt_text(r) == ino_cell_of(*self, *entry_const),
    {
        Node::ino(self, entry_const)
    }

    fn nlink(&self, entry_const: &EntryConst) -> (r: Option<String>)
        ensures
            opt_text(r) == nlink_cell_of(*self, *entry_const),
    {
        Node::nlink(self, entry_const)
    }

    fn perm(&self, entry_const: &EntryConst) -> (r: Option<String>)
        ensures
            opt_text(r) == perm_cell_of(*self, *entry_const),
    {
        Node::perm(self, entry_const)
    }

    fn oct(&self, entry_const: &EntryConst) -> (r: Option<String>)
        ensures
            opt_text(r) == oct_cell_of(*self, *entry_const),
    {
        Node::oct(self, entry_const)
    }

    fn user(&self, owner_man: &mut IdentityCache, entry_const: &EntryConst) -> (r: Option<String>)
        ensures
            old(owner_man).wf() ==> final(owner_man).wf(),
            final(owner_man).source.users == old(owner_man).source.users,
            final(owner_man).source.groups == old(owner_man).source.groups,
            final(owner_man).source.current_uid == old(owner_man).source.current_uid,
            final(owner_man).source.current_gid == old(owner_man).source.current_gid,
            user_lookup_step(*self, *old(owner_man), *final(owner_man)),
            old(owner_man).wf() ==> opt_text(r) == user_cell_of(
                *self,
                old(owner_man).source,
                *entry_const,
            ),
    {
        Node::user(self, owner_man, entry_const)
    }

    fn uid(&self, owner_man: &mut IdentityCache, entry_const: &EntryConst) -> (r: Option<String>)
        ensures
            old(owner_man).wf() ==> final(owner_man).wf(),
            final(owner_man).source.users == old(owner_man).source.users,
            final(owner_man).source.groups == old(owner_man).source.groups,
            final(owner_man).source.current_uid == old(owner_man).source.current_uid,
            final(owner_man).source.current_gid == old(owner_man).source.current_gid,
            user_lookup_step(*self, *old(owner_man), *final(owner_man)),
            old(owner_man).wf() ==> opt_text(r) == uid_cell_of(
                *self,
                old(owner_man).source,
                *entry_const,
            ),
    {
        Node::uid(self, owner_man, entry_const)
    }

    fn group(&self, owner_man: &mut IdentityCache, entry_const: &EntryConst) -> (r: Option<String>)
        ensures
            old(owner_man).wf() ==> final(owner_man).wf(),
            final(owner_man).source.users == old(owner_man).source.users,
            final(owner_man).source.groups == old(owner_man).source.groups,
            final(owner_man).source.current_uid == old(owner_man).source.current_uid,
            final(owner_man).source.current_gid == old(owner_man).source.current_gid,
            group_lookup_step(*self, *old(owner_man), *final(owner_man)),
            old(owner_man).wf() ==> opt_text(r) == group_cell_of(
                *self,
                old(owner_man).source,
                *entry_const,
            ),
    {
        Node::group(self, owner_man, entry_const)
    }

    fn gid(&self, owner_man: &mut IdentityCache, entry_const: &EntryConst) -> (r: Option<String>)
        ensures
            old(owner_man).wf() ==> final(owner_man).wf(),
            final(owner_man).source.users == old(owner_man).source.users,
            final(owner_man).source.groups == old(owner_man).source.groups,
            final(owner_man).source.current_uid == old(owner_man).source.current_uid,
            final(owner_man).source.current_gid == old(owner_man).source.current_gid,
            group_lookup_step(*self, *old(owner_man), *final(owner_man)),
            old(owner_man).wf() ==> opt_text(r) == gid_cell_of(
                *self,
                old(owner_man).source,
                *entry_const,
            ),
    {
        Node::gid(self, owner_man, entry_const)
    }

    fn size(&self, entry_const: &EntryConst) -> (r: Option<String>)
        ensures
            opt_text(r) == size_cell_of(*self, *entry_const),
    {
        Node::size(self, entry_const)
    }

    fn blocks(&self, entry_const: &EntryConst) -> (r: Option<String>)
        ensures
            opt_text(r) == blocks_cell_of(*self, *entry_const),
    {
        Node::blocks(self, entry_const)
    }

    fn time(&self, field: DetailField, entry_const: &EntryConst) -> (r: Option<String>)
        ensures
            time_val_of(*self, field) is None ==> r is None,
            exists|off: i32|
                -MAX_UTC_OFFSET_SECS <= off <= MAX_UTC_OFFSET_SECS && opt_text(r) == time_cell_of(
                    *self,
                    field,
                    off,
                    *entry_const,
                ),
    {
        Node::time(self, field, entry_const)
    }

    fn git(&self, entry_const: &EntryConst) -> (r: Option<String>)
        ensures
            r is Some,
            self.canon is None ==> (r matches Some(s) && s@ == crate::gitx::blank_cell()),
            r matches Some(s) ==> crate::gitx::is_status_cell(s@),
    {
        Node::git(self, entry_const)
    }
}

} // verus!
