//! The listing pass: one shared styling configuration and one shared
//! identity cache decorate every node of an invocation.

use vstd::prelude::*;
use crate::config::EntryConst;
use crate::detail::{
    blocks_cell_of, dev_cell_of, gid_cell_of, group_cell_of, ino_cell_of, nlink_cell_of,
    oct_cell_of, perm_cell_of, size_cell_of, uid_cell_of, user_cell_of,
};
use crate::node::Node;
use crate::owner::{IdentityCache, IdentitySource};
use crate::timestamp::opt_text;

verus! {

/// The rendered detail cells of one entry whose values depend on the
/// entry and the identity table alone (the timestamp and status cells,
/// which consult the environment, are rendered separately).
pub struct DetailRow {
    /// device number cell
    pub dev: Option<String>,
    /// inode number cell
    pub ino: Option<String>,
    /// hard-link count cell
    pub nlink: Option<String>,
    /// symbolic permissions cell
    pub perm: Option<String>,
    /// octal permissions cell
    pub oct: Option<String>,
    /// byte size cell
    pub size: Option<String>,
    /// block count cell
    pub blocks: Option<String>,
    /// owning user cell
    pub user: Option<String>,
    /// owning user id cell
    pub uid: Option<String>,
    /// owning group cell
    pub group: Option<String>,
    /// owning group id cell
    pub gid: Option<String>,
}

/// Whether a row holds exactly the cells the accessors specify for a node
/// against an identity table.
pub open spec fn row_matches(
    row: DetailRow,
    n: Node,
    src: IdentitySource,
    entry_const: EntryConst,
) -> bool {
    &&& opt_text(row.dev) == dev_cell_of(n, entry_const)
    &&& opt_text(row.ino) == ino_cell_of(n, entry_const)
    &&& opt_text(row.nlink) == nlink_cell_of(n, entry_const)
    &&& opt_text(row.perm) == perm_cell_of(n, entry_const)
    &&& opt_text(row.oct) == oct_cell_of(n, entry_const)
    &&& opt_text(row.size) == size_cell_of(n, entry_const)
    &&& opt_text(row.blocks) == blocks_cell_of(n, entry_const)
    &&& opt_text(row.user) == user_cell_of(n, src, entry_const)
    &&& opt_text(row.uid) == uid_cell_of(n, src, entry_const)
    &&& opt_text(row.group) == group_cell_of(n, src, entry_const)
    &&& opt_text(row.gid) == gid_cell_of(n, src, entry_const)
}

/// The application state of one invocation: the styling configuration
/// every accessor consults, passed explicitly rather than read from a
/// global.
pub struct Pls {
    /// per-entry styling configuration
    pub entry_const: EntryConst,
}

impl Pls {
    /// The entrypoint of one listing pass over already-constructed nodes:
    /// decorate every node with its detail cells, sharing one identity
    /// cache across all of them so lookups amortize.
    pub fn cmd(&self, nodes: &Vec<Node>, owner_man: &mut IdentityCache) -> (rows: Vec<DetailRow>)
        ensures
            rows@.len() == nodes@.len(),
            old(owner_man).wf() ==> final(owner_man).wf(),
            old(owner_man).wf() ==> forall|i: int|
                0 <= i < nodes@.len() ==> row_matches(
                    #[trigger] rows@[i],
                    nodes@[i],
                    old(owner_man).source,
                    self.entry_const,
                ),
            final(owner_man).source.users == old(owner_man).source.users,
            final(owner_man).source.groups == old(owner_man).source.groups,
            final(owner_man).source.current_uid == old(owner_man).source.current_uid,
            final(owner_man).source.current_gid == old(owner_man).source.current_gid,
    {
        let mut rows: Vec<DetailRow> = Vec::new();
        let n = nodes.len();
        let mut i: usize = 0;
        while i < n
            invariant
                i <= n,
                n == nodes@.len(),
                rows@.len() == i,
                old(owner_man).wf() ==> owner_man.wf(),
                owner_man.source.users == old(owner_man).source.users,
                owner_man.source.groups == old(owner_man).source.groups,
                owner_man.source.current_uid == old(owner_man).source.current_uid,
                owner_man.source.current_gid == old(owner_man).source.current_gid,
                old(owner_man).wf() ==> forall|k: int|
                    0 <= k < i ==> row_matches(
                        #[trigger] rows@[k],
                        nodes@[k],
                        old(owner_man).source,
                        self.entry_const,
                    ),
            decreases n - i,
        {
            let node = &nodes[i];
            let row = DetailRow {
                dev: node.dev(&self.entry_const),
                ino: node.ino(&self.entry_const),
                nlink: node.nlink(&self.entry_const),
                perm: node.perm(&self.entry_const),
                oct: node.oct(&self.entry_const),
                size: node.size(&self.entry_const),
                blocks: node.blocks(&self.entry_const),
                user: node.user(owner_man, &self.entry_const),
                uid: node.uid(owner_man, &self.entry_const),
                group: node.group(owner_man, &self.entry_const),
                gid: node.gid(owner_man, &self.entry_const),
            };
            rows.push(row);
            i = i + 1;
        }
        rows
    }
}

} // verus!
