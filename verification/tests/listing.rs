use pls::config::{EntryConst, NlinkStyles};
use pls::enums::{SizeUnit, Typ};
use pls::node::{Metadata, Node};
use pls::owner::{IdentityCache, IdentitySource};
use pls::pls::Pls;

fn entry_const() -> EntryConst {
    EntryConst {
        dev_style: "dev".to_string(),
        ino_style: "ino".to_string(),
        blocks_style: "blk".to_string(),
        size_style: "siz".to_string(),
        size_unit: SizeUnit::Bytes,
        perm_style: "p".to_string(),
        perm_special_style: "sp".to_string(),
        oct_style: "oct".to_string(),
        user_curr_style: "uc".to_string(),
        user_other_style: "uo".to_string(),
        group_curr_style: "gc".to_string(),
        group_other_style: "go".to_string(),
        nlink_styles: NlinkStyles {
            file_sing: "fs".to_string(),
            file_plur: "fp".to_string(),
            dir_sing: "ds".to_string(),
            dir_plur: "dp".to_string(),
        },
        atime_format: "[year]".to_string(),
        btime_format: "[year]".to_string(),
        ctime_format: "[year]".to_string(),
        mtime_format: "[year]".to_string(),
    }
}

fn metadata(uid: u32) -> Metadata {
    Metadata {
        size: 10,
        blocks: 1,
        dev: 1,
        ino: 2,
        nlink: 1,
        mode: 0o644,
        uid,
        gid: 1000,
        atime: None,
        btime: None,
        ctime: None,
        mtime: Some(0),
    }
}

#[test]
fn cmd_decorates_every_node() {
    let app = Pls { entry_const: entry_const() };
    let nodes = vec![
        Node::new("/a".to_string(), Typ::File, Some(metadata(1000)), None),
        Node::new("/b".to_string(), Typ::Dir, Some(metadata(0)), None),
        Node::new("/c".to_string(), Typ::File, None, None),
    ];
    let mut owners = IdentityCache::new(IdentitySource {
        users: vec![(1000, Some("alice".to_string()))],
        groups: vec![(1000, Some("staff".to_string()))],
        current_uid: 1000,
        current_gid: 1000,
        lookups: 0,
    });
    let rows = app.cmd(&nodes, &mut owners);
    assert_eq!(rows.len(), 3);
    assert_eq!(rows[0].size, Some("<siz>10</>".to_string()));
    assert_eq!(rows[0].user, Some("<uc>alice</>".to_string()));
    assert_eq!(rows[0].oct, Some("<oct>644</>".to_string()));
    // a directory renders no size
    assert_eq!(rows[1].size, None);
    assert_eq!(rows[1].user, Some("<uo>0</>".to_string()));
    // missing metadata degrades to absent cells, not a failure
    assert_eq!(rows[2].size, None);
    assert_eq!(rows[2].user, None);
    // two distinct user ids and one group id were ever looked up
    assert_eq!(owners.source.lookups, 3);
}
