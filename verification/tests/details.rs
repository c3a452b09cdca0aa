use pls::config::{EntryConst, NlinkStyles};
use pls::enums::{DetailField, SizeUnit, Typ};
use pls::node::{Metadata, Node};
use pls::owner::{IdentityCache, IdentitySource};

fn entry_const() -> EntryConst {
    EntryConst {
        dev_style: "dev".to_string(),
        ino_style: "ino".to_string(),
        blocks_style: "blk".to_string(),
        size_style: "siz".to_string(),
        size_unit: SizeUnit::Bytes,
        perm_style: "p".to_string(),
        perm_special_style: "sp".to_string(),
        oct_style: "oct".to_string(),
        user_curr_style: "uc".to_string(),
        user_other_style: "uo".to_string(),
        group_curr_style: "gc".to_string(),
        group_other_style: "go".to_string(),
        nlink_styles: NlinkStyles {
            file_sing: "fs".to_string(),
            file_plur: "fp".to_string(),
            dir_sing: "ds".to_string(),
            dir_plur: "dp".to_string(),
        },
        atime_format: "[year]".to_string(),
        btime_format: "[year]".to_string(),
        ctime_format: "[year]".to_string(),
        mtime_format: "[year]-[month]-[day] [hour]:[minute]".to_string(),
    }
}

fn metadata() -> Metadata {
    Metadata {
        size: 1234,
        blocks: 8,
        dev: 64768,
        ino: 5309,
        nlink: 1,
        mode: 0o100644,
        uid: 1000,
        gid: 1000,
        atime: Some(86400),
        btime: None,
        ctime: Some(100),
        mtime: Some(0),
    }
}

fn cache() -> IdentityCache {
    IdentityCache::new(IdentitySource {
        users: vec![(1000, Some("alice".to_string()))],
        groups: vec![(1000, Some("staff".to_string()))],
        current_uid: 1000,
        current_gid: 1000,
        lookups: 0,
    })
}

fn file_node() -> Node {
    Node::new("/tmp/file".to_string(), Typ::File, Some(metadata()), None)
}

fn dir_node() -> Node {
    Node::new("/tmp/dir".to_string(), Typ::Dir, Some(metadata()), None)
}

#[test]
fn directory_has_no_size() {
    assert_eq!(dir_node().size_val(), None);
    assert_eq!(file_node().size_val(), Some(1234));
}

#[test]
fn directory_has_no_block_count() {
    assert_eq!(dir_node().blocks_val(), None);
    assert_eq!(file_node().blocks_val(), Some(8));
}

#[test]
fn directory_renders_no_size_or_blocks() {
    let ec = entry_const();
    assert_eq!(dir_node().size(&ec), None);
    assert_eq!(dir_node().blocks(&ec), None);
    assert_eq!(file_node().size(&ec), Some("<siz>1234</>".to_string()));
    assert_eq!(file_node().blocks(&ec), Some("<blk>8</>".to_string()));
}

#[test]
fn missing_metadata_degrades_every_field_to_none() {
    let ec = entry_const();
    let node = Node::new("/tmp/gone".to_string(), Typ::File, None, None);
    let mut owners = cache();
    assert_eq!(node.size_val(), None);
    assert_eq!(node.blocks_val(), None);
    assert_eq!(node.time_val(DetailField::Mtime), None);
    assert_eq!(node.dev(&ec), None);
    assert_eq!(node.ino(&ec), None);
    assert_eq!(node.nlink(&ec), None);
    assert_eq!(node.perm(&ec), None);
    assert_eq!(node.oct(&ec), None);
    assert_eq!(node.user(&mut owners, &ec), None);
    assert_eq!(node.time(DetailField::Mtime, &ec), None);
    assert_eq!(owners.source.lookups, 0);
}

#[test]
fn size_scales_under_binary_units() {
    let mut ec = entry_const();
    ec.size_unit = SizeUnit::Binary;
    let sized = |bytes: u64| {
        let mut meta = metadata();
        meta.size = bytes;
        Node::new("/tmp/file".to_string(), Typ::File, Some(meta), None)
    };
    assert_eq!(sized(999).size(&ec), Some("<siz>999B</>".to_string()));
    assert_eq!(sized(1536).size(&ec), Some("<siz>1KiB</>".to_string()));
    assert_eq!(sized(1048576).size(&ec), Some("<siz>1MiB</>".to_string()));
    assert_eq!(sized(3 * 1024 * 1024 * 1024).size(&ec), Some("<siz>3GiB</>".to_string()));
}

#[test]
fn size_scales_under_metric_units() {
    let mut ec = entry_const();
    ec.size_unit = SizeUnit::Metric;
    let sized = |bytes: u64| {
        let mut meta = metadata();
        meta.size = bytes;
        Node::new("/tmp/file".to_string(), Typ::File, Some(meta), None)
    };
    assert_eq!(sized(999).size(&ec), Some("<siz>999B</>".to_string()));
    assert_eq!(sized(1500).size(&ec), Some("<siz>1KB</>".to_string()));
    assert_eq!(sized(2_000_000).size(&ec), Some("<siz>2MB</>".to_string()));
}

#[test]
fn time_val_picks_the_chosen_field() {
    let node = file_node();
    assert_eq!(node.time_val(DetailField::Atime), Some(86400));
    assert_eq!(node.time_val(DetailField::Btime), None);
    assert_eq!(node.time_val(DetailField::Ctime), Some(100));
    assert_eq!(node.time_val(DetailField::Mtime), Some(0));
}

#[test]
fn dev_ino_render_their_numbers() {
    let ec = entry_const();
    assert_eq!(file_node().dev(&ec), Some("<dev>64768</>".to_string()));
    assert_eq!(file_node().ino(&ec), Some("<ino>5309</>".to_string()));
}

#[test]
fn nlink_styles_by_type_and_count() {
    let ec = entry_const();
    assert_eq!(file_node().nlink(&ec), Some("<fs>1</>".to_string()));
    assert_eq!(dir_node().nlink(&ec), Some("<ds>1</>".to_string()));
    let mut meta = metadata();
    meta.nlink = 3;
    let linked = Node::new("/tmp/file".to_string(), Typ::File, Some(meta), None);
    assert_eq!(linked.nlink(&ec), Some("<fp>3</>".to_string()));
}

#[test]
fn perm_and_oct_render_the_mode() {
    let ec = entry_const();
    assert_eq!(
        file_node().perm(&ec),
        Some("<p>r</><p>w</><p>-</><p>r</><p>-</><p>-</><p>r</><p>-</><p>-</>".to_string())
    );
    assert_eq!(file_node().oct(&ec), Some("<oct>644</>".to_string()));
}

#[test]
fn owner_fields_resolve_through_the_cache() {
    let ec = entry_const();
    let mut owners = cache();
    let node = file_node();
    assert_eq!(node.user_val(&mut owners), Some("alice".to_string()));
    assert_eq!(node.group_val(&mut owners), Some("staff".to_string()));
    assert_eq!(node.user(&mut owners, &ec), Some("<uc>alice</>".to_string()));
    assert_eq!(node.uid(&mut owners, &ec), Some("<uc>1000</>".to_string()));
    assert_eq!(node.group(&mut owners, &ec), Some("<gc>staff</>".to_string()));
    assert_eq!(node.gid(&mut owners, &ec), Some("<gc>1000</>".to_string()));
    // two ids, each resolved once, however many fields rendered
    assert_eq!(owners.source.lookups, 2);
}

#[test]
fn epoch_renders_under_the_configured_format() {
    let ec = entry_const();
    assert_eq!(
        file_node().time_with_offset(DetailField::Mtime, 0, &ec),
        Some("1970-01-01 00:00".to_string())
    );
}

#[test]
fn offset_shifts_the_rendered_time() {
    let ec = entry_const();
    assert_eq!(
        file_node().time_with_offset(DetailField::Mtime, 3600, &ec),
        Some("1970-01-01 01:00".to_string())
    );
    assert_eq!(
        file_node().time_with_offset(DetailField::Mtime, -3600, &ec),
        Some("1969-12-31 23:00".to_string())
    );
}

#[test]
fn one_day_in_renders_the_second_day() {
    let ec = entry_const();
    assert_eq!(
        file_node().time_with_offset(DetailField::Atime, 0, &ec),
        Some("1970".to_string())
    );
}

#[test]
fn malformed_format_renders_nothing() {
    let mut ec = entry_const();
    ec.mtime_format = "[".to_string();
    assert_eq!(file_node().time_with_offset(DetailField::Mtime, 0, &ec), None);
}

#[test]
fn extreme_timestamp_shifted_east_renders_nothing() {
    // the last representable second of the backend's final year cannot be
    // shifted east; the rendering degrades instead of failing
    let ec = entry_const();
    let mut meta = metadata();
    meta.mtime = Some(253402300799);
    let node = Node::new("/tmp/far".to_string(), Typ::File, Some(meta), None);
    assert_eq!(node.time_with_offset(DetailField::Mtime, 3600, &ec), None);
    assert_eq!(
        node.time_with_offset(DetailField::Mtime, 0, &ec),
        Some("9999-12-31 23:59".to_string())
    );
}

#[test]
fn offset_beyond_the_backend_range_renders_nothing() {
    let ec = entry_const();
    assert_eq!(file_node().time_with_offset(DetailField::Mtime, 100000, &ec), None);
    assert_eq!(file_node().time_with_offset(DetailField::Mtime, -100000, &ec), None);
    assert_eq!(
        file_node().time_with_offset(DetailField::Mtime, 93599, &ec),
        Some("1970-01-02 01:59".to_string())
    );
}

#[test]
fn absent_timestamp_renders_nothing() {
    let ec = entry_const();
    assert_eq!(file_node().time_with_offset(DetailField::Btime, 0, &ec), None);
    assert_eq!(file_node().time(DetailField::Btime, &ec), None);
}
