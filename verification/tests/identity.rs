use pls::enums::SizeUnit;
use pls::config::{EntryConst, NlinkStyles};
use pls::owner::{IdentityCache, IdentitySource};

fn entry_const() -> EntryConst {
    EntryConst {
        dev_style: "dev".to_string(),
        ino_style: "ino".to_string(),
        blocks_style: "blk".to_string(),
        size_style: "siz".to_string(),
        size_unit: SizeUnit::Bytes,
        perm_style: "p".to_string(),
        perm_special_style: "sp".to_string(),
        oct_style: "oct".to_string(),
        user_curr_style: "uc".to_string(),
        user_other_style: "uo".to_string(),
        group_curr_style: "gc".to_string(),
        group_other_style: "go".to_string(),
        nlink_styles: NlinkStyles {
            file_sing: "fs".to_string(),
            file_plur: "fp".to_string(),
            dir_sing: "ds".to_string(),
            dir_plur: "dp".to_string(),
        },
        atime_format: "[year]".to_string(),
        btime_format: "[year]".to_string(),
        ctime_format: "[year]".to_string(),
        mtime_format: "[year]".to_string(),
    }
}

fn source() -> IdentitySource {
    IdentitySource {
        users: vec![(1000, Some("alice".to_string())), (0, Some("root".to_string()))],
        groups: vec![(1000, Some("staff".to_string()))],
        current_uid: 1000,
        current_gid: 1000,
        lookups: 0,
    }
}

#[test]
fn second_lookup_is_answered_from_the_cache() {
    let mut cache = IdentityCache::new(source());
    let first = cache.user(1000);
    assert_eq!(cache.source.lookups, 1);
    let second = cache.user(1000);
    assert_eq!(cache.source.lookups, 1);
    assert_eq!(first, second);
    assert_eq!(first.name, Some("alice".to_string()));
    assert!(first.is_self);
}

#[test]
fn distinct_ids_each_cost_one_lookup() {
    let mut cache = IdentityCache::new(source());
    cache.user(1000);
    cache.user(0);
    cache.user(1000);
    cache.user(0);
    assert_eq!(cache.source.lookups, 2);
}

#[test]
fn unknown_id_resolves_without_a_name() {
    let mut cache = IdentityCache::new(source());
    let identity = cache.user(42);
    assert_eq!(identity.name, None);
    assert!(!identity.is_self);
    // the miss is cached too: no second lookup
    cache.user(42);
    assert_eq!(cache.source.lookups, 1);
}

#[test]
fn group_cache_is_independent_of_user_cache() {
    let mut cache = IdentityCache::new(source());
    let group = cache.group(1000);
    assert_eq!(group.name, Some("staff".to_string()));
    assert!(group.is_self);
    assert_eq!(cache.source.lookups, 1);
    let user = cache.user(1000);
    assert_eq!(user.name, Some("alice".to_string()));
    assert_eq!(cache.source.lookups, 2);
}

#[test]
fn identity_rendering_highlights_the_invoking_user() {
    let ec = entry_const();
    let mut cache = IdentityCache::new(source());
    let own = cache.user(1000);
    assert_eq!(own.name(&ec), "<uc>alice</>");
    assert_eq!(own.id(&ec), "<uc>1000</>");
    let other = cache.user(0);
    assert_eq!(other.name(&ec), "<uo>root</>");
    assert_eq!(other.id(&ec), "<uo>0</>");
}

#[test]
fn nameless_identity_renders_its_id() {
    let ec = entry_const();
    let mut cache = IdentityCache::new(source());
    let identity = cache.user(42);
    assert_eq!(identity.name(&ec), "<uo>42</>");
}

#[test]
fn group_rendering_uses_group_styles() {
    let ec = entry_const();
    let mut cache = IdentityCache::new(source());
    let own = cache.group(1000);
    assert_eq!(own.name(&ec), "<gc>staff</>");
    let other = cache.group(7);
    assert_eq!(other.id(&ec), "<go>7</>");
}
