use pls::enums::Typ;
use pls::node::Node;
use pls::sym::{resolve_target_path, LinkReading, Sym, SymTarget, TargetProbe};

#[test]
fn relative_target_resolves_against_own_parent() {
    assert_eq!(resolve_target_path("/home/user/link", "notes.txt"), "/home/user/notes.txt");
    assert_eq!(resolve_target_path("/home/user/link", "../other"), "/home/user/../other");
}

#[test]
fn absolute_target_is_used_verbatim() {
    assert_eq!(resolve_target_path("/home/user/link", "/etc/hosts"), "/etc/hosts");
}

#[test]
fn target_under_root_keeps_single_slash() {
    assert_eq!(resolve_target_path("/link", "etc"), "/etc");
}

#[test]
fn bare_link_name_resolves_to_target_itself() {
    assert_eq!(resolve_target_path("link", "target"), "target");
}

#[test]
fn non_symlink_has_no_target() {
    let node = Node::new("/tmp/file".to_string(), Typ::File, None, None);
    let r = node.target(
        LinkReading::Text("x".to_string()),
        TargetProbe::Missing,
    );
    assert!(r.is_none());
}

#[test]
fn loop_probe_resolves_to_cyclic() {
    let node = Node::new("/tmp/loop".to_string(), Typ::Symlink, None, None);
    let r = node.target(
        LinkReading::Text("loop".to_string()),
        TargetProbe::LoopDetected,
    );
    match r {
        Some(SymTarget::Cyclic(text)) => assert_eq!(text, "loop"),
        _ => panic!("expected a cyclic target"),
    }
}

#[test]
fn missing_target_resolves_to_broken() {
    let node = Node::new("/tmp/dangling".to_string(), Typ::Symlink, None, None);
    let r = node.target(
        LinkReading::Text("gone".to_string()),
        TargetProbe::Missing,
    );
    match r {
        Some(SymTarget::Broken(text)) => assert_eq!(text, "gone"),
        _ => panic!("expected a broken target"),
    }
}

#[test]
fn existing_target_resolves_to_node_at_normalized_path() {
    let node = Node::new("/srv/data/link".to_string(), Typ::Symlink, None, None);
    let r = node.target(
        LinkReading::Text("real".to_string()),
        TargetProbe::Exists(Typ::File, None),
    );
    match r {
        Some(SymTarget::Resolved(target)) => {
            assert_eq!(target.path, "/srv/data/real");
            assert!(matches!(target.typ, Typ::File));
            assert_eq!(target.sym_text, Some("real".to_string()));
        }
        _ => panic!("expected a resolved target"),
    }
}

#[test]
fn unreadable_link_resolves_to_failed() {
    let node = Node::new("/tmp/odd".to_string(), Typ::Symlink, None, None);
    let r = node.target(
        LinkReading::Unreadable("permission denied".to_string()),
        TargetProbe::Missing,
    );
    match r {
        Some(SymTarget::Failed(err)) => assert_eq!(err, "permission denied"),
        _ => panic!("expected a failed target"),
    }
}

#[test]
fn probe_failure_resolves_to_failed() {
    let node = Node::new("/tmp/odd".to_string(), Typ::Symlink, None, None);
    let r = node.target(
        LinkReading::Text("t".to_string()),
        TargetProbe::Inaccessible("io error".to_string()),
    );
    match r {
        Some(SymTarget::Failed(err)) => assert_eq!(err, "io error"),
        _ => panic!("expected a failed target"),
    }
}
