use reseam_patcher::dependency::{find_dependents, sort_patches, PatchGraph};
use reseam_patcher::patch::{CompatibilitySpec, PatchId, PatchSpec};

fn spec(id: &str, deps: &[&str]) -> PatchSpec {
    let mut s = PatchSpec::new(PatchId::new(id.to_owned()));
    s.dependencies = deps.iter().map(|d| PatchId::new((*d).to_owned())).collect();
    s
}

#[test]
fn graph_orders_dependencies_first() {
    let patches = vec![spec("b", &["a"]), spec("a", &[]), spec("c", &["b", "a"])];
    let graph = PatchGraph::build(&patches).unwrap();
    assert_eq!(graph.order(), &vec![1, 0, 2]);
    assert_eq!(graph.index_of("c"), Some(2));
    assert_eq!(graph.index_of("z"), None);
    assert_eq!(graph.dependencies(2), &vec![0, 1]);
    assert_eq!(graph.dependents(1), &vec![0, 2]);
    assert_eq!(sort_patches(&patches).unwrap(), vec![1, 0, 2]);
    assert_eq!(find_dependents(&patches).unwrap(), vec![vec![2], vec![0, 2], vec![]]);
}

#[test]
fn graph_errors() {
    let dup = vec![spec("a", &[]), spec("a", &[])];
    assert_eq!(
        PatchGraph::build(&dup).err().unwrap().message(),
        "invalid patch selection: patch names must be unique within a bundle"
    );
    let missing = vec![spec("a", &["x"])];
    assert_eq!(
        PatchGraph::build(&missing).err().unwrap().message(),
        "missing dependency: patch a depends on x"
    );
    let cycle = vec![spec("a", &["b"]), spec("b", &["a"])];
    assert_eq!(PatchGraph::build(&cycle).err().unwrap().message(), "dependency cycle: a -> b");
}

#[test]
fn compatibility_follows_declarations() {
    let mut s = spec("a", &[]);
    assert!(s.options.is_empty());
    assert!(s.extension_dex.is_empty());
    assert!(s.enabled_by_default);
    assert!(s.is_compatible(None, None));
    s.compatibility = vec![CompatibilitySpec::with_versions("com.x".to_owned(), vec!["1.0".to_owned()])];
    assert!(s.is_compatible(Some("com.x"), Some("1.0")));
    assert_eq!(s.compatibility_reason(Some("com.x"), Some("2.0")), Some("expected one of [1.0], got 2.0".to_owned()));
    assert_eq!(s.compatibility_reason(Some("com.y"), Some("1.0")), Some("incompatible package: com.y".to_owned()));
    assert_eq!(s.compatibility_reason(None, Some("1.0")), Some("APK has no package name".to_owned()));
    assert_eq!(s.compatibility_reason(Some("com.x"), None), Some("APK has no version name".to_owned()));
    assert!(CompatibilitySpec::package("com.x".to_owned()).matches("com.x", None));
    assert_eq!(PatchId::new("p".to_owned()).as_str(), "p");
}
