use reseam_patcher::extensions::{ExtensionFile, ExtensionSet};

fn file(path: &str, classes: &[&str], references: &[&str]) -> ExtensionFile {
    ExtensionFile {
        path: path.to_string(),
        classes: classes.iter().map(|c| c.to_string()).collect(),
        references: references.iter().map(|r| r.to_string()).collect(),
    }
}

fn chain() -> ExtensionSet {
    let files = vec![
        file("a.dex", &["Lext/A;"], &["Lext/A;", "Lext/B;", "Ljava/lang/Object;"]),
        file("b.dex", &["Lext/B;", "Lext/B2;"], &["Lext/B;", "Lext/C;"]),
        file("c.dex", &["Lext/C;"], &["Lext/C;", "Lext/A;"]),
        file("d.dex", &["Lext/D;"], &["Lext/D;"]),
    ];
    match ExtensionSet::load(&files) {
        Ok(set) => set,
        Err(e) => panic!("{}", e.message()),
    }
}

#[test]
fn loading_builds_the_class_table() {
    let set = chain();
    assert!(!set.is_empty());
    assert_eq!(set.provider("Lext/A;"), Some(0));
    assert_eq!(set.provider("Lext/B2;"), Some(1));
    assert_eq!(set.provider("Lext/D;"), Some(3));
    assert_eq!(set.provider("Lext/Missing;"), None);
    assert!(ExtensionSet::new().is_empty());
    assert!(ExtensionSet::default().is_empty());
}

#[test]
fn a_class_two_files_define_is_refused() {
    let files = vec![
        file("one.dex", &["Lx/A;", "Lx/B;"], &[]),
        file("two.dex", &["Lx/C;", "Lx/B;"], &[]),
    ];
    let err = match ExtensionSet::load(&files) {
        Ok(_) => panic!("loading should fail"),
        Err(e) => e,
    };
    assert_eq!(
        err.message(),
        "bundle error: class Lx/B; is defined by both one.dex and two.dex"
    );
}

#[test]
fn merging_follows_references_once() {
    let mut set = chain();
    assert_eq!(set.merge_extension(0), vec![0, 1, 2]);
    assert_eq!(set.merge_extension(1), Vec::<usize>::new());
    assert_eq!(set.merge_extension(3), vec![3]);
}

#[test]
fn linking_merges_and_warns_once() {
    let mut set = chain();
    let descriptors: Vec<String> = [
        "I",
        "Ljava/lang/String;",
        "[Lapp/Main;",
        "Lnowhere/Thing;",
        "[[Lext/C;",
        "Lnowhere/Thing;",
        "Lext/A;",
    ]
    .iter()
    .map(|d| d.to_string())
    .collect();
    let app_defines = vec![false, false, true, false, false, false, false];
    let (merged, warnings) = set.link_types(&descriptors, &app_defines);
    assert_eq!(merged, vec![2, 0, 1]);
    assert_eq!(
        warnings,
        vec!["Lnowhere/Thing; is not defined by the app or any extension in the bundle".to_string()]
    );
    let (merged, warnings) = set.link_types(&descriptors, &app_defines);
    assert!(merged.is_empty());
    assert!(warnings.is_empty());
}

#[test]
fn linking_one_class() {
    let mut set = chain();
    assert_eq!(set.link_class("Lext/Missing;"), None);
    assert_eq!(set.link_class("Lext/D;"), Some(vec![3]));
    assert_eq!(set.link_class("Lext/D;"), Some(vec![]));
}
