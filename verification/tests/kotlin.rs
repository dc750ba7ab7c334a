use reseam_patcher::context::{ClassLocation, MethodLocation};
use reseam_patcher::descriptor::{class_of, is_platform, parameter_moves, pending_index, proto_types, split_name, MoveKind};
use reseam_patcher::handles::HandleTable;
use reseam_patcher::names::{parse_config_changes, property_name};

#[test]
fn splits_prototypes_into_descriptors() {
    assert_eq!(
        proto_types("(J[Ljava/lang/String;ZLjava/util/List;)[[I"),
        ["J", "[Ljava/lang/String;", "Z", "Ljava/util/List;", "[[I"]
    );
    assert_eq!(proto_types("()V"), ["V"]);
}

#[test]
fn getters_map_to_properties() {
    assert_eq!(property_name("getTelegramSettings"), "telegramSettings");
    assert_eq!(property_name("getURLPatch"), "uRLPatch");
    assert_eq!(property_name("settings"), "settings");
    assert_eq!(property_name("getter"), "getter");
}

#[test]
fn handles_dedup_in_and_out_of_order() {
    let m = |dex_idx, class_idx, method_idx, is_virtual| MethodLocation {
        dex_idx,
        class_idx,
        method_idx,
        is_virtual,
    };
    let mut table = HandleTable::default();
    let a = table.alloc_method(m(0, 5, 0, false));
    let b = table.alloc_method(m(0, 5, 1, false));
    let c = table.alloc_method(m(1, 0, 0, true));
    assert_eq!((a, b, c), (0, 1, 2));
    assert_eq!(table.method_sorted_len(), 3);
    assert!(table.method_index_is_empty());

    let d = table.alloc_method(m(0, 2, 7, true));
    assert_eq!(d, 3);
    assert_eq!(table.method_sorted_len(), 3);
    assert_eq!(table.alloc_method(m(0, 2, 7, true)), d);
    assert_eq!(table.alloc_method(m(0, 5, 1, false)), b);
    assert_eq!(table.get_method(d), Some(m(0, 2, 7, true)));
    let big = table.alloc_method(m(3, 70_000, 65_000, false));
    assert_eq!(table.get_method(big), Some(m(3, 70_000, 65_000, false)));

    let k = table.alloc_class(ClassLocation { dex_idx: 2, class_idx: 9 });
    assert_eq!(table.alloc_class(ClassLocation { dex_idx: 2, class_idx: 9 }), k);
    assert_eq!(table.get_class(k), Some(ClassLocation { dex_idx: 2, class_idx: 9 }));
}

#[test]
fn unknown_handles_give_nothing() {
    let table = HandleTable::new();
    assert_eq!(table.get_method(0), None);
    assert_eq!(table.get_class(7), None);
}

#[test]
fn method_handles_cover_a_class() {
    let mut table = HandleTable::new();
    let c = table.alloc_class(ClassLocation { dex_idx: 1, class_idx: 4 });
    let hs = table.method_handles(c, true, 3);
    assert_eq!(hs, vec![0, 1, 2]);
    assert_eq!(
        table.get_method(2),
        Some(MethodLocation { dex_idx: 1, class_idx: 4, method_idx: 2, is_virtual: true })
    );
    assert!(table.method_handles(99, false, 3).is_empty());
}

#[test]
fn classes_of_descriptors() {
    assert_eq!(class_of("[[Lcom/x/Y;"), Some("Lcom/x/Y;".to_owned()));
    assert_eq!(class_of("Lcom/x/Y;"), Some("Lcom/x/Y;".to_owned()));
    assert_eq!(class_of("[I"), None);
    assert!(is_platform("Ljava/lang/String;"));
    assert!(is_platform("Lorg/apache/http/Header;"));
    assert!(!is_platform("Lcom/example/Main;"));
}

#[test]
fn parameters_move_by_kind() {
    assert_eq!(
        parameter_moves("(JLjava/lang/String;[IZD)V"),
        Some(vec![
            (2, MoveKind::Wide),
            (1, MoveKind::Object),
            (1, MoveKind::Object),
            (1, MoveKind::Narrow),
            (2, MoveKind::Wide),
        ])
    );
    assert_eq!(parameter_moves("()V"), Some(vec![]));
    assert_eq!(parameter_moves("V"), None);
    assert_eq!(parameter_moves("(Lfoo)V;"), None);
}

#[test]
fn android_names_split_off_their_prefix() {
    assert_eq!(split_name(Some(3), "android:name"), (Some(3), "name".to_owned()));
    assert_eq!(split_name(Some(3), "name"), (None, "name".to_owned()));
    assert_eq!(pending_index(0x8000_0002), Some(2));
    assert_eq!(pending_index(5), None);
}

#[test]
fn config_changes_parse_to_flags() {
    let (flags, unknown) = parse_config_changes("orientation | screenSize|keyboardHidden|bogus");
    assert_eq!(flags, 0x0080 | 0x0400 | 0x0020);
    assert_eq!(unknown, vec!["bogus".to_owned()]);
    let (flags, unknown) = parse_config_changes("fontScale");
    assert_eq!(flags, 0x4000_0000);
    assert!(unknown.is_empty());
}
