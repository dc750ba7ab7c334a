use reseam_patcher::model::{CompatiblePackage, PatchSpec};
use reseam_patcher::options::{OptionDeclaration, OptionType, OptionValue, PatchOptions};
use reseam_patcher::plan::PatchSelection;
use reseam_patcher::run::{validate_patches, PatchStatus};

fn accept_all(_decl: &OptionDeclaration, _value: &OptionValue) -> Result<(), String> {
    Ok(())
}

fn declared_in(bundle: &str, id: &str, package: &str, versions: &[&str], dependencies: &[&str]) -> PatchSpec {
    PatchSpec {
        bundle: bundle.to_owned(),
        id: id.to_owned(),
        name: id.to_owned(),
        hidden: false,
        description: String::new(),
        enabled_by_default: true,
        dependencies: dependencies.iter().map(|d| (*d).to_owned()).collect(),
        compatibility: vec![CompatiblePackage {
            package: package.to_owned(),
            versions: versions.iter().map(|v| (*v).to_owned()).collect(),
        }],
        options: Vec::new(),
    }
}

fn declared(id: &str, package: &str, versions: &[&str]) -> PatchSpec {
    declared_in("bundle", id, package, versions, &[])
}

fn statuses(selection: &PatchSelection) -> Vec<PatchStatus> {
    let pinned = declared("pinned", "com.example", &["1.0"]);
    let other = declared("other", "com.other", &[]);
    let patches = vec![pinned, other];
    validate_patches(&patches, selection, Some("com.example"), Some("2.0"), &accept_all)
        .unwrap()
        .into_iter()
        .map(|result| result.status)
        .collect()
}

#[test]
fn patches_resolve_across_bundles_by_reference_or_unique_id() {
    let official = declared_in("official", "pairip", "com.example", &[], &[]);
    let fork = declared_in("fork", "pairip", "com.example", &[], &[]);
    let uses = declared_in("fork", "uses-pairip", "com.example", &[], &["official/pairip"]);
    let patches = vec![official, fork, uses];
    let selection = PatchSelection {
        enable: vec!["uses-pairip".to_owned()],
        ..PatchSelection::default()
    };
    let results = validate_patches(&patches, &selection, Some("com.example"), None, &accept_all).unwrap();
    let applied: Vec<&str> = results
        .iter()
        .filter(|result| result.status == PatchStatus::Applied)
        .map(|result| result.patch.as_str())
        .collect();
    assert_eq!(applied, ["official/pairip", "fork/uses-pairip"]);

    let ambiguous = PatchSelection {
        enable: vec!["pairip".to_owned()],
        ..PatchSelection::default()
    };
    let error = validate_patches(&patches, &ambiguous, Some("com.example"), None, &accept_all)
        .unwrap_err()
        .message();
    assert!(error.contains("fork/pairip") && error.contains("official/pairip"), "{error}");
}

#[test]
fn missing_dependencies_skip_unless_selected() {
    let uses = declared_in("fork", "uses-pairip", "com.example", &[], &["official/pairip"]);
    let patches = vec![uses];
    let results = validate_patches(&patches, &PatchSelection::default(), Some("com.example"), None, &accept_all).unwrap();
    assert_eq!(
        results[0].status,
        PatchStatus::Skipped {
            reason: "depends on official/pairip; load bundle 'official' alongside".to_owned()
        }
    );
    let selection = PatchSelection {
        enable: vec!["uses-pairip".to_owned()],
        ..PatchSelection::default()
    };
    let error = validate_patches(&patches, &selection, Some("com.example"), None, &accept_all)
        .unwrap_err()
        .message();
    assert_eq!(
        error,
        "missing bundle: patch fork/uses-pairip depends on official/pairip; load bundle 'official' alongside"
    );

    let official = declared_in("official", "other", "com.example", &[], &[]);
    let uses = declared_in("fork", "uses-pairip", "com.example", &[], &["official/pairip"]);
    let patches = vec![official, uses];
    let results = validate_patches(&patches, &PatchSelection::default(), Some("com.example"), None, &accept_all).unwrap();
    assert_eq!(
        results[1].status,
        PatchStatus::Skipped {
            reason: "depends on official/pairip, which bundle 'official' does not declare".to_owned()
        }
    );
    let error = validate_patches(&patches, &selection, Some("com.example"), None, &accept_all)
        .unwrap_err()
        .message();
    assert_eq!(
        error,
        "missing dependency: patch fork/uses-pairip depends on official/pairip, which bundle 'official' does not declare"
    );
}

#[test]
fn version_mismatch_skips_unless_versions_are_ignored() {
    assert_eq!(
        statuses(&PatchSelection::default()),
        vec![
            PatchStatus::Skipped {
                reason: "expected one of [1.0], got 2.0".to_owned()
            },
            PatchStatus::Skipped {
                reason: "incompatible package: com.example".to_owned()
            },
        ]
    );
    assert_eq!(
        statuses(&PatchSelection {
            ignore_versions: true,
            ..PatchSelection::default()
        }),
        vec![
            PatchStatus::Applied,
            PatchStatus::Skipped {
                reason: "incompatible package: com.example".to_owned()
            },
        ]
    );
}

#[test]
fn dependents_of_a_skipped_patch_are_skipped_with_the_reason() {
    let base = declared_in("b", "base", "com.other", &[], &[]);
    let top = declared_in("b", "top", "com.example", &[], &["b/base"]);
    let patches = vec![top, base];
    let results = validate_patches(&patches, &PatchSelection::default(), Some("com.example"), None, &accept_all).unwrap();
    assert_eq!(results[0].patch, "b/base");
    assert_eq!(
        results[0].status,
        PatchStatus::Skipped {
            reason: "incompatible package: com.example".to_owned()
        }
    );
    assert_eq!(results[1].patch, "b/top");
    assert_eq!(
        results[1].status,
        PatchStatus::Skipped {
            reason: "dependency 'b/base' skipped: incompatible package: com.example".to_owned()
        }
    );
}

#[test]
fn unselected_and_disabled_patches_are_reported() {
    let a = declared_in("b", "a", "com.example", &[], &[]);
    let mut hidden = declared_in("b", "h", "com.example", &[], &[]);
    hidden.enabled_by_default = false;
    let c = declared_in("b", "c", "com.example", &[], &[]);
    let patches = vec![a, hidden, c];
    let selection = PatchSelection {
        disable: vec!["c".to_owned()],
        ..PatchSelection::default()
    };
    let results = validate_patches(&patches, &selection, Some("com.example"), None, &accept_all).unwrap();
    let statuses: Vec<PatchStatus> = results.into_iter().map(|r| r.status).collect();
    assert_eq!(
        statuses,
        vec![
            PatchStatus::Applied,
            PatchStatus::Skipped { reason: "not selected".to_owned() },
            PatchStatus::Skipped { reason: "disabled explicitly".to_owned() },
        ]
    );
}

#[test]
fn pulled_in_dependencies_name_who_needs_them() {
    let base = declared_in("b", "base", "com.example", &[], &[]);
    let top = declared_in("b", "top", "com.example", &[], &["b/base"]);
    let patches = vec![base, top];
    let selection = PatchSelection {
        enable: vec!["top".to_owned()],
        ..PatchSelection::default()
    };
    let results = validate_patches(&patches, &selection, Some("com.example"), None, &accept_all).unwrap();
    assert_eq!(results[0].required_by, vec!["b/top".to_owned()]);
    assert!(results[1].required_by.is_empty());
}

#[test]
fn selection_errors_are_reported() {
    let a = declared_in("b", "a", "com.example", &[], &[]);
    let patches = vec![a];
    let unknown = PatchSelection {
        enable: vec!["nope".to_owned()],
        ..PatchSelection::default()
    };
    assert_eq!(
        validate_patches(&patches, &unknown, Some("com.example"), None, &accept_all).unwrap_err().message(),
        "unknown patch: nope"
    );
    let both = PatchSelection {
        enable: vec!["a".to_owned()],
        disable: vec!["b/a".to_owned()],
        ..PatchSelection::default()
    };
    assert_eq!(
        validate_patches(&patches, &both, Some("com.example"), None, &accept_all).unwrap_err().message(),
        "invalid patch selection: patch 'b/a' cannot be both selected and disabled"
    );
    let twice = PatchSelection {
        options: vec![("a".to_owned(), PatchOptions::new()), ("b/a".to_owned(), PatchOptions::new())],
        ..PatchSelection::default()
    };
    assert_eq!(
        validate_patches(&patches, &twice, Some("com.example"), None, &accept_all).unwrap_err().message(),
        "invalid patch selection: options for patch 'a' were supplied under multiple selectors"
    );
    let dup = vec![
        declared_in("b", "a", "com.example", &[], &[]),
        declared_in("b", "a", "com.example", &[], &[]),
    ];
    assert_eq!(
        validate_patches(&dup, &PatchSelection::default(), Some("com.example"), None, &accept_all).unwrap_err().message(),
        "bundle error: bundle 'b' declares patch 'a' more than once"
    );
}

#[test]
fn dependency_cycles_are_refused() {
    let a = declared_in("b", "a", "com.example", &[], &["b/c"]);
    let c = declared_in("b", "c", "com.example", &[], &["b/a"]);
    let free = declared_in("b", "free", "com.example", &[], &[]);
    let patches = vec![a, free, c];
    assert_eq!(
        validate_patches(&patches, &PatchSelection::default(), Some("com.example"), None, &accept_all).unwrap_err().message(),
        "dependency cycle: a -> c"
    );
}

#[test]
fn option_values_are_checked_with_the_validator() {
    let mut themed = declared_in("b", "themed", "com.example", &[], &[]);
    themed.options = vec![OptionDeclaration {
        key: "theme".to_owned(),
        title: "Theme".to_owned(),
        description: String::new(),
        option_type: OptionType::String,
        default_value: Some(OptionValue::String("light".to_owned())),
        valid_values: None,
        required: false,
    }];
    let patches = vec![themed];
    let refuse_neon = |_decl: &OptionDeclaration, value: &OptionValue| -> Result<(), String> {
        match value {
            OptionValue::String(s) if s == "neon" => Err("too bright".to_owned()),
            _ => Ok(()),
        }
    };
    assert!(validate_patches(&patches, &PatchSelection::default(), Some("com.example"), None, &refuse_neon).is_ok());
    let mut neon = PatchOptions::new();
    neon.set("theme".to_owned(), OptionValue::String("neon".to_owned()));
    let selection = PatchSelection {
        options: vec![("themed".to_owned(), neon)],
        ..PatchSelection::default()
    };
    assert_eq!(
        validate_patches(&patches, &selection, Some("com.example"), None, &refuse_neon).unwrap_err().message(),
        "invalid option value: themed.theme: too bright"
    );
}
