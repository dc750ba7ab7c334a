use reseam_patcher::log::{LogLevel, PatchLog};
use reseam_patcher::options::{OptionDeclaration, OptionType, OptionValue, PatchOptions};
use reseam_patcher::plan::{selection_is_well_formed, PatchSelection};

fn declaration(key: &str, option_type: OptionType, default_value: Option<OptionValue>, required: bool) -> OptionDeclaration {
    OptionDeclaration {
        key: key.to_string(),
        title: key.to_string(),
        description: String::new(),
        option_type,
        default_value,
        valid_values: None,
        required,
    }
}

fn kind_check(decl: &OptionDeclaration, value: &OptionValue) -> Result<(), String> {
    let matches = matches!(
        (decl.option_type, value),
        (OptionType::String, OptionValue::String(_)) | (OptionType::Int, OptionValue::Int(_))
    );
    if matches {
        Ok(())
    } else {
        Err("wrong kind".to_string())
    }
}

fn string_value(value: &Option<&OptionValue>) -> Option<String> {
    match value {
        Some(OptionValue::String(s)) => Some(s.clone()),
        _ => None,
    }
}

#[test]
fn set_then_get_gives_the_value_back() {
    let mut options = PatchOptions::new();
    assert!(options.is_empty());
    options.set("mode".to_string(), OptionValue::String("dark".to_string()));
    options.set("level".to_string(), OptionValue::Int(3));
    options.set("mode".to_string(), OptionValue::String("light".to_string()));
    assert_eq!(string_value(&options.get("mode")), Some("light".to_string()));
    assert!(matches!(options.get("level"), Some(OptionValue::Int(3))));
    assert!(options.get("missing").is_none());
    assert_eq!(options.keys(), vec!["mode".to_string(), "level".to_string()]);
    let copy = options.duplicate();
    assert!(matches!(copy.get("level"), Some(OptionValue::Int(3))));
}

#[test]
fn resolving_fills_defaults_and_reports_errors() {
    let decls = vec![
        declaration("theme", OptionType::String, Some(OptionValue::String("light".to_string())), false),
        declaration("count", OptionType::Int, None, false),
    ];
    let resolved = match PatchOptions::resolve("demo", &decls, None, &kind_check) {
        Ok(r) => r,
        Err(e) => panic!("{}", e.message()),
    };
    assert_eq!(string_value(&resolved.get("theme")), Some("light".to_string()));
    assert!(resolved.get("count").is_none());

    let mut provided = PatchOptions::new();
    provided.set("count".to_string(), OptionValue::Int(9));
    let resolved = match PatchOptions::resolve("demo", &decls, Some(&provided), &kind_check) {
        Ok(r) => r,
        Err(e) => panic!("{}", e.message()),
    };
    assert!(matches!(resolved.get("count"), Some(OptionValue::Int(9))));

    let mut unknown = PatchOptions::new();
    unknown.set("colour".to_string(), OptionValue::Int(1));
    let err = match PatchOptions::resolve("demo", &decls, Some(&unknown), &kind_check) {
        Ok(_) => panic!("an undeclared option should be refused"),
        Err(e) => e,
    };
    assert_eq!(err.message(), "unknown option: patch demo has no option 'colour'");

    let mut wrong = PatchOptions::new();
    wrong.set("count".to_string(), OptionValue::String("nine".to_string()));
    let err = match PatchOptions::resolve("demo", &decls, Some(&wrong), &kind_check) {
        Ok(_) => panic!("a value of the wrong kind should be refused"),
        Err(e) => e,
    };
    assert_eq!(
        err.message(),
        "invalid option value: demo.count: wrong kind"
    );

    let required = vec![declaration("token", OptionType::String, None, true)];
    let err = match PatchOptions::resolve("demo", &required, None, &kind_check) {
        Ok(_) => panic!("a missing required option should be refused"),
        Err(e) => e,
    };
    assert_eq!(err.message(), "missing required option: demo.token");
}

#[test]
fn the_log_tags_entries_with_the_patch() {
    let mut log = PatchLog::new("demo".to_string());
    log.info("one".to_string());
    log.warn("two".to_string());
    log.debug("three".to_string());
    log.log(LogLevel::Info, "four".to_string());
    let entries = log.take_entries();
    assert_eq!(entries.len(), 4);
    assert_eq!(entries[0].level, LogLevel::Info);
    assert_eq!(entries[1].level, LogLevel::Warn);
    assert_eq!(entries[1].message, "two");
    assert_eq!(entries[2].level, LogLevel::Debug);
    assert!(entries.iter().all(|e| e.patch == "demo"));
    assert!(log.take_entries().is_empty());
}

#[test]
fn option_sets_store_each_key_once() {
    let mut options = PatchOptions::new();
    options.set("a".to_string(), OptionValue::Int(1));
    options.set("b".to_string(), OptionValue::Int(2));
    options.set("a".to_string(), OptionValue::Int(3));
    assert!(options.has_distinct_keys());
    let selection = PatchSelection {
        options: vec![("p".to_string(), options)],
        ..PatchSelection::default()
    };
    assert!(selection_is_well_formed(&selection));
}
