use espanso_config::{
    resolve, AppProperties, Backend, ConfigStoreError, RawProfile, ToggleKey,
};

fn raw(id: i32, label: &str) -> RawProfile {
    RawProfile {
        id,
        label: label.to_string(),
        match_paths: None,
        backend: None,
        clipboard_threshold: None,
        pre_paste_delay: None,
        toggle_key: None,
        filter_title: None,
        filter_class: None,
        filter_exec: None,
    }
}

fn app(title: Option<&str>, class: Option<&str>, exec: Option<&str>) -> AppProperties {
    AppProperties {
        title: title.map(|s| s.to_string()),
        class: class.map(|s| s.to_string()),
        exec_path: exec.map(|s| s.to_string()),
    }
}

#[test]
fn default_gets_baselines() {
    let store = resolve(Some(raw(7, "default")), vec![]).unwrap();
    let d = store.default();
    assert_eq!(d.id(), 0);
    assert_eq!(d.label(), "default");
    assert!(d.match_paths().is_empty());
    assert_eq!(d.backend(), Backend::Auto);
    assert_eq!(d.clipboard_threshold(), 100);
    assert_eq!(d.pre_paste_delay(), 0);
    assert_eq!(d.toggle_key(), None);
    assert!(d.filter.is_none());
}

#[test]
fn default_explicit_fields_kept() {
    let mut d = raw(0, "base");
    d.match_paths = Some(vec!["/cfg/base.yml".to_string()]);
    d.backend = Some(Backend::Inject);
    d.clipboard_threshold = Some(250);
    d.pre_paste_delay = Some(40);
    d.toggle_key = Some(Some(ToggleKey::LeftAlt));
    let store = resolve(Some(d), vec![]).unwrap();
    let c = store.default();
    assert_eq!(c.backend(), Backend::Inject);
    assert_eq!(c.clipboard_threshold(), 250);
    assert_eq!(c.pre_paste_delay(), 40);
    assert_eq!(c.toggle_key(), Some(ToggleKey::LeftAlt));
    assert_eq!(c.match_paths(), &vec!["/cfg/base.yml".to_string()]);
}

#[test]
fn missing_default_rejected() {
    let mut o = raw(1, "term");
    o.filter_class = Some("Terminal".to_string());
    let err = resolve(None, vec![o]).unwrap_err();
    assert!(matches!(err, ConfigStoreError::MissingDefault));
}

#[test]
fn duplicate_id_rejected() {
    let mut a = raw(3, "first");
    a.filter_class = Some("A".to_string());
    let mut b = raw(3, "second");
    b.filter_class = Some("B".to_string());
    let err = resolve(Some(raw(0, "default")), vec![a, b]).unwrap_err();
    assert!(matches!(err, ConfigStoreError::DuplicateId { id: 3 }));
}

#[test]
fn override_with_reserved_id_rejected() {
    let mut a = raw(0, "clash");
    a.filter_class = Some("A".to_string());
    let err = resolve(Some(raw(0, "default")), vec![a]).unwrap_err();
    assert!(matches!(err, ConfigStoreError::DuplicateId { id: 0 }));
}

#[test]
fn override_without_filter_rejected() {
    let o = raw(1, "bare");
    let err = resolve(Some(raw(0, "default")), vec![o]).unwrap_err();
    match err {
        ConfigStoreError::InvalidFilter { label } => assert_eq!(label, "bare"),
        other => panic!("unexpected error: {other:?}"),
    }
}

#[test]
fn default_with_filter_rejected() {
    let mut d = raw(0, "default");
    d.filter_title = Some("anything".to_string());
    let err = resolve(Some(d), vec![]).unwrap_err();
    assert!(matches!(err, ConfigStoreError::InvalidFilter { .. }));
}

#[test]
fn negative_numeric_field_rejected() {
    let mut o = raw(1, "neg");
    o.filter_class = Some("X".to_string());
    o.clipboard_threshold = Some(-1);
    let err = resolve(Some(raw(0, "default")), vec![o]).unwrap_err();
    assert!(matches!(err, ConfigStoreError::InvalidField { .. }));
}

#[test]
fn empty_label_rejected() {
    let mut o = raw(1, "");
    o.filter_class = Some("X".to_string());
    let err = resolve(Some(raw(0, "default")), vec![o]).unwrap_err();
    assert!(matches!(err, ConfigStoreError::InvalidField { .. }));
}

#[test]
fn duplicate_label_rejected() {
    let mut a = raw(1, "same");
    a.filter_class = Some("A".to_string());
    let mut b = raw(2, "same");
    b.filter_class = Some("B".to_string());
    let err = resolve(Some(raw(0, "default")), vec![a, b]).unwrap_err();
    assert!(matches!(err, ConfigStoreError::InvalidField { .. }));
}

#[test]
fn error_kinds_are_distinct() {
    let no_default = resolve(None, vec![]).unwrap_err();
    let mut bare = raw(1, "bare");
    bare.clipboard_threshold = Some(1);
    let no_filter = resolve(Some(raw(0, "default")), vec![bare]).unwrap_err();
    let mut a = raw(2, "a");
    a.filter_class = Some("A".to_string());
    let mut b = raw(2, "b");
    b.filter_class = Some("B".to_string());
    let dup = resolve(Some(raw(0, "default")), vec![a, b]).unwrap_err();
    assert!(matches!(no_default, ConfigStoreError::MissingDefault));
    assert!(matches!(no_filter, ConfigStoreError::InvalidFilter { .. }));
    assert!(matches!(dup, ConfigStoreError::DuplicateId { .. }));
}

#[test]
fn override_inherits_unset_fields() {
    let mut d = raw(0, "default");
    d.clipboard_threshold = Some(100);
    d.pre_paste_delay = Some(25);
    d.backend = Some(Backend::Clipboard);
    d.toggle_key = Some(Some(ToggleKey::RightCtrl));
    d.match_paths = Some(vec!["/cfg/default.yml".to_string()]);
    let mut x = raw(1, "x");
    x.filter_class = Some("Terminal".to_string());
    let store = resolve(Some(d), vec![x]).unwrap();
    let ctx = app(None, Some("Terminal"), None);
    let active = store.active(&ctx);
    assert_eq!(active.id(), 1);
    assert_eq!(active.clipboard_threshold(), 100);
    assert_eq!(active.pre_paste_delay(), 25);
    assert_eq!(active.backend(), Backend::Clipboard);
    assert_eq!(active.toggle_key(), Some(ToggleKey::RightCtrl));
    assert_eq!(active.match_paths(), &vec!["/cfg/default.yml".to_string()]);
}

#[test]
fn override_set_fields_kept() {
    let mut d = raw(0, "default");
    d.clipboard_threshold = Some(100);
    let mut y = raw(2, "y");
    y.filter_exec = Some("/usr/bin/vim".to_string());
    y.clipboard_threshold = Some(0);
    y.backend = Some(Backend::Inject);
    let store = resolve(Some(d), vec![y]).unwrap();
    let ctx = app(None, None, Some("/usr/bin/vim"));
    let active = store.active(&ctx);
    assert_eq!(active.id(), 2);
    assert_eq!(active.clipboard_threshold(), 0);
    assert_eq!(active.backend(), Backend::Inject);
}

#[test]
fn active_falls_back_to_default() {
    let mut x = raw(1, "x");
    x.filter_class = Some("Terminal".to_string());
    let store = resolve(Some(raw(0, "default")), vec![x]).unwrap();
    let ctx = app(Some("editor"), Some("Editor"), None);
    assert_eq!(store.active(&ctx).id(), 0);
}

#[test]
fn absent_context_component_fails_present_filter() {
    let mut x = raw(1, "x");
    x.filter_exec = Some("/usr/bin/vim".to_string());
    let store = resolve(Some(raw(0, "default")), vec![x]).unwrap();
    let ctx = app(Some("vim"), Some("Vim"), None);
    assert_eq!(store.active(&ctx).id(), 0);
}

#[test]
fn higher_specificity_wins() {
    let mut b = raw(1, "class-only");
    b.filter_class = Some("Terminal".to_string());
    let mut a = raw(2, "class-and-exec");
    a.filter_class = Some("Terminal".to_string());
    a.filter_exec = Some("/bin/zsh".to_string());
    let store = resolve(Some(raw(0, "default")), vec![b, a]).unwrap();
    let ctx = app(None, Some("Terminal"), Some("/bin/zsh"));
    assert_eq!(store.active(&ctx).id(), 2);
}

#[test]
fn tie_break_prefers_load_order() {
    let mut x = raw(1, "x");
    x.filter_class = Some("Terminal".to_string());
    let mut y = raw(2, "y");
    y.filter_exec = Some("/usr/bin/vim".to_string());
    y.clipboard_threshold = Some(0);
    let mut d = raw(0, "default");
    d.clipboard_threshold = Some(100);
    let store = resolve(Some(d), vec![x, y]).unwrap();
    let ctx = app(None, Some("Terminal"), Some("/usr/bin/vim"));
    let active = store.active(&ctx);
    assert_eq!(active.id(), 1);
    assert_eq!(active.clipboard_threshold(), 100);
}

#[test]
fn tie_break_follows_swapped_load_order() {
    let mut x = raw(1, "x");
    x.filter_class = Some("Terminal".to_string());
    let mut y = raw(2, "y");
    y.filter_exec = Some("/usr/bin/vim".to_string());
    let store = resolve(Some(raw(0, "default")), vec![y, x]).unwrap();
    let ctx = app(None, Some("Terminal"), Some("/usr/bin/vim"));
    assert_eq!(store.active(&ctx).id(), 2);
}

#[test]
fn active_is_idempotent() {
    let mut x = raw(1, "x");
    x.filter_title = Some("notes".to_string());
    let store = resolve(Some(raw(0, "default")), vec![x]).unwrap();
    let ctx = app(Some("notes"), None, None);
    let first = store.active(&ctx).id();
    let second = store.active(&ctx).id();
    let third = store.active(&ctx).id();
    assert_eq!(first, 1);
    assert_eq!(first, second);
    assert_eq!(second, third);
}

#[test]
fn match_paths_deduplicated() {
    let mut d = raw(0, "default");
    d.match_paths = Some(vec!["/cfg/a.yml".to_string(), "/cfg/b.yml".to_string()]);
    let mut x = raw(1, "x");
    x.filter_class = Some("X".to_string());
    x.match_paths = Some(vec!["/cfg/b.yml".to_string(), "/cfg/c.yml".to_string()]);
    let store = resolve(Some(d), vec![x]).unwrap();
    let mut paths = store.get_all_match_paths();
    paths.sort();
    assert_eq!(
        paths,
        vec![
            "/cfg/a.yml".to_string(),
            "/cfg/b.yml".to_string(),
            "/cfg/c.yml".to_string(),
        ]
    );
}

#[test]
fn match_paths_cover_unreachable_overrides() {
    let mut d = raw(0, "default");
    d.match_paths = Some(vec!["/cfg/default.yml".to_string()]);
    let mut x = raw(1, "never");
    x.filter_class = Some("NoSuchClassAnywhere".to_string());
    x.match_paths = Some(vec!["/cfg/never.yml".to_string()]);
    let store = resolve(Some(d), vec![x]).unwrap();
    let paths = store.get_all_match_paths();
    assert!(paths.contains(&"/cfg/default.yml".to_string()));
    assert!(paths.contains(&"/cfg/never.yml".to_string()));
    assert_eq!(paths.len(), 2);
}

#[test]
fn configs_enumerates_default_then_overrides() {
    let mut x = raw(1, "x");
    x.filter_class = Some("X".to_string());
    let mut y = raw(2, "y");
    y.filter_title = Some("Y".to_string());
    let store = resolve(Some(raw(0, "default")), vec![x, y]).unwrap();
    let all = store.configs();
    assert_eq!(all.len(), 3);
    assert_eq!(all[0].id(), 0);
    assert_eq!(all[1].id(), 1);
    assert_eq!(all[2].id(), 2);
}

#[test]
fn is_match_checks_each_component() {
    let mut x = raw(1, "x");
    x.filter_title = Some("report".to_string());
    x.filter_class = Some("Writer".to_string());
    let store = resolve(Some(raw(0, "default")), vec![x]).unwrap();
    let all = store.configs();
    let over = all[1];
    assert!(over.is_match(&app(Some("report"), Some("Writer"), None)));
    assert!(over.is_match(&app(Some("report"), Some("Writer"), Some("/any"))));
    assert!(!over.is_match(&app(Some("report"), Some("Calc"), None)));
    assert!(!over.is_match(&app(None, Some("Writer"), None)));
    assert!(store.default().is_match(&app(None, None, None)));
}

#[test]
fn specificity_counts_present_components() {
    let mut x = raw(1, "x");
    x.filter_title = Some("t".to_string());
    x.filter_class = Some("c".to_string());
    x.filter_exec = Some("/e".to_string());
    let store = resolve(Some(raw(0, "default")), vec![x]).unwrap();
    assert_eq!(store.default().specificity(), 0);
    assert_eq!(store.configs()[1].specificity(), 3);
}
