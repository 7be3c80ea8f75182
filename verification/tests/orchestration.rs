use wallfetch::cache::{cache_path, ImageFormat, ImageHandle};
use wallfetch::orchestrator::{
    begin_fetch, step, Action, ApplyOutcome, EntryKind, FetchArgs, FetchError, FetchEvent,
    FetchState, GlobalConfig, PersistTarget, SupplierLoadOutcome,
};
use wallfetch::params::{Category, SupplierRef};

fn strings(list: &[&str]) -> Vec<String> {
    list.iter().map(|s| s.to_string()).collect()
}

fn category(name: &str, tags: &[&str]) -> Category {
    Category { name: name.to_string(), tags: strings(tags), aspect_ratios: None }
}

fn supplier(name: &str, file: &str) -> SupplierRef {
    SupplierRef { name: name.to_string(), file: file.to_string() }
}

fn config(
    categories: Vec<Category>,
    suppliers: Vec<SupplierRef>,
    set_command: Option<&str>,
) -> GlobalConfig {
    GlobalConfig {
        categories,
        suppliers,
        set_command: set_command.map(|s| s.to_string()),
        config_root: "/cfg".to_string(),
        cache_root: "/cache".to_string(),
    }
}

fn args() -> FetchArgs {
    FetchArgs {
        assign: false,
        output: None,
        category: None,
        supplier: None,
        tags: Vec::new(),
        nsfw: false,
        simple: false,
    }
}

#[test]
fn empty_supplier_list_fails_before_any_fetch() {
    let cfg = config(Vec::new(), Vec::new(), None);
    let (state, action) = begin_fetch(&cfg, &args());
    match state {
        FetchState::Failed { error: FetchError::NoCandidatesConfigured { kind } } => {
            assert_eq!(kind, EntryKind::Supplier);
        },
        other => panic!("expected NoCandidatesConfigured, got {:?}", other),
    }
    assert!(matches!(action, Action::Nothing));
}

#[test]
fn empty_category_list_with_category_argument_fails() {
    let cfg = config(Vec::new(), vec![supplier("s", "s.toml")], None);
    let mut a = args();
    a.category = Some("nature".to_string());
    let (state, _) = begin_fetch(&cfg, &a);
    match state {
        FetchState::Failed { error: FetchError::NoCandidatesConfigured { kind } } => {
            assert_eq!(kind, EntryKind::Category);
        },
        other => panic!("expected NoCandidatesConfigured, got {:?}", other),
    }
}

#[test]
fn unknown_category_name_fails_with_suggestions() {
    let cfg = config(vec![category("nature", &[])], vec![supplier("s", "s.toml")], None);
    let mut a = args();
    a.category = Some("zzzzzz".to_string());
    let (state, _) = begin_fetch(&cfg, &a);
    match state {
        FetchState::Failed { error: FetchError::UnknownName { query, suggestions } } => {
            assert_eq!(query, "zzzzzz");
            assert_eq!(suggestions, vec!["nature"]);
        },
        other => panic!("expected UnknownName, got {:?}", other),
    }
}

#[test]
fn ambiguous_category_name_suggests_the_best() {
    // "nautr" scores 3 of 5 against "nature": at least half, not all.
    let cfg = config(
        vec![category("nature", &["landscape"])],
        vec![supplier("s", "s.toml")],
        None,
    );
    let mut a = args();
    a.category = Some("nautr".to_string());
    let (state, _) = begin_fetch(&cfg, &a);
    match state {
        FetchState::Failed { error: FetchError::AmbiguousName { query, suggestion } } => {
            assert_eq!(query, "nautr");
            assert_eq!(suggestion, "nature");
        },
        other => panic!("expected AmbiguousName, got {:?}", other),
    }
}

#[test]
fn resolved_category_tags_follow_ad_hoc_tags() {
    // "natur" matches "nature" at every query position, so it resolves.
    let cfg = config(
        vec![category("nature", &["landscape"])],
        vec![supplier("wallhaven", "wallhaven.toml")],
        None,
    );
    let mut a = args();
    a.category = Some("natur".to_string());
    a.tags = strings(&["forest"]);
    let (state, action) = begin_fetch(&cfg, &a);
    match &action {
        Action::LoadSupplier { file_path } => assert_eq!(file_path, "/cfg/wallhaven.toml"),
        other => panic!("expected LoadSupplier, got {:?}", other),
    }
    let (state, action) = step(
        &cfg,
        &a,
        state,
        FetchEvent::SupplierLoaded { outcome: SupplierLoadOutcome::Loaded },
    );
    assert!(matches!(state, FetchState::Fetching));
    match action {
        Action::FetchImage { params } => {
            assert_eq!(params.tags, strings(&["forest", "landscape"]));
            assert!(params.aspect_ratios.is_empty());
        },
        other => panic!("expected FetchImage, got {:?}", other),
    }
}

#[test]
fn named_supplier_is_resolved() {
    let cfg = config(
        Vec::new(),
        vec![supplier("wallhaven", "wallhaven.toml"), supplier("unsplash", "unsplash.toml")],
        None,
    );
    let mut a = args();
    a.supplier = Some("unsplash".to_string());
    let (state, action) = begin_fetch(&cfg, &a);
    match state {
        FetchState::LoadingSupplier { supplier_index, .. } => assert_eq!(supplier_index, 1),
        other => panic!("expected LoadingSupplier, got {:?}", other),
    }
    match action {
        Action::LoadSupplier { file_path } => assert_eq!(file_path, "/cfg/unsplash.toml"),
        other => panic!("expected LoadSupplier, got {:?}", other),
    }
}

#[test]
fn unnamed_supplier_is_picked_from_the_list() {
    let cfg = config(
        Vec::new(),
        vec![supplier("a", "a.toml"), supplier("b", "b.toml"), supplier("c", "c.toml")],
        None,
    );
    let (state, action) = begin_fetch(&cfg, &args());
    match state {
        FetchState::LoadingSupplier { supplier_index, .. } => assert!(supplier_index < 3),
        other => panic!("expected LoadingSupplier, got {:?}", other),
    }
    match action {
        Action::LoadSupplier { file_path } => {
            assert!(
                ["/cfg/a.toml", "/cfg/b.toml", "/cfg/c.toml"].contains(&file_path.as_str())
            );
        },
        other => panic!("expected LoadSupplier, got {:?}", other),
    }
}

#[test]
fn unreadable_supplier_definition_fails() {
    let cfg = config(Vec::new(), vec![supplier("s", "s.toml")], None);
    let (state, _) = begin_fetch(&cfg, &args());
    let (state, action) = step(
        &cfg,
        &args(),
        state,
        FetchEvent::SupplierLoaded { outcome: SupplierLoadOutcome::Unreadable },
    );
    assert!(matches!(
        state,
        FetchState::Failed { error: FetchError::SupplierDefinitionUnreadable }
    ));
    assert!(matches!(action, Action::Nothing));
}

#[test]
fn malformed_supplier_definition_fails() {
    let cfg = config(Vec::new(), vec![supplier("s", "s.toml")], None);
    let (state, _) = begin_fetch(&cfg, &args());
    let (state, _) = step(
        &cfg,
        &args(),
        state,
        FetchEvent::SupplierLoaded { outcome: SupplierLoadOutcome::Malformed },
    );
    assert!(matches!(
        state,
        FetchState::Failed { error: FetchError::SupplierDefinitionMalformed }
    ));
}

#[test]
fn failed_fetch_ends_the_run() {
    let cfg = config(Vec::new(), vec![supplier("s", "s.toml")], None);
    let (state, _) = step(&cfg, &args(), FetchState::Fetching, FetchEvent::Fetched { image: None });
    assert!(matches!(state, FetchState::Failed { error: FetchError::FetchFailed }));
}

#[test]
fn explicit_output_is_persisted_at_that_path() {
    let cfg = config(Vec::new(), vec![supplier("s", "s.toml")], None);
    let mut a = args();
    a.output = Some("/home/user/wall.png".to_string());
    let image = ImageHandle { bytes: vec![9, 9, 9], format: ImageFormat::Png };
    let (state, action) = step(
        &cfg,
        &a,
        FetchState::Fetching,
        FetchEvent::Fetched { image: Some(image) },
    );
    assert!(matches!(state, FetchState::Persisting { explicit: true }));
    match action {
        Action::Persist { target: PersistTarget::Explicit { path }, .. } => {
            assert_eq!(path, "/home/user/wall.png");
        },
        other => panic!("expected an explicit persist target, got {:?}", other),
    }
}

#[test]
fn without_output_the_image_goes_to_its_cache_path() {
    let cfg = config(Vec::new(), vec![supplier("s", "s.toml")], None);
    let image = ImageHandle { bytes: vec![1, 2, 3], format: ImageFormat::Jpeg };
    let expected = cache_path(
        "/cache",
        &ImageHandle { bytes: vec![1, 2, 3], format: ImageFormat::Jpeg },
    );
    let (state, action) = step(
        &cfg,
        &args(),
        FetchState::Fetching,
        FetchEvent::Fetched { image: Some(image) },
    );
    assert!(matches!(state, FetchState::Persisting { explicit: false }));
    match action {
        Action::Persist { target: PersistTarget::Cache { path }, image } => {
            assert_eq!(path, expected);
            assert_eq!(image.bytes, vec![1, 2, 3]);
        },
        other => panic!("expected a cache persist target, got {:?}", other),
    }
}

#[test]
fn persistence_failure_ends_the_run() {
    let cfg = config(Vec::new(), vec![supplier("s", "s.toml")], None);
    let (state, _) = step(
        &cfg,
        &args(),
        FetchState::Persisting { explicit: false },
        FetchEvent::Persisted { path: None },
    );
    assert!(matches!(state, FetchState::Failed { error: FetchError::PersistenceFailed }));
}

#[test]
fn done_without_assign_keeps_the_persisted_path() {
    let cfg = config(Vec::new(), vec![supplier("s", "s.toml")], None);
    let (state, action) = step(
        &cfg,
        &args(),
        FetchState::Persisting { explicit: false },
        FetchEvent::Persisted { path: Some("/cache/abc.png".to_string()) },
    );
    match state {
        FetchState::Done { path, apply } => {
            assert_eq!(path, "/cache/abc.png");
            assert_eq!(apply, ApplyOutcome::NotRequested);
        },
        other => panic!("expected Done, got {:?}", other),
    }
    assert!(matches!(action, Action::Nothing));
}

#[test]
fn assign_without_command_template_fails_after_persisting() {
    let cfg = config(Vec::new(), vec![supplier("s", "s.toml")], None);
    let mut a = args();
    a.assign = true;
    let (state, action) = step(
        &cfg,
        &a,
        FetchState::Persisting { explicit: false },
        FetchEvent::Persisted { path: Some("/cache/abc.png".to_string()) },
    );
    assert!(matches!(state, FetchState::Failed { error: FetchError::MissingApplyCommand }));
    assert!(matches!(action, Action::Nothing));
}

#[test]
fn assign_builds_the_apply_command_with_the_persisted_path() {
    let cfg = config(Vec::new(), vec![supplier("s", "s.toml")], Some("swww img {path}"));
    let mut a = args();
    a.assign = true;
    let (state, action) = step(
        &cfg,
        &a,
        FetchState::Persisting { explicit: false },
        FetchEvent::Persisted { path: Some("/cache/abc.png".to_string()) },
    );
    match state {
        FetchState::Applying { path } => assert_eq!(path, "/cache/abc.png"),
        other => panic!("expected Applying, got {:?}", other),
    }
    match action {
        Action::RunCommand { program, args: cmd_args } => {
            assert_eq!(program, "swww");
            assert_eq!(cmd_args, vec!["img", "/cache/abc.png"]);
        },
        other => panic!("expected RunCommand, got {:?}", other),
    }
}

#[test]
fn apply_outcome_is_reported_beside_the_path() {
    let cfg = config(Vec::new(), vec![supplier("s", "s.toml")], Some("swww img {path}"));
    let (state, _) = step(
        &cfg,
        &args(),
        FetchState::Applying { path: "/cache/abc.png".to_string() },
        FetchEvent::Applied { success: true },
    );
    match state {
        FetchState::Done { path, apply } => {
            assert_eq!(path, "/cache/abc.png");
            assert_eq!(apply, ApplyOutcome::Succeeded);
        },
        other => panic!("expected Done, got {:?}", other),
    }
    let (state, _) = step(
        &cfg,
        &args(),
        FetchState::Applying { path: "/cache/abc.png".to_string() },
        FetchEvent::Applied { success: false },
    );
    match state {
        FetchState::Done { path, apply } => {
            assert_eq!(path, "/cache/abc.png");
            assert_eq!(apply, ApplyOutcome::CommandFailed);
        },
        other => panic!("expected Done, got {:?}", other),
    }
}
