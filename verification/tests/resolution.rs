use repo_migrate::request::parse_permission_token;
use repo_migrate::request::resolve_request;
use repo_migrate::request::MigrationError;
use repo_migrate::request::Permission;
use repo_migrate::request::Visibility;

#[test]
fn permission_token_with_colon_names_team_and_level() {
    let tp = parse_permission_token("acme/frontend:maintain").unwrap();
    assert_eq!(tp.team, "acme/frontend");
    assert!(matches!(tp.permission, Permission::Maintain));
}

#[test]
fn permission_token_without_colon_defaults_to_pull() {
    let tp = parse_permission_token("acme/frontend").unwrap();
    assert_eq!(tp.team, "acme/frontend");
    assert!(matches!(tp.permission, Permission::Pull));
}

#[test]
fn permission_token_levels_all_resolve() {
    let cases = [
        ("t:pull", Permission::Pull),
        ("t:triage", Permission::Triage),
        ("t:push", Permission::Push),
        ("t:maintain", Permission::Maintain),
        ("t:admin", Permission::Admin),
    ];
    for (token, expected) in cases {
        let tp = parse_permission_token(token).unwrap();
        assert_eq!(tp.team, "t");
        assert_eq!(tp.permission, expected);
    }
}

#[test]
fn permission_token_with_empty_team_is_invalid() {
    let e = parse_permission_token(":maintain").unwrap_err();
    assert!(matches!(e, MigrationError::InvalidInput));
}

#[test]
fn permission_token_with_unknown_level_is_invalid() {
    let e = parse_permission_token("acme/frontend:owner").unwrap_err();
    assert!(matches!(e, MigrationError::InvalidInput));
}

#[test]
fn empty_permission_token_is_invalid() {
    let e = parse_permission_token("").unwrap_err();
    assert!(matches!(e, MigrationError::InvalidInput));
}

#[test]
fn permission_token_with_two_colons_is_invalid() {
    let e = parse_permission_token("acme:push:extra").unwrap_err();
    assert!(matches!(e, MigrationError::InvalidInput));
}

#[test]
fn resolution_keeps_every_field_and_defaults_visibility() {
    let req = resolve_request(
        String::from("git@gitlab:example/app.git"),
        String::from("app"),
        Some(String::from("AppSlug")),
        Some(String::from("a description")),
        None,
        vec![String::from("foo"), String::from("bar")],
        &vec![String::from("acme/frontend:maintain"), String::from("acme/ops")],
    )
    .unwrap();
    assert_eq!(req.source_url, "git@gitlab:example/app.git");
    assert_eq!(req.repo_name, "app");
    assert_eq!(req.slug_override.as_deref(), Some("AppSlug"));
    assert_eq!(req.description.as_deref(), Some("a description"));
    assert_eq!(req.visibility, Visibility::Private);
    assert_eq!(req.topics, vec!["foo", "bar"]);
    assert_eq!(req.permissions.len(), 2);
    assert_eq!(req.permissions[0].team, "acme/frontend");
    assert_eq!(req.permissions[0].permission, Permission::Maintain);
    assert_eq!(req.permissions[1].team, "acme/ops");
    assert_eq!(req.permissions[1].permission, Permission::Pull);
}

#[test]
fn resolution_is_deterministic_on_identical_inputs() {
    let resolve = || {
        resolve_request(
            String::from("git@gitlab:example/app.git"),
            String::from("app"),
            None,
            None,
            Some(Visibility::Public),
            vec![String::from("topic")],
            &vec![String::from("acme/frontend:admin")],
        )
        .unwrap()
    };
    let a = resolve();
    let b = resolve();
    assert_eq!(a.source_url, b.source_url);
    assert_eq!(a.repo_name, b.repo_name);
    assert_eq!(a.slug_override, b.slug_override);
    assert_eq!(a.description, b.description);
    assert_eq!(a.visibility, b.visibility);
    assert_eq!(a.topics, b.topics);
    assert_eq!(a.permissions.len(), b.permissions.len());
    for (pa, pb) in a.permissions.iter().zip(b.permissions.iter()) {
        assert_eq!(pa.team, pb.team);
        assert_eq!(pa.permission, pb.permission);
    }
}

#[test]
fn resolution_rejects_missing_required_fields() {
    let e = resolve_request(
        String::new(),
        String::from("app"),
        None,
        None,
        None,
        vec![],
        &vec![],
    )
    .unwrap_err();
    assert!(matches!(e, MigrationError::InvalidInput));

    let e = resolve_request(
        String::from("git@gitlab:example/app.git"),
        String::new(),
        None,
        None,
        None,
        vec![],
        &vec![],
    )
    .unwrap_err();
    assert!(matches!(e, MigrationError::InvalidInput));
}

#[test]
fn resolution_rejects_empty_override_and_bad_token() {
    let e = resolve_request(
        String::from("src"),
        String::from("app"),
        Some(String::new()),
        None,
        None,
        vec![],
        &vec![],
    )
    .unwrap_err();
    assert!(matches!(e, MigrationError::InvalidInput));

    let e = resolve_request(
        String::from("src"),
        String::from("app"),
        None,
        None,
        None,
        vec![],
        &vec![String::from(":push")],
    )
    .unwrap_err();
    assert!(matches!(e, MigrationError::InvalidInput));
}

#[test]
fn slug_defaults_to_repository_name() {
    let req = resolve_request(
        String::from("src"),
        String::from("app"),
        None,
        None,
        None,
        vec![],
        &vec![],
    )
    .unwrap();
    assert_eq!(req.resolved_slug(), "app");
}

#[test]
fn slug_override_replaces_repository_name() {
    let req = resolve_request(
        String::from("src"),
        String::from("app"),
        Some(String::from("KataGildedRose")),
        None,
        None,
        vec![],
        &vec![],
    )
    .unwrap();
    assert_eq!(req.resolved_slug(), "KataGildedRose");
}

#[test]
fn error_descriptions_name_the_cause() {
    assert_eq!(
        MigrationError::AuthenticationRequired.describe(),
        "You need to log in using gh auth login."
    );
    assert_eq!(
        MigrationError::ExternalCommandFailure(String::from("fatal: repository not found\n"))
            .describe(),
        "fatal: repository not found\n"
    );
    assert!(MigrationError::InvalidInput.describe().contains("invalid input"));
    assert!(MigrationError::EnvironmentFailure.describe().contains("environment"));
}
