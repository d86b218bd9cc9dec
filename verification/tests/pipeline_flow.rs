use repo_migrate::command::push_url;
use repo_migrate::command::web_url;
use repo_migrate::command::ExternalCommand;
use repo_migrate::pipeline::Migration;
use repo_migrate::request::resolve_request;
use repo_migrate::request::MigrationError;
use repo_migrate::request::MigrationRequest;
use repo_migrate::request::Visibility;

fn request(
    source: &str,
    name: &str,
    visibility: Option<Visibility>,
    topics: Vec<&str>,
    tokens: Vec<&str>,
) -> MigrationRequest {
    let tokens: Vec<String> = tokens.into_iter().map(String::from).collect();
    resolve_request(
        String::from(source),
        String::from(name),
        None,
        None,
        visibility,
        topics.into_iter().map(String::from).collect(),
        &tokens,
    )
    .unwrap()
}

fn line(c: &ExternalCommand) -> Vec<String> {
    let mut v = vec![c.program.clone()];
    v.extend(c.args.iter().cloned());
    v
}

/// Drive a migration, feeding back the given outcomes (then successes),
/// and return every command it issued.
fn drive(mut m: Migration, failures_at: &[usize]) -> (Migration, Vec<Vec<String>>, Vec<bool>) {
    let mut issued = Vec::new();
    let mut confirms = Vec::new();
    let mut i = 0;
    while !m.finished() {
        let c = m.pending_command().unwrap();
        issued.push(line(&c));
        confirms.push(c.confirm_input);
        let ok = !failures_at.contains(&i);
        m.step(ok, String::from("stderr text"));
        i += 1;
    }
    assert!(m.pending_command().is_none());
    (m, issued, confirms)
}

#[test]
fn successful_migration_issues_the_documented_sequence() {
    let req = request(
        "git@gitlab:example/app.git",
        "app",
        Some(Visibility::Public),
        vec!["foo", "bar"],
        vec![],
    );
    let m = Migration::new(req, String::from("workdir"));
    let (m, issued, confirms) = drive(m, &[]);
    assert_eq!(
        issued,
        vec![
            vec!["gh", "auth", "status"],
            vec!["git", "clone", "git@gitlab:example/app.git", "workdir", "--mirror"],
            vec!["gh", "repo", "create", "app", "--public"],
            vec!["gh", "repo", "edit", "app", "--add-topic", "foo"],
            vec!["gh", "repo", "edit", "app", "--add-topic", "bar"],
            vec!["git", "-C", "workdir", "push", "--mirror", "git@github.com:app.git"],
        ]
        .into_iter()
        .map(|c| c.into_iter().map(String::from).collect::<Vec<String>>())
        .collect::<Vec<Vec<String>>>()
    );
    assert!(confirms.iter().all(|&c| !c));
    assert!(m.succeeded());
    assert_eq!(m.success_url(), "https://github.com/app");
}

#[test]
fn creation_carries_visibility_and_description() {
    let req = resolve_request(
        String::from("src"),
        String::from("app"),
        None,
        Some(String::from("my words")),
        None,
        vec![],
        &vec![],
    )
    .unwrap();
    let m = Migration::new(req, String::from("w"));
    let (_, issued, _) = drive(m, &[]);
    assert_eq!(
        issued[2],
        vec!["gh", "repo", "create", "app", "--private", "--description", "my words"]
            .into_iter()
            .map(String::from)
            .collect::<Vec<String>>()
    );
}

#[test]
fn permissions_come_before_topics_in_request_order_and_ask_confirmation() {
    let req = request(
        "src",
        "app",
        None,
        vec!["t1", "t2"],
        vec!["acme/frontend:maintain", "acme/ops"],
    );
    let m = Migration::new(req, String::from("w"));
    let (m, issued, confirms) = drive(m, &[]);
    assert!(m.succeeded());
    assert_eq!(issued.len(), 8);
    assert_eq!(
        issued[3],
        vec!["gh", "repo-collab", "add", "app", "acme/frontend", "--permission", "maintain"]
            .into_iter()
            .map(String::from)
            .collect::<Vec<String>>()
    );
    assert_eq!(
        issued[4],
        vec!["gh", "repo-collab", "add", "app", "acme/ops", "--permission", "pull"]
            .into_iter()
            .map(String::from)
            .collect::<Vec<String>>()
    );
    assert_eq!(issued[5][5], "t1");
    assert_eq!(issued[6][5], "t2");
    assert_eq!(confirms, vec![false, false, false, true, true, false, false, false]);
}

#[test]
fn auth_failure_issues_no_further_command() {
    let req = request("src", "app", None, vec!["t"], vec!["acme:push"]);
    let m = Migration::new(req, String::from("w"));
    let (m, issued, _) = drive(m, &[0]);
    assert_eq!(issued.len(), 1);
    assert_eq!(issued[0][0], "gh");
    assert_eq!(issued[0][1], "auth");
    assert!(!m.succeeded());
    assert!(matches!(m.failure(), MigrationError::AuthenticationRequired));
}

#[test]
fn clone_failure_issues_no_creation_or_later_command() {
    let req = request("src", "app", None, vec!["t"], vec![]);
    let m = Migration::new(req, String::from("w"));
    let (m, issued, _) = drive(m, &[1]);
    assert_eq!(issued.len(), 2);
    assert_eq!(issued[1][1], "clone");
    match m.failure() {
        MigrationError::ExternalCommandFailure(stderr) => {
            assert_eq!(stderr, "stderr text");
        }
        other => panic!("unexpected error: {}", other.describe()),
    }
}

#[test]
fn creation_failure_issues_no_configuration_or_push() {
    let req = request("src", "app", None, vec!["t"], vec!["acme:admin"]);
    let m = Migration::new(req, String::from("w"));
    let (m, issued, _) = drive(m, &[2]);
    assert_eq!(issued.len(), 3);
    assert_eq!(issued[2][2], "create");
    assert!(!m.succeeded());
}

#[test]
fn configuration_failure_stops_the_remaining_items() {
    let req = request("src", "app", None, vec!["t1", "t2"], vec!["acme:push"]);
    let m = Migration::new(req, String::from("w"));
    // positions: 0 auth, 1 clone, 2 create, 3 collab, 4 topic t1, 5 topic t2
    let (m, issued, _) = drive(m, &[4]);
    assert_eq!(issued.len(), 5);
    assert_eq!(issued[4][4], "--add-topic");
    assert_eq!(issued[4][5], "t1");
    assert!(!m.succeeded());
}

#[test]
fn push_failure_ends_the_pipeline_failed() {
    let req = request("src", "app", None, vec![], vec![]);
    let m = Migration::new(req, String::from("w"));
    let (m, issued, _) = drive(m, &[3]);
    assert_eq!(issued.len(), 4);
    assert_eq!(issued[3][3], "push");
    assert!(!m.succeeded());
}

#[test]
fn derived_addresses_use_the_slug() {
    assert_eq!(push_url(&String::from("app")), "git@github.com:app.git");
    assert_eq!(web_url(&String::from("app")), "https://github.com/app");
    let req = resolve_request(
        String::from("src"),
        String::from("app"),
        Some(String::from("Other")),
        None,
        None,
        vec![],
        &vec![],
    )
    .unwrap();
    let m = Migration::new(req, String::from("w"));
    let (m, issued, _) = drive(m, &[]);
    assert_eq!(issued[3][5], "git@github.com:Other.git");
    assert_eq!(m.success_url(), "https://github.com/Other");
}

#[test]
fn log_line_spells_the_invocation() {
    let req = request("src", "app", None, vec![], vec![]);
    let m = Migration::new(req, String::from("w"));
    let c = m.pending_command().unwrap();
    assert_eq!(c.log_line(), "gh auth status");
}
