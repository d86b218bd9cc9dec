//! Construction of the external command invocations the pipeline issues:
//! the exact program names and argument lists for the authentication
//! check, the mirror clone, repository creation, topic and permission
//! configuration, and the mirror push.

use vstd::prelude::*;
use vstd::string::StringExecFns;

use crate::request::MigrationRequest;
use crate::request::Permission;
use crate::request::Visibility;
use crate::request::permission_word;
use crate::request::spec_permission_word;

verus! {

/// One external invocation: a program, its arguments in order, and
/// whether a confirmation byte is to be piped to its standard input
/// (the collaborator-add call asks for interactive confirmation).
pub struct ExternalCommand {
    pub program: String,
    pub args: Vec<String>,
    pub confirm_input: bool,
}

/// Mathematical model of an `ExternalCommand`.
#[verifier::ext_equal]
pub struct CommandModel {
    pub program: Seq<char>,
    pub args: Seq<Seq<char>>,
    pub confirm: bool,
}

impl View for ExternalCommand {
    type V = CommandModel;

    open spec fn view(&self) -> CommandModel {
        CommandModel {
            program: self.program@,
            args: Seq::new(self.args@.len(), |i: int| self.args@[i]@),
            confirm: self.confirm_input,
        }
    }
}

/// The authentication-status check: `gh auth status`.
pub open spec fn spec_auth_command() -> CommandModel {
    CommandModel { program: "gh"@, args: seq!["auth"@, "status"@], confirm: false }
}

/// The mirror clone of `source_url` into the workspace directory:
/// `git clone <source-url> <workspace> --mirror`.
pub open spec fn spec_clone_command(source_url: Seq<char>, workspace: Seq<char>) -> CommandModel {
    CommandModel {
        program: "git"@,
        args: seq!["clone"@, source_url, workspace, "--mirror"@],
        confirm: false,
    }
}

/// The flag under which a visibility is requested at creation.
pub open spec fn spec_visibility_flag(v: Visibility) -> Seq<char> {
    match v {
        Visibility::Private => "--private"@,
        Visibility::Public => "--public"@,
    }
}

/// Creation of the destination repository:
/// `gh repo create <name> <visibility-flag> [--description <text>]`.
pub open spec fn spec_create_command(r: crate::request::RequestModel) -> CommandModel {
    CommandModel {
        program: "gh"@,
        args: match r.description {
            Some(d) => seq![
                "repo"@,
                "create"@,
                r.repo_name,
                spec_visibility_flag(r.visibility),
                "--description"@,
                d,
            ],
            None => seq!["repo"@, "create"@, r.repo_name, spec_visibility_flag(r.visibility)],
        },
        confirm: false,
    }
}

/// Grant of one team permission, answered with a piped confirmation:
/// `gh repo-collab add <name> <team> --permission <word>`.
pub open spec fn spec_collab_command(
    repo_name: Seq<char>,
    team: Seq<char>,
    p: Permission,
) -> CommandModel {
    CommandModel {
        program: "gh"@,
        args: seq![
            "repo-collab"@,
            "add"@,
            repo_name,
            team,
            "--permission"@,
            spec_permission_word(p),
        ],
        confirm: true,
    }
}

/// Attachment of one topic: `gh repo edit <name> --add-topic <topic>`.
pub open spec fn spec_topic_command(repo_name: Seq<char>, topic: Seq<char>) -> CommandModel {
    CommandModel {
        program: "gh"@,
        args: seq!["repo"@, "edit"@, repo_name, "--add-topic"@, topic],
        confirm: false,
    }
}

/// The SSH-style address the mirrored history is pushed to.
pub open spec fn spec_push_url(slug: Seq<char>) -> Seq<char> {
    "git@github.com:"@ + slug + ".git"@
}

/// The web address under which the destination repository is reported.
pub open spec fn spec_web_url(slug: Seq<char>) -> Seq<char> {
    "https://github.com/"@ + slug
}

/// The mirror push out of the workspace directory:
/// `git -C <workspace> push --mirror <push-url>`.
pub open spec fn spec_push_command(workspace: Seq<char>, slug: Seq<char>) -> CommandModel {
    CommandModel {
        program: "git"@,
        args: seq!["-C"@, workspace, "push"@, "--mirror"@, spec_push_url(slug)],
        confirm: false,
    }
}

/// Build `gh auth status`.
pub fn auth_command() -> (c: ExternalCommand)
    ensures
        c@ == spec_auth_command(),
{
    let mut args: Vec<String> = Vec::new();
    args.push(String::from_str("auth"));
    args.push(String::from_str("status"));
    let c = ExternalCommand { program: String::from_str("gh"), args, confirm_input: false };
    proof {
        assert(c@.args =~= spec_auth_command().args);
        assert(c@ =~= spec_auth_command());
    }
    c
}

/// Build the mirror clone of the request's source into the workspace.
pub fn clone_command(source_url: &String, workspace: &String) -> (c: ExternalCommand)
    ensures
        c@ == spec_clone_command(source_url@, workspace@),
{
    let mut args: Vec<String> = Vec::new();
    args.push(String::from_str("clone"));
    args.push(source_url.clone());
    args.push(workspace.clone());
    args.push(String::from_str("--mirror"));
    let c = ExternalCommand { program: String::from_str("git"), args, confirm_input: false };
    proof {
        assert(c@.args =~= spec_clone_command(source_url@, workspace@).args);
        assert(c@ =~= spec_clone_command(source_url@, workspace@));
    }
    c
}

/// Build the creation of the destination repository.
pub fn create_command(request: &MigrationRequest) -> (c: ExternalCommand)
    ensures
        c@ == spec_create_command(request@),
{
    let mut args: Vec<String> = Vec::new();
    args.push(String::from_str("repo"));
    args.push(String::from_str("create"));
    args.push(request.repo_name.clone());
    match request.visibility {
        Visibility::Private => args.push(String::from_str("--private")),
        Visibility::Public => args.push(String::from_str("--public")),
    }
    match &request.description {
        Some(d) => {
            args.push(String::from_str("--description"));
            args.push(d.clone());
        },
        None => {},
    }
    let c = ExternalCommand { program: String::from_str("gh"), args, confirm_input: false };
    proof {
        assert(c@.args =~= spec_create_command(request@).args);
        assert(c@ =~= spec_create_command(request@));
    }
    c
}

/// Build the grant of one team permission.
pub fn collab_command(repo_name: &String, team: &String, p: Permission) -> (c: ExternalCommand)
    ensures
        c@ == spec_collab_command(repo_name@, team@, p),
{
    let mut args: Vec<String> = Vec::new();
    args.push(String::from_str("repo-collab"));
    args.push(String::from_str("add"));
    args.push(repo_name.clone());
    args.push(team.clone());
    args.push(String::from_str("--permission"));
    args.push(permission_word(p));
    let c = ExternalCommand { program: String::from_str("gh"), args, confirm_input: true };
    proof {
        assert(c@.args =~= spec_collab_command(repo_name@, team@, p).args);
        assert(c@ =~= spec_collab_command(repo_name@, team@, p));
    }
    c
}

/// Build the attachment of one topic.
pub fn topic_command(repo_name: &String, topic: &String) -> (c: ExternalCommand)
    ensures
        c@ == spec_topic_command(repo_name@, topic@),
{
    let mut args: Vec<String> = Vec::new();
    args.push(String::from_str("repo"));
    args.push(String::from_str("edit"));
    args.push(repo_name.clone());
    args.push(String::from_str("--add-topic"));
    args.push(topic.clone());
    let c = ExternalCommand { program: String::from_str("gh"), args, confirm_input: false };
    proof {
        assert(c@.args =~= spec_topic_command(repo_name@, topic@).args);
        assert(c@ =~= spec_topic_command(repo_name@, topic@));
    }
    c
}

/// The SSH-style push address derived from the slug.
pub fn push_url(slug: &String) -> (r: String)
    ensures
        r@ == spec_push_url(slug@),
{
    let mut r = String::from_str("git@github.com:");
    r.append(slug.as_str());
    r.append(".git");
    r
}

/// The web address derived from the slug.
pub fn web_url(slug: &String) -> (r: String)
    ensures
        r@ == spec_web_url(slug@),
{
    let mut r = String::from_str("https://github.com/");
    r.append(slug.as_str());
    r
}

/// Build the mirror push out of the workspace.
pub fn push_command(workspace: &String, slug: &String) -> (c: ExternalCommand)
    ensures
        c@ == spec_push_command(workspace@, slug@),
{
    let mut args: Vec<String> = Vec::new();
    args.push(String::from_str("-C"));
    args.push(workspace.clone());
    args.push(String::from_str("push"));
    args.push(String::from_str("--mirror"));
    args.push(push_url(slug));
    let c = ExternalCommand { program: String::from_str("git"), args, confirm_input: false };
    proof {
        assert(c@.args =~= spec_push_command(workspace@, slug@).args);
        assert(c@ =~= spec_push_command(workspace@, slug@));
    }
    c
}

/// The one line under which an invocation is logged before it runs: the
/// program, then each argument after one space.
pub open spec fn spec_log_line(c: CommandModel) -> Seq<char>
    decreases c.args.len(),
{
    if c.args.len() == 0 {
        c.program
    } else {
        spec_log_line(
            CommandModel { program: c.program, args: c.args.drop_last(), confirm: c.confirm },
        ) + " "@ + c.args.last()
    }
}

impl ExternalCommand {
    /// Render the invocation as the line under which it is logged.
    pub fn log_line(&self) -> (r: String)
        ensures
            r@ == spec_log_line(self@),
    {
        let mut r = self.program.clone();
        let n = self.args.len();
        let mut k: usize = 0;
        while k < n
            invariant
                n == self.args@.len(),
                0 <= k <= n,
                r@ == spec_log_line(
                    CommandModel {
                        program: self@.program,
                        args: self@.args.take(k as int),
                        confirm: self@.confirm,
                    },
                ),
            decreases n - k,
        {
            r.append(" ");
            r.append(self.args[k].as_str());
            proof {
                assert(self@.args.take(k + 1 as int).drop_last() =~= self@.args.take(k as int));
                assert(self@.args.take(k + 1 as int).last() == self@.args[k as int]);
            }
            k = k + 1;
        }
        proof {
            assert(self@.args.take(n as int) =~= self@.args);
        }
        r
    }
}

} // verus!
