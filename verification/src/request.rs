//! Resolution of caller-supplied parameters into a validated
//! `MigrationRequest`, and the error taxonomy of the pipeline.

use vstd::prelude::*;
use vstd::string::StrSliceExecFns;
use vstd::string::StringExecFns;

verus! {

/// Access setting of the destination repository.
#[derive(Copy, Clone, PartialEq, Eq, Debug)]
pub enum Visibility {
    /// Private destination repository (the default).
    Private,
    /// Public destination repository.
    Public,
}

/// Access level granted to a team or organisation on the destination
/// repository.
#[derive(Copy, Clone, PartialEq, Eq, Debug)]
pub enum Permission {
    Pull,
    Triage,
    Push,
    Maintain,
    Admin,
}

/// One team-or-org together with the permission it is granted.
#[derive(Debug)]
pub struct TeamPermission {
    pub team: String,
    pub permission: Permission,
}

/// Mathematical model of a `TeamPermission`.
#[verifier::ext_equal]
pub struct TeamPermissionModel {
    pub team: Seq<char>,
    pub permission: Permission,
}

impl View for TeamPermission {
    type V = TeamPermissionModel;

    open spec fn view(&self) -> TeamPermissionModel {
        TeamPermissionModel { team: self.team@, permission: self.permission }
    }
}

/// Why the pipeline stopped.
#[derive(Debug)]
pub enum MigrationError {
    /// A required field was absent or a field was malformed; detected
    /// before any external call.
    InvalidInput,
    /// The destination platform session is missing or expired.
    AuthenticationRequired,
    /// An external process exited with a non-zero status; carries its
    /// captured standard-error text, to be relayed verbatim.
    ExternalCommandFailure(String),
    /// The ephemeral workspace could not be created, or a required
    /// external executable could not be located.
    EnvironmentFailure,
}

/// The word by which each permission level is named on the command line.
pub open spec fn spec_permission_word(p: Permission) -> Seq<char> {
    match p {
        Permission::Pull => "pull"@,
        Permission::Triage => "triage"@,
        Permission::Push => "push"@,
        Permission::Maintain => "maintain"@,
        Permission::Admin => "admin"@,
    }
}

/// The permission level named by a word, if any.
pub open spec fn spec_permission_of_word(w: Seq<char>) -> Option<Permission> {
    if w == "pull"@ {
        Some(Permission::Pull)
    } else if w == "triage"@ {
        Some(Permission::Triage)
    } else if w == "push"@ {
        Some(Permission::Push)
    } else if w == "maintain"@ {
        Some(Permission::Maintain)
    } else if w == "admin"@ {
        Some(Permission::Admin)
    } else {
        None
    }
}

/// The command-line word for a permission level.
pub fn permission_word(p: Permission) -> (r: String)
    ensures
        r@ == spec_permission_word(p),
{
    match p {
        Permission::Pull => String::from_str("pull"),
        Permission::Triage => String::from_str("triage"),
        Permission::Push => String::from_str("push"),
        Permission::Maintain => String::from_str("maintain"),
        Permission::Admin => String::from_str("admin"),
    }
}

/// Whether two string slices hold the same characters.
fn str_equal(a: &str, b: &str) -> (r: bool)
    ensures
        r == (a@ == b@),
{
    let sa = String::from_str(a);
    let sb = String::from_str(b);
    sa == sb
}

/// The permission level named by a word, if any.
fn permission_of_word(w: &str) -> (r: Option<Permission>)
    ensures
        r == spec_permission_of_word(w@),
{
    if str_equal(w, "pull") {
        Some(Permission::Pull)
    } else if str_equal(w, "triage") {
        Some(Permission::Triage)
    } else if str_equal(w, "push") {
        Some(Permission::Push)
    } else if str_equal(w, "maintain") {
        Some(Permission::Maintain)
    } else if str_equal(w, "admin") {
        Some(Permission::Admin)
    } else {
        None
    }
}

/// `i` is the position of the first colon of `t`.
pub open spec fn token_splits_at(t: Seq<char>, i: int) -> bool {
    &&& 0 <= i < t.len()
    &&& t[i] == ':'
    &&& forall|j: int| 0 <= j < i ==> t[j] != ':'
}

/// `t` holds no colon at all.
pub open spec fn token_has_no_colon(t: Seq<char>) -> bool {
    forall|j: int| 0 <= j < t.len() ==> t[j] != ':'
}

/// The permission token `t` resolves to the team-or-org `team` with the
/// permission level `p`: either `t` is `team:word` with a non-empty team
/// and a valid permission word, split at the first colon, or `t` has no
/// colon, is non-empty, names the team alone, and the permission
/// defaults to pull.
pub open spec fn token_resolves_to(t: Seq<char>, team: Seq<char>, p: Permission) -> bool {
    ||| (exists|i: int|
        {
            &&& token_splits_at(t, i)
            &&& team == t.take(i)
            &&& team.len() > 0
            &&& spec_permission_of_word(t.skip(i + 1)) == Some(p)
        })
    ||| (token_has_no_colon(t) && t.len() > 0 && team == t && p == Permission::Pull)
}

/// Some team and permission can be read out of the token `t`.
pub open spec fn token_valid(t: Seq<char>) -> bool {
    exists|team: Seq<char>, p: Permission| token_resolves_to(t, team, p)
}

/// A token has at most one first colon.
proof fn lemma_split_position_unique(t: Seq<char>, i1: int, i2: int)
    requires
        token_splits_at(t, i1),
        token_splits_at(t, i2),
    ensures
        i1 == i2,
{
    if i1 < i2 {
        assert(t[i1] != ':');
    }
    if i2 < i1 {
        assert(t[i2] != ':');
    }
}

/// A token resolves to at most one team and permission.
pub proof fn lemma_token_resolution_unique(
    t: Seq<char>,
    team1: Seq<char>,
    p1: Permission,
    team2: Seq<char>,
    p2: Permission,
)
    requires
        token_resolves_to(t, team1, p1),
        token_resolves_to(t, team2, p2),
    ensures
        team1 == team2,
        p1 == p2,
{
    if exists|i: int| token_splits_at(t, i) {
        let i = choose|i: int| token_splits_at(t, i);
        assert(t[i] == ':');
        let i1 = choose|i1: int|
            token_splits_at(t, i1) && team1 == t.take(i1) && team1.len() > 0
                && spec_permission_of_word(t.skip(i1 + 1)) == Some(p1);
        let i2 = choose|i2: int|
            token_splits_at(t, i2) && team2 == t.take(i2) && team2.len() > 0
                && spec_permission_of_word(t.skip(i2 + 1)) == Some(p2);
        lemma_split_position_unique(t, i1, i2);
    }
}

/// Position of the first colon in `s`, if any.
fn find_colon(s: &str) -> (r: Option<usize>)
    ensures
        match r {
            Some(i) => token_splits_at(s@, i as int),
            None => token_has_no_colon(s@),
        },
{
    let n = s.unicode_len();
    let mut k: usize = 0;
    while k < n
        invariant
            n == s@.len(),
            0 <= k <= n,
            forall|j: int| 0 <= j < k ==> s@[j] != ':',
        decreases n - k,
    {
        if s.get_char(k) == ':' {
            return Some(k);
        }
        k = k + 1;
    }
    None
}

/// Read a permission token of the form `team-or-org[:permission]`.
/// Returns the team and permission exactly when the token is valid, and
/// `InvalidInput` exactly when it is not.
pub fn parse_permission_token(token: &str) -> (r: Result<TeamPermission, MigrationError>)
    ensures
        r is Ok <==> token_valid(token@),
        r matches Ok(tp) ==> token_resolves_to(token@, tp.team@, tp.permission),
        r matches Err(e) ==> e is InvalidInput,
{
    let n = token.unicode_len();
    match find_colon(token) {
        Some(i) => {
            if i == 0 {
                proof {
                    lemma_invalid_when_empty_team(token@, 0);
                }
                Err(MigrationError::InvalidInput)
            } else {
                let team = token.substring_char(0, i);
                let word = token.substring_char(i + 1, n);
                match permission_of_word(word) {
                    Some(p) => {
                        let tp = TeamPermission { team: String::from_str(team), permission: p };
                        proof {
                            assert(tp.team@ =~= token@.take(i as int));
                            assert(word@ =~= token@.skip(i as int + 1));
                            assert(token_splits_at(token@, i as int) && tp.team@ == token@.take(
                                i as int,
                            ) && tp.team@.len() > 0 && spec_permission_of_word(
                                token@.skip(i as int + 1),
                            ) == Some(p));
                            assert(token_resolves_to(token@, tp.team@, tp.permission));
                        }
                        Ok(tp)
                    },
                    None => {
                        proof {
                            lemma_invalid_when_bad_word(token@, i as int);
                        }
                        Err(MigrationError::InvalidInput)
                    },
                }
            }
        },
        None => {
            if n == 0 {
                assert(!token_valid(token@)) by {
                    assert forall|team: Seq<char>, p: Permission|
                        !token_resolves_to(token@, team, p) by {
                        if token_resolves_to(token@, team, p) {
                            if exists|i: int| token_splits_at(token@, i) {
                                let i = choose|i: int| token_splits_at(token@, i);
                                assert(token@[i] == ':');
                            }
                        }
                    }
                }
                Err(MigrationError::InvalidInput)
            } else {
                let tp = TeamPermission {
                    team: String::from_str(token),
                    permission: Permission::Pull,
                };
                proof {
                    assert(token_resolves_to(token@, tp.team@, tp.permission));
                }
                Ok(tp)
            }
        },
    }
}

/// No resolution exists when the first colon leaves an empty team.
proof fn lemma_invalid_when_empty_team(t: Seq<char>, i: int)
    requires
        token_splits_at(t, i),
        i == 0,
    ensures
        !token_valid(t),
{
    assert forall|team: Seq<char>, p: Permission| !token_resolves_to(t, team, p) by {
        if token_resolves_to(t, team, p) {
            if token_has_no_colon(t) && t.len() > 0 && team == t && p == Permission::Pull {
                assert(t[i] != ':');
            } else {
                let i2 = choose|i2: int|
                    token_splits_at(t, i2) && team == t.take(i2) && team.len() > 0
                        && spec_permission_of_word(t.skip(i2 + 1)) == Some(p);
                lemma_split_position_unique(t, i, i2);
                assert(team.len() == 0);
            }
        }
    }
}

/// No resolution exists when the text after the first colon is not a
/// permission word.
proof fn lemma_invalid_when_bad_word(t: Seq<char>, i: int)
    requires
        token_splits_at(t, i),
        spec_permission_of_word(t.skip(i + 1)) is None,
    ensures
        !token_valid(t),
{
    assert forall|team: Seq<char>, p: Permission| !token_resolves_to(t, team, p) by {
        if token_resolves_to(t, team, p) {
            if token_has_no_colon(t) && t.len() > 0 && team == t && p == Permission::Pull {
                assert(t[i] != ':');
            } else {
                let i2 = choose|i2: int|
                    token_splits_at(t, i2) && team == t.take(i2) && team.len() > 0
                        && spec_permission_of_word(t.skip(i2 + 1)) == Some(p);
                lemma_split_position_unique(t, i, i2);
            }
        }
    }
}

/// Immutable configuration of one migration, resolved from the caller's
/// input.
#[derive(Debug)]
pub struct MigrationRequest {
    /// URL of the source repository.
    pub source_url: String,
    /// Name of the destination repository.
    pub repo_name: String,
    /// Override of the destination slug; the slug defaults to the
    /// repository name.
    pub slug_override: Option<String>,
    /// Description of the destination repository.
    pub description: Option<String>,
    /// Access setting of the destination repository.
    pub visibility: Visibility,
    /// Topics to attach, in the order they are to be applied.
    pub topics: Vec<String>,
    /// Team permissions to grant, in the order they are to be applied.
    pub permissions: Vec<TeamPermission>,
}

/// Mathematical model of a `MigrationRequest`.
#[verifier::ext_equal]
pub struct RequestModel {
    pub source_url: Seq<char>,
    pub repo_name: Seq<char>,
    pub slug_override: Option<Seq<char>>,
    pub description: Option<Seq<char>>,
    pub visibility: Visibility,
    pub topics: Seq<Seq<char>>,
    pub permissions: Seq<TeamPermissionModel>,
}

impl View for MigrationRequest {
    type V = RequestModel;

    open spec fn view(&self) -> RequestModel {
        RequestModel {
            source_url: self.source_url@,
            repo_name: self.repo_name@,
            slug_override: match self.slug_override {
                Some(s) => Some(s@),
                None => None,
            },
            description: match self.description {
                Some(s) => Some(s@),
                None => None,
            },
            visibility: self.visibility,
            topics: Seq::new(self.topics@.len(), |i: int| self.topics@[i]@),
            permissions: Seq::new(self.permissions@.len(), |i: int| self.permissions@[i]@),
        }
    }
}

impl RequestModel {
    /// A resolved request is well formed: required fields are non-empty,
    /// an override is non-empty when present, every granted team is
    /// non-empty, and the configuration items together fit in a machine
    /// index.
    pub open spec fn wf(self) -> bool {
        &&& self.source_url.len() > 0
        &&& self.repo_name.len() > 0
        &&& (self.slug_override matches Some(o) ==> o.len() > 0)
        &&& (forall|j: int| 0 <= j < self.permissions.len() ==> self.permissions[j].team.len() > 0)
        &&& self.permissions.len() + self.topics.len() <= usize::MAX
    }

    /// The slug under which the destination repository is addressed:
    /// the override when present, else the repository name.
    pub open spec fn slug(self) -> Seq<char> {
        match self.slug_override {
            Some(o) => o,
            None => self.repo_name,
        }
    }
}

/// The inputs out of which a `MigrationRequest` can be resolved: both
/// required fields present, an override non-empty when given, and every
/// permission token readable.
pub open spec fn inputs_valid(
    source_url: Seq<char>,
    repo_name: Seq<char>,
    slug_override: Option<Seq<char>>,
    tokens: Seq<Seq<char>>,
) -> bool {
    &&& source_url.len() > 0
    &&& repo_name.len() > 0
    &&& (slug_override matches Some(o) ==> o.len() > 0)
    &&& (forall|j: int| 0 <= j < tokens.len() ==> token_valid(tokens[j]))
}

/// The request `r` is the resolution of the given inputs: every field is
/// carried over unchanged, the visibility defaults to private when none
/// is given, and each permission token is read into the pair it names,
/// in order.
pub open spec fn resolves_to(
    source_url: Seq<char>,
    repo_name: Seq<char>,
    slug_override: Option<Seq<char>>,
    description: Option<Seq<char>>,
    visibility: Option<Visibility>,
    topics: Seq<Seq<char>>,
    tokens: Seq<Seq<char>>,
    r: RequestModel,
) -> bool {
    &&& r.source_url == source_url
    &&& r.repo_name == repo_name
    &&& r.slug_override == slug_override
    &&& r.description == description
    &&& r.visibility == (match visibility {
        Some(v) => v,
        None => Visibility::Private,
    })
    &&& r.topics == topics
    &&& r.permissions.len() == tokens.len()
    &&& (forall|j: int|
        0 <= j < tokens.len() ==> token_resolves_to(
            tokens[j],
            #[trigger] r.permissions[j].team,
            r.permissions[j].permission,
        ))
}

/// Resolve the caller's parameters into a `MigrationRequest`.  Succeeds
/// exactly when the inputs are valid, and then returns the one request
/// they resolve to; fails with `InvalidInput` otherwise.
pub fn resolve_request(
    source_url: String,
    repo_name: String,
    slug_override: Option<String>,
    description: Option<String>,
    visibility: Option<Visibility>,
    topics: Vec<String>,
    permission_tokens: &Vec<String>,
) -> (r: Result<MigrationRequest, MigrationError>)
    requires
        permission_tokens@.len() + topics@.len() <= usize::MAX,
    ensures
        r is Ok <==> inputs_valid(
            source_url@,
            repo_name@,
            match slug_override {
                Some(o) => Some(o@),
                None => None,
            },
            permission_tokens.deep_view(),
        ),
        r matches Ok(req) ==> req@.wf() && resolves_to(
            source_url@,
            repo_name@,
            match slug_override {
                Some(o) => Some(o@),
                None => None,
            },
            match description {
                Some(d) => Some(d@),
                None => None,
            },
            visibility,
            topics.deep_view(),
            permission_tokens.deep_view(),
            req@,
        ),
        r matches Err(e) ==> e is InvalidInput,
{
    if source_url.as_str().is_empty() {
        return Err(MigrationError::InvalidInput);
    }
    if repo_name.as_str().is_empty() {
        return Err(MigrationError::InvalidInput);
    }
    match &slug_override {
        Some(o) => {
            if o.as_str().is_empty() {
                return Err(MigrationError::InvalidInput);
            }
        },
        None => {},
    }
    let mut permissions: Vec<TeamPermission> = Vec::new();
    let n = permission_tokens.len();
    let mut k: usize = 0;
    while k < n
        invariant
            n == permission_tokens@.len(),
            0 <= k <= n,
            permissions@.len() == k,
            forall|j: int| 0 <= j < k ==> token_valid(permission_tokens.deep_view()[j]),
            forall|j: int|
                0 <= j < k ==> token_resolves_to(
                    permission_tokens.deep_view()[j],
                    #[trigger] permissions@[j]@.team,
                    permissions@[j]@.permission,
                ),
        decreases n - k,
    {
        match parse_permission_token(permission_tokens[k].as_str()) {
            Ok(tp) => {
                permissions.push(tp);
            },
            Err(e) => {
                proof {
                    assert(!token_valid(permission_tokens.deep_view()[k as int]));
                }
                return Err(e);
            },
        }
        k = k + 1;
    }
    let req = MigrationRequest {
        source_url,
        repo_name,
        slug_override,
        description,
        visibility: match visibility {
            Some(v) => v,
            None => Visibility::Private,
        },
        topics,
        permissions,
    };
    proof {
        assert(req@.topics =~= req.topics.deep_view());
        assert(forall|j: int|
            0 <= j < req@.permissions.len() ==> #[trigger] req@.permissions[j].team.len() > 0)
            by {
            assert forall|j: int| 0 <= j < req@.permissions.len() implies #[trigger] req@
                .permissions[j].team.len() > 0 by {
                lemma_resolved_team_nonempty(
                    permission_tokens.deep_view()[j],
                    req@.permissions[j].team,
                    req@.permissions[j].permission,
                );
            }
        }
    }
    Ok(req)
}

/// A team read out of a valid token is non-empty.
proof fn lemma_resolved_team_nonempty(t: Seq<char>, team: Seq<char>, p: Permission)
    requires
        token_resolves_to(t, team, p),
    ensures
        team.len() > 0,
{
}

impl MigrationRequest {
    /// The slug under which the destination repository is addressed:
    /// the override when present, else the repository name.
    pub fn resolved_slug(&self) -> (r: String)
        ensures
            r@ == self@.slug(),
    {
        match &self.slug_override {
            Some(o) => o.clone(),
            None => self.repo_name.clone(),
        }
    }
}

/// Request resolution is deterministic: one set of inputs resolves to at
/// most one request.
pub proof fn lemma_resolution_deterministic(
    source_url: Seq<char>,
    repo_name: Seq<char>,
    slug_override: Option<Seq<char>>,
    description: Option<Seq<char>>,
    visibility: Option<Visibility>,
    topics: Seq<Seq<char>>,
    tokens: Seq<Seq<char>>,
    r1: RequestModel,
    r2: RequestModel,
)
    requires
        resolves_to(source_url, repo_name, slug_override, description, visibility, topics, tokens, r1),
        resolves_to(source_url, repo_name, slug_override, description, visibility, topics, tokens, r2),
    ensures
        r1 == r2,
{
    assert forall|j: int| 0 <= j < tokens.len() implies #[trigger] r1.permissions[j]
        =~= r2.permissions[j] by {
        lemma_token_resolution_unique(
            tokens[j],
            r1.permissions[j].team,
            r1.permissions[j].permission,
            r2.permissions[j].team,
            r2.permissions[j].permission,
        );
    }
    assert(r1.permissions =~= r2.permissions);
    assert(r1 =~= r2);
}

/// The slug defaults to the repository name and is replaced by the
/// override exactly when one is present.
pub proof fn lemma_slug_resolution(r: RequestModel)
    ensures
        r.slug_override is None ==> r.slug() == r.repo_name,
        r.slug_override matches Some(o) ==> r.slug() == o,
{
}

impl MigrationError {
    /// Text under which the error is reported to the operator; the
    /// captured standard-error text of a failed external command is
    /// relayed verbatim.
    pub fn describe(&self) -> (r: String)
        ensures
            r@ == self.spec_describe(),
    {
        match self {
            MigrationError::InvalidInput => String::from_str(
                "invalid input: check the required fields and the permission tokens",
            ),
            MigrationError::AuthenticationRequired => String::from_str(
                "You need to log in using gh auth login.",
            ),
            MigrationError::ExternalCommandFailure(stderr) => stderr.clone(),
            MigrationError::EnvironmentFailure => String::from_str(
                "could not prepare the environment for the migration",
            ),
        }
    }

    /// The text `describe` reports.
    pub open spec fn spec_describe(&self) -> Seq<char> {
        match self {
            MigrationError::InvalidInput => "invalid input: check the required fields and the permission tokens"@,
            MigrationError::AuthenticationRequired => "You need to log in using gh auth login."@,
            MigrationError::ExternalCommandFailure(stderr) => stderr@,
            MigrationError::EnvironmentFailure => "could not prepare the environment for the migration"@,
        }
    }
}

} // verus!
