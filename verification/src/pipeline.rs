//! The migration pipeline: an ordered state machine over five stages —
//! authentication check, mirror clone, repository creation, configuration
//! (team permissions, then topics, each in request order), and mirror
//! push.  Each non-terminal state carries exactly one pending external
//! command; feeding the command's outcome back advances the machine, and
//! any failure moves it to a terminal failed state, so that no later
//! command is ever issued.

use vstd::prelude::*;
use vstd::pervasive::unreached;

use crate::command::CommandModel;
use crate::command::ExternalCommand;
use crate::command::auth_command;
use crate::command::clone_command;
use crate::command::collab_command;
use crate::command::create_command;
use crate::command::push_command;
use crate::command::spec_auth_command;
use crate::command::spec_clone_command;
use crate::command::spec_collab_command;
use crate::command::spec_create_command;
use crate::command::spec_push_command;
use crate::command::spec_topic_command;
use crate::command::spec_web_url;
use crate::command::topic_command;
use crate::command::web_url;
use crate::request::MigrationError;
use crate::request::MigrationRequest;
use crate::request::RequestModel;

verus! {

/// Where the pipeline stands.  `Configure { next }` is about to apply the
/// configuration item at position `next`: the team permissions in request
/// order, then the topics in request order.
#[derive(Copy, Clone, PartialEq, Eq, Debug)]
pub enum PipelineState {
    AuthCheck,
    MirrorClone,
    CreateRepo,
    Configure { next: usize },
    MirrorPush,
    Succeeded,
    Failed,
}

/// The number of configuration items: one per team permission, one per
/// topic.
pub open spec fn num_config_ops(r: RequestModel) -> nat {
    r.permissions.len() + r.topics.len()
}

/// The configuration command at position `i`: the team permissions in
/// request order, then the topics in request order.
pub open spec fn spec_config_command(r: RequestModel, i: int) -> CommandModel {
    if i < r.permissions.len() {
        spec_collab_command(r.repo_name, r.permissions[i].team, r.permissions[i].permission)
    } else {
        spec_topic_command(r.repo_name, r.topics[i - r.permissions.len()])
    }
}

/// A terminal state: the pipeline is over and issues nothing more.
pub open spec fn is_terminal(st: PipelineState) -> bool {
    st is Succeeded || st is Failed
}

/// The one command pending in a state; terminal states have none.
pub open spec fn spec_state_command(
    r: RequestModel,
    workspace: Seq<char>,
    st: PipelineState,
) -> Option<CommandModel> {
    match st {
        PipelineState::AuthCheck => Some(spec_auth_command()),
        PipelineState::MirrorClone => Some(spec_clone_command(r.source_url, workspace)),
        PipelineState::CreateRepo => Some(spec_create_command(r)),
        PipelineState::Configure { next } => Some(spec_config_command(r, next as int)),
        PipelineState::MirrorPush => Some(spec_push_command(workspace, r.slug())),
        PipelineState::Succeeded => None,
        PipelineState::Failed => None,
    }
}

/// The state after the pending command's outcome is known.  Success moves
/// one stage forward; any failure moves to `Failed`; terminal states
/// absorb every outcome.
pub open spec fn spec_next_state(r: RequestModel, st: PipelineState, ok: bool) -> PipelineState {
    match st {
        PipelineState::AuthCheck => if ok {
            PipelineState::MirrorClone
        } else {
            PipelineState::Failed
        },
        PipelineState::MirrorClone => if ok {
            PipelineState::CreateRepo
        } else {
            PipelineState::Failed
        },
        PipelineState::CreateRepo => if ok {
            if num_config_ops(r) > 0 {
                PipelineState::Configure { next: 0 }
            } else {
                PipelineState::MirrorPush
            }
        } else {
            PipelineState::Failed
        },
        PipelineState::Configure { next } => if ok {
            if next + 1 < num_config_ops(r) {
                PipelineState::Configure { next: (next + 1) as usize }
            } else {
                PipelineState::MirrorPush
            }
        } else {
            PipelineState::Failed
        },
        PipelineState::MirrorPush => if ok {
            PipelineState::Succeeded
        } else {
            PipelineState::Failed
        },
        PipelineState::Succeeded => PipelineState::Succeeded,
        PipelineState::Failed => PipelineState::Failed,
    }
}

/// One migration in flight: the resolved request, the path of the
/// ephemeral workspace the mirror lives in, the current state, and the
/// error that ended the pipeline, if one did.
pub struct Migration {
    pub request: MigrationRequest,
    pub workspace: String,
    pub state: PipelineState,
    pub error: Option<MigrationError>,
}

impl Migration {
    /// Internal consistency: the request is well formed, a configuration
    /// position is in range, and an error is recorded exactly in the
    /// failed state.
    pub open spec fn wf(self) -> bool {
        &&& self.request@.wf()
        &&& (self.state matches PipelineState::Configure { next } ==> next < num_config_ops(
            self.request@,
        ))
        &&& ((self.state is Failed) <==> (self.error is Some))
    }

    /// Start a migration: the pipeline stands at the authentication
    /// check and nothing has failed.
    pub fn new(request: MigrationRequest, workspace: String) -> (m: Migration)
        requires
            request@.wf(),
        ensures
            m.wf(),
            m.request == request,
            m.workspace == workspace,
            m.state == PipelineState::AuthCheck,
            m.error is None,
    {
        Migration { request, workspace, state: PipelineState::AuthCheck, error: None }
    }

    /// Whether the pipeline is over.
    pub fn finished(&self) -> (r: bool)
        ensures
            r == is_terminal(self.state),
    {
        match self.state {
            PipelineState::Succeeded => true,
            PipelineState::Failed => true,
            _ => false,
        }
    }

    /// The command to run next: exactly one while the pipeline is not
    /// over, none afterwards.
    pub fn pending_command(&self) -> (r: Option<ExternalCommand>)
        requires
            self.wf(),
        ensures
            match r {
                Some(c) => spec_state_command(self.request@, self.workspace@, self.state) == Some(
                    c@,
                ),
                None => is_terminal(self.state),
            },
    {
        match self.state {
            PipelineState::AuthCheck => Some(auth_command()),
            PipelineState::MirrorClone => Some(
                clone_command(&self.request.source_url, &self.workspace),
            ),
            PipelineState::CreateRepo => Some(create_command(&self.request)),
            PipelineState::Configure { next } => {
                let perms = self.request.permissions.len();
                if next < perms {
                    let tp = &self.request.permissions[next];
                    Some(collab_command(&self.request.repo_name, &tp.team, tp.permission))
                } else {
                    let topic = &self.request.topics[next - perms];
                    Some(topic_command(&self.request.repo_name, topic))
                }
            },
            PipelineState::MirrorPush => {
                let slug = self.request.resolved_slug();
                Some(push_command(&self.workspace, &slug))
            },
            PipelineState::Succeeded => None,
            PipelineState::Failed => None,
        }
    }

    /// Feed back the outcome of the pending command.  On success the
    /// pipeline moves one stage forward; on failure it ends at once,
    /// recording `AuthenticationRequired` when the authentication check
    /// failed and the command's captured standard-error text otherwise.
    pub fn step(&mut self, success: bool, stderr: String)
        requires
            old(self).wf(),
            !is_terminal(old(self).state),
        ensures
            final(self).wf(),
            final(self).request == old(self).request,
            final(self).workspace == old(self).workspace,
            final(self).state == spec_next_state(old(self).request@, old(self).state, success),
            success ==> final(self).error == old(self).error,
            !success && old(self).state is AuthCheck ==> final(self).error == Some(
                MigrationError::AuthenticationRequired,
            ),
            !success && !(old(self).state is AuthCheck) ==> final(self).error == Some(
                MigrationError::ExternalCommandFailure(stderr),
            ),
    {
        if !success {
            match self.state {
                PipelineState::AuthCheck => {
                    self.error = Some(MigrationError::AuthenticationRequired);
                },
                _ => {
                    self.error = Some(MigrationError::ExternalCommandFailure(stderr));
                },
            }
            self.state = PipelineState::Failed;
            return ;
        }
        match self.state {
            PipelineState::AuthCheck => {
                self.state = PipelineState::MirrorClone;
            },
            PipelineState::MirrorClone => {
                self.state = PipelineState::CreateRepo;
            },
            PipelineState::CreateRepo => {
                let perms = self.request.permissions.len();
                let topics = self.request.topics.len();
                if perms > 0 || topics > 0 {
                    self.state = PipelineState::Configure { next: 0 };
                } else {
                    self.state = PipelineState::MirrorPush;
                }
            },
            PipelineState::Configure { next } => {
                let perms = self.request.permissions.len();
                let topics = self.request.topics.len();
                let k = next + 1;
                if k < perms {
                    self.state = PipelineState::Configure { next: k };
                } else if k - perms < topics {
                    self.state = PipelineState::Configure { next: k };
                } else {
                    self.state = PipelineState::MirrorPush;
                }
            },
            PipelineState::MirrorPush => {
                self.state = PipelineState::Succeeded;
            },
            PipelineState::Succeeded => {},
            PipelineState::Failed => {},
        }
    }

    /// Whether the whole migration succeeded: the mirror push went
    /// through.
    pub fn succeeded(&self) -> (r: bool)
        ensures
            r == (self.state is Succeeded),
    {
        match self.state {
            PipelineState::Succeeded => true,
            _ => false,
        }
    }

    /// The web address of the destination repository, reported on
    /// success.
    pub fn success_url(&self) -> (r: String)
        requires
            self.state is Succeeded,
        ensures
            r@ == spec_web_url(self.request@.slug()),
    {
        let slug = self.request.resolved_slug();
        web_url(&slug)
    }

    /// The error that ended the pipeline.
    pub fn failure(&self) -> (r: &MigrationError)
        requires
            self.wf(),
            self.state is Failed,
        ensures
            Some(*r) == self.error,
    {
        match &self.error {
            Some(e) => e,
            None => unreached(),
        }
    }
}

/// The full command sequence of a migration that succeeds throughout:
/// authentication check, mirror clone, creation, the configuration items
/// in request order, mirror push.
pub open spec fn spec_plan(r: RequestModel, workspace: Seq<char>) -> Seq<CommandModel> {
    seq![spec_auth_command(), spec_clone_command(r.source_url, workspace), spec_create_command(r)]
        + Seq::new(num_config_ops(r), |i: int| spec_config_command(r, i)) + seq![
        spec_push_command(workspace, r.slug()),
    ]
}

/// The state the pipeline stands in after `n` successful outcomes.
pub open spec fn spec_state_at(r: RequestModel, n: int) -> PipelineState {
    if n == 0 {
        PipelineState::AuthCheck
    } else if n == 1 {
        PipelineState::MirrorClone
    } else if n == 2 {
        PipelineState::CreateRepo
    } else if 3 <= n < 3 + num_config_ops(r) {
        PipelineState::Configure { next: (n - 3) as usize }
    } else if n == 3 + num_config_ops(r) {
        PipelineState::MirrorPush
    } else {
        PipelineState::Succeeded
    }
}

/// The state the pipeline reaches over the outcomes fed back, one per
/// issued command, starting at the authentication check.
pub open spec fn spec_run(r: RequestModel, outcomes: Seq<bool>) -> PipelineState
    decreases outcomes.len(),
{
    if outcomes.len() == 0 {
        PipelineState::AuthCheck
    } else {
        spec_next_state(r, spec_run(r, outcomes.drop_last()), outcomes.last())
    }
}

/// The commands the pipeline issues over the outcomes fed back: one per
/// non-terminal state passed through, none once the pipeline is over.
pub open spec fn spec_issued(
    r: RequestModel,
    workspace: Seq<char>,
    outcomes: Seq<bool>,
) -> Seq<CommandModel>
    decreases outcomes.len(),
{
    if outcomes.len() == 0 {
        Seq::empty()
    } else {
        let prev = spec_issued(r, workspace, outcomes.drop_last());
        match spec_state_command(r, workspace, spec_run(r, outcomes.drop_last())) {
            Some(c) => prev.push(c),
            None => prev,
        }
    }
}

/// In each non-terminal position `n` of the plan, the pending command is
/// the plan's `n`-th command, success moves to position `n + 1`, and
/// failure ends the pipeline.
proof fn lemma_state_at_step(r: RequestModel, workspace: Seq<char>, n: int)
    requires
        r.wf(),
        0 <= n < spec_plan(r, workspace).len(),
    ensures
        !is_terminal(spec_state_at(r, n)),
        spec_state_command(r, workspace, spec_state_at(r, n)) == Some(
            spec_plan(r, workspace)[n],
        ),
        spec_next_state(r, spec_state_at(r, n), true) == spec_state_at(r, n + 1),
        spec_next_state(r, spec_state_at(r, n), false) == PipelineState::Failed,
{
    let m = num_config_ops(r) as int;
    assert(spec_plan(r, workspace).len() == 4 + m);
    if 3 <= n < 3 + m {
        assert((n - 3) as usize as int == n - 3);
        if n + 1 < 3 + m {
            assert((n - 3) as usize + 1 == (n + 1 - 3) as usize as int);
        }
    }
}

/// After `n` successful outcomes the pipeline stands at position `n` of
/// the plan, having issued exactly the plan's first `n` commands.
proof fn lemma_run_all_success(r: RequestModel, workspace: Seq<char>, outcomes: Seq<bool>, n: int)
    requires
        r.wf(),
        0 <= n <= outcomes.len(),
        n <= spec_plan(r, workspace).len(),
        forall|i: int| 0 <= i < n ==> outcomes[i],
    ensures
        spec_run(r, outcomes.take(n)) == spec_state_at(r, n),
        spec_issued(r, workspace, outcomes.take(n)) == spec_plan(r, workspace).take(n),
    decreases n,
{
    if n == 0 {
        assert(outcomes.take(0) =~= Seq::<bool>::empty());
        assert(spec_plan(r, workspace).take(0) =~= Seq::<CommandModel>::empty());
    } else {
        lemma_run_all_success(r, workspace, outcomes, n - 1);
        lemma_state_at_step(r, workspace, n - 1);
        assert(outcomes.take(n).drop_last() =~= outcomes.take(n - 1));
        assert(outcomes.take(n).last() == outcomes[n - 1]);
        assert(spec_plan(r, workspace).take(n) =~= spec_plan(r, workspace).take(n - 1).push(
            spec_plan(r, workspace)[n - 1],
        ));
    }
}

/// Once the pipeline is over, later outcomes change nothing and no
/// further command is issued.
proof fn lemma_terminal_stops(r: RequestModel, workspace: Seq<char>, outcomes: Seq<bool>, n: int)
    requires
        0 <= n <= outcomes.len(),
        is_terminal(spec_run(r, outcomes.take(n))),
    ensures
        spec_run(r, outcomes) == spec_run(r, outcomes.take(n)),
        spec_issued(r, workspace, outcomes) == spec_issued(r, workspace, outcomes.take(n)),
    decreases outcomes.len(),
{
    if n == outcomes.len() {
        assert(outcomes.take(n) =~= outcomes);
    } else {
        let prev = outcomes.drop_last();
        assert(prev.take(n) =~= outcomes.take(n));
        lemma_terminal_stops(r, workspace, prev, n);
    }
}

/// The pipeline issues the plan's commands in order and stops at the
/// first failure: when the first `k` outcomes succeed and the next one
/// fails, exactly the plan's first `k + 1` commands have been issued —
/// the failing one last — and the pipeline ends failed.
pub proof fn lemma_stops_at_first_failure(
    r: RequestModel,
    workspace: Seq<char>,
    outcomes: Seq<bool>,
    k: int,
)
    requires
        r.wf(),
        0 <= k < spec_plan(r, workspace).len(),
        k < outcomes.len(),
        forall|i: int| 0 <= i < k ==> outcomes[i],
        !outcomes[k],
    ensures
        spec_run(r, outcomes) == PipelineState::Failed,
        spec_issued(r, workspace, outcomes) == spec_plan(r, workspace).take(k + 1),
{
    lemma_run_all_success(r, workspace, outcomes, k);
    lemma_state_at_step(r, workspace, k);
    assert(outcomes.take(k + 1).drop_last() =~= outcomes.take(k));
    assert(outcomes.take(k + 1).last() == outcomes[k]);
    assert(spec_run(r, outcomes.take(k + 1)) == PipelineState::Failed);
    assert(spec_issued(r, workspace, outcomes.take(k + 1)) =~= spec_plan(r, workspace).take(
        k + 1,
    ));
    lemma_terminal_stops(r, workspace, outcomes, k + 1);
}

/// A pipeline whose every command succeeds issues exactly the plan, in
/// order, and ends succeeded.
pub proof fn lemma_success_issues_whole_plan(
    r: RequestModel,
    workspace: Seq<char>,
    outcomes: Seq<bool>,
)
    requires
        r.wf(),
        outcomes.len() >= spec_plan(r, workspace).len(),
        forall|i: int| 0 <= i < spec_plan(r, workspace).len() ==> outcomes[i],
    ensures
        spec_run(r, outcomes) == PipelineState::Succeeded,
        spec_issued(r, workspace, outcomes) == spec_plan(r, workspace),
{
    let n = spec_plan(r, workspace).len() as int;
    lemma_run_all_success(r, workspace, outcomes, n);
    assert(spec_plan(r, workspace).take(n) =~= spec_plan(r, workspace));
    lemma_terminal_stops(r, workspace, outcomes, n);
}

/// If the authentication check fails, the pipeline issues nothing beyond
/// the check itself: no clone, creation, configuration or push command.
pub proof fn lemma_auth_failure_issues_nothing_more(
    r: RequestModel,
    workspace: Seq<char>,
    outcomes: Seq<bool>,
)
    requires
        r.wf(),
        outcomes.len() >= 1,
        !outcomes[0],
    ensures
        spec_run(r, outcomes) == PipelineState::Failed,
        spec_issued(r, workspace, outcomes) == seq![spec_auth_command()],
{
    lemma_stops_at_first_failure(r, workspace, outcomes, 0);
    assert(spec_plan(r, workspace).take(1) =~= seq![spec_auth_command()]);
}

/// If the mirror clone fails, no creation, configuration or push command
/// is issued.
pub proof fn lemma_clone_failure_issues_nothing_more(
    r: RequestModel,
    workspace: Seq<char>,
    outcomes: Seq<bool>,
)
    requires
        r.wf(),
        outcomes.len() >= 2,
        outcomes[0],
        !outcomes[1],
    ensures
        spec_run(r, outcomes) == PipelineState::Failed,
        spec_issued(r, workspace, outcomes) == seq![
            spec_auth_command(),
            spec_clone_command(r.source_url, workspace),
        ],
{
    lemma_stops_at_first_failure(r, workspace, outcomes, 1);
    assert(spec_plan(r, workspace).take(2) =~= seq![
        spec_auth_command(),
        spec_clone_command(r.source_url, workspace),
    ]);
}

/// If the creation fails, no configuration or push command is issued.
pub proof fn lemma_create_failure_issues_nothing_more(
    r: RequestModel,
    workspace: Seq<char>,
    outcomes: Seq<bool>,
)
    requires
        r.wf(),
        outcomes.len() >= 3,
        outcomes[0],
        outcomes[1],
        !outcomes[2],
    ensures
        spec_run(r, outcomes) == PipelineState::Failed,
        spec_issued(r, workspace, outcomes) == seq![
            spec_auth_command(),
            spec_clone_command(r.source_url, workspace),
            spec_create_command(r),
        ],
{
    lemma_stops_at_first_failure(r, workspace, outcomes, 2);
    assert(spec_plan(r, workspace).take(3) =~= seq![
        spec_auth_command(),
        spec_clone_command(r.source_url, workspace),
        spec_create_command(r),
    ]);
}

/// The configuration commands stand in the plan in the exact order
/// supplied in the request: each team permission at its position, then
/// each topic at its position.
pub proof fn lemma_configuration_order(r: RequestModel, workspace: Seq<char>)
    requires
        r.wf(),
    ensures
        spec_plan(r, workspace).len() == 4 + num_config_ops(r),
        forall|j: int|
            0 <= j < r.permissions.len() ==> spec_plan(r, workspace)[3 + j]
                == spec_collab_command(
                r.repo_name,
                #[trigger] r.permissions[j].team,
                r.permissions[j].permission,
            ),
        forall|j: int|
            0 <= j < r.topics.len() ==> spec_plan(r, workspace)[3 + r.permissions.len() + j]
                == spec_topic_command(r.repo_name, #[trigger] r.topics[j]),
{
}

/// A failure at the configuration item in position `k` prevents every
/// later configuration item and the push: exactly the plan up to and
/// including that item has been issued.
pub proof fn lemma_configuration_failure_stops(
    r: RequestModel,
    workspace: Seq<char>,
    outcomes: Seq<bool>,
    k: int,
)
    requires
        r.wf(),
        0 <= k < num_config_ops(r),
        3 + k < outcomes.len(),
        forall|i: int| 0 <= i < 3 + k ==> outcomes[i],
        !outcomes[3 + k],
    ensures
        spec_run(r, outcomes) == PipelineState::Failed,
        spec_issued(r, workspace, outcomes) == spec_plan(r, workspace).take(3 + k + 1),
        spec_issued(r, workspace, outcomes).len() == 4 + k,
{
    lemma_stops_at_first_failure(r, workspace, outcomes, 3 + k);
}

} // verus!
