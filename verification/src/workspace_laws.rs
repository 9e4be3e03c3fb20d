//! What holds of a workspace mutation from its beginning to its end.
use vstd::prelude::*;

use crate::workspace::{law_mutation_is_idempotent, WorkspaceMutation, WorkspaceView};
use crate::workspace_exchange::{
    ActionView, ApprovalResponse, ErrorView, IoFailureView, OutputView, PayloadView, PolicyAnswers,
    ReplyView, StageView, ToolOutputView, UpdateView,
};
use crate::workspace_mutation::{
    action_of, code_of, first_stage, is_granted, new_access, stage_after, tool_outcome, update_to,
};
use crate::workspace_path::PathView;

verus! {

/// A host that does everything it is asked, with what comes of each thing.
pub struct HostView {
    pub arguments: Result<Seq<char>, ErrorView>,
    pub current: WorkspaceView,
    pub has_environment: bool,
    pub canonical: Result<PathView, IoFailureView>,
    pub metadata: Result<bool, IoFailureView>,
    pub previewed: Result<PolicyAnswers, Seq<char>>,
    pub approval: Option<ApprovalResponse>,
    pub updated: Result<(), Seq<char>>,
    pub serialized: spec_fn(OutputView) -> Result<Seq<char>, Seq<char>>,
}

impl HostView {
    /// What comes back for `action`.
    pub open spec fn reply(self, action: ActionView) -> ReplyView {
        match action {
            ActionView::ParseArguments { .. } => ReplyView::Arguments(self.arguments),
            ActionView::TakeSnapshot => ReplyView::Snapshot {
                current: self.current,
                has_environment: self.has_environment,
            },
            ActionView::Canonicalize { .. } => ReplyView::Canonical(self.canonical),
            ActionView::ReadMetadata { .. } => ReplyView::Metadata(self.metadata),
            ActionView::PreviewSettings { .. } => ReplyView::Previewed(self.previewed),
            ActionView::RequestApproval { .. } => ReplyView::Approval(self.approval),
            ActionView::UpdateWorkspace { .. } => ReplyView::Updated(self.updated),
            ActionView::AnnounceSettings => ReplyView::Announced,
            ActionView::Serialize { output } => ReplyView::Serialized((self.serialized)(output)),
        }
    }

    /// Where a mutation stands once this host has done up to `actions` of the things it asks for.
    pub open spec fn run(self, mutation: WorkspaceMutation, stage: StageView, actions: nat) -> StageView
        decreases actions,
    {
        if actions == 0 {
            stage
        } else {
            match action_of(mutation, stage) {
                None => stage,
                Some(action) => self.run(
                    mutation,
                    stage_after(mutation, stage, self.reply(action)),
                    (actions - 1) as nat,
                ),
            }
        }
    }

    /// The user has granted access for the session.
    pub open spec fn approves(self) -> bool {
        self.approval matches Some(response) && is_granted(response)
    }

    /// What a mutation answers about the workspace, or the message with which it fails.
    pub open spec fn answer(self, mutation: WorkspaceMutation) -> Result<OutputView, Seq<char>> {
        let refusal = |code: Seq<char>, message: Seq<char>|
            OutputView::Error { code, message, workspace: self.current };
        match (self.canonical, self.metadata) {
            (Err(failure), _) => Ok(refusal(code_of(failure.kind), failure.message)),
            (Ok(_), Err(failure)) => Ok(refusal(code_of(failure.kind), failure.message)),
            (Ok(target), Ok(is_directory)) => {
                let next = self.current.after(mutation, target);
                if !is_directory {
                    Ok(
                        refusal(
                            "not_a_directory"@,
                            "workspace mutation target is not a directory: "@ + target.display,
                        ),
                    )
                } else if next.same(self.current) {
                    Ok(OutputView::Result { changed: false, workspace: next })
                } else {
                    match self.previewed {
                        Err(message) => Err(message),
                        Ok(answers) => {
                            if mutation is SetWorkingDirectory && !answers.preview_reads {
                                Ok(
                                    refusal(
                                        "permission_denied"@,
                                        "working directory is not readable under the active permission profile: "@
                                            + target.display,
                                    ),
                                )
                            } else if new_access(answers) is Some && self.approval is None {
                                Ok(
                                    refusal(
                                        "approval_denied"@,
                                        "workspace mutation approval was cancelled"@,
                                    ),
                                )
                            } else if new_access(answers) is Some && !self.approves() {
                                Ok(
                                    refusal(
                                        "approval_denied"@,
                                        "workspace mutation requires session-scoped approval"@,
                                    ),
                                )
                            } else {
                                match self.updated {
                                    Err(message) => Err(message),
                                    Ok(_) => Ok(
                                        OutputView::Result { changed: true, workspace: next },
                                    ),
                                }
                            }
                        },
                    }
                }
            },
        }
    }

    /// What a call with `payload` comes to.
    pub open spec fn outcome(self, mutation: WorkspaceMutation, payload: PayloadView) -> Result<
        ToolOutputView,
        ErrorView,
    > {
        if payload is Other {
            Err(
                ErrorView::RespondToModel(
                    "workspace mutation handler received unsupported payload"@,
                ),
            )
        } else if self.arguments is Err {
            Err(self.arguments->Err_0)
        } else if !self.has_environment {
            Err(
                ErrorView::RespondToModel(
                    "workspace mutation is unavailable without an execution environment"@,
                ),
            )
        } else {
            match self.answer(mutation) {
                Err(message) => Err(ErrorView::RespondToModel(message)),
                Ok(output) => tool_outcome((self.serialized)(output), output is Result),
            }
        }
    }
}

/// A mutation ends, after nine things at the most that it asks of its host, with the outcome that
/// what came of them gives.
pub proof fn law_every_call_comes_to_its_outcome(
    mutation: WorkspaceMutation,
    payload: PayloadView,
    host: HostView,
)
    ensures
        host.run(mutation, first_stage(payload), 9) == (StageView::Finished {
            outcome: host.outcome(mutation, payload),
        }),
{
    reveal_with_fuel(HostView::run, 10);
}

/// A refused mutation answers with the workspace as it was.
pub proof fn law_refusal_reports_the_unchanged_workspace(
    mutation: WorkspaceMutation,
    host: HostView,
)
    ensures
        host.answer(mutation) matches Ok(OutputView::Error { workspace, .. }) ==> workspace
            == host.current,
{
}

/// A mutation that is not refused answers with the workspace that it makes of the current one, and
/// says truthfully whether that is a change.
pub proof fn law_success_reports_the_mutated_workspace(
    mutation: WorkspaceMutation,
    host: HostView,
)
    ensures
        host.answer(mutation) matches Ok(OutputView::Result { changed, workspace }) ==> {
            &&& host.canonical matches Ok(target) && workspace == host.current.after(
                mutation,
                target,
            )
            &&& changed == !workspace.same(host.current)
        },
{
}

/// A mutation that would change nothing succeeds without a policy, the user or an update having a
/// say.
pub proof fn law_nothing_to_do_needs_no_permission(
    mutation: WorkspaceMutation,
    host: HostView,
    target: PathView,
)
    requires
        host.canonical == Ok::<_, IoFailureView>(target),
        host.metadata == Ok::<_, IoFailureView>(true),
        host.current.after(mutation, target).same(host.current),
    ensures
        host.answer(mutation) == Ok::<_, Seq<char>>(
            OutputView::Result {
                changed: false,
                workspace: host.current.after(mutation, target),
            },
        ),
{
}

/// A mutation that went through has nothing to do when it is made again.
pub proof fn law_a_repeated_mutation_changes_nothing(
    mutation: WorkspaceMutation,
    host: HostView,
    again: HostView,
)
    requires
        host.answer(mutation) is Ok,
        host.answer(mutation)->Ok_0 is Result,
        again.canonical == host.canonical,
        again.metadata == host.metadata,
        again.current == host.answer(mutation)->Ok_0->Result_workspace,
    ensures
        again.answer(mutation) == Ok::<_, Seq<char>>(
            OutputView::Result { changed: false, workspace: again.current },
        ),
{
    law_success_reports_the_mutated_workspace(mutation, host);
    law_mutation_is_idempotent(host.current, mutation, host.canonical->Ok_0);
}

/// Whatever comes back, the session's workspace is only replaced where the mutation brings no new
/// access to the target, or the user has granted access for the session; and never by a working
/// directory that could not be read.
pub proof fn law_an_update_has_permission(
    mutation: WorkspaceMutation,
    stage: StageView,
    reply: ReplyView,
)
    ensures
        !(stage is Update) && stage_after(mutation, stage, reply) is Update ==> match stage {
            StageView::Preview { .. } => {
                &&& reply matches ReplyView::Previewed(Ok(answers))
                &&& new_access(answers) is None
                &&& mutation is SetWorkingDirectory ==> answers.preview_reads
            },
            StageView::Approve { .. } => {
                &&& reply matches ReplyView::Approval(Some(response))
                &&& is_granted(response)
            },
            _ => false,
        },
{
}

/// The user is asked for access exactly where the mutation would bring access that is not there
/// yet: for writing the target where that is new, else for reading it, and for nothing else.
pub proof fn law_only_new_access_is_requested(
    mutation: WorkspaceMutation,
    current: WorkspaceView,
    target: PathView,
    next: WorkspaceView,
    answers: PolicyAnswers,
)
    requires
        mutation is SetWorkingDirectory ==> answers.preview_reads,
    ensures
        ({
            let stage = stage_after(
                mutation,
                StageView::Preview { current, target, next },
                ReplyView::Previewed(Ok(answers)),
            );
            let writes = answers.preview_writes && !answers.current_writes;
            let reads = answers.preview_reads && !answers.current_reads;
            match action_of(mutation, stage) {
                Some(ActionView::RequestApproval { request }) => {
                    &&& writes || reads
                    &&& request.write == if writes { Some(seq![target]) } else { None }
                    &&& request.read == if writes { None } else { Some(seq![target]) }
                    &&& request.target == target
                },
                _ => !writes && !reads,
            }
        }),
{
}

/// What a stage holds fits together: the workspace that would come next is the one that the
/// mutation makes of the current one, and differs from it.
pub open spec fn is_consistent(mutation: WorkspaceMutation, stage: StageView) -> bool {
    match stage {
        StageView::Preview { current, target, next } => next == current.after(mutation, target)
            && !next.same(current),
        StageView::Approve { current, target, next, .. } => next == current.after(mutation, target)
            && !next.same(current),
        _ => true,
    }
}

/// Every stage of a mutation is consistent, whatever comes back.
pub proof fn law_stages_stay_consistent(
    mutation: WorkspaceMutation,
    payload: PayloadView,
    stage: StageView,
    reply: ReplyView,
)
    ensures
        is_consistent(mutation, first_stage(payload)),
        is_consistent(mutation, stage) ==> is_consistent(
            mutation,
            stage_after(mutation, stage, reply),
        ),
{
}

/// The workspace that a change of settings makes of `current`.
pub open spec fn updated_by(current: WorkspaceView, update: UpdateView) -> WorkspaceView {
    WorkspaceView {
        cwd: match update.cwd {
            Some(cwd) => cwd,
            None => current.cwd,
        },
        workspace_roots: update.workspace_roots,
    }
}

/// The change of settings that is previewed, and the one that is made, turn the current workspace
/// into the one that the mutation makes of it.
pub proof fn law_the_update_makes_the_mutated_workspace(
    mutation: WorkspaceMutation,
    current: WorkspaceView,
    target: PathView,
)
    ensures
        updated_by(current, update_to(mutation, current.after(mutation, target))) == current.after(
            mutation,
            target,
        ),
{
}

/// The reply is of the kind that the stage waits for.
pub open spec fn awaits(stage: StageView, reply: ReplyView) -> bool {
    match reply {
        ReplyView::Arguments(_) => stage is ParseArguments,
        ReplyView::Snapshot { .. } => stage is TakeSnapshot,
        ReplyView::Canonical(_) => stage is Canonicalize,
        ReplyView::Metadata(_) => stage is ReadMetadata,
        ReplyView::Previewed(_) => stage is Preview,
        ReplyView::Approval(_) => stage is Approve,
        ReplyView::Updated(_) => stage is Update,
        ReplyView::Announced => stage is Announce,
        ReplyView::Serialized(_) => stage is Serialize,
    }
}

/// A mutation goes on exactly with the replies that it waits for; once it is over, nothing moves it.
pub proof fn law_only_awaited_replies_count(
    mutation: WorkspaceMutation,
    stage: StageView,
    reply: ReplyView,
)
    ensures
        stage_after(mutation, stage, reply) != stage <==> awaits(stage, reply),
        stage is Finished ==> !awaits(stage, reply),
{
}

/// The model is told of success exactly where the mutation was not refused.
pub proof fn law_success_flag(
    mutation: WorkspaceMutation,
    payload: PayloadView,
    host: HostView,
)
    ensures
        host.outcome(mutation, payload) matches Ok(output) ==> output.success == Some(
            host.answer(mutation) matches Ok(OutputView::Result { .. }),
        ),
{
}

} // verus!
