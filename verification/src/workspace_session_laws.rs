//! What a workspace mutation does to the session that it is made in, and what the model is told.
use vstd::prelude::*;

use crate::workspace::{law_change, WorkspaceMutation, WorkspaceView};
use crate::workspace_exchange::{
    ActionView, ApprovalRequestView, ApprovalResponse, ErrorView, IoErrorKind, IoFailureView,
    OutputView, PayloadView, PolicyAnswers, ReplyView, StageView, ToolOutputView, UpdateView,
};
use crate::workspace_mutation::{action_of, first_stage, stage_after, update_to};
use crate::workspace_path::{covered, PathView};

verus! {

/// A session: its workspace, the workspaces that it has announced, and what its user was asked.
#[verifier::ext_equal]
pub struct SessionView {
    pub workspace: WorkspaceView,
    pub announced: Seq<WorkspaceView>,
    pub requests: Seq<ApprovalRequestView>,
}

/// What surrounds a session: what comes of each thing that can be asked of it.
pub struct SurroundingsView {
    /// The path that the arguments of a call name.
    pub parses: spec_fn(Seq<char>) -> Result<Seq<char>, ErrorView>,
    pub has_environment: bool,
    /// The canonical path of a path that is resolved from a directory.
    pub canonicalizes: spec_fn(PathView, Seq<char>) -> Result<PathView, IoFailureView>,
    /// Whether a path is a directory.
    pub is_directory: spec_fn(PathView) -> Result<bool, IoFailureView>,
    /// Why settings cannot be previewed, where they cannot.
    pub preview_fails: spec_fn(UpdateView) -> Option<Seq<char>>,
    /// Whether the policy in force lets a path be read, asked from a working directory.
    pub reads: spec_fn(PathView, PathView) -> bool,
    pub writes: spec_fn(PathView, PathView) -> bool,
    /// Whether the policy after an update would let a path be read, asked from a working directory.
    pub would_read: spec_fn(UpdateView, PathView, PathView) -> bool,
    pub would_write: spec_fn(UpdateView, PathView, PathView) -> bool,
    /// What the user answers.
    pub answers: spec_fn(ApprovalRequestView) -> Option<ApprovalResponse>,
    /// Why the workspace cannot be updated, where it cannot.
    pub update_fails: spec_fn(UpdateView) -> Option<Seq<char>>,
    pub serializes: spec_fn(OutputView) -> Result<Seq<char>, Seq<char>>,
}

impl SurroundingsView {
    /// What comes back for `action`.
    pub open spec fn reply(self, session: SessionView, action: ActionView) -> ReplyView {
        match action {
            ActionView::ParseArguments { arguments } => ReplyView::Arguments(
                (self.parses)(arguments),
            ),
            ActionView::TakeSnapshot => ReplyView::Snapshot {
                current: session.workspace,
                has_environment: self.has_environment,
            },
            ActionView::Canonicalize { base, path } => ReplyView::Canonical(
                (self.canonicalizes)(base, path),
            ),
            ActionView::ReadMetadata { target } => ReplyView::Metadata((self.is_directory)(target)),
            ActionView::PreviewSettings { update, target, next_cwd, current_cwd } => {
                ReplyView::Previewed(
                    match (self.preview_fails)(update) {
                        Some(message) => Err(message),
                        None => Ok(
                            PolicyAnswers {
                                current_reads: (self.reads)(target, current_cwd),
                                current_writes: (self.writes)(target, current_cwd),
                                preview_reads: (self.would_read)(update, target, next_cwd),
                                preview_writes: (self.would_write)(update, target, next_cwd),
                            },
                        ),
                    },
                )
            },
            ActionView::RequestApproval { request } => ReplyView::Approval((self.answers)(request)),
            ActionView::UpdateWorkspace { update } => ReplyView::Updated(
                match (self.update_fails)(update) {
                    Some(message) => Err(message),
                    None => Ok(()),
                },
            ),
            ActionView::AnnounceSettings => ReplyView::Announced,
            ActionView::Serialize { output } => ReplyView::Serialized((self.serializes)(output)),
        }
    }

    /// What `action` makes of the session.
    pub open spec fn perform(self, session: SessionView, action: ActionView) -> SessionView {
        match action {
            ActionView::RequestApproval { request } => SessionView {
                requests: session.requests.push(request),
                ..session
            },
            ActionView::UpdateWorkspace { update } => if (self.update_fails)(update) is Some {
                session
            } else {
                SessionView {
                    workspace: WorkspaceView {
                        cwd: match update.cwd {
                            Some(cwd) => cwd,
                            None => session.workspace.cwd,
                        },
                        workspace_roots: update.workspace_roots,
                    },
                    ..session
                }
            },
            ActionView::AnnounceSettings => SessionView {
                announced: session.announced.push(session.workspace),
                ..session
            },
            _ => session,
        }
    }

    /// Where a mutation stands, and what became of the session, once up to `actions` of the things
    /// that it asks for were done.
    pub open spec fn end(
        self,
        mutation: WorkspaceMutation,
        stage: StageView,
        session: SessionView,
        actions: nat,
    ) -> (StageView, SessionView)
        decreases actions,
    {
        match action_of(mutation, stage) {
            Some(action) if actions > 0 => self.end(
                mutation,
                stage_after(mutation, stage, self.reply(session, action)),
                self.perform(session, action),
                (actions - 1) as nat,
            ),
            _ => (stage, session),
        }
    }

    /// What becomes of a call and of the session: the call is over after nine actions at the most.
    pub open spec fn call(
        self,
        mutation: WorkspaceMutation,
        payload: PayloadView,
        session: SessionView,
    ) -> (StageView, SessionView) {
        self.end(mutation, first_stage(payload), session, 9)
    }

    /// The model is given `output`, as it is serialized, with the mark of success or failure.
    pub open spec fn told(self, output: OutputView, success: bool) -> StageView {
        StageView::Finished {
            outcome: match (self.serializes)(output) {
                Ok(content) => Ok(ToolOutputView { content, success: Some(success) }),
                Err(message) => Err(
                    ErrorView::Fatal("failed to serialize workspace mutation result: "@ + message),
                ),
            },
        }
    }

    /// The model is told why the mutation was refused, and that the workspace is what it was.
    pub open spec fn refusal(
        self,
        session: SessionView,
        code: Seq<char>,
        message: Seq<char>,
    ) -> StageView {
        self.told(OutputView::Error { code, message, workspace: session.workspace }, false)
    }

    /// The call is understood and can be carried out: its arguments name a path, which resolves from
    /// the session's working directory to `target`.
    pub open spec fn resolves(
        self,
        session: SessionView,
        arguments: Seq<char>,
        target: PathView,
    ) -> bool {
        &&& self.has_environment
        &&& (self.parses)(arguments) is Ok
        &&& (self.canonicalizes)(session.workspace.cwd, (self.parses)(arguments)->Ok_0) == Ok::<
            PathView,
            IoFailureView,
        >(target)
    }

    /// The call would make something else of the workspace, and `target` is a directory.
    pub open spec fn has_something_to_do(
        self,
        mutation: WorkspaceMutation,
        session: SessionView,
        arguments: Seq<char>,
        target: PathView,
    ) -> bool {
        &&& self.resolves(session, arguments, target)
        &&& (self.is_directory)(target) == Ok::<bool, IoFailureView>(true)
        &&& !lies_below_a_root(session.workspace, target) || (mutation is SetWorkingDirectory
            && target.components != session.workspace.cwd.components)
    }

    /// The target could be written after the mutation, and cannot be now.
    pub open spec fn gains_writing(
        self,
        mutation: WorkspaceMutation,
        workspace: WorkspaceView,
        target: PathView,
    ) -> bool {
        &&& (self.would_write)(
            change(mutation, workspace, target),
            target,
            mutated(mutation, workspace, target).cwd,
        )
        &&& !(self.writes)(target, workspace.cwd)
    }

    /// The target could be read after the mutation.
    pub open spec fn would_be_readable(
        self,
        mutation: WorkspaceMutation,
        workspace: WorkspaceView,
        target: PathView,
    ) -> bool {
        (self.would_read)(
            change(mutation, workspace, target),
            target,
            mutated(mutation, workspace, target).cwd,
        )
    }

    /// The mutation would bring access to the target that is not there now.
    pub open spec fn gains_access(
        self,
        mutation: WorkspaceMutation,
        workspace: WorkspaceView,
        target: PathView,
    ) -> bool {
        ||| self.gains_writing(mutation, workspace, target)
        ||| self.would_be_readable(mutation, workspace, target) && !(self.reads)(
            target,
            workspace.cwd,
        )
    }

    /// What the user is asked: for writing where that is gained, else for reading.
    pub open spec fn question(
        self,
        mutation: WorkspaceMutation,
        workspace: WorkspaceView,
        target: PathView,
    ) -> ApprovalRequestView {
        let writing = self.gains_writing(mutation, workspace, target);
        ApprovalRequestView {
            reason: match mutation {
                WorkspaceMutation::SetWorkingDirectory => {
                    "switch this session's working directory to `"@ + target.display + "`"@
                },
                WorkspaceMutation::AddWorkspaceRoot => {
                    "add `"@ + target.display + "` to this session's workspace"@
                },
            },
            read: if writing { None } else { Some(seq![target]) },
            write: if writing { Some(seq![target]) } else { None },
            cwd: workspace.cwd,
            operation: mutation,
            target,
            resulting_workspace_roots: mutated(mutation, workspace, target).workspace_roots,
        }
    }
}

/// Some root of the workspace is `target` or an ancestor of it.
pub open spec fn lies_below_a_root(workspace: WorkspaceView, target: PathView) -> bool {
    exists|i: int|
        0 <= i < workspace.workspace_roots.len() && (#[trigger] workspace.workspace_roots[i])
            .components.is_prefix_of(target.components)
}

/// What the mutation is for: the target becomes the working directory, or stays a mere root, and is
/// made the last root where it lies below none.
pub open spec fn mutated(
    mutation: WorkspaceMutation,
    workspace: WorkspaceView,
    target: PathView,
) -> WorkspaceView {
    WorkspaceView {
        cwd: if mutation is SetWorkingDirectory { target } else { workspace.cwd },
        workspace_roots: if lies_below_a_root(workspace, target) {
            workspace.workspace_roots
        } else {
            workspace.workspace_roots.push(target)
        },
    }
}

/// The change of settings that this takes.
pub open spec fn change(
    mutation: WorkspaceMutation,
    workspace: WorkspaceView,
    target: PathView,
) -> UpdateView {
    UpdateView {
        cwd: if mutation is SetWorkingDirectory { Some(target) } else { None },
        workspace_roots: mutated(mutation, workspace, target).workspace_roots,
    }
}

/// The code of a file-system error.
pub open spec fn error_code(kind: IoErrorKind) -> Seq<char> {
    if kind is NotFound {
        "path_not_found"@
    } else if kind is PermissionDenied {
        "permission_denied"@
    } else {
        "resolution_failed"@
    }
}

proof fn lemma_mutated(mutation: WorkspaceMutation, workspace: WorkspaceView, target: PathView)
    ensures
        workspace.after(mutation, target) == mutated(mutation, workspace, target),
        workspace.after(mutation, target).same(workspace) <==> {
            &&& lies_below_a_root(workspace, target)
            &&& mutation is SetWorkingDirectory ==> target.components == workspace.cwd.components
        },
{
    let roots = workspace.workspace_roots;
    if lies_below_a_root(workspace, target) {
        let i = choose|i: int|
            0 <= i < roots.len() && (#[trigger] roots[i]).components.is_prefix_of(
                target.components,
            );
        assert(target.starts_with(roots[i]));
    } else {
        assert(!covered(roots, target)) by {
            if covered(roots, target) {
                let i = choose|i: int|
                    0 <= i < roots.len() && target.starts_with(#[trigger] roots[i]);
                assert(roots[i].components.is_prefix_of(target.components));
            }
        }
    }
    law_change(workspace, mutation, target);
}

/// A call that is no function call, whose arguments are not understood, or that has no environment
/// fails, with the error of its own, and leaves the session alone.
pub proof fn law_calls_that_cannot_begin(
    around: SurroundingsView,
    mutation: WorkspaceMutation,
    session: SessionView,
    arguments: Seq<char>,
)
    ensures
        around.call(mutation, PayloadView::Other, session) == (
            StageView::Finished {
                outcome: Err(
                    ErrorView::RespondToModel(
                        "workspace mutation handler received unsupported payload"@,
                    ),
                ),
            },
            session,
        ),
        (around.parses)(arguments) matches Err(error) ==> around.call(
            mutation,
            PayloadView::Function { arguments },
            session,
        ) == (StageView::Finished { outcome: Err(error) }, session),
        (around.parses)(arguments) is Ok && !around.has_environment ==> around.call(
            mutation,
            PayloadView::Function { arguments },
            session,
        ) == (
            StageView::Finished {
                outcome: Err(
                    ErrorView::RespondToModel(
                        "workspace mutation is unavailable without an execution environment"@,
                    ),
                ),
            },
            session,
        ),
{
    reveal_with_fuel(SurroundingsView::end, 10);
}

/// The path that the model gave is resolved from the session's working directory, for both
/// mutations. Where that fails, the mutation is refused under the code of the error, with its
/// message, and the session is left alone.
pub proof fn law_paths_resolve_from_the_working_directory(
    around: SurroundingsView,
    mutation: WorkspaceMutation,
    session: SessionView,
    arguments: Seq<char>,
    failure: IoFailureView,
)
    requires
        around.has_environment,
        (around.parses)(arguments) is Ok,
        (around.canonicalizes)(session.workspace.cwd, (around.parses)(arguments)->Ok_0) == Err::<
            PathView,
            IoFailureView,
        >(failure),
    ensures
        around.call(mutation, PayloadView::Function { arguments }, session) == (
            around.refusal(session, error_code(failure.kind), failure.message),
            session,
        ),
{
    reveal_with_fuel(SurroundingsView::end, 10);
}

/// What the path resolves to has to be a directory. Where it is none, or that cannot be found out,
/// the mutation is refused and the session is left alone.
pub proof fn law_the_target_has_to_be_a_directory(
    around: SurroundingsView,
    mutation: WorkspaceMutation,
    session: SessionView,
    arguments: Seq<char>,
    target: PathView,
)
    requires
        around.resolves(session, arguments, target),
    ensures
        (around.is_directory)(target) == Ok::<bool, IoFailureView>(false) ==> around.call(
            mutation,
            PayloadView::Function { arguments },
            session,
        ) == (
            around.refusal(
                session,
                "not_a_directory"@,
                "workspace mutation target is not a directory: "@ + target.display,
            ),
            session,
        ),
        (around.is_directory)(target) matches Err(failure) ==> around.call(
            mutation,
            PayloadView::Function { arguments },
            session,
        ) == (around.refusal(session, error_code(failure.kind), failure.message), session),
{
    reveal_with_fuel(SurroundingsView::end, 10);
}

/// A directory that lies below a root already, and is the working directory where it was to become
/// that, is a success without a change: the session is left alone and its user is not asked.
pub proof fn law_nothing_to_do(
    around: SurroundingsView,
    mutation: WorkspaceMutation,
    session: SessionView,
    arguments: Seq<char>,
    target: PathView,
)
    requires
        around.resolves(session, arguments, target),
        (around.is_directory)(target) == Ok::<bool, IoFailureView>(true),
        lies_below_a_root(session.workspace, target),
        mutation is SetWorkingDirectory ==> target.components == session.workspace.cwd.components,
    ensures
        around.call(mutation, PayloadView::Function { arguments }, session) == (
            around.told(
                OutputView::Result {
                    changed: false,
                    workspace: mutated(mutation, session.workspace, target),
                },
                true,
            ),
            session,
        ),
{
    reveal_with_fuel(SurroundingsView::end, 10);
    lemma_mutated(mutation, session.workspace, target);
}

/// Where the settings cannot be previewed the call fails with that message. Where the target could
/// not be read as the working directory the mutation is refused. Either way the session is left
/// alone.
pub proof fn law_unreadable_working_directories_are_refused(
    around: SurroundingsView,
    mutation: WorkspaceMutation,
    session: SessionView,
    arguments: Seq<char>,
    target: PathView,
)
    requires
        around.has_something_to_do(mutation, session, arguments, target),
    ensures
        ({
            let update = change(mutation, session.workspace, target);
            let done = around.call(mutation, PayloadView::Function { arguments }, session);
            match (around.preview_fails)(update) {
                Some(message) => done == (
                    StageView::Finished { outcome: Err(ErrorView::RespondToModel(message)) },
                    session,
                ),
                None => mutation is SetWorkingDirectory && !around.would_be_readable(
                    mutation,
                    session.workspace,
                    target,
                ) ==> done == (
                    around.refusal(
                        session,
                        "permission_denied"@,
                        "working directory is not readable under the active permission profile: "@
                            + target.display,
                    ),
                    session,
                ),
            }
        }),
{
    reveal_with_fuel(SurroundingsView::end, 10);
    lemma_mutated(mutation, session.workspace, target);
    assert(change(mutation, session.workspace, target) == update_to(
        mutation,
        mutated(mutation, session.workspace, target),
    ));
}

/// Access that is gained is asked for, once. Unless the user grants something for the whole session
/// the mutation is refused, and all that became of the session is that its user was asked.
pub proof fn law_gained_access_needs_approval(
    around: SurroundingsView,
    mutation: WorkspaceMutation,
    session: SessionView,
    arguments: Seq<char>,
    target: PathView,
)
    requires
        around.has_something_to_do(mutation, session, arguments, target),
        (around.preview_fails)(change(mutation, session.workspace, target)) is None,
        mutation is SetWorkingDirectory ==> around.would_be_readable(
            mutation,
            session.workspace,
            target,
        ),
        around.gains_access(mutation, session.workspace, target),
    ensures
        ({
            let question = around.question(mutation, session.workspace, target);
            let done = around.call(mutation, PayloadView::Function { arguments }, session);
            let asked = SessionView { requests: session.requests.push(question), ..session };
            match (around.answers)(question) {
                None => done == (
                    around.refusal(
                        session,
                        "approval_denied"@,
                        "workspace mutation approval was cancelled"@,
                    ),
                    asked,
                ),
                Some(response) => response.permissions_are_empty || response.scope is Turn ==> done
                    == (
                    around.refusal(
                        session,
                        "approval_denied"@,
                        "workspace mutation requires session-scoped approval"@,
                    ),
                    asked,
                ),
            }
        }),
{
    reveal_with_fuel(SurroundingsView::end, 10);
    lemma_mutated(mutation, session.workspace, target);
    assert(change(mutation, session.workspace, target) == update_to(
        mutation,
        mutated(mutation, session.workspace, target),
    ));
}

/// Where no access is gained, or the user grants it for the session, the session's workspace becomes
/// the mutated one, this is announced once, and the model is told of the change. Where the update
/// fails, nothing is announced and the workspace stays. The user is asked only where access is
/// gained.
pub proof fn law_permitted_mutations_are_made(
    around: SurroundingsView,
    mutation: WorkspaceMutation,
    session: SessionView,
    arguments: Seq<char>,
    target: PathView,
)
    requires
        around.has_something_to_do(mutation, session, arguments, target),
        (around.preview_fails)(change(mutation, session.workspace, target)) is None,
        mutation is SetWorkingDirectory ==> around.would_be_readable(
            mutation,
            session.workspace,
            target,
        ),
        around.gains_access(mutation, session.workspace, target) ==> ({
            let answer = (around.answers)(around.question(mutation, session.workspace, target));
            answer is Some && !answer->0.permissions_are_empty && answer->0.scope is Session
        }),
    ensures
        ({
            let next = mutated(mutation, session.workspace, target);
            let done = around.call(mutation, PayloadView::Function { arguments }, session);
            let requests = if around.gains_access(mutation, session.workspace, target) {
                session.requests.push(around.question(mutation, session.workspace, target))
            } else {
                session.requests
            };
            match (around.update_fails)(change(mutation, session.workspace, target)) {
                Some(message) => done == (
                    StageView::Finished { outcome: Err(ErrorView::RespondToModel(message)) },
                    SessionView { requests, ..session },
                ),
                None => done == (
                    around.told(OutputView::Result { changed: true, workspace: next }, true),
                    SessionView {
                        workspace: next,
                        announced: session.announced.push(next),
                        requests,
                    },
                ),
            }
        }),
{
    reveal_with_fuel(SurroundingsView::end, 10);
    lemma_mutated(mutation, session.workspace, target);
    assert(change(mutation, session.workspace, target) == update_to(
        mutation,
        mutated(mutation, session.workspace, target),
    ));
}

/// What is looked up in the file system, step by step: the path from the working directory of the
/// snapshot, then what came back for it.
pub proof fn law_what_is_looked_up(
    mutation: WorkspaceMutation,
    current: WorkspaceView,
    path: Seq<char>,
    target: PathView,
)
    ensures
        action_of(
            mutation,
            stage_after(
                mutation,
                StageView::TakeSnapshot { path },
                ReplyView::Snapshot { current, has_environment: true },
            ),
        ) == Some(ActionView::Canonicalize { base: current.cwd, path }),
        action_of(
            mutation,
            stage_after(
                mutation,
                StageView::Canonicalize { current, path },
                ReplyView::Canonical(Ok(target)),
            ),
        ) == Some(ActionView::ReadMetadata { target }),
{
}

} // verus!
