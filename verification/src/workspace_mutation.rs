//! The tools with which the model changes its session's workspace.
//!
//! A mutation is carried out in stages. Each stage but the last asks its host for one thing, and
//! goes on with what comes back.
use vstd::prelude::*;
use vstd::string::*;

use crate::workspace::{Workspace, WorkspaceMutation, WorkspaceView};
use crate::workspace_exchange::{
    ActionView, ApprovalRequest, ApprovalRequestView, ApprovalResponse, ErrorView,
    FunctionCallError, FunctionToolOutput, IoErrorKind, IoFailure, IoFailureView, MutationAction,
    MutationReply, MutationStage, OutputView, PayloadView, PermissionGrantScope, PolicyAnswers,
    ReplyView, RequestedAccess, SettingsUpdate, StageView, ToolOutputView, ToolPayload, UpdateView,
    WorkspaceMutationError, WorkspaceMutationResult, WorkspaceOutput,
};
use crate::workspace_mutation_spec::{
    create_add_workspace_root_tool, create_set_working_directory_tool, is_workspace_mutation_tool,
    ToolSpec,
};
use crate::workspace_path::{clone_paths, PathView, WorkspacePath};

verus! {

/// The code under which a file-system error is reported.
pub open spec fn code_of(kind: IoErrorKind) -> Seq<char> {
    match kind {
        IoErrorKind::NotFound => "path_not_found"@,
        IoErrorKind::PermissionDenied => "permission_denied"@,
        IoErrorKind::Other => "resolution_failed"@,
    }
}

/// The mutation is refused, and the workspace stays as it is.
pub open spec fn refused(code: Seq<char>, message: Seq<char>, current: WorkspaceView) -> StageView {
    StageView::Serialize { output: OutputView::Error { code, message, workspace: current } }
}

/// The call fails with a message to the model.
pub open spec fn fails(message: Seq<char>) -> StageView {
    StageView::Finished { outcome: Err(ErrorView::RespondToModel(message)) }
}

/// A file-system error refuses the mutation.
pub open spec fn refused_by_file_system(failure: IoFailureView, current: WorkspaceView) -> StageView {
    refused(code_of(failure.kind), failure.message, current)
}

/// Where a call begins: only function calls are understood.
pub open spec fn first_stage(payload: PayloadView) -> StageView {
    match payload {
        PayloadView::Function { arguments } => StageView::ParseArguments { arguments },
        PayloadView::Other => fails("workspace mutation handler received unsupported payload"@),
    }
}

/// A mutation needs an execution environment, in whose file system the path is looked up.
pub open spec fn after_snapshot(
    path: Seq<char>,
    current: WorkspaceView,
    has_environment: bool,
) -> StageView {
    if has_environment {
        StageView::Canonicalize { current, path }
    } else {
        fails("workspace mutation is unavailable without an execution environment"@)
    }
}

/// The target has to be a directory. Where the mutation changes nothing it is over, else the
/// policies are asked.
pub open spec fn after_metadata(
    mutation: WorkspaceMutation,
    current: WorkspaceView,
    target: PathView,
    is_directory: bool,
) -> StageView {
    let next = current.after(mutation, target);
    if !is_directory {
        refused(
            "not_a_directory"@,
            "workspace mutation target is not a directory: "@ + target.display,
            current,
        )
    } else if next.same(current) {
        StageView::Serialize { output: OutputView::Result { changed: false, workspace: next } }
    } else {
        StageView::Preview { current, target, next }
    }
}

/// The access to the target that the mutation would bring about: writing where that is new, else
/// reading where that is new.
pub open spec fn new_access(answers: PolicyAnswers) -> Option<RequestedAccess> {
    if answers.preview_writes && !answers.current_writes {
        Some(RequestedAccess::Write)
    } else if answers.preview_reads && !answers.current_reads {
        Some(RequestedAccess::Read)
    } else {
        None
    }
}

/// A working directory has to be readable. New access has to be approved, and without it the
/// workspace is updated.
pub open spec fn after_preview(
    mutation: WorkspaceMutation,
    current: WorkspaceView,
    target: PathView,
    next: WorkspaceView,
    answers: PolicyAnswers,
) -> StageView {
    if mutation is SetWorkingDirectory && !answers.preview_reads {
        refused(
            "permission_denied"@,
            "working directory is not readable under the active permission profile: "@
                + target.display,
            current,
        )
    } else {
        match new_access(answers) {
            Some(access) => StageView::Approve { current, target, next, access },
            None => StageView::Update { next },
        }
    }
}

/// The response grants something, and for the whole session.
pub open spec fn is_granted(response: ApprovalResponse) -> bool {
    !response.permissions_are_empty && response.scope is Session
}

/// The workspace is updated only with an approval for the session.
pub open spec fn after_approval(
    current: WorkspaceView,
    next: WorkspaceView,
    response: Option<ApprovalResponse>,
) -> StageView {
    match response {
        None => refused("approval_denied"@, "workspace mutation approval was cancelled"@, current),
        Some(response) => if is_granted(response) {
            StageView::Update { next }
        } else {
            refused(
                "approval_denied"@,
                "workspace mutation requires session-scoped approval"@,
                current,
            )
        },
    }
}

/// The answer to the model: the serialized output, or a fatal error where it could not be
/// serialized.
pub open spec fn tool_outcome(
    serialized: Result<Seq<char>, Seq<char>>,
    success: bool,
) -> Result<ToolOutputView, ErrorView> {
    match serialized {
        Ok(content) => Ok(ToolOutputView { content, success: Some(success) }),
        Err(message) => Err(
            ErrorView::Fatal("failed to serialize workspace mutation result: "@ + message),
        ),
    }
}

/// Where a mutation goes from `stage` on `reply`. A reply that the stage does not wait for changes
/// nothing.
pub open spec fn stage_after(
    mutation: WorkspaceMutation,
    stage: StageView,
    reply: ReplyView,
) -> StageView {
    match (stage, reply) {
        (StageView::ParseArguments { .. }, ReplyView::Arguments(Ok(path))) => {
            StageView::TakeSnapshot { path }
        },
        (StageView::ParseArguments { .. }, ReplyView::Arguments(Err(error))) => {
            StageView::Finished { outcome: Err(error) }
        },
        (StageView::TakeSnapshot { path }, ReplyView::Snapshot { current, has_environment }) => {
            after_snapshot(path, current, has_environment)
        },
        (StageView::Canonicalize { current, .. }, ReplyView::Canonical(Ok(target))) => {
            StageView::ReadMetadata { current, target }
        },
        (StageView::Canonicalize { current, .. }, ReplyView::Canonical(Err(failure))) => {
            refused_by_file_system(failure, current)
        },
        (StageView::ReadMetadata { current, target }, ReplyView::Metadata(Ok(is_directory))) => {
            after_metadata(mutation, current, target, is_directory)
        },
        (StageView::ReadMetadata { current, .. }, ReplyView::Metadata(Err(failure))) => {
            refused_by_file_system(failure, current)
        },
        (StageView::Preview { current, target, next }, ReplyView::Previewed(Ok(answers))) => {
            after_preview(mutation, current, target, next, answers)
        },
        (StageView::Preview { .. }, ReplyView::Previewed(Err(message))) => fails(message),
        (StageView::Approve { current, next, .. }, ReplyView::Approval(response)) => {
            after_approval(current, next, response)
        },
        (StageView::Update { next }, ReplyView::Updated(Ok(_))) => StageView::Announce { next },
        (StageView::Update { .. }, ReplyView::Updated(Err(message))) => fails(message),
        (StageView::Announce { next }, ReplyView::Announced) => StageView::Serialize {
            output: OutputView::Result { changed: true, workspace: next },
        },
        (StageView::Serialize { output }, ReplyView::Serialized(serialized)) => {
            StageView::Finished { outcome: tool_outcome(serialized, output is Result) }
        },
        _ => stage,
    }
}

/// The change of settings that makes `next` of the session's workspace.
pub open spec fn update_to(mutation: WorkspaceMutation, next: WorkspaceView) -> UpdateView {
    UpdateView {
        cwd: match mutation {
            WorkspaceMutation::SetWorkingDirectory => Some(next.cwd),
            WorkspaceMutation::AddWorkspaceRoot => None,
        },
        workspace_roots: next.workspace_roots,
    }
}

/// Why the user is asked for access to the target.
pub open spec fn reason_for(mutation: WorkspaceMutation, target: PathView) -> Seq<char> {
    match mutation {
        WorkspaceMutation::SetWorkingDirectory => "switch this session's working directory to `"@
            + target.display + "`"@,
        WorkspaceMutation::AddWorkspaceRoot => "add `"@ + target.display
            + "` to this session's workspace"@,
    }
}

/// What `stage` asks of the host; nothing once the mutation is over.
pub open spec fn action_of(mutation: WorkspaceMutation, stage: StageView) -> Option<ActionView> {
    match stage {
        StageView::ParseArguments { arguments } => Some(ActionView::ParseArguments { arguments }),
        StageView::TakeSnapshot { .. } => Some(ActionView::TakeSnapshot),
        StageView::Canonicalize { current, path } => Some(
            ActionView::Canonicalize { base: current.cwd, path },
        ),
        StageView::ReadMetadata { target, .. } => Some(ActionView::ReadMetadata { target }),
        StageView::Preview { current, target, next } => Some(
            ActionView::PreviewSettings {
                update: update_to(mutation, next),
                target,
                next_cwd: next.cwd,
                current_cwd: current.cwd,
            },
        ),
        StageView::Approve { current, target, next, access } => Some(
            ActionView::RequestApproval {
                request: ApprovalRequestView {
                    reason: reason_for(mutation, target),
                    read: if access is Read { Some(seq![target]) } else { None },
                    write: if access is Write { Some(seq![target]) } else { None },
                    cwd: current.cwd,
                    operation: mutation,
                    target,
                    resulting_workspace_roots: next.workspace_roots,
                },
            },
        ),
        StageView::Update { next } => Some(
            ActionView::UpdateWorkspace { update: update_to(mutation, next) },
        ),
        StageView::Announce { .. } => Some(ActionView::AnnounceSettings),
        StageView::Serialize { output } => Some(ActionView::Serialize { output }),
        StageView::Finished { .. } => None,
    }
}

/// A tool that makes one kind of workspace mutation.
#[derive(Clone, Copy, Debug, PartialEq, Eq, Structural)]
pub struct WorkspaceMutationHandler {
    pub mutation: WorkspaceMutation,
}

/// A workspace mutation under way.
pub struct WorkspaceMutationRun {
    pub mutation: WorkspaceMutation,
    pub stage: MutationStage,
}

impl WorkspaceMutationHandler {
    /// The tool that sets the working directory.
    pub fn set_working_directory() -> (handler: Self)
        ensures
            handler.mutation == WorkspaceMutation::SetWorkingDirectory,
    {
        WorkspaceMutationHandler { mutation: WorkspaceMutation::SetWorkingDirectory }
    }

    /// The tool that adds a workspace root.
    pub fn add_workspace_root() -> (handler: Self)
        ensures
            handler.mutation == WorkspaceMutation::AddWorkspaceRoot,
    {
        WorkspaceMutationHandler { mutation: WorkspaceMutation::AddWorkspaceRoot }
    }

    /// The name under which the model calls the tool.
    pub fn tool_name(&self) -> (name: &'static str)
        ensures
            name@ == match self.mutation {
                WorkspaceMutation::SetWorkingDirectory => "set_working_directory"@,
                WorkspaceMutation::AddWorkspaceRoot => "add_workspace_root"@,
            },
    {
        match self.mutation {
            WorkspaceMutation::SetWorkingDirectory => "set_working_directory",
            WorkspaceMutation::AddWorkspaceRoot => "add_workspace_root",
        }
    }

    /// How the tool is described to the model.
    pub fn tool_spec(&self) -> (tool: ToolSpec)
        ensures
            match self.mutation {
                WorkspaceMutation::SetWorkingDirectory => is_workspace_mutation_tool(
                    tool,
                    "set_working_directory"@,
                    "Changes the active working directory and adds it as a workspace root when needed."@,
                ),
                WorkspaceMutation::AddWorkspaceRoot => is_workspace_mutation_tool(
                    tool,
                    "add_workspace_root"@,
                    "Adds a workspace root without changing the active working directory."@,
                ),
            },
    {
        match self.mutation {
            WorkspaceMutation::SetWorkingDirectory => create_set_working_directory_tool(),
            WorkspaceMutation::AddWorkspaceRoot => create_add_workspace_root_tool(),
        }
    }

    /// Begins a mutation.
    pub fn handle(&self, payload: ToolPayload) -> (run: WorkspaceMutationRun)
        ensures
            run.mutation == self.mutation,
            run.stage@ == first_stage(payload@),
    {
        let stage = match payload {
            ToolPayload::Function { arguments } => MutationStage::ParseArguments { arguments },
            ToolPayload::Other => fail(
                "workspace mutation handler received unsupported payload".to_owned(),
            ),
        };
        WorkspaceMutationRun { mutation: self.mutation, stage }
    }

    /// Tells whether later calls of a batch wait for this one.
    pub fn execution_barrier(&self) -> (b: bool)
        ensures
            b,
    {
        true
    }

    /// Tells whether later calls of a batch are cancelled when this one fails.
    pub fn cancel_suffix_on_failure(&self) -> (b: bool)
        ensures
            b,
    {
        true
    }
}

/// The code under which a file-system error is reported.
pub fn io_error_code(kind: IoErrorKind) -> (code: &'static str)
    ensures
        code@ == code_of(kind),
{
    match kind {
        IoErrorKind::NotFound => "path_not_found",
        IoErrorKind::PermissionDenied => "permission_denied",
        IoErrorKind::Other => "resolution_failed",
    }
}

/// The answer of a mutation that went through, or that had nothing to do.
pub fn workspace_success(
    changed: bool,
    cwd: WorkspacePath,
    workspace_roots: Vec<WorkspacePath>,
) -> (output: WorkspaceOutput)
    ensures
        output@ == (OutputView::Result {
            changed,
            workspace: WorkspaceView { cwd: cwd@, workspace_roots: workspace_roots.deep_view() },
        }),
{
    WorkspaceOutput::Result(WorkspaceMutationResult { changed, cwd, workspace_roots })
}

/// The answer of a mutation that was refused.
pub fn workspace_error(
    code: &'static str,
    message: String,
    cwd: WorkspacePath,
    workspace_roots: Vec<WorkspacePath>,
) -> (output: WorkspaceOutput)
    ensures
        output@ == (OutputView::Error {
            code: code@,
            message: message@,
            workspace: WorkspaceView { cwd: cwd@, workspace_roots: workspace_roots.deep_view() },
        }),
{
    WorkspaceOutput::Error(WorkspaceMutationError { code, message, cwd, workspace_roots })
}

/// The answer to the model, made of the serialized output.
pub fn workspace_output(serialized: Result<String, String>, success: bool) -> (outcome: Result<
    FunctionToolOutput,
    FunctionCallError,
>)
    ensures
        match serialized {
            Ok(content) => outcome matches Ok(output) && Ok::<_, ErrorView>(output@)
                == tool_outcome(Ok(content@), success),
            Err(message) => outcome matches Err(error) && Err::<ToolOutputView, _>(error@)
                == tool_outcome(Err(message@), success),
        },
{
    match serialized {
        Ok(content) => Ok(FunctionToolOutput { content, success: Some(success) }),
        Err(message) => Err(
            FunctionCallError::Fatal(
                "failed to serialize workspace mutation result: ".to_owned().concat(
                    message.as_str(),
                ),
            ),
        ),
    }
}

fn fail(message: String) -> (stage: MutationStage)
    ensures
        stage@ == fails(message@),
{
    MutationStage::Finished { outcome: Err(FunctionCallError::RespondToModel(message)) }
}

fn refuse(code: &'static str, message: String, current: Workspace) -> (stage: MutationStage)
    ensures
        stage@ == refused(code@, message@, current@),
{
    MutationStage::Serialize {
        output: workspace_error(code, message, current.cwd, current.workspace_roots),
    }
}

fn metadata_read(
    mutation: WorkspaceMutation,
    current: Workspace,
    target: WorkspacePath,
    is_directory: bool,
) -> (stage: MutationStage)
    ensures
        stage@ == after_metadata(mutation, current@, target@, is_directory),
{
    if !is_directory {
        return refuse(
            "not_a_directory",
            "workspace mutation target is not a directory: ".to_owned().concat(
                target.display.as_str(),
            ),
            current,
        );
    }
    let next = current.after(mutation, &target);
    if next.same(&current) {
        MutationStage::Serialize {
            output: workspace_success(false, next.cwd, next.workspace_roots),
        }
    } else {
        MutationStage::Preview { current, target, next }
    }
}

fn requested_access(answers: PolicyAnswers) -> (access: Option<RequestedAccess>)
    ensures
        access == new_access(answers),
{
    if answers.preview_writes && !answers.current_writes {
        Some(RequestedAccess::Write)
    } else if answers.preview_reads && !answers.current_reads {
        Some(RequestedAccess::Read)
    } else {
        None
    }
}

fn previewed(
    mutation: WorkspaceMutation,
    current: Workspace,
    target: WorkspacePath,
    next: Workspace,
    answers: PolicyAnswers,
) -> (stage: MutationStage)
    ensures
        stage@ == after_preview(mutation, current@, target@, next@, answers),
{
    if mutation == WorkspaceMutation::SetWorkingDirectory && !answers.preview_reads {
        return refuse(
            "permission_denied",
            "working directory is not readable under the active permission profile: ".to_owned()
            .concat(target.display.as_str()),
            current,
        );
    }
    match requested_access(answers) {
        Some(access) => MutationStage::Approve { current, target, next, access },
        None => MutationStage::Update { next },
    }
}

fn approval_answered(
    current: Workspace,
    next: Workspace,
    response: Option<ApprovalResponse>,
) -> (stage: MutationStage)
    ensures
        stage@ == after_approval(current@, next@, response),
{
    match response {
        None => refuse(
            "approval_denied",
            "workspace mutation approval was cancelled".to_owned(),
            current,
        ),
        Some(response) => if response.permissions_are_empty || response.scope
            != PermissionGrantScope::Session {
            refuse(
                "approval_denied",
                "workspace mutation requires session-scoped approval".to_owned(),
                current,
            )
        } else {
            MutationStage::Update { next }
        },
    }
}

fn settings_update(mutation: WorkspaceMutation, next: &Workspace) -> (update: SettingsUpdate)
    ensures
        update@ == update_to(mutation, next@),
{
    SettingsUpdate {
        cwd: match mutation {
            WorkspaceMutation::SetWorkingDirectory => Some(next.cwd.clone()),
            WorkspaceMutation::AddWorkspaceRoot => None,
        },
        workspace_roots: clone_paths(&next.workspace_roots),
    }
}

fn approval_request(
    mutation: WorkspaceMutation,
    current: &Workspace,
    target: &WorkspacePath,
    next: &Workspace,
    access: RequestedAccess,
) -> (request: ApprovalRequest)
    ensures
        Some(ActionView::RequestApproval { request: request@ }) == action_of(
            mutation,
            StageView::Approve { current: current@, target: target@, next: next@, access },
        ),
{
    let reason = match mutation {
        WorkspaceMutation::SetWorkingDirectory => "switch this session's working directory to `"
            .to_owned().concat(target.display.as_str()).concat("`"),
        WorkspaceMutation::AddWorkspaceRoot => "add `".to_owned().concat(
            target.display.as_str(),
        ).concat("` to this session's workspace"),
    };
    let mut targets: Vec<WorkspacePath> = Vec::new();
    targets.push(target.clone());
    assert(targets.deep_view() =~= seq![target@]);
    let (read, write) = match access {
        RequestedAccess::Read => (Some(targets), None),
        RequestedAccess::Write => (None, Some(targets)),
    };
    ApprovalRequest {
        reason,
        read,
        write,
        cwd: current.cwd.clone(),
        operation: mutation,
        target: target.clone(),
        resulting_workspace_roots: clone_paths(&next.workspace_roots),
    }
}

impl Clone for WorkspaceOutput {
    fn clone(&self) -> (copy: Self)
        ensures
            copy@ == self@,
    {
        match self {
            WorkspaceOutput::Result(result) => workspace_success(
                result.changed,
                result.cwd.clone(),
                clone_paths(&result.workspace_roots),
            ),
            WorkspaceOutput::Error(error) => workspace_error(
                error.code,
                error.message.clone(),
                error.cwd.clone(),
                clone_paths(&error.workspace_roots),
            ),
        }
    }
}

impl WorkspaceMutationRun {
    /// What the host is to do next; nothing once the mutation is over.
    pub fn action(&self) -> (action: Option<MutationAction>)
        ensures
            action.deep_view() == action_of(self.mutation, self.stage@),
    {
        match &self.stage {
            MutationStage::ParseArguments { arguments } => Some(
                MutationAction::ParseArguments { arguments: arguments.clone() },
            ),
            MutationStage::TakeSnapshot { .. } => Some(MutationAction::TakeSnapshot),
            MutationStage::Canonicalize { current, path } => Some(
                MutationAction::Canonicalize { base: current.cwd.clone(), path: path.clone() },
            ),
            MutationStage::ReadMetadata { target, .. } => Some(
                MutationAction::ReadMetadata { target: target.clone() },
            ),
            MutationStage::Preview { current, target, next } => Some(
                MutationAction::PreviewSettings {
                    update: settings_update(self.mutation, next),
                    target: target.clone(),
                    next_cwd: next.cwd.clone(),
                    current_cwd: current.cwd.clone(),
                },
            ),
            MutationStage::Approve { current, target, next, access } => Some(
                MutationAction::RequestApproval {
                    request: approval_request(self.mutation, current, target, next, *access),
                },
            ),
            MutationStage::Update { next } => Some(
                MutationAction::UpdateWorkspace { update: settings_update(self.mutation, next) },
            ),
            MutationStage::Announce { .. } => Some(MutationAction::AnnounceSettings),
            MutationStage::Serialize { output } => Some(
                MutationAction::Serialize { output: output.clone() },
            ),
            MutationStage::Finished { .. } => None,
        }
    }

    /// Goes on with what came back.
    pub fn step(self, reply: MutationReply) -> (next: WorkspaceMutationRun)
        ensures
            next.mutation == self.mutation,
            next.stage@ == stage_after(self.mutation, self.stage@, reply@),
    {
        let mutation = self.mutation;
        let stage = match (self.stage, reply) {
            (MutationStage::ParseArguments { .. }, MutationReply::Arguments(Ok(args))) => {
                MutationStage::TakeSnapshot { path: args.path }
            },
            (MutationStage::ParseArguments { .. }, MutationReply::Arguments(Err(error))) => {
                MutationStage::Finished { outcome: Err(error) }
            },
            (
                MutationStage::TakeSnapshot { path },
                MutationReply::Snapshot { current, has_environment },
            ) => if has_environment {
                MutationStage::Canonicalize { current, path }
            } else {
                fail(
                    "workspace mutation is unavailable without an execution environment".to_owned(),
                )
            },
            (MutationStage::Canonicalize { current, .. }, MutationReply::Canonical(Ok(target))) => {
                MutationStage::ReadMetadata { current, target }
            },
            (MutationStage::Canonicalize { current, .. }, MutationReply::Canonical(Err(failure)))
            => refuse(io_error_code(failure.kind), failure.message, current),
            (
                MutationStage::ReadMetadata { current, target },
                MutationReply::Metadata(Ok(is_directory)),
            ) => metadata_read(mutation, current, target, is_directory),
            (MutationStage::ReadMetadata { current, .. }, MutationReply::Metadata(Err(failure)))
            => refuse(io_error_code(failure.kind), failure.message, current),
            (
                MutationStage::Preview { current, target, next },
                MutationReply::Previewed(Ok(answers)),
            ) => previewed(mutation, current, target, next, answers),
            (MutationStage::Preview { .. }, MutationReply::Previewed(Err(message))) => {
                fail(message)
            },
            (MutationStage::Approve { current, next, .. }, MutationReply::Approval(response)) => {
                approval_answered(current, next, response)
            },
            (MutationStage::Update { next }, MutationReply::Updated(Ok(_))) => {
                MutationStage::Announce { next }
            },
            (MutationStage::Update { .. }, MutationReply::Updated(Err(message))) => fail(message),
            (MutationStage::Announce { next }, MutationReply::Announced) => {
                MutationStage::Serialize {
                    output: workspace_success(true, next.cwd, next.workspace_roots),
                }
            },
            (MutationStage::Serialize { output }, MutationReply::Serialized(serialized)) => {
                let success = match output {
                    WorkspaceOutput::Result(_) => true,
                    WorkspaceOutput::Error(_) => false,
                };
                MutationStage::Finished { outcome: workspace_output(serialized, success) }
            },
            (stage, _) => stage,
        };
        WorkspaceMutationRun { mutation, stage }
    }
}

} // verus!
