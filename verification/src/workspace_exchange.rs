//! What passes between a workspace mutation and its host: what the mutation asks for, what comes
//! back, and what it answers in the end.
use vstd::prelude::*;

use crate::workspace::{Workspace, WorkspaceMutation, WorkspaceView};
use crate::workspace_path::{PathView, WorkspacePath};

verus! {

/// What a tool call carries.
pub enum ToolPayload {
    /// A function call with its arguments, as the model wrote them.
    Function { arguments: String },
    /// Any other kind of call.
    Other,
}

/// The arguments of a workspace mutation.
pub struct WorkspaceMutationArgs {
    pub path: String,
}

/// Why a tool call has no output.
pub enum FunctionCallError {
    /// The model is told.
    RespondToModel(String),
    /// The turn ends.
    Fatal(String),
}

/// What a tool call gives back to the model.
pub struct FunctionToolOutput {
    pub content: String,
    pub success: Option<bool>,
}

/// The kinds of file-system error that are told apart.
#[derive(Clone, Copy, Debug, PartialEq, Eq, Structural)]
pub enum IoErrorKind {
    NotFound,
    PermissionDenied,
    Other,
}

/// A file-system error.
pub struct IoFailure {
    pub kind: IoErrorKind,
    pub message: String,
}

/// What two file-system policies say of the target: the policy in force, asked with the current
/// working directory, and the policy that would be in force after the mutation, asked with the
/// working directory that the mutation would leave.
#[derive(Clone, Copy, Debug, PartialEq, Eq, Structural)]
pub struct PolicyAnswers {
    pub current_reads: bool,
    pub current_writes: bool,
    pub preview_reads: bool,
    pub preview_writes: bool,
}

/// How long granted permissions last.
#[derive(Clone, Copy, Debug, PartialEq, Eq, Structural)]
pub enum PermissionGrantScope {
    Turn,
    Session,
}

/// The answer to a request for permissions.
#[derive(Clone, Copy, Debug, PartialEq, Eq, Structural)]
pub struct ApprovalResponse {
    /// No permission was granted.
    pub permissions_are_empty: bool,
    pub scope: PermissionGrantScope,
}

/// What the user is asked to allow on the target.
#[derive(Clone, Copy, Debug, PartialEq, Eq, Structural)]
pub enum RequestedAccess {
    Read,
    Write,
}

/// A mutation that went through, or that had nothing to do.
pub struct WorkspaceMutationResult {
    pub changed: bool,
    pub cwd: WorkspacePath,
    pub workspace_roots: Vec<WorkspacePath>,
}

/// A mutation that was refused, with the workspace as it still is.
pub struct WorkspaceMutationError {
    pub code: &'static str,
    pub message: String,
    pub cwd: WorkspacePath,
    pub workspace_roots: Vec<WorkspacePath>,
}

/// What a mutation answers the model.
pub enum WorkspaceOutput {
    Result(WorkspaceMutationResult),
    Error(WorkspaceMutationError),
}

/// How far a mutation has come, with what it waits for.
pub enum MutationStage {
    /// The arguments of the call are to be parsed.
    ParseArguments { arguments: String },
    /// The session's workspace is to be read.
    TakeSnapshot { path: String },
    /// The path is to be resolved from the working directory, to a canonical path.
    Canonicalize { current: Workspace, path: String },
    /// The target's metadata is to be read.
    ReadMetadata { current: Workspace, target: WorkspacePath },
    /// The policies are to be asked about the target.
    Preview { current: Workspace, target: WorkspacePath, next: Workspace },
    /// The user is to be asked for access to the target.
    Approve { current: Workspace, target: WorkspacePath, next: Workspace, access: RequestedAccess },
    /// The session's workspace is to be replaced.
    Update { next: Workspace },
    /// The new settings are to be announced.
    Announce { next: Workspace },
    /// The answer is to be serialized.
    Serialize { output: WorkspaceOutput },
    /// The mutation is over.
    Finished { outcome: Result<FunctionToolOutput, FunctionCallError> },
}

/// What comes back for what a mutation waits for; foreign errors come as their message.
pub enum MutationReply {
    Arguments(Result<WorkspaceMutationArgs, FunctionCallError>),
    Snapshot { current: Workspace, has_environment: bool },
    Canonical(Result<WorkspacePath, IoFailure>),
    /// Whether the target is a directory.
    Metadata(Result<bool, IoFailure>),
    Previewed(Result<PolicyAnswers, String>),
    /// `None` where the request was cancelled.
    Approval(Option<ApprovalResponse>),
    Updated(Result<(), String>),
    Announced,
    Serialized(Result<String, String>),
}

/// A change of the session's settings. `cwd` is `None` where the working directory stays.
pub struct SettingsUpdate {
    pub cwd: Option<WorkspacePath>,
    pub workspace_roots: Vec<WorkspacePath>,
}

/// A request for access to the target of a mutation.
pub struct ApprovalRequest {
    pub reason: String,
    pub read: Option<Vec<WorkspacePath>>,
    pub write: Option<Vec<WorkspacePath>>,
    /// The working directory that the request is made from.
    pub cwd: WorkspacePath,
    pub operation: WorkspaceMutation,
    pub target: WorkspacePath,
    pub resulting_workspace_roots: Vec<WorkspacePath>,
}

/// What a mutation asks its host to do.
pub enum MutationAction {
    ParseArguments { arguments: String },
    TakeSnapshot,
    /// Resolve `path` from `base`, then canonicalize it.
    Canonicalize { base: WorkspacePath, path: String },
    ReadMetadata { target: WorkspacePath },
    /// Preview the settings after `update`; ask their policy about `target` from `next_cwd` and
    /// the policy in force about `target` from `current_cwd`.
    PreviewSettings {
        update: SettingsUpdate,
        target: WorkspacePath,
        next_cwd: WorkspacePath,
        current_cwd: WorkspacePath,
    },
    RequestApproval { request: ApprovalRequest },
    UpdateWorkspace { update: SettingsUpdate },
    AnnounceSettings,
    Serialize { output: WorkspaceOutput },
}

/// What a [`ToolPayload`] holds.
pub enum PayloadView {
    Function { arguments: Seq<char> },
    Other,
}

/// What a [`FunctionCallError`] holds.
pub enum ErrorView {
    RespondToModel(Seq<char>),
    Fatal(Seq<char>),
}

/// What a [`FunctionToolOutput`] holds.
#[verifier::ext_equal]
pub struct ToolOutputView {
    pub content: Seq<char>,
    pub success: Option<bool>,
}

/// What an [`IoFailure`] holds.
#[verifier::ext_equal]
pub struct IoFailureView {
    pub kind: IoErrorKind,
    pub message: Seq<char>,
}

/// What a [`WorkspaceOutput`] holds.
#[verifier::ext_equal]
pub enum OutputView {
    Result { changed: bool, workspace: WorkspaceView },
    Error { code: Seq<char>, message: Seq<char>, workspace: WorkspaceView },
}

/// What a [`MutationStage`] holds.
#[verifier::ext_equal]
pub enum StageView {
    ParseArguments { arguments: Seq<char> },
    TakeSnapshot { path: Seq<char> },
    Canonicalize { current: WorkspaceView, path: Seq<char> },
    ReadMetadata { current: WorkspaceView, target: PathView },
    Preview { current: WorkspaceView, target: PathView, next: WorkspaceView },
    Approve {
        current: WorkspaceView,
        target: PathView,
        next: WorkspaceView,
        access: RequestedAccess,
    },
    Update { next: WorkspaceView },
    Announce { next: WorkspaceView },
    Serialize { output: OutputView },
    Finished { outcome: Result<ToolOutputView, ErrorView> },
}

/// What a [`MutationReply`] holds.
pub enum ReplyView {
    Arguments(Result<Seq<char>, ErrorView>),
    Snapshot { current: WorkspaceView, has_environment: bool },
    Canonical(Result<PathView, IoFailureView>),
    Metadata(Result<bool, IoFailureView>),
    Previewed(Result<PolicyAnswers, Seq<char>>),
    Approval(Option<ApprovalResponse>),
    Updated(Result<(), Seq<char>>),
    Announced,
    Serialized(Result<Seq<char>, Seq<char>>),
}

/// What a [`SettingsUpdate`] holds.
#[verifier::ext_equal]
pub struct UpdateView {
    pub cwd: Option<PathView>,
    pub workspace_roots: Seq<PathView>,
}

/// What an [`ApprovalRequest`] holds.
#[verifier::ext_equal]
pub struct ApprovalRequestView {
    pub reason: Seq<char>,
    pub read: Option<Seq<PathView>>,
    pub write: Option<Seq<PathView>>,
    pub cwd: PathView,
    pub operation: WorkspaceMutation,
    pub target: PathView,
    pub resulting_workspace_roots: Seq<PathView>,
}

/// What a [`MutationAction`] holds.
#[verifier::ext_equal]
pub enum ActionView {
    ParseArguments { arguments: Seq<char> },
    TakeSnapshot,
    Canonicalize { base: PathView, path: Seq<char> },
    ReadMetadata { target: PathView },
    PreviewSettings {
        update: UpdateView,
        target: PathView,
        next_cwd: PathView,
        current_cwd: PathView,
    },
    RequestApproval { request: ApprovalRequestView },
    UpdateWorkspace { update: UpdateView },
    AnnounceSettings,
    Serialize { output: OutputView },
}

impl View for ToolPayload {
    type V = PayloadView;

    open spec fn view(&self) -> PayloadView {
        match self {
            ToolPayload::Function { arguments } => PayloadView::Function { arguments: arguments@ },
            ToolPayload::Other => PayloadView::Other,
        }
    }
}

impl View for FunctionCallError {
    type V = ErrorView;

    open spec fn view(&self) -> ErrorView {
        match self {
            FunctionCallError::RespondToModel(message) => ErrorView::RespondToModel(message@),
            FunctionCallError::Fatal(message) => ErrorView::Fatal(message@),
        }
    }
}

impl View for FunctionToolOutput {
    type V = ToolOutputView;

    open spec fn view(&self) -> ToolOutputView {
        ToolOutputView { content: self.content@, success: self.success }
    }
}

impl View for IoFailure {
    type V = IoFailureView;

    open spec fn view(&self) -> IoFailureView {
        IoFailureView { kind: self.kind, message: self.message@ }
    }
}

impl View for WorkspaceOutput {
    type V = OutputView;

    open spec fn view(&self) -> OutputView {
        match self {
            WorkspaceOutput::Result(result) => OutputView::Result {
                changed: result.changed,
                workspace: WorkspaceView {
                    cwd: result.cwd@,
                    workspace_roots: result.workspace_roots.deep_view(),
                },
            },
            WorkspaceOutput::Error(error) => OutputView::Error {
                code: error.code@,
                message: error.message@,
                workspace: WorkspaceView {
                    cwd: error.cwd@,
                    workspace_roots: error.workspace_roots.deep_view(),
                },
            },
        }
    }
}

impl View for MutationStage {
    type V = StageView;

    open spec fn view(&self) -> StageView {
        match self {
            MutationStage::ParseArguments { arguments } => StageView::ParseArguments {
                arguments: arguments@,
            },
            MutationStage::TakeSnapshot { path } => StageView::TakeSnapshot { path: path@ },
            MutationStage::Canonicalize { current, path } => StageView::Canonicalize {
                current: current@,
                path: path@,
            },
            MutationStage::ReadMetadata { current, target } => StageView::ReadMetadata {
                current: current@,
                target: target@,
            },
            MutationStage::Preview { current, target, next } => StageView::Preview {
                current: current@,
                target: target@,
                next: next@,
            },
            MutationStage::Approve { current, target, next, access } => StageView::Approve {
                current: current@,
                target: target@,
                next: next@,
                access: *access,
            },
            MutationStage::Update { next } => StageView::Update { next: next@ },
            MutationStage::Announce { next } => StageView::Announce { next: next@ },
            MutationStage::Serialize { output } => StageView::Serialize { output: output@ },
            MutationStage::Finished { outcome: Ok(output) } => StageView::Finished {
                outcome: Ok(output@),
            },
            MutationStage::Finished { outcome: Err(error) } => StageView::Finished {
                outcome: Err(error@),
            },
        }
    }
}

impl View for MutationReply {
    type V = ReplyView;

    open spec fn view(&self) -> ReplyView {
        match self {
            MutationReply::Arguments(Ok(args)) => ReplyView::Arguments(Ok(args.path@)),
            MutationReply::Arguments(Err(error)) => ReplyView::Arguments(Err(error@)),
            MutationReply::Snapshot { current, has_environment } => ReplyView::Snapshot {
                current: current@,
                has_environment: *has_environment,
            },
            MutationReply::Canonical(Ok(target)) => ReplyView::Canonical(Ok(target@)),
            MutationReply::Canonical(Err(failure)) => ReplyView::Canonical(Err(failure@)),
            MutationReply::Metadata(Ok(is_directory)) => ReplyView::Metadata(Ok(*is_directory)),
            MutationReply::Metadata(Err(failure)) => ReplyView::Metadata(Err(failure@)),
            MutationReply::Previewed(Ok(answers)) => ReplyView::Previewed(Ok(*answers)),
            MutationReply::Previewed(Err(message)) => ReplyView::Previewed(Err(message@)),
            MutationReply::Approval(response) => ReplyView::Approval(*response),
            MutationReply::Updated(Ok(())) => ReplyView::Updated(Ok(())),
            MutationReply::Updated(Err(message)) => ReplyView::Updated(Err(message@)),
            MutationReply::Announced => ReplyView::Announced,
            MutationReply::Serialized(Ok(content)) => ReplyView::Serialized(Ok(content@)),
            MutationReply::Serialized(Err(message)) => ReplyView::Serialized(Err(message@)),
        }
    }
}

impl View for SettingsUpdate {
    type V = UpdateView;

    open spec fn view(&self) -> UpdateView {
        UpdateView {
            cwd: self.cwd.deep_view(),
            workspace_roots: self.workspace_roots.deep_view(),
        }
    }
}

impl View for ApprovalRequest {
    type V = ApprovalRequestView;

    open spec fn view(&self) -> ApprovalRequestView {
        ApprovalRequestView {
            reason: self.reason@,
            read: self.read.deep_view(),
            write: self.write.deep_view(),
            cwd: self.cwd@,
            operation: self.operation,
            target: self.target@,
            resulting_workspace_roots: self.resulting_workspace_roots.deep_view(),
        }
    }
}

impl View for MutationAction {
    type V = ActionView;

    open spec fn view(&self) -> ActionView {
        match self {
            MutationAction::ParseArguments { arguments } => ActionView::ParseArguments {
                arguments: arguments@,
            },
            MutationAction::TakeSnapshot => ActionView::TakeSnapshot,
            MutationAction::Canonicalize { base, path } => ActionView::Canonicalize {
                base: base@,
                path: path@,
            },
            MutationAction::ReadMetadata { target } => ActionView::ReadMetadata { target: target@ },
            MutationAction::PreviewSettings { update, target, next_cwd, current_cwd } => {
                ActionView::PreviewSettings {
                    update: update@,
                    target: target@,
                    next_cwd: next_cwd@,
                    current_cwd: current_cwd@,
                }
            },
            MutationAction::RequestApproval { request } => ActionView::RequestApproval {
                request: request@,
            },
            MutationAction::UpdateWorkspace { update } => ActionView::UpdateWorkspace {
                update: update@,
            },
            MutationAction::AnnounceSettings => ActionView::AnnounceSettings,
            MutationAction::Serialize { output } => ActionView::Serialize { output: output@ },
        }
    }
}

impl DeepView for MutationAction {
    type V = ActionView;

    open spec fn deep_view(&self) -> ActionView {
        self@
    }
}

} // verus!
