//! What a contract says of a value is what the value holds: every string whole, every field in its
//! own place, and nothing left out.
use vstd::prelude::*;

use crate::desktop::{
    outcome_view, ran_view, CommandOutput, DesktopAction, DesktopActionView, DesktopArgument,
    DesktopArgumentView, DesktopFiles, DesktopLaunch, DesktopReply, DesktopReplyView,
    InstalledPath, LaunchView,
};
use crate::history_ui::{ChatMessage, ChatMessageView};
use crate::personal_access_token::{
    HttpStatus, Hydration, HydrationReply, HydrationReplyView, HydrationView,
    PersonalAccessTokenMetadata,
};
use crate::telemetry::MetricReport;
use crate::workspace::Workspace;
use crate::workspace_exchange::{
    ActionView, ApprovalRequest, ErrorView, FunctionCallError, FunctionToolOutput, IoFailure,
    MutationAction, MutationReply, MutationStage, OutputView, PayloadView, ReplyView,
    SettingsUpdate, StageView, ToolPayload, WorkspaceOutput,
};
use crate::workspace_path::WorkspacePath;

verus! {

/// What the auth service says.
pub proof fn law_views_of_the_auth_service(
    status: HttpStatus,
    metadata: PersonalAccessTokenMetadata,
)
    ensures
        status@.code == status.code,
        status@.display == status.display@,
        metadata.email matches Some(email) ==> metadata@.email == Some(email@),
        metadata.email is None ==> metadata@.email is None,
        metadata@.chatgpt_user_id == metadata.chatgpt_user_id@,
        metadata@.chatgpt_account_id == metadata.chatgpt_account_id@,
        metadata@.chatgpt_plan_type == metadata.chatgpt_plan_type@,
        metadata@.chatgpt_account_is_fedramp == metadata.chatgpt_account_is_fedramp,
{
}

/// How far the loading of a token has come, and what came back for it.
pub proof fn law_views_of_a_hydration(hydration: Hydration, reply: HydrationReply)
    ensures
        match hydration {
            Hydration::Request { endpoint, access_token } => hydration@ == (
            HydrationView::Request { endpoint: endpoint@, access_token: access_token@ }),
            Hydration::Decode { access_token } => hydration@ == (HydrationView::Decode {
                access_token: access_token@,
            }),
            Hydration::Finished { outcome: Ok(auth) } => hydration@ == (
            HydrationView::Finished { outcome: Ok(auth@) }),
            Hydration::Finished { outcome: Err(message) } => hydration@ == (
            HydrationView::Finished { outcome: Err(message@) }),
        },
        match reply {
            HydrationReply::Responded(Ok(status)) => reply@ == HydrationReplyView::Responded(
                Ok(status@),
            ),
            HydrationReply::Responded(Err(message)) => reply@ == HydrationReplyView::Responded(
                Err(message@),
            ),
            HydrationReply::Decoded(Ok(metadata)) => reply@ == HydrationReplyView::Decoded(
                Ok(metadata@),
            ),
            HydrationReply::Decoded(Err(message)) => reply@ == HydrationReplyView::Decoded(
                Err(message@),
            ),
        },
{
}

/// A report of a metric, with its tags in their order.
pub proof fn law_view_of_a_report(report: MetricReport, i: int)
    ensures
        report@.name == report.name@,
        report@.description == report.description@,
        report@.value == report.value,
        report@.tags.len() == report.tags@.len(),
        0 <= i < report.tags@.len() ==> report@.tags[i] == (report.tags@[i].0@, report.tags@[i].1@),
        report.deep_view() == report@,
{
}

/// A path with its components in their order, and a workspace with its roots in theirs.
pub proof fn law_view_of_a_path(path: WorkspacePath, workspace: Workspace, i: int)
    ensures
        path@.native == path.native,
        path@.display == path.display@,
        path@.components.len() == path.components@.len(),
        0 <= i < path.components@.len() ==> path@.components[i] == path.components@[i]@,
        path.deep_view() == path@,
        workspace@.cwd == workspace.cwd@,
        workspace@.workspace_roots.len() == workspace.workspace_roots@.len(),
        0 <= i < workspace.workspace_roots@.len() ==> workspace@.workspace_roots[i]
            == workspace.workspace_roots@[i]@,
{
}

/// A tool call and its answer.
pub proof fn law_views_of_a_tool_call(
    payload: ToolPayload,
    error: FunctionCallError,
    answer: FunctionToolOutput,
    failure: IoFailure,
)
    ensures
        match payload {
            ToolPayload::Function { arguments } => payload@ == (PayloadView::Function {
                arguments: arguments@,
            }),
            ToolPayload::Other => payload@ is Other,
        },
        match error {
            FunctionCallError::RespondToModel(message) => error@ == ErrorView::RespondToModel(
                message@,
            ),
            FunctionCallError::Fatal(message) => error@ == ErrorView::Fatal(message@),
        },
        answer@.content == answer.content@,
        answer@.success == answer.success,
        failure@.kind == failure.kind,
        failure@.message == failure.message@,
{
}

/// What a mutation answers.
pub proof fn law_view_of_a_workspace_answer(output: WorkspaceOutput)
    ensures
        match output {
            WorkspaceOutput::Result(result) => {
                &&& output@ is Result
                &&& output@->changed == result.changed
                &&& output@->Result_workspace.cwd == result.cwd@
                &&& output@->Result_workspace.workspace_roots == result.workspace_roots.deep_view()
            },
            WorkspaceOutput::Error(error) => {
                &&& output@ is Error
                &&& output@->code == error.code@
                &&& output@->message == error.message@
                &&& output@->Error_workspace.cwd == error.cwd@
                &&& output@->Error_workspace.workspace_roots == error.workspace_roots.deep_view()
            },
        },
{
}

/// How far a mutation has come.
pub proof fn law_view_of_a_stage(stage: MutationStage)
    ensures
        match stage {
            MutationStage::ParseArguments { arguments } => stage@ == (StageView::ParseArguments {
                arguments: arguments@,
            }),
            MutationStage::TakeSnapshot { path } => stage@ == (StageView::TakeSnapshot {
                path: path@,
            }),
            MutationStage::Canonicalize { current, path } => stage@ == (StageView::Canonicalize {
                current: current@,
                path: path@,
            }),
            MutationStage::ReadMetadata { current, target } => stage@ == (
            StageView::ReadMetadata { current: current@, target: target@ }),
            MutationStage::Preview { current, target, next } => stage@ == (StageView::Preview {
                current: current@,
                target: target@,
                next: next@,
            }),
            MutationStage::Approve { current, target, next, access } => stage@ == (
            StageView::Approve { current: current@, target: target@, next: next@, access }),
            MutationStage::Update { next } => stage@ == (StageView::Update { next: next@ }),
            MutationStage::Announce { next } => stage@ == (StageView::Announce { next: next@ }),
            MutationStage::Serialize { output } => stage@ == (StageView::Serialize {
                output: output@,
            }),
            MutationStage::Finished { outcome: Ok(output) } => stage@ == (StageView::Finished {
                outcome: Ok(output@),
            }),
            MutationStage::Finished { outcome: Err(error) } => stage@ == (StageView::Finished {
                outcome: Err(error@),
            }),
        },
{
}

/// What comes back for a mutation.
pub proof fn law_view_of_a_reply(reply: MutationReply)
    ensures
        match reply {
            MutationReply::Arguments(Ok(args)) => reply@ == ReplyView::Arguments(Ok(args.path@)),
            MutationReply::Arguments(Err(error)) => reply@ == ReplyView::Arguments(Err(error@)),
            MutationReply::Snapshot { current, has_environment } => reply@ == (
            ReplyView::Snapshot { current: current@, has_environment }),
            MutationReply::Canonical(Ok(target)) => reply@ == ReplyView::Canonical(Ok(target@)),
            MutationReply::Canonical(Err(failure)) => reply@ == ReplyView::Canonical(
                Err(failure@),
            ),
            MutationReply::Metadata(Ok(is_directory)) => reply@ == ReplyView::Metadata(
                Ok(is_directory),
            ),
            MutationReply::Metadata(Err(failure)) => reply@ == ReplyView::Metadata(Err(failure@)),
            MutationReply::Previewed(Ok(answers)) => reply@ == ReplyView::Previewed(Ok(answers)),
            MutationReply::Previewed(Err(message)) => reply@ == ReplyView::Previewed(
                Err(message@),
            ),
            MutationReply::Approval(response) => reply@ == ReplyView::Approval(response),
            MutationReply::Updated(Ok(_)) => reply@ == ReplyView::Updated(Ok(())),
            MutationReply::Updated(Err(message)) => reply@ == ReplyView::Updated(Err(message@)),
            MutationReply::Announced => reply@ is Announced,
            MutationReply::Serialized(Ok(content)) => reply@ == ReplyView::Serialized(
                Ok(content@),
            ),
            MutationReply::Serialized(Err(message)) => reply@ == ReplyView::Serialized(
                Err(message@),
            ),
        },
{
}

/// A change of settings and a question to the user.
pub proof fn law_views_of_what_is_asked(update: SettingsUpdate, request: ApprovalRequest)
    ensures
        update.cwd matches Some(cwd) ==> update@.cwd == Some(cwd@),
        update.cwd is None ==> update@.cwd is None,
        update@.workspace_roots == update.workspace_roots.deep_view(),
        request@.reason == request.reason@,
        request.read matches Some(paths) ==> request@.read == Some(paths.deep_view()),
        request.read is None ==> request@.read is None,
        request.write matches Some(paths) ==> request@.write == Some(paths.deep_view()),
        request.write is None ==> request@.write is None,
        request@.cwd == request.cwd@,
        request@.operation == request.operation,
        request@.target == request.target@,
        request@.resulting_workspace_roots == request.resulting_workspace_roots.deep_view(),
{
}

/// What a mutation asks for.
pub proof fn law_view_of_an_action(action: MutationAction)
    ensures
        match action {
            MutationAction::ParseArguments { arguments } => action@ == (
            ActionView::ParseArguments { arguments: arguments@ }),
            MutationAction::TakeSnapshot => action@ is TakeSnapshot,
            MutationAction::Canonicalize { base, path } => action@ == (ActionView::Canonicalize {
                base: base@,
                path: path@,
            }),
            MutationAction::ReadMetadata { target } => action@ == (ActionView::ReadMetadata {
                target: target@,
            }),
            MutationAction::PreviewSettings { update, target, next_cwd, current_cwd } => action@
                == (ActionView::PreviewSettings {
                update: update@,
                target: target@,
                next_cwd: next_cwd@,
                current_cwd: current_cwd@,
            }),
            MutationAction::RequestApproval { request } => action@ == (
            ActionView::RequestApproval { request: request@ }),
            MutationAction::UpdateWorkspace { update } => action@ == (
            ActionView::UpdateWorkspace { update: update@ }),
            MutationAction::AnnounceSettings => action@ is AnnounceSettings,
            MutationAction::Serialize { output } => action@ == (ActionView::Serialize {
                output: output@,
            }),
        },
        action.deep_view() == action@,
{
}

/// What came of a command, and where files are.
pub proof fn law_views_of_commands_and_files(
    output: CommandOutput,
    ran: Result<CommandOutput, String>,
    outcome: Result<(), String>,
    files: DesktopFiles,
    path: InstalledPath,
    argument: DesktopArgument,
    i: int,
)
    ensures
        output@.success == output.success,
        output@.status == output.status@,
        output@.stdout == output.stdout@,
        output@.stderr == output.stderr@,
        ran matches Ok(output) ==> ran_view(ran) == Ok::<_, Seq<char>>(output@),
        ran is Err ==> ran_view(ran) is Err && ran_view(ran)->Err_0 == ran->Err_0@,
        outcome is Ok <==> outcome_view(outcome) is Ok,
        outcome is Err ==> outcome_view(outcome)->Err_0 == outcome->Err_0@,
        files@.exe == files.exe@,
        files@.exe_exists == files.exe_exists,
        files@.app == files.app@,
        files@.app_exists == files.app_exists,
        path@.install_location == path.install_location@,
        path@.names.len() == path.names@.len(),
        0 <= i < path.names@.len() ==> path@.names[i] == path.names@[i]@,
        match argument {
            DesktopArgument::Path(path) => argument@ == DesktopArgumentView::Path(path@),
            DesktopArgument::Text(text) => argument@ == DesktopArgumentView::Text(text@),
        },
        argument.deep_view() == argument@,
{
}

/// How far a handover has come, what came back for it, and what it asks for.
pub proof fn law_views_of_a_handover(
    launch: DesktopLaunch,
    reply: DesktopReply,
    action: DesktopAction,
)
    ensures
        match launch {
            DesktopLaunch::RunOpen { url } => launch@ == (LaunchView::RunOpen { url: url@ }),
            DesktopLaunch::DetectWsl { url } => launch@ == (LaunchView::DetectWsl { url: url@ }),
            DesktopLaunch::RunLaunchScript { url } => launch@ == (LaunchView::RunLaunchScript {
                url: url@,
            }),
            DesktopLaunch::LocatePackage { url } => launch@ == (LaunchView::LocatePackage {
                url: url@,
            }),
            DesktopLaunch::FindFiles { url, install_location } => launch@ == (
            LaunchView::FindFiles { url: url@, install_location: install_location@ }),
            DesktopLaunch::Spawn { url, install_location, files } => launch@ == (
            LaunchView::Spawn {
                url: url@,
                install_location: install_location@,
                files: files@,
            }),
            DesktopLaunch::Finished { outcome } => launch@ == (LaunchView::Finished {
                outcome: outcome_view(outcome),
            }),
        },
        match reply {
            DesktopReply::Wsl(is_wsl) => reply@ == DesktopReplyView::Wsl(is_wsl),
            DesktopReply::Ran(ran) => reply@ == DesktopReplyView::Ran(ran_view(ran)),
            DesktopReply::Files(files) => reply@ == DesktopReplyView::Files(files@),
            DesktopReply::Spawned(spawned) => reply@ == DesktopReplyView::Spawned(
                outcome_view(spawned),
            ),
        },
        match action {
            DesktopAction::DetectWsl => action@ is DetectWsl,
            DesktopAction::Run { program, args, captures_output } => action@ == (
            DesktopActionView::Run {
                program: program@,
                args: args.deep_view(),
                captures_output,
            }),
            DesktopAction::FindFiles { exe, app } => action@ == (DesktopActionView::FindFiles {
                exe: exe@,
                app: app@,
            }),
            DesktopAction::Spawn { program, args, current_dir } => action@ == (
            DesktopActionView::Spawn {
                program: program@,
                args: args.deep_view(),
                current_dir: current_dir@,
            }),
        },
        action.deep_view() == action@,
{
}

/// A message in the chat.
pub proof fn law_view_of_a_message(message: ChatMessage)
    ensures
        match message {
            ChatMessage::Error(text) => message@ == ChatMessageView::Error(text@),
            ChatMessage::Info { message: text, hint } => {
                &&& message@ is Info
                &&& message@->message == text@
                &&& hint is None <==> message@->hint is None
                &&& hint matches Some(hint) ==> message@->hint == Some(hint@)
            },
        },
{
}

} // verus!
