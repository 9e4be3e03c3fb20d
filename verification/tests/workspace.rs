use std::path::PathBuf;

use codex_session::workspace::{Workspace, WorkspaceMutation};
use codex_session::workspace_exchange::{
    ApprovalRequest, ApprovalResponse, FunctionCallError, FunctionToolOutput, IoErrorKind,
    IoFailure, MutationAction, MutationReply, MutationStage, PermissionGrantScope, PolicyAnswers,
    SettingsUpdate, ToolPayload, WorkspaceMutationArgs, WorkspaceOutput,
};
use codex_session::workspace_mutation::{
    io_error_code, workspace_error, workspace_output, workspace_success, WorkspaceMutationHandler,
    WorkspaceMutationRun,
};
use codex_session::workspace_mutation_spec::{
    create_add_workspace_root_tool, create_set_working_directory_tool,
    create_workspace_mutation_tool, JsonSchema, ToolSpec,
};
use codex_session::workspace_path::{are_same_paths, clone_paths, is_covered, WorkspacePath};

fn path(text: &str) -> WorkspacePath {
    let native = PathBuf::from(text);
    let components = native
        .components()
        .map(|component| component.as_os_str().as_encoded_bytes().to_vec())
        .collect();
    WorkspacePath { native, components, display: text.to_string() }
}

fn workspace(cwd: &str, roots: &[&str]) -> Workspace {
    Workspace {
        cwd: path(cwd),
        workspace_roots: roots.iter().map(|root| path(root)).collect(),
    }
}

fn shown(paths: &[WorkspacePath]) -> Vec<String> {
    paths
        .iter()
        .map(|path| {
            assert_eq!(path.native, PathBuf::from(&path.display));
            path.display.clone()
        })
        .collect()
}

/// Everything open: what is asked is allowed, and no access is new.
const OPEN: PolicyAnswers = PolicyAnswers {
    current_reads: true,
    current_writes: true,
    preview_reads: true,
    preview_writes: true,
};

const GRANTED: Option<ApprovalResponse> = Some(ApprovalResponse {
    permissions_are_empty: false,
    scope: PermissionGrantScope::Session,
});

/// A host that answers every action, and keeps the session's workspace.
struct Host {
    session: Workspace,
    has_environment: bool,
    canonicalize: fn(&WorkspacePath, &str) -> Result<WorkspacePath, IoFailure>,
    metadata: fn() -> Result<bool, IoFailure>,
    preview: Result<PolicyAnswers, String>,
    approval: Option<ApprovalResponse>,
    update: Result<(), String>,
    serializes: bool,
    actions: Vec<&'static str>,
    requests: Vec<ApprovalRequest>,
    previews: Vec<(Option<String>, Vec<String>, String, String, String)>,
    output: Option<WorkspaceOutput>,
}

fn join(base: &WorkspacePath, relative: &str) -> Result<WorkspacePath, IoFailure> {
    let joined = base.native.join(relative);
    Ok(path(joined.to_str().expect("test paths are text")))
}

impl Host {
    fn new(session: Workspace) -> Host {
        Host {
            session,
            has_environment: true,
            canonicalize: join,
            metadata: || Ok(true),
            preview: Ok(OPEN),
            approval: None,
            update: Ok(()),
            serializes: true,
            actions: Vec::new(),
            requests: Vec::new(),
            previews: Vec::new(),
            output: None,
        }
    }

    fn apply(&mut self, update: SettingsUpdate) {
        if let Some(cwd) = update.cwd {
            self.session.cwd = cwd;
        }
        self.session.workspace_roots = update.workspace_roots;
    }

    fn perform(&mut self, action: MutationAction) -> MutationReply {
        match action {
            MutationAction::ParseArguments { arguments } => {
                self.actions.push("parse");
                MutationReply::Arguments(match arguments.strip_prefix("path=") {
                    Some(path) => Ok(WorkspaceMutationArgs { path: path.to_string() }),
                    None => Err(FunctionCallError::RespondToModel(
                        "failed to parse function arguments".to_string(),
                    )),
                })
            }
            MutationAction::TakeSnapshot => {
                self.actions.push("snapshot");
                MutationReply::Snapshot {
                    current: self.session.clone(),
                    has_environment: self.has_environment,
                }
            }
            MutationAction::Canonicalize { base, path } => {
                self.actions.push("canonicalize");
                MutationReply::Canonical((self.canonicalize)(&base, &path))
            }
            MutationAction::ReadMetadata { .. } => {
                self.actions.push("metadata");
                MutationReply::Metadata((self.metadata)())
            }
            MutationAction::PreviewSettings { update, target, next_cwd, current_cwd } => {
                self.actions.push("preview");
                self.previews.push((
                    update.cwd.map(|cwd| cwd.display),
                    shown(&update.workspace_roots),
                    target.display,
                    next_cwd.display,
                    current_cwd.display,
                ));
                MutationReply::Previewed(self.preview.clone())
            }
            MutationAction::RequestApproval { request } => {
                self.actions.push("approve");
                self.requests.push(request);
                MutationReply::Approval(self.approval)
            }
            MutationAction::UpdateWorkspace { update } => {
                self.actions.push("update");
                if self.update.is_ok() {
                    self.apply(update);
                }
                MutationReply::Updated(self.update.clone())
            }
            MutationAction::AnnounceSettings => {
                self.actions.push("announce");
                MutationReply::Announced
            }
            MutationAction::Serialize { output } => {
                self.actions.push("serialize");
                self.output = Some(output);
                MutationReply::Serialized(if self.serializes {
                    Ok("{}".to_string())
                } else {
                    Err("path contains invalid UTF-8 characters".to_string())
                })
            }
        }
    }

    fn call_with(
        &mut self,
        handler: WorkspaceMutationHandler,
        payload: ToolPayload,
    ) -> Result<FunctionToolOutput, FunctionCallError> {
        self.actions.clear();
        self.output = None;
        let mut run = handler.handle(payload);
        while let Some(action) = run.action() {
            let reply = self.perform(action);
            run = run.step(reply);
        }
        match run.stage {
            MutationStage::Finished { outcome } => outcome,
            _ => panic!("a mutation that asks for nothing is over"),
        }
    }

    fn call(
        &mut self,
        handler: WorkspaceMutationHandler,
        target: &str,
    ) -> Result<FunctionToolOutput, FunctionCallError> {
        self.call_with(handler, ToolPayload::Function { arguments: format!("path={target}") })
    }

    fn result(&self) -> (bool, String, Vec<String>) {
        match self.output.as_ref() {
            Some(WorkspaceOutput::Result(result)) => (
                result.changed,
                result.cwd.display.clone(),
                shown(&result.workspace_roots),
            ),
            _ => panic!("the mutation was refused"),
        }
    }

    fn error(&self) -> (&'static str, String, String, Vec<String>) {
        match self.output.as_ref() {
            Some(WorkspaceOutput::Error(error)) => (
                error.code,
                error.message.clone(),
                error.cwd.display.clone(),
                shown(&error.workspace_roots),
            ),
            _ => panic!("the mutation was not refused"),
        }
    }
}

fn message(outcome: Result<FunctionToolOutput, FunctionCallError>) -> String {
    match outcome {
        Err(FunctionCallError::RespondToModel(message)) => message,
        Err(FunctionCallError::Fatal(message)) => format!("fatal: {message}"),
        Ok(_) => panic!("the call succeeded"),
    }
}

fn success(outcome: Result<FunctionToolOutput, FunctionCallError>) -> Option<bool> {
    match outcome {
        Ok(output) => output.success,
        Err(_) => panic!("the call failed"),
    }
}

fn strings(texts: &[&str]) -> Vec<String> {
    texts.iter().map(|text| text.to_string()).collect()
}

#[test]
fn workspace_mutation_updates_same_batch_shell_cwd() {
    let mut host = Host::new(workspace("/work", &["/work"]));
    let outcome = host.call(
        WorkspaceMutationHandler::set_working_directory(),
        "/work/workspace-mutation-next",
    );
    assert_eq!(success(outcome), Some(true));
    assert_eq!(
        host.result(),
        (true, "/work/workspace-mutation-next".to_string(), strings(&["/work"]))
    );
    assert_eq!(host.session.cwd.display, "/work/workspace-mutation-next");
    assert_eq!(
        host.actions,
        [
            "parse",
            "snapshot",
            "canonicalize",
            "metadata",
            "preview",
            "update",
            "announce",
            "serialize"
        ]
    );
    assert_eq!(
        host.previews,
        [(
            Some("/work/workspace-mutation-next".to_string()),
            strings(&["/work"]),
            "/work/workspace-mutation-next".to_string(),
            "/work/workspace-mutation-next".to_string(),
            "/work".to_string(),
        )]
    );
}

#[test]
fn workspace_mutations_run_in_model_provided_order() {
    let mut host = Host::new(workspace("/work", &["/work"]));
    let handler = WorkspaceMutationHandler::set_working_directory();
    assert_eq!(success(host.call(handler, "workspace-mutation-first")), Some(true));
    assert_eq!(
        host.result(),
        (true, "/work/workspace-mutation-first".to_string(), strings(&["/work"]))
    );
    assert_eq!(success(host.call(handler, "nested")), Some(true));
    assert_eq!(
        host.result(),
        (true, "/work/workspace-mutation-first/nested".to_string(), strings(&["/work"]))
    );
    assert_eq!(host.session.cwd.display, "/work/workspace-mutation-first/nested");
}

#[test]
fn add_workspace_root_under_existing_root_is_noop() {
    let mut host = Host::new(workspace("/work", &["/work"]));
    let outcome = host.call(WorkspaceMutationHandler::add_workspace_root(), "/work/covered-child");
    assert_eq!(success(outcome), Some(true));
    assert_eq!(host.result(), (false, "/work".to_string(), strings(&["/work"])));
    assert_eq!(
        host.actions,
        ["parse", "snapshot", "canonicalize", "metadata", "serialize"]
    );
}

#[test]
fn workspace_mutation_requires_session_scoped_approval_and_cancels_suffix() {
    let mut host = Host::new(workspace("/work", &["/work"]));
    host.preview = Ok(PolicyAnswers { current_writes: false, ..OPEN });
    host.approval = Some(ApprovalResponse {
        permissions_are_empty: false,
        scope: PermissionGrantScope::Turn,
    });
    let handler = WorkspaceMutationHandler::add_workspace_root();
    let outcome = host.call(handler, "/external");
    assert_eq!(success(outcome), Some(false));
    assert_eq!(
        host.error(),
        (
            "approval_denied",
            "workspace mutation requires session-scoped approval".to_string(),
            "/work".to_string(),
            strings(&["/work"]),
        )
    );
    let request = &host.requests[0];
    assert_eq!(request.reason, "add `/external` to this session's workspace");
    assert!(request.read.is_none());
    assert_eq!(
        request.write.as_ref().map(|paths| shown(paths)),
        Some(strings(&["/external"]))
    );
    assert_eq!(request.cwd.display, "/work");
    assert_eq!(request.operation, WorkspaceMutation::AddWorkspaceRoot);
    assert_eq!(request.target.display, "/external");
    assert_eq!(shown(&request.resulting_workspace_roots), strings(&["/work", "/external"]));
    assert!(!host.actions.contains(&"update"));
    assert!(handler.cancel_suffix_on_failure());
    assert!(handler.execution_barrier());
}

#[test]
fn approved_workspace_root_is_available_to_same_batch_shell() {
    let mut host = Host::new(workspace("/work", &["/work"]));
    host.preview = Ok(PolicyAnswers { current_writes: false, ..OPEN });
    host.approval = GRANTED;
    let outcome = host.call(WorkspaceMutationHandler::add_workspace_root(), "/external");
    assert_eq!(success(outcome), Some(true));
    assert_eq!(
        host.result(),
        (true, "/work".to_string(), strings(&["/work", "/external"]))
    );
    assert_eq!(shown(&host.session.workspace_roots), strings(&["/work", "/external"]));
    assert_eq!(host.previews[0].0, None);
    assert_eq!(host.previews[0].3, "/work");
    assert_eq!(host.actions.len(), 9);
}

#[test]
fn set_working_directory_rejects_unreadable_target() {
    let mut host = Host::new(workspace("/work", &["/work"]));
    host.preview = Ok(PolicyAnswers {
        current_reads: false,
        current_writes: false,
        preview_reads: false,
        preview_writes: false,
    });
    let outcome = host.call(WorkspaceMutationHandler::set_working_directory(), "/external");
    assert_eq!(success(outcome), Some(false));
    assert_eq!(
        host.error(),
        (
            "permission_denied",
            "working directory is not readable under the active permission profile: /external"
                .to_string(),
            "/work".to_string(),
            strings(&["/work"]),
        )
    );
    assert_eq!(host.session.cwd.display, "/work");
}

#[test]
fn an_unreadable_root_may_be_added() {
    let mut host = Host::new(workspace("/work", &["/work"]));
    host.preview = Ok(PolicyAnswers {
        current_reads: false,
        current_writes: false,
        preview_reads: false,
        preview_writes: false,
    });
    let outcome = host.call(WorkspaceMutationHandler::add_workspace_root(), "/external");
    assert_eq!(success(outcome), Some(true));
    assert!(host.requests.is_empty());
}

#[test]
fn new_read_access_is_requested_where_no_write_access_is_new() {
    let mut host = Host::new(workspace("/work", &["/work"]));
    host.preview = Ok(PolicyAnswers {
        current_reads: false,
        current_writes: false,
        preview_reads: true,
        preview_writes: false,
    });
    host.approval = GRANTED;
    let outcome = host.call(WorkspaceMutationHandler::set_working_directory(), "/external");
    assert_eq!(success(outcome), Some(true));
    let request = &host.requests[0];
    assert_eq!(
        request.reason,
        "switch this session's working directory to `/external`"
    );
    assert_eq!(
        request.read.as_ref().map(|paths| shown(paths)),
        Some(strings(&["/external"]))
    );
    assert!(request.write.is_none());
    assert_eq!(request.operation, WorkspaceMutation::SetWorkingDirectory);
    assert_eq!(
        host.result(),
        (true, "/external".to_string(), strings(&["/work", "/external"]))
    );
}

#[test]
fn a_cancelled_or_empty_approval_is_a_denial() {
    let mut host = Host::new(workspace("/work", &["/work"]));
    host.preview = Ok(PolicyAnswers { current_writes: false, ..OPEN });
    let handler = WorkspaceMutationHandler::add_workspace_root();
    assert_eq!(success(host.call(handler, "/external")), Some(false));
    assert_eq!(host.error().0, "approval_denied");
    assert_eq!(host.error().1, "workspace mutation approval was cancelled");

    host.approval = Some(ApprovalResponse {
        permissions_are_empty: true,
        scope: PermissionGrantScope::Session,
    });
    assert_eq!(success(host.call(handler, "/external")), Some(false));
    assert_eq!(host.error().1, "workspace mutation requires session-scoped approval");
    assert_eq!(shown(&host.session.workspace_roots), strings(&["/work"]));
}

#[test]
fn a_repeated_mutation_has_nothing_to_do() {
    for handler in [
        WorkspaceMutationHandler::set_working_directory(),
        WorkspaceMutationHandler::add_workspace_root(),
    ] {
        let mut host = Host::new(workspace("/work", &["/work"]));
        assert_eq!(success(host.call(handler, "/external")), Some(true));
        let first = host.result();
        assert!(first.0);
        assert_eq!(success(host.call(handler, "/external")), Some(true));
        assert_eq!(host.result(), (false, first.1, first.2));
    }
}

#[test]
fn calls_that_cannot_begin_are_answered_with_a_message() {
    let handler = WorkspaceMutationHandler::add_workspace_root();
    let mut host = Host::new(workspace("/work", &["/work"]));
    assert_eq!(
        message(host.call_with(handler, ToolPayload::Other)),
        "workspace mutation handler received unsupported payload"
    );
    assert!(host.actions.is_empty());
    assert_eq!(
        message(host.call_with(handler, ToolPayload::Function { arguments: "{".to_string() })),
        "failed to parse function arguments"
    );
    host.has_environment = false;
    assert_eq!(
        message(host.call(handler, "/external")),
        "workspace mutation is unavailable without an execution environment"
    );
    assert_eq!(host.actions, ["parse", "snapshot"]);
}

#[test]
fn failures_of_the_session_are_answered_with_a_message() {
    let handler = WorkspaceMutationHandler::add_workspace_root();
    let mut host = Host::new(workspace("/work", &["/work"]));
    host.preview = Err("preview failed".to_string());
    assert_eq!(message(host.call(handler, "/external")), "preview failed");
    host.preview = Ok(OPEN);
    host.update = Err("update failed".to_string());
    assert_eq!(message(host.call(handler, "/external")), "update failed");
    host.update = Ok(());
    host.serializes = false;
    assert_eq!(
        message(host.call(handler, "/external")),
        "fatal: failed to serialize workspace mutation result: path contains invalid UTF-8 characters"
    );
}

#[test]
fn file_system_errors_refuse_the_mutation() {
    let handler = WorkspaceMutationHandler::set_working_directory();
    let mut host = Host::new(workspace("/work", &["/work"]));
    host.canonicalize = |_, _| {
        Err(IoFailure { kind: IoErrorKind::NotFound, message: "no such directory".to_string() })
    };
    assert_eq!(success(host.call(handler, "gone")), Some(false));
    assert_eq!(
        host.error(),
        (
            "path_not_found",
            "no such directory".to_string(),
            "/work".to_string(),
            strings(&["/work"]),
        )
    );
    host.canonicalize = join;
    host.metadata = || {
        Err(IoFailure { kind: IoErrorKind::PermissionDenied, message: "denied".to_string() })
    };
    assert_eq!(success(host.call(handler, "closed")), Some(false));
    assert_eq!(host.error().0, "permission_denied");
    assert_eq!(host.error().1, "denied");
    host.metadata = || Ok(false);
    assert_eq!(success(host.call(handler, "file")), Some(false));
    assert_eq!(host.error().0, "not_a_directory");
    assert_eq!(host.error().1, "workspace mutation target is not a directory: /work/file");
}

#[test]
fn io_error_codes() {
    assert_eq!(io_error_code(IoErrorKind::NotFound), "path_not_found");
    assert_eq!(io_error_code(IoErrorKind::PermissionDenied), "permission_denied");
    assert_eq!(io_error_code(IoErrorKind::Other), "resolution_failed");
}

#[test]
fn replies_that_were_not_asked_for_change_nothing() {
    let handler = WorkspaceMutationHandler::add_workspace_root();
    let run: WorkspaceMutationRun =
        handler.handle(ToolPayload::Function { arguments: "path=x".to_string() });
    let run = run.step(MutationReply::Updated(Ok(())));
    let run = run.step(MutationReply::Announced);
    assert!(matches!(
        run.stage,
        MutationStage::ParseArguments { ref arguments } if arguments == "path=x"
    ));
    assert!(matches!(
        run.action(),
        Some(MutationAction::ParseArguments { arguments }) if arguments == "path=x"
    ));
}

#[test]
fn outputs_keep_what_they_are_made_of() {
    let done = workspace_success(true, path("/a"), vec![path("/b")]);
    assert!(matches!(
        done.clone(),
        WorkspaceOutput::Result(result) if result.changed && result.cwd.display == "/a"
    ));
    let refused = workspace_error("code", "message".to_string(), path("/a"), Vec::new());
    assert!(matches!(
        refused.clone(),
        WorkspaceOutput::Error(error) if error.code == "code" && error.message == "message"
    ));
    let output = match workspace_output(Ok("{}".to_string()), false) {
        Ok(output) => output,
        Err(_) => panic!("the output was serialized"),
    };
    assert_eq!((output.content.as_str(), output.success), ("{}", Some(false)));
}

#[test]
fn paths_are_compared_by_whole_components() {
    assert!(path("/work/a").starts_with(&path("/work")));
    assert!(path("/work").starts_with(&path("/work")));
    assert!(path("/work").starts_with(&path("/")));
    assert!(!path("/workshop").starts_with(&path("/work")));
    assert!(!path("/work").starts_with(&path("/work/a")));
    assert!(path("/work//a").same(&path("/work/a")));
    assert!(!path("/work/a").same(&path("/work/b")));
    for (longer, base) in [
        ("/work/a", "/work"),
        ("/work", "/work/"),
        ("/workshop", "/work"),
        ("/", "/work"),
        ("/work/./a", "/work/a"),
    ] {
        assert_eq!(
            path(longer).starts_with(&path(base)),
            PathBuf::from(longer).starts_with(base)
        );
        assert_eq!(
            path(longer).same(&path(base)),
            PathBuf::from(longer) == PathBuf::from(base)
        );
    }
}

#[test]
fn lists_of_paths() {
    let roots = vec![path("/work"), path("/other")];
    assert!(is_covered(&roots, &path("/other/deep")));
    assert!(!is_covered(&roots, &path("/elsewhere")));
    assert!(!is_covered(&Vec::new(), &path("/work")));
    assert!(are_same_paths(&roots, &clone_paths(&roots)));
    assert!(!are_same_paths(&roots, &vec![path("/work")]));
    assert!(!are_same_paths(&roots, &vec![path("/other"), path("/work")]));
}

#[test]
fn workspaces_after_a_mutation() {
    let before = workspace("/work", &["/work"]);
    let moved = before.after(WorkspaceMutation::SetWorkingDirectory, &path("/external"));
    assert_eq!(moved.cwd.display, "/external");
    assert_eq!(shown(&moved.workspace_roots), strings(&["/work", "/external"]));
    let grown = before.after(WorkspaceMutation::AddWorkspaceRoot, &path("/external"));
    assert_eq!(grown.cwd.display, "/work");
    assert_eq!(shown(&grown.workspace_roots), strings(&["/work", "/external"]));
    assert!(!grown.same(&before));
    assert!(!moved.same(&grown));
    assert!(before
        .after(WorkspaceMutation::AddWorkspaceRoot, &path("/work/below"))
        .same(&before));
}

#[test]
fn the_tools_are_described_to_the_model() {
    let set = WorkspaceMutationHandler::set_working_directory();
    let add = WorkspaceMutationHandler::add_workspace_root();
    assert_eq!(set.tool_name(), "set_working_directory");
    assert_eq!(add.tool_name(), "add_workspace_root");
    let ending = "\n\nRelative paths resolve from the active working directory. Later tool calls in the same batch start after this mutation succeeds and are cancelled if it fails.";
    for (spec, name, summary) in [
        (
            set.tool_spec(),
            "set_working_directory",
            "Changes the active working directory and adds it as a workspace root when needed.",
        ),
        (
            create_set_working_directory_tool(),
            "set_working_directory",
            "Changes the active working directory and adds it as a workspace root when needed.",
        ),
        (
            add.tool_spec(),
            "add_workspace_root",
            "Adds a workspace root without changing the active working directory.",
        ),
        (
            create_add_workspace_root_tool(),
            "add_workspace_root",
            "Adds a workspace root without changing the active working directory.",
        ),
        (create_workspace_mutation_tool("name", "Summary."), "name", "Summary."),
    ] {
        let ToolSpec::Function(tool) = spec;
        assert_eq!(tool.name, name);
        assert_eq!(tool.description, format!("{summary}{ending}"));
        assert!(!tool.strict);
        assert_eq!(tool.defer_loading, None);
        assert!(tool.output_schema.is_none());
        match tool.parameters {
            JsonSchema::Object { properties, required, additional_properties } => {
                assert_eq!(properties.len(), 1);
                assert_eq!(properties[0].0, "path");
                assert!(matches!(
                    &properties[0].1,
                    JsonSchema::String { description: Some(description) }
                        if description == "Existing directory path."
                ));
                assert_eq!(required, Some(vec!["path".to_string()]));
                assert_eq!(additional_properties, Some(false));
            }
            JsonSchema::String { .. } => panic!("the parameters are an object"),
        }
    }
}
