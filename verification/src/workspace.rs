//! A session's workspace, and what each workspace mutation makes of it.
use vstd::prelude::*;

use crate::workspace_path::{
    are_same_paths, clone_paths, covered, is_covered, law_starts_with_is_a_partial_order,
    same_paths, PathView, WorkspacePath,
};

verus! {

/// The two ways in which a session's workspace can be changed.
#[derive(Clone, Copy, Debug, PartialEq, Eq, Structural)]
pub enum WorkspaceMutation {
    SetWorkingDirectory,
    AddWorkspaceRoot,
}

/// The working directory and the workspace roots of a session.
pub struct Workspace {
    pub cwd: WorkspacePath,
    pub workspace_roots: Vec<WorkspacePath>,
}

/// What a [`Workspace`] holds.
#[verifier::ext_equal]
pub struct WorkspaceView {
    pub cwd: PathView,
    pub workspace_roots: Seq<PathView>,
}

impl View for Workspace {
    type V = WorkspaceView;

    open spec fn view(&self) -> WorkspaceView {
        WorkspaceView { cwd: self.cwd@, workspace_roots: self.workspace_roots.deep_view() }
    }
}

impl WorkspaceView {
    /// The workspace that `mutation` makes of this one: the target becomes a workspace root
    /// unless a root covers it already, and the working directory where the mutation says so.
    pub open spec fn after(self, mutation: WorkspaceMutation, target: PathView) -> WorkspaceView {
        WorkspaceView {
            cwd: match mutation {
                WorkspaceMutation::SetWorkingDirectory => target,
                WorkspaceMutation::AddWorkspaceRoot => self.cwd,
            },
            workspace_roots: if covered(self.workspace_roots, target) {
                self.workspace_roots
            } else {
                self.workspace_roots.push(target)
            },
        }
    }

    /// The two workspaces have the same working directory and the same roots.
    pub open spec fn same(self, other: WorkspaceView) -> bool {
        &&& self.cwd.same(other.cwd)
        &&& same_paths(self.workspace_roots, other.workspace_roots)
    }
}

impl Clone for Workspace {
    fn clone(&self) -> (copy: Self)
        ensures
            copy@ == self@,
    {
        Workspace {
            cwd: self.cwd.clone(),
            workspace_roots: clone_paths(&self.workspace_roots),
        }
    }
}

impl Workspace {
    /// The workspace that `mutation` makes of this one.
    pub fn after(&self, mutation: WorkspaceMutation, target: &WorkspacePath) -> (next: Workspace)
        ensures
            next@ == self@.after(mutation, target@),
    {
        let mut workspace_roots = clone_paths(&self.workspace_roots);
        if !is_covered(&self.workspace_roots, target) {
            workspace_roots.push(target.clone());
            assert(workspace_roots.deep_view() =~= self@.workspace_roots.push(target@));
        }
        let cwd = match mutation {
            WorkspaceMutation::SetWorkingDirectory => target.clone(),
            WorkspaceMutation::AddWorkspaceRoot => self.cwd.clone(),
        };
        Workspace { cwd, workspace_roots }
    }

    /// Tells whether the two workspaces have the same working directory and the same roots.
    pub fn same(&self, other: &Workspace) -> (b: bool)
        ensures
            b == self@.same(other@),
    {
        self.cwd.same(&other.cwd) && are_same_paths(&self.workspace_roots, &other.workspace_roots)
    }
}

/// A mutation keeps every root in its place and adds at most the target, at the end.
pub proof fn law_roots_are_kept(workspace: WorkspaceView, mutation: WorkspaceMutation, target: PathView)
    ensures
        workspace.workspace_roots.is_prefix_of(workspace.after(mutation, target).workspace_roots),
        workspace.after(mutation, target).workspace_roots.len() <= workspace.workspace_roots.len()
            + 1,
{
    let next = workspace.after(mutation, target);
    assert(next.workspace_roots.subrange(0, workspace.workspace_roots.len() as int)
        =~= workspace.workspace_roots);
}

/// After a mutation the target is covered by a workspace root, and so is whatever was covered
/// before.
pub proof fn law_target_is_covered(
    workspace: WorkspaceView,
    mutation: WorkspaceMutation,
    target: PathView,
    other: PathView,
)
    ensures
        covered(workspace.after(mutation, target).workspace_roots, target),
        covered(workspace.workspace_roots, other) ==> covered(
            workspace.after(mutation, target).workspace_roots,
            other,
        ),
{
    let next = workspace.after(mutation, target).workspace_roots;
    law_starts_with_is_a_partial_order(target, target, target);
    if !covered(workspace.workspace_roots, target) {
        assert(next.last() == target);
    }
    if covered(workspace.workspace_roots, other) {
        let i = choose|i: int|
            0 <= i < workspace.workspace_roots.len() && other.starts_with(
                #[trigger] workspace.workspace_roots[i],
            );
        assert(next[i] == workspace.workspace_roots[i]);
    }
}

/// Setting the working directory leads there; adding a workspace root never moves the working
/// directory.
pub proof fn law_working_directory(workspace: WorkspaceView, target: PathView)
    ensures
        workspace.after(WorkspaceMutation::SetWorkingDirectory, target).cwd == target,
        workspace.after(WorkspaceMutation::AddWorkspaceRoot, target).cwd == workspace.cwd,
{
}

/// The workspace changes exactly when the target was not covered by a root, or a working
/// directory is set that differs from the current one. In particular, adding a root below an
/// existing one changes nothing.
pub proof fn law_change(workspace: WorkspaceView, mutation: WorkspaceMutation, target: PathView)
    ensures
        workspace.after(mutation, target).same(workspace) <==> {
            &&& covered(workspace.workspace_roots, target)
            &&& mutation is SetWorkingDirectory ==> target.same(workspace.cwd)
        },
{
    let next = workspace.after(mutation, target);
    if !covered(workspace.workspace_roots, target) {
        assert(next.workspace_roots.len() != workspace.workspace_roots.len());
    }
}

/// A mutation that is made twice changes nothing the second time.
pub proof fn law_mutation_is_idempotent(
    workspace: WorkspaceView,
    mutation: WorkspaceMutation,
    target: PathView,
)
    ensures
        workspace.after(mutation, target).after(mutation, target) == workspace.after(
            mutation,
            target,
        ),
        workspace.after(mutation, target).after(mutation, target).same(
            workspace.after(mutation, target),
        ),
{
    law_target_is_covered(workspace, mutation, target, target);
}

/// Setting the working directory to a directory leaves the same roots as adding it as a root.
pub proof fn law_mutations_add_the_same_root(workspace: WorkspaceView, target: PathView)
    ensures
        workspace.after(WorkspaceMutation::SetWorkingDirectory, target).workspace_roots
            == workspace.after(WorkspaceMutation::AddWorkspaceRoot, target).workspace_roots,
{
}

/// Two workspaces are the same exactly where their working directories have the same components and
/// their roots do, root by root in the same order.
pub proof fn law_workspaces_are_compared_in_full(workspace: WorkspaceView, other: WorkspaceView)
    ensures
        workspace.same(other) <==> {
            &&& workspace.cwd.components == other.cwd.components
            &&& workspace.workspace_roots.len() == other.workspace_roots.len()
            &&& forall|i: int|
                0 <= i < workspace.workspace_roots.len() ==> (
                #[trigger] workspace.workspace_roots[i]).components
                    == other.workspace_roots[i].components
        },
{
    let roots = workspace.workspace_roots;
    if workspace.same(other) {
        assert forall|i: int| 0 <= i < roots.len() implies (#[trigger] roots[i]).components
            == other.workspace_roots[i].components by {
            assert(roots[i].same(other.workspace_roots[i]));
        }
    }
}

} // verus!
