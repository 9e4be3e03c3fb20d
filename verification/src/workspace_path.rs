//! Absolute paths as the workspace rules see them.
use std::path::PathBuf;
use vstd::prelude::*;

verus! {

/// `std::path::PathBuf`, carried through without being looked into.
#[verifier::external_type_specification]
#[verifier::external_body]
pub struct ExPathBuf(std::path::PathBuf);

/// `<PathBuf as Clone>::clone`: the copy is the same path.
pub assume_specification[ <PathBuf as Clone>::clone ](path: &PathBuf) -> (copy: PathBuf)
    ensures
        copy == *path,
;

/// An absolute path.
///
/// `components` are the path's components in order, each as bytes that are equal exactly where the
/// components are, `display` is the path as it is shown to people, and `native` is the path itself,
/// for the host to use.
pub struct WorkspacePath {
    pub native: PathBuf,
    pub components: Vec<Vec<u8>>,
    pub display: String,
}

/// What a [`WorkspacePath`] holds.
#[verifier::ext_equal]
pub struct PathView {
    pub native: PathBuf,
    pub components: Seq<Seq<u8>>,
    pub display: Seq<char>,
}

impl View for WorkspacePath {
    type V = PathView;

    open spec fn view(&self) -> PathView {
        PathView {
            native: self.native,
            components: self.components.deep_view(),
            display: self.display@,
        }
    }
}

impl DeepView for WorkspacePath {
    type V = PathView;

    open spec fn deep_view(&self) -> PathView {
        self@
    }
}

impl PathView {
    /// Two paths are the same when their components are.
    pub open spec fn same(self, other: PathView) -> bool {
        self.components == other.components
    }

    /// The path lies at or below `base`: whole components only.
    pub open spec fn starts_with(self, base: PathView) -> bool {
        base.components.is_prefix_of(self.components)
    }
}

/// Two lists name the same paths in the same order.
pub open spec fn same_paths(a: Seq<PathView>, b: Seq<PathView>) -> bool {
    &&& a.len() == b.len()
    &&& forall|i: int| 0 <= i < a.len() ==> (#[trigger] a[i]).same(b[i])
}

/// Some path of `roots` is `path` or an ancestor of it.
pub open spec fn covered(roots: Seq<PathView>, path: PathView) -> bool {
    exists|i: int| 0 <= i < roots.len() && path.starts_with(#[trigger] roots[i])
}

fn same_bytes(a: &Vec<u8>, b: &Vec<u8>) -> (same: bool)
    ensures
        same == (a.deep_view() == b.deep_view()),
{
    let ghost left = a.deep_view();
    let ghost right = b.deep_view();
    assert(left.len() == a.len() && right.len() == b.len());
    if a.len() != b.len() {
        return false;
    }
    let mut i: usize = 0;
    while i < a.len()
        invariant
            i <= a.len() == b.len(),
            left == a.deep_view(),
            right == b.deep_view(),
            forall|j: int| 0 <= j < i ==> #[trigger] left[j] == right[j],
        decreases a.len() - i,
    {
        assert(left[i as int] == a@[i as int] && right[i as int] == b@[i as int]);
        if a[i] != b[i] {
            return false;
        }
        i += 1;
    }
    assert(left =~= right);
    true
}

impl Clone for WorkspacePath {
    fn clone(&self) -> (copy: Self)
        ensures
            copy@ == self@,
    {
        let components = self.components.clone();
        let copy = WorkspacePath {
            native: self.native.clone(),
            components,
            display: self.display.clone(),
        };
        assert(copy@.components =~~= self@.components);
        copy
    }
}

impl WorkspacePath {
    /// Tells whether the two paths are the same.
    pub fn same(&self, other: &WorkspacePath) -> (b: bool)
        ensures
            b == self@.same(other@),
    {
        proof {
            assert(self@.components.len() == self.components.len());
            assert(other@.components.len() == other.components.len());
            if self.components.len() == other.components.len() {
                assert(self@.components =~= self@.components.subrange(
                    0,
                    other@.components.len() as int,
                ));
            }
        }
        self.components.len() == other.components.len() && self.starts_with(other)
    }

    /// Tells whether the path lies at or below `base`.
    pub fn starts_with(&self, base: &WorkspacePath) -> (b: bool)
        ensures
            b == self@.starts_with(base@),
    {
        let len: usize = base.components.len();
        if self.components.len() < len {
            return false;
        }
        let mut i: usize = 0;
        while i < len
            invariant
                i <= len == base.components.len() <= self.components.len(),
                forall|j: int|
                    0 <= j < i ==> self@.components[j] == #[trigger] base@.components[j],
            decreases len - i,
        {
            if !same_bytes(&self.components[i], &base.components[i]) {
                assert(self@.components.subrange(0, len as int)[i as int]
                    == self@.components[i as int]);
                assert(self@.components[i as int] != base@.components[i as int]);
                return false;
            }
            i += 1;
        }
        assert(self@.components.subrange(0, len as int) =~= base@.components);
        true
    }
}

/// Copies a list of paths.
pub fn clone_paths(paths: &Vec<WorkspacePath>) -> (copy: Vec<WorkspacePath>)
    ensures
        copy.deep_view() == paths.deep_view(),
{
    let mut copy: Vec<WorkspacePath> = Vec::new();
    let mut i: usize = 0;
    while i < paths.len()
        invariant
            i <= paths.len(),
            copy.len() == i,
            forall|j: int| 0 <= j < i ==> (#[trigger] copy@[j])@ == paths@[j]@,
        decreases paths.len() - i,
    {
        copy.push(paths[i].clone());
        i += 1;
    }
    assert(copy.deep_view() =~= paths.deep_view());
    copy
}

/// Tells whether some path of `roots` is `path` or an ancestor of it.
pub fn is_covered(roots: &Vec<WorkspacePath>, path: &WorkspacePath) -> (b: bool)
    ensures
        b == covered(roots.deep_view(), path@),
{
    let ghost views = roots.deep_view();
    let mut i: usize = 0;
    while i < roots.len()
        invariant
            i <= roots.len(),
            views == roots.deep_view(),
            forall|j: int| 0 <= j < i ==> !path@.starts_with(#[trigger] views[j]),
        decreases roots.len() - i,
    {
        assert(views[i as int] == roots@[i as int]@);
        if path.starts_with(&roots[i]) {
            return true;
        }
        i += 1;
    }
    false
}

/// Tells whether two lists name the same paths in the same order.
pub fn are_same_paths(a: &Vec<WorkspacePath>, b: &Vec<WorkspacePath>) -> (same: bool)
    ensures
        same == same_paths(a.deep_view(), b.deep_view()),
{
    let ghost left = a.deep_view();
    let ghost right = b.deep_view();
    if a.len() != b.len() {
        return false;
    }
    let mut i: usize = 0;
    while i < a.len()
        invariant
            i <= a.len() == b.len(),
            left == a.deep_view(),
            right == b.deep_view(),
            forall|j: int| 0 <= j < i ==> (#[trigger] left[j]).same(right[j]),
        decreases a.len() - i,
    {
        assert(left[i as int] == a@[i as int]@ && right[i as int] == b@[i as int]@);
        if !a[i].same(&b[i]) {
            return false;
        }
        i += 1;
    }
    true
}

/// Lying at or below is a partial order on paths, taken up to sameness.
pub proof fn law_starts_with_is_a_partial_order(a: PathView, b: PathView, c: PathView)
    ensures
        a.starts_with(a),
        a.starts_with(b) && b.starts_with(c) ==> a.starts_with(c),
        a.starts_with(b) && b.starts_with(a) ==> a.same(b),
{
    assert(a.components =~= a.components.subrange(0, a.components.len() as int));
    if a.starts_with(b) && b.starts_with(c) {
        assert(a.components.subrange(0, c.components.len() as int) =~= b.components.subrange(
            0,
            c.components.len() as int,
        ));
    }
    if a.starts_with(b) && b.starts_with(a) {
        assert(a.components =~= a.components.subrange(0, b.components.len() as int));
    }
}

/// Paths are the same exactly where their components are, one by one, and one lies at or below
/// another exactly where it is that path followed by more components, or by none. How a path is
/// shown or held makes no difference.
pub proof fn law_paths_are_compared_by_components(path: PathView, base: PathView, rest: Seq<Seq<u8>>)
    ensures
        path.same(base) <==> {
            &&& path.components.len() == base.components.len()
            &&& forall|i: int|
                0 <= i < path.components.len() ==> #[trigger] path.components[i]
                    == base.components[i]
        },
        path.components == base.components + rest ==> path.starts_with(base),
        path.starts_with(base) ==> path.components == base.components + path.components.skip(
            base.components.len() as int,
        ),
{
    if path.components.len() == base.components.len() && forall|i: int|
        0 <= i < path.components.len() ==> #[trigger] path.components[i] == base.components[i] {
        assert(path.components =~= base.components);
    }
    if path.components == base.components + rest {
        assert(path.components.subrange(0, base.components.len() as int) =~= base.components);
    }
    if path.starts_with(base) {
        assert(path.components =~= base.components + path.components.skip(
            base.components.len() as int,
        ));
    }
}

/// A path is covered exactly where some root of the list, whichever place it has, is that path or an
/// ancestor of it.
pub proof fn law_any_root_covers(roots: Seq<PathView>, others: Seq<PathView>, path: PathView, root: PathView)
    ensures
        path.starts_with(root) ==> covered(roots.push(root) + others, path),
        !path.starts_with(root) ==> (covered(roots.push(root) + others, path) <==> covered(
            roots,
            path,
        ) || covered(others, path)),
        !covered(seq![], path),
{
    let all = roots.push(root) + others;
    assert(all[roots.len() as int] == root);
    assert forall|i: int| 0 <= i < roots.len() implies all[i] == #[trigger] roots[i] by {}
    assert forall|i: int| 0 <= i < others.len() implies all[roots.len() + 1 + i]
        == #[trigger] others[i] by {}
    if covered(roots, path) {
        let i = choose|i: int| 0 <= i < roots.len() && path.starts_with(#[trigger] roots[i]);
        assert(path.starts_with(all[i]));
    }
    if covered(others, path) {
        let i = choose|i: int| 0 <= i < others.len() && path.starts_with(#[trigger] others[i]);
        assert(path.starts_with(all[roots.len() + 1 + i]));
    }
    if covered(all, path) && !path.starts_with(root) {
        let i = choose|i: int| 0 <= i < all.len() && path.starts_with(#[trigger] all[i]);
        if i < roots.len() {
            assert(path.starts_with(roots[i]));
        } else {
            assert(i != roots.len());
            assert(path.starts_with(others[i - roots.len() - 1]));
        }
    }
}

} // verus!
