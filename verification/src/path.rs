//! Paths, taken apart by the system that they belong to.

use crate::bytes;
use vstd::prelude::*;

verus! {

/// One step of a path, as the rules of the system divide it. Names are kept as bytes, in an
/// encoding of the system, whether or not they are text.
#[derive(Debug)]
pub enum PathComponent {
    /// What stands before the root, such as a drive.
    Prefix(Vec<u8>),
    /// The root directory.
    RootDir,
    /// The current directory.
    CurDir,
    /// The directory above.
    ParentDir,
    /// A name.
    Normal(Vec<u8>),
}

/// [`PathComponent`] over byte sequences.
pub enum ComponentView {
    Prefix(Seq<u8>),
    RootDir,
    CurDir,
    ParentDir,
    Normal(Seq<u8>),
}

impl DeepView for PathComponent {
    type V = ComponentView;

    open spec fn deep_view(&self) -> ComponentView {
        match self {
            PathComponent::Prefix(name) => ComponentView::Prefix(name@),
            PathComponent::RootDir => ComponentView::RootDir,
            PathComponent::CurDir => ComponentView::CurDir,
            PathComponent::ParentDir => ComponentView::ParentDir,
            PathComponent::Normal(name) => ComponentView::Normal(name@),
        }
    }
}

impl Clone for PathComponent {
    fn clone(&self) -> (copy: Self)
        ensures
            copy.deep_view() == self.deep_view(),
    {
        match self {
            PathComponent::Prefix(name) => PathComponent::Prefix(name.clone()),
            PathComponent::RootDir => PathComponent::RootDir,
            PathComponent::CurDir => PathComponent::CurDir,
            PathComponent::ParentDir => PathComponent::ParentDir,
            PathComponent::Normal(name) => PathComponent::Normal(name.clone()),
        }
    }
}

/// Whether two components are the same step.
fn same_component(a: &PathComponent, b: &PathComponent) -> (same: bool)
    ensures
        same == (a.deep_view() == b.deep_view()),
{
    match (a, b) {
        (PathComponent::Prefix(a), PathComponent::Prefix(b)) => bytes::bytes_equal(a, b),
        (PathComponent::RootDir, PathComponent::RootDir) => true,
        (PathComponent::CurDir, PathComponent::CurDir) => true,
        (PathComponent::ParentDir, PathComponent::ParentDir) => true,
        (PathComponent::Normal(a), PathComponent::Normal(b)) => bytes::bytes_equal(a, b),
        _ => false,
    }
}

/// A path. Its spelling is carried along untouched; its components are what tells it apart
/// from other paths.
#[derive(Debug)]
pub struct GitPath {
    /// The path as it was given, in an encoding of the system.
    pub spelling: Vec<u8>,
    /// The steps that the system divides the path into.
    pub components: Vec<PathComponent>,
}

/// [`GitPath`] over sequences.
pub struct PathView {
    pub spelling: Seq<u8>,
    pub components: Seq<ComponentView>,
}

impl DeepView for GitPath {
    type V = PathView;

    open spec fn deep_view(&self) -> PathView {
        PathView { spelling: self.spelling@, components: self.components.deep_view() }
    }
}

impl Clone for GitPath {
    fn clone(&self) -> (copy: Self)
        ensures
            copy.deep_view() == self.deep_view(),
    {
        let components = self.components.clone();
        assert(components.deep_view() =~= self.components.deep_view());
        GitPath { spelling: self.spelling.clone(), components }
    }
}

/// Whether two paths take the same steps, however they are spelled.
pub open spec fn same_path(a: PathView, b: PathView) -> bool {
    a.components == b.components
}

impl GitPath {
    /// Whether this path and `other` take the same steps.
    pub fn same_as(&self, other: &GitPath) -> (same: bool)
        ensures
            same == same_path(self.deep_view(), other.deep_view()),
    {
        let ours = &self.components;
        let theirs = &other.components;
        if ours.len() != theirs.len() {
            assert(ours.deep_view().len() != theirs.deep_view().len());
            return false;
        }
        let mut i: usize = 0;
        while i < ours.len()
            invariant
                *ours == self.components,
                *theirs == other.components,
                i <= ours.len(),
                ours.len() == theirs.len(),
                forall|j: int| 0 <= j < i ==> ours.deep_view()[j] == theirs.deep_view()[j],
            decreases ours.len() - i,
        {
            if !same_component(&ours[i], &theirs[i]) {
                assert(ours.deep_view()[i as int] != theirs.deep_view()[i as int]);
                return false;
            }
            i = i + 1;
        }
        assert(ours.deep_view() =~= theirs.deep_view());
        true
    }

    /// The file that is called `name` in this directory.
    pub fn file(&self, name: &str) -> (file: GitFile)
        ensures
            file.deep_view() == file_in(self.deep_view(), name@),
    {
        GitFile { dir: self.clone(), name: name.to_string() }
    }
}

impl PartialEq for GitPath {
    fn eq(&self, other: &Self) -> (equal: bool) {
        self.same_as(other)
    }
}

impl vstd::std_specs::cmp::PartialEqSpecImpl for GitPath {
    open spec fn obeys_eq_spec() -> bool {
        true
    }

    open spec fn eq_spec(&self, other: &Self) -> bool {
        same_path(self.deep_view(), other.deep_view())
    }
}

impl Eq for GitPath {

}

/// A file in a directory. How the name is joined to the directory is up to the system.
#[derive(Debug, PartialEq, Eq)]
pub struct GitFile {
    pub dir: GitPath,
    pub name: String,
}

/// [`GitFile`] over sequences.
pub struct FileView {
    pub dir: PathView,
    pub name: Seq<char>,
}

impl DeepView for GitFile {
    type V = FileView;

    open spec fn deep_view(&self) -> FileView {
        FileView { dir: self.dir.deep_view(), name: self.name@ }
    }
}

impl Clone for GitFile {
    fn clone(&self) -> (copy: Self)
        ensures
            copy.deep_view() == self.deep_view(),
    {
        GitFile { dir: self.dir.clone(), name: self.name.clone() }
    }
}

/// The file that is called `name` in the directory `dir`.
pub open spec fn file_in(dir: PathView, name: Seq<char>) -> FileView {
    FileView { dir, name }
}

} // verus!
