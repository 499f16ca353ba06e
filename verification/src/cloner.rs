//! Cloner: fetches the source of an action into its folder.
use crate::resources::trigger::{TriggerGitRepoReference, TriggerSourceKind};
use vstd::prelude::*;

verus! {

/// Reference to clone, by what it is. One of them is given.
#[derive(Debug)]
pub struct ReferenceValue {
    /// Branch.
    pub branch: Option<String>,
    /// Tag.
    pub tag: Option<String>,
    /// Hash of a commit.
    pub commit: Option<String>,
}

/// The reference is the one that is given.
pub open spec fn is_reference_of(value: ReferenceValue, reference: TriggerGitRepoReference) -> bool {
    reference == value.reference()
}

/// The name is that of the reference that is given.
pub open spec fn is_name_of(value: ReferenceValue, name: Seq<char>) -> bool {
    name == value.reference().ref_name()
}

impl ReferenceValue {
    /// One of them is given.
    pub open spec fn given(self) -> bool {
        self.branch is Some || self.tag is Some || self.commit is Some
    }

    /// The reference: the branch if there is one, otherwise the tag if there is one, otherwise the
    /// commit.
    pub open spec fn reference(self) -> TriggerGitRepoReference {
        match (self.branch, self.tag, self.commit) {
            (Some(branch), _, _) => TriggerGitRepoReference::Branch(branch),
            (None, Some(tag), _) => TriggerGitRepoReference::Tag(tag),
            (None, None, commit) => TriggerGitRepoReference::Commit(commit->0),
        }
    }

    /// The reference.
    pub fn to_reference(&self) -> (r: TriggerGitRepoReference)
        requires
            self.given(),
        ensures
            is_reference_of(*self, r),
    {
        if let Some(branch) = &self.branch {
            TriggerGitRepoReference::Branch(branch.clone())
        } else if let Some(tag) = &self.tag {
            TriggerGitRepoReference::Tag(tag.clone())
        } else {
            TriggerGitRepoReference::Commit(self.commit.as_ref().unwrap().clone())
        }
    }

    /// Name of the reference.
    pub fn to_name(&self) -> (r: String)
        requires
            self.given(),
        ensures
            is_name_of(*self, r@),
    {
        if let Some(branch) = &self.branch {
            branch.clone()
        } else if let Some(tag) = &self.tag {
            tag.clone()
        } else {
            self.commit.as_ref().unwrap().clone()
        }
    }
}

/// The name that is fetched and the reference that is checked out agree, whatever is given: both are
/// the branch's if there is one, otherwise the tag's if there is one, otherwise the commit's.
pub proof fn law_name_and_reference_agree(value: ReferenceValue, name: Seq<char>, reference: TriggerGitRepoReference)
    requires
        value.given(),
        is_name_of(value, name),
        is_reference_of(value, reference),
    ensures
        name == reference.ref_name(),
        name == match (value.branch, value.tag, value.commit) {
            (Some(branch), _, _) => branch@,
            (None, Some(tag), _) => tag@,
            (None, None, commit) => commit->0@,
        },
        value.branch is Some ==> reference is Branch,
        value.branch is None && value.tag is Some ==> reference is Tag,
        value.branch is None && value.tag is None ==> reference is Commit,
{
}

/// What to clone, and where to.
#[derive(Debug)]
pub struct CloneTask {
    /// Kind of the source.
    pub source_kind: TriggerSourceKind,
    /// Name of the source.
    pub source_name: String,
    /// Reference to clone.
    pub reference: ReferenceValue,
    /// Folder to clone to.
    pub destination: String,
    /// The folder of Git is left there.
    pub preserve_git_folder: bool,
}

impl CloneTask {
    /// Namespace to look the source up in, if its kind has one.
    pub fn source_namespace(&self, namespace: &String) -> (r: Option<String>)
        ensures
            r == match self.source_kind {
                TriggerSourceKind::GitRepo => Some(*namespace),
                TriggerSourceKind::ClusterGitRepo => None,
            },
    {
        match self.source_kind {
            TriggerSourceKind::GitRepo => Some(namespace.clone()),
            TriggerSourceKind::ClusterGitRepo => None,
        }
    }

    /// Full name of the source.
    pub fn repo_name(&self, namespace: &String) -> (r: String)
        ensures
            r@ == match self.source_kind {
                TriggerSourceKind::GitRepo => namespace@ + "/"@ + self.source_name@,
                TriggerSourceKind::ClusterGitRepo => self.source_name@,
            },
    {
        match self.source_kind {
            TriggerSourceKind::GitRepo => namespace.clone().concat("/").concat(
                self.source_name.as_str(),
            ),
            TriggerSourceKind::ClusterGitRepo => self.source_name.clone(),
        }
    }

    /// Folder to remove once the source is there, if one has to be.
    pub fn folder_to_remove(&self) -> (r: Option<String>)
        ensures
            if self.preserve_git_folder {
                r is None
            } else {
                r matches Some(path) && path@ == self.destination@ + "/.git"@
            },
    {
        if self.preserve_git_folder {
            None
        } else {
            Some(self.destination.clone().concat("/.git"))
        }
    }
}

} // verus!
