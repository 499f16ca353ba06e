//! Custom resources.
pub mod action;
pub mod certificate;
pub mod content;
pub mod git_repo;
pub mod interval;
pub mod trigger;
pub mod trigger_task;

use crate::text::{copy_opt, opt_view};
use rand::Rng;
use vstd::prelude::*;

verus! {

/// API group of the custom resources.
pub const API_GROUP: &'static str = "git-events-runner.rs";

/// Version of the custom resources.
pub const CURRENT_API_VERSION: &'static str = "v1alpha1";

/// Part of a resource's metadata that is used here.
#[derive(Debug)]
pub struct ObjectMeta {
    /// Name of the resource.
    pub name: Option<String>,
    /// Prefix of a name that the cluster completes.
    pub generate_name: Option<String>,
    /// Namespace of the resource. Cluster-wide resources have none.
    pub namespace: Option<String>,
    /// Unique identifier of the resource.
    pub uid: Option<String>,
}

impl Clone for ObjectMeta {
    fn clone(&self) -> (r: Self)
        ensures
            r == *self,
    {
        ObjectMeta {
            name: copy_opt(&self.name),
            generate_name: copy_opt(&self.generate_name),
            namespace: copy_opt(&self.namespace),
            uid: copy_opt(&self.uid),
        }
    }
}

impl ObjectMeta {
    /// Best name that the resource has: its name, the prefix of its name, or an empty string.
    pub open spec fn any_name(self) -> Seq<char> {
        match (self.name, self.generate_name) {
            (Some(name), _) => name@,
            (None, Some(prefix)) => prefix@,
            (None, None) => Seq::<char>::empty(),
        }
    }

    /// Best name that the resource has.
    pub fn name_any(&self) -> (r: String)
        ensures
            r@ == self.any_name(),
    {
        match &self.name {
            Some(name) => name.clone(),
            None => match &self.generate_name {
                Some(prefix) => prefix.clone(),
                None => String::new(),
            },
        }
    }

    /// Metadata of a resource with a name and a namespace.
    pub fn named(name: &str, namespace: Option<String>) -> (r: ObjectMeta)
        ensures
            opt_view(r.name) == Some(name@),
            r.namespace == namespace,
            r.generate_name is None,
            r.uid is None,
    {
        ObjectMeta { name: Some(name.to_owned()), generate_name: None, namespace, uid: None }
    }
}

/// Resource with a kind of its own.
pub trait CustomApiResource {
    /// Name of the kind.
    spec fn kind_name() -> Seq<char>;

    /// Names the kind.
    fn crd_kind() -> (r: &'static str)
        ensures
            r@ == Self::kind_name(),
    ;
}

/// The character is a letter or a digit of ASCII.
pub open spec fn is_alphanumeric(c: char) -> bool {
    ('a' <= c && c <= 'z') || ('A' <= c && c <= 'Z') || ('0' <= c && c <= '9')
}

/// Draws a character with `rand`: one sample of `distributions::Alphanumeric` from `thread_rng`,
/// which is a letter or a digit of ASCII. Which one is left to chance.
#[verifier::external_body]
fn random_alphanumeric() -> (c: char)
    ensures
        is_alphanumeric(c),
{
    char::from(rand::thread_rng().sample(rand::distributions::Alphanumeric))
}

/// Random string of letters and digits.
pub fn random_string(len: usize) -> (r: String)
    ensures
        r@.len() == len,
        forall|i: int| 0 <= i < len ==> is_alphanumeric(#[trigger] r@[i]),
{
    let mut r = String::new();
    for i in 0..len
        invariant
            r@.len() == i,
            forall|j: int| 0 <= j < i ==> is_alphanumeric(#[trigger] r@[j]),
    {
        r.push(random_alphanumeric());
    }
    r
}

} // verus!
