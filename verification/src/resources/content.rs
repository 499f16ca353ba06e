//! Content of sources: their latest commits and the hashes of their files.
use super::trigger::TriggerGitRepoReference;
use super::trigger_task::{hex_digits, hex_encode};
use crate::error::Error;
use sha2::Digest;
use vstd::prelude::*;

verus! {

/// Full identifier of the Git object that a text denotes in hexadecimal digits, or the reason why
/// it denotes none.
pub uninterp spec fn parsed_oid(text: Seq<char>) -> Result<Seq<char>, Seq<char>>;

/// Reads an object identifier with `git2`'s `Oid::from_str`, and writes it in full. Both the
/// identifier and the text of the error depend on the text alone.
#[verifier::external_body]
fn parse_oid(text: &str) -> (r: Result<String, String>)
    ensures
        match r {
            Ok(oid) => parsed_oid(text@) == Ok::<Seq<char>, Seq<char>>(oid@),
            Err(reason) => parsed_oid(text@) == Err::<Seq<char>, Seq<char>>(reason@),
        },
{
    match git2::Oid::from_str(text) {
        Ok(oid) => Ok(oid.to_string()),
        Err(error) => Err(error.to_string()),
    }
}

/// Search for the latest commit of a reference: what to do next in the repository.
#[derive(Debug)]
pub enum CommitSearch {
    /// Resolve the short name of a reference to the object that it points at.
    Resolve(String),
    /// Find an object.
    Find(String),
    /// Check out the tree of an object that was found.
    Checkout(String),
    /// Nothing: the search is over.
    Done(Result<String, Error>),
}

/// What came of a step of the search.
#[derive(Debug)]
pub enum CommitOutcome {
    /// The reference was resolved. It points at the object, unless it is symbolic.
    Resolved(Option<String>),
    /// The object was found or checked out.
    Succeeded,
    /// The step failed, for the given reason.
    Failed(String),
}

/// Starts the search for the latest commit of a reference. A branch is looked up at the remote
/// `origin`, a tag by its name, and a commit is itself the answer if there is such an object.
pub fn get_latest_commit(reference: &TriggerGitRepoReference) -> (r: CommitSearch)
    ensures
        match *reference {
            TriggerGitRepoReference::Branch(name) => r matches CommitSearch::Resolve(short_name)
                && short_name@ == "origin/"@ + name@,
            TriggerGitRepoReference::Tag(name) => r == CommitSearch::Resolve(name),
            TriggerGitRepoReference::Commit(hash) => match parsed_oid(hash@) {
                Ok(oid) => r matches CommitSearch::Find(o) && o@ == oid,
                Err(reason) => r matches CommitSearch::Done(Err(Error::GitrepoAccessError(text)))
                    && text@ == reason,
            },
        },
{
    match reference {
        TriggerGitRepoReference::Branch(name) => CommitSearch::Resolve(
            "origin/".to_owned().concat(name.as_str()),
        ),
        TriggerGitRepoReference::Tag(name) => CommitSearch::Resolve(name.clone()),
        TriggerGitRepoReference::Commit(hash) => commit_search_from_oid(parse_oid(hash.as_str())),
    }
}

/// Search for a commit that is given by its identifier.
pub fn commit_search_from_oid(oid: Result<String, String>) -> (r: CommitSearch)
    ensures
        r == match oid {
            Ok(o) => CommitSearch::Find(o),
            Err(reason) => CommitSearch::Done(Err(Error::GitrepoAccessError(reason))),
        },
{
    match oid {
        Ok(o) => CommitSearch::Find(o),
        Err(reason) => CommitSearch::Done(Err(Error::GitrepoAccessError(reason))),
    }
}

impl CommitSearch {
    /// The outcome is one of this step.
    pub open spec fn expects(self, outcome: CommitOutcome) -> bool {
        match self {
            CommitSearch::Resolve(_) => outcome is Failed || (outcome matches CommitOutcome::Resolved(
                target,
            ) && target is Some),
            CommitSearch::Find(_) => outcome is Failed || outcome is Succeeded,
            CommitSearch::Checkout(_) => outcome is Failed || outcome is Succeeded,
            CommitSearch::Done(_) => false,
        }
    }

    /// Next step of the search. A failure ends it. An object that was found is checked out, and
    /// then it is the latest commit.
    pub fn advance(self, outcome: CommitOutcome) -> (r: CommitSearch)
        requires
            self.expects(outcome),
        ensures
            r == match outcome {
                CommitOutcome::Failed(reason) => CommitSearch::Done(
                    Err(Error::GitrepoAccessError(reason)),
                ),
                CommitOutcome::Resolved(target) => CommitSearch::Find(target->0),
                CommitOutcome::Succeeded => match self {
                    CommitSearch::Find(oid) => CommitSearch::Checkout(oid),
                    CommitSearch::Checkout(oid) => CommitSearch::Done(Ok(oid)),
                    _ => self,
                },
            },
    {
        match outcome {
            CommitOutcome::Failed(reason) => CommitSearch::Done(
                Err(Error::GitrepoAccessError(reason)),
            ),
            CommitOutcome::Resolved(target) => match target {
                Some(oid) => CommitSearch::Find(oid),
                None => self,
            },
            CommitOutcome::Succeeded => match self {
                CommitSearch::Find(oid) => CommitSearch::Checkout(oid),
                CommitSearch::Checkout(oid) => CommitSearch::Done(Ok(oid)),
                other => other,
            },
        }
    }
}

/// SHA-256 digest of bytes.
pub uninterp spec fn sha256(data: Seq<u8>) -> Seq<u8>;

/// Calculates a digest with `sha2`'s `Sha256::digest`. It has 32 bytes and depends on the data
/// alone.
#[verifier::external_body]
fn sha256_digest(data: &Vec<u8>) -> (r: Vec<u8>)
    ensures
        r@ == sha256(data@),
        r@.len() == 32,
{
    sha2::Sha256::digest(data).to_vec()
}

/// Hash of the content of a file.
pub fn calc_buffer_hash(buf: &Vec<u8>) -> (r: Result<Vec<u8>, Error>)
    ensures
        r matches Ok(hash) && hash@ == sha256(buf@) && hash@.len() == 32,
{
    Ok(sha256_digest(buf))
}

/// Hash of the content of a file, in hexadecimal digits.
pub fn get_file_hash(content: &Vec<u8>) -> (r: String)
    ensures
        r@ == hex_digits(sha256(content@)),
{
    hex_encode(&sha256_digest(content))
}

/// Hashes of the contents of files, one after the other.
pub open spec fn joined_hashes(contents: Seq<Result<Vec<u8>, Error>>) -> Seq<u8>
    decreases contents.len(),
{
    if contents.len() == 0 {
        Seq::empty()
    } else {
        joined_hashes(contents.drop_last()) + sha256(contents.last()->Ok_0@)
    }
}

/// No file before the position failed.
pub open spec fn all_read(contents: Seq<Result<Vec<u8>, Error>>, end: int) -> bool {
    forall|i: int| 0 <= i < end ==> (#[trigger] contents[i]) is Ok
}

/// Hash of the files of a folder: of the hashes of their contents, in the order of the walk through
/// the folder. The first file that couldn't be read gives the error.
pub fn get_file_glob_hash(contents: Vec<Result<Vec<u8>, Error>>) -> (r: Result<Vec<u8>, Error>)
    ensures
        match r {
            Ok(hash) => all_read(contents@, contents@.len() as int) && hash@ == sha256(
                joined_hashes(contents@),
            ),
            Err(e) => exists|i: int|
                0 <= i < contents@.len() && all_read(contents@, i) && #[trigger] contents@[i]
                    == Err::<Vec<u8>, Error>(e),
        },
{
    let mut rest = contents;
    let mut joined: Vec<u8> = Vec::new();
    let ghost mut done: int = 0;
    assert(contents@.take(0) == Seq::<Result<Vec<u8>, Error>>::empty());
    assert(contents@.skip(0) == contents@);
    while rest.len() > 0
        invariant
            0 <= done <= contents@.len(),
            rest@ == contents@.skip(done),
            all_read(contents@, done),
            joined@ == joined_hashes(contents@.take(done)),
        decreases rest.len(),
    {
        let content = rest.remove(0);
        assert(content == contents@[done]);
        assert(rest@ =~= contents@.skip(done + 1));
        match content {
            Ok(buf) => {
                let mut hash = sha256_digest(&buf);
                joined.append(&mut hash);
                proof {
                    let prefix = contents@.take(done + 1);
                    assert(prefix.drop_last() =~= contents@.take(done));
                    assert(prefix.last() == contents@[done]);
                    done = done + 1;
                }
            },
            Err(e) => {
                return Err(e);
            },
        }
    }
    assert(contents@.take(done) =~= contents@);
    Ok(sha256_digest(&joined))
}

} // verus!
