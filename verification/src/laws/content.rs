//! Content of sources and certificates of servers.
use crate::cloner::{CloneTask, ReferenceValue};
use crate::error::Error;
use crate::resources::certificate::{
    names_server, own_ca_check, own_ca_verdict, pem_certs, roots_usable, roots_verify, CertificateVerdict,
};
use crate::resources::content::{
    calc_buffer_hash, commit_search_from_oid, get_file_glob_hash, get_file_hash, get_latest_commit,
    parsed_oid, sha256,
    CommitOutcome, CommitSearch,
};
use crate::resources::git_repo::CertificateCheck;
use crate::resources::trigger::{TriggerGitRepoReference, TriggerSourceKind};
use crate::resources::trigger_task::hex_digits;
use vstd::prelude::*;

verus! {

/// A branch is looked for at the remote, a tag under its name, and a commit by its identifier.
pub proof fn law_latest_commit_is_looked_for(reference: &TriggerGitRepoReference, r: CommitSearch)
    requires
        call_ensures(get_latest_commit, (reference,), r),
    ensures
        match *reference {
            TriggerGitRepoReference::Branch(name) => r matches CommitSearch::Resolve(text) && text@ == "origin/"@
                + name@,
            TriggerGitRepoReference::Tag(name) => r matches CommitSearch::Resolve(text) && text@ == name@,
            TriggerGitRepoReference::Commit(hash) => match parsed_oid(hash@) {
                Ok(oid) => r matches CommitSearch::Find(text) && text@ == oid,
                Err(reason) => r matches CommitSearch::Done(Err(Error::GitrepoAccessError(text))) && text@
                    == reason,
            },
        },
{
}

/// An identifier that can't be read ends the search.
pub proof fn law_commit_is_looked_for_by_its_identifier(oid: Result<String, String>, r: CommitSearch)
    requires
        call_ensures(commit_search_from_oid, (oid,), r),
    ensures
        oid matches Ok(id) ==> r == CommitSearch::Find(id),
        oid matches Err(reason) ==> r == CommitSearch::Done(Err(Error::GitrepoAccessError(reason))),
{
}

/// What a reference points at is looked for, then checked out, and is then the latest commit. Any failure
/// ends the search with its reason.
pub proof fn law_found_commit_is_checked_out(search: CommitSearch, outcome: CommitOutcome, r: CommitSearch)
    requires
        call_ensures(CommitSearch::advance, (search, outcome), r),
    ensures
        outcome matches CommitOutcome::Failed(reason) ==> r == CommitSearch::Done(
            Err(Error::GitrepoAccessError(reason)),
        ),
        outcome matches CommitOutcome::Resolved(Some(id)) ==> r == CommitSearch::Find(id),
        (search matches CommitSearch::Find(id) && outcome is Succeeded) ==> r == CommitSearch::Checkout(
            search->Find_0,
        ),
        (search matches CommitSearch::Checkout(id) && outcome is Succeeded) ==> r == CommitSearch::Done(
            Ok(search->Checkout_0),
        ),
{
}

/// The latest commit that a search gives is the one that was found.
pub proof fn law_search_gives_what_was_found(
    id: String,
    r1: CommitSearch,
    r2: CommitSearch,
    r3: CommitSearch,
    start: CommitSearch,
)
    requires
        start is Resolve,
        call_ensures(CommitSearch::advance, (start, CommitOutcome::Resolved(Some(id))), r1),
        call_ensures(CommitSearch::advance, (r1, CommitOutcome::Succeeded), r2),
        call_ensures(CommitSearch::advance, (r2, CommitOutcome::Succeeded), r3),
    ensures
        r3 == CommitSearch::Done(Ok(id)),
{
}

/// Files are hashed by their content.
pub proof fn law_files_are_hashed(
    content: &Vec<u8>,
    hash: Result<Vec<u8>, Error>,
    text: String,
)
    requires
        call_ensures(calc_buffer_hash, (content,), hash),
        call_ensures(get_file_hash, (content,), text),
    ensures
        hash matches Ok(bytes) && bytes@ == sha256(content@) && bytes@.len() == 32 && text@ == hex_digits(bytes@),
{
}

/// Hashes of files, one behind the other.
pub open spec fn hashes_of(contents: Seq<Vec<u8>>) -> Seq<u8>
    decreases contents.len(),
{
    if contents.len() == 0 {
        Seq::empty()
    } else {
        hashes_of(contents.drop_last()) + sha256(contents.last()@)
    }
}

/// The hash of files is the hash of their hashes, in their order, and depends on nothing else.
pub proof fn law_hash_of_files_is_the_hash_of_their_hashes(
    contents: Vec<Result<Vec<u8>, Error>>,
    files: Seq<Vec<u8>>,
    r: Result<Vec<u8>, Error>,
)
    requires
        call_ensures(get_file_glob_hash, (contents,), r),
        files.len() == contents@.len(),
        forall|i: int| 0 <= i < files.len() ==> #[trigger] contents@[i] == Ok::<Vec<u8>, Error>(files[i]),
    ensures
        r matches Ok(hash) && hash@ == sha256(hashes_of(files)),
{
    assert(r is Ok);
    lemma_hashes(contents@, files);
}

proof fn lemma_hashes(contents: Seq<Result<Vec<u8>, Error>>, files: Seq<Vec<u8>>)
    requires
        files.len() == contents.len(),
        forall|i: int| 0 <= i < files.len() ==> #[trigger] contents[i] == Ok::<Vec<u8>, Error>(files[i]),
    ensures
        crate::resources::content::joined_hashes(contents) == hashes_of(files),
    decreases files.len(),
{
    if files.len() > 0 {
        let n = files.len() - 1;
        assert(contents[n] == Ok::<Vec<u8>, Error>(files[n]));
        assert forall|i: int| 0 <= i < n implies #[trigger] contents.drop_last()[i] == Ok::<Vec<u8>, Error>(
            files.drop_last()[i],
        ) by {
            assert(contents[i] == Ok::<Vec<u8>, Error>(files[i]));
        }
        lemma_hashes(contents.drop_last(), files.drop_last());
    }
}

/// The first file that can't be read gives the error.
pub proof fn law_first_unreadable_file_is_the_error(
    contents: Vec<Result<Vec<u8>, Error>>,
    i: int,
    r: Result<Vec<u8>, Error>,
)
    requires
        call_ensures(get_file_glob_hash, (contents,), r),
        0 <= i < contents@.len(),
        contents@[i] is Err,
        forall|j: int| 0 <= j < i ==> (#[trigger] contents@[j]) is Ok,
    ensures
        r is Err,
        r->Err_0 == contents@[i]->Err_0,
{
    if r is Ok {
        assert(contents@[i] is Ok);
    } else {
        let k = choose|k: int|
            0 <= k < contents@.len() && crate::resources::content::all_read(contents@, k)
                && #[trigger] contents@[k] == Err::<Vec<u8>, Error>(r->Err_0);
        if k < i {
            assert(contents@[k] is Ok);
        } else if i < k {
            assert(contents@[i] is Ok);
        }
    }
}

/// Certificates that stand in a list, without those that couldn't be read.
pub open spec fn readable(items: Seq<Option<Seq<u8>>>) -> Seq<Seq<u8>>
    decreases items.len(),
{
    if items.len() == 0 {
        Seq::empty()
    } else if items.last() is Some {
        readable(items.drop_last()).push(items.last()->0)
    } else {
        readable(items.drop_last())
    }
}

/// Certificates that are trusted: the system's, and those of the authority.
pub open spec fn trusts(roots: Seq<Seq<u8>>, native: Seq<Vec<u8>>, ca: Seq<char>) -> bool {
    let own = readable(pem_certs(ca));
    &&& roots.len() == native.len() + own.len()
    &&& forall|i: int| 0 <= i < native.len() ==> #[trigger] roots[i] == native[i]@
    &&& forall|i: int| 0 <= i < own.len() ==> #[trigger] own[i] == roots[native.len() + i]
}

proof fn lemma_readable(items: Seq<Option<Seq<u8>>>)
    ensures
        readable(items) == crate::resources::certificate::present(items),
    decreases items.len(),
{
    if items.len() > 0 {
        lemma_readable(items.drop_last());
    }
}

/// A certificate is accepted if and only if it is verified for the server's name at the time with what
/// the system and the authority trust. Otherwise the usual verification decides. It is an error if there
/// is nothing to verify with, if the certificate isn't an X.509 one, and if the name isn't one, in this
/// order.
pub proof fn law_verified_certificate_is_accepted(
    ca: &str,
    native: Vec<Vec<u8>>,
    cert: Option<Vec<u8>>,
    host: &str,
    secs: u64,
    r: Result<CertificateVerdict, String>,
)
    requires
        call_ensures(own_ca_check, (ca, native, cert, host, secs), r),
    ensures
        native@.len() == 0 && readable(pem_certs(ca@)).len() == 0 ==> r is Err,
        exists|roots: Seq<Seq<u8>>| #[trigger]
            trusts(roots, native@, ca@) && (if !roots_usable(roots) {
                r matches Err(text) && text@ == "unable to build root CA store"@
            } else if cert is None {
                r matches Err(text) && text@ == "unable to parse x509 certificate data"@
            } else if !names_server(host@) {
                r matches Err(text) && text@ == "unable to get server name"@
            } else if roots_verify(roots, cert->0@, host@, secs as int) {
                r == Ok::<CertificateVerdict, String>(CertificateVerdict::Accept)
            } else {
                r == Ok::<CertificateVerdict, String>(CertificateVerdict::Passthrough)
            }),
{
    lemma_readable(pem_certs(ca@));
    let roots = crate::resources::certificate::trusted_roots(ca@, native@);
    let own = readable(pem_certs(ca@));
    let all = crate::resources::certificate::all_bytes(native@);
    assert(all.len() == native@.len());
    assert forall|i: int| 0 <= i < native@.len() implies #[trigger] roots[i] == native@[i]@ by {
        assert(all[i] == native@[i]@);
    }
    assert(trusts(roots, native@, ca@));
}

/// The plan of a fetch decides on certificates: every one is accepted, the system decides, the authority
/// does, or nothing is changed.
pub proof fn law_plan_decides_on_certificates(
    check: &CertificateCheck,
    native: Vec<Vec<u8>>,
    cert: Option<Vec<u8>>,
    host: &str,
    secs: u64,
    r: Option<Result<CertificateVerdict, String>>,
)
    requires
        call_ensures(CertificateCheck::verdict, (check, native, cert, host, secs), r),
    ensures
        match *check {
            CertificateCheck::Untouched => r is None,
            CertificateCheck::AcceptAny => r == Some(Ok::<CertificateVerdict, String>(CertificateVerdict::Accept)),
            CertificateCheck::System => r == Some(Ok::<CertificateVerdict, String>(CertificateVerdict::Passthrough)),
            CertificateCheck::CustomCa(ca) => r matches Some(result) && (result
                == Ok::<CertificateVerdict, String>(CertificateVerdict::Accept) ==> (cert matches Some(bytes)
                && names_server(host@) && exists|roots: Seq<Seq<u8>>| #[trigger]
                trusts(roots, native@, ca@) && roots_verify(roots, bytes@, host@, secs as int))),
        },
{
    if let CertificateCheck::CustomCa(ca) = *check {
        lemma_readable(pem_certs(ca@));
        let roots = crate::resources::certificate::trusted_roots(ca@, native@);
        let all = crate::resources::certificate::all_bytes(native@);
        assert forall|i: int| 0 <= i < native@.len() implies #[trigger] roots[i] == native@[i]@ by {
            assert(all[i] == native@[i]@);
        }
        assert(trusts(roots, native@, ca@));
    }
}

/// The verdict follows from what was found out, in this order.
pub proof fn law_verdict_follows(
    usable: bool,
    is_x509: bool,
    name_valid: bool,
    verified: bool,
    r: Result<CertificateVerdict, String>,
)
    requires
        call_ensures(own_ca_verdict, (usable, is_x509, name_valid, verified), r),
    ensures
        r is Ok == (usable && is_x509 && name_valid),
        r is Ok ==> (r->Ok_0 == CertificateVerdict::Accept) == verified,
        !usable ==> (r matches Err(text) && text@ == "unable to build root CA store"@),
        usable && !is_x509 ==> (r matches Err(text) && text@ == "unable to parse x509 certificate data"@),
        usable && is_x509 && !name_valid ==> (r matches Err(text) && text@ == "unable to get server name"@),
{
}

/// The cloner fetches and checks out the same thing: the branch if there is one, otherwise the tag,
/// otherwise the commit.
pub proof fn law_cloner_fetches_what_it_checks_out(
    value: &ReferenceValue,
    reference: TriggerGitRepoReference,
    name: String,
)
    requires
        call_ensures(ReferenceValue::to_reference, (value,), reference),
        call_ensures(ReferenceValue::to_name, (value,), name),
    ensures
        value.branch matches Some(branch) ==> reference == TriggerGitRepoReference::Branch(branch)
            && name@ == branch@,
        value.branch is None ==> (value.tag matches Some(tag) ==> reference == TriggerGitRepoReference::Tag(tag)
            && name@ == tag@),
        value.branch is None && value.tag is None && value.commit is Some ==> reference
            == TriggerGitRepoReference::Commit(value.commit->0) && name@ == value.commit->0@,
{
}

/// The cloner looks for a repository of a namespace in the namespace, and removes the folder of Git unless
/// it is told to keep it.
pub proof fn law_cloner_finds_its_source(
    task: &CloneTask,
    namespace: &String,
    found: Option<String>,
    full_name: String,
    removed: Option<String>,
)
    requires
        call_ensures(CloneTask::source_namespace, (task, namespace), found),
        call_ensures(CloneTask::repo_name, (task, namespace), full_name),
        call_ensures(CloneTask::folder_to_remove, (task,), removed),
    ensures
        task.source_kind == TriggerSourceKind::GitRepo ==> found == Some(*namespace) && full_name@ == namespace@
            + "/"@ + task.source_name@,
        task.source_kind == TriggerSourceKind::ClusterGitRepo ==> found is None && full_name@ == task.source_name@,
        removed is None == task.preserve_git_folder,
        removed matches Some(path) ==> path@ == task.destination@ + "/.git"@,
{
}

} // verus!
