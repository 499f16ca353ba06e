//! Certificates of repositories' servers, where a repository has an authority of its own.
use super::git_repo::CertificateCheck;
use rustls::client::danger::ServerCertVerifier;
use vstd::prelude::*;

verus! {

/// What becomes of a server's certificate.
#[derive(Clone, Copy, Debug, PartialEq, Eq, Structural)]
pub enum CertificateVerdict {
    /// It is good.
    Accept,
    /// The usual verification decides.
    Passthrough,
}

/// Bytes of each item of a list.
pub open spec fn all_bytes(items: Seq<Vec<u8>>) -> Seq<Seq<u8>> {
    items.map_values(|item: Vec<u8>| item@)
}

/// Bytes of each item of a list that has any.
pub open spec fn all_opt_bytes(items: Seq<Option<Vec<u8>>>) -> Seq<Option<Seq<u8>>> {
    items.map_values(
        |item: Option<Vec<u8>>|
            match item {
                Some(bytes) => Some(bytes@),
                None => None,
            },
    )
}

/// The items that are there, in their order.
pub open spec fn present(items: Seq<Option<Seq<u8>>>) -> Seq<Seq<u8>>
    decreases items.len(),
{
    if items.len() == 0 {
        Seq::empty()
    } else {
        match items.last() {
            Some(bytes) => present(items.drop_last()).push(bytes),
            None => present(items.drop_last()),
        }
    }
}

/// Certificates of a text in PEM form, each in DER form. There is none in place of a section that
/// can't be read.
pub uninterp spec fn pem_certs(text: Seq<char>) -> Seq<Option<Seq<u8>>>;

/// Reads the certificates of a text with `rustls_pemfile`'s `certs`: an item for each certificate, and
/// one for each section that can't be read. The items depend on the text alone.
#[verifier::external_body]
fn read_pem_certs(text: &str) -> (r: Vec<Option<Vec<u8>>>)
    ensures
        all_opt_bytes(r@) == pem_certs(text@),
{
    rustls_pemfile::certs(&mut text.as_bytes()).map(|item| item.ok().map(|cert| cert.to_vec())).collect()
}

/// The text is a name that a server can have.
pub uninterp spec fn names_server(text: Seq<char>) -> bool;

/// Reads the name of a server with `rustls`'s `ServerName::try_from`. Whether it succeeds depends on
/// the text alone.
#[verifier::external_body]
fn is_server_name(text: &str) -> (r: bool)
    ensures
        r == names_server(text@),
{
    rustls::pki_types::ServerName::try_from(text).is_ok()
}

/// Certificates can be verified with these as the trusted ones.
pub uninterp spec fn roots_usable(roots: Seq<Seq<u8>>) -> bool;

/// Builds a verifier of certificates with `rustls`: `WebPkiServerVerifier::builder_with_provider` with
/// the algorithms of `aws_lc_rs`, trusting those of the certificates that
/// `RootCertStore::add_parsable_certificates` can read. Whether it succeeds depends on the
/// certificates alone, and without any it doesn't.
#[verifier::external_body]
fn can_verify(roots: &Vec<Vec<u8>>) -> (r: bool)
    ensures
        r == roots_usable(all_bytes(roots@)),
        roots@.len() == 0 ==> !r,
{
    let mut store = rustls::RootCertStore::empty();
    store.add_parsable_certificates(
        roots.iter().map(|root| rustls::pki_types::CertificateDer::from(root.as_slice())),
    );
    let provider = std::sync::Arc::new(rustls::crypto::aws_lc_rs::default_provider());
    rustls::client::WebPkiServerVerifier::builder_with_provider(std::sync::Arc::new(store), provider)
        .build().is_ok()
}

/// The certificate is one of the named server, is good at the time, and one of the trusted
/// certificates has signed it.
pub uninterp spec fn roots_verify(roots: Seq<Seq<u8>>, cert: Seq<u8>, host: Seq<char>, secs: int) -> bool;

/// Verifies a server's certificate with `rustls`: `WebPkiServerVerifier::verify_server_cert`, without
/// other certificates and without an OCSP response, at a time in seconds since the start of 1970. The
/// verifier is built as `can_verify` builds it. Whether the certificate is verified depends on the
/// arguments alone.
#[verifier::external_body]
fn verify_certificate(roots: &Vec<Vec<u8>>, cert: &Vec<u8>, host: &str, secs: u64) -> (r: bool)
    requires
        roots_usable(all_bytes(roots@)),
        names_server(host@),
    ensures
        r == roots_verify(all_bytes(roots@), cert@, host@, secs as int),
{
    let mut store = rustls::RootCertStore::empty();
    store.add_parsable_certificates(
        roots.iter().map(|root| rustls::pki_types::CertificateDer::from(root.as_slice())),
    );
    let provider = std::sync::Arc::new(rustls::crypto::aws_lc_rs::default_provider());
    let verifier = rustls::client::WebPkiServerVerifier::builder_with_provider(std::sync::Arc::new(store), provider)
        .build().unwrap();
    let name = rustls::pki_types::ServerName::try_from(host).unwrap();
    let now = rustls::pki_types::UnixTime::since_unix_epoch(std::time::Duration::from_secs(secs));
    verifier.verify_server_cert(&cert.as_slice().into(), &[], &name, &[], now).is_ok()
}

/// Decides on a server's certificate: there has to be something to verify it with, it has to be an
/// X.509 certificate, and the server's name has to be one. One that isn't verified then is left to the
/// usual verification.
pub fn own_ca_verdict(usable: bool, is_x509: bool, name_valid: bool, verified: bool) -> (r: Result<
    CertificateVerdict,
    String,
>)
    ensures
        if !usable {
            r matches Err(text) && text@ == "unable to build root CA store"@
        } else if !is_x509 {
            r matches Err(text) && text@ == "unable to parse x509 certificate data"@
        } else if !name_valid {
            r matches Err(text) && text@ == "unable to get server name"@
        } else if verified {
            r == Ok::<CertificateVerdict, String>(CertificateVerdict::Accept)
        } else {
            r == Ok::<CertificateVerdict, String>(CertificateVerdict::Passthrough)
        },
{
    if !usable {
        Err("unable to build root CA store".to_owned())
    } else if !is_x509 {
        Err("unable to parse x509 certificate data".to_owned())
    } else if !name_valid {
        Err("unable to get server name".to_owned())
    } else if verified {
        Ok(CertificateVerdict::Accept)
    } else {
        Ok(CertificateVerdict::Passthrough)
    }
}

/// Certificates that are trusted: those that the system trusts, and those of the authority that can be
/// read.
pub open spec fn trusted_roots(ca: Seq<char>, native: Seq<Vec<u8>>) -> Seq<Seq<u8>> {
    all_bytes(native) + present(pem_certs(ca))
}

fn add_own_roots(native: Vec<Vec<u8>>, ca: &str) -> (r: Vec<Vec<u8>>)
    ensures
        all_bytes(r@) == trusted_roots(ca@, native@),
{
    let mut roots = native;
    let mut own = read_pem_certs(ca);
    let ghost items = own@;
    let ghost mut done: int = 0;
    assert(all_opt_bytes(items).take(0) =~= Seq::<Option<Seq<u8>>>::empty());
    assert(items.skip(0) =~= items);
    while own.len() > 0
        invariant
            0 <= done <= items.len(),
            own@ == items.skip(done),
            all_opt_bytes(items) == pem_certs(ca@),
            all_bytes(roots@) =~= all_bytes(native@) + present(all_opt_bytes(items).take(done)),
        decreases own.len(),
    {
        let item = own.remove(0);
        proof {
            assert(item == items[done]);
            assert(own@ =~= items.skip(done + 1));
            let prefix = all_opt_bytes(items).take(done + 1);
            assert(prefix.drop_last() =~= all_opt_bytes(items).take(done));
            assert(prefix.last() == all_opt_bytes(items)[done]);
            done = done + 1;
        }
        if let Some(cert) = item {
            let ghost before = roots@;
            roots.push(cert);
            assert(all_bytes(roots@) =~= all_bytes(before).push(cert@));
        }
    }
    assert(all_opt_bytes(items).take(done) =~= all_opt_bytes(items));
    roots
}

/// The result is what becomes of the certificate with these trusted ones.
pub open spec fn is_own_ca_result(
    r: Result<CertificateVerdict, String>,
    roots: Seq<Seq<u8>>,
    cert: Option<Vec<u8>>,
    host: Seq<char>,
    secs: int,
) -> bool {
    if !roots_usable(roots) {
        r matches Err(text) && text@ == "unable to build root CA store"@
    } else if cert is None {
        r matches Err(text) && text@ == "unable to parse x509 certificate data"@
    } else if !names_server(host) {
        r matches Err(text) && text@ == "unable to get server name"@
    } else {
        r == Ok::<CertificateVerdict, String>(
            if roots_verify(roots, cert->0@, host, secs) {
                CertificateVerdict::Accept
            } else {
                CertificateVerdict::Passthrough
            },
        )
    }
}

/// Checks a server's certificate with the certificates of an authority, in PEM form, besides those that
/// the system trusts. `cert` is the server's certificate if it is an X.509 one, and `secs` the present
/// in seconds since the start of 1970.
pub fn own_ca_check(ca: &str, native: Vec<Vec<u8>>, cert: Option<Vec<u8>>, host: &str, secs: u64) -> (r: Result<
    CertificateVerdict,
    String,
>)
    ensures
        is_own_ca_result(r, trusted_roots(ca@, native@), cert, host@, secs as int),
        trusted_roots(ca@, native@).len() == 0 ==> r is Err,
{
    let roots = add_own_roots(native, ca);
    let usable: bool = can_verify(&roots);
    let name_valid: bool = is_server_name(host);
    assert(all_bytes(roots@).len() == roots@.len());
    match &cert {
        Some(bytes) => {
            let verified: bool = if usable && name_valid {
                verify_certificate(&roots, bytes, host, secs)
            } else {
                false
            };
            own_ca_verdict(usable, true, name_valid, verified)
        },
        None => own_ca_verdict(usable, false, name_valid, false),
    }
}

impl CertificateCheck {
    /// What becomes of a server's certificate. There is nothing to decide where the Git library does
    /// as it does. `native` is what the system trusts, and the rest as for an authority's check.
    pub fn verdict(&self, native: Vec<Vec<u8>>, cert: Option<Vec<u8>>, host: &str, secs: u64) -> (r: Option<
        Result<CertificateVerdict, String>,
    >)
        ensures
            match *self {
                CertificateCheck::Untouched => r is None,
                CertificateCheck::AcceptAny => r == Some(
                    Ok::<CertificateVerdict, String>(CertificateVerdict::Accept),
                ),
                CertificateCheck::CustomCa(ca) => r matches Some(result) && is_own_ca_result(
                    result,
                    trusted_roots(ca@, native@),
                    cert,
                    host@,
                    secs as int,
                ),
                CertificateCheck::System => r == Some(
                    Ok::<CertificateVerdict, String>(CertificateVerdict::Passthrough),
                ),
            },
    {
        match self {
            CertificateCheck::Untouched => None,
            CertificateCheck::AcceptAny => Some(Ok(CertificateVerdict::Accept)),
            CertificateCheck::CustomCa(ca) => Some(own_ca_check(ca.as_str(), native, cert, host, secs)),
            CertificateCheck::System => Some(Ok(CertificateVerdict::Passthrough)),
        }
    }
}

/// With an authority of its own, a repository's server is accepted only if its certificate is an X.509
/// one and was verified for its name at that time.
pub proof fn law_accepted_certificate_is_verified(
    r: Result<CertificateVerdict, String>,
    roots: Seq<Seq<u8>>,
    cert: Option<Vec<u8>>,
    host: Seq<char>,
    secs: int,
)
    requires
        is_own_ca_result(r, roots, cert, host, secs),
        r == Ok::<CertificateVerdict, String>(CertificateVerdict::Accept),
    ensures
        cert matches Some(bytes) && names_server(host) && roots_verify(roots, bytes@, host, secs),
{
}

} // verus!
