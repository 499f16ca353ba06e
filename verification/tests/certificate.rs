//! Certificates of repositories' servers.
use git_events_runner::resources::certificate::{own_ca_check, own_ca_verdict, CertificateVerdict};
use git_events_runner::resources::git_repo::CertificateCheck;

// Authority that has signed the server's certificate.
const OWN_CA: &str = "-----BEGIN CERTIFICATE-----
MIIBlzCCAT2gAwIBAgIUfloo0aF1hLFhJymrVMByqnxOpxgwCgYIKoZIzj0EAwIw
GDEWMBQGA1UEAwwNb3duIGF1dGhvcml0eTAgFw0yNjExMTUyMDExNDJaGA8yMTI2
MTAyMjIwMTE0MlowGDEWMBQGA1UEAwwNb3duIGF1dGhvcml0eTBZMBMGByqGSM49
AgEGCCqGSM49AwEHA0IABHNDfgVOIYGPdnJYfoA/nPS31vKFeGeQlcNksuinQg03
b14bMHqztXBq5jtZO3jjTrNSGoWsqwvKW5psIOZMZnyjYzBhMB0GA1UdDgQWBBQP
PU46muurHKqYYwgKhuaKywfpMTAfBgNVHSMEGDAWgBQPPU46muurHKqYYwgKhuaK
ywfpMTAPBgNVHRMBAf8EBTADAQH/MA4GA1UdDwEB/wQEAwICBDAKBggqhkjOPQQD
AgNIADBFAiEAiY04qjC9LdECjYxy9GsJb0LR/JvEsmfFq8a+5rrqn3kCIBHZq5I1
4EmlbH7SUYyigoNJkl0blUehUq6C241UugY4
-----END CERTIFICATE-----
";

// Authority that hasn't.
const OTHER_CA: &str = "-----BEGIN CERTIFICATE-----
MIIBmjCCAUGgAwIBAgIUL0jI0K1OxCBluu72YTlHv1GtNRkwCgYIKoZIzj0EAwIw
GjEYMBYGA1UEAwwPb3RoZXIgYXV0aG9yaXR5MCAXDTI2MTExNTIwMTE0M1oYDzIx
MjYxMDIyMjAxMTQzWjAaMRgwFgYDVQQDDA9vdGhlciBhdXRob3JpdHkwWTATBgcq
hkjOPQIBBggqhkjOPQMBBwNCAAQc5DZibeQGfZ9rLyEJ3HNBCFaT6o6nef7ebFU7
DWPhUvwRFbeq7ykh+kwe9g3dzDI0NRX2YxptfcuKsAcoBkG/o2MwYTAdBgNVHQ4E
FgQUGLqxnCQGN6msemsY7E6Z+FTVjLAwHwYDVR0jBBgwFoAUGLqxnCQGN6msemsY
7E6Z+FTVjLAwDwYDVR0TAQH/BAUwAwEB/zAOBgNVHQ8BAf8EBAMCAgQwCgYIKoZI
zj0EAwIDRwAwRAIgKKHg6fsbCcALr9E5xSM+xOhYLVWyae2kxlP6Mi6swxMCIAjl
vSX1aG6WnxCqpgG4Aqrrn9UwDDn29cEMtBhUPVPs
-----END CERTIFICATE-----
";

// Certificate of `git.example.test`, good from 2026 to 2126.
const SERVER: &str = "-----BEGIN CERTIFICATE-----
MIIBoTCCAUegAwIBAgIUFhe4AC+1SAF1jSgDWC6+q9cp7BQwCgYIKoZIzj0EAwIw
GDEWMBQGA1UEAwwNb3duIGF1dGhvcml0eTAgFw0yNjExMTUyMDExNDNaGA8yMTI2
MTAyMjIwMTE0M1owGzEZMBcGA1UEAwwQZ2l0LmV4YW1wbGUudGVzdDBZMBMGByqG
SM49AgEGCCqGSM49AwEHA0IABCKPKOcERKiixnENeRIOZujto2FgcJoBLwrCFkyV
Omt86Jx16u9skpGWFMFH3vgVVe5fkJjsT/g2uznYuPosCCijajBoMBsGA1UdEQQU
MBKCEGdpdC5leGFtcGxlLnRlc3QwCQYDVR0TBAIwADAdBgNVHQ4EFgQURjh7RjD9
OtUyS+EZbOpvYeanG6IwHwYDVR0jBBgwFoAUDz1OOprrqxyqmGMICobmissH6TEw
CgYIKoZIzj0EAwIDSAAwRQIgOeT+1uOV0Brvd3CkhTguyOVrsWqbKNfv8L2LEOXs
HukCIQChtIxKpmApuNCvCxdg6ISBT8zpGIswgb9t6Mu1Qr+TSw==
-----END CERTIFICATE-----
";

const HOST: &str = "git.example.test";

// In 2030 and in 2001.
const GOOD_TIME: u64 = 1_900_000_000;
const EARLY_TIME: u64 = 1_000_000_000;

fn der(pem: &str) -> Vec<u8> {
    let mut bytes = pem.as_bytes();
    let cert = rustls_pemfile::certs(&mut bytes).next().unwrap().unwrap();
    cert.to_vec()
}

fn accept() -> Result<CertificateVerdict, String> {
    Ok(CertificateVerdict::Accept)
}

fn passthrough() -> Result<CertificateVerdict, String> {
    Ok(CertificateVerdict::Passthrough)
}

fn error(text: &str) -> Result<CertificateVerdict, String> {
    Err(text.to_string())
}

#[test]
fn certificates_are_judged() {
    assert_eq!(own_ca_verdict(true, true, true, true), accept());
    assert_eq!(own_ca_verdict(true, true, true, false), passthrough());
    assert_eq!(own_ca_verdict(true, true, false, false), error("unable to get server name"));
    assert_eq!(
        own_ca_verdict(true, false, false, false),
        error("unable to parse x509 certificate data")
    );
    assert_eq!(
        own_ca_verdict(false, false, false, false),
        error("unable to build root CA store")
    );
}

#[test]
fn certificates_of_the_authority_are_accepted() {
    let check = |ca: &str, native: Vec<Vec<u8>>, host: &str, secs: u64| {
        own_ca_check(ca, native, Some(der(SERVER)), host, secs)
    };
    assert_eq!(check(OWN_CA, vec![], HOST, GOOD_TIME), accept());
    assert_eq!(check(OWN_CA, vec![der(OTHER_CA)], HOST, GOOD_TIME), accept());
    // The system may trust the authority.
    assert_eq!(check("", vec![der(OTHER_CA), der(OWN_CA)], HOST, GOOD_TIME), accept());
    // What can't be read is passed over.
    let broken = format!("-----BEGIN CERTIFICATE-----\n?\n-----END CERTIFICATE-----\n{OWN_CA}");
    assert_eq!(check(&broken, vec![vec![1, 2, 3]], HOST, GOOD_TIME), accept());
}

#[test]
fn other_certificates_are_left_to_the_system() {
    let check = |ca: &str, cert: Vec<u8>, host: &str, secs: u64| own_ca_check(ca, vec![], Some(cert), host, secs);
    assert_eq!(check(OTHER_CA, der(SERVER), HOST, GOOD_TIME), passthrough());
    assert_eq!(check(OWN_CA, der(SERVER), "example.test", GOOD_TIME), passthrough());
    assert_eq!(check(OWN_CA, der(SERVER), HOST, EARLY_TIME), passthrough());
    assert_eq!(check(OWN_CA, vec![1, 2, 3], HOST, GOOD_TIME), passthrough());
}

#[test]
fn certificates_that_can_not_be_checked_are_errors() {
    let no_roots = error("unable to build root CA store");
    assert_eq!(own_ca_check("", vec![], None, "", GOOD_TIME), no_roots);
    assert_eq!(own_ca_check("text", vec![vec![7]], Some(der(SERVER)), HOST, GOOD_TIME), no_roots);
    assert_eq!(
        own_ca_check(OWN_CA, vec![], None, "", GOOD_TIME),
        error("unable to parse x509 certificate data")
    );
    assert_eq!(
        own_ca_check(OWN_CA, vec![], Some(der(SERVER)), "not a name", GOOD_TIME),
        error("unable to get server name")
    );
    assert_eq!(own_ca_check(OWN_CA, vec![], Some(der(SERVER)), "127.0.0.1", GOOD_TIME), passthrough());
}

#[test]
fn plans_decide_on_certificates() {
    let verdict = |check: CertificateCheck| check.verdict(vec![], Some(der(SERVER)), HOST, GOOD_TIME);
    assert_eq!(verdict(CertificateCheck::Untouched), None);
    assert_eq!(verdict(CertificateCheck::AcceptAny), Some(accept()));
    assert_eq!(verdict(CertificateCheck::System), Some(passthrough()));
    assert_eq!(verdict(CertificateCheck::CustomCa(OWN_CA.to_string())), Some(accept()));
    assert_eq!(verdict(CertificateCheck::CustomCa(OTHER_CA.to_string())), Some(passthrough()));
}
