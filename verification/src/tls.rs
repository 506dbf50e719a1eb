//! Building a TLS identity from a `Ssl` configuration record.
//!
//! The identity is built once per epoch, before the listener starts: the
//! private key and the certificate chain are loaded from their files and the
//! key is checked against the certificate here, not deferred to the first
//! handshake, where a mismatch could no longer be recovered mid-epoch.
//! OpenSSL does the loading and the checking; what each of its verdicts means
//! for the build is verified in `classify_checks`.

use vstd::prelude::*;

use crate::config::SslConf;

verus! {

/// Why no identity could be built.
#[derive(Clone, Copy, Debug, PartialEq, Eq, Structural)]
pub enum TlsError {
    KeyUnreadable,
    CertUnreadable,
    KeyCertMismatch,
    Unsupported,
}

#[verifier::external_type_specification]
#[verifier::external_body]
pub struct ExSslAcceptorBuilder(openssl::ssl::SslAcceptorBuilder);

/// An opaque TLS server identity: a server context with the certificate chain
/// and private key loaded and checked against each other, ready to hand to a
/// listener by ownership transfer. Never mutated after it is built.
pub struct TlsIdentity {
    pub context: openssl::ssl::SslAcceptorBuilder,
}

/// Relies on openssl's `SslAcceptor::mozilla_modern_v5` over
/// `SslMethod::tls()`: a server context pinned to the modern TLS profile,
/// `None` where the linked OpenSSL cannot provide that profile.
#[verifier::external_body]
fn new_tls_builder() -> (b: Option<openssl::ssl::SslAcceptorBuilder>) {
    openssl::ssl::SslAcceptor::mozilla_modern_v5(openssl::ssl::SslMethod::tls()).ok()
}

/// Relies on openssl's `SslContextBuilder::set_private_key_file` (PEM): loads
/// the private key from the file, reporting failure to open, read or parse it
/// as an error. The path must hold no NUL: the binding turns the path into a
/// C string and panics on one.
#[verifier::external_body]
fn load_private_key(b: &mut openssl::ssl::SslAcceptorBuilder, path: &str) -> (ok: bool)
    requires
        !path@.contains('\0'),
{
    b.set_private_key_file(path, openssl::ssl::SslFiletype::PEM).is_ok()
}

/// Relies on openssl's `SslContextBuilder::set_certificate_chain_file`: loads
/// the PEM certificate chain from the file, leaf first, reporting failure to
/// open, read or parse it as an error. The path must hold no NUL: the binding
/// turns the path into a C string and panics on one.
#[verifier::external_body]
fn load_cert_chain(b: &mut openssl::ssl::SslAcceptorBuilder, path: &str) -> (ok: bool)
    requires
        !path@.contains('\0'),
{
    b.set_certificate_chain_file(path).is_ok()
}

/// Relies on openssl's `SslContextBuilder::check_private_key`: reports whether
/// the loaded private key is consistent with the loaded certificate.
#[verifier::external_body]
fn key_matches_cert(b: &openssl::ssl::SslAcceptorBuilder) -> (ok: bool) {
    b.check_private_key().is_ok()
}

/// Whether the string holds a NUL character, which no file path can carry
/// into a C API.
pub fn contains_nul(s: &str) -> (r: bool)
    ensures
        r == s@.contains('\0'),
{
    let n = s.unicode_len();
    let mut i: usize = 0;
    while i < n
        invariant
            0 <= i <= n,
            n == s@.len(),
            forall|j: int| 0 <= j < i ==> s@[j] != '\0',
        decreases n - i,
    {
        if s.get_char(i) == '\0' {
            return true;
        }
        i = i + 1;
    }
    false
}

/// What the build returns for each verdict of the three loading and checking
/// steps, in their order: an unloadable key, then an unloadable certificate,
/// then a key that does not match the certificate, and an identity only when
/// all three passed.
pub open spec fn check_outcome(key_ok: bool, cert_ok: bool, pair_ok: bool) -> Result<
    (),
    TlsError,
> {
    if !key_ok {
        Err(TlsError::KeyUnreadable)
    } else if !cert_ok {
        Err(TlsError::CertUnreadable)
    } else if !pair_ok {
        Err(TlsError::KeyCertMismatch)
    } else {
        Ok(())
    }
}

/// The build's decision on the three verdicts, exactly `check_outcome`.
pub fn classify_checks(key_ok: bool, cert_ok: bool, pair_ok: bool) -> (r: Result<(), TlsError>)
    ensures
        r == check_outcome(key_ok, cert_ok, pair_ok),
{
    if !key_ok {
        Err(TlsError::KeyUnreadable)
    } else if !cert_ok {
        Err(TlsError::CertUnreadable)
    } else if !pair_ok {
        Err(TlsError::KeyCertMismatch)
    } else {
        Ok(())
    }
}

/// Build the epoch's TLS identity from the record's certificate and key
/// files. A path that no file system call could take is its stage's error;
/// past that, OpenSSL's verdicts on loading the key, loading the chain and
/// checking the pair decide, through `classify_checks`, and an identity comes
/// back only when all three passed.
pub fn build(tls: &SslConf) -> (r: Result<TlsIdentity, TlsError>)
    ensures
        tls.keyfile@.contains('\0') ==> r == Err::<TlsIdentity, TlsError>(TlsError::KeyUnreadable),
        !tls.keyfile@.contains('\0') && tls.certfile@.contains('\0') ==> r == Err::<
            TlsIdentity,
            TlsError,
        >(TlsError::CertUnreadable),
{
    if contains_nul(tls.keyfile.as_str()) {
        return Err(TlsError::KeyUnreadable);
    }
    if contains_nul(tls.certfile.as_str()) {
        return Err(TlsError::CertUnreadable);
    }
    let mut b = match new_tls_builder() {
        Some(b) => b,
        None => {
            return Err(TlsError::Unsupported);
        },
    };
    let key_ok = load_private_key(&mut b, tls.keyfile.as_str());
    let cert_ok = if key_ok {
        load_cert_chain(&mut b, tls.certfile.as_str())
    } else {
        false
    };
    let pair_ok = if key_ok && cert_ok {
        key_matches_cert(&b)
    } else {
        false
    };
    match classify_checks(key_ok, cert_ok, pair_ok) {
        Ok(_) => Ok(TlsIdentity { context: b }),
        Err(e) => Err(e),
    }
}

/// A key and certificate from different key pairs fail the consistency check,
/// and a failed check never yields an identity: with both files loaded, a
/// negative pair verdict's only outcome is the `KeyCertMismatch` error.
pub proof fn lemma_mismatch_never_builds()
    ensures
        check_outcome(true, true, false) == Err::<(), TlsError>(TlsError::KeyCertMismatch),
        forall|pair_ok: bool|
            check_outcome(true, true, pair_ok) is Ok ==> pair_ok,
{
}

} // verus!
