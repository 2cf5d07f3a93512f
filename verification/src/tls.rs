//! The TLS Context Provider: the identity the encrypted listener presents.
//!
//! A self-signed certificate and private key are generated once at startup
//! and are read-only for the rest of the process's lifetime.

use vstd::prelude::*;
use vstd::string::*;

verus! {

/// rcgen's error type, opaque here and mapped to [`TlsError`].
#[verifier::external_type_specification]
#[verifier::external_body]
pub struct ExRcgenError(rcgen::Error);

/// Relies on rcgen::generate_simple_self_signed: generates a fresh key pair
/// and a certificate for the given subject names, self-signed with that
/// key, and returns both DER encoded. The key is drawn at random, so of the
/// bytes only this is promised: each is a serialized DER document (an X.509
/// certificate, a PKCS#8 key), hence nonempty.
#[verifier::external_body]
fn generate_self_signed(names: &Vec<String>) -> (r: Result<(Vec<u8>, Vec<u8>), rcgen::Error>)
    ensures
        r matches Ok((c, k)) ==> c@.len() > 0 && k@.len() > 0,
{
    let certified = rcgen::generate_simple_self_signed(names.clone())?;
    let cert_der = certified.cert.der().to_vec();
    let key_der = certified.signing_key.serialize_der();
    Ok((cert_der, key_der))
}

/// Generating the TLS identity failed.
#[derive(Clone, Copy, PartialEq, Eq, Structural, Debug)]
pub struct TlsError;

/// What the TLS listener presents: a DER-encoded certificate and private
/// key, together with the subject names the certificate was issued for.
pub struct TlsIdentity {
    pub subject_names: Vec<String>,
    pub cert_der: Vec<u8>,
    pub key_der: Vec<u8>,
}

/// The subject names of the proxy's certificate: a placeholder proxy name
/// and `localhost`.
pub fn proxy_subject_names() -> (v: Vec<String>)
    ensures
        v@.len() == 2,
        v@[0]@ == "pattern.reverse.proxy"@,
        v@[1]@ == "localhost"@,
{
    let mut v: Vec<String> = Vec::new();
    v.push(String::from_str("pattern.reverse.proxy"));
    v.push(String::from_str("localhost"));
    v
}

/// Generate the identity for the given subject names. The identity keeps
/// exactly the names it was asked for, and carries the nonempty certificate
/// and key documents as rcgen produced them.
pub fn generate_identity(names: Vec<String>) -> (r: Result<TlsIdentity, TlsError>)
    ensures
        r matches Ok(id) ==> id.subject_names == names,
        r matches Ok(id) ==> id.cert_der@.len() > 0 && id.key_der@.len() > 0,
{
    match generate_self_signed(&names) {
        Ok((cert_der, key_der)) => Ok(
            TlsIdentity { subject_names: names, cert_der, key_der },
        ),
        Err(_) => Err(TlsError),
    }
}

} // verus!
