//! The identity of the server: a certificate chain and its private key.
//!
//! The identity is made once, when the server starts, and never changes.
//! Its certificate is self-signed and issued for the name that clients
//! dial. Generating the key pair and signing the certificate is the work of
//! the `rcgen` crate; what comes back is held here as plain DER bytes.

use vstd::prelude::*;
use vstd::string::is_ascii;
use crate::text::byte_strings;

verus! {

/// The name the development server is dialled by, and its certificate is
/// issued for.
pub const DEV_HOSTNAME: &'static str = "localhost";

/// The error of the certificate generator.
#[verifier::external_type_specification]
#[verifier::external_body]
pub struct ExGeneratorError(rcgen::Error);

/// The identity could not be generated. Fatal when the server starts.
pub struct IdentityGenerationError {
    /// What the generator reported.
    pub cause: rcgen::Error,
}

/// An identity as plain values.
pub struct ServerIdentityView {
    /// The name the leaf certificate is issued for.
    pub subject: Seq<char>,
    /// The certificates, DER-encoded, the leaf first.
    pub chain: Seq<Seq<u8>>,
    /// The private key of the leaf, DER-encoded in PKCS#8.
    pub key: Seq<u8>,
}

/// The identity of a server. Its chain holds at least the leaf certificate.
pub struct ServerIdentity {
    subject: String,
    cert_chain: Vec<Vec<u8>>,
    private_key: Vec<u8>,
}

impl View for ServerIdentity {
    type V = ServerIdentityView;

    closed spec fn view(&self) -> ServerIdentityView {
        ServerIdentityView {
            subject: self.subject@,
            chain: byte_strings(self.cert_chain@),
            key: self.private_key@,
        }
    }
}

/// The identity made of one certificate and its key.
pub open spec fn single_cert_identity(
    subject: Seq<char>,
    certificate: Seq<u8>,
    key: Seq<u8>,
) -> ServerIdentityView {
    ServerIdentityView { subject, chain: seq![certificate], key }
}

impl ServerIdentity {
    #[verifier::type_invariant]
    spec fn has_a_leaf(self) -> bool {
        self.cert_chain@.len() > 0
    }

    /// An identity from DER material made elsewhere. None where the chain is
    /// empty. The bytes are taken as they are: nothing here reads them.
    pub fn from_der(subject: &str, cert_chain: Vec<Vec<u8>>, private_key: Vec<u8>) -> (identity:
        Option<ServerIdentity>)
        ensures
            identity is Some <==> cert_chain@.len() > 0,
            identity matches Some(id) ==> id@ == (ServerIdentityView {
                subject: subject@,
                chain: byte_strings(cert_chain@),
                key: private_key@,
            }),
    {
        if cert_chain.len() == 0 {
            None
        } else {
            Some(ServerIdentity { subject: subject.to_owned(), cert_chain, private_key })
        }
    }

    /// The name the leaf certificate is issued for.
    pub fn subject(&self) -> (subject: &str)
        ensures
            subject@ == self@.subject,
    {
        self.subject.as_str()
    }

    /// The certificates, DER-encoded, the leaf first; at least one.
    pub fn cert_chain(&self) -> (chain: &Vec<Vec<u8>>)
        ensures
            byte_strings(chain@) == self@.chain,
            chain@.len() > 0,
    {
        proof {
            use_type_invariant(self);
        }
        &self.cert_chain
    }

    /// The private key of the leaf, DER-encoded.
    pub fn private_key(&self) -> (key: &Vec<u8>)
        ensures
            key@ == self@.key,
    {
        &self.private_key
    }
}

/// Has `rcgen::generate_simple_self_signed` make a fresh key pair and a
/// certificate for `subject`, signed with that key, and hands back the
/// certificate (`Certificate::der`) and the key pair
/// (`KeyPair::serialize_der`, PKCS#8) as DER bytes, in this order.
///
/// The key is random, so nothing is claimed of the bytes, nor that the call
/// succeeds: the key may fail to be made for any subject. The one claim:
/// the call fails for a subject with a character outside ASCII. The
/// generator takes a subject that is no IP address as a DNS name, which it
/// holds as an IA5 string (`Ia5String::try_from`), and that conversion
/// refuses every string that is not ASCII.
#[verifier::external_body]
fn self_signed_der(subject: &str) -> (generated: Result<(Vec<u8>, Vec<u8>), rcgen::Error>)
    ensures
        generated is Ok ==> is_ascii(subject),
{
    let certified = rcgen::generate_simple_self_signed(vec![subject.to_string()])?;
    Ok((certified.cert.der().to_vec(), certified.signing_key.serialize_der()))
}

/// The identity that the outcome of a generation stands for: the
/// certificate alone as the chain, with its key, under the name it was
/// asked for; or the generator's error.
pub fn identity_from_generated(
    subject: &str,
    generated: Result<(Vec<u8>, Vec<u8>), rcgen::Error>,
) -> (identity: Result<ServerIdentity, IdentityGenerationError>)
    ensures
        match generated {
            Ok((certificate, key)) => identity matches Ok(id) && id@ == single_cert_identity(
                subject@,
                certificate@,
                key@,
            ),
            Err(cause) => identity matches Err(e) && e.cause == cause,
        },
{
    match generated {
        Ok((certificate, key)) => {
            let mut cert_chain: Vec<Vec<u8>> = Vec::new();
            cert_chain.push(certificate);
            let identity = ServerIdentity {
                subject: subject.to_owned(),
                cert_chain,
                private_key: key,
            };
            assert(identity@.chain =~= seq![certificate@]);
            Ok(identity)
        },
        Err(cause) => Err(IdentityGenerationError { cause }),
    }
}

/// A fresh self-signed identity for `subject`: one certificate and its key.
/// Every call makes a new key, so no two results are alike.
///
/// A subject with a character outside ASCII is refused. For any other
/// subject the generator decides: making the key can fail.
pub fn generate_self_signed_cert(subject: &str) -> (identity: Result<
    ServerIdentity,
    IdentityGenerationError,
>)
    ensures
        identity matches Ok(id) ==> id@.subject == subject@ && id@.chain.len() == 1,
        !is_ascii(subject) ==> identity is Err,
{
    identity_from_generated(subject, self_signed_der(subject))
}

/// A fresh self-signed identity for the development server, issued for the
/// name its clients dial.
pub fn make_server_identity() -> (identity: Result<ServerIdentity, IdentityGenerationError>)
    ensures
        identity matches Ok(id) ==> id@.subject == DEV_HOSTNAME@ && id@.chain.len() == 1,
{
    generate_self_signed_cert(DEV_HOSTNAME)
}

} // verus!
