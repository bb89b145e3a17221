//! The security configuration of the server, ready for the transport.
//!
//! The plain configuration says what the server is willing to do; the
//! transport needs it together with the server's identity, checked and
//! loaded. Loading the key and matching it against the certificate is the
//! work of the `rustls` crate; its verdict on the identity decides whether
//! the server can start.

use std::sync::Arc;
use rustls::pki_types::{CertificateDer, PrivateKeyDer, PrivatePkcs8KeyDer};
use vstd::prelude::*;
use crate::identity::ServerIdentity;
use crate::security::{server_security, server_security_config, SecurityConfig};
use crate::text::byte_strings;

verus! {

/// The TLS configuration of a server, as `rustls` holds it.
#[verifier::external_type_specification]
#[verifier::external_body]
pub struct ExTlsServerConfig(rustls::ServerConfig);

/// The error of `rustls`.
#[verifier::external_type_specification]
#[verifier::external_body]
pub struct ExTlsError(rustls::Error);

/// Whether `rustls` takes a certificate chain and a PKCS#8 private key as
/// the identity of a server: whether it can load the key and does not find
/// it to differ from the public key of the first certificate.
pub uninterp spec fn tls_accepts_identity(chain: Seq<Seq<u8>>, key: Seq<u8>) -> bool;

/// The security configuration could not be built from the identity. Fatal
/// when the server starts.
pub struct ConfigBuildError {
    /// What `rustls` found wrong with the identity.
    pub cause: rustls::Error,
}

/// The security configuration of a server: what it is willing to do, and
/// the same together with its identity as the transport takes it.
pub struct ServerSecurity {
    /// Role, policy and protocols.
    pub config: SecurityConfig,
    /// The TLS configuration that holds the identity and the protocols.
    pub tls: rustls::ServerConfig,
}

/// Builds the TLS configuration of a server with `rustls`: on the crypto
/// provider `aws_lc_rs` with the default protocol versions
/// (`ServerConfig::builder_with_provider`,
/// `with_safe_default_protocol_versions`), without client authentication
/// (`with_no_client_auth`), with `chain` and `key` as the one identity
/// (`with_single_cert`), and with `protocols` as its application protocols.
///
/// The claim: the call succeeds exactly where `rustls` accepts the
/// identity, which depends on the bytes of `chain` and `key` alone. The
/// provider supports the default versions, so the only step that can fail
/// is `with_single_cert`: it fails where the key cannot be loaded, where
/// the first certificate cannot be parsed, or where the two hold different
/// public keys.
#[verifier::external_body]
fn build_tls_server_config(chain: &Vec<Vec<u8>>, key: &Vec<u8>, protocols: &Vec<Vec<u8>>) -> (built:
    Result<rustls::ServerConfig, rustls::Error>)
    ensures
        built is Ok <==> tls_accepts_identity(byte_strings(chain@), key@),
{
    let certificates = chain.iter().map(|der| CertificateDer::from(der.clone())).collect();
    let key = PrivateKeyDer::Pkcs8(PrivatePkcs8KeyDer::from(key.clone()));
    let provider = Arc::new(rustls::crypto::aws_lc_rs::default_provider());
    let mut config = rustls::ServerConfig::builder_with_provider(provider)
        .with_safe_default_protocol_versions()?
        .with_no_client_auth()
        .with_single_cert(certificates, key)?;
    config.alpn_protocols = protocols.clone();
    Ok(config)
}

/// The security configuration that the outcome of a build stands for: the
/// server's plain configuration beside the TLS configuration that was
/// built, or the error of the build.
pub fn server_security_from(built: Result<rustls::ServerConfig, rustls::Error>) -> (security:
    Result<ServerSecurity, ConfigBuildError>)
    ensures
        match built {
            Ok(tls) => security matches Ok(s) && s.tls == tls && s.config@ == server_security(),
            Err(cause) => security matches Err(e) && e.cause == cause,
        },
{
    match built {
        Ok(tls) => Ok(ServerSecurity { config: server_security_config(), tls }),
        Err(cause) => Err(ConfigBuildError { cause }),
    }
}

/// The security configuration of a server with the identity `identity`: no
/// client certificate is asked for, and the one application protocol of
/// this crate is the only one spoken.
///
/// It fails exactly where `rustls` does not accept the identity: on a key
/// it cannot load, a leaf certificate it cannot parse, or a key that is not
/// the certificate's.
pub fn make_server_security_config(identity: &ServerIdentity) -> (security: Result<
    ServerSecurity,
    ConfigBuildError,
>)
    ensures
        security is Ok <==> tls_accepts_identity(identity@.chain, identity@.key),
        security matches Ok(s) ==> s.config@ == server_security(),
{
    let config = server_security_config();
    let built = build_tls_server_config(
        identity.cert_chain(),
        identity.private_key(),
        config.protocols(),
    );
    server_security_from(built)
}

} // verus!
