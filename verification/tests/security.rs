use h3_exchange::identity::{
    generate_self_signed_cert, make_server_identity, ServerIdentity, DEV_HOSTNAME,
};
use h3_exchange::security::{
    alpn_h3, make_client_security_config, server_security_config, supported_verify_schemes, Role,
    SecurityConfig, SignatureScheme, VerificationPolicy,
};
use h3_exchange::tls::make_server_security_config;

fn config(role: Role, protocols: &[&[u8]]) -> SecurityConfig {
    let list = protocols.iter().map(|p| p.to_vec()).collect();
    SecurityConfig::new(role, VerificationPolicy::Standard, list).unwrap()
}

#[test]
fn protocol_identifier_is_h3() {
    assert_eq!(alpn_h3(), b"h3".to_vec());
}

#[test]
fn client_config_accepts_any_identity_and_speaks_h3() {
    let client = make_client_security_config();
    assert_eq!(client.role(), Role::Client);
    assert_eq!(client.policy(), VerificationPolicy::AcceptAny);
    assert_eq!(client.protocols(), &vec![b"h3".to_vec()]);
}

#[test]
fn server_config_is_strict_and_speaks_h3() {
    let server = server_security_config();
    assert_eq!(server.role(), Role::Server);
    assert_eq!(server.policy(), VerificationPolicy::Standard);
    assert_eq!(server.protocols(), &vec![b"h3".to_vec()]);
}

#[test]
fn default_policy_is_the_strict_one() {
    assert_eq!(VerificationPolicy::default(), VerificationPolicy::Standard);
}

#[test]
fn accept_any_approves_what_strict_refuses() {
    assert!(VerificationPolicy::AcceptAny.approves(false));
    assert!(VerificationPolicy::AcceptAny.approves(true));
    assert!(!VerificationPolicy::Standard.approves(false));
    assert!(VerificationPolicy::Standard.approves(true));
}

#[test]
fn config_needs_a_protocol() {
    assert!(SecurityConfig::new(Role::Client, VerificationPolicy::Standard, vec![]).is_none());
    let one = SecurityConfig::new(Role::Server, VerificationPolicy::AcceptAny, vec![vec![1, 2]]);
    let one = one.unwrap();
    assert_eq!(one.role(), Role::Server);
    assert_eq!(one.policy(), VerificationPolicy::AcceptAny);
    assert_eq!(one.protocols(), &vec![vec![1u8, 2]]);
}

#[test]
fn client_and_server_settle_on_h3() {
    let server = server_security_config();
    let client = make_client_security_config();
    assert_eq!(server.negotiate(&client), Some(b"h3".to_vec()));
}

#[test]
fn no_common_protocol_means_no_negotiation() {
    let server = server_security_config();
    let stranger = config(Role::Client, &[b"hq-29", b"http/1.1"]);
    assert_eq!(server.negotiate(&stranger), None);
    let near_miss = config(Role::Client, &[b"h3-29", b"h", b"H3"]);
    assert_eq!(server.negotiate(&near_miss), None);
}

#[test]
fn server_preference_decides_among_common_protocols() {
    let server = config(Role::Server, &[b"h3", b"hq-29", b"h2"]);
    let client = config(Role::Client, &[b"h2", b"hq-29"]);
    assert_eq!(server.negotiate(&client), Some(b"hq-29".to_vec()));
    let client = config(Role::Client, &[b"h2", b"h3"]);
    assert_eq!(server.negotiate(&client), Some(b"h3".to_vec()));
    let client = config(Role::Client, &[b"h2"]);
    assert_eq!(server.negotiate(&client), Some(b"h2".to_vec()));
}

#[test]
fn accept_any_declares_ten_schemes_in_order() {
    let schemes = supported_verify_schemes();
    assert_eq!(
        schemes,
        vec![
            SignatureScheme::RsaPkcs1Sha256,
            SignatureScheme::RsaPkcs1Sha384,
            SignatureScheme::RsaPkcs1Sha512,
            SignatureScheme::EcdsaNistp256Sha256,
            SignatureScheme::EcdsaNistp384Sha384,
            SignatureScheme::EcdsaNistp521Sha512,
            SignatureScheme::RsaPssSha256,
            SignatureScheme::RsaPssSha384,
            SignatureScheme::RsaPssSha512,
            SignatureScheme::Ed25519,
        ]
    );
}

#[test]
fn scheme_codes_are_those_of_the_tls_library() {
    let expected = [
        rustls::SignatureScheme::RSA_PKCS1_SHA256,
        rustls::SignatureScheme::RSA_PKCS1_SHA384,
        rustls::SignatureScheme::RSA_PKCS1_SHA512,
        rustls::SignatureScheme::ECDSA_NISTP256_SHA256,
        rustls::SignatureScheme::ECDSA_NISTP384_SHA384,
        rustls::SignatureScheme::ECDSA_NISTP521_SHA512,
        rustls::SignatureScheme::RSA_PSS_SHA256,
        rustls::SignatureScheme::RSA_PSS_SHA384,
        rustls::SignatureScheme::RSA_PSS_SHA512,
        rustls::SignatureScheme::ED25519,
    ];
    let schemes = supported_verify_schemes();
    assert_eq!(schemes.len(), expected.len());
    for (scheme, outside) in schemes.iter().zip(expected.iter()) {
        assert_eq!(scheme.code(), u16::from(*outside));
        assert_eq!(rustls::SignatureScheme::from(scheme.code()), *outside);
    }
    assert_eq!(SignatureScheme::Ed25519.code(), 0x0807);
    assert_eq!(SignatureScheme::RsaPkcs1Sha256.code(), 0x0401);
}

#[test]
fn generated_identity_has_one_certificate_for_its_subject() {
    let identity = match make_server_identity() {
        Ok(identity) => identity,
        Err(_) => panic!("generation failed"),
    };
    assert_eq!(identity.subject(), "localhost");
    assert_eq!(identity.subject(), DEV_HOSTNAME);
    assert_eq!(identity.cert_chain().len(), 1);
    assert!(!identity.cert_chain()[0].is_empty());
    assert_eq!(identity.cert_chain()[0][0], 0x30);
    assert!(!identity.private_key().is_empty());
    assert_eq!(identity.private_key()[0], 0x30);
}

#[test]
fn every_generation_makes_a_new_key() {
    let first = generate_self_signed_cert("localhost").ok().unwrap();
    let second = generate_self_signed_cert("localhost").ok().unwrap();
    assert_ne!(first.private_key(), second.private_key());
    assert_ne!(first.cert_chain(), second.cert_chain());
}

#[test]
fn generation_fails_for_a_subject_that_is_no_name() {
    let outcome = generate_self_signed_cert("n\u{e4}me with spaces \u{1F600}");
    assert!(outcome.is_err());
}

#[test]
fn identity_needs_a_certificate() {
    assert!(ServerIdentity::from_der("localhost", vec![], vec![1, 2, 3]).is_none());
    let identity = ServerIdentity::from_der("host", vec![vec![1], vec![2, 3]], vec![4]).unwrap();
    assert_eq!(identity.subject(), "host");
    assert_eq!(identity.cert_chain(), &vec![vec![1u8], vec![2, 3]]);
    assert_eq!(identity.private_key(), &vec![4u8]);
}

#[test]
fn generated_identity_makes_a_server_configuration() {
    let identity = make_server_identity().ok().unwrap();
    let security = match make_server_security_config(&identity) {
        Ok(security) => security,
        Err(error) => panic!("refused: {}", error.cause),
    };
    assert_eq!(security.config.role(), Role::Server);
    assert_eq!(security.config.policy(), VerificationPolicy::Standard);
    assert_eq!(security.config.protocols(), &vec![b"h3".to_vec()]);
    assert_eq!(security.tls.alpn_protocols, vec![b"h3".to_vec()]);
}

#[test]
fn malformed_key_is_refused() {
    let good = make_server_identity().ok().unwrap();
    let chain = good.cert_chain().clone();
    let broken = ServerIdentity::from_der("localhost", chain, vec![0x30, 0x03, 1, 2, 3]).unwrap();
    assert!(make_server_security_config(&broken).is_err());
}

#[test]
fn key_of_another_certificate_is_refused() {
    let first = make_server_identity().ok().unwrap();
    let second = make_server_identity().ok().unwrap();
    let mixed = ServerIdentity::from_der(
        "localhost",
        first.cert_chain().clone(),
        second.private_key().clone(),
    )
    .unwrap();
    assert!(make_server_security_config(&mixed).is_err());
}

#[test]
fn malformed_certificate_is_refused() {
    let good = make_server_identity().ok().unwrap();
    let broken =
        ServerIdentity::from_der("localhost", vec![vec![1, 2, 3]], good.private_key().clone())
            .unwrap();
    assert!(make_server_security_config(&broken).is_err());
}

#[test]
fn subject_outside_ascii_is_refused() {
    assert!(generate_self_signed_cert("m\u{fc}nchen.example").is_err());
    assert!(generate_self_signed_cert("\u{4f8b}\u{3048}.test").is_err());
    let ascii = generate_self_signed_cert("example.test").ok().unwrap();
    assert_eq!(ascii.subject(), "example.test");
    assert_eq!(ascii.cert_chain().len(), 1);
    let address = generate_self_signed_cert("127.0.0.1").ok().unwrap();
    assert_eq!(address.subject(), "127.0.0.1");
}
