//! Security configuration of the two roles, as plain values.
//!
//! A configuration names the role it is for, how that role judges the
//! identity of its peer, and the application protocols it is willing to
//! speak, in order of preference. Two peers can talk only if they share a
//! protocol; which one is chosen is decided here the way the transport
//! decides it.

use vstd::prelude::*;
use crate::text::{byte_strings, bytes_eq, copy_bytes};

verus! {

/// The one application protocol both roles of this crate speak.
pub open spec fn h3_protocol() -> Seq<u8> {
    seq![0x68u8, 0x33u8]
}

/// The role a configuration is for.
#[derive(Clone, Copy, Debug, PartialEq, Eq, Structural)]
pub enum Role {
    Client,
    Server,
}

/// How a role judges the identity its peer presents.
#[derive(Clone, Copy, Debug, PartialEq, Eq, Structural)]
pub enum VerificationPolicy {
    /// The peer's certificate chain must validate.
    Standard,
    /// Every identity is approved, unseen. For development against a
    /// self-signed server only: it gives up all protection against an
    /// impostor, and is never chosen unless asked for by name.
    AcceptAny,
}

impl Default for VerificationPolicy {
    /// The strict policy.
    fn default() -> (policy: VerificationPolicy)
        ensures
            policy == VerificationPolicy::Standard,
    {
        VerificationPolicy::Standard
    }
}

impl VerificationPolicy {
    /// Whether a check passes under this policy, given what validation
    /// found: under the strict policy only what validated, under the
    /// accept-any policy everything.
    pub fn approves(&self, validated: bool) -> (approved: bool)
        ensures
            approved == (*self == VerificationPolicy::AcceptAny || validated),
    {
        match self {
            VerificationPolicy::AcceptAny => true,
            VerificationPolicy::Standard => validated,
        }
    }
}

/// A signature scheme of the handshake.
#[derive(Clone, Copy, Debug, PartialEq, Eq, Structural)]
pub enum SignatureScheme {
    RsaPkcs1Sha256,
    RsaPkcs1Sha384,
    RsaPkcs1Sha512,
    EcdsaNistp256Sha256,
    EcdsaNistp384Sha384,
    EcdsaNistp521Sha512,
    RsaPssSha256,
    RsaPssSha384,
    RsaPssSha512,
    Ed25519,
}

/// The number a signature scheme has on the wire.
pub open spec fn scheme_code(scheme: SignatureScheme) -> u16 {
    match scheme {
        SignatureScheme::RsaPkcs1Sha256 => 0x0401,
        SignatureScheme::RsaPkcs1Sha384 => 0x0501,
        SignatureScheme::RsaPkcs1Sha512 => 0x0601,
        SignatureScheme::EcdsaNistp256Sha256 => 0x0403,
        SignatureScheme::EcdsaNistp384Sha384 => 0x0503,
        SignatureScheme::EcdsaNistp521Sha512 => 0x0603,
        SignatureScheme::RsaPssSha256 => 0x0804,
        SignatureScheme::RsaPssSha384 => 0x0805,
        SignatureScheme::RsaPssSha512 => 0x0806,
        SignatureScheme::Ed25519 => 0x0807,
    }
}

/// The schemes that the accept-any policy declares it can check, in the
/// order it declares them.
pub open spec fn accept_any_schemes() -> Seq<SignatureScheme> {
    seq![
        SignatureScheme::RsaPkcs1Sha256,
        SignatureScheme::RsaPkcs1Sha384,
        SignatureScheme::RsaPkcs1Sha512,
        SignatureScheme::EcdsaNistp256Sha256,
        SignatureScheme::EcdsaNistp384Sha384,
        SignatureScheme::EcdsaNistp521Sha512,
        SignatureScheme::RsaPssSha256,
        SignatureScheme::RsaPssSha384,
        SignatureScheme::RsaPssSha512,
        SignatureScheme::Ed25519,
    ]
}

impl SignatureScheme {
    /// The number this scheme has on the wire.
    pub fn code(&self) -> (code: u16)
        ensures
            code == scheme_code(*self),
    {
        match self {
            SignatureScheme::RsaPkcs1Sha256 => 0x0401,
            SignatureScheme::RsaPkcs1Sha384 => 0x0501,
            SignatureScheme::RsaPkcs1Sha512 => 0x0601,
            SignatureScheme::EcdsaNistp256Sha256 => 0x0403,
            SignatureScheme::EcdsaNistp384Sha384 => 0x0503,
            SignatureScheme::EcdsaNistp521Sha512 => 0x0603,
            SignatureScheme::RsaPssSha256 => 0x0804,
            SignatureScheme::RsaPssSha384 => 0x0805,
            SignatureScheme::RsaPssSha512 => 0x0806,
            SignatureScheme::Ed25519 => 0x0807,
        }
    }
}

/// The signature schemes that the accept-any policy declares it can check.
/// It checks none of them: the list only keeps the handshake going.
pub fn supported_verify_schemes() -> (schemes: Vec<SignatureScheme>)
    ensures
        schemes@ == accept_any_schemes(),
{
    let mut schemes: Vec<SignatureScheme> = Vec::new();
    schemes.push(SignatureScheme::RsaPkcs1Sha256);
    schemes.push(SignatureScheme::RsaPkcs1Sha384);
    schemes.push(SignatureScheme::RsaPkcs1Sha512);
    schemes.push(SignatureScheme::EcdsaNistp256Sha256);
    schemes.push(SignatureScheme::EcdsaNistp384Sha384);
    schemes.push(SignatureScheme::EcdsaNistp521Sha512);
    schemes.push(SignatureScheme::RsaPssSha256);
    schemes.push(SignatureScheme::RsaPssSha384);
    schemes.push(SignatureScheme::RsaPssSha512);
    schemes.push(SignatureScheme::Ed25519);
    assert(schemes@ =~= accept_any_schemes());
    schemes
}

/// No two signature schemes share a number, and none occurs twice in the
/// list of the accept-any policy.
pub proof fn lemma_scheme_codes_are_distinct(a: SignatureScheme, b: SignatureScheme)
    ensures
        scheme_code(a) == scheme_code(b) ==> a == b,
        accept_any_schemes().no_duplicates(),
        accept_any_schemes().contains(a),
{
    let all = accept_any_schemes();
    assert(all[0] == SignatureScheme::RsaPkcs1Sha256);
    assert(all[1] == SignatureScheme::RsaPkcs1Sha384);
    assert(all[2] == SignatureScheme::RsaPkcs1Sha512);
    assert(all[3] == SignatureScheme::EcdsaNistp256Sha256);
    assert(all[4] == SignatureScheme::EcdsaNistp384Sha384);
    assert(all[5] == SignatureScheme::EcdsaNistp521Sha512);
    assert(all[6] == SignatureScheme::RsaPssSha256);
    assert(all[7] == SignatureScheme::RsaPssSha384);
    assert(all[8] == SignatureScheme::RsaPssSha512);
    assert(all[9] == SignatureScheme::Ed25519);
}

/// Whether two lists of protocols have a protocol in common.
pub open spec fn share_a_protocol(ours: Seq<Seq<u8>>, theirs: Seq<Seq<u8>>) -> bool {
    exists|i: int, j: int|
        0 <= i < ours.len() && 0 <= j < theirs.len() && #[trigger] ours[i] == #[trigger] theirs[j]
}

/// Whether `at` is the position of the first protocol of `ours` that
/// `theirs` holds too.
pub open spec fn is_first_common(ours: Seq<Seq<u8>>, theirs: Seq<Seq<u8>>, at: int) -> bool {
    &&& 0 <= at < ours.len()
    &&& theirs.contains(ours[at])
    &&& forall|k: int| 0 <= k < at ==> !theirs.contains(#[trigger] ours[k])
}

/// The protocol two peers settle on: the first of the server's protocols
/// that the client offers too. None where they share no protocol.
pub open spec fn negotiated(server: Seq<Seq<u8>>, client: Seq<Seq<u8>>) -> Option<Seq<u8>> {
    if exists|at: int| is_first_common(server, client, at) {
        Some(server[choose|at: int| is_first_common(server, client, at)])
    } else {
        None
    }
}

/// A security configuration as plain values.
pub struct SecurityConfigView {
    pub role: Role,
    pub policy: VerificationPolicy,
    pub protocols: Seq<Seq<u8>>,
}

/// The security configuration of one role. It names at least one protocol.
pub struct SecurityConfig {
    role: Role,
    policy: VerificationPolicy,
    protocols: Vec<Vec<u8>>,
}

/// The configuration of the client: it approves every server identity and
/// speaks the one protocol of this crate.
pub open spec fn client_security() -> SecurityConfigView {
    SecurityConfigView {
        role: Role::Client,
        policy: VerificationPolicy::AcceptAny,
        protocols: seq![h3_protocol()],
    }
}

/// The configuration of the server: it asks the client for no certificate,
/// so its policy stays the strict default, and speaks the one protocol of
/// this crate.
pub open spec fn server_security() -> SecurityConfigView {
    SecurityConfigView {
        role: Role::Server,
        policy: VerificationPolicy::Standard,
        protocols: seq![h3_protocol()],
    }
}

impl View for SecurityConfig {
    type V = SecurityConfigView;

    closed spec fn view(&self) -> SecurityConfigView {
        SecurityConfigView {
            role: self.role,
            policy: self.policy,
            protocols: byte_strings(self.protocols@),
        }
    }
}

/// The identifier of the one application protocol both roles speak.
pub fn alpn_h3() -> (protocol: Vec<u8>)
    ensures
        protocol@ == h3_protocol(),
{
    let mut protocol: Vec<u8> = Vec::new();
    protocol.push(0x68u8);
    protocol.push(0x33u8);
    assert(protocol@ =~= h3_protocol());
    protocol
}

/// Whether `protocols` holds `wanted`.
fn offers(protocols: &Vec<Vec<u8>>, wanted: &Vec<u8>) -> (found: bool)
    ensures
        found == byte_strings(protocols@).contains(wanted@),
{
    let ghost list = byte_strings(protocols@);
    let mut j: usize = 0;
    while j < protocols.len()
        invariant
            j <= protocols@.len(),
            list == byte_strings(protocols@),
            forall|k: int| 0 <= k < j ==> list[k] != wanted@,
        decreases protocols@.len() - j,
    {
        if bytes_eq(protocols[j].as_slice(), wanted.as_slice()) {
            assert(list[j as int] == wanted@);
            return true;
        }
        j += 1;
    }
    false
}

impl SecurityConfig {
    #[verifier::type_invariant]
    spec fn names_a_protocol(self) -> bool {
        self.protocols@.len() > 0
    }

    /// A configuration for `role` with the given policy and protocols, in
    /// order of preference. None where no protocol is given.
    pub fn new(role: Role, policy: VerificationPolicy, protocols: Vec<Vec<u8>>) -> (config: Option<
        SecurityConfig,
    >)
        ensures
            config is Some <==> protocols@.len() > 0,
            config matches Some(c) ==> c@ == (SecurityConfigView {
                role,
                policy,
                protocols: byte_strings(protocols@),
            }),
    {
        if protocols.len() == 0 {
            None
        } else {
            Some(SecurityConfig { role, policy, protocols })
        }
    }

    /// The role this configuration is for.
    pub fn role(&self) -> (role: Role)
        ensures
            role == self@.role,
    {
        self.role
    }

    /// How this role judges the identity of its peer.
    pub fn policy(&self) -> (policy: VerificationPolicy)
        ensures
            policy == self@.policy,
    {
        self.policy
    }

    /// The protocols this role speaks, in order of preference; at least one.
    pub fn protocols(&self) -> (protocols: &Vec<Vec<u8>>)
        ensures
            byte_strings(protocols@) == self@.protocols,
            protocols@.len() > 0,
    {
        proof {
            use_type_invariant(self);
        }
        &self.protocols
    }

    /// The protocol that a server with this configuration settles on with a
    /// client that offers the protocols of `client`: the first of its own
    /// protocols that the client offers too. None, and no connection,
    /// exactly where the two share no protocol.
    pub fn negotiate(&self, client: &SecurityConfig) -> (chosen: Option<Vec<u8>>)
        ensures
            chosen is Some <==> share_a_protocol(self@.protocols, client@.protocols),
            chosen matches Some(p) ==> Some(p@) == negotiated(self@.protocols, client@.protocols),
            chosen is None ==> negotiated(self@.protocols, client@.protocols) is None,
    {
        let ghost ours = self@.protocols;
        let ghost theirs = client@.protocols;
        let mut i: usize = 0;
        while i < self.protocols.len()
            invariant
                i <= self.protocols@.len(),
                ours == byte_strings(self.protocols@),
                theirs == byte_strings(client.protocols@),
                forall|k: int| 0 <= k < i ==> !theirs.contains(#[trigger] ours[k]),
            decreases self.protocols@.len() - i,
        {
            if offers(&client.protocols, &self.protocols[i]) {
                proof {
                    let at = i as int;
                    assert(is_first_common(ours, theirs, at));
                    lemma_first_common_is_unique(ours, theirs, at);
                    let j = choose|j: int| 0 <= j < theirs.len() && theirs[j] == ours[at];
                    assert(ours[at] == theirs[j]);
                }
                return Some(copy_bytes(self.protocols[i].as_slice()));
            }
            i += 1;
        }
        proof {
            lemma_nothing_shared(ours, theirs);
        }
        None
    }
}

/// The first common protocol is found at one position only.
proof fn lemma_first_common_is_unique(ours: Seq<Seq<u8>>, theirs: Seq<Seq<u8>>, at: int)
    requires
        is_first_common(ours, theirs, at),
    ensures
        negotiated(ours, theirs) == Some(ours[at]),
{
    let other = choose|k: int| is_first_common(ours, theirs, k);
    assert(is_first_common(ours, theirs, other));
    if other < at {
        assert(!theirs.contains(ours[other]));
    } else if at < other {
        assert(!theirs.contains(ours[at]));
    }
}

/// Where the client offers none of the server's protocols, the two share
/// none and settle on none.
proof fn lemma_nothing_shared(ours: Seq<Seq<u8>>, theirs: Seq<Seq<u8>>)
    requires
        forall|k: int| 0 <= k < ours.len() ==> !theirs.contains(#[trigger] ours[k]),
    ensures
        !share_a_protocol(ours, theirs),
        negotiated(ours, theirs) is None,
{
    if share_a_protocol(ours, theirs) {
        let (i, j) = choose|i: int, j: int|
            0 <= i < ours.len() && 0 <= j < theirs.len() && #[trigger] ours[i]
                == #[trigger] theirs[j];
        assert(theirs.contains(ours[i]));
    }
    if exists|at: int| is_first_common(ours, theirs, at) {
        let at = choose|at: int| is_first_common(ours, theirs, at);
        assert(theirs.contains(ours[at]));
    }
}

/// The configuration of the client. It approves every server identity
/// without looking at it, which is safe only against a server on the same
/// machine: the policy is written out here so that it is never a default.
pub fn make_client_security_config() -> (config: SecurityConfig)
    ensures
        config@ == client_security(),
{
    let mut protocols: Vec<Vec<u8>> = Vec::new();
    protocols.push(alpn_h3());
    let config = SecurityConfig {
        role: Role::Client,
        policy: VerificationPolicy::AcceptAny,
        protocols,
    };
    assert(config@.protocols =~= client_security().protocols);
    config
}

/// The plain part of the configuration of the server.
pub fn server_security_config() -> (config: SecurityConfig)
    ensures
        config@ == server_security(),
{
    let mut protocols: Vec<Vec<u8>> = Vec::new();
    protocols.push(alpn_h3());
    let config = SecurityConfig {
        role: Role::Server,
        policy: VerificationPolicy::default(),
        protocols,
    };
    assert(config@.protocols =~= server_security().protocols);
    config
}

/// Negotiation succeeds exactly where the two lists of protocols meet, and
/// then yields a protocol of both.
pub proof fn lemma_negotiation_needs_overlap(server: Seq<Seq<u8>>, client: Seq<Seq<u8>>)
    ensures
        negotiated(server, client) is Some <==> share_a_protocol(server, client),
        negotiated(server, client) matches Some(p) ==> server.contains(p) && client.contains(p),
{
    if share_a_protocol(server, client) {
        let (i, j) = choose|i: int, j: int|
            0 <= i < server.len() && 0 <= j < client.len() && #[trigger] server[i]
                == #[trigger] client[j];
        assert(client.contains(server[i]));
        lemma_some_first_common(server, client, i);
    }
    if exists|at: int| is_first_common(server, client, at) {
        let at = choose|at: int| is_first_common(server, client, at);
        let j = choose|j: int| 0 <= j < client.len() && client[j] == server[at];
        assert(server[at] == client[j]);
        assert(server.contains(server[at]));
    }
}

/// Where the client offers a protocol of the server at all, it offers a
/// first one.
proof fn lemma_some_first_common(server: Seq<Seq<u8>>, client: Seq<Seq<u8>>, upto: int)
    requires
        0 <= upto < server.len(),
        client.contains(server[upto]),
    ensures
        exists|at: int| is_first_common(server, client, at),
    decreases upto,
{
    if exists|k: int| 0 <= k < upto && client.contains(#[trigger] server[k]) {
        let k = choose|k: int| 0 <= k < upto && client.contains(#[trigger] server[k]);
        lemma_some_first_common(server, client, k);
    } else {
        assert(is_first_common(server, client, upto));
    }
}

/// The client and the server of this crate can always talk: their
/// configurations settle on the one protocol both name.
pub proof fn lemma_client_and_server_agree()
    ensures
        negotiated(server_security().protocols, client_security().protocols) == Some(
            h3_protocol(),
        ),
{
    let server = server_security().protocols;
    let client = client_security().protocols;
    assert(client[0] == server[0]);
    assert(client.contains(server[0]));
    assert(is_first_common(server, client, 0));
    lemma_first_common_is_unique(server, client, 0);
}

} // verus!
