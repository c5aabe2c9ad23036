//! What a client knows about server certificates, as far as it carries that
//! knowledge between the connection task and the application.

use vstd::prelude::*;

use tokio::sync::oneshot;

verus! {

/// The sending half of a single-use channel. It is only carried around.
#[verifier::external_type_specification]
#[verifier::external_body]
#[verifier::reject_recursive_types(T)]
pub struct ExOneshotSender<T>(tokio::sync::oneshot::Sender<T>);

/// A certificate, as its DER bytes.
#[derive(Debug)]
pub struct Certificate {
    pub der: Vec<u8>,
}

/// Name under which a server is known.
#[derive(Debug, Clone)]
pub struct ServerName {
    pub name: String,
}

/// Digest of a server certificate.
#[derive(Debug, Clone)]
pub struct CertificateFingerprint {
    pub bytes: Vec<u8>,
}

/// What is known about the certificate that a server presented.
#[derive(Debug)]
pub struct CertVerificationInfo {
    pub server_name: ServerName,
    pub fingerprint: CertificateFingerprint,
    pub known_fingerprint: Option<CertificateFingerprint>,
}

/// Outcome of holding a server certificate against the known hosts.
#[derive(Debug)]
pub enum CertVerificationStatus {
    /// No certificate is on record for this server.
    UnknownCertificate(CertVerificationInfo),
    /// Another certificate is on record for this server.
    UntrustedCertificate(CertVerificationInfo),
    /// This certificate is on record for this server.
    TrustedCertificate(CertVerificationInfo),
}

/// What the certificate verifier is told to do.
#[derive(Debug, Clone, Copy, PartialEq, Eq, Structural)]
pub enum CertVerifierAction {
    AbortConnection,
    TrustOnce,
    TrustAndStore,
}

/// How the verifier comes to its action.
#[derive(Debug, Clone, Copy, PartialEq, Eq, Structural)]
pub enum CertVerifierBehaviour {
    ImmediateAction(CertVerifierAction),
    RequestClientAction,
}

/// The behaviour for each verification status.
#[derive(Debug, Clone)]
pub struct VerifierBehaviours {
    pub unknown: CertVerifierBehaviour,
    pub untrusted: CertVerifierBehaviour,
    pub trusted: CertVerifierBehaviour,
}

/// Fingerprints on record, by server.
#[derive(Debug, Clone)]
pub struct CertStore {
    pub entries: Vec<(ServerName, CertificateFingerprint)>,
}

/// Where the known hosts come from.
#[derive(Debug, Clone)]
pub enum KnownHosts {
    Store(CertStore),
    HostsFile(String),
}

/// Settings of the trust-on-first-use scheme.
#[derive(Debug, Clone)]
pub struct TrustOnFirstUseConfig {
    pub known_hosts: KnownHosts,
    pub verifier_behaviour: VerifierBehaviours,
}

/// How the certificate of a server is verified.
#[derive(Debug, Clone)]
pub enum CertificateVerificationMode {
    SkipVerification,
    SignedByCertificateAuthority,
    TrustOnFirstUse(TrustOnFirstUseConfig),
}

/// Raised when the application has to decide about a server certificate. The
/// decision goes back through `action_sender`.
#[derive(Debug)]
pub struct CertificateInteractionEvent {
    pub status: CertVerificationStatus,
    pub action_sender: oneshot::Sender<CertVerifierAction>,
}

/// Raised when a certificate became trusted for a server.
#[derive(Debug)]
pub struct CertificateUpdateEvent {
    pub server_name: ServerName,
    pub fingerprint: CertificateFingerprint,
}

/// What the transport has to be set up with to verify server certificates.
#[derive(Debug)]
pub enum ClientCrypto {
    /// Accept every certificate.
    SkipServerVerification,
    /// Accept what the certificate authorities of the platform signed.
    NativeRoots,
    /// Hold certificates against a store of known hosts.
    TrustOnFirstUse {
        store: CertStore,
        verifier_behaviour: VerifierBehaviours,
        store_file: Option<String>,
    },
}

/// First answer of [`configure_client`].
#[derive(Debug)]
pub enum ConfigureStep {
    /// Nothing has to be loaded.
    Ready(ClientCrypto),
    /// The known hosts have to be loaded; what comes back goes to
    /// [`known_hosts_loaded`], with the behaviours.
    LoadKnownHosts { known_hosts: KnownHosts, verifier_behaviour: VerifierBehaviours },
}

/// The first step that each verification mode asks for.
pub open spec fn configure_step(cert_mode: CertificateVerificationMode) -> ConfigureStep {
    match cert_mode {
        CertificateVerificationMode::SkipVerification => ConfigureStep::Ready(
            ClientCrypto::SkipServerVerification,
        ),
        CertificateVerificationMode::SignedByCertificateAuthority => ConfigureStep::Ready(
            ClientCrypto::NativeRoots,
        ),
        CertificateVerificationMode::TrustOnFirstUse(config) => ConfigureStep::LoadKnownHosts {
            known_hosts: config.known_hosts,
            verifier_behaviour: config.verifier_behaviour,
        },
    }
}

/// Decides how the transport is set up for a verification mode. Only
/// trust-on-first-use has to load anything, and so can fail.
pub fn configure_client(cert_mode: CertificateVerificationMode) -> (step: ConfigureStep)
    ensures
        step == configure_step(cert_mode),
        match cert_mode {
            CertificateVerificationMode::SkipVerification => step matches ConfigureStep::Ready(
                ClientCrypto::SkipServerVerification,
            ),
            CertificateVerificationMode::SignedByCertificateAuthority => step matches ConfigureStep::Ready(
                ClientCrypto::NativeRoots,
            ),
            CertificateVerificationMode::TrustOnFirstUse(config) => {
                &&& step matches ConfigureStep::LoadKnownHosts { known_hosts, verifier_behaviour }
                &&& known_hosts == config.known_hosts
                &&& verifier_behaviour.unknown == config.verifier_behaviour.unknown
                &&& verifier_behaviour.untrusted == config.verifier_behaviour.untrusted
                &&& verifier_behaviour.trusted == config.verifier_behaviour.trusted
            },
        },
{
    match cert_mode {
        CertificateVerificationMode::SkipVerification => {
            ConfigureStep::Ready(ClientCrypto::SkipServerVerification)
        },
        CertificateVerificationMode::SignedByCertificateAuthority => {
            ConfigureStep::Ready(ClientCrypto::NativeRoots)
        },
        CertificateVerificationMode::TrustOnFirstUse(config) => {
            ConfigureStep::LoadKnownHosts {
                known_hosts: config.known_hosts,
                verifier_behaviour: config.verifier_behaviour,
            }
        },
    }
}

/// Takes up the loaded store and the file it came from, or passes on why
/// loading failed.
pub fn known_hosts_loaded<E>(
    verifier_behaviour: VerifierBehaviours,
    loaded: Result<(CertStore, Option<String>), E>,
) -> (res: Result<ClientCrypto, E>)
    ensures
        match loaded {
            Ok((store, store_file)) => res == Ok::<ClientCrypto, E>(
                ClientCrypto::TrustOnFirstUse { store, verifier_behaviour, store_file },
            ),
            Err(e) => res == Err::<ClientCrypto, E>(e),
        },
        res is Ok <==> loaded is Ok,
        res matches Ok(crypto) ==> {
            &&& crypto is TrustOnFirstUse
            &&& crypto->TrustOnFirstUse_store == loaded->Ok_0.0
            &&& crypto->TrustOnFirstUse_store_file == loaded->Ok_0.1
            &&& crypto->TrustOnFirstUse_verifier_behaviour.unknown == verifier_behaviour.unknown
            &&& crypto->TrustOnFirstUse_verifier_behaviour.untrusted == verifier_behaviour.untrusted
            &&& crypto->TrustOnFirstUse_verifier_behaviour.trusted == verifier_behaviour.trusted
        },
{
    match loaded {
        Ok((store, store_file)) => Ok(
            ClientCrypto::TrustOnFirstUse { store, verifier_behaviour, store_file },
        ),
        Err(e) => Err(e),
    }
}

} // verus!
