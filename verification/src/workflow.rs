//! The provisioning workflow: ensure the CA certificate is stored, ensure
//! the private identity is stored, then fetch the verification chain under
//! the CA's freshly recomputed fingerprint and overwrite the stored chain.
//!
//! Two renderings share this module. [`next_step`] is the pure decision
//! step of the workflow: from the current state and the event that the
//! surrounding process observed, it yields the next state and the next
//! operation to perform, so the process that owns the real endpoints and
//! the real backend only executes operations and reports events.
//! [`run_cycle`] runs one whole cycle against an in-memory storage record,
//! with the remote responses handed in as values; its contract carries the
//! idempotency guarantees of the workflow.

use vstd::prelude::*;

use crate::certs::{accepts_certificate, accepts_private_key, create_csr, fingerprint_of};
use crate::errors::ProviderError;
use crate::storage::{concat_of, StorageRecord};

verus! {

/// Where one workflow cycle stands. States that carry bytes hold what a
/// later operation needs: the generated key while the request is out for
/// signature, the CA bytes while the chain fetch is out.
pub enum WorkflowState {
    Init,
    CheckingCa,
    FetchingCa,
    StoringCa,
    CheckingCert,
    MakingCsr,
    SigningCsr { key_pem: Vec<u8> },
    StoringCert,
    ReadingCa,
    FetchingChain { ca: Vec<u8> },
    StoringChain,
    Done,
    Failed,
}

/// The abstract value of a [`WorkflowState`].
pub enum WorkflowStateView {
    Init,
    CheckingCa,
    FetchingCa,
    StoringCa,
    CheckingCert,
    MakingCsr,
    SigningCsr { key_pem: Seq<u8> },
    StoringCert,
    ReadingCa,
    FetchingChain { ca: Seq<u8> },
    StoringChain,
    Done,
    Failed,
}

impl View for WorkflowState {
    type V = WorkflowStateView;

    open spec fn view(&self) -> WorkflowStateView {
        match *self {
            WorkflowState::Init => WorkflowStateView::Init,
            WorkflowState::CheckingCa => WorkflowStateView::CheckingCa,
            WorkflowState::FetchingCa => WorkflowStateView::FetchingCa,
            WorkflowState::StoringCa => WorkflowStateView::StoringCa,
            WorkflowState::CheckingCert => WorkflowStateView::CheckingCert,
            WorkflowState::MakingCsr => WorkflowStateView::MakingCsr,
            WorkflowState::SigningCsr { ref key_pem } => WorkflowStateView::SigningCsr {
                key_pem: key_pem@,
            },
            WorkflowState::StoringCert => WorkflowStateView::StoringCert,
            WorkflowState::ReadingCa => WorkflowStateView::ReadingCa,
            WorkflowState::FetchingChain { ref ca } => WorkflowStateView::FetchingChain {
                ca: ca@,
            },
            WorkflowState::StoringChain => WorkflowStateView::StoringChain,
            WorkflowState::Done => WorkflowStateView::Done,
            WorkflowState::Failed => WorkflowStateView::Failed,
        }
    }
}

/// One operation the surrounding process performs for the workflow. The
/// storage operations go to the selected backend; `FetchCa`, `SignCsr` and
/// `FetchChain` go to the PKI and repository endpoints; `MakeCsr` is local
/// key and request generation.
pub enum WorkflowOp {
    CheckCa,
    FetchCa,
    StoreCa { certificate: Vec<u8> },
    CheckCert,
    MakeCsr { common_name: String },
    SignCsr { csr: Vec<u8> },
    StoreCert { certificate: Vec<u8>, key: Vec<u8> },
    ReadCa,
    FetchChain { hash: String },
    StoreChain { certificates: Vec<Vec<u8>> },
    Finish,
    Abort,
}

/// The abstract value of a [`WorkflowOp`].
pub enum WorkflowOpView {
    CheckCa,
    FetchCa,
    StoreCa { certificate: Seq<u8> },
    CheckCert,
    MakeCsr { common_name: Seq<char> },
    SignCsr { csr: Seq<u8> },
    StoreCert { certificate: Seq<u8>, key: Seq<u8> },
    ReadCa,
    FetchChain { hash: Seq<char> },
    StoreChain { certificates: Seq<Seq<u8>> },
    Finish,
    Abort,
}

impl View for WorkflowOp {
    type V = WorkflowOpView;

    open spec fn view(&self) -> WorkflowOpView {
        match *self {
            WorkflowOp::CheckCa => WorkflowOpView::CheckCa,
            WorkflowOp::FetchCa => WorkflowOpView::FetchCa,
            WorkflowOp::StoreCa { ref certificate } => WorkflowOpView::StoreCa {
                certificate: certificate@,
            },
            WorkflowOp::CheckCert => WorkflowOpView::CheckCert,
            WorkflowOp::MakeCsr { ref common_name } => WorkflowOpView::MakeCsr {
                common_name: common_name@,
            },
            WorkflowOp::SignCsr { ref csr } => WorkflowOpView::SignCsr { csr: csr@ },
            WorkflowOp::StoreCert { ref certificate, ref key } => WorkflowOpView::StoreCert {
                certificate: certificate@,
                key: key@,
            },
            WorkflowOp::ReadCa => WorkflowOpView::ReadCa,
            WorkflowOp::FetchChain { ref hash } => WorkflowOpView::FetchChain { hash: hash@ },
            WorkflowOp::StoreChain { ref certificates } => WorkflowOpView::StoreChain {
                certificates: certificates.deep_view(),
            },
            WorkflowOp::Finish => WorkflowOpView::Finish,
            WorkflowOp::Abort => WorkflowOpView::Abort,
        }
    }
}

/// What the surrounding process observed for the last operation: the
/// result it carried back. A failed operation has no event; the process
/// aborts the cycle, as any failure aborts it without rollback.
pub enum WorkflowEvent {
    Start,
    CaPresent { present: bool },
    CaFetched { certificate: Vec<u8> },
    Stored,
    CertPresent { present: bool },
    CsrMade { key_pem: Vec<u8>, csr: Vec<u8> },
    CertSigned { certificate: Vec<u8> },
    CaRead { certificate: Vec<u8>, hash: String },
    ChainFetched { certificates: Vec<Vec<u8>> },
}

/// The abstract value of a [`WorkflowEvent`].
pub enum WorkflowEventView {
    Start,
    CaPresent { present: bool },
    CaFetched { certificate: Seq<u8> },
    Stored,
    CertPresent { present: bool },
    CsrMade { key_pem: Seq<u8>, csr: Seq<u8> },
    CertSigned { certificate: Seq<u8> },
    CaRead { certificate: Seq<u8>, hash: Seq<char> },
    ChainFetched { certificates: Seq<Seq<u8>> },
}

impl View for WorkflowEvent {
    type V = WorkflowEventView;

    open spec fn view(&self) -> WorkflowEventView {
        match *self {
            WorkflowEvent::Start => WorkflowEventView::Start,
            WorkflowEvent::CaPresent { present } => WorkflowEventView::CaPresent { present },
            WorkflowEvent::CaFetched { ref certificate } => WorkflowEventView::CaFetched {
                certificate: certificate@,
            },
            WorkflowEvent::Stored => WorkflowEventView::Stored,
            WorkflowEvent::CertPresent { present } => WorkflowEventView::CertPresent { present },
            WorkflowEvent::CsrMade { ref key_pem, ref csr } => WorkflowEventView::CsrMade {
                key_pem: key_pem@,
                csr: csr@,
            },
            WorkflowEvent::CertSigned { ref certificate } => WorkflowEventView::CertSigned {
                certificate: certificate@,
            },
            WorkflowEvent::CaRead { ref certificate, ref hash } => WorkflowEventView::CaRead {
                certificate: certificate@,
                hash: hash@,
            },
            WorkflowEvent::ChainFetched { ref certificates } => WorkflowEventView::ChainFetched {
                certificates: certificates.deep_view(),
            },
        }
    }
}

/// The transition table of the workflow. The ordering of the cycle is
/// fixed: the CA is ensured before the certificate, and both before the
/// chain fetch, whose fingerprint comes from the CA read back fresh in the
/// same cycle. A present artifact is never fetched or signed again. The
/// chain stored is the fetched list with the CA appended last. Any event
/// that its state does not expect aborts the cycle.
pub open spec fn spec_next_step(
    state: WorkflowStateView,
    common_name: Seq<char>,
    event: WorkflowEventView,
) -> (WorkflowStateView, WorkflowOpView) {
    match (state, event) {
        (WorkflowStateView::Init, WorkflowEventView::Start) => (
            WorkflowStateView::CheckingCa,
            WorkflowOpView::CheckCa,
        ),
        (WorkflowStateView::CheckingCa, WorkflowEventView::CaPresent { present }) => if present {
            (WorkflowStateView::CheckingCert, WorkflowOpView::CheckCert)
        } else {
            (WorkflowStateView::FetchingCa, WorkflowOpView::FetchCa)
        },
        (WorkflowStateView::FetchingCa, WorkflowEventView::CaFetched { certificate }) => (
            WorkflowStateView::StoringCa,
            WorkflowOpView::StoreCa { certificate },
        ),
        (WorkflowStateView::StoringCa, WorkflowEventView::Stored) => (
            WorkflowStateView::CheckingCert,
            WorkflowOpView::CheckCert,
        ),
        (WorkflowStateView::CheckingCert, WorkflowEventView::CertPresent { present }) => if present {
            (WorkflowStateView::ReadingCa, WorkflowOpView::ReadCa)
        } else {
            (WorkflowStateView::MakingCsr, WorkflowOpView::MakeCsr { common_name })
        },
        (WorkflowStateView::MakingCsr, WorkflowEventView::CsrMade { key_pem, csr }) => (
            WorkflowStateView::SigningCsr { key_pem },
            WorkflowOpView::SignCsr { csr },
        ),
        (
            WorkflowStateView::SigningCsr { key_pem },
            WorkflowEventView::CertSigned { certificate },
        ) => (
            WorkflowStateView::StoringCert,
            WorkflowOpView::StoreCert { certificate, key: key_pem },
        ),
        (WorkflowStateView::StoringCert, WorkflowEventView::Stored) => (
            WorkflowStateView::ReadingCa,
            WorkflowOpView::ReadCa,
        ),
        (WorkflowStateView::ReadingCa, WorkflowEventView::CaRead { certificate, hash }) => (
            WorkflowStateView::FetchingChain { ca: certificate },
            WorkflowOpView::FetchChain { hash },
        ),
        (
            WorkflowStateView::FetchingChain { ca },
            WorkflowEventView::ChainFetched { certificates },
        ) => (
            WorkflowStateView::StoringChain,
            WorkflowOpView::StoreChain { certificates: certificates.push(ca) },
        ),
        (WorkflowStateView::StoringChain, WorkflowEventView::Stored) => (
            WorkflowStateView::Done,
            WorkflowOpView::Finish,
        ),
        (_, _) => (WorkflowStateView::Failed, WorkflowOpView::Abort),
    }
}

/// One decision step of the workflow: from the current state and the
/// observed event to the next state and the next operation, exactly as the
/// transition table states.
pub fn next_step(state: WorkflowState, common_name: &str, event: WorkflowEvent) -> (r: (
    WorkflowState,
    WorkflowOp,
))
    ensures
        r.0@ == spec_next_step(state@, common_name@, event@).0,
        r.1@ == spec_next_step(state@, common_name@, event@).1,
{
    match state {
        WorkflowState::Init => match event {
            WorkflowEvent::Start => (WorkflowState::CheckingCa, WorkflowOp::CheckCa),
            _ => (WorkflowState::Failed, WorkflowOp::Abort),
        },
        WorkflowState::CheckingCa => match event {
            WorkflowEvent::CaPresent { present } => if present {
                (WorkflowState::CheckingCert, WorkflowOp::CheckCert)
            } else {
                (WorkflowState::FetchingCa, WorkflowOp::FetchCa)
            },
            _ => (WorkflowState::Failed, WorkflowOp::Abort),
        },
        WorkflowState::FetchingCa => match event {
            WorkflowEvent::CaFetched { certificate } => (
                WorkflowState::StoringCa,
                WorkflowOp::StoreCa { certificate },
            ),
            _ => (WorkflowState::Failed, WorkflowOp::Abort),
        },
        WorkflowState::StoringCa => match event {
            WorkflowEvent::Stored => (WorkflowState::CheckingCert, WorkflowOp::CheckCert),
            _ => (WorkflowState::Failed, WorkflowOp::Abort),
        },
        WorkflowState::CheckingCert => match event {
            WorkflowEvent::CertPresent { present } => if present {
                (WorkflowState::ReadingCa, WorkflowOp::ReadCa)
            } else {
                (
                    WorkflowState::MakingCsr,
                    WorkflowOp::MakeCsr { common_name: common_name.to_owned() },
                )
            },
            _ => (WorkflowState::Failed, WorkflowOp::Abort),
        },
        WorkflowState::MakingCsr => match event {
            WorkflowEvent::CsrMade { key_pem, csr } => (
                WorkflowState::SigningCsr { key_pem },
                WorkflowOp::SignCsr { csr },
            ),
            _ => (WorkflowState::Failed, WorkflowOp::Abort),
        },
        WorkflowState::SigningCsr { key_pem } => match event {
            WorkflowEvent::CertSigned { certificate } => (
                WorkflowState::StoringCert,
                WorkflowOp::StoreCert { certificate, key: key_pem },
            ),
            _ => (WorkflowState::Failed, WorkflowOp::Abort),
        },
        WorkflowState::StoringCert => match event {
            WorkflowEvent::Stored => (WorkflowState::ReadingCa, WorkflowOp::ReadCa),
            _ => (WorkflowState::Failed, WorkflowOp::Abort),
        },
        WorkflowState::ReadingCa => match event {
            WorkflowEvent::CaRead { certificate, hash } => (
                WorkflowState::FetchingChain { ca: certificate },
                WorkflowOp::FetchChain { hash },
            ),
            _ => (WorkflowState::Failed, WorkflowOp::Abort),
        },
        WorkflowState::FetchingChain { ca } => match event {
            WorkflowEvent::ChainFetched { certificates } => {
                let ghost certs0 = certificates.deep_view();
                let ghost ca0 = ca@;
                let mut certificates = certificates;
                certificates.push(ca);
                proof {
                    assert(certificates.deep_view() =~~= certs0.push(ca0));
                }
                (WorkflowState::StoringChain, WorkflowOp::StoreChain { certificates })
            },
            _ => (WorkflowState::Failed, WorkflowOp::Abort),
        },
        WorkflowState::StoringChain => match event {
            WorkflowEvent::Stored => (WorkflowState::Done, WorkflowOp::Finish),
            _ => (WorkflowState::Failed, WorkflowOp::Abort),
        },
        WorkflowState::Done => (WorkflowState::Failed, WorkflowOp::Abort),
        WorkflowState::Failed => (WorkflowState::Failed, WorkflowOp::Abort),
    }
}

/// When both artifacts are already present, the workflow issues no PKI
/// call: the CA check leads straight to the certificate check, and the
/// certificate check straight to reading the CA back for the chain fetch.
pub proof fn lemma_no_reissue_when_present(common_name: Seq<char>)
    ensures
        spec_next_step(
            WorkflowStateView::CheckingCa,
            common_name,
            WorkflowEventView::CaPresent { present: true },
        ) == (WorkflowStateView::CheckingCert, WorkflowOpView::CheckCert),
        spec_next_step(
            WorkflowStateView::CheckingCert,
            common_name,
            WorkflowEventView::CertPresent { present: true },
        ) == (WorkflowStateView::ReadingCa, WorkflowOpView::ReadCa),
{
}

/// What one cycle did: whether the CA had to be fetched, whether a
/// certificate had to be signed, the fingerprint under which the chain was
/// fetched, and how many certificates the stored chain holds.
#[derive(Debug)]
pub struct CycleReport {
    pub fetched_ca: bool,
    pub signed_certificate: bool,
    pub queried_hash: String,
    pub stored_chain_len: usize,
}

/// One whole provisioning cycle against an in-memory storage record, with
/// the remote responses handed in as values: `pki_ca` is what the PKI's
/// get-CA call returns, `pki_signed` what its sign call returns for the
/// generated request, and `repo_certs` what the repository returns for the
/// CA's fingerprint.
///
/// The contract carries the idempotency of the workflow: the CA is fetched
/// and the certificate signed exactly when the respective artifact is
/// absent, while the chain is fetched and fully overwritten on every
/// successful cycle, under a fingerprint recomputed from the stored CA
/// bytes of this same cycle. On storage that already holds both artifacts
/// success is owed: nothing random runs on that path. No artifact is ever
/// deleted, whatever the outcome; a failed cycle keeps everything already
/// stored and leaves the chain untouched.
pub fn run_cycle(
    store: &mut StorageRecord,
    common_name: &str,
    pki_ca: &Vec<u8>,
    pki_signed: &Vec<u8>,
    repo_certs: Vec<Vec<u8>>,
) -> (r: Result<CycleReport, ProviderError>)
    ensures
        final(store)@.backend == old(store)@.backend,
        final(store)@.ca == (if old(store).has_ca_spec() {
            old(store)@.ca
        } else {
            Some(pki_ca@)
        }),
        old(store).has_certificate_spec() ==> final(store)@.cert == old(store)@.cert
            && final(store)@.key == old(store)@.key,
        final(store)@.cert == old(store)@.cert || final(store)@.cert == Some(pki_signed@),
        old(store)@.key is Some ==> final(store)@.key is Some,
        old(store)@.cert_with_ca is Some ==> final(store)@.cert_with_ca is Some,
        old(store).has_ca_spec() && old(store).has_certificate_spec() ==> r is Ok,
        r is Err ==> final(store)@.chain == old(store)@.chain && r->Err_0
            == ProviderError::Crypto,
        r is Ok ==> ({
            let rep = r->Ok_0;
            let ca_now = final(store)@.ca->Some_0;
            &&& rep.fetched_ca == !old(store).has_ca_spec()
            &&& rep.signed_certificate == !old(store).has_certificate_spec()
            &&& final(store).has_ca_spec()
            &&& rep.queried_hash@ == fingerprint_of(ca_now)
            &&& final(store)@.chain == Some(concat_of(repo_certs.deep_view().push(ca_now)))
            &&& rep.stored_chain_len == repo_certs@.len() + 1
            &&& (final(store).has_certificate_spec() <==> (old(store).has_certificate_spec()
                || accepts_certificate(pki_signed@)))
            &&& (!old(store).has_certificate_spec() ==> final(store)@.cert == Some(pki_signed@))
            &&& (!old(store).has_certificate_spec() ==> (final(store)@.key matches Some(k)
                && accepts_private_key(k)))
        }),
{
    let ghost rc = repo_certs.deep_view();
    let mut fetched_ca = false;
    if !store.has_ca() {
        match store.store_ca(pki_ca) {
            Ok(()) => {},
            Err(e) => {
                return Err(e);
            },
        }
        fetched_ca = true;
    }
    let mut signed_certificate = false;
    if !store.has_certificate() {
        let key_pem = match create_csr(common_name) {
            Ok((key_pem, _csr_pem)) => key_pem,
            Err(e) => {
                return Err(e);
            },
        };
        // the PKI signs the request; its response is `pki_signed`
        match store.store_certificate(pki_signed, &key_pem) {
            Ok(()) => {},
            Err(e) => {
                return Err(e);
            },
        }
        signed_certificate = true;
    }
    let (ca_now, queried_hash) = match store.get_ca() {
        Ok(p) => p,
        Err(e) => {
            return Err(e);
        },
    };
    let mut chain = repo_certs;
    chain.push(ca_now);
    proof {
        assert(chain.deep_view() =~~= rc.push(store@.ca->Some_0));
    }
    let stored_chain_len = chain.len();
    match store.store_chain(&chain) {
        Ok(()) => {},
        Err(e) => {
            return Err(e);
        },
    }
    Ok(CycleReport { fetched_ca, signed_certificate, queried_hash, stored_chain_len })
}

} // verus!

