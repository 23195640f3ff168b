//! The storage record: the backend-owned container holding the persisted
//! artifacts under their fixed logical keys (`ca`, `cert`, `key`, `chain`,
//! and, for the cluster backend, the derived `cert_with_ca`).
//!
//! Backends persist this record physically (files in one directory, or
//! entries of one secret object); the record itself carries the whole
//! reconciliation logic: presence checks that validate by parsing, upserts,
//! and the full-overwrite chain store.

use vstd::prelude::*;

use crate::certs::{accepts_certificate, accepts_private_key, certificate_hash, fingerprint_of,
    has_encrypted_certificate_block, private_key_parses, x509_parses};
use crate::errors::ProviderError;

verus! {

/// Which backend owns the record: the local filesystem directory or the
/// cluster secret object.
#[derive(Clone, Copy, Debug, PartialEq, Eq, Structural)]
pub enum BackendKind {
    Local,
    Cluster,
}

/// The abstract value of a [`StorageRecord`]: each artifact as an optional
/// byte string.
#[verifier::ext_equal]
pub struct RecordView {
    pub backend: BackendKind,
    pub ca: Option<Seq<u8>>,
    pub cert: Option<Seq<u8>>,
    pub key: Option<Seq<u8>>,
    pub chain: Option<Seq<u8>>,
    pub cert_with_ca: Option<Seq<u8>>,
}

/// The artifacts a storage backend holds, as byte strings. `cert_with_ca`
/// is the derived convenience artifact that only the cluster backend
/// maintains.
pub struct StorageRecord {
    pub backend: BackendKind,
    pub ca: Option<Vec<u8>>,
    pub cert: Option<Vec<u8>>,
    pub key: Option<Vec<u8>>,
    pub chain: Option<Vec<u8>>,
    pub cert_with_ca: Option<Vec<u8>>,
}

/// The abstract value of an optional byte buffer.
pub open spec fn opt_bytes_view(o: Option<Vec<u8>>) -> Option<Seq<u8>> {
    match o {
        Some(v) => Some(v@),
        None => None,
    }
}

impl View for StorageRecord {
    type V = RecordView;

    open spec fn view(&self) -> RecordView {
        RecordView {
            backend: self.backend,
            ca: opt_bytes_view(self.ca),
            cert: opt_bytes_view(self.cert),
            key: opt_bytes_view(self.key),
            chain: opt_bytes_view(self.chain),
            cert_with_ca: opt_bytes_view(self.cert_with_ca),
        }
    }
}

/// The concatenation of a sequence of byte strings, in order.
pub open spec fn concat_of(parts: Seq<Seq<u8>>) -> Seq<u8>
    decreases parts.len(),
{
    if parts.len() == 0 {
        Seq::empty()
    } else {
        concat_of(parts.drop_last()) + parts.last()
    }
}

/// Storing the CA certificate replaces the `ca` entry and nothing else.
pub open spec fn spec_store_ca(v: RecordView, ca: Seq<u8>) -> RecordView {
    RecordView { ca: Some(ca), ..v }
}

/// A certificate can be stored locally at any time; the cluster backend
/// derives `cert_with_ca` from the current CA, which it reads back through
/// the fingerprint computation, and so requires a readable one.
pub open spec fn store_certificate_allowed(v: RecordView) -> bool {
    v.backend is Local || (v.ca matches Some(c) && accepts_certificate(c))
}

/// Storing the private identity replaces `cert` and `key`; the cluster
/// backend also rewrites `cert_with_ca` as certificate followed by CA.
pub open spec fn spec_store_certificate(v: RecordView, cert: Seq<u8>, key: Seq<u8>) -> RecordView
    recommends
        store_certificate_allowed(v),
{
    RecordView {
        cert: Some(cert),
        key: Some(key),
        cert_with_ca: if v.backend is Cluster {
            Some(cert + v.ca->Some_0)
        } else {
            v.cert_with_ca
        },
        ..v
    }
}

/// Storing the chain replaces the `chain` entry with the concatenation of
/// the given certificates, in order, and touches nothing else.
pub open spec fn spec_store_chain(v: RecordView, certs: Seq<Seq<u8>>) -> RecordView {
    RecordView { chain: Some(concat_of(certs)), ..v }
}

/// Chain replacement: a chain store is a full overwrite, so after storing
/// `[a, b]` and then `[c]`, the persisted chain holds exactly the bytes of
/// `c`, with no residue of `a` or `b`.
pub proof fn lemma_chain_replacement(v: RecordView, a: Seq<u8>, b: Seq<u8>, c: Seq<u8>)
    ensures
        spec_store_chain(spec_store_chain(v, seq![a, b]), seq![c]).chain == Some(c),
{
    let single = seq![c];
    assert(single.drop_last() =~= Seq::<Seq<u8>>::empty());
    assert(concat_of(single.drop_last()) == Seq::<u8>::empty());
    assert(single.last() == c);
    assert(Seq::<u8>::empty() + c =~= c);
    assert(concat_of(single) == c);
}

/// Selects the backend from the configured adapter name: `local` or
/// `kubernetes`. Any other value is refused, so a misspelled
/// configuration fails at startup instead of silently running on the
/// local filesystem.
pub fn select_backend(name: &str) -> (r: Option<BackendKind>)
    ensures
        name@ == "local"@ ==> r == Some(BackendKind::Local),
        name@ == "kubernetes"@ ==> r == Some(BackendKind::Cluster),
        name@ != "local"@ && name@ != "kubernetes"@ ==> r is None,
{
    proof {
        reveal_strlit("local");
        reveal_strlit("kubernetes");
        assert("local"@.len() == 5);
        assert("kubernetes"@.len() == 10);
        assert("local"@ != "kubernetes"@);
    }
    let owned = name.to_owned();
    if owned == String::from_str("local") {
        Some(BackendKind::Local)
    } else if owned == String::from_str("kubernetes") {
        Some(BackendKind::Cluster)
    } else {
        None
    }
}

/// Clones a byte buffer; the copy has the same bytes.
fn clone_bytes(v: &Vec<u8>) -> (r: Vec<u8>)
    ensures
        r@ == v@,
{
    let r = v.clone();
    proof {
        assert(r@ =~= v@);
    }
    r
}

impl StorageRecord {
    /// A record with no artifacts stored yet, owned by the given backend.
    pub fn empty(backend: BackendKind) -> (r: StorageRecord)
        ensures
            r@ == (RecordView {
                backend,
                ca: None,
                cert: None,
                key: None,
                chain: None,
                cert_with_ca: None,
            }),
    {
        StorageRecord { backend, ca: None, cert: None, key: None, chain: None, cert_with_ca: None }
    }

    /// The `ca` entry exists and holds what the library accepts as a
    /// certificate.
    pub open spec fn has_ca_spec(self) -> bool {
        self@.ca matches Some(c) && accepts_certificate(c)
    }

    /// Both `cert` and `key` exist and each parses independently.
    pub open spec fn has_certificate_spec(self) -> bool {
        &&& self@.cert matches Some(c) && accepts_certificate(c)
        &&& self@.key matches Some(k) && accepts_private_key(k)
    }

    /// Whether a CA certificate is stored; a missing entry and one that
    /// does not parse both count as absent. An entry holding an encrypted
    /// certificate block, or one too large for the OpenSSL bindings,
    /// counts as absent without an OpenSSL call, so a crafted entry can
    /// reach neither a passphrase prompt nor a length assertion.
    pub fn has_ca(&self) -> (r: bool)
        ensures
            r == self.has_ca_spec(),
    {
        match &self.ca {
            Some(c) => c.len() <= 0x7fff_ffff && !has_encrypted_certificate_block(c)
                && x509_parses(c),
            None => false,
        }
    }

    /// Whether the private identity is stored: true only when both the
    /// certificate and the key are present and each parses.
    pub fn has_certificate(&self) -> (r: bool)
        ensures
            r == self.has_certificate_spec(),
    {
        let cert_ok = match &self.cert {
            Some(c) => c.len() <= 0x7fff_ffff && !has_encrypted_certificate_block(c)
                && x509_parses(c),
            None => false,
        };
        let key_ok = match &self.key {
            Some(k) => k.len() <= 0x7fff_ffff && private_key_parses(k),
            None => false,
        };
        cert_ok && key_ok
    }

    /// Reads the stored CA bytes together with their fingerprint, which is
    /// recomputed from the bytes on every call, never cached. Succeeds
    /// exactly when a readable CA is stored; fails with `NotFound` when no
    /// CA entry exists and with `Crypto` when the entry does not parse.
    pub fn get_ca(&self) -> (r: Result<(Vec<u8>, String), ProviderError>)
        ensures
            r is Ok <==> self.has_ca_spec(),
            r is Ok ==> (self@.ca matches Some(c) && r->Ok_0.0@ == c && r->Ok_0.1@
                == fingerprint_of(c)),
            self@.ca is None <==> r == Err::<(Vec<u8>, String), ProviderError>(
                ProviderError::NotFound,
            ),
            self@.ca matches Some(c) && !accepts_certificate(c) ==> r == Err::<
                (Vec<u8>, String),
                ProviderError,
            >(ProviderError::Crypto),
    {
        match &self.ca {
            None => Err(ProviderError::NotFound),
            Some(ca) => match certificate_hash(ca) {
                Ok(hash) => Ok((clone_bytes(ca), hash)),
                Err(e) => Err(e),
            },
        }
    }

    /// Upserts the CA entry; everything else is kept.
    pub fn store_ca(&mut self, certificate: &Vec<u8>) -> (r: Result<(), ProviderError>)
        ensures
            r is Ok,
            final(self)@ == spec_store_ca(old(self)@, certificate@),
    {
        self.ca = Some(clone_bytes(certificate));
        Ok(())
    }

    /// Upserts the private identity: certificate and key together. The
    /// cluster backend additionally rewrites the derived `cert_with_ca`
    /// entry from the current CA, which it reads back as the workflow
    /// does, so it fails — changing nothing — with `NotFound` when no CA
    /// entry exists and with `Crypto` when the entry is not a readable
    /// certificate; the CA is always stored before the certificate in the
    /// workflow ordering, so the derived artifact is never built from
    /// unreadable CA bytes.
    pub fn store_certificate(&mut self, certificate: &Vec<u8>, key: &Vec<u8>) -> (r: Result<
        (),
        ProviderError,
    >)
        ensures
            old(self)@.backend is Cluster && old(self)@.ca is None ==> r == Err::<
                (),
                ProviderError,
            >(ProviderError::NotFound) && final(self)@ == old(self)@,
            old(self)@.backend is Cluster && (old(self)@.ca matches Some(c)
                && !accepts_certificate(c)) ==> r == Err::<(), ProviderError>(
                ProviderError::Crypto,
            ) && final(self)@ == old(self)@,
            store_certificate_allowed(old(self)@) ==> r is Ok && final(self)@
                == spec_store_certificate(old(self)@, certificate@, key@),
    {
        let is_cluster = match self.backend {
            BackendKind::Cluster => true,
            BackendKind::Local => false,
        };
        if is_cluster {
            let ca = match &self.ca {
                None => {
                    return Err(ProviderError::NotFound);
                },
                Some(c) => {
                    if c.len() > 0x7fff_ffff || has_encrypted_certificate_block(c) {
                        return Err(ProviderError::Crypto);
                    }
                    if !x509_parses(c) {
                        return Err(ProviderError::Crypto);
                    }
                    clone_bytes(c)
                },
            };
            let mut combined = clone_bytes(certificate);
            let mut ca_tail = ca;
            combined.append(&mut ca_tail);
            self.cert_with_ca = Some(combined);
        }
        self.cert = Some(clone_bytes(certificate));
        self.key = Some(clone_bytes(key));
        Ok(())
    }

    /// Replaces the chain entry with the concatenation of the given
    /// certificates in the given order: a full overwrite, no merge.
    pub fn store_chain(&mut self, certificates: &Vec<Vec<u8>>) -> (r: Result<(), ProviderError>)
        ensures
            r is Ok,
            final(self)@ == spec_store_chain(old(self)@, certificates.deep_view()),
    {
        let ghost parts = certificates.deep_view();
        let mut flat: Vec<u8> = Vec::new();
        let mut i: usize = 0;
        while i < certificates.len()
            invariant
                i <= certificates.len(),
                parts == certificates.deep_view(),
                parts.len() == certificates@.len(),
                flat@ == concat_of(parts.take(i as int)),
            decreases certificates.len() - i,
        {
            let mut piece = clone_bytes(&certificates[i]);
            flat.append(&mut piece);
            proof {
                assert(parts[i as int] == certificates@[i as int]@);
                assert(parts.take(i as int + 1).drop_last() =~= parts.take(i as int));
                assert(parts.take(i as int + 1).last() == parts[i as int]);
            }
            i = i + 1;
        }
        proof {
            assert(parts.take(certificates@.len() as int) =~= parts);
        }
        self.chain = Some(flat);
        Ok(())
    }
}

} // verus!
