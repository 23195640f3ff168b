//! Tests of the certificate utilities, the storage record, and whole
//! provisioning cycles, run against the real OpenSSL-backed wrappers.

use k8s_contract_provider::certs::{certificate_hash, create_csr, fingerprint_hex};
use k8s_contract_provider::errors::ProviderError;
use k8s_contract_provider::storage::{BackendKind, StorageRecord};
use k8s_contract_provider::workflow::run_cycle;

/// Builds a fresh self-signed certificate and its private key, both PEM.
fn build_identity(cn: &str) -> (Vec<u8>, Vec<u8>) {
    let rsa = openssl::rsa::Rsa::generate(2048).unwrap();
    let key = openssl::pkey::PKey::from_rsa(rsa).unwrap();
    let mut name = openssl::x509::X509Name::builder().unwrap();
    name.append_entry_by_nid(openssl::nid::Nid::COMMONNAME, cn)
        .unwrap();
    let name = name.build();
    let mut builder = openssl::x509::X509::builder().unwrap();
    builder.set_version(2).unwrap();
    builder.set_subject_name(&name).unwrap();
    builder.set_issuer_name(&name).unwrap();
    builder.set_pubkey(&key).unwrap();
    let not_before = openssl::asn1::Asn1Time::days_from_now(0).unwrap();
    let not_after = openssl::asn1::Asn1Time::days_from_now(1).unwrap();
    builder.set_not_before(&not_before).unwrap();
    builder.set_not_after(&not_after).unwrap();
    builder
        .sign(&key, openssl::hash::MessageDigest::sha256())
        .unwrap();
    let cert_pem = builder.build().to_pem().unwrap();
    let key_pem = key.private_key_to_pem_pkcs8().unwrap();
    (cert_pem, key_pem)
}

#[test]
fn fingerprint_is_deterministic() {
    let (cert, _) = build_identity("fp-a");
    let h1 = certificate_hash(&cert).unwrap();
    let h2 = certificate_hash(&cert).unwrap();
    assert_eq!(h1, h2);
}

#[test]
fn fingerprint_differs_for_different_certificates() {
    let (a, _) = build_identity("fp-b");
    let (b, _) = build_identity("fp-c");
    assert_ne!(certificate_hash(&a).unwrap(), certificate_hash(&b).unwrap());
}

#[test]
fn fingerprint_is_lowercase_hex_of_sha256() {
    let (cert, _) = build_identity("fp-d");
    let h = certificate_hash(&cert).unwrap();
    assert_eq!(h.len(), 64);
    assert!(h.chars().all(|c| c.is_ascii_hexdigit() && !c.is_ascii_uppercase()));
    let parsed = openssl::x509::X509::from_pem(&cert).unwrap();
    let digest = parsed
        .digest(openssl::hash::MessageDigest::sha256())
        .unwrap();
    assert_eq!(h, hex::encode(&digest));
}

#[test]
fn fingerprint_hex_encodes_bytes() {
    let h = fingerprint_hex(&vec![0x00u8, 0x0f, 0xa5, 0xff]);
    assert_eq!(h, "000fa5ff");
}

#[test]
fn certificate_hash_rejects_garbage() {
    let r = certificate_hash(&b"not a certificate".to_vec());
    assert_eq!(r.unwrap_err(), ProviderError::Crypto);
}

#[test]
fn create_csr_yields_parsable_key_and_request() {
    let (key_pem, csr_pem) = create_csr("unit-test-subject").unwrap();
    let key = openssl::pkey::PKey::private_key_from_pem(&key_pem).unwrap();
    assert!(key.rsa().is_ok());
    assert_eq!(key.bits(), 2048);
    let req = openssl::x509::X509Req::from_pem(&csr_pem).unwrap();
    let subject: Vec<(String, String)> = req
        .subject_name()
        .entries()
        .map(|e| {
            (
                e.object().nid().short_name().unwrap().to_string(),
                e.data().as_utf8().map(|s| s.to_string()).unwrap_or_default(),
            )
        })
        .collect();
    assert!(subject.contains(&("CN".to_string(), "unit-test-subject".to_string())));
    assert!(subject.contains(&("O".to_string(), "WirePact PKI".to_string())));
    assert!(req.public_key().unwrap().public_eq(&key));
    assert!(req.verify(&key).unwrap());
}

#[test]
fn has_certificate_false_without_certificate() {
    let (_, key_pem) = build_identity("gate-a");
    let mut record = StorageRecord::empty(BackendKind::Local);
    record.key = Some(key_pem);
    assert!(!record.has_certificate());
}

#[test]
fn has_certificate_false_without_key() {
    let (cert_pem, _) = build_identity("gate-b");
    let mut record = StorageRecord::empty(BackendKind::Local);
    record.cert = Some(cert_pem);
    assert!(!record.has_certificate());
}

#[test]
fn has_certificate_false_with_unparsable_certificate() {
    let (_, key_pem) = build_identity("gate-c");
    let mut record = StorageRecord::empty(BackendKind::Local);
    record.cert = Some(b"garbage".to_vec());
    record.key = Some(key_pem);
    assert!(!record.has_certificate());
}

#[test]
fn has_certificate_false_with_unparsable_key() {
    let (cert_pem, _) = build_identity("gate-d");
    let mut record = StorageRecord::empty(BackendKind::Local);
    record.cert = Some(cert_pem);
    record.key = Some(b"garbage".to_vec());
    assert!(!record.has_certificate());
}

#[test]
fn has_certificate_true_with_valid_pair() {
    let (cert_pem, key_pem) = build_identity("gate-e");
    let mut record = StorageRecord::empty(BackendKind::Cluster);
    record.cert = Some(cert_pem);
    record.key = Some(key_pem);
    assert!(record.has_certificate());
}

#[test]
fn has_ca_validates_by_parsing() {
    let (ca, _) = build_identity("ca-gate");
    let mut record = StorageRecord::empty(BackendKind::Local);
    assert!(!record.has_ca());
    record.ca = Some(b"not pem".to_vec());
    assert!(!record.has_ca());
    record.store_ca(&ca).unwrap();
    assert!(record.has_ca());
}

#[test]
fn store_chain_concatenates_in_order() {
    let mut record = StorageRecord::empty(BackendKind::Local);
    record
        .store_chain(&vec![b"X_PEM".to_vec(), b"Y_PEM".to_vec(), b"CA_PEM".to_vec()])
        .unwrap();
    assert_eq!(record.chain.as_deref(), Some(b"X_PEMY_PEMCA_PEM".as_slice()));
}

#[test]
fn store_chain_overwrites_fully() {
    let mut record = StorageRecord::empty(BackendKind::Cluster);
    record
        .store_chain(&vec![b"AAAA".to_vec(), b"BBBB".to_vec()])
        .unwrap();
    record.store_chain(&vec![b"C".to_vec()]).unwrap();
    assert_eq!(record.chain.as_deref(), Some(b"C".as_slice()));
}

#[test]
fn store_certificate_cluster_requires_ca() {
    let mut record = StorageRecord::empty(BackendKind::Cluster);
    let r = record.store_certificate(&b"CERT".to_vec(), &b"KEY".to_vec());
    assert_eq!(r.unwrap_err(), ProviderError::NotFound);
    assert!(record.cert.is_none());
    assert!(record.key.is_none());
    assert!(record.cert_with_ca.is_none());
}

#[test]
fn store_certificate_cluster_builds_cert_with_ca() {
    let (ca, _) = build_identity("with-ca");
    let mut record = StorageRecord::empty(BackendKind::Cluster);
    record.store_ca(&ca).unwrap();
    record
        .store_certificate(&b"CERT_PEM".to_vec(), &b"KEY_PEM".to_vec())
        .unwrap();
    assert_eq!(record.cert.as_deref(), Some(b"CERT_PEM".as_slice()));
    assert_eq!(record.key.as_deref(), Some(b"KEY_PEM".as_slice()));
    let expected: Vec<u8> = [b"CERT_PEM".as_slice(), &ca].concat();
    assert_eq!(record.cert_with_ca.as_deref(), Some(expected.as_slice()));
}

#[test]
fn store_certificate_cluster_rejects_unreadable_ca() {
    let mut record = StorageRecord::empty(BackendKind::Cluster);
    record.ca = Some(b"not a certificate".to_vec());
    let r = record.store_certificate(&b"CERT".to_vec(), &b"KEY".to_vec());
    assert_eq!(r.unwrap_err(), ProviderError::Crypto);
    assert!(record.cert.is_none());
    assert!(record.key.is_none());
    assert!(record.cert_with_ca.is_none());
}

#[test]
fn encrypted_certificate_block_counts_as_absent() {
    let crafted = b"-----BEGIN CERTIFICATE-----\nProc-Type: 4,ENCRYPTED\nDEK-Info: AES-256-CBC,0011223344556677\n\nAAAA\n-----END CERTIFICATE-----\n"
        .to_vec();
    let mut record = StorageRecord::empty(BackendKind::Local);
    record.ca = Some(crafted.clone());
    assert!(!record.has_ca());
    assert_eq!(certificate_hash(&crafted).unwrap_err(), ProviderError::Crypto);
}

#[test]
fn encrypted_certificate_block_is_recognized_leniently() {
    // OpenSSL skips spaces and tabs around the fields of the header line;
    // each spelling must be refused before it could reach a prompt
    for header in [
        "Proc-Type:\t4,ENCRYPTED",
        "Proc-Type:   4, ENCRYPTED",
        "Proc-Type: 4,\t ENCRYPTED",
    ] {
        let crafted = format!(
            "-----BEGIN CERTIFICATE-----\n{}\nDEK-Info: AES-256-CBC,0011223344556677\n\nAAAA\n-----END CERTIFICATE-----\n",
            header
        )
        .into_bytes();
        assert_eq!(certificate_hash(&crafted).unwrap_err(), ProviderError::Crypto);
        let mut record = StorageRecord::empty(BackendKind::Cluster);
        record.ca = Some(crafted);
        assert!(!record.has_ca());
    }
}

#[test]
fn appended_encrypted_key_block_leaves_certificate_readable() {
    let (ca, _) = build_identity("enc-append");
    let rsa = openssl::rsa::Rsa::generate(2048).unwrap();
    let encrypted_key = rsa
        .private_key_to_pem_passphrase(openssl::symm::Cipher::aes_256_cbc(), b"secret")
        .unwrap();
    // the appended block carries an encrypted Proc-Type header, but its
    // name is no certificate, so a certificate read never touches it
    let mut crafted = ca.clone();
    crafted.extend_from_slice(&encrypted_key);
    let mut record = StorageRecord::empty(BackendKind::Cluster);
    record.ca = Some(crafted.clone());
    assert!(record.has_ca());
    assert_eq!(
        certificate_hash(&crafted).unwrap(),
        certificate_hash(&ca).unwrap()
    );
}

#[test]
fn marker_text_outside_a_block_is_harmless() {
    let (ca, _) = build_identity("marker-text");
    let mut crafted = b"Proc-Type: 4,ENCRYPTED\n".to_vec();
    crafted.extend_from_slice(&ca);
    let mut record = StorageRecord::empty(BackendKind::Local);
    record.ca = Some(crafted);
    assert!(record.has_ca());
}

#[test]
fn encrypted_private_key_counts_as_absent() {
    let (cert, _) = build_identity("enc-key");
    let rsa = openssl::rsa::Rsa::generate(2048).unwrap();
    let key = openssl::pkey::PKey::from_rsa(rsa).unwrap();
    let encrypted = key
        .private_key_to_pem_pkcs8_passphrase(openssl::symm::Cipher::aes_256_cbc(), b"secret")
        .unwrap();
    let mut record = StorageRecord::empty(BackendKind::Local);
    record.cert = Some(cert);
    record.key = Some(encrypted);
    assert!(!record.has_certificate());
}

#[test]
fn store_certificate_local_needs_no_ca() {
    let mut record = StorageRecord::empty(BackendKind::Local);
    record
        .store_certificate(&b"CERT_PEM".to_vec(), &b"KEY_PEM".to_vec())
        .unwrap();
    assert_eq!(record.cert.as_deref(), Some(b"CERT_PEM".as_slice()));
    assert_eq!(record.key.as_deref(), Some(b"KEY_PEM".as_slice()));
    assert!(record.cert_with_ca.is_none());
}

#[test]
fn get_ca_reports_absence_and_garbage() {
    let mut record = StorageRecord::empty(BackendKind::Local);
    assert_eq!(record.get_ca().unwrap_err(), ProviderError::NotFound);
    record.ca = Some(b"garbage".to_vec());
    assert_eq!(record.get_ca().unwrap_err(), ProviderError::Crypto);
}

#[test]
fn get_ca_returns_bytes_and_fresh_fingerprint() {
    let (ca, _) = build_identity("ca-read");
    let mut record = StorageRecord::empty(BackendKind::Cluster);
    record.store_ca(&ca).unwrap();
    let (bytes, hash) = record.get_ca().unwrap();
    assert_eq!(bytes, ca);
    assert_eq!(hash, certificate_hash(&ca).unwrap());
}

#[test]
fn run_cycle_bootstraps_fresh_storage() {
    let (ca, _) = build_identity("cycle-ca");
    let (signed, _) = build_identity("cycle-cert");
    let mut record = StorageRecord::empty(BackendKind::Cluster);
    let repo = vec![b"X_PEM".to_vec(), b"Y_PEM".to_vec()];
    let report = run_cycle(&mut record, "svc-a", &ca, &signed, repo).unwrap();
    assert!(report.fetched_ca);
    assert!(report.signed_certificate);
    assert_eq!(report.queried_hash, certificate_hash(&ca).unwrap());
    assert_eq!(report.stored_chain_len, 3);
    assert!(record.has_ca());
    assert!(record.has_certificate());
    let expected: Vec<u8> = [b"X_PEM".as_slice(), b"Y_PEM".as_slice(), &ca].concat();
    assert_eq!(record.chain.as_deref(), Some(expected.as_slice()));
}

#[test]
fn run_cycle_is_idempotent() {
    let (ca, _) = build_identity("idem-ca");
    let (signed, _) = build_identity("idem-cert");
    let mut record = StorageRecord::empty(BackendKind::Cluster);
    let first = run_cycle(
        &mut record,
        "svc-a",
        &ca,
        &signed,
        vec![b"X_PEM".to_vec()],
    )
    .unwrap();
    assert!(first.fetched_ca && first.signed_certificate);
    let cert_before = record.cert.clone();
    let key_before = record.key.clone();
    let second = run_cycle(
        &mut record,
        "svc-a",
        &ca,
        &signed,
        vec![b"X_PEM".to_vec()],
    )
    .unwrap();
    assert!(!second.fetched_ca);
    assert!(!second.signed_certificate);
    assert_eq!(second.stored_chain_len, 2);
    assert_eq!(record.cert, cert_before);
    assert_eq!(record.key, key_before);
}

#[test]
fn run_cycle_skips_pki_when_artifacts_present() {
    let (ca, _) = build_identity("skip-ca");
    let (cert, key) = build_identity("skip-cert");
    let mut record = StorageRecord::empty(BackendKind::Local);
    record.store_ca(&ca).unwrap();
    record.store_certificate(&cert, &key).unwrap();
    record.store_chain(&vec![b"OLD".to_vec()]).unwrap();
    let report = run_cycle(
        &mut record,
        "svc-a",
        &b"UNUSED".to_vec(),
        &b"UNUSED".to_vec(),
        vec![b"NEW".to_vec()],
    )
    .unwrap();
    assert!(!report.fetched_ca);
    assert!(!report.signed_certificate);
    let expected: Vec<u8> = [b"NEW".as_slice(), &ca].concat();
    assert_eq!(record.chain.as_deref(), Some(expected.as_slice()));
}

#[test]
fn run_cycle_fails_on_unparsable_ca() {
    let (signed, _) = build_identity("bad-ca-cert");
    let mut record = StorageRecord::empty(BackendKind::Cluster);
    let r = run_cycle(
        &mut record,
        "svc-a",
        &b"NOT_A_CERT".to_vec(),
        &signed,
        vec![],
    );
    assert_eq!(r.unwrap_err(), ProviderError::Crypto);
    assert!(record.chain.is_none());
    assert_eq!(record.ca.as_deref(), Some(b"NOT_A_CERT".as_slice()));
}
