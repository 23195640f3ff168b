//! Certificate utilities: key/CSR generation and the certificate
//! fingerprint that identifies this participant towards the contract
//! repository.

use vstd::prelude::*;
use vstd::string::StringSliceAdditionalSpecFns;

use crate::errors::ProviderError;

verus! {

/// `openssl::error::ErrorStack`, the error type of the OpenSSL bindings;
/// carried opaquely out of the wrappers and mapped to
/// `ProviderError::Crypto` by verified code.
#[verifier::external_type_specification]
#[verifier::external_body]
pub struct ExErrorStack(openssl::error::ErrorStack);

/// Whether `openssl::x509::X509::from_pem` accepts these bytes as a PEM
/// X.509 certificate. On bytes free of the PEM encryption header the call
/// consults no passphrase callback, so the result is a function of the
/// bytes alone; every caller in this crate excludes that header first.
pub uninterp spec fn parses_as_x509(pem: Seq<u8>) -> bool;

/// Whether `openssl::pkey::PKey::private_key_from_pem_passphrase`, given an
/// empty passphrase, accepts these bytes as a PEM private key. Unlike the
/// plain `private_key_from_pem`, that call never prompts for a passphrase,
/// so the result is a function of the bytes alone.
pub uninterp spec fn parses_as_private_key(pem: Seq<u8>) -> bool;

/// The SHA-256 digest that `openssl::x509::X509::digest` computes for the
/// certificate parsed from these PEM bytes; a function of the bytes alone.
pub uninterp spec fn x509_sha256_of(pem: Seq<u8>) -> Seq<u8>;

/// The subject entries that X.509-request parsing reads back from these
/// certificate-request bytes: the common name and the organization name;
/// a function of the bytes alone.
pub uninterp spec fn csr_subject_of(csr: Seq<u8>) -> (Seq<char>, Seq<char>);

/// The RSA key size, in bits, that parsing reads back from these private
/// key bytes; a function of the bytes alone.
pub uninterp spec fn key_bits_of(key_pem: Seq<u8>) -> nat;

/// Whether the certificate request carries the public key of this private
/// key and a self-signature that verifies under it — what binds the
/// PKI-signed certificate to the stored key; a function of the two byte
/// strings alone.
pub uninterp spec fn csr_matches_key(csr: Seq<u8>, key_pem: Seq<u8>) -> bool;

/// One byte sequence standing at position `i` of another.
pub open spec fn bytes_at(hay: Seq<u8>, i: int, pat: Seq<u8>) -> bool {
    0 <= i && i + pat.len() <= hay.len() && hay.subrange(i, i + pat.len()) == pat
}

/// A space or a horizontal tab: what OpenSSL skips between the fields of
/// a `Proc-Type` header line.
pub open spec fn is_linear_space(b: u8) -> bool {
    b == 32 || b == 9
}

/// The bytes of `-----BEGIN`, which opens the type line of a PEM block.
pub open spec fn begin_marker() -> Seq<u8> {
    seq![45u8, 45, 45, 45, 45, 66, 69, 71, 73, 78]
}

/// The bytes of `CERTIFICATE`, which every certificate block name holds.
pub open spec fn certificate_marker() -> Seq<u8> {
    seq![67u8, 69, 82, 84, 73, 70, 73, 67, 65, 84, 69]
}

/// The bytes of `Proc-Type:`.
pub open spec fn proc_type_marker() -> Seq<u8> {
    seq![80u8, 114, 111, 99, 45, 84, 121, 112, 101, 58]
}

/// The bytes of `4,`.
pub open spec fn four_comma_marker() -> Seq<u8> {
    seq![52u8, 44]
}

/// The bytes of `ENCRYPTED`.
pub open spec fn encrypted_marker() -> Seq<u8> {
    seq![69u8, 78, 67, 82, 89, 80, 84, 69, 68]
}

/// The witnesses of an encrypted `Proc-Type` header starting at `i`, as
/// OpenSSL recognizes one: `Proc-Type:`, then spaces or tabs, then `4,`,
/// then spaces or tabs, then `ENCRYPTED`.
pub open spec fn encrypted_header_witness(pem: Seq<u8>, i: int, j: int, k: int) -> bool {
    &&& bytes_at(pem, i, proc_type_marker())
    &&& i + proc_type_marker().len() <= j
    &&& forall|m: int|
        i + proc_type_marker().len() <= m < j ==> is_linear_space(#[trigger] pem[m])
    &&& bytes_at(pem, j, four_comma_marker())
    &&& j + four_comma_marker().len() <= k
    &&& forall|m: int|
        j + four_comma_marker().len() <= m < k ==> is_linear_space(#[trigger] pem[m])
    &&& bytes_at(pem, k, encrypted_marker())
}

/// An encrypted `Proc-Type` header line starting at `i`.
pub open spec fn encrypted_header_at(pem: Seq<u8>, i: int) -> bool {
    exists|j: int, k: int| #[trigger] encrypted_header_witness(pem, i, j, k)
}

/// The name `CERTIFICATE` inside the byte range `[b, n)`.
pub open spec fn certificate_in_line(pem: Seq<u8>, b: int, n: int) -> bool {
    exists|c: int|
        b <= c && c + certificate_marker().len() <= n && #[trigger] bytes_at(
            pem,
            c,
            certificate_marker(),
        )
}

/// A PEM block whose type line names a certificate and whose first header
/// line marks the block encrypted: `-----BEGIN` at `b` with `CERTIFICATE`
/// later in the same line, the line's newline at `n`, and an encrypted
/// `Proc-Type` header immediately after it.
pub open spec fn encrypted_certificate_line(pem: Seq<u8>, b: int, n: int) -> bool {
    &&& bytes_at(pem, b, begin_marker())
    &&& b < n < pem.len()
    &&& pem[n] == 10
    &&& forall|m: int| b <= m < n ==> (#[trigger] pem[m]) != 10
    &&& certificate_in_line(pem, b, n)
    &&& encrypted_header_at(pem, n + 1)
}

/// The bytes hold a certificate-named PEM block marked encrypted. OpenSSL
/// reads the blocks in order, takes the first whose name matches the type
/// it was asked for — for a certificate read, a name containing
/// `CERTIFICATE` — and consults the passphrase callback exactly when that
/// block's header section starts with an encrypted `Proc-Type` line, read
/// leniently around spaces and tabs. With no callback supplied it falls
/// to a default that prompts on the terminal and can block. Every input
/// on which a certificate read could prompt therefore holds such a block,
/// and the library refuses those bytes before any OpenSSL certificate
/// call; blocks of other names, and the marker text standing anywhere
/// else, are left alone, since OpenSSL never reads their headers on a
/// certificate parse.
pub open spec fn encrypted_certificate_block(pem: Seq<u8>) -> bool {
    exists|b: int, n: int| #[trigger] encrypted_certificate_line(pem, b, n)
}

/// The byte-length cap of the OpenSSL bindings: a buffer handed to them
/// must fit a C `int`, or they panic.
pub open spec fn fits_openssl(len: int) -> bool {
    len <= 0x7fff_ffff
}

/// Bytes the library accepts as a certificate: sized for the bindings,
/// free of an encrypted certificate block, and parsed by OpenSSL as a PEM
/// X.509 certificate.
pub open spec fn accepts_certificate(pem: Seq<u8>) -> bool {
    fits_openssl(pem.len() as int) && !encrypted_certificate_block(pem) && parses_as_x509(pem)
}

/// Bytes the library accepts as a private key: sized for the bindings and
/// parsed by OpenSSL under an empty passphrase.
pub open spec fn accepts_private_key(pem: Seq<u8>) -> bool {
    fits_openssl(pem.len() as int) && parses_as_private_key(pem)
}

/// The bytes of `-----BEGIN` as a buffer.
fn begin_marker_bytes() -> (r: Vec<u8>)
    ensures
        r@ == begin_marker(),
{
    let r = vec![45u8, 45, 45, 45, 45, 66, 69, 71, 73, 78];
    proof {
        assert(r@ =~= begin_marker());
    }
    r
}

/// The bytes of `CERTIFICATE` as a buffer.
fn certificate_marker_bytes() -> (r: Vec<u8>)
    ensures
        r@ == certificate_marker(),
{
    let r = vec![67u8, 69, 82, 84, 73, 70, 73, 67, 65, 84, 69];
    proof {
        assert(r@ =~= certificate_marker());
    }
    r
}

/// The bytes of `Proc-Type:` as a buffer.
fn proc_type_marker_bytes() -> (r: Vec<u8>)
    ensures
        r@ == proc_type_marker(),
{
    let r = vec![80u8, 114, 111, 99, 45, 84, 121, 112, 101, 58];
    proof {
        assert(r@ =~= proc_type_marker());
    }
    r
}

/// The bytes of `4,` as a buffer.
fn four_comma_marker_bytes() -> (r: Vec<u8>)
    ensures
        r@ == four_comma_marker(),
{
    let r = vec![52u8, 44];
    proof {
        assert(r@ =~= four_comma_marker());
    }
    r
}

/// The bytes of `ENCRYPTED` as a buffer.
fn encrypted_marker_bytes() -> (r: Vec<u8>)
    ensures
        r@ == encrypted_marker(),
{
    let r = vec![69u8, 78, 67, 82, 89, 80, 84, 69, 68];
    proof {
        assert(r@ =~= encrypted_marker());
    }
    r
}

/// Whether `pat` stands at position `i` of `hay`.
fn match_at(hay: &Vec<u8>, i: usize, pat: &Vec<u8>) -> (r: bool)
    ensures
        r == bytes_at(hay@, i as int, pat@),
{
    if hay.len() < pat.len() || i > hay.len() - pat.len() {
        return false;
    }
    let mut j: usize = 0;
    while j < pat.len()
        invariant
            i + pat@.len() <= hay@.len(),
            hay@.len() <= usize::MAX,
            j <= pat@.len(),
            forall|m: int| 0 <= m < j ==> (#[trigger] hay@[i + m]) == pat@[m],
        decreases pat@.len() - j,
    {
        if hay[i + j] != pat[j] {
            proof {
                assert(hay@.subrange(i as int, i as int + pat@.len())[j as int] == hay@[i + j]);
            }
            return false;
        }
        j = j + 1;
    }
    proof {
        assert forall|m: int|
            0 <= m < pat@.len() implies hay@.subrange(i as int, i as int + pat@.len())[m]
            == pat@[m] by {
            assert(hay@.subrange(i as int, i as int + pat@.len())[m] == hay@[i + m]);
        }
        assert(hay@.subrange(i as int, i as int + pat@.len()) =~= pat@);
    }
    true
}

/// The first newline at or after `from`, if any.
fn find_first_newline(pem: &Vec<u8>, from: usize) -> (r: Option<usize>)
    requires
        from <= pem@.len(),
    ensures
        r matches Some(n) ==> from <= n < pem@.len() && pem@[n as int] == 10 && forall|m: int|
            from <= m < n ==> (#[trigger] pem@[m]) != 10,
        r is None ==> forall|m: int| from <= m < pem@.len() ==> (#[trigger] pem@[m]) != 10,
{
    let mut i: usize = from;
    while i < pem.len()
        invariant
            from <= i <= pem@.len(),
            forall|m: int| from <= m < i ==> (#[trigger] pem@[m]) != 10,
        decreases pem@.len() - i,
    {
        if pem[i] == 10 {
            return Some(i);
        }
        i = i + 1;
    }
    None
}

/// Whether `pat` stands anywhere inside `[lo, hi)` of `pem`.
fn contains_in_range(pem: &Vec<u8>, lo: usize, hi: usize, pat: &Vec<u8>) -> (r: bool)
    requires
        lo <= hi <= pem@.len(),
        pat@.len() > 0,
    ensures
        r == exists|c: int|
            lo <= c && c + pat@.len() <= hi && #[trigger] bytes_at(pem@, c, pat@),
{
    let mut c: usize = lo;
    while c < hi && hi - c >= pat.len()
        invariant
            lo <= c <= hi <= pem@.len(),
            pat@.len() > 0,
            forall|c0: int|
                lo <= c0 < c ==> !(c0 + pat@.len() <= hi && #[trigger] bytes_at(pem@, c0, pat@)),
        decreases hi - c,
    {
        if match_at(pem, c, pat) {
            return true;
        }
        c = c + 1;
    }
    proof {
        assert forall|c0: int|
            lo <= c0 && c0 + pat@.len() <= hi implies !(#[trigger] bytes_at(pem@, c0, pat@)) by {
            assert(c0 < c);
        }
    }
    false
}

/// The first position at or after `from` holding no space and no tab.
fn skip_linear_spaces(pem: &Vec<u8>, from: usize) -> (r: usize)
    requires
        from <= pem@.len(),
    ensures
        from <= r <= pem@.len(),
        forall|m: int| from <= m < r ==> is_linear_space(#[trigger] pem@[m]),
        r < pem@.len() ==> !is_linear_space(pem@[r as int]),
{
    let mut i: usize = from;
    while i < pem.len()
        invariant
            from <= i <= pem@.len(),
            forall|m: int| from <= m < i ==> is_linear_space(#[trigger] pem@[m]),
        decreases pem@.len() - i,
    {
        let b = pem[i];
        if !(b == 32 || b == 9) {
            return i;
        }
        i = i + 1;
    }
    i
}

/// Whether an encrypted `Proc-Type` header line starts at `i`.
fn encrypted_header_check(
    pem: &Vec<u8>,
    i: usize,
    proc_type: &Vec<u8>,
    four: &Vec<u8>,
    encrypted: &Vec<u8>,
) -> (r: bool)
    requires
        i <= pem@.len(),
        proc_type@ == proc_type_marker(),
        four@ == four_comma_marker(),
        encrypted@ == encrypted_marker(),
    ensures
        r == encrypted_header_at(pem@, i as int),
{
    let total: usize = pem.len();
    if !match_at(pem, i, proc_type) {
        proof {
            if encrypted_header_at(pem@, i as int) {
                let (j0, k0) = choose|j0: int, k0: int|
                    encrypted_header_witness(pem@, i as int, j0, k0);
                assert(bytes_at(pem@, i as int, proc_type_marker()));
            }
        }
        return false;
    }
    let j = skip_linear_spaces(pem, i + proc_type.len());
    if !match_at(pem, j, four) {
        proof {
            if encrypted_header_at(pem@, i as int) {
                let (j0, k0) = choose|j0: int, k0: int|
                    encrypted_header_witness(pem@, i as int, j0, k0);
                assert(pem@.subrange(j0, j0 + four_comma_marker().len())[0] == pem@[j0]);
                assert(!is_linear_space(pem@[j0]));
                if j0 < j as int {
                    assert(is_linear_space(pem@[j0]));
                } else if (j as int) < j0 {
                    assert(is_linear_space(pem@[j as int]));
                    assert(!is_linear_space(pem@[j as int]));
                }
                assert(bytes_at(pem@, j as int, four_comma_marker()));
            }
        }
        return false;
    }
    let k = skip_linear_spaces(pem, j + four.len());
    let r = match_at(pem, k, encrypted);
    proof {
        if r {
            assert(encrypted_header_witness(pem@, i as int, j as int, k as int));
        } else if encrypted_header_at(pem@, i as int) {
            let (j0, k0) = choose|j0: int, k0: int|
                encrypted_header_witness(pem@, i as int, j0, k0);
            assert(pem@.subrange(j0, j0 + four_comma_marker().len())[0] == pem@[j0]);
            assert(!is_linear_space(pem@[j0]));
            if j0 < j as int {
                assert(is_linear_space(pem@[j0]));
            } else if (j as int) < j0 {
                assert(is_linear_space(pem@[j as int]));
                assert(!is_linear_space(pem@[j as int]));
            }
            assert(j0 == j as int);
            assert(pem@.subrange(k0, k0 + encrypted_marker().len())[0] == pem@[k0]);
            assert(!is_linear_space(pem@[k0]));
            if k0 < k as int {
                assert(is_linear_space(pem@[k0]));
            } else if (k as int) < k0 {
                assert(is_linear_space(pem@[k as int]));
                assert(!is_linear_space(pem@[k as int]));
            }
            assert(bytes_at(pem@, k as int, encrypted_marker()));
        }
    }
    r
}

/// Whether the bytes hold a certificate-named PEM block marked encrypted,
/// exactly as [`encrypted_certificate_block`] states it.
pub(crate) fn has_encrypted_certificate_block(pem: &Vec<u8>) -> (r: bool)
    ensures
        r == encrypted_certificate_block(pem@),
{
    let total: usize = pem.len();
    let begin = begin_marker_bytes();
    let certificate = certificate_marker_bytes();
    let proc_type = proc_type_marker_bytes();
    let four = four_comma_marker_bytes();
    let encrypted = encrypted_marker_bytes();
    let mut b: usize = 0;
    while b < pem.len()
        invariant
            begin@ == begin_marker(),
            certificate@ == certificate_marker(),
            proc_type@ == proc_type_marker(),
            four@ == four_comma_marker(),
            encrypted@ == encrypted_marker(),
            b <= pem@.len(),
            pem@.len() <= usize::MAX,
            forall|b0: int, n0: int|
                0 <= b0 < b ==> !(#[trigger] encrypted_certificate_line(pem@, b0, n0)),
        decreases pem@.len() - b,
    {
        if match_at(pem, b, &begin) {
            match find_first_newline(pem, b) {
                None => {
                    proof {
                        assert forall|n0: int|
                            !(encrypted_certificate_line(pem@, b as int, n0)) by {
                            if encrypted_certificate_line(pem@, b as int, n0) {
                                assert((pem@[n0]) != 10);
                            }
                        }
                    }
                },
                Some(n) => {
                    let has_cert = contains_in_range(pem, b, n, &certificate);
                    let has_header = if has_cert {
                        encrypted_header_check(pem, n + 1, &proc_type, &four, &encrypted)
                    } else {
                        false
                    };
                    if has_cert && has_header {
                        proof {
                            assert(pem@.subrange(b as int, b as int + begin_marker().len())[0]
                                == pem@[b as int]);
                            assert(pem@[b as int] == 45);
                            assert(encrypted_certificate_line(pem@, b as int, n as int));
                        }
                        return true;
                    }
                    proof {
                        assert forall|n0: int|
                            !(encrypted_certificate_line(pem@, b as int, n0)) by {
                            if encrypted_certificate_line(pem@, b as int, n0) {
                                if n0 < n as int {
                                    assert((pem@[n0]) != 10);
                                } else if (n as int) < n0 {
                                    assert((pem@[n as int]) != 10);
                                }
                                assert(n0 == n as int);
                            }
                        }
                    }
                },
            }
        } else {
            proof {
                assert forall|n0: int| !(encrypted_certificate_line(pem@, b as int, n0)) by {
                    if encrypted_certificate_line(pem@, b as int, n0) {
                        assert(bytes_at(pem@, b as int, begin_marker()));
                    }
                }
            }
        }
        b = b + 1;
    }
    proof {
        assert forall|b0: int, n0: int|
            !(#[trigger] encrypted_certificate_line(pem@, b0, n0)) by {
            if encrypted_certificate_line(pem@, b0, n0) {
                assert(b0 + begin_marker().len() <= pem@.len());
                assert(0 <= b0 < b);
            }
        }
    }
    false
}

/// The sixteen lowercase hexadecimal digits, in order of value.
pub open spec fn hex_digits() -> Seq<char> {
    seq!['0', '1', '2', '3', '4', '5', '6', '7', '8', '9', 'a', 'b', 'c', 'd', 'e', 'f']
}

/// Lowercase hexadecimal encoding of a byte string: two digits per byte,
/// high nibble first.
pub open spec fn hex_lower_of(bytes: Seq<u8>) -> Seq<char>
    decreases bytes.len(),
{
    if bytes.len() == 0 {
        Seq::empty()
    } else {
        hex_lower_of(bytes.drop_last()) + seq![
            hex_digits()[(bytes.last() / 16) as int],
            hex_digits()[(bytes.last() % 16) as int],
        ]
    }
}

/// The hex encoding is two characters per byte.
pub proof fn lemma_hex_lower_len(bytes: Seq<u8>)
    ensures
        hex_lower_of(bytes).len() == 2 * bytes.len(),
    decreases bytes.len(),
{
    if bytes.len() > 0 {
        lemma_hex_lower_len(bytes.drop_last());
    }
}

/// The fingerprint of a certificate: the lowercase hex encoding of its
/// SHA-256 digest. This is the participant identifier under which the
/// contract repository is queried.
pub open spec fn fingerprint_of(pem: Seq<u8>) -> Seq<char> {
    hex_lower_of(x509_sha256_of(pem))
}

/// Fingerprint determinism: the fingerprint is a function of the
/// certificate bytes alone, so equal inputs always yield equal output.
pub proof fn lemma_fingerprint_deterministic(p1: Seq<u8>, p2: Seq<u8>)
    requires
        p1 == p2,
    ensures
        fingerprint_of(p1) == fingerprint_of(p2),
{
}

/// Relies on `openssl::x509::X509::from_pem`: tells whether the bytes
/// parse as a PEM X.509 certificate. The caller keeps encrypted
/// certificate blocks away, so the call never consults a passphrase
/// callback and returns without prompting, and keeps the buffer inside
/// the bindings' C `int` length cap, below which they do not panic.
#[verifier::external_body]
pub(crate) fn x509_parses(pem: &Vec<u8>) -> (r: bool)
    requires
        fits_openssl(pem@.len() as int),
        !encrypted_certificate_block(pem@),
    ensures
        r == parses_as_x509(pem@),
{
    openssl::x509::X509::from_pem(pem).is_ok()
}

/// Relies on `openssl::pkey::PKey::private_key_from_pem_passphrase` with
/// an empty passphrase: tells whether the bytes parse as a PEM private
/// key. Unlike the plain `private_key_from_pem`, this call never prompts;
/// an encrypted key fails to decrypt and counts as not parsed. The caller
/// keeps the buffer inside the bindings' C `int` length cap, below which
/// they do not panic.
#[verifier::external_body]
pub(crate) fn private_key_parses(pem: &Vec<u8>) -> (r: bool)
    requires
        fits_openssl(pem@.len() as int),
    ensures
        r == parses_as_private_key(pem@),
{
    openssl::pkey::PKey::private_key_from_pem_passphrase(pem, b"").is_ok()
}

/// Relies on `openssl::x509::X509::from_pem` and `openssl::x509::X509::digest`:
/// parses the PEM bytes and computes the certificate's SHA-256 digest,
/// 32 bytes, a function of the input bytes alone. The caller keeps
/// encrypted certificate blocks away, so parsing never prompts, and keeps
/// the buffer inside the bindings' C `int` length cap, below which they
/// do not panic; digesting a parsed certificate fails only on allocation
/// failure, which is left aside.
#[verifier::external_body]
fn x509_digest_sha256(pem: &Vec<u8>) -> (r: Result<Vec<u8>, openssl::error::ErrorStack>)
    requires
        fits_openssl(pem@.len() as int),
        !encrypted_certificate_block(pem@),
    ensures
        r is Ok <==> parses_as_x509(pem@),
        r is Ok ==> r->Ok_0@ == x509_sha256_of(pem@) && r->Ok_0@.len() == 32,
{
    let cert = openssl::x509::X509::from_pem(pem)?;
    let digest = cert.digest(openssl::hash::MessageDigest::sha256())?;
    Ok(digest.to_vec())
}

/// Relies on `hex::encode`: lowercase hexadecimal, two digits per byte,
/// high nibble first.
#[verifier::external_body]
fn hex_encode_lower(bytes: &Vec<u8>) -> (r: String)
    ensures
        r@ == hex_lower_of(bytes@),
{
    hex::encode(bytes)
}

/// Relies on `openssl`'s `Rsa::generate`, `PKey::from_rsa`,
/// `PKey::private_key_to_pem_pkcs8` and the `X509Req` builder: generates a
/// fresh RSA key of the given size and a certificate-signing request for
/// the given subject, self-signed with SHA-256. The key PEM is
/// unencrypted PKCS#8, which `PKey::private_key_from_pem_passphrase`
/// reads back without any prompt, reporting the requested key size; the
/// request's subject carries exactly the two given names, which parsing
/// the request reads back, and its public key is the generated key's,
/// with a self-signature that verifies under it. The key is freshly
/// random, so nothing more is promised of either byte string. The caller
/// keeps the subject strings inside the bindings' C `int` length cap,
/// below which they do not panic; the key PEM is far below that cap,
/// since OpenSSL refuses moduli beyond its built-in size limit.
#[verifier::external_body]
fn generate_key_and_csr(
    common_name: &str,
    organization: &str,
    bits: u32,
) -> (r: Result<(Vec<u8>, Vec<u8>), openssl::error::ErrorStack>)
    requires
        common_name.spec_bytes().len() as usize <= 0x7fff_ffff,
        organization.spec_bytes().len() as usize <= 0x7fff_ffff,
    ensures
        r is Ok ==> accepts_private_key(r->Ok_0.0@),
        r is Ok ==> key_bits_of(r->Ok_0.0@) == bits as nat,
        r is Ok ==> csr_subject_of(r->Ok_0.1@) == (common_name@, organization@),
        r is Ok ==> csr_matches_key(r->Ok_0.1@, r->Ok_0.0@),
{
    let rsa = openssl::rsa::Rsa::generate(bits)?;
    let key = openssl::pkey::PKey::from_rsa(rsa)?;
    let mut req = openssl::x509::X509Req::builder()?;
    req.set_pubkey(key.as_ref())?;
    req.set_version(2)?;
    let mut name = openssl::x509::X509Name::builder()?;
    name.append_entry_by_nid(openssl::nid::Nid::COMMONNAME, common_name)?;
    name.append_entry_by_nid(openssl::nid::Nid::ORGANIZATIONNAME, organization)?;
    let name = name.build();
    req.set_subject_name(name.as_ref())?;
    req.sign(key.as_ref(), openssl::hash::MessageDigest::sha256())?;
    Ok((key.private_key_to_pem_pkcs8()?, req.build().to_pem()?))
}

/// Generates a fresh 2048-bit private key and a certificate-signing
/// request whose subject carries the given common name and the fixed
/// organization name. Returns the key PEM and the request PEM. Key
/// generation is random, so success is not owed; what is returned on
/// success is pinned: a readable key of the fixed size, and a request
/// whose subject reads back as the two names, carrying that key's public
/// key under a self-signature that verifies.
pub fn create_csr(common_name: &str) -> (r: Result<(Vec<u8>, Vec<u8>), ProviderError>)
    ensures
        r is Ok ==> accepts_private_key(r->Ok_0.0@) && key_bits_of(r->Ok_0.0@) == 2048,
        r is Ok ==> csr_subject_of(r->Ok_0.1@) == (common_name@, "WirePact PKI"@),
        r is Ok ==> csr_matches_key(r->Ok_0.1@, r->Ok_0.0@),
        r is Err ==> r->Err_0 == ProviderError::Crypto,
{
    let organization = "WirePact PKI";
    if common_name.len() > 0x7fff_ffff || organization.len() > 0x7fff_ffff {
        return Err(ProviderError::Crypto);
    }
    match generate_key_and_csr(common_name, organization, 2048) {
        Ok(p) => Ok(p),
        Err(_) => Err(ProviderError::Crypto),
    }
}

/// Hex-encodes a digest in lowercase; defined for every digest value.
pub fn fingerprint_hex(digest: &Vec<u8>) -> (r: String)
    ensures
        r@ == hex_lower_of(digest@),
{
    hex_encode_lower(digest)
}

/// Computes the SHA-256 fingerprint of a PEM certificate, hex-encoded in
/// lowercase. Succeeds exactly on the bytes the library accepts as a
/// certificate, and fails with `Crypto` otherwise; bytes holding an
/// encrypted certificate block are rejected here rather than handed to
/// OpenSSL's passphrase prompt, and oversized buffers rather than to its
/// length assertion.
pub fn certificate_hash(pem: &Vec<u8>) -> (r: Result<String, ProviderError>)
    ensures
        r is Ok <==> accepts_certificate(pem@),
        r is Ok ==> r->Ok_0@ == fingerprint_of(pem@) && r->Ok_0@.len() == 64,
        r is Err ==> r->Err_0 == ProviderError::Crypto,
{
    if pem.len() > 0x7fff_ffff || has_encrypted_certificate_block(pem) {
        return Err(ProviderError::Crypto);
    }
    match x509_digest_sha256(pem) {
        Ok(digest) => {
            proof {
                lemma_hex_lower_len(digest@);
            }
            Ok(fingerprint_hex(&digest))
        },
        Err(_) => Err(ProviderError::Crypto),
    }
}

} // verus!
