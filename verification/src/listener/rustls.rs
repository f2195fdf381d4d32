//! TLS configuration and certificate compilation.
//!
//! A [`RustlsCertificate`] bundles PEM certificate-chain bytes, PEM private-key
//! bytes and an optional DER OCSP response.  Compiling it yields a
//! [`CompiledCertificate`], an immutable, reference-counted certificate that
//! every connection accepted under one configuration shares.

use vstd::prelude::*;

use tokio_rustls::rustls::RootCertStore;
use tokio_rustls::rustls::pki_types::CertificateDer;
use tokio_rustls::rustls::sign::CertifiedKey;

verus! {

// ---------------------------------------------------------------------------
// Outside types the compiled form carries.
// ---------------------------------------------------------------------------

#[verifier::external_type_specification]
#[verifier::external_body]
pub struct ExCertificateDer<'a>(CertificateDer<'a>);

#[verifier::external_type_specification]
#[verifier::external_body]
pub struct ExCertifiedKey(CertifiedKey);

#[verifier::external_type_specification]
#[verifier::external_body]
pub struct ExRootCertStore(RootCertStore);

/// Relies on `RootCertStore`'s derived clone; nothing is assumed of the
/// copy.
pub assume_specification[ <RootCertStore as Clone>::clone ](s: &RootCertStore) -> RootCertStore;

// ---------------------------------------------------------------------------
// Names for what the PEM and key parsers return.
// ---------------------------------------------------------------------------

/// What `rustls_pemfile::certs` makes of a PEM blob: `None` when some section
/// is malformed, otherwise the number of `CERTIFICATE` sections found.
pub uninterp spec fn pem_certificates(pem: Seq<u8>) -> Option<nat>;

/// Whether `rustls_pemfile::private_key` finds a PKCS#1, PKCS#8 or SEC1
/// private-key section in a PEM blob (sections of other kinds are skipped).
pub uninterp spec fn pem_private_key_found(pem: Seq<u8>) -> bool;

/// Whether the first private key in a PEM blob parses as a key type the
/// engine can sign with (`any_supported_type`).
pub uninterp spec fn pem_private_key_supported(pem: Seq<u8>) -> bool;

/// What building a root-certificate store from a PEM blob yields: `None` when
/// a section is malformed or rejected as a trust anchor, otherwise the number
/// of anchors in the store.
pub uninterp spec fn trust_anchor_roots(pem: Seq<u8>) -> Option<nat>;

// ---------------------------------------------------------------------------
// Trusted wrappers around the parsers.
// ---------------------------------------------------------------------------

/// Why a private key was rejected.
enum KeyRejection {
    /// No private-key section in the PEM input.
    NoKeyFound,
    /// A key was found but no supported signature scheme can use it.
    Unsupported,
}

/// Relies on `rustls_pemfile::certs`: yields one DER certificate per PEM
/// `CERTIFICATE` section, an error if any section is malformed.
#[verifier::external_body]
fn parse_pem_certificates(pem: &Vec<u8>) -> (r: Result<Vec<CertificateDer<'static>>, ()>)
    ensures
        r is Ok <==> pem_certificates(pem@) is Some,
        r matches Ok(v) ==> pem_certificates(pem@) == Some(v@.len() as nat),
{
    rustls_pemfile::certs(&mut pem.as_slice())
        .collect::<Result<Vec<_>, _>>()
        .map_err(|_| ())
}

/// Relies on `rustls_pemfile::private_key` (the first PKCS#1, PKCS#8 or SEC1
/// section, other sections skipped; `Ok(None)` and read errors both mean no
/// usable key) and on `rustls::crypto::ring::sign::any_supported_type`.  The
/// certified key holds the chain, the signing key, and the OCSP response
/// exactly as given.
#[verifier::external_body]
fn build_certified_key(
    certs: Vec<CertificateDer<'static>>,
    key_pem: &Vec<u8>,
    ocsp: Option<Vec<u8>>,
) -> (r: Result<CertifiedKey, KeyRejection>)
    ensures
        r is Ok <==> (pem_private_key_found(key_pem@) && pem_private_key_supported(key_pem@)),
        r matches Err(e) ==> ((e is NoKeyFound) <==> !pem_private_key_found(key_pem@)),
{
    let mut reader = key_pem.as_slice();
    let der = match rustls_pemfile::private_key(&mut reader) {
        Ok(Some(der)) => der,
        _ => return Err(KeyRejection::NoKeyFound),
    };
    let key = match tokio_rustls::rustls::crypto::ring::sign::any_supported_type(&der) {
        Ok(key) => key,
        Err(_) => return Err(KeyRejection::Unsupported),
    };
    Ok(CertifiedKey { cert: certs, key, ocsp })
}

/// Relies on `rustls_pemfile::certs` and `RootCertStore::add`: every PEM
/// section must parse and be accepted as a trust anchor; the count is
/// `RootCertStore::len` after all were added.
#[verifier::external_body]
fn read_trust_anchor(pem: &Vec<u8>) -> (r: Result<(RootCertStore, usize), ()>)
    ensures
        r is Ok <==> trust_anchor_roots(pem@) is Some,
        r matches Ok(p) ==> trust_anchor_roots(pem@) == Some(p.1 as nat),
{
    let mut store = RootCertStore::empty();
    for der in rustls_pemfile::certs(&mut pem.as_slice()) {
        let der = der.map_err(|_| ())?;
        store.add(der).map_err(|_| ())?;
    }
    let count = store.len();
    Ok((store, count))
}

// ---------------------------------------------------------------------------
// The certificate descriptor.
// ---------------------------------------------------------------------------

/// The bytes a certificate descriptor holds.
#[verifier::ext_equal]
pub struct SpecCertificate {
    /// PEM certificate chain.
    pub cert: Seq<u8>,
    /// PEM private key.
    pub key: Seq<u8>,
    /// DER OCSP response; empty means none.
    pub ocsp: Seq<u8>,
}

/// An error found while compiling a TLS configuration.  Compilation is
/// all-or-nothing: the first error aborts the whole compile.
#[derive(Clone, Copy, Debug, PartialEq, Eq, Structural)]
pub enum ConfigError {
    /// The certificate chain does not parse into at least one certificate.
    InvalidCertificate,
    /// No private-key section was found in the key bytes.
    InvalidPrivateKey,
    /// A key was found, but no supported signature scheme can use it.
    UnsupportedKeyType,
    /// The client-authentication trust anchor does not parse into at least
    /// one root certificate.
    InvalidTrustAnchor,
}

impl ConfigError {
    /// A short description, in the shape of an I/O error message.
    pub fn message(&self) -> &'static str {
        match self {
            ConfigError::InvalidCertificate => "failed to parse tls certificates",
            ConfigError::InvalidPrivateKey => "failed to parse tls private keys",
            ConfigError::UnsupportedKeyType => "invalid private key",
            ConfigError::InvalidTrustAnchor => "invalid trust anchor",
        }
    }
}

/// Rustls certificate: a certificate chain, its private key, and an optional
/// OCSP response, all as in-memory bytes.
pub struct RustlsCertificate {
    cert: Vec<u8>,
    key: Vec<u8>,
    ocsp_resp: Vec<u8>,
}

impl View for RustlsCertificate {
    type V = SpecCertificate;

    closed spec fn view(&self) -> SpecCertificate {
        SpecCertificate { cert: self.cert@, key: self.key@, ocsp: self.ocsp_resp@ }
    }
}

/// Whether a descriptor compiles: the chain parses into at least one
/// certificate, and a supported private key is found.
pub open spec fn descriptor_compiles(d: SpecCertificate) -> bool {
    &&& pem_certificates(d.cert) matches Some(n) && n > 0
    &&& pem_private_key_found(d.key)
    &&& pem_private_key_supported(d.key)
}

/// The error a failing descriptor compile reports: the chain is checked
/// first, then the presence of a key, then its usability.
pub open spec fn descriptor_error(d: SpecCertificate) -> ConfigError {
    if !(pem_certificates(d.cert) matches Some(n) && n > 0) {
        ConfigError::InvalidCertificate
    } else if !pem_private_key_found(d.key) {
        ConfigError::InvalidPrivateKey
    } else {
        ConfigError::UnsupportedKeyType
    }
}

impl Default for RustlsCertificate {
    /// An empty descriptor; it does not compile until cert and key are set.
    fn default() -> (r: Self)
        ensures
            r@.cert == Seq::<u8>::empty(),
            r@.key == Seq::<u8>::empty(),
            r@.ocsp == Seq::<u8>::empty(),
    {
        RustlsCertificate { cert: Vec::new(), key: Vec::new(), ocsp_resp: Vec::new() }
    }
}

impl RustlsCertificate {
    /// Create a `RustlsCertificate` object.
    pub fn new() -> (r: Self)
        ensures
            r@.cert == Seq::<u8>::empty(),
            r@.key == Seq::<u8>::empty(),
            r@.ocsp == Seq::<u8>::empty(),
    {
        Default::default()
    }

    /// Sets the certificates.
    pub fn cert(self, cert: Vec<u8>) -> (r: Self)
        ensures
            r@ == (SpecCertificate { cert: cert@, ..self@ }),
    {
        RustlsCertificate { cert, ..self }
    }

    /// Sets the private key.
    pub fn key(self, key: Vec<u8>) -> (r: Self)
        ensures
            r@ == (SpecCertificate { key: key@, ..self@ }),
    {
        RustlsCertificate { key, ..self }
    }

    /// Sets the DER-encoded OCSP response.
    pub fn ocsp_resp(self, ocsp_resp: Vec<u8>) -> (r: Self)
        ensures
            r@ == (SpecCertificate { ocsp: ocsp_resp@, ..self@ }),
    {
        RustlsCertificate { ocsp_resp, ..self }
    }
}

// ---------------------------------------------------------------------------
// The compiled certificate.
// ---------------------------------------------------------------------------

/// A compiled, signing-capable certificate: immutable and shared by every
/// connection accepted while its configuration is active.
#[derive(Clone)]
pub struct CompiledCertificate {
    key: std::sync::Arc<CertifiedKey>,
    source: Ghost<SpecCertificate>,
}

impl CompiledCertificate {
    /// The descriptor this certificate was compiled from.
    pub closed spec fn source(self) -> SpecCertificate {
        self.source@
    }

    /// The engine-ready certified key, for the handshake layer.
    pub fn certified_key(&self) -> &std::sync::Arc<CertifiedKey> {
        &self.key
    }
}

impl RustlsCertificate {
    /// Compile the descriptor: parse the chain, scan the key bytes for the
    /// first private key, check a signature scheme supports it, and attach
    /// the OCSP response verbatim when one is present.
    pub fn create_certificate_key(&self) -> (r: Result<CompiledCertificate, ConfigError>)
        ensures
            r is Ok <==> descriptor_compiles(self@),
            r matches Ok(c) ==> c.source() == self@,
            r matches Err(e) ==> e == descriptor_error(self@),
    {
        let certs = match parse_pem_certificates(&self.cert) {
            Ok(certs) => certs,
            Err(_) => return Err(ConfigError::InvalidCertificate),
        };
        if certs.len() == 0 {
            return Err(ConfigError::InvalidCertificate);
        }
        let ocsp = if self.ocsp_resp.len() > 0 {
            Some(self.ocsp_resp.clone())
        } else {
            None
        };
        match build_certified_key(certs, &self.key, ocsp) {
            Ok(certified) => Ok(CompiledCertificate {
                key: std::sync::Arc::new(certified),
                source: Ghost(self@),
            }),
            Err(KeyRejection::NoKeyFound) => Err(ConfigError::InvalidPrivateKey),
            Err(KeyRejection::Unsupported) => Err(ConfigError::UnsupportedKeyType),
        }
    }
}

// ---------------------------------------------------------------------------
// Association lists keyed by hostname.
//
// The configuration and the resolver keep their certificates as ordered
// (name, value) pairs; lookups take the first pair whose name matches, so a
// later pair under the same name is shadowed, exactly as a map that the
// earlier insertion won.
// ---------------------------------------------------------------------------

/// The map an association list denotes: the first pair under a name wins.
pub open spec fn assoc_map<V>(s: Seq<(Seq<char>, V)>) -> Map<Seq<char>, V>
    decreases s.len(),
{
    if s.len() == 0 {
        Map::empty()
    } else {
        assoc_map(s.drop_first()).insert(s[0].0, s[0].1)
    }
}

/// Replacing the first pair under `k` by `(k, v)`, or appending one when no
/// pair carries `k`.
pub open spec fn assoc_set<V>(s: Seq<(Seq<char>, V)>, k: Seq<char>, v: V) -> Seq<(Seq<char>, V)>
    decreases s.len(),
{
    if s.len() == 0 {
        seq![(k, v)]
    } else if s[0].0 == k {
        seq![(k, v)] + s.drop_first()
    } else {
        seq![s[0]] + assoc_set(s.drop_first(), k, v)
    }
}

proof fn lemma_assoc_map_first_match<V>(s: Seq<(Seq<char>, V)>, k: Seq<char>, i: int)
    requires
        0 <= i < s.len(),
        s[i].0 == k,
        forall|j: int| 0 <= j < i ==> (#[trigger] s[j]).0 != k,
    ensures
        assoc_map(s).contains_key(k),
        assoc_map(s)[k] == s[i].1,
    decreases s.len(),
{
    if i == 0 {
    } else {
        lemma_assoc_map_first_match(s.drop_first(), k, i - 1);
    }
}

proof fn lemma_assoc_map_no_match<V>(s: Seq<(Seq<char>, V)>, k: Seq<char>)
    requires
        forall|j: int| 0 <= j < s.len() ==> (#[trigger] s[j]).0 != k,
    ensures
        !assoc_map(s).contains_key(k),
    decreases s.len(),
{
    if s.len() > 0 {
        lemma_assoc_map_no_match(s.drop_first(), k);
    }
}

proof fn lemma_assoc_set_found<V>(s: Seq<(Seq<char>, V)>, k: Seq<char>, v: V, i: int)
    requires
        0 <= i < s.len(),
        s[i].0 == k,
        forall|j: int| 0 <= j < i ==> (#[trigger] s[j]).0 != k,
    ensures
        assoc_set(s, k, v) == s.update(i, (k, v)),
    decreases s.len(),
{
    if i == 0 {
        assert(assoc_set(s, k, v) =~= s.update(0, (k, v)));
    } else {
        lemma_assoc_set_found(s.drop_first(), k, v, i - 1);
        assert(assoc_set(s, k, v) =~= s.update(i, (k, v)));
    }
}

proof fn lemma_assoc_set_missing<V>(s: Seq<(Seq<char>, V)>, k: Seq<char>, v: V)
    requires
        forall|j: int| 0 <= j < s.len() ==> (#[trigger] s[j]).0 != k,
    ensures
        assoc_set(s, k, v) == s.push((k, v)),
    decreases s.len(),
{
    if s.len() == 0 {
        assert(assoc_set(s, k, v) =~= s.push((k, v)));
    } else {
        lemma_assoc_set_missing(s.drop_first(), k, v);
        assert(assoc_set(s, k, v) =~= s.push((k, v)));
    }
}

// ---------------------------------------------------------------------------
// The TLS configuration.
// ---------------------------------------------------------------------------

/// Client-authentication policy, with the PEM trust anchor where one applies.
enum TlsClientAuth {
    Off,
    Optional(Vec<u8>),
    Required(Vec<u8>),
}

/// The client-authentication policy a configuration carries.
pub enum SpecClientAuth {
    /// No client certificate is requested.
    Off,
    /// A client certificate is validated against the anchor when presented;
    /// the connection proceeds either way.
    Optional(Seq<u8>),
    /// The handshake fails unless a valid client certificate is presented.
    Required(Seq<u8>),
}

/// What a TLS configuration holds: named certificates, an optional fallback,
/// and the client-authentication policy.
#[verifier::ext_equal]
pub struct SpecConfig {
    /// Certificates keyed by SNI hostname, in insertion order.
    pub certificates: Seq<(Seq<char>, SpecCertificate)>,
    /// The certificate served when no name matches.
    pub fallback: Option<SpecCertificate>,
    /// The client-authentication policy.
    pub client_auth: SpecClientAuth,
}

/// Whether the client-authentication anchor compiles: not needed for `Off`;
/// otherwise the anchor must yield at least one trust root.
pub open spec fn anchor_ok(a: SpecClientAuth) -> bool {
    match a {
        SpecClientAuth::Off => true,
        SpecClientAuth::Optional(pem) => trust_anchor_roots(pem) matches Some(n) && n > 0,
        SpecClientAuth::Required(pem) => trust_anchor_roots(pem) matches Some(n) && n > 0,
    }
}

/// Whether every named certificate of the configuration compiles.
pub open spec fn certificates_ok(s: Seq<(Seq<char>, SpecCertificate)>) -> bool {
    forall|i: int| 0 <= i < s.len() ==> descriptor_compiles((#[trigger] s[i]).1)
}

/// The error reported for the first named certificate that fails to compile.
pub open spec fn certificates_error(s: Seq<(Seq<char>, SpecCertificate)>) -> ConfigError
    decreases s.len(),
{
    if s.len() == 0 {
        ConfigError::InvalidCertificate
    } else if !descriptor_compiles(s[0].1) {
        descriptor_error(s[0].1)
    } else {
        certificates_error(s.drop_first())
    }
}

/// Whether the whole configuration compiles: the fallback (when present) and
/// every named certificate compile, and the trust anchor (when one applies)
/// yields at least one root.
pub open spec fn config_compiles(c: SpecConfig) -> bool {
    &&& (c.fallback matches Some(d) ==> descriptor_compiles(d))
    &&& certificates_ok(c.certificates)
    &&& anchor_ok(c.client_auth)
}

/// The error a failing compile reports: the fallback is compiled first, then
/// the named certificates in insertion order, then the trust anchor.
pub open spec fn config_error(c: SpecConfig) -> ConfigError {
    if c.fallback matches Some(d) && !descriptor_compiles(d) {
        descriptor_error(c.fallback->Some_0)
    } else if !certificates_ok(c.certificates) {
        certificates_error(c.certificates)
    } else {
        ConfigError::InvalidTrustAnchor
    }
}

proof fn lemma_certificates_error_at(s: Seq<(Seq<char>, SpecCertificate)>, i: int)
    requires
        0 <= i < s.len(),
        !descriptor_compiles(s[i].1),
        forall|j: int| 0 <= j < i ==> descriptor_compiles((#[trigger] s[j]).1),
    ensures
        !certificates_ok(s),
        certificates_error(s) == descriptor_error(s[i].1),
    decreases s.len(),
{
    if i > 0 {
        lemma_certificates_error_at(s.drop_first(), i - 1);
    }
}

/// Rustls configuration: a set of certificates keyed by SNI hostname, an
/// optional fallback certificate, and a client-authentication policy.
pub struct RustlsConfig {
    certificates: Vec<(String, RustlsCertificate)>,
    fallback: Option<RustlsCertificate>,
    client_auth: TlsClientAuth,
}

impl View for RustlsConfig {
    type V = SpecConfig;

    closed spec fn view(&self) -> SpecConfig {
        SpecConfig {
            certificates: self.certificates@.map_values(
                |p: (String, RustlsCertificate)| (p.0@, p.1@),
            ),
            fallback: match self.fallback {
                Some(f) => Some(f@),
                None => None,
            },
            client_auth: match self.client_auth {
                TlsClientAuth::Off => SpecClientAuth::Off,
                TlsClientAuth::Optional(pem) => SpecClientAuth::Optional(pem@),
                TlsClientAuth::Required(pem) => SpecClientAuth::Required(pem@),
            },
        }
    }
}

impl Default for RustlsConfig {
    /// The empty configuration: no certificates, no fallback, client
    /// authentication off.
    fn default() -> (r: Self)
        ensures
            r@.certificates == Seq::<(Seq<char>, SpecCertificate)>::empty(),
            r@.fallback is None,
            r@.client_auth is Off,
    {
        Self::new()
    }
}

impl RustlsConfig {
    /// Create a new tls config object.
    pub fn new() -> (r: Self)
        ensures
            r@.certificates == Seq::<(Seq<char>, SpecCertificate)>::empty(),
            r@.fallback is None,
            r@.client_auth is Off,
    {
        RustlsConfig {
            certificates: Vec::new(),
            fallback: None,
            client_auth: TlsClientAuth::Off,
        }
    }

    /// Sets the certificates of the fallback certificate.
    pub fn cert(self, cert: Vec<u8>) -> (r: Self)
        ensures
            r@ == (SpecConfig {
                fallback: Some(
                    match self@.fallback {
                        Some(f) => SpecCertificate { cert: cert@, ..f },
                        None => SpecCertificate {
                            cert: cert@,
                            key: Seq::empty(),
                            ocsp: Seq::empty(),
                        },
                    },
                ),
                ..self@
            }),
    {
        let fallback = match self.fallback {
            Some(f) => f.cert(cert),
            None => RustlsCertificate::new().cert(cert),
        };
        RustlsConfig { fallback: Some(fallback), ..self }
    }

    /// Sets the private key of the fallback certificate.
    pub fn key(self, key: Vec<u8>) -> (r: Self)
        ensures
            r@ == (SpecConfig {
                fallback: Some(
                    match self@.fallback {
                        Some(f) => SpecCertificate { key: key@, ..f },
                        None => SpecCertificate {
                            cert: Seq::empty(),
                            key: key@,
                            ocsp: Seq::empty(),
                        },
                    },
                ),
                ..self@
            }),
    {
        let fallback = match self.fallback {
            Some(f) => f.key(key),
            None => RustlsCertificate::new().key(key),
        };
        RustlsConfig { fallback: Some(fallback), ..self }
    }

    /// Sets the DER-encoded OCSP response of the fallback certificate.
    pub fn ocsp_resp(self, ocsp_resp: Vec<u8>) -> (r: Self)
        ensures
            r@ == (SpecConfig {
                fallback: Some(
                    match self@.fallback {
                        Some(f) => SpecCertificate { ocsp: ocsp_resp@, ..f },
                        None => SpecCertificate {
                            cert: Seq::empty(),
                            key: Seq::empty(),
                            ocsp: ocsp_resp@,
                        },
                    },
                ),
                ..self@
            }),
    {
        let fallback = match self.fallback {
            Some(f) => f.ocsp_resp(ocsp_resp),
            None => RustlsCertificate::new().ocsp_resp(ocsp_resp),
        };
        RustlsConfig { fallback: Some(fallback), ..self }
    }

    /// If the certificate corresponding to the SNI name is not found, it will
    /// fall back to this certificate.
    pub fn fallback(self, certificate: RustlsCertificate) -> (r: Self)
        ensures
            r@ == (SpecConfig { fallback: Some(certificate@), ..self@ }),
    {
        RustlsConfig { fallback: Some(certificate), ..self }
    }

    /// Add a new certificate to be used for the given SNI `name`; an earlier
    /// certificate under the same name is replaced.
    #[verifier::loop_isolation(false)]
    pub fn certificate(self, name: String, certificate: RustlsCertificate) -> (r: Self)
        ensures
            r@ == (SpecConfig {
                certificates: assoc_set(self@.certificates, name@, certificate@),
                ..self@
            }),
    {
        let ghost orig = self@;
        let ghost kname = name@;
        let ghost vcert = certificate@;
        let mut this = self;
        let n = this.certificates.len();
        let mut i: usize = 0;
        while i < n
            invariant
                this@ == orig,
                name@ == kname,
                certificate@ == vcert,
                n == this.certificates.len(),
                0 <= i <= n,
                forall|j: int| 0 <= j < i ==> (#[trigger] orig.certificates[j]).0 != kname,
            decreases n - i,
        {
            if this.certificates[i].0 == name {
                proof {
                    lemma_assoc_set_found(orig.certificates, kname, vcert, i as int);
                }
                this.certificates[i] = (name, certificate);
                proof {
                    assert(this@.certificates =~~= assoc_set(orig.certificates, kname, vcert));
                }
                return this;
            }
            i += 1;
        }
        proof {
            lemma_assoc_set_missing(orig.certificates, kname, vcert);
        }
        this.certificates.push((name, certificate));
        proof {
            assert(this@.certificates =~~= assoc_set(orig.certificates, kname, vcert));
        }
        this
    }

    /// Sets the trust anchor for optional client authentication.
    pub fn client_auth_optional(self, trust_anchor: Vec<u8>) -> (r: Self)
        ensures
            r@ == (SpecConfig { client_auth: SpecClientAuth::Optional(trust_anchor@), ..self@ }),
    {
        RustlsConfig { client_auth: TlsClientAuth::Optional(trust_anchor), ..self }
    }

    /// Sets the trust anchor for required client authentication.
    pub fn client_auth_required(self, trust_anchor: Vec<u8>) -> (r: Self)
        ensures
            r@ == (SpecConfig { client_auth: SpecClientAuth::Required(trust_anchor@), ..self@ }),
    {
        RustlsConfig { client_auth: TlsClientAuth::Required(trust_anchor), ..self }
    }
}

// ---------------------------------------------------------------------------
// The SNI certificate resolver.
// ---------------------------------------------------------------------------

/// The view of an optional requested server name.
pub open spec fn opt_str_view(s: Option<&str>) -> Option<Seq<char>> {
    match s {
        Some(x) => Some(x@),
        None => None,
    }
}

/// Picks the certificate to present, by the client's requested server name:
/// an exact match among the named certificates, else the fallback, else none
/// (and the handshake fails at the engine level).
#[derive(Clone)]
pub struct ResolveServerCert {
    certificate_keys: Vec<(String, CompiledCertificate)>,
    fallback: Option<CompiledCertificate>,
}

impl ResolveServerCert {
    /// The named certificates, in insertion order.
    pub closed spec fn spec_keys(self) -> Seq<(Seq<char>, CompiledCertificate)> {
        self.certificate_keys@.map_values(|p: (String, CompiledCertificate)| (p.0@, p.1))
    }

    /// The fallback certificate, when one is configured.
    pub closed spec fn spec_fallback(self) -> Option<CompiledCertificate> {
        self.fallback
    }

    /// The name-to-certificate map the resolver denotes.
    pub open spec fn key_map(self) -> Map<Seq<char>, CompiledCertificate> {
        assoc_map(self.spec_keys())
    }

    /// What resolution returns: the exact match when the name is known, else
    /// the fallback when present, else nothing.
    pub open spec fn spec_resolve(self, name: Option<Seq<char>>) -> Option<CompiledCertificate> {
        match name {
            Some(n) => if self.key_map().contains_key(n) {
                Some(self.key_map()[n])
            } else {
                self.spec_fallback()
            },
            None => self.spec_fallback(),
        }
    }

    /// Resolve a requested server name to the certificate to present.
    /// Matching is exact and case-sensitive, as the names were stored.
    #[verifier::loop_isolation(false)]
    pub fn resolve(&self, server_name: Option<&str>) -> (r: Option<&CompiledCertificate>)
        ensures
            r is Some <==> self.spec_resolve(opt_str_view(server_name)) is Some,
            r matches Some(c) ==> self.spec_resolve(opt_str_view(server_name)) == Some(*c),
    {
        if let Some(name) = server_name {
            let owned: String = name.to_owned();
            let n = self.certificate_keys.len();
            let mut i: usize = 0;
            while i < n
                invariant
                    0 <= i <= n,
                    n == self.certificate_keys@.len(),
                    forall|j: int| 0 <= j < i ==> (#[trigger] self.spec_keys()[j]).0 != name@,
                decreases n - i,
            {
                if self.certificate_keys[i].0 == owned {
                    proof {
                        lemma_assoc_map_first_match(self.spec_keys(), name@, i as int);
                    }
                    return Some(&self.certificate_keys[i].1);
                }
                i += 1;
            }
            proof {
                lemma_assoc_map_no_match(self.spec_keys(), name@);
            }
        }
        self.fallback.as_ref()
    }
}

// ---------------------------------------------------------------------------
// The compiled engine configuration.
// ---------------------------------------------------------------------------

/// ALPN protocol identifiers, most preferred first: `h2`, then `http/1.1`,
/// as bytes.
pub open spec fn spec_alpn() -> Seq<Seq<u8>> {
    seq![
        seq![104u8, 50u8],
        seq![104u8, 116u8, 116u8, 112u8, 47u8, 49u8, 46u8, 49u8],
    ]
}

/// The fixed ALPN preference list, `h2` then `http/1.1`.
fn default_alpn() -> (r: Vec<Vec<u8>>)
    ensures
        r.deep_view() == spec_alpn(),
{
    let mut h2: Vec<u8> = Vec::new();
    h2.push(104);
    h2.push(50);
    let mut http11: Vec<u8> = Vec::new();
    http11.push(104);
    http11.push(116);
    http11.push(116);
    http11.push(112);
    http11.push(47);
    http11.push(49);
    http11.push(46);
    http11.push(49);
    let mut r: Vec<Vec<u8>> = Vec::new();
    r.push(h2);
    r.push(http11);
    proof {
        assert(r.deep_view() =~~= spec_alpn());
    }
    r
}

/// A compiled trust anchor: the root-certificate store built from the
/// configured PEM bytes.
#[derive(Clone)]
pub struct CompiledTrustAnchor {
    store: RootCertStore,
    source: Ghost<Seq<u8>>,
}

impl CompiledTrustAnchor {
    /// The PEM bytes the store was built from.
    pub closed spec fn source(self) -> Seq<u8> {
        self.source@
    }

    /// The root-certificate store, for the handshake layer.
    pub fn store(&self) -> &RootCertStore {
        &self.store
    }
}

/// The compiled client-authentication policy.
#[derive(Clone)]
pub enum CompiledClientAuth {
    /// No client certificate is requested.
    Off,
    /// Validate a client certificate against the anchor when one is
    /// presented; proceed either way.
    Optional(CompiledTrustAnchor),
    /// Fail the handshake unless a valid client certificate is presented.
    Required(CompiledTrustAnchor),
}

/// The client-authentication mode alone, without its trust anchor.
#[derive(Clone, Copy, Debug, PartialEq, Eq, Structural)]
pub enum ClientAuthMode {
    /// No client certificate is requested.
    Off,
    /// A client certificate is validated only when presented.
    Optional,
    /// A valid client certificate is demanded.
    Required,
}

/// The mode a client-authentication policy names.
pub open spec fn spec_mode_of(a: SpecClientAuth) -> ClientAuthMode {
    match a {
        SpecClientAuth::Off => ClientAuthMode::Off,
        SpecClientAuth::Optional(_) => ClientAuthMode::Optional,
        SpecClientAuth::Required(_) => ClientAuthMode::Required,
    }
}

spec fn resolver_matches(r: ResolveServerCert, c: SpecConfig) -> bool {
    &&& r.spec_keys().len() == c.certificates.len()
    &&& forall|i: int| 0 <= i < c.certificates.len() ==> (#[trigger] r.spec_keys()[i]).0
        == c.certificates[i].0 && r.spec_keys()[i].1.source() == c.certificates[i].1
    &&& match (r.spec_fallback(), c.fallback) {
        (Some(cc), Some(d)) => cc.source() == d,
        (None, None) => true,
        _ => false,
    }
}

spec fn auth_matches(a: CompiledClientAuth, s: SpecClientAuth) -> bool {
    match (a, s) {
        (CompiledClientAuth::Off, SpecClientAuth::Off) => true,
        (CompiledClientAuth::Optional(t), SpecClientAuth::Optional(pem)) => t.source() == pem,
        (CompiledClientAuth::Required(t), SpecClientAuth::Required(pem)) => t.source() == pem,
        _ => false,
    }
}

/// An immutable, engine-ready server configuration: the SNI resolver over the
/// compiled certificates, the compiled client-authentication policy, and the
/// fixed ALPN preference list.
pub struct EngineConfig {
    resolver: ResolveServerCert,
    client_auth: CompiledClientAuth,
    alpn_protocols: Vec<Vec<u8>>,
    source: Ghost<SpecConfig>,
}

impl EngineConfig {
    /// Every engine configuration is well formed: it only ever comes out of
    /// a successful compile.
    #[verifier::type_invariant]
    spec fn type_inv(self) -> bool {
        self.wf()
    }

    /// The configuration this engine configuration was compiled from.
    pub closed spec fn source(self) -> SpecConfig {
        self.source@
    }

    /// The resolver, as a specification value.
    pub closed spec fn spec_resolver(self) -> ResolveServerCert {
        self.resolver
    }

    /// Well-formed: compiled from its source configuration, name by name,
    /// with the source's client-authentication mode and the fixed ALPN list.
    pub closed spec fn wf(self) -> bool {
        &&& config_compiles(self.source@)
        &&& resolver_matches(self.resolver, self.source@)
        &&& auth_matches(self.client_auth, self.source@.client_auth)
        &&& self.alpn_protocols.deep_view() == spec_alpn()
    }

    /// The SNI resolver.
    pub fn resolver(&self) -> (r: &ResolveServerCert)
        ensures
            *r == self.spec_resolver(),
    {
        &self.resolver
    }

    /// The compiled client-authentication policy.
    pub fn client_auth(&self) -> &CompiledClientAuth {
        &self.client_auth
    }

    /// The client-authentication mode in force.
    pub fn client_auth_mode(&self) -> (r: ClientAuthMode)
        ensures
            r == spec_mode_of(self.source().client_auth),
    {
        proof {
            use_type_invariant(self);
        }
        match &self.client_auth {
            CompiledClientAuth::Off => ClientAuthMode::Off,
            CompiledClientAuth::Optional(_) => ClientAuthMode::Optional,
            CompiledClientAuth::Required(_) => ClientAuthMode::Required,
        }
    }

    /// The ALPN preference list.
    pub fn alpn_protocols(&self) -> (r: &Vec<Vec<u8>>)
        ensures
            r.deep_view() == spec_alpn(),
    {
        proof {
            use_type_invariant(self);
        }
        &self.alpn_protocols
    }
}

impl Clone for EngineConfig {
    /// Relies on memberwise clone: an engine configuration clones to an
    /// equal value (certified keys are shared, the root store and the ALPN
    /// list are copied unchanged).
    #[verifier::external_body]
    fn clone(&self) -> (r: Self)
        ensures
            r == *self,
    {
        EngineConfig {
            resolver: self.resolver.clone(),
            client_auth: self.client_auth.clone(),
            alpn_protocols: self.alpn_protocols.clone(),
            source: self.source,
        }
    }
}

impl RustlsConfig {
    /// Compile the whole configuration: the fallback first, then every named
    /// certificate in insertion order, then the trust anchor when client
    /// authentication is on.  The first failure aborts the compile; partial
    /// success is never exposed.
    #[verifier::loop_isolation(false)]
    pub fn create_server_config(&self) -> (r: Result<EngineConfig, ConfigError>)
        ensures
            r is Ok <==> config_compiles(self@),
            r matches Ok(ec) ==> ec.wf() && ec.source() == self@,
            r matches Err(e) ==> e == config_error(self@),
    {
        let fallback: Option<CompiledCertificate> = match &self.fallback {
            Some(fb) => match fb.create_certificate_key() {
                Ok(compiled) => Some(compiled),
                Err(e) => {
                    return Err(e);
                },
            },
            None => None,
        };
        let n = self.certificates.len();
        let mut certificate_keys: Vec<(String, CompiledCertificate)> = Vec::new();
        let mut i: usize = 0;
        while i < n
            invariant
                0 <= i <= n,
                n == self.certificates@.len(),
                certificate_keys@.len() == i,
                forall|j: int| 0 <= j < i ==> descriptor_compiles(
                    (#[trigger] self@.certificates[j]).1,
                ),
                forall|j: int| 0 <= j < i ==> (#[trigger] certificate_keys@[j]).0@
                    == self@.certificates[j].0 && certificate_keys@[j].1.source()
                    == self@.certificates[j].1,
            decreases n - i,
        {
            let name = self.certificates[i].0.clone();
            match self.certificates[i].1.create_certificate_key() {
                Ok(compiled) => {
                    certificate_keys.push((name, compiled));
                },
                Err(e) => {
                    proof {
                        lemma_certificates_error_at(self@.certificates, i as int);
                    }
                    return Err(e);
                },
            }
            i += 1;
        }
        let client_auth: CompiledClientAuth = match &self.client_auth {
            TlsClientAuth::Off => CompiledClientAuth::Off,
            TlsClientAuth::Optional(anchor) => {
                match read_trust_anchor(anchor) {
                    Ok((store, count)) => {
                        if count == 0 {
                            return Err(ConfigError::InvalidTrustAnchor);
                        }
                        CompiledClientAuth::Optional(
                            CompiledTrustAnchor { store, source: Ghost(anchor@) },
                        )
                    },
                    Err(_) => {
                        return Err(ConfigError::InvalidTrustAnchor);
                    },
                }
            },
            TlsClientAuth::Required(anchor) => {
                match read_trust_anchor(anchor) {
                    Ok((store, count)) => {
                        if count == 0 {
                            return Err(ConfigError::InvalidTrustAnchor);
                        }
                        CompiledClientAuth::Required(
                            CompiledTrustAnchor { store, source: Ghost(anchor@) },
                        )
                    },
                    Err(_) => {
                        return Err(ConfigError::InvalidTrustAnchor);
                    },
                }
            },
        };
        let resolver = ResolveServerCert { certificate_keys, fallback };
        Ok(EngineConfig {
            resolver,
            client_auth,
            alpn_protocols: default_alpn(),
            source: Ghost(self@),
        })
    }
}

proof fn lemma_assoc_map_sources(
    rs: Seq<(Seq<char>, CompiledCertificate)>,
    cs: Seq<(Seq<char>, SpecCertificate)>,
    k: Seq<char>,
)
    requires
        rs.len() == cs.len(),
        forall|i: int| 0 <= i < cs.len() ==> (#[trigger] rs[i]).0 == cs[i].0 && rs[i].1.source()
            == cs[i].1,
    ensures
        assoc_map(rs).contains_key(k) <==> assoc_map(cs).contains_key(k),
        assoc_map(cs).contains_key(k) ==> assoc_map(rs)[k].source() == assoc_map(cs)[k],
    decreases cs.len(),
{
    if cs.len() > 0 {
        lemma_assoc_map_sources(rs.drop_first(), cs.drop_first(), k);
    }
}

/// Law: a compiled configuration resolves exactly as its source prescribes.
/// A server name the configuration maps yields the certificate compiled from
/// that name's descriptor; any other name, and a connection that presents no
/// name, yields the fallback's compilation when a fallback is configured,
/// and nothing otherwise — the handshake then fails at the engine level.
pub proof fn lemma_engine_resolution(ec: EngineConfig, name: Option<Seq<char>>)
    requires
        ec.wf(),
    ensures
        ({
            let cfg = ec.source();
            let resolved = ec.spec_resolver().spec_resolve(name);
            match name {
                Some(n) => {
                    if assoc_map(cfg.certificates).contains_key(n) {
                        resolved matches Some(c) && c.source() == assoc_map(cfg.certificates)[n]
                    } else {
                        match cfg.fallback {
                            Some(d) => resolved matches Some(c) && c.source() == d,
                            None => resolved is None,
                        }
                    }
                },
                None => match cfg.fallback {
                    Some(d) => resolved matches Some(c) && c.source() == d,
                    None => resolved is None,
                },
            }
        }),
{
    let r = ec.spec_resolver();
    match name {
        Some(n) => {
            lemma_assoc_map_sources(r.spec_keys(), ec.source().certificates, n);
        },
        None => {},
    }
}

} // verus!
