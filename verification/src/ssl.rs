//! The TLS context of the daemon: its own certificate chain and key, and
//! the certificates of the users as the trust anchors for client
//! certificates.

use crate::errors::{SSLError, SslFailure};
use std::sync::Arc;
use vstd::prelude::*;

verus! {

/// `rustls_pemfile::Item`: a section of a PEM file.
#[verifier::external_type_specification]
#[verifier::external_body]
pub struct ExPemItem(rustls_pemfile::Item);

/// `rustls::RootCertStore`: a store of trust anchors.
#[verifier::external_type_specification]
#[verifier::external_body]
pub struct ExRootCertStore(rustls::RootCertStore);

/// `rustls::ServerConfig`: the configuration of a TLS server.
#[verifier::external_type_specification]
#[verifier::external_body]
pub struct ExServerConfig(rustls::ServerConfig);

/// `rustls::Error`: why a TLS configuration could not be built. It is
/// carried as it is.
#[verifier::external_type_specification]
#[verifier::external_body]
pub struct ExTlsError(rustls::Error);

/// `webpki::Error`: why a certificate is no trust anchor. It is carried as
/// it is.
#[verifier::external_type_specification]
#[verifier::external_body]
pub struct ExWebpkiError(webpki::Error);

/// A section of a PEM file, with what it holds in DER.
#[derive(Debug, PartialEq, Eq)]
pub enum PemItem {
    /// A certificate.
    X509Certificate(Vec<u8>),
    /// An RSA private key.
    RSAKey(Vec<u8>),
    /// A private key in PKCS#8.
    PKCS8Key(Vec<u8>),
    /// An elliptic-curve private key.
    ECKey(Vec<u8>),
    /// A certificate revocation list.
    Crl(Vec<u8>),
    /// A section of another kind.
    Other,
}

impl PemItem {
    /// The private key that the section holds, in DER: an RSA key, a key
    /// in PKCS#8 or an elliptic-curve key. A section of another kind holds
    /// none.
    pub open spec fn key_der(self) -> Option<Seq<u8>> {
        match self {
            PemItem::RSAKey(key) => Some(key@),
            PemItem::PKCS8Key(key) => Some(key@),
            PemItem::ECKey(key) => Some(key@),
            _ => None,
        }
    }

    /// Takes the private key out of the section, if it holds one.
    pub fn into_key(self) -> (r: Option<Vec<u8>>)
        ensures
            match r {
                Some(key) => self.key_der() == Some(key@),
                None => self.key_der() is None,
            },
    {
        match self {
            PemItem::RSAKey(key) => Some(key),
            PemItem::PKCS8Key(key) => Some(key),
            PemItem::ECKey(key) => Some(key),
            _ => None,
        }
    }
}

/// The certificates in a row of byte vectors.
pub open spec fn ders(certs: Seq<Vec<u8>>) -> Seq<Seq<u8>> {
    Seq::new(certs.len(), |i: int| certs[i]@)
}

/// What `rustls_pemfile::read_one` reads from a PEM text from the byte at
/// `start` on: the next section, if there is one, and the place behind
/// what it read; nothing where it fails.
pub uninterp spec fn pem_read(text: Seq<u8>, start: nat) -> Option<(Option<PemItem>, nat)>;

/// The certificates among the sections of a PEM text from the byte at
/// `start` on, in their order: the sections are read one after the other
/// to the end of the text, the certificates are kept and the others are
/// passed over. There are none to give where a section cannot be read.
pub open spec fn certificates_from(text: Seq<u8>, start: nat) -> Option<Seq<Seq<u8>>>
    decreases text.len() - start,
{
    match pem_read(text, start) {
        None => None,
        Some((None, _)) => Some(Seq::empty()),
        Some((Some(item), next)) => if start < next <= text.len() {
            match certificates_from(text, next) {
                None => None,
                Some(rest) => match item {
                    PemItem::X509Certificate(der) => Some(seq![der@] + rest),
                    _ => Some(rest),
                },
            }
        } else {
            None
        },
    }
}

/// The certificates in a PEM text, in their order; nothing where a section
/// of the text cannot be read.
pub open spec fn pem_certificates(text: Seq<u8>) -> Option<Seq<Seq<u8>>> {
    certificates_from(text, 0)
}

/// Calls `rustls_pemfile::certs` on the text, which reads section after
/// section with `rustls_pemfile::read_one` until the text ends, keeps the
/// certificates and fails where `read_one` does. The contract says so, over
/// the name of what `read_one` reads: the certificates on success, and an
/// error exactly where a section cannot be read.
#[verifier::external_body]
fn read_certs(text: &[u8]) -> (r: Result<Vec<Vec<u8>>, std::io::Error>)
    ensures
        match r {
            Ok(certs) => pem_certificates(text@) == Some(ders(certs@)),
            Err(_) => pem_certificates(text@) is None,
        },
{
    let mut rest = text;
    rustls_pemfile::certs(&mut rest)
}

/// Hands a `rustls_pemfile::Item` over as a `PemItem`, variant by variant.
#[verifier::external_body]
fn pem_item_of(item: rustls_pemfile::Item) -> PemItem {
    match item {
        rustls_pemfile::Item::X509Certificate(der) => PemItem::X509Certificate(der),
        rustls_pemfile::Item::RSAKey(der) => PemItem::RSAKey(der),
        rustls_pemfile::Item::PKCS8Key(der) => PemItem::PKCS8Key(der),
        rustls_pemfile::Item::ECKey(der) => PemItem::ECKey(der),
        rustls_pemfile::Item::Crl(der) => PemItem::Crl(der),
        _ => PemItem::Other,
    }
}

/// Calls `rustls_pemfile::read_one` on a cursor over the text that stands
/// at `start`, and returns what it read with the place where the cursor
/// stands afterwards. The contract gives the outcome its name. It also
/// says that the cursor does not go back nor beyond the text, and that it
/// has gone on where a section was read: a section has a first and a last
/// line.
#[verifier::external_body]
fn read_one(text: &[u8], start: usize) -> (r: (Result<Option<PemItem>, std::io::Error>, usize))
    requires
        start <= text@.len(),
    ensures
        match r.0 {
            Ok(item) => pem_read(text@, start as nat) == Some((item, r.1 as nat)),
            Err(_) => pem_read(text@, start as nat) is None,
        },
        start <= r.1 <= text@.len(),
        r.0 matches Ok(Some(_)) ==> start < r.1,
{
    let mut rest = std::io::Cursor::new(text);
    rest.set_position(start as u64);
    let item = rustls_pemfile::read_one(&mut rest);
    (item.map(|found| found.map(pem_item_of)), rest.position() as usize)
}

/// How the search for a private key in a PEM text ends.
pub enum KeySearch {
    /// With the first key: the key in DER.
    Found(Seq<u8>),
    /// At the end of the text, without a key.
    NoKeys,
    /// At a section that cannot be read.
    Unreadable,
}

/// The search for the first private key in a PEM text from the byte at
/// `start` on. Sections of a kind that is no key are passed over; a key is
/// an RSA key, a key in PKCS#8 or an elliptic-curve key.
pub open spec fn key_search(text: Seq<u8>, start: nat) -> KeySearch
    decreases text.len() - start,
{
    match pem_read(text, start) {
        None => KeySearch::Unreadable,
        Some((None, _)) => KeySearch::NoKeys,
        Some((Some(item), next)) => match item.key_der() {
            Some(key) => KeySearch::Found(key),
            None => if start < next <= text.len() {
                key_search(text, next)
            } else {
                KeySearch::NoKeys
            },
        },
    }
}

/// Finds the first private key in the PEM text of the file at `path`.
pub fn find_key(path: &str, text: &[u8]) -> (r: Result<Vec<u8>, SSLError>)
    ensures
        match r {
            Ok(key) => key_search(text@, 0) == KeySearch::Found(key@),
            Err(e) => match key_search(text@, 0) {
                KeySearch::Found(_) => false,
                KeySearch::NoKeys => e@ == (SslFailure::NoKeysFound { path: path@ }),
                KeySearch::Unreadable => e@ == (SslFailure::KeyParse { path: path@ }),
            },
        },
{
    let mut pos: usize = 0;
    loop
        invariant
            pos <= text@.len(),
            key_search(text@, 0) == key_search(text@, pos as nat),
        decreases text@.len() - pos,
    {
        let (item, next) = read_one(text, pos);
        match item {
            Err(err) => {
                return Err(SSLError::KeyParseError { path: path.to_owned(), err });
            },
            Ok(None) => {
                return Err(SSLError::NoKeysFound { path: path.to_owned() });
            },
            Ok(Some(item)) => match item.into_key() {
                Some(key) => {
                    return Ok(key);
                },
                None => {
                    pos = next;
                },
            },
        }
    }
}

/// What of a certificate makes it a trust anchor: its subject, its public
/// key and its name constraints, each in DER.
pub struct TrustAnchor {
    pub subject: Seq<u8>,
    pub spki: Seq<u8>,
    pub name_constraints: Option<Seq<u8>>,
}

/// The trust anchor that `webpki::TrustAnchor::try_from_cert_der` makes of
/// a certificate in DER; nothing where it refuses the certificate.
pub uninterp spec fn trust_anchor(der: Seq<u8>) -> Option<TrustAnchor>;

/// The trust anchors that a `rustls::RootCertStore` holds, in their order.
pub uninterp spec fn store_anchors(store: rustls::RootCertStore) -> Seq<TrustAnchor>;

/// Whether the bytes are a private key in DER of a kind that
/// `rustls::sign::any_supported_type` takes: an RSA key, an ECDSA key or an
/// Ed25519 key. This is a matter of the bytes alone. That rustls makes a
/// signing key of such bytes is not: for an ECDSA key it also asks the
/// random source of the system, which may fail.
pub uninterp spec fn signing_key_supported(key: Seq<u8>) -> bool;

/// The certificate chain that a `rustls::ServerConfig` presents to every
/// client.
pub uninterp spec fn config_chain(config: rustls::ServerConfig) -> Seq<Seq<u8>>;

/// The trust anchors against which a `rustls::ServerConfig` verifies the
/// certificate of a client.
pub uninterp spec fn config_anchors(config: rustls::ServerConfig) -> Seq<TrustAnchor>;

/// Whether a `rustls::ServerConfig` asks a client for a certificate and
/// goes on with the handshake where the client offers none.
pub uninterp spec fn config_admits_anonymous(config: rustls::ServerConfig) -> bool;

/// `rustls::RootCertStore::empty`: a store that holds nothing.
#[verifier::external_body]
fn empty_store() -> (store: rustls::RootCertStore)
    ensures
        store_anchors(store) == Seq::<TrustAnchor>::empty(),
{
    rustls::RootCertStore::empty()
}

/// `rustls::RootCertStore::add`: the trust anchor of the certificate goes
/// behind the anchors that the store holds; where webpki refuses the
/// certificate the store stays as it is and the error of webpki is
/// returned.
#[verifier::external_body]
fn add_anchor(store: &mut rustls::RootCertStore, der: &Vec<u8>) -> (r: Result<(), webpki::Error>)
    ensures
        match r {
            Ok(_) => trust_anchor(der@) matches Some(anchor) && store_anchors(*final(store))
                == store_anchors(*old(store)).push(anchor),
            Err(_) => trust_anchor(der@) is None && store_anchors(*final(store)) == store_anchors(
                *old(store),
            ),
        },
{
    store.add(&rustls::Certificate(der.clone()))
}

/// Builds a `rustls::ServerConfig` as `rustls::ServerConfig::builder`
/// does with the safe defaults, with
/// `rustls::server::AllowAnyAnonymousOrAuthenticatedClient` over the
/// store as the verifier of client certificates and with the chain and the
/// key as the single certificate. Where it succeeds, the key is of a kind
/// that rustls takes, and the configuration built presents the chain,
/// verifies clients against the anchors of the store, and admits clients
/// without a certificate. Nothing is said of when it fails: rustls refuses
/// a key of another kind, and may refuse a good key in a process whose
/// random source fails.
#[verifier::external_body]
fn build_config(roots: rustls::RootCertStore, chain: Vec<Vec<u8>>, key: Vec<u8>) -> (r: Result<
    Arc<rustls::ServerConfig>,
    rustls::Error,
>)
    ensures
        r matches Ok(config) ==> signing_key_supported(key@) && config_chain(*config) == ders(
            chain@,
        ) && config_anchors(*config) == store_anchors(roots) && config_admits_anonymous(*config),
{
    let verifier = rustls::server::AllowAnyAnonymousOrAuthenticatedClient::new(roots);
    let chain = chain.into_iter().map(rustls::Certificate).collect();
    let config = rustls::ServerConfig::builder()
        .with_safe_default_cipher_suites()
        .with_safe_default_kx_groups()
        .with_safe_default_protocol_versions()
        .expect("the default cipher suites and protocol versions of rustls agree")
        .with_client_cert_verifier(verifier)
        .with_single_cert(chain, rustls::PrivateKey(key))?;
    Ok(Arc::new(config))
}

/// A file as it was read: its path, and its content or why it could not be
/// opened.
#[derive(Debug)]
pub struct SourceFile {
    pub path: String,
    pub content: Result<Vec<u8>, std::io::Error>,
}

/// A `SourceFile` in plain values; where the file could not be opened, the
/// error that says why stays as it is.
pub struct SourceView {
    pub path: Seq<char>,
    pub content: Result<Seq<u8>, std::io::Error>,
}

impl View for SourceFile {
    type V = SourceView;

    open spec fn view(&self) -> SourceView {
        SourceView {
            path: self.path@,
            content: match self.content {
                Ok(text) => Ok(text@),
                Err(err) => Err(err),
            },
        }
    }
}

/// The files in plain values.
pub open spec fn source_views(files: Seq<SourceFile>) -> Seq<SourceView> {
    Seq::new(files.len(), |i: int| files[i]@)
}

/// The trust anchors of certificates, in their order; nothing where one of
/// the certificates is refused.
pub open spec fn anchors_of(certs: Seq<Seq<u8>>) -> Option<Seq<TrustAnchor>>
    decreases certs.len(),
{
    if certs.len() == 0 {
        Some(Seq::empty())
    } else {
        match anchors_of(certs.drop_last()) {
            None => None,
            Some(anchors) => match trust_anchor(certs.last()) {
                None => None,
                Some(anchor) => Some(anchors.push(anchor)),
            },
        }
    }
}

/// The trust anchors of all certificates in the files, file by file in
/// their order. The first file that fails decides the failure: a file that
/// could not be opened, that is no PEM, or that holds a certificate that is
/// refused.
pub open spec fn trust_of(files: Seq<SourceView>) -> Result<Seq<TrustAnchor>, SslFailure>
    decreases files.len(),
{
    if files.len() == 0 {
        Ok(Seq::empty())
    } else {
        match trust_of(files.drop_last()) {
            Err(failure) => Err(failure),
            Ok(anchors) => match files.last().content {
                Err(err) => Err(SslFailure::CertOpen { path: files.last().path, err }),
                Ok(text) => match pem_certificates(text) {
                    None => Err(SslFailure::CertParse { path: files.last().path }),
                    Some(certs) => match anchors_of(certs) {
                        None => Err(SslFailure::CertAdd),
                        Some(more) => Ok(anchors + more),
                    },
                },
            },
        }
    }
}

/// What a TLS context is built of.
pub struct TlsParts {
    /// The certificate chain of the server, in the order of its file.
    pub chain: Seq<Seq<u8>>,
    /// The private key of the server.
    pub key: Seq<u8>,
    /// The trust anchors for the certificates of clients.
    pub anchors: Seq<TrustAnchor>,
}

/// What is handed to rustls for the TLS context, given the file of the
/// server's certificates, the file of its key and the files of the users'
/// certificates. The steps fail in this order: the server's certificates,
/// the server's key, the users' certificates file by file.
pub open spec fn tls_inputs(cert: SourceView, key: SourceView, users: Seq<SourceView>) -> Result<
    TlsParts,
    SslFailure,
> {
    match cert.content {
        Err(err) => Err(SslFailure::CertOpen { path: cert.path, err }),
        Ok(cert_text) => match pem_certificates(cert_text) {
            None => Err(SslFailure::CertParse { path: cert.path }),
            Some(chain) => match key.content {
                Err(err) => Err(SslFailure::KeyOpen { path: key.path, err }),
                Ok(key_text) => match key_search(key_text, 0) {
                    KeySearch::Unreadable => Err(SslFailure::KeyParse { path: key.path }),
                    KeySearch::NoKeys => Err(SslFailure::NoKeysFound { path: key.path }),
                    KeySearch::Found(found) => match trust_of(users) {
                        Err(failure) => Err(failure),
                        Ok(anchors) => Ok(TlsParts { chain, key: found, anchors }),
                    },
                },
            },
        },
    }
}

/// A failure among the first files is the failure of all.
proof fn lemma_trust_fails_early(files: Seq<SourceView>, upto: int)
    requires
        0 <= upto <= files.len(),
        trust_of(files.take(upto)) is Err,
    ensures
        trust_of(files) == trust_of(files.take(upto)),
    decreases files.len(),
{
    if upto == files.len() {
        assert(files.take(upto) == files);
    } else {
        assert(files.drop_last().take(upto) == files.take(upto));
        lemma_trust_fails_early(files.drop_last(), upto);
    }
}

/// A refusal among the first certificates is the refusal of all.
proof fn lemma_anchors_fail_early(certs: Seq<Seq<u8>>, upto: int)
    requires
        0 <= upto <= certs.len(),
        anchors_of(certs.take(upto)) is None,
    ensures
        anchors_of(certs) is None,
    decreases certs.len(),
{
    if upto == certs.len() {
        assert(certs.take(upto) == certs);
    } else {
        assert(certs.drop_last().take(upto) == certs.take(upto));
        lemma_anchors_fail_early(certs.drop_last(), upto);
    }
}

/// Adds the trust anchors of the certificates to the store, in their
/// order, and stops at the first that is refused.
fn add_certs(roots: &mut rustls::RootCertStore, certs: &Vec<Vec<u8>>) -> (r: Result<(), SSLError>)
    ensures
        match r {
            Ok(_) => anchors_of(ders(certs@)) matches Some(more) && store_anchors(*final(roots))
                == store_anchors(*old(roots)) + more,
            Err(e) => anchors_of(ders(certs@)) is None && e@ == SslFailure::CertAdd,
        },
{
    let mut i: usize = 0;
    assert(ders(certs@).take(0) == Seq::<Seq<u8>>::empty());
    assert(store_anchors(*roots) + Seq::<TrustAnchor>::empty() == store_anchors(*roots));
    while i < certs.len()
        invariant
            i <= certs.len(),
            anchors_of(ders(certs@).take(i as int)) matches Some(more) && store_anchors(*roots)
                == store_anchors(*old(roots)) + more,
        decreases certs.len() - i,
    {
        let ghost all = ders(certs@);
        assert(all.take(i + 1).drop_last() == all.take(i as int));
        assert(all.take(i + 1).last() == certs@[i as int]@);
        let ghost more = anchors_of(all.take(i as int)).unwrap();
        match add_anchor(roots, &certs[i]) {
            Ok(_) => {
                let ghost anchor = trust_anchor(certs@[i as int]@).unwrap();
                assert((store_anchors(*old(roots)) + more).push(anchor) == store_anchors(
                    *old(roots),
                ) + more.push(anchor));
            },
            Err(err) => {
                proof {
                    lemma_anchors_fail_early(all, i + 1);
                }
                return Err(SSLError::CertAddError { err });
            },
        }
        i += 1;
    }
    assert(ders(certs@).take(certs.len() as int) == ders(certs@));
    Ok(())
}

/// Gathers the trust anchors of all certificates in the files, file by
/// file in their order, and stops at the first file that fails.
fn trust_users(files: Vec<SourceFile>) -> (r: Result<rustls::RootCertStore, SSLError>)
    ensures
        match r {
            Ok(roots) => trust_of(source_views(files@)) == Ok::<Seq<TrustAnchor>, SslFailure>(
                store_anchors(roots),
            ),
            Err(e) => trust_of(source_views(files@)) == Err::<Seq<TrustAnchor>, SslFailure>(e@),
        },
{
    let mut roots = empty_store();
    let ghost all = source_views(files@);
    assert(all.take(0) == Seq::<SourceView>::empty());
    for file in it: files.into_iter()
        invariant
            all == source_views(files@),
            it.seq() == files@,
            trust_of(all.take(it.index() as int)) == Ok::<Seq<TrustAnchor>, SslFailure>(
                store_anchors(roots),
            ),
    {
        let ghost at = it.index() as int;
        assert(all.take(at + 1).drop_last() == all.take(at));
        assert(all.take(at + 1).last() == file@);
        let SourceFile { path, content } = file;
        let text = match content {
            Ok(text) => text,
            Err(err) => {
                proof {
                    lemma_trust_fails_early(all, at + 1);
                }
                return Err(SSLError::CertOpenError { path, err });
            },
        };
        let certs = match read_certs(text.as_slice()) {
            Ok(certs) => certs,
            Err(err) => {
                proof {
                    lemma_trust_fails_early(all, at + 1);
                }
                return Err(SSLError::CertParseError { path, err });
            },
        };
        match add_certs(&mut roots, &certs) {
            Ok(_) => {},
            Err(err) => {
                proof {
                    lemma_trust_fails_early(all, at + 1);
                }
                return Err(err);
            },
        }
    }
    assert(all.take(all.len() as int) == all);
    Ok(roots)
}

/// The TLS context of the daemon.
pub struct SSLConfig {
    /// The configuration of the TLS server.
    pub config: Arc<rustls::ServerConfig>,
}

impl SSLConfig {
    /// Builds the TLS context from the file of the server's certificates,
    /// the file of its private key and the files of the users'
    /// certificates, each as it was read.
    ///
    /// The chain of the server is every certificate of its file, in the
    /// order of the file; its key is the first private key of the key's
    /// file. Every certificate of every user's file becomes a trust anchor
    /// for the certificates of clients, and a client without a certificate
    /// is admitted too.
    ///
    /// A failure of one of these steps is returned as it is. Where all of
    /// them succeed the chain, the key and the anchors are handed to
    /// rustls, and the context is what rustls builds of them; where rustls
    /// builds none, the failure is `SSLError::ConfigError`. A context is
    /// built only with a key of a kind that rustls takes.
    pub fn new(server_cert: SourceFile, server_key: SourceFile, user_certs: Vec<SourceFile>) -> (r:
        Result<SSLConfig, SSLError>)
        ensures
            match r {
                Ok(ssl) => tls_inputs(server_cert@, server_key@, source_views(user_certs@))
                    matches Ok(parts) && signing_key_supported(parts.key) && config_chain(
                    *ssl.config,
                ) == parts.chain && config_anchors(*ssl.config) == parts.anchors
                    && config_admits_anonymous(*ssl.config),
                Err(e) => match tls_inputs(server_cert@, server_key@, source_views(user_certs@)) {
                    Err(failure) => e@ == failure,
                    Ok(_) => e@ == SslFailure::Config,
                },
            },
    {
        let SourceFile { path: cert_path, content: cert_content } = server_cert;
        let cert_text = match cert_content {
            Ok(text) => text,
            Err(err) => {
                return Err(SSLError::CertOpenError { path: cert_path, err });
            },
        };
        let server_certs = match read_certs(cert_text.as_slice()) {
            Ok(certs) => certs,
            Err(err) => {
                return Err(SSLError::CertParseError { path: cert_path, err });
            },
        };
        let SourceFile { path: key_path, content: key_content } = server_key;
        let key_text = match key_content {
            Ok(text) => text,
            Err(err) => {
                return Err(SSLError::KeyOpenError { path: key_path, err });
            },
        };
        let server_key = find_key(key_path.as_str(), key_text.as_slice())?;
        let user_roots = trust_users(user_certs)?;
        match build_config(user_roots, server_certs, server_key) {
            Ok(config) => Ok(SSLConfig { config }),
            Err(err) => Err(SSLError::ConfigError { err }),
        }
    }
}

} // verus!
