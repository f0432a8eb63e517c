//! Keys, certificates and TLS configurations out of PEM files.

use rustls::{ClientConfig, RootCertStore, ServerConfig};
use vstd::prelude::*;
use crate::text::texts;

verus! {

/// The port to forward to where none is given.
pub const DEFAULT_FORMARD_PORT: u16 = 8443;

/// The protocol that is negotiated on QUIC connections: `h3`.
pub const QUIC_ALPN: [u8; 2] = [104, 51];

/// How many TLS sessions a server remembers.
pub const SESSION_CACHE_SIZE: usize = 256;

/// Why a TLS configuration could not be made.
pub enum TlsError {
    /// The key file could not be opened, for this reason.
    OpenKey(String),
    /// A certificate file could not be opened, for this reason.
    OpenCert(String),
    /// The CA file could not be opened, for this reason.
    OpenCa(String),
    /// A file is no well-formed PEM.
    Pem(String),
    NoKeys,
    NoRoots,
    /// rustls refuses a certificate, the key or its random source.
    Rustls(String),
}

/// Why a TLS configuration could not be made, as mathematical values.
pub enum TlsErrorView {
    OpenKey(Seq<char>),
    OpenCert(Seq<char>),
    OpenCa(Seq<char>),
    Pem(Seq<char>),
    NoKeys,
    NoRoots,
    Rustls(Seq<char>),
}

impl TlsErrorView {
    /// What the error says.
    pub open spec fn text(self) -> Seq<char> {
        match self {
            TlsErrorView::OpenKey(_) => "cannot open private key file"@,
            TlsErrorView::OpenCert(_) => "cannot open certificate file"@,
            TlsErrorView::OpenCa(_) => "cannot open ca file"@,
            TlsErrorView::Pem(message) => message,
            TlsErrorView::NoKeys => "no keys found (encrypted keys not supported)"@,
            TlsErrorView::NoRoots => "cannot parse cert"@,
            TlsErrorView::Rustls(message) => message,
        }
    }

    /// The messages of the error, from the outside in.
    pub open spec fn messages(self) -> Seq<Seq<char>> {
        match self {
            TlsErrorView::OpenKey(cause) => seq![self.text(), cause],
            TlsErrorView::OpenCert(cause) => seq![self.text(), cause],
            TlsErrorView::OpenCa(cause) => seq![self.text(), cause],
            _ => seq![self.text()],
        }
    }
}

impl TlsError {
    /// The error as mathematical values.
    pub open spec fn view(&self) -> TlsErrorView {
        match self {
            TlsError::OpenKey(cause) => TlsErrorView::OpenKey(cause@),
            TlsError::OpenCert(cause) => TlsErrorView::OpenCert(cause@),
            TlsError::OpenCa(cause) => TlsErrorView::OpenCa(cause@),
            TlsError::Pem(message) => TlsErrorView::Pem(message@),
            TlsError::NoKeys => TlsErrorView::NoKeys,
            TlsError::NoRoots => TlsErrorView::NoRoots,
            TlsError::Rustls(message) => TlsErrorView::Rustls(message@),
        }
    }

    /// The messages of the error, from the outside in.
    pub fn messages(&self) -> (r: Vec<String>)
        ensures
            texts(r@) == self@.messages(),
    {
        let mut r: Vec<String> = Vec::new();
        r.push(self.message());
        match self {
            TlsError::OpenKey(cause) | TlsError::OpenCert(cause) | TlsError::OpenCa(cause) => {
                r.push(cause.clone());
            },
            TlsError::Pem(_) | TlsError::NoKeys | TlsError::NoRoots | TlsError::Rustls(_) => {},
        }
        assert(texts(r@) =~= self@.messages());
        r
    }

    /// What the error says.
    pub fn message(&self) -> (r: String)
        ensures
            r@ == self@.text(),
    {
        match self {
            TlsError::OpenKey(_) => "cannot open private key file".to_owned(),
            TlsError::OpenCert(_) => "cannot open certificate file".to_owned(),
            TlsError::OpenCa(_) => "cannot open ca file".to_owned(),
            TlsError::Pem(message) => message.clone(),
            TlsError::NoKeys => "no keys found (encrypted keys not supported)".to_owned(),
            TlsError::NoRoots => "cannot parse cert".to_owned(),
            TlsError::Rustls(message) => message.clone(),
        }
    }
}

/// What a section of a PEM file holds.
#[derive(Clone, Copy, PartialEq, Eq, Structural, Debug)]
pub enum PemKind {
    Certificate,
    RsaKey,
    Pkcs8Key,
    EcKey,
    Other,
}

impl PemKind {
    /// Whether the section holds a private key.
    pub open spec fn is_key(self) -> bool {
        self is RsaKey || self is Pkcs8Key || self is EcKey
    }
}

/// A section of a PEM file: what it holds, its content, and the bytes after it.
pub struct PemSection {
    pub kind: PemKind,
    pub der: Seq<u8>,
    pub rest: Seq<u8>,
}

/// The first section that `rustls_pemfile` knows in some bytes, or the message
/// of its error.
pub uninterp spec fn pem_section(bytes: Seq<u8>) -> Result<Option<PemSection>, Seq<char>>;

/// Calls `rustls_pemfile::read_one` on bytes: the next section and what follows
/// it, which is shorter than the whole, nothing where no section is left, or an
/// error. All depends on the bytes alone.
#[verifier::external_body]
fn pem_read_one(bytes: &[u8]) -> (r: Result<Option<(PemKind, Vec<u8>, &[u8])>, String>)
    ensures
        match r {
            Ok(Some(s)) => s.2@.len() < bytes@.len() && pem_section(bytes@) == Ok::<
                Option<PemSection>,
                Seq<char>,
            >(Some(PemSection { kind: s.0, der: s.1@, rest: s.2@ })),
            Ok(None) => pem_section(bytes@) == Ok::<Option<PemSection>, Seq<char>>(None),
            Err(message) => pem_section(bytes@) == Err::<Option<PemSection>, Seq<char>>(message@),
        },
{
    let mut rest = bytes;
    let item = rustls_pemfile::read_one(&mut rest).map_err(|e| e.to_string())?;
    Ok(item.map(|item| match item {
        rustls_pemfile::Item::X509Certificate(der) => (PemKind::Certificate, der, rest),
        rustls_pemfile::Item::RSAKey(der) => (PemKind::RsaKey, der, rest),
        rustls_pemfile::Item::PKCS8Key(der) => (PemKind::Pkcs8Key, der, rest),
        rustls_pemfile::Item::ECKey(der) => (PemKind::EcKey, der, rest),
        rustls_pemfile::Item::Crl(der) => (PemKind::Other, der, rest),
        _ => (PemKind::Other, Vec::new(), rest),
    }))
}

/// The contents of byte vectors.
pub open spec fn blobs(v: Seq<Vec<u8>>) -> Seq<Seq<u8>> {
    v.map_values(|b: Vec<u8>| b@)
}

/// The certificates among the sections of a PEM file, in order.
pub open spec fn certificates_in(bytes: Seq<u8>) -> Result<Seq<Seq<u8>>, Seq<char>>
    decreases bytes.len(),
{
    match pem_section(bytes) {
        Err(message) => Err(message),
        Ok(None) => Ok(Seq::empty()),
        Ok(Some(section)) => if section.rest.len() < bytes.len() {
            match certificates_in(section.rest) {
                Err(message) => Err(message),
                Ok(more) => if section.kind is Certificate {
                    Ok(seq![section.der] + more)
                } else {
                    Ok(more)
                },
            }
        } else {
            Ok(Seq::empty())
        },
    }
}

/// Calls `rustls_pemfile::certs` on bytes: the contents of the certificate
/// sections in order, or the first error that reading section after section
/// comes to.
#[verifier::external_body]
fn pem_certs(bytes: &[u8]) -> (r: Result<Vec<Vec<u8>>, String>)
    ensures
        match r {
            Ok(certs) => certificates_in(bytes@) == Ok::<Seq<Seq<u8>>, Seq<char>>(blobs(certs@)),
            Err(message) => certificates_in(bytes@) == Err::<Seq<Seq<u8>>, Seq<char>>(message@),
        },
{
    let mut rest = bytes;
    rustls_pemfile::certs(&mut rest).map_err(|e| e.to_string())
}

/// The first private key among the sections of a PEM file.
pub open spec fn first_key_in(bytes: Seq<u8>) -> Result<Seq<u8>, TlsErrorView>
    decreases bytes.len(),
{
    match pem_section(bytes) {
        Err(message) => Err(TlsErrorView::Pem(message)),
        Ok(None) => Err(TlsErrorView::NoKeys),
        Ok(Some(section)) => if section.kind.is_key() {
            Ok(section.der)
        } else if section.rest.len() < bytes.len() {
            first_key_in(section.rest)
        } else {
            Err(TlsErrorView::NoKeys)
        },
    }
}

/// The content of a file, or why it could not be opened.
pub type FileView = Result<Seq<u8>, Seq<char>>;

/// The private key that a key file holds.
pub open spec fn private_key_of(file: FileView) -> Result<Seq<u8>, TlsErrorView> {
    match file {
        Err(cause) => Err(TlsErrorView::OpenKey(cause)),
        Ok(bytes) => first_key_in(bytes),
    }
}

/// The certificates that a certificate file holds.
pub open spec fn certs_of(file: FileView) -> Result<Seq<Seq<u8>>, TlsErrorView> {
    match file {
        Err(cause) => Err(TlsErrorView::OpenCert(cause)),
        Ok(bytes) => match certificates_in(bytes) {
            Ok(certs) => Ok(certs),
            Err(message) => Err(TlsErrorView::Pem(message)),
        },
    }
}

/// The content of a file that may not have been opened.
pub open spec fn file_view(file: Result<&[u8], &str>) -> FileView {
    match file {
        Ok(bytes) => Ok(bytes@),
        Err(cause) => Err(cause@),
    }
}

/// The content of a file that may not have been opened.
pub open spec fn content(file: Result<Vec<u8>, String>) -> FileView {
    match file {
        Ok(bytes) => Ok(bytes@),
        Err(cause) => Err(cause@),
    }
}

/// The content of a file that may not have been opened, as a slice.
pub fn content_slice(file: &Result<Vec<u8>, String>) -> (r: Result<&[u8], &str>)
    ensures
        file_view(r) == content(*file),
{
    match file {
        Ok(bytes) => Ok(bytes.as_slice()),
        Err(cause) => Err(cause.as_str()),
    }
}

/// The first private key in a key file.
pub fn load_private_key(file: Result<&[u8], &str>) -> (r: Result<Vec<u8>, TlsError>)
    ensures
        match r {
            Ok(key) => private_key_of(file_view(file)) == Ok::<Seq<u8>, TlsErrorView>(key@),
            Err(e) => private_key_of(file_view(file)) == Err::<Seq<u8>, TlsErrorView>(e@),
        },
{
    let mut rest: &[u8] = match file {
        Ok(bytes) => bytes,
        Err(cause) => {
            return Err(TlsError::OpenKey(cause.to_owned()));
        },
    };
    let ghost bytes = rest@;
    loop
        invariant
            file_view(file) == Ok::<Seq<u8>, Seq<char>>(bytes),
            first_key_in(rest@) == first_key_in(bytes),
        decreases rest@.len(),
    {
        match pem_read_one(rest) {
            Err(message) => {
                return Err(TlsError::Pem(message));
            },
            Ok(None) => {
                return Err(TlsError::NoKeys);
            },
            Ok(Some(section)) => {
                match section.0 {
                    PemKind::RsaKey | PemKind::Pkcs8Key | PemKind::EcKey => {
                        return Ok(section.1);
                    },
                    PemKind::Certificate | PemKind::Other => {
                        rest = section.2;
                    },
                }
            },
        }
    }
}

/// The certificates in a certificate file.
pub fn load_certs(file: Result<&[u8], &str>) -> (r: Result<Vec<Vec<u8>>, TlsError>)
    ensures
        match r {
            Ok(certs) => certs_of(file_view(file)) == Ok::<Seq<Seq<u8>>, TlsErrorView>(
                blobs(certs@),
            ),
            Err(e) => certs_of(file_view(file)) == Err::<Seq<Seq<u8>>, TlsErrorView>(e@),
        },
{
    match file {
        Err(cause) => Err(TlsError::OpenCert(cause.to_owned())),
        Ok(bytes) => match pem_certs(bytes) {
            Ok(certs) => Ok(certs),
            Err(message) => Err(TlsError::Pem(message)),
        },
    }
}

#[verifier::external_type_specification]
#[verifier::external_body]
pub struct ExRootCertStore(RootCertStore);

#[verifier::external_type_specification]
#[verifier::external_body]
pub struct ExClientConfig(ClientConfig);

#[verifier::external_type_specification]
#[verifier::external_body]
pub struct ExServerConfig(ServerConfig);

/// Who a TLS peer can trust: a name, a key and constraints on names.
pub struct TrustAnchor {
    pub subject: Seq<u8>,
    pub spki: Seq<u8>,
    pub name_constraints: Option<Seq<u8>>,
}

/// The anchors that a store holds, in the order in which they came.
pub uninterp spec fn store_anchors(store: RootCertStore) -> Seq<TrustAnchor>;

/// The anchor that a certificate stands for, if rustls can read it.
pub uninterp spec fn trust_anchor(der: Seq<u8>) -> Option<TrustAnchor>;

/// The anchors of the certificates that can be read, in order.
pub open spec fn anchors_of(certs: Seq<Seq<u8>>) -> Seq<TrustAnchor>
    decreases certs.len(),
{
    if certs.len() == 0 {
        Seq::empty()
    } else {
        match trust_anchor(certs.last()) {
            Some(anchor) => anchors_of(certs.drop_last()).push(anchor),
            None => anchors_of(certs.drop_last()),
        }
    }
}

/// Every certificate can be read.
pub open spec fn all_readable(certs: Seq<Seq<u8>>) -> bool {
    forall|i: int| 0 <= i < certs.len() ==> trust_anchor(#[trigger] certs[i]) is Some
}

/// Calls `RootCertStore::empty`: a store without anchors.
#[verifier::external_body]
fn roots_empty() -> (r: RootCertStore)
    ensures
        store_anchors(r) == Seq::<TrustAnchor>::empty(),
{
    RootCertStore::empty()
}

/// Calls `RootCertStore::add_parsable_certificates`: adds the anchors of the
/// certificates that can be read, and counts those and the others.
#[verifier::external_body]
fn roots_add_parsable(store: &mut RootCertStore, certs: &Vec<Vec<u8>>) -> (r: (usize, usize))
    ensures
        store_anchors(*final(store)) == store_anchors(*old(store)) + anchors_of(blobs(certs@)),
        r.0 == anchors_of(blobs(certs@)).len(),
        r.0 + r.1 == certs@.len(),
{
    store.add_parsable_certificates(certs)
}

/// Calls `RootCertStore::add`: adds the anchor of a certificate, or refuses a
/// certificate that cannot be read with one and the same message.
#[verifier::external_body]
fn roots_add(store: &mut RootCertStore, cert: &Vec<u8>) -> (r: Result<(), String>)
    ensures
        match r {
            Ok(_) => trust_anchor(cert@) is Some && store_anchors(*final(store)) == store_anchors(
                *old(store),
            ).push(trust_anchor(cert@)->0),
            Err(message) => trust_anchor(cert@) is None && message@
                == "invalid peer certificate: BadEncoding"@ && store_anchors(*final(store))
                == store_anchors(*old(store)),
        },
{
    store.add(&rustls::Certificate(cert.clone())).map_err(|e| e.to_string())
}

/// The anchors of a store that held some, with the roots of `webpki_roots` added.
pub uninterp spec fn with_builtin_roots(anchors: Seq<TrustAnchor>) -> Seq<TrustAnchor>;

/// Calls `RootCertStore::add_trust_anchors` with the roots of `webpki_roots`: they
/// come behind the anchors that are there, and there are some. Which they are is a
/// matter of that crate alone.
#[verifier::external_body]
fn roots_add_builtin(store: &mut RootCertStore)
    ensures
        store_anchors(*final(store)) == with_builtin_roots(store_anchors(*old(store))),
        store_anchors(*old(store)).is_prefix_of(store_anchors(*final(store))),
        store_anchors(*old(store)).len() < store_anchors(*final(store)).len(),
{
    store.add_trust_anchors(webpki_roots::TLS_SERVER_ROOTS.0.iter().map(|ta| {
        rustls::OwnedTrustAnchor::from_subject_spki_name_constraints(
            ta.subject,
            ta.spki,
            ta.name_constraints,
        )
    }));
}

/// What a CA file gives a client to trust.
pub open spec fn roots_of(file: FileView) -> Result<Seq<TrustAnchor>, TlsErrorView> {
    match file {
        Err(cause) => Err(TlsErrorView::OpenCa(cause)),
        Ok(bytes) => match certificates_in(bytes) {
            Err(message) => Err(TlsErrorView::Pem(message)),
            Ok(certs) => if anchors_of(certs).len() == 0 {
                Err(TlsErrorView::NoRoots)
            } else {
                Ok(anchors_of(certs))
            },
        },
    }
}

/// Whom a client trusts: those that a CA file names, at least one, or where no
/// CA file is given the roots that come with the program.
pub fn build_client_root_store(cafile: Option<Result<&[u8], &str>>) -> (r: Result<
    RootCertStore,
    TlsError,
>)
    ensures
        match cafile {
            Some(file) => match r {
                Ok(store) => roots_of(file_view(file)) == Ok::<Seq<TrustAnchor>, TlsErrorView>(
                    store_anchors(store),
                ),
                Err(e) => roots_of(file_view(file)) == Err::<Seq<TrustAnchor>, TlsErrorView>(e@),
            },
            None => r matches Ok(store) && store_anchors(store) == with_builtin_roots(Seq::empty())
                && store_anchors(store).len() > 0,
        },
{
    let mut store = roots_empty();
    match cafile {
        Some(file) => {
            let bytes = match file {
                Ok(bytes) => bytes,
                Err(cause) => {
                    return Err(TlsError::OpenCa(cause.to_owned()));
                },
            };
            let certs = match pem_certs(bytes) {
                Ok(certs) => certs,
                Err(message) => {
                    return Err(TlsError::Pem(message));
                },
            };
            let (added, _skipped) = roots_add_parsable(&mut store, &certs);
            if added == 0 {
                return Err(TlsError::NoRoots);
            }
            assert(store_anchors(store) =~= anchors_of(blobs(certs@)));
        },
        None => {
            roots_add_builtin(&mut store);
        },
    }
    Ok(store)
}

/// What a client's TLS configuration was made of.
pub struct ClientTlsView {
    pub roots: Seq<TrustAnchor>,
    pub certs: Seq<Seq<u8>>,
    pub key: Seq<u8>,
}

/// A client's TLS configuration.
pub struct ClientTls {
    config: ClientConfig,
    made_of: Ghost<ClientTlsView>,
}

impl ClientTls {
    /// What it was made of.
    pub closed spec fn holds(&self) -> ClientTlsView {
        self.made_of@
    }

    /// The configuration itself.
    pub closed spec fn config(&self) -> ClientConfig {
        self.config
    }

    /// The configuration itself.
    pub fn get_config(&self) -> (r: &ClientConfig)
        ensures
            *r == self.config(),
    {
        &self.config
    }
}

/// The algorithms of the private keys that rustls takes.
#[derive(Clone, Copy, PartialEq, Eq, Structural, Debug)]
pub enum KeyKind {
    Rsa,
    Ecdsa,
    Ed25519,
}

/// What `rustls::sign::any_supported_type` takes some bytes for where random numbers
/// can be had: a private key of some algorithm, or nothing.
pub uninterp spec fn tls_key(der: Seq<u8>) -> Option<KeyKind>;

/// Whether rustls may refuse a key: it is none, or it is one of ECDSA, which takes
/// random numbers to be loaded.
pub open spec fn may_be_refused(key: Seq<u8>) -> bool {
    tls_key(key) is None || tls_key(key) == Some(KeyKind::Ecdsa)
}

/// What rustls says of a key that it refuses.
pub open spec fn key_refused() -> Seq<char> {
    "unexpected error: invalid private key"@
}

/// Calls `ClientConfig::builder` with the safe defaults, the roots and
/// `with_client_auth_cert`, and notes what the configuration was made of. It fails
/// on a key that rustls does not take, with one message. An RSA or Ed25519 key is
/// taken by its bytes alone. One of ECDSA is refused as well, with the same message,
/// where no random numbers can be had.
#[verifier::external_body]
fn client_config(store: RootCertStore, certs: Vec<Vec<u8>>, key: Vec<u8>) -> (r: Result<
    ClientTls,
    String,
>)
    ensures
        match r {
            Ok(tls) => tls_key(key@) is Some && tls.holds() == (ClientTlsView {
                roots: store_anchors(store),
                certs: blobs(certs@),
                key: key@,
            }),
            Err(message) => may_be_refused(key@) && message@ == key_refused(),
        },
{
    let ghost made_of = ClientTlsView { roots: store_anchors(store), certs: blobs(certs@), key: key@ };
    let certs = certs.into_iter().map(rustls::Certificate).collect();
    ClientConfig::builder()
        .with_safe_defaults()
        .with_root_certificates(store)
        .with_client_auth_cert(certs, rustls::PrivateKey(key))
        .map(|config| ClientTls { config, made_of: Ghost(made_of) })
        .map_err(|e| e.to_string())
}

/// What a server's TLS configuration was made of: its certificates, its key, whom
/// its clients must come under if they must show a certificate, whether it hands
/// out tickets, and how many sessions it remembers.
pub struct ServerTlsView {
    pub certs: Seq<Seq<u8>>,
    pub key: Seq<u8>,
    pub client_roots: Option<Seq<TrustAnchor>>,
    pub tickets: bool,
    pub session_cache: Option<usize>,
}

/// A server's TLS configuration.
pub struct ServerTls {
    config: ServerConfig,
    made_of: Ghost<ServerTlsView>,
}

impl ServerTls {
    /// What it was made of.
    pub closed spec fn holds(&self) -> ServerTlsView {
        self.made_of@
    }

    /// The configuration itself.
    pub closed spec fn config(&self) -> ServerConfig {
        self.config
    }

    /// The configuration itself.
    pub fn get_config(&self) -> (r: &ServerConfig)
        ensures
            *r == self.config(),
    {
        &self.config
    }
}

/// Calls `ServerConfig::builder` with the safe defaults, without client
/// authentication, and `with_single_cert`, and notes what the configuration was
/// made of. It takes and refuses keys as a client's configuration does.
#[verifier::external_body]
fn open_server_config(certs: Vec<Vec<u8>>, key: Vec<u8>) -> (r: Result<ServerTls, String>)
    ensures
        match r {
            Ok(tls) => tls_key(key@) is Some && tls.holds() == (ServerTlsView {
                certs: blobs(certs@),
                key: key@,
                client_roots: None,
                tickets: false,
                session_cache: None,
            }),
            Err(message) => may_be_refused(key@) && message@ == key_refused(),
        },
{
    let ghost made_of = ServerTlsView {
        certs: blobs(certs@), key: key@, client_roots: None, tickets: false, session_cache: None,
    };
    let certs = certs.into_iter().map(rustls::Certificate).collect();
    ServerConfig::builder()
        .with_safe_defaults()
        .with_no_client_auth()
        .with_single_cert(certs, rustls::PrivateKey(key))
        .map(|config| ServerTls { config, made_of: Ghost(made_of) })
        .map_err(|e| e.to_string())
}

/// Calls `ServerConfig::builder` with the safe defaults, a client verifier that
/// lets in only clients with a certificate under the given roots, and
/// `with_single_cert`, and notes what the configuration was made of. It takes and
/// refuses keys as a client's configuration does.
#[verifier::external_body]
fn closed_server_config(store: RootCertStore, certs: Vec<Vec<u8>>, key: Vec<u8>) -> (r: Result<
    ServerTls,
    String,
>)
    ensures
        match r {
            Ok(tls) => tls_key(key@) is Some && tls.holds() == (ServerTlsView {
                certs: blobs(certs@),
                key: key@,
                client_roots: Some(store_anchors(store)),
                tickets: false,
                session_cache: None,
            }),
            Err(message) => may_be_refused(key@) && message@ == key_refused(),
        },
{
    let ghost made_of = ServerTlsView {
        certs: blobs(certs@), key: key@, client_roots: Some(store_anchors(store)), tickets: false,
        session_cache: None,
    };
    let certs = certs.into_iter().map(rustls::Certificate).collect();
    let verifier = rustls::server::AllowAnyAuthenticatedClient::new(store).boxed();
    ServerConfig::builder()
        .with_safe_defaults()
        .with_client_cert_verifier(verifier)
        .with_single_cert(certs, rustls::PrivateKey(key))
        .map(|config| ServerTls { config, made_of: Ghost(made_of) })
        .map_err(|e| e.to_string())
}

/// What rustls says where it cannot make a ticketer: it finds no random numbers, or
/// the clock stands before 1970.
pub open spec fn no_ticketer(message: Seq<char>) -> bool {
    message == "failed to get random bytes"@ || message == "failed to get current time"@
}

/// Calls `rustls::Ticketer::new`, puts the ticketer into the configuration and notes
/// that. The call fails for want of random numbers or on a clock before 1970, with a
/// message for each; when that is so is not stated.
#[verifier::external_body]
fn use_tickets(tls: &mut ServerTls) -> (r: Result<(), String>)
    ensures
        match r {
            Ok(_) => final(tls).holds() == (ServerTlsView { tickets: true, ..old(tls).holds() }),
            Err(message) => final(tls).holds() == old(tls).holds() && no_ticketer(message@),
        },
{
    tls.config.ticketer = rustls::Ticketer::new().map_err(|e| e.to_string())?;
    tls.made_of = Ghost(ServerTlsView { tickets: true, ..tls.made_of@ });
    Ok(())
}

/// Calls `ServerSessionMemoryCache::new`, puts the cache into the configuration
/// and notes its size.
#[verifier::external_body]
fn use_session_cache(tls: &mut ServerTls, size: usize)
    ensures
        final(tls).holds() == (ServerTlsView { session_cache: Some(size), ..old(tls).holds() }),
{
    tls.config.session_storage = rustls::server::ServerSessionMemoryCache::new(size);
    tls.made_of = Ghost(ServerTlsView { session_cache: Some(size), ..tls.made_of@ });
}

/// The error that the files of a client give, if any, in the order in which they
/// are read: the CA, the certificate, the key.
pub open spec fn client_files_error(
    cacert: Option<FileView>,
    cert: FileView,
    key: FileView,
) -> Option<TlsErrorView> {
    if cacert is Some && roots_of(cacert->0) is Err {
        Some(roots_of(cacert->0)->Err_0)
    } else if certs_of(cert) is Err {
        Some(certs_of(cert)->Err_0)
    } else if private_key_of(key) is Err {
        Some(private_key_of(key)->Err_0)
    } else {
        None
    }
}

/// A TLS configuration is made of what the files of a client hold.
pub open spec fn client_tls_fits(
    cacert: Option<FileView>,
    cert: FileView,
    key: FileView,
    tls: ClientTlsView,
) -> bool {
    &&& client_files_error(cacert, cert, key) is None
    &&& match cacert {
        Some(file) => roots_of(file) == Ok::<Seq<TrustAnchor>, TlsErrorView>(tls.roots),
        None => tls.roots == with_builtin_roots(Seq::empty()),
    }
    &&& tls.roots.len() > 0
    &&& certs_of(cert) == Ok::<Seq<Seq<u8>>, TlsErrorView>(tls.certs)
    &&& private_key_of(key) == Ok::<Seq<u8>, TlsErrorView>(tls.key)
    &&& tls_key(tls.key) is Some
}

/// The key in a file may be refused by rustls.
pub open spec fn key_may_be_refused(key: FileView) -> bool {
    private_key_of(key) matches Ok(key) && may_be_refused(key)
}

/// The content of a file that may not be given or may not have been opened.
pub open spec fn given_view(file: Option<Result<&[u8], &str>>) -> Option<FileView> {
    match file {
        Some(file) => Some(file_view(file)),
        None => None,
    }
}

/// The TLS configuration of a client, with its roots, its certificate and its
/// key. The files are tried in this order, and then rustls may refuse the key, but
/// not one of RSA or Ed25519.
pub fn build_tls_client_config(
    cacert: Option<Result<&[u8], &str>>,
    client_cert: Result<&[u8], &str>,
    client_key: Result<&[u8], &str>,
) -> (r: Result<ClientTls, TlsError>)
    ensures
        match client_files_error(given_view(cacert), file_view(client_cert), file_view(client_key)) {
            Some(error) => r matches Err(e) && e@ == error,
            None => match r {
                Ok(tls) => client_tls_fits(
                    given_view(cacert),
                    file_view(client_cert),
                    file_view(client_key),
                    tls.holds(),
                ),
                Err(e) => e@ == TlsErrorView::Rustls(key_refused()) && key_may_be_refused(
                    file_view(client_key),
                ),
            },
        },
{
    let store = match build_client_root_store(cacert) {
        Ok(store) => store,
        Err(e) => {
            return Err(e);
        },
    };
    let certs = match load_certs(client_cert) {
        Ok(certs) => certs,
        Err(e) => {
            return Err(e);
        },
    };
    let key = match load_private_key(client_key) {
        Ok(key) => key,
        Err(e) => {
            return Err(e);
        },
    };
    match client_config(store, certs, key) {
        Ok(tls) => Ok(tls),
        Err(message) => Err(TlsError::Rustls(message)),
    }
}

/// The roots that certificates give, or the message where one cannot be read.
fn roots_from(certs: &Vec<Vec<u8>>) -> (r: Result<RootCertStore, String>)
    ensures
        match r {
            Ok(store) => all_readable(blobs(certs@)) && store_anchors(store) == anchors_of(
                blobs(certs@),
            ),
            Err(message) => !all_readable(blobs(certs@)) && message@
                == "invalid peer certificate: BadEncoding"@,
        },
{
    let mut store = roots_empty();
    let mut i: usize = 0;
    assert(blobs(certs@).take(0) =~= Seq::empty());
    while i < certs.len()
        invariant
            i <= certs@.len(),
            store_anchors(store) == anchors_of(blobs(certs@).take(i as int)),
            forall|j: int| 0 <= j < i ==> trust_anchor(#[trigger] blobs(certs@)[j]) is Some,
        decreases certs@.len() - i,
    {
        assert(blobs(certs@)[i as int] == certs@[i as int]@);
        if let Err(message) = roots_add(&mut store, &certs[i]) {
            return Err(message);
        }
        assert(blobs(certs@).take(i + 1).drop_last() =~= blobs(certs@).take(i as int));
        assert(blobs(certs@).take(i + 1).last() == certs@[i as int]@);
        i = i + 1;
    }
    assert(blobs(certs@).take(i as int) =~= blobs(certs@));
    Ok(store)
}

/// The error that the files of a server give, if any, in the order in which they
/// are read: the certificate, the key, the certificates of its clients.
pub open spec fn server_files_error(
    cert: FileView,
    key: FileView,
    client_ca: Option<FileView>,
) -> Option<TlsErrorView> {
    if certs_of(cert) is Err {
        Some(certs_of(cert)->Err_0)
    } else if private_key_of(key) is Err {
        Some(private_key_of(key)->Err_0)
    } else if client_ca is Some && certs_of(client_ca->0) is Err {
        Some(certs_of(client_ca->0)->Err_0)
    } else if client_ca is Some && !all_readable(certs_of(client_ca->0)->Ok_0) {
        Some(TlsErrorView::Rustls("invalid peer certificate: BadEncoding"@))
    } else {
        None
    }
}

/// A TLS configuration is made of what the files of a server hold: where
/// certificates of its clients are given, only clients under these are let in. It
/// hands out tickets and remembers sessions.
pub open spec fn server_tls_fits(
    cert: FileView,
    key: FileView,
    client_ca: Option<FileView>,
    tls: ServerTlsView,
) -> bool {
    &&& certs_of(cert) == Ok::<Seq<Seq<u8>>, TlsErrorView>(tls.certs)
    &&& private_key_of(key) == Ok::<Seq<u8>, TlsErrorView>(tls.key)
    &&& tls_key(tls.key) is Some
    &&& match client_ca {
        Some(file) => certs_of(file) matches Ok(certs) && all_readable(certs) && tls.client_roots
            == Some(anchors_of(certs)),
        None => tls.client_roots is None,
    }
    &&& tls.tickets
    &&& tls.session_cache == Some(SESSION_CACHE_SIZE)
}

/// A TLS configuration once tickets were asked for: with them it remembers sessions,
/// and without them there is none.
pub fn with_tickets(tls: ServerTls, ticketer: Result<(), String>) -> (r: Result<
    ServerTls,
    TlsError,
>)
    ensures
        match ticketer {
            Ok(_) => r matches Ok(done) && done.holds() == (ServerTlsView {
                session_cache: Some(SESSION_CACHE_SIZE),
                ..tls.holds()
            }),
            Err(message) => r == Err::<ServerTls, TlsError>(TlsError::Rustls(message)),
        },
{
    let mut tls = tls;
    if let Err(message) = ticketer {
        return Err(TlsError::Rustls(message));
    }
    use_session_cache(&mut tls, SESSION_CACHE_SIZE);
    Ok(tls)
}

/// What rustls may say against files that are in order: it refuses the key, or it
/// can make no ticketer.
pub open spec fn server_refused(key: FileView, message: Seq<char>) -> bool {
    ||| message == key_refused() && key_may_be_refused(key)
    ||| private_key_of(key) matches Ok(key) && tls_key(key) is Some && no_ticketer(message)
}

/// The TLS configuration of a server, with its certificate, its key and the
/// certificates that its clients must come under, if such are given. The files
/// are tried in this order, and then rustls may refuse the key, but not one of RSA or
/// Ed25519, or be unable to make a ticketer.
pub fn build_tls_server_config(
    certs: Result<&[u8], &str>,
    key: Result<&[u8], &str>,
    client_ca: Option<Result<&[u8], &str>>,
) -> (r: Result<ServerTls, TlsError>)
    ensures
        match server_files_error(file_view(certs), file_view(key), given_view(client_ca)) {
            Some(error) => r matches Err(e) && e@ == error,
            None => match r {
                Ok(tls) => server_tls_fits(
                    file_view(certs),
                    file_view(key),
                    given_view(client_ca),
                    tls.holds(),
                ),
                Err(e) => e@ matches TlsErrorView::Rustls(message) && server_refused(
                    file_view(key),
                    message,
                ),
            },
        },
{
    let certs = match load_certs(certs) {
        Ok(certs) => certs,
        Err(e) => {
            return Err(e);
        },
    };
    let key = match load_private_key(key) {
        Ok(key) => key,
        Err(e) => {
            return Err(e);
        },
    };
    let tls = match client_ca {
        Some(file) => {
            let client_certs = match load_certs(file) {
                Ok(client_certs) => client_certs,
                Err(e) => {
                    return Err(e);
                },
            };
            match roots_from(&client_certs) {
                Ok(store) => closed_server_config(store, certs, key),
                Err(message) => {
                    return Err(TlsError::Rustls(message));
                },
            }
        },
        None => open_server_config(certs, key),
    };
    let mut tls = match tls {
        Ok(tls) => tls,
        Err(message) => {
            return Err(TlsError::Rustls(message));
        },
    };
    let ticketer = use_tickets(&mut tls);
    with_tickets(tls, ticketer)
}

/// rustls does not refuse a key of RSA or Ed25519. What is left to fail for a server
/// whose files are in order is the ticketer, and for a client nothing.
pub proof fn law_good_key_is_taken(key: FileView, der: Seq<u8>)
    requires
        private_key_of(key) == Ok::<Seq<u8>, TlsErrorView>(der),
        tls_key(der) == Some(KeyKind::Rsa) || tls_key(der) == Some(KeyKind::Ed25519),
    ensures
        !key_may_be_refused(key),
        forall|message: Seq<char>| #[trigger] server_refused(key, message) ==> no_ticketer(message),
{
}

/// The key of a file is that of its first section that holds one, of whatever kind, and what
/// stands before or after plays no part. A file that could not be opened, bytes that are no
/// PEM and a file without a key are complained of as such.
pub proof fn law_first_key_counts(
    file: Result<&[u8], &str>,
    r: Result<Vec<u8>, TlsError>,
    section: PemSection,
    rest: &[u8],
    s: Result<Vec<u8>, TlsError>,
    key: Vec<u8>,
)
    requires
        call_ensures(load_private_key, (file,), r),
        call_ensures(load_private_key, (Ok::<&[u8], &str>(rest),), s),
        rest@ == section.rest,
    ensures
        file matches Err(cause) ==> (r matches Err(TlsError::OpenKey(said)) && said@ == cause@),
        file matches Ok(bytes) ==> (pem_section(bytes@) matches Err(message) ==> (r matches Err(
            TlsError::Pem(said),
        ) && said@ == message)),
        file matches Ok(bytes) ==> (pem_section(bytes@) == Ok::<Option<PemSection>, Seq<char>>(None)
            ==> (r matches Err(e) && e is NoKeys)),
        file matches Ok(bytes) ==> (pem_section(bytes@) == Ok::<Option<PemSection>, Seq<char>>(
            Some(section),
        ) && (section.kind is RsaKey || section.kind is Pkcs8Key || section.kind is EcKey) ==> (r
            matches Ok(found) && found@ == section.der)),
        file matches Ok(bytes) ==> (pem_section(bytes@) == Ok::<Option<PemSection>, Seq<char>>(
            Some(section),
        ) && (section.kind is Certificate || section.kind is Other) && section.rest.len()
            < bytes@.len() ==> {
            &&& r is Ok <==> s is Ok
            &&& s == Ok::<Vec<u8>, TlsError>(key) ==> (r matches Ok(found) && found@ == key@)
        }),
{
}

/// The certificates of a file are those of its sections that hold one, in their order: a
/// section that holds one puts it before those of the rest, and any other section makes no
/// difference.
pub proof fn law_certificates_section_by_section(
    file: Result<&[u8], &str>,
    certs: Vec<Vec<u8>>,
    section: PemSection,
    rest: &[u8],
    more: Vec<Vec<u8>>,
    i: int,
)
    requires
        call_ensures(load_certs, (file,), Ok::<Vec<Vec<u8>>, TlsError>(certs)),
        call_ensures(
            load_certs,
            (Ok::<&[u8], &str>(rest),),
            Ok::<Vec<Vec<u8>>, TlsError>(more),
        ),
        rest@ == section.rest,
        0 <= i < more@.len(),
    ensures
        file matches Ok(bytes) && (pem_section(bytes@) == Ok::<Option<PemSection>, Seq<char>>(
            Some(section),
        ) && section.rest.len() < bytes@.len() ==> (if section.kind is Certificate {
            certs@.len() == more@.len() + 1 && certs@[0]@ == section.der && certs@[i + 1]@
                == more@[i]@
        } else {
            certs@.len() == more@.len() && certs@[i]@ == more@[i]@
        })),
{
    let all = blobs(certs@);
    let few = blobs(more@);
    assert(all.len() == certs@.len() && few.len() == more@.len());
    assert(few[i] == more@[i]@);
    if let Ok(bytes) = file {
        if pem_section(bytes@) == Ok::<Option<PemSection>, Seq<char>>(Some(section))
            && section.rest.len() < bytes@.len() {
            if section.kind is Certificate {
                assert(all == seq![section.der] + few);
                assert(all[0] == certs@[0]@);
                assert(all[i + 1] == certs@[i + 1]@);
            } else {
                assert(all == few);
                assert(all[i] == certs@[i]@);
            }
        }
    }
}

/// The TLS configuration of a client is made of its own files, each in its place: it shows the
/// certificates of the certificate file, signs with the key of the key file, and trusts those
/// that the CA file names, or the roots of the program where there is no CA file.
pub proof fn law_client_tls_is_made_of_its_files(
    cacert: Option<Result<&[u8], &str>>,
    client_cert: Result<&[u8], &str>,
    client_key: Result<&[u8], &str>,
    r: Result<ClientTls, TlsError>,
    store: Result<RootCertStore, TlsError>,
    certs: Result<Vec<Vec<u8>>, TlsError>,
    key: Result<Vec<u8>, TlsError>,
    i: int,
)
    requires
        call_ensures(build_tls_client_config, (cacert, client_cert, client_key), r),
        call_ensures(build_client_root_store, (cacert,), store),
        call_ensures(load_certs, (client_cert,), certs),
        call_ensures(load_private_key, (client_key,), key),
    ensures
        r matches Ok(tls) ==> {
            &&& store matches Ok(roots) && tls.holds().roots == store_anchors(roots)
            &&& certs matches Ok(shown) && tls.holds().certs.len() == shown@.len() && (0 <= i
                < shown@.len() ==> tls.holds().certs[i] == shown@[i]@)
            &&& key matches Ok(der) && tls.holds().key == der@
            &&& tls.holds().roots.len() > 0
        },
        store is Err || certs is Err || key is Err ==> r is Err,
        store matches Err(error) ==> (r matches Err(e) && e@ == error@),
        store is Ok ==> (certs matches Err(error) ==> (r matches Err(e) && e@ == error@)),
        store is Ok && certs is Ok ==> (key matches Err(error) ==> (r matches Err(e) && e@
            == error@)),
        store is Ok && certs is Ok ==> (key matches Ok(der) ==> (tls_key(der@) == Some(KeyKind::Rsa)
            || tls_key(der@) == Some(KeyKind::Ed25519) ==> r is Ok)),
{
    if let Ok(shown) = certs {
        if 0 <= i < shown@.len() {
            assert(blobs(shown@)[i] == shown@[i]@);
        }
    }
}

/// A client trusts those of the certificates in its CA file that can be read, in their order,
/// and no one else. Where none can be read it trusts no one, which is an error.
pub proof fn law_whom_a_client_trusts(
    file: Result<&[u8], &str>,
    r: Result<RootCertStore, TlsError>,
    certs: Vec<Vec<u8>>,
    i: int,
)
    requires
        call_ensures(build_client_root_store, (Some(file),), r),
        call_ensures(load_certs, (file,), Ok::<Vec<Vec<u8>>, TlsError>(certs)),
        forall|j: int|
            0 <= j < certs@.len() ==> trust_anchor((#[trigger] certs@[j])@) is Some,
    ensures
        certs@.len() == 0 ==> (r matches Err(e) && e is NoRoots),
        certs@.len() > 0 ==> (r matches Ok(store) && store_anchors(store).len() == certs@.len() && (
        0 <= i < certs@.len() ==> Some(store_anchors(store)[i]) == trust_anchor(certs@[i]@))),
{
    let all = blobs(certs@);
    assert(all.len() == certs@.len());
    assert forall|j: int| 0 <= j < all.len() implies trust_anchor(#[trigger] all[j]) is Some by {
        assert(all[j] == certs@[j]@);
    }
    lemma_all_anchors(all);
    if 0 <= i < certs@.len() {
        assert(all[i] == certs@[i]@);
    }
}

proof fn lemma_all_anchors(certs: Seq<Seq<u8>>)
    requires
        all_readable(certs),
    ensures
        anchors_of(certs).len() == certs.len(),
        forall|i: int|
            0 <= i < certs.len() ==> Some(#[trigger] anchors_of(certs)[i]) == trust_anchor(
                certs[i],
            ),
    decreases certs.len(),
{
    if certs.len() > 0 {
        let front = certs.drop_last();
        assert forall|i: int| 0 <= i < front.len() implies trust_anchor(#[trigger] front[i])
            is Some by {
            assert(front[i] == certs[i]);
        }
        lemma_all_anchors(front);
        assert(trust_anchor(certs[certs.len() - 1]) is Some);
        assert forall|i: int| 0 <= i < certs.len() implies Some(#[trigger] anchors_of(certs)[i])
            == trust_anchor(certs[i]) by {
            if i < front.len() {
                assert(front[i] == certs[i]);
                assert(anchors_of(certs)[i] == anchors_of(front)[i]);
            }
        }
    }
}

/// The TLS configuration of a server is made of its own files, each in its place. Clients must
/// come under every one of the certificates in the file for them, where there is such a file,
/// and anyone is let in exactly where there is none. It hands out tickets and remembers 256
/// sessions.
pub proof fn law_server_tls_is_made_of_its_files(
    cert: Result<&[u8], &str>,
    key: Result<&[u8], &str>,
    client_ca: Option<Result<&[u8], &str>>,
    r: Result<ServerTls, TlsError>,
    certs: Result<Vec<Vec<u8>>, TlsError>,
    der: Result<Vec<u8>, TlsError>,
    clients: Vec<Vec<u8>>,
    i: int,
)
    requires
        call_ensures(build_tls_server_config, (cert, key, client_ca), r),
        call_ensures(load_certs, (cert,), certs),
        call_ensures(load_private_key, (key,), der),
        client_ca matches Some(file) ==> call_ensures(
            load_certs,
            (file,),
            Ok::<Vec<Vec<u8>>, TlsError>(clients),
        ),
    ensures
        r matches Ok(tls) ==> {
            &&& certs matches Ok(shown) && tls.holds().certs.len() == shown@.len() && (0 <= i
                < shown@.len() ==> tls.holds().certs[i] == shown@[i]@)
            &&& der matches Ok(found) && tls.holds().key == found@
            &&& tls.holds().client_roots is Some <==> client_ca is Some
            &&& tls.holds().client_roots matches Some(roots) ==> roots.len() == clients@.len() && (0
                <= i < clients@.len() ==> Some(roots[i]) == trust_anchor(clients@[i]@))
            &&& tls.holds().tickets
            &&& tls.holds().session_cache == Some(256usize)
        },
        certs matches Err(error) ==> (r matches Err(e) && e@ == error@),
        certs is Ok ==> (der matches Err(error) ==> (r matches Err(e) && e@ == error@)),
        client_ca is Some && 0 <= i < clients@.len() && trust_anchor(clients@[i]@) is None ==> r
            is Err,
{
    if let Ok(shown) = certs {
        if 0 <= i < shown@.len() {
            assert(blobs(shown@)[i] == shown@[i]@);
        }
    }
    if client_ca is Some {
        let all = blobs(clients@);
        assert(all.len() == clients@.len());
        if 0 <= i < clients@.len() {
            assert(all[i] == clients@[i]@);
        }
        if all_readable(all) {
            lemma_all_anchors(all);
        }
    }
}

/// The messages of an error begin with what the error says, and the reason why a file could not
/// be opened comes second.
pub proof fn law_messages_of_a_tls_error(
    error: TlsError,
    list: Vec<String>,
    said: String,
    cause: String,
)
    requires
        call_ensures(TlsError::messages, (&error,), list),
        call_ensures(TlsError::message, (&error,), said),
    ensures
        list@.len() > 0,
        list@[0]@ == said@,
        error == TlsError::OpenKey(cause) || error == TlsError::OpenCert(cause) || error
            == TlsError::OpenCa(cause) ==> list@.len() == 2 && list@[1]@ == cause@,
        error == TlsError::Pem(cause) || error == TlsError::Rustls(cause) ==> list@.len() == 1
            && said@ == cause@,
{
    let all = texts(list@);
    assert(all.len() == list@.len());
    assert(all == error@.messages());
    assert(all[0] == list@[0]@);
    if list@.len() == 2 {
        assert(all[1] == list@[1]@);
    }
}

/// A server that has its tickets remembers sessions besides, and is else as it was. Without
/// tickets there is no configuration, and the reason is handed on.
pub proof fn law_tickets_or_nothing(
    tls: ServerTls,
    ticketer: Result<(), String>,
    r: Result<ServerTls, TlsError>,
)
    requires
        call_ensures(with_tickets, (tls, ticketer), r),
    ensures
        r is Ok <==> ticketer is Ok,
        r matches Ok(done) ==> {
            &&& done.holds().session_cache == Some(256usize)
            &&& done.holds().tickets == tls.holds().tickets
            &&& done.holds().certs == tls.holds().certs
            &&& done.holds().key == tls.holds().key
            &&& done.holds().client_roots == tls.holds().client_roots
        },
        ticketer matches Err(message) ==> (r matches Err(TlsError::Rustls(said)) && said@
            == message@),
{
}

/// Hands out no TLS tickets and takes none.
pub struct NeverProducesTickets {}

impl rustls::server::ProducesTickets for NeverProducesTickets {
    fn enabled(&self) -> (r: bool)
        ensures
            !r,
    {
        false
    }

    fn lifetime(&self) -> (r: u32)
        ensures
            r == 0,
    {
        0
    }

    fn encrypt(&self, _bytes: &[u8]) -> (r: Option<Vec<u8>>)
        ensures
            r is None,
    {
        None
    }

    fn decrypt(&self, _bytes: &[u8]) -> (r: Option<Vec<u8>>)
        ensures
            r is None,
    {
        None
    }
}

} // verus!
