//! The client side of the encrypted link to the post-processing server: who the server has
//! to be, and who this client is.

use vstd::prelude::*;

verus! {

/// `rustls::Error`, an error of the TLS library, carried as it comes.
#[verifier::external_type_specification]
#[verifier::external_body]
pub struct ExTlsLibraryError(rustls::Error);

/// `rustls::RootCertStore`, a collection of trust anchors.
#[verifier::external_type_specification]
#[verifier::external_body]
pub struct ExRootCertStore(rustls::RootCertStore);

/// `tokio_rustls::TlsConnector`, which opens TLS connections with a fixed configuration.
#[verifier::external_type_specification]
#[verifier::external_body]
pub struct ExTlsConnector(tokio_rustls::TlsConnector);

/// What a trust anchor says: a subject, its public key, and the names that it may vouch for
/// if they are constrained, each as DER bytes.
pub type Anchor = (Seq<u8>, Seq<u8>, Option<Seq<u8>>);

/// How the DER bytes of a private key are laid out.
#[derive(Debug, Clone, Copy, PartialEq, Eq)]
pub enum KeyFormat {
    Pkcs1,
    Sec1,
    Pkcs8,
}

/// A private key.
#[derive(Debug, PartialEq, Eq)]
pub struct PrivateKey {
    pub format: KeyFormat,
    pub der: Vec<u8>,
}

impl View for PrivateKey {
    type V = (KeyFormat, Seq<u8>);

    open spec fn view(&self) -> (KeyFormat, Seq<u8>) {
        (self.format, self.der@)
    }
}

/// The certificates of a PEM text in their order, as DER bytes, and `None` for each section
/// that cannot be read.
pub uninterp spec fn pem_certificates(pem: Seq<u8>) -> Seq<Option<Seq<u8>>>;

/// The first private key of a PEM text, if it has one; an error if a section before it
/// cannot be read.
pub uninterp spec fn pem_private_key(pem: Seq<u8>) -> Result<Option<(KeyFormat, Seq<u8>)>, ()>;

/// The trust anchor that a certificate makes, unless it cannot be parsed.
pub uninterp spec fn trust_anchor(der: Seq<u8>) -> Option<Anchor>;

/// The trust anchors of a store, in the order in which they came.
pub uninterp spec fn anchors_of(store: rustls::RootCertStore) -> Seq<Anchor>;

/// Whether a private key can be loaded and its public key is that of a certificate.
pub uninterp spec fn key_fits(certificate: Seq<u8>, key: (KeyFormat, Seq<u8>)) -> bool;

/// What a connector was made from: the trust anchors for servers, and the certificates and
/// the key by which the client shows who it is.
pub uninterp spec fn setup_of(connector: tokio_rustls::TlsConnector) -> (
    Seq<Anchor>,
    Seq<Seq<u8>>,
    (KeyFormat, Seq<u8>),
);

/// The byte strings that are there, by their views.
pub open spec fn sections(items: Seq<Option<Vec<u8>>>) -> Seq<Option<Seq<u8>>> {
    items.map_values(
        |item: Option<Vec<u8>>|
            match item {
                Some(bytes) => Some(bytes@),
                None => None,
            },
    )
}

/// Byte strings by their views.
pub open spec fn contents(items: Seq<Vec<u8>>) -> Seq<Seq<u8>> {
    items.map_values(|item: Vec<u8>| item@)
}

/// Calls `rustls_pemfile::certs` on bytes in memory. The contract names what it yields, one
/// item for each certificate and for each section that it could not read; the reasons are
/// dropped.
#[verifier::external_body]
fn read_pem_certificates(pem: &[u8]) -> (items: Vec<Option<Vec<u8>>>)
    ensures
        sections(items@) == pem_certificates(pem@),
{
    let mut reader = pem;
    rustls_pemfile::certs(&mut reader).map(|item| item.ok().map(|der| der.to_vec())).collect()
}

/// Calls `rustls_pemfile::private_key` on bytes in memory. The contract names what it returns:
/// the format and the bytes of the first key, nothing, or an error, of which only is said that
/// it comes.
#[verifier::external_body]
fn read_pem_private_key(pem: &[u8]) -> (key: Result<Option<PrivateKey>, std::io::Error>)
    ensures
        key_read(key) == pem_private_key(pem@),
{
    let mut reader = pem;
    let key = rustls_pemfile::private_key(&mut reader)?;
    Ok(key.map(|key| {
        let format = match &key {
            rustls::pki_types::PrivateKeyDer::Pkcs1(_) => KeyFormat::Pkcs1,
            rustls::pki_types::PrivateKeyDer::Sec1(_) => KeyFormat::Sec1,
            _ => KeyFormat::Pkcs8,
        };
        PrivateKey { format, der: key.secret_der().to_vec() }
    }))
}

/// `rustls::RootCertStore::empty`: the new store holds nothing.
pub assume_specification[ rustls::RootCertStore::empty ]() -> (store: rustls::RootCertStore)
    ensures
        anchors_of(store) == Seq::<Anchor>::empty(),
;

/// Calls `rustls::RootCertStore::add`. The contract claims that the anchor that the certificate
/// makes goes behind the others, and that a certificate that makes none gives an error and
/// leaves the store as it was.
#[verifier::external_body]
fn add_root(store: &mut rustls::RootCertStore, der: Vec<u8>) -> (added: Result<(), rustls::Error>)
    ensures
        match trust_anchor(der@) {
            Some(anchor) => added is Ok && anchors_of(*final(store)) == anchors_of(
                *old(store),
            ).push(anchor),
            None => added is Err && anchors_of(*final(store)) == anchors_of(*old(store)),
        },
{
    store.add(rustls::pki_types::CertificateDer::from(der))
}

/// The object identifier of elliptic-curve keys (id-ecPublicKey) stands at this place.
pub open spec fn names_elliptic_curve_at(der: Seq<u8>, at: int) -> bool {
    &&& 0 <= at
    &&& at + 7 <= der.len()
    &&& der.subrange(at, at + 7) == seq![0x2au8, 0x86, 0x48, 0xce, 0x3d, 0x02, 0x01]
}

/// A key that needs no random numbers to be loaded, as its format or its bytes show: it is not
/// for ECDSA.
pub open spec fn loads_surely(key: (KeyFormat, Seq<u8>)) -> bool {
    match key.0 {
        KeyFormat::Pkcs1 => true,
        KeyFormat::Sec1 => false,
        KeyFormat::Pkcs8 => forall|at: int| !names_elliptic_curve_at(key.1, at),
    }
}

/// Calls the builder of `rustls::ClientConfig`, with the provider of ring and the default
/// versions, and makes a `tokio_rustls::TlsConnector` of the configuration. The contract claims
/// that a connector was made from what is given, that there is one only for a key that fits
/// the first certificate, and that there is one for each such key that is not for ECDSA: a key
/// in the format PKCS #1, which is for RSA, or one in the format PKCS #8 that nowhere holds the
/// identifier without which none is loaded as an ECDSA key. It does not say that there is one
/// for every ECDSA key that fits: loading it draws random numbers, and fails where there are
/// none.
#[verifier::external_body]
fn connector_for(store: rustls::RootCertStore, chain: Vec<Vec<u8>>, key: PrivateKey) -> (connector:
    Result<tokio_rustls::TlsConnector, rustls::Error>)
    ensures
        connector matches Ok(connector) ==> setup_of(connector) == (
            anchors_of(store),
            contents(chain@),
            key@,
        ),
        connector is Ok ==> chain@.len() > 0 && key_fits(chain@[0]@, key@),
        chain@.len() > 0 && key_fits(chain@[0]@, key@) && loads_surely(key@) ==> connector is Ok,
{
    let provider = std::sync::Arc::new(rustls::crypto::ring::default_provider());
    let key: rustls::pki_types::PrivateKeyDer<'static> = match key.format {
        KeyFormat::Pkcs1 => rustls::pki_types::PrivatePkcs1KeyDer::from(key.der).into(),
        KeyFormat::Sec1 => rustls::pki_types::PrivateSec1KeyDer::from(key.der).into(),
        KeyFormat::Pkcs8 => rustls::pki_types::PrivatePkcs8KeyDer::from(key.der).into(),
    };
    let config = rustls::ClientConfig::builder_with_provider(provider)
        .with_safe_default_protocol_versions()?
        .with_root_certificates(store)
        .with_client_auth_cert(chain.into_iter().map(|der| der.into()).collect(), key)?;
    Ok(tokio_rustls::TlsConnector::from(std::sync::Arc::new(config)))
}

/// What keeps the client from having a connector.
#[derive(Debug)]
pub enum TlsError {
    /// A file cannot be read.
    File(std::io::Error),
    /// The client's certificates cannot be read.
    CertificatePem,
    /// The client's key cannot be read.
    KeyPem(std::io::Error),
    /// There is no key for the client.
    NoPrivateKey,
    /// The certificates of the authorities cannot be read.
    AuthorityPem,
    /// The certificate of an authority makes no trust anchor.
    Authority(rustls::Error),
    /// The client's certificates and key are refused.
    Identity(rustls::Error),
}

/// Every section could be read.
pub open spec fn all_read(items: Seq<Option<Seq<u8>>>) -> bool {
    forall|i: int| 0 <= i < items.len() ==> #[trigger] items[i] is Some
}

/// The sections, where all could be read.
pub open spec fn read_sections(items: Seq<Option<Seq<u8>>>) -> Seq<Seq<u8>> {
    items.map_values(|item: Option<Seq<u8>>| item->0)
}

/// The certificates if every section could be read.
pub fn all_certificates(items: Vec<Option<Vec<u8>>>) -> (certificates: Option<Vec<Vec<u8>>>)
    ensures
        match certificates {
            Some(certificates) => all_read(sections(items@)) && contents(certificates@)
                == read_sections(sections(items@)),
            None => !all_read(sections(items@)),
        },
{
    let ghost all = sections(items@);
    let mut certificates: Vec<Vec<u8>> = Vec::new();
    for item in it: items
        invariant
            sections(it.seq()) == all,
            all_read(all.take(it.index())),
            contents(certificates@) == read_sections(all.take(it.index())),
    {
        let ghost i = it.index();
        assert(all[i] == sections(it.seq())[i]);
        match item {
            Some(der) => {
                let ghost before = certificates@;
                certificates.push(der);
                assert(contents(certificates@) =~= contents(before).push(all[i]->0));
                assert(read_sections(all.take(i + 1)) =~= read_sections(all.take(i)).push(
                    all[i]->0,
                ));
            },
            None => {
                assert(all[i] is None);
                return None;
            },
        }
    }
    assert(all.take(all.len() as int) =~= all);
    Some(certificates)
}

/// Every certificate makes a trust anchor.
pub open spec fn all_trusted(ders: Seq<Seq<u8>>) -> bool {
    forall|i: int| 0 <= i < ders.len() ==> trust_anchor(#[trigger] ders[i]) is Some
}

/// The trust anchors that certificates make.
pub open spec fn anchors_from(ders: Seq<Seq<u8>>) -> Seq<Anchor> {
    ders.map_values(|der: Seq<u8>| trust_anchor(der)->0)
}

/// A store with the trust anchors that these certificates make, unless one makes none.
pub fn root_store(ders: Vec<Vec<u8>>) -> (store: Result<rustls::RootCertStore, rustls::Error>)
    ensures
        match store {
            Ok(store) => all_trusted(contents(ders@)) && anchors_of(store) == anchors_from(
                contents(ders@),
            ),
            Err(_) => !all_trusted(contents(ders@)),
        },
{
    let ghost all = contents(ders@);
    let mut store = rustls::RootCertStore::empty();
    assert(anchors_of(store) =~= anchors_from(all.take(0)));
    for der in it: ders
        invariant
            contents(it.seq()) == all,
            all_trusted(all.take(it.index())),
            anchors_of(store) == anchors_from(all.take(it.index())),
    {
        let ghost i = it.index();
        assert(all[i] == contents(it.seq())[i]);
        match add_root(&mut store, der) {
            Ok(()) => {
                assert(anchors_of(store) =~= anchors_from(all.take(i + 1)));
            },
            Err(error) => {
                return Err(error);
            },
        }
    }
    assert(all.take(all.len() as int) =~= all);
    Ok(store)
}

/// The key as it was read, by its view.
pub open spec fn key_read(key: Result<Option<PrivateKey>, std::io::Error>) -> Result<
    Option<(KeyFormat, Seq<u8>)>,
    (),
> {
    match key {
        Ok(Some(key)) => Ok(Some(key@)),
        Ok(None) => Ok(None),
        Err(_) => Err(()),
    }
}

/// All that was read of a client's certificates, its key and the certificates of the
/// authorities can be used.
pub open spec fn in_order(
    certificates: Seq<Option<Seq<u8>>>,
    key: Result<Option<(KeyFormat, Seq<u8>)>, ()>,
    authorities: Seq<Option<Seq<u8>>>,
) -> bool {
    &&& all_read(certificates)
    &&& key matches Ok(Some(_))
    &&& all_read(authorities)
    &&& all_trusted(read_sections(authorities))
}

/// This is the error for the first thing that cannot be used, in the order of the arguments.
pub open spec fn is_first_fault(
    certificates: Seq<Option<Seq<u8>>>,
    key: Result<Option<(KeyFormat, Seq<u8>)>, ()>,
    authorities: Seq<Option<Seq<u8>>>,
    error: TlsError,
) -> bool {
    if !all_read(certificates) {
        error is CertificatePem
    } else if key is Err {
        error is KeyPem
    } else if key->Ok_0 is None {
        error is NoPrivateKey
    } else if !all_read(authorities) {
        error is AuthorityPem
    } else {
        error is Authority
    }
}

/// What a connector is made from.
#[derive(Debug)]
pub struct ClientSetup {
    pub store: rustls::RootCertStore,
    pub chain: Vec<Vec<u8>>,
    pub key: PrivateKey,
}

impl View for ClientSetup {
    type V = (Seq<Anchor>, Seq<Seq<u8>>, (KeyFormat, Seq<u8>));

    open spec fn view(&self) -> (Seq<Anchor>, Seq<Seq<u8>>, (KeyFormat, Seq<u8>)) {
        (anchors_of(self.store), contents(self.chain@), self.key@)
    }
}

/// What a connector is made from, where all that was read is in order: the trust anchors of
/// all authorities, all certificates of the client, and its key.
pub open spec fn setup_from(
    certificates: Seq<Option<Seq<u8>>>,
    key: Result<Option<(KeyFormat, Seq<u8>)>, ()>,
    authorities: Seq<Option<Seq<u8>>>,
) -> (Seq<Anchor>, Seq<Seq<u8>>, (KeyFormat, Seq<u8>)) {
    (anchors_from(read_sections(authorities)), read_sections(certificates), key->Ok_0->0)
}

/// What a connector for a client is made from, by what was read of its certificates, its key
/// and the certificates of the authorities.
pub fn client_setup(
    certificates: Vec<Option<Vec<u8>>>,
    key: Result<Option<PrivateKey>, std::io::Error>,
    authorities: Vec<Option<Vec<u8>>>,
) -> (setup: Result<ClientSetup, TlsError>)
    ensures
        setup is Ok <==> in_order(sections(certificates@), key_read(key), sections(authorities@)),
        match setup {
            Ok(setup) => setup@ == setup_from(
                sections(certificates@),
                key_read(key),
                sections(authorities@),
            ),
            Err(error) => is_first_fault(
                sections(certificates@),
                key_read(key),
                sections(authorities@),
                error,
            ),
        },
        setup matches Err(TlsError::KeyPem(error)) ==> key == Err::<Option<PrivateKey>, _>(error),
{
    let chain = match all_certificates(certificates) {
        Some(chain) => chain,
        None => {
            return Err(TlsError::CertificatePem);
        },
    };
    let key = match key {
        Ok(Some(key)) => key,
        Ok(None) => {
            return Err(TlsError::NoPrivateKey);
        },
        Err(error) => {
            return Err(TlsError::KeyPem(error));
        },
    };
    let roots = match all_certificates(authorities) {
        Some(roots) => roots,
        None => {
            return Err(TlsError::AuthorityPem);
        },
    };
    match root_store(roots) {
        Ok(store) => Ok(ClientSetup { store, chain, key }),
        Err(error) => Err(TlsError::Authority(error)),
    }
}

/// What becomes of a client with these certificates, this key and these certificates of
/// authorities. The first thing that cannot be used counts; where all is in order a connector
/// is made from it. One comes only for a key that fits the client's first certificate, and
/// for each such key that surely loads.
pub open spec fn is_outcome(
    certificates: Seq<Option<Seq<u8>>>,
    key: Result<Option<(KeyFormat, Seq<u8>)>, ()>,
    authorities: Seq<Option<Seq<u8>>>,
    outcome: Result<tokio_rustls::TlsConnector, TlsError>,
) -> bool {
    match outcome {
        Ok(connector) => {
            &&& in_order(certificates, key, authorities)
            &&& setup_of(connector) == setup_from(certificates, key, authorities)
            &&& certificates.len() > 0
            &&& key_fits(certificates[0]->0, key->Ok_0->0)
        },
        Err(error) => if in_order(certificates, key, authorities) {
            &&& error is Identity
            &&& !(certificates.len() > 0 && key_fits(certificates[0]->0, key->Ok_0->0)
                && loads_surely(key->Ok_0->0))
        } else {
            is_first_fault(certificates, key, authorities, error)
        },
    }
}

/// A connector for a client, from what was read of its certificates, its key and the
/// certificates of the authorities.
pub fn connector_from(
    certificates: Vec<Option<Vec<u8>>>,
    key: Result<Option<PrivateKey>, std::io::Error>,
    authorities: Vec<Option<Vec<u8>>>,
) -> (connector: Result<tokio_rustls::TlsConnector, TlsError>)
    ensures
        is_outcome(sections(certificates@), key_read(key), sections(authorities@), connector),
        connector matches Err(TlsError::KeyPem(error)) ==> key == Err::<Option<PrivateKey>, _>(
            error,
        ),
{
    let ghost given = sections(certificates@);
    let setup = match client_setup(certificates, key, authorities) {
        Ok(setup) => setup,
        Err(error) => {
            return Err(error);
        },
    };
    assert(contents(setup.chain@).len() == setup.chain@.len());
    assert(setup.chain@.len() > 0 ==> contents(setup.chain@)[0] == setup.chain@[0]@);
    assert(given.len() > 0 ==> read_sections(given)[0] == given[0]->0);
    match connector_for(setup.store, setup.chain, setup.key) {
        Ok(connector) => Ok(connector),
        Err(error) => Err(TlsError::Identity(error)),
    }
}

/// What becomes of a client with these files: its certificates, its key and the certificates
/// of the authorities. Each file is looked at only when the ones before it are in order.
pub open spec fn is_outcome_of_files(
    cert_file: Result<Vec<u8>, std::io::Error>,
    key_file: Result<Vec<u8>, std::io::Error>,
    ca_file: Result<Vec<u8>, std::io::Error>,
    outcome: Result<tokio_rustls::TlsConnector, TlsError>,
) -> bool {
    if cert_file is Err {
        outcome == Err::<tokio_rustls::TlsConnector, _>(TlsError::File(cert_file->Err_0))
    } else if !all_read(pem_certificates(cert_file->Ok_0@)) {
        outcome matches Err(TlsError::CertificatePem)
    } else if key_file is Err {
        outcome == Err::<tokio_rustls::TlsConnector, _>(TlsError::File(key_file->Err_0))
    } else if pem_private_key(key_file->Ok_0@) is Err {
        outcome matches Err(TlsError::KeyPem(_))
    } else if pem_private_key(key_file->Ok_0@)->Ok_0 is None {
        outcome matches Err(TlsError::NoPrivateKey)
    } else if ca_file is Err {
        outcome == Err::<tokio_rustls::TlsConnector, _>(TlsError::File(ca_file->Err_0))
    } else {
        is_outcome(
            pem_certificates(cert_file->Ok_0@),
            pem_private_key(key_file->Ok_0@),
            pem_certificates(ca_file->Ok_0@),
            outcome,
        )
    }
}

/// A connector for the client with the certificates and the key in these files, which trusts
/// the servers that the authorities in the last file vouch for. All three are PEM texts, or
/// could not be read.
pub fn build_tls_connector(
    cert_file: Result<Vec<u8>, std::io::Error>,
    key_file: Result<Vec<u8>, std::io::Error>,
    ca_file: Result<Vec<u8>, std::io::Error>,
) -> (connector: Result<tokio_rustls::TlsConnector, TlsError>)
    ensures
        is_outcome_of_files(cert_file, key_file, ca_file, connector),
{
    let cert_pem = match cert_file {
        Ok(pem) => pem,
        Err(error) => {
            return Err(TlsError::File(error));
        },
    };
    let certificates = read_pem_certificates(cert_pem.as_slice());
    let key_pem = match key_file {
        Ok(pem) => pem,
        Err(error) => {
            return match all_certificates(certificates) {
                Some(_) => Err(TlsError::File(error)),
                None => Err(TlsError::CertificatePem),
            };
        },
    };
    let key = read_pem_private_key(key_pem.as_slice());
    let ca_pem = match ca_file {
        Ok(pem) => pem,
        Err(error) => {
            return match client_setup(certificates, key, Vec::new()) {
                Ok(_) => Err(TlsError::File(error)),
                Err(fault) => Err(fault),
            };
        },
    };
    let authorities = read_pem_certificates(ca_pem.as_slice());
    connector_from(certificates, key, authorities)
}

/// What stands in the byte strings, one by one: none is left out, and each is told as it is.
pub proof fn law_each_item_is_told(
    items: Seq<Option<Vec<u8>>>,
    strings: Seq<Vec<u8>>,
    key: PrivateKey,
    error: std::io::Error,
    i: int,
)
    ensures
        sections(items).len() == items.len(),
        0 <= i < items.len() && items[i] is None ==> sections(items)[i] is None,
        0 <= i < items.len() && items[i] is Some ==> sections(items)[i] == Some(items[i]->0@),
        contents(strings).len() == strings.len(),
        0 <= i < strings.len() ==> contents(strings)[i] == strings[i]@,
        key@.0 == key.format,
        key@.1 == key.der@,
        key_read(Ok(Some(key))) == Ok::<_, ()>(Some(key@)),
        key_read(Ok(None)) == Ok::<Option<(KeyFormat, Seq<u8>)>, ()>(None),
        key_read(Err(error)) is Err,
{
}

/// All is in order exactly when no section of the certificates is unreadable, there is a key,
/// and every section of the authorities can be read and makes a trust anchor.
pub proof fn law_when_all_is_in_order(
    certificates: Seq<Option<Seq<u8>>>,
    key: Result<Option<(KeyFormat, Seq<u8>)>, ()>,
    authorities: Seq<Option<Seq<u8>>>,
)
    ensures
        in_order(certificates, key, authorities) <==> {
            &&& !certificates.contains(None)
            &&& key is Ok && key->Ok_0 is Some
            &&& !authorities.contains(None)
            &&& forall|der: Seq<u8>|
                #![trigger trust_anchor(der)]
                authorities.contains(Some(der)) ==> trust_anchor(der) is Some
        },
        all_read(certificates) <==> !certificates.contains(None),
{
    lemma_all_read(certificates);
    lemma_all_read(authorities);
    let ders = read_sections(authorities);
    if all_read(authorities) {
        if all_trusted(ders) {
            assert forall|der: Seq<u8>|
                #![trigger trust_anchor(der)]
                authorities.contains(Some(der)) implies trust_anchor(der) is Some by {
                let i = choose|i: int| 0 <= i < authorities.len() && authorities[i] == Some(der);
                assert(ders[i] == der);
            }
        }
        if forall|der: Seq<u8>|
            #![trigger trust_anchor(der)]
            authorities.contains(Some(der)) ==> trust_anchor(der) is Some {
            assert forall|i: int| 0 <= i < ders.len() implies trust_anchor(#[trigger] ders[i])
                is Some by {
                assert(authorities[i] is Some);
                assert(authorities.contains(Some(ders[i])));
            }
        }
    }
}

/// Every section can be read when none cannot.
proof fn lemma_all_read(items: Seq<Option<Seq<u8>>>)
    ensures
        all_read(items) <==> !items.contains(None),
{
    if !items.contains(None) {
        assert forall|i: int| 0 <= i < items.len() implies #[trigger] items[i] is Some by {
            if items[i] is None {
                assert(items.contains(None));
            }
        }
    }
}

/// The first of these that holds decides the error: a section of the certificates that cannot
/// be read, a key that cannot be read, no key, a section of the authorities that cannot be
/// read; and else it is a certificate of an authority that makes no trust anchor.
pub proof fn law_first_fault_is_told(
    certificates: Seq<Option<Seq<u8>>>,
    key: Result<Option<(KeyFormat, Seq<u8>)>, ()>,
    authorities: Seq<Option<Seq<u8>>>,
    error: TlsError,
)
    requires
        is_first_fault(certificates, key, authorities, error),
    ensures
        certificates.contains(None) ==> error is CertificatePem,
        !certificates.contains(None) && key is Err ==> error is KeyPem,
        !certificates.contains(None) && key == Ok::<Option<(KeyFormat, Seq<u8>)>, ()>(None)
            ==> error is NoPrivateKey,
        !certificates.contains(None) && key is Ok && key->Ok_0 is Some && authorities.contains(None)
            ==> error is AuthorityPem,
        !certificates.contains(None) && key is Ok && key->Ok_0 is Some && !authorities.contains(
            None,
        ) ==> error is Authority,
{
    lemma_all_read(certificates);
    lemma_all_read(authorities);
}

/// A connector is made from all that was given, in its order: the certificates of the client,
/// one by one, its key, and the trust anchor of each authority. The key fits the first
/// certificate.
pub proof fn law_connector_holds_what_was_given(
    certificates: Seq<Option<Seq<u8>>>,
    key: Result<Option<(KeyFormat, Seq<u8>)>, ()>,
    authorities: Seq<Option<Seq<u8>>>,
    connector: tokio_rustls::TlsConnector,
)
    requires
        is_outcome(certificates, key, authorities, Ok(connector)),
    ensures
        ({
            let (anchors, chain, own) = setup_of(connector);
            &&& chain.len() == certificates.len()
            &&& forall|i: int|
                0 <= i < certificates.len() ==> certificates[i] == Some(#[trigger] chain[i])
            &&& key == Ok::<_, ()>(Some(own))
            &&& anchors.len() == authorities.len()
            &&& forall|i: int|
                0 <= i < authorities.len() ==> {
                    &&& authorities[i] is Some
                    &&& trust_anchor(authorities[i]->0) == Some(#[trigger] anchors[i])
                }
            &&& certificates.len() > 0
            &&& key_fits(chain[0], own)
        }),
{
    let (anchors, chain, own) = setup_of(connector);
    assert forall|i: int| 0 <= i < certificates.len() implies certificates[i] == Some(
        #[trigger] chain[i],
    ) by {
        assert(certificates[i] is Some);
    }
    assert forall|i: int| 0 <= i < authorities.len() implies authorities[i] is Some && trust_anchor(
        authorities[i]->0,
    ) == Some(#[trigger] anchors[i]) by {
        assert(authorities[i] is Some);
        assert(trust_anchor(read_sections(authorities)[i]) is Some);
    }
}

/// What a connector is made from has the same certificates, the same key, and the anchors of
/// the authorities in their order.
pub proof fn law_setup_holds_what_was_given(
    certificates: Seq<Option<Seq<u8>>>,
    key: (KeyFormat, Seq<u8>),
    authorities: Seq<Option<Seq<u8>>>,
    setup: ClientSetup,
)
    ensures
        ({
            let (anchors, chain, own) = setup_from(certificates, Ok(Some(key)), authorities);
            &&& own == key
            &&& chain.len() == certificates.len()
            &&& forall|i: int|
                0 <= i < certificates.len() && certificates[i] is Some ==> #[trigger] chain[i]
                    == certificates[i]->0
            &&& anchors.len() == authorities.len()
            &&& forall|i: int|
                0 <= i < authorities.len() && authorities[i] is Some && trust_anchor(
                    authorities[i]->0,
                ) is Some ==> Some(#[trigger] anchors[i]) == trust_anchor(authorities[i]->0)
        }),
        setup@.0 == anchors_of(setup.store),
        setup@.1.len() == setup.chain@.len(),
        forall|i: int| 0 <= i < setup.chain@.len() ==> #[trigger] setup@.1[i] == setup.chain@[i]@,
        setup@.2 == setup.key@,
{
}

/// A client whose certificates, key and authorities are in order gets a connector if its key
/// is one that fits its first certificate and surely loads; otherwise it may be refused, and
/// for a key that does not fit it is. Where not all is in order it gets none.
pub proof fn law_who_gets_a_connector(
    certificates: Seq<Option<Seq<u8>>>,
    key: Result<Option<(KeyFormat, Seq<u8>)>, ()>,
    authorities: Seq<Option<Seq<u8>>>,
    outcome: Result<tokio_rustls::TlsConnector, TlsError>,
)
    requires
        is_outcome(certificates, key, authorities, outcome),
    ensures
        in_order(certificates, key, authorities) && certificates.len() > 0 && key_fits(
            certificates[0]->0,
            key->Ok_0->0,
        ) && loads_surely(key->Ok_0->0) ==> outcome is Ok,
        in_order(certificates, key, authorities) && (certificates.len() == 0 || !key_fits(
            certificates[0]->0,
            key->Ok_0->0,
        )) ==> outcome is Err,
        in_order(certificates, key, authorities) && outcome is Err ==> outcome->Err_0 is Identity,
        !in_order(certificates, key, authorities) ==> outcome is Err && is_first_fault(
            certificates,
            key,
            authorities,
            outcome->Err_0,
        ),
{
}

/// The files are looked at one after the other, and the first trouble is the outcome: a file
/// that cannot be read is told of with its own error, and only where the files before it are
/// in order.
pub proof fn law_files_are_looked_at_in_turn(
    cert_file: Result<Vec<u8>, std::io::Error>,
    key_file: Result<Vec<u8>, std::io::Error>,
    ca_file: Result<Vec<u8>, std::io::Error>,
    outcome: Result<tokio_rustls::TlsConnector, TlsError>,
)
    requires
        is_outcome_of_files(cert_file, key_file, ca_file, outcome),
    ensures
        cert_file is Err ==> outcome is Err && outcome->Err_0 == TlsError::File(cert_file->Err_0),
        cert_file is Ok ==> {
            let certificates = pem_certificates(cert_file->Ok_0@);
            &&& certificates.contains(None) ==> outcome is Err && outcome->Err_0 is CertificatePem
            &&& !certificates.contains(None) && key_file is Err ==> outcome is Err
                && outcome->Err_0 == TlsError::File(key_file->Err_0)
            &&& !certificates.contains(None) && key_file is Ok ==> {
                let key = pem_private_key(key_file->Ok_0@);
                &&& key is Err ==> outcome is Err && outcome->Err_0 is KeyPem
                &&& key is Ok && key->Ok_0 is None ==> outcome is Err
                    && outcome->Err_0 is NoPrivateKey
                &&& key is Ok && key->Ok_0 is Some && ca_file is Err ==> outcome is Err
                    && outcome->Err_0 == TlsError::File(ca_file->Err_0)
                &&& key is Ok && key->Ok_0 is Some && ca_file is Ok ==> is_outcome(
                    certificates,
                    key,
                    pem_certificates(ca_file->Ok_0@),
                    outcome,
                )
            }
        },
{
    if cert_file is Ok {
        lemma_all_read(pem_certificates(cert_file->Ok_0@));
    }
}

/// The anchors of certificates are one for each, in their order.
pub proof fn law_each_certificate_makes_its_anchor(ders: Seq<Seq<u8>>)
    ensures
        anchors_from(ders).len() == ders.len(),
        all_trusted(ders) <==> forall|i: int|
            0 <= i < ders.len() ==> trust_anchor(#[trigger] ders[i]) is Some,
        all_trusted(ders) ==> forall|i: int|
            0 <= i < ders.len() ==> trust_anchor(#[trigger] ders[i]) == Some(anchors_from(ders)[i]),
{
}

/// The sections that could be read are the byte strings, one by one.
pub proof fn law_read_sections_are_the_sections(items: Seq<Option<Seq<u8>>>)
    requires
        !items.contains(None),
    ensures
        read_sections(items).len() == items.len(),
        forall|i: int|
            0 <= i < items.len() ==> items[i] == Some(#[trigger] read_sections(items)[i]),
{
    lemma_all_read(items);
    assert forall|i: int| 0 <= i < items.len() implies items[i] == Some(
        #[trigger] read_sections(items)[i],
    ) by {
        assert(items[i] is Some);
    }
}

/// A key in the format PKCS #1 surely loads, and so does one in the format PKCS #8 in which the
/// identifier of elliptic-curve keys, `1.2.840.10045.2.1`, stands nowhere.
pub proof fn law_which_keys_surely_load(der: Seq<u8>, oid: Seq<u8>)
    requires
        oid == seq![0x2au8, 0x86, 0x48, 0xce, 0x3d, 0x02, 0x01],
    ensures
        loads_surely((KeyFormat::Pkcs1, der)),
        !loads_surely((KeyFormat::Sec1, der)),
        loads_surely((KeyFormat::Pkcs8, der)) <==> !exists|before: Seq<u8>, behind: Seq<u8>|
            der == #[trigger] (before + oid + behind),
{
    if !loads_surely((KeyFormat::Pkcs8, der)) {
        let at = choose|at: int| names_elliptic_curve_at(der, at);
        assert(der =~= der.take(at) + oid + der.skip(at + 7));
    }
    assert forall|before: Seq<u8>, behind: Seq<u8>|
        der == #[trigger] (before + oid + behind) implies !loads_surely((KeyFormat::Pkcs8, der)) by {
        let at = before.len() as int;
        assert(der.subrange(at, at + 7) =~= oid);
        let key = (KeyFormat::Pkcs8, der);
        assert(names_elliptic_curve_at(key.1, at));
    }
}

} // verus!
