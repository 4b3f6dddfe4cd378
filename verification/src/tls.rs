//! The proxy's TLS identity: its certificate chain and private key.
use vstd::prelude::*;
use vstd::string::*;

verus! {

/// `std::io::Error`, which says why a PEM file could not be parsed.
#[verifier::external_type_specification]
#[verifier::external_body]
pub struct ExIoError(std::io::Error);

/// `rustls::Error`, which says why an identity was not accepted.
#[verifier::external_type_specification]
#[verifier::external_body]
pub struct ExTlsError(rustls::Error);

/// `rustls::ServerConfig`, with which TLS connections are accepted.
#[verifier::external_type_specification]
#[verifier::external_body]
pub struct ExServerConfig(rustls::ServerConfig);

/// What a list of byte strings says.
pub open spec fn byte_lists(list: Seq<Vec<u8>>) -> Seq<Seq<u8>> {
    list.map_values(|v: Vec<u8>| v@)
}

/// The certificates that rustls-pemfile finds in a PEM file, if it can parse it.
pub uninterp spec fn pem_certificates(pem: Seq<u8>) -> Option<Seq<Seq<u8>>>;

/// The PKCS #8 private keys that rustls-pemfile finds in a PEM file, if it can
/// parse it.
pub uninterp spec fn pem_pkcs8_keys(pem: Seq<u8>) -> Option<Seq<Seq<u8>>>;

/// The certificate chain that a server configuration holds, followed by its
/// private key.
pub uninterp spec fn served_identity(config: rustls::ServerConfig) -> Seq<Seq<u8>>;

/// `rustls_pemfile::certs`: the certificates in a PEM file, in their order.
/// Which ones these are has a name here and is not spelled out.
#[verifier::external_body]
fn certs(pem: &[u8]) -> (found: Result<Vec<Vec<u8>>, std::io::Error>)
    ensures
        found is Ok <==> pem_certificates(pem@) is Some,
        found matches Ok(list) ==> pem_certificates(pem@) == Some(byte_lists(list@)),
{
    rustls_pemfile::certs(&mut &pem[..])
}

/// `rustls_pemfile::pkcs8_private_keys`: the PKCS #8 private keys in a PEM
/// file, in their order. Which ones these are has a name here and is not
/// spelled out.
#[verifier::external_body]
fn pkcs8_private_keys(pem: &[u8]) -> (found: Result<Vec<Vec<u8>>, std::io::Error>)
    ensures
        found is Ok <==> pem_pkcs8_keys(pem@) is Some,
        found matches Ok(list) ==> pem_pkcs8_keys(pem@) == Some(byte_lists(list@)),
{
    rustls_pemfile::pkcs8_private_keys(&mut &pem[..])
}

/// `rustls::ServerConfig`'s builder with its safe defaults, without client
/// authentication, and `with_single_cert`: a configuration that holds the chain
/// and the key. It fails where rustls cannot load the key. Which keys these are is
/// not stated: loading one may draw random bytes, and fails where that does.
#[verifier::external_body]
fn with_single_cert(chain: Vec<Vec<u8>>, key: Vec<u8>) -> (config: Result<
    rustls::ServerConfig,
    rustls::Error,
>)
    ensures
        config matches Ok(c) ==> served_identity(c) == byte_lists(chain@).push(key@),
{
    rustls::ServerConfig::builder()
        .with_safe_defaults()
        .with_no_client_auth()
        .with_single_cert(
            chain.into_iter().map(rustls::Certificate).collect(),
            rustls::PrivateKey(key),
        )
}

/// Why there is no TLS identity.
#[derive(Debug)]
pub enum TlsError {
    /// The certificate file is not PEM.
    Certificates(std::io::Error),
    /// The key file is not PEM.
    Keys(std::io::Error),
    /// There is no PKCS #8 private key in this file.
    NoKey(String),
    /// The key could not be loaded.
    Rejected(rustls::Error),
}

impl TlsError {
    /// What went wrong.
    pub open spec fn text(self) -> Seq<char> {
        match self {
            TlsError::Certificates(_) => "parsing TLS cert"@,
            TlsError::Keys(_) => "parsing TLS key"@,
            TlsError::NoKey(path) => "no PKCS8 private key found in "@ + path@,
            TlsError::Rejected(_) => "TLS configuration error"@,
        }
    }

    /// What went wrong; the cause, where there is one, is in the error itself.
    pub fn message(&self) -> (message: String)
        ensures
            message@ == self.text(),
    {
        match self {
            TlsError::Certificates(_) => "parsing TLS cert".to_owned(),
            TlsError::Keys(_) => "parsing TLS key".to_owned(),
            TlsError::NoKey(path) => "no PKCS8 private key found in ".to_owned().concat(
                path.as_str(),
            ),
            TlsError::Rejected(_) => "TLS configuration error".to_owned(),
        }
    }
}

/// Picks the private key out of those found in a file: the first one.
pub fn first_key(keys: Vec<Vec<u8>>, path: &str) -> (key: Result<Vec<u8>, TlsError>)
    ensures
        match key {
            Ok(k) => keys.len() > 0 && k@ == keys@[0]@,
            Err(error) => keys.len() == 0 && error is NoKey && error->NoKey_0@ == path@,
        },
{
    if keys.len() == 0 {
        Err(TlsError::NoKey(path.to_owned()))
    } else {
        let key = keys[0].clone();
        assert(key@ =~= keys@[0]@);
        Ok(key)
    }
}

/// Whether `config` is what a certificate file and a key file give: a
/// configuration with all certificates of the one and the first PKCS #8 private
/// key of the other, or the error that fits.
pub open spec fn tls_result(
    cert_data: Seq<u8>,
    key_data: Seq<u8>,
    key_path: Seq<char>,
    config: Result<rustls::ServerConfig, TlsError>,
) -> bool {
    match (pem_certificates(cert_data), pem_pkcs8_keys(key_data)) {
        (None, _) => config matches Err(e) && e is Certificates,
        (Some(_), None) => config matches Err(e) && e is Keys,
        (Some(chain), Some(keys)) => if keys.len() == 0 {
            config matches Err(e) && e is NoKey && e->NoKey_0@ == key_path
        } else {
            match config {
                Ok(c) => served_identity(c) == chain.push(keys[0]),
                Err(e) => e is Rejected,
            }
        },
    }
}

/// The server configuration for a certificate file and a key file: all
/// certificates of the one and the first PKCS #8 private key of the other.
/// `key_path` is the name of the key file.
pub fn make_tls_acceptor(cert_data: &[u8], key_data: &[u8], key_path: &str) -> (config: Result<
    rustls::ServerConfig,
    TlsError,
>)
    ensures
        tls_result(cert_data@, key_data@, key_path@, config),
{
    let chain = match certs(cert_data) {
        Ok(chain) => chain,
        Err(cause) => {
            return Err(TlsError::Certificates(cause));
        },
    };
    let keys = match pkcs8_private_keys(key_data) {
        Ok(keys) => keys,
        Err(cause) => {
            return Err(TlsError::Keys(cause));
        },
    };
    assert(byte_lists(keys@).len() == keys.len());
    let key = match first_key(keys, key_path) {
        Ok(key) => key,
        Err(error) => {
            return Err(error);
        },
    };
    match with_single_cert(chain, key) {
        Ok(config) => Ok(config),
        Err(cause) => Err(TlsError::Rejected(cause)),
    }
}

/// The certificate and key files to serve TLS with: both, or neither for plain
/// HTTP. One without the other is an error.
pub fn tls_files(cert: Option<String>, key: Option<String>) -> (files: Result<
    Option<(String, String)>,
    String,
>)
    ensures
        match (cert, key) {
            (Some(c), Some(k)) => files == Ok::<Option<(String, String)>, String>(Some((c, k))),
            (None, None) => files == Ok::<Option<(String, String)>, String>(None),
            _ => files matches Err(message) && message@
                == "--tls-cert and --tls-key must be provided together"@,
        },
{
    match (cert, key) {
        (Some(c), Some(k)) => Ok(Some((c, k))),
        (None, None) => Ok(None),
        _ => Err("--tls-cert and --tls-key must be provided together".to_owned()),
    }
}

} // verus!
