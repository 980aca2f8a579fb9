//! From the certificate and key files to the TLS configuration of the
//! server.
//!
//! The caller reads the two files and hands in what it read, the bytes or
//! the reason for which they could not be had. Everything that is decided
//! about them is decided here, in a fixed order: the certificates first,
//! then the key, then the demand for client certificates, and last the TLS
//! library's own judgement of the key.

use vstd::prelude::*;
use std::sync::Arc;

verus! {

/// `rustls::ServerConfig`: the TLS configuration of a server, as the TLS
/// library holds it. Nothing inside it is looked at.
#[verifier::external_type_specification]
#[verifier::external_body]
pub struct ExServerConfig(rustls::ServerConfig);

/// `rustls::Error`: a failure reported by the TLS library. Nothing inside it
/// is looked at.
#[verifier::external_type_specification]
#[verifier::external_body]
pub struct ExTlsError(rustls::Error);

/// `std::io::Error`: a failure of an input or output operation, as the
/// standard library reports it. Nothing inside it is looked at.
#[verifier::external_type_specification]
#[verifier::external_body]
pub struct ExStdIoError(std::io::Error);

/// A failure while the server is set up: the text that explains it.
#[derive(Clone, Debug, PartialEq, Eq)]
pub struct IoError {
    pub message: String,
}

/// The part of the configuration that speaks of TLS.
#[derive(Clone, Debug, PartialEq, Eq)]
pub struct TlsConfig {
    /// Where the certificate chain is read from, in PEM.
    pub cert_path: String,
    /// Where the private key is read from, in PEM and PKCS#8.
    pub key_path: String,
    /// Whether clients are asked for a certificate. This is not supported.
    pub validate_client: bool,
}

/// What a file gave: its bytes, or the text of the failure to read it.
pub type FileRead = Result<Vec<u8>, String>;

/// The certificates that a PEM text holds, each as its DER bytes and in the
/// order of the text, or nothing where the text is not well-formed PEM.
pub uninterp spec fn pem_certificates(pem: Seq<u8>) -> Option<Seq<Seq<u8>>>;

/// The PKCS#8 private keys that a PEM text holds, each as its DER bytes and
/// in the order of the text, or nothing where the text is not well-formed
/// PEM.
pub uninterp spec fn pem_pkcs8_keys(pem: Seq<u8>) -> Option<Seq<Seq<u8>>>;

/// The protocols that a TLS configuration holds to offer to a client, the
/// preferred first.
pub uninterp spec fn config_alpn(config: rustls::ServerConfig) -> Seq<Seq<u8>>;

/// The digit that stands for a number below ten.
pub open spec fn digit(d: nat) -> char {
    if d == 0 {
        '0'
    } else if d == 1 {
        '1'
    } else if d == 2 {
        '2'
    } else if d == 3 {
        '3'
    } else if d == 4 {
        '4'
    } else if d == 5 {
        '5'
    } else if d == 6 {
        '6'
    } else if d == 7 {
        '7'
    } else if d == 8 {
        '8'
    } else {
        '9'
    }
}

/// A number in decimal, without leading zeros.
pub open spec fn decimal(n: nat) -> Seq<char>
    decreases n,
{
    if n < 10 {
        seq![digit(n)]
    } else {
        decimal(n / 10).push(digit(n % 10))
    }
}

/// The text of the failure to read a file.
pub open spec fn open_failure(filename: Seq<char>, error: Seq<char>) -> Seq<char> {
    "failed to open "@ + filename + ": "@ + error
}

/// The text of the failure to find exactly one private key.
pub open spec fn key_count_failure(count: nat) -> Seq<char> {
    "expected a single private key, got "@ + decimal(count)
}

/// The protocols offered to a client, the preferred first: HTTP/2, then
/// HTTP/1.1, then HTTP/1.0.
pub open spec fn alpn_preference() -> Seq<Seq<u8>> {
    seq![
        seq![0x68u8, 0x32u8],
        seq![0x68u8, 0x74u8, 0x74u8, 0x70u8, 0x2fu8, 0x31u8, 0x2eu8, 0x31u8],
        seq![0x68u8, 0x74u8, 0x74u8, 0x70u8, 0x2fu8, 0x31u8, 0x2eu8, 0x30u8],
    ]
}

/// The certificates that the certificate file gives, or the text of the
/// failure.
pub open spec fn loaded_certs(filename: Seq<char>, file: FileRead) -> Result<Seq<Seq<u8>>, Seq<char>> {
    match file {
        Err(error) => Err(open_failure(filename, error@)),
        Ok(pem) => match pem_certificates(pem@) {
            None => Err("failed to load certificate"@),
            Some(certs) => Ok(certs),
        },
    }
}

/// The one key of a list of keys, or the text of the failure.
pub open spec fn single_key(keys: Seq<Seq<u8>>) -> Result<Seq<u8>, Seq<char>> {
    if keys.len() == 1 {
        Ok(keys[0])
    } else {
        Err(key_count_failure(keys.len()))
    }
}

/// The private key that the key file gives, or the text of the failure.
pub open spec fn loaded_private_key(filename: Seq<char>, file: FileRead) -> Result<Seq<u8>, Seq<char>> {
    match file {
        Err(error) => Err(open_failure(filename, error@)),
        Ok(pem) => match pem_pkcs8_keys(pem@) {
            None => Err("failed to load private key"@),
            Some(keys) => single_key(keys),
        },
    }
}

/// What is handed to the TLS library, the certificate chain and the key, or
/// the text of the first failure among: the certificates, the key, the
/// demand for client certificates.
pub open spec fn checked_setup(
    config: TlsConfig,
    cert_file: FileRead,
    key_file: FileRead,
) -> Result<(Seq<Seq<u8>>, Seq<u8>), Seq<char>> {
    match loaded_certs(config.cert_path@, cert_file) {
        Err(text) => Err(text),
        Ok(certs) => match loaded_private_key(config.key_path@, key_file) {
            Err(text) => Err(text),
            Ok(key) => if config.validate_client {
                Err("mTLS isn't supported on rest api"@)
            } else {
                Ok((certs, key))
            },
        },
    }
}

/// `rustls_pemfile::certs` on a text in memory. It reads the PEM sections of
/// the text and returns the decoded content of those marked as certificates,
/// in their order; it fails where the start of a section is malformed, a
/// section does not end or its content is not base64. The result depends on
/// the bytes alone.
#[verifier::external_body]
fn parse_certificates(pem: &[u8]) -> (parsed: Result<Vec<Vec<u8>>, std::io::Error>)
    ensures
        pem_certificates(pem@) == match parsed {
            Ok(certs) => Some(certs.deep_view()),
            Err(_) => None,
        },
{
    let mut reader = pem;
    rustls_pemfile::certs(&mut reader)
}

/// `rustls_pemfile::pkcs8_private_keys` on a text in memory. It reads the PEM
/// sections of the text and returns the decoded content of those marked as
/// PKCS#8 private keys, in their order; it fails where the start of a section
/// is malformed, a section does not end or its content is not base64. The
/// result depends on the bytes alone.
#[verifier::external_body]
fn parse_pkcs8_keys(pem: &[u8]) -> (parsed: Result<Vec<Vec<u8>>, std::io::Error>)
    ensures
        pem_pkcs8_keys(pem@) == match parsed {
            Ok(keys) => Some(keys.deep_view()),
            Err(_) => None,
        },
{
    let mut reader = pem;
    rustls_pemfile::pkcs8_private_keys(&mut reader)
}

/// `ServerConfig::builder` of rustls, followed by `with_safe_defaults`,
/// `with_no_client_auth` and `with_single_cert`: a configuration with the
/// library's default cryptography, without client authentication, and with
/// the one certificate chain and key. Whether the key is accepted is the TLS
/// library's judgement, which draws on the system's random numbers; nothing
/// is claimed of it.
#[verifier::external_body]
fn single_cert_config(certs: Vec<Vec<u8>>, key: Vec<u8>) -> Result<rustls::ServerConfig, rustls::Error> {
    rustls::ServerConfig::builder()
        .with_safe_defaults()
        .with_no_client_auth()
        .with_single_cert(certs.into_iter().map(rustls::Certificate).collect(), rustls::PrivateKey(key))
}

/// Sets the field `alpn_protocols` of a `rustls::ServerConfig`: the
/// configuration then holds the given protocols, in their order.
#[verifier::external_body]
fn with_alpn_protocols(config: rustls::ServerConfig, protocols: Vec<Vec<u8>>) -> (set:
    rustls::ServerConfig)
    ensures
        config_alpn(set) == protocols.deep_view(),
{
    let mut config = config;
    config.alpn_protocols = protocols;
    config
}

/// An error that carries `error` as its text.
pub fn io_error(error: String) -> (failure: IoError)
    ensures
        failure.message == error,
{
    IoError { message: error }
}

fn digit_text(d: usize) -> (text: &'static str)
    requires
        d < 10,
    ensures
        text@ == seq![digit(d as nat)],
{
    proof {
        reveal_strlit("0");
        reveal_strlit("1");
        reveal_strlit("2");
        reveal_strlit("3");
        reveal_strlit("4");
        reveal_strlit("5");
        reveal_strlit("6");
        reveal_strlit("7");
        reveal_strlit("8");
        reveal_strlit("9");
    }
    let text = if d == 0 {
        "0"
    } else if d == 1 {
        "1"
    } else if d == 2 {
        "2"
    } else if d == 3 {
        "3"
    } else if d == 4 {
        "4"
    } else if d == 5 {
        "5"
    } else if d == 6 {
        "6"
    } else if d == 7 {
        "7"
    } else if d == 8 {
        "8"
    } else {
        "9"
    };
    assert(text@ =~= seq![digit(d as nat)]);
    text
}

/// Writes a number in decimal.
pub fn decimal_text(n: usize) -> (text: String)
    ensures
        text@ == decimal(n as nat),
    decreases n,
{
    if n < 10 {
        digit_text(n).to_owned()
    } else {
        decimal_text(n / 10).concat(digit_text(n % 10))
    }
}

/// The failure to read the file `filename`, which the system explained with
/// `error`.
pub fn open_error(filename: &str, error: &str) -> (failure: IoError)
    ensures
        failure.message@ == open_failure(filename@, error@),
{
    io_error("failed to open ".to_owned().concat(filename).concat(": ").concat(error))
}

/// Loads the certificate chain from what the certificate file gave.
///
/// A file without any certificate gives an empty chain, as long as it is
/// well-formed.
pub fn load_certs(filename: &str, file: FileRead) -> (loaded: Result<Vec<Vec<u8>>, IoError>)
    ensures
        match loaded {
            Ok(certs) => loaded_certs(filename@, file) == Ok::<Seq<Seq<u8>>, Seq<char>>(
                certs.deep_view(),
            ),
            Err(failure) => loaded_certs(filename@, file) == Err::<Seq<Seq<u8>>, Seq<char>>(
                failure.message@,
            ),
        },
{
    match file {
        Err(error) => Err(open_error(filename, error.as_str())),
        Ok(pem) => match parse_certificates(pem.as_slice()) {
            Ok(certs) => Ok(certs),
            Err(_) => Err(io_error("failed to load certificate".to_owned())),
        },
    }
}

/// Takes the one key out of the keys that a file held. Any other number of
/// keys is a failure that names the number: no key is picked silently.
pub fn single_private_key(keys: Vec<Vec<u8>>) -> (chosen: Result<Vec<u8>, IoError>)
    ensures
        match chosen {
            Ok(key) => single_key(keys.deep_view()) == Ok::<Seq<u8>, Seq<char>>(key@),
            Err(failure) => single_key(keys.deep_view()) == Err::<Seq<u8>, Seq<char>>(
                failure.message@,
            ),
        },
{
    let mut keys = keys;
    let ghost given = keys.deep_view();
    if keys.len() != 1 {
        let count = decimal_text(keys.len());
        return Err(io_error("expected a single private key, got ".to_owned().concat(count.as_str())));
    }
    let key = keys.remove(0);
    assert(key@ == given[0]);
    Ok(key)
}

/// Loads the private key from what the key file gave.
pub fn load_private_key(filename: &str, file: FileRead) -> (loaded: Result<Vec<u8>, IoError>)
    ensures
        match loaded {
            Ok(key) => loaded_private_key(filename@, file) == Ok::<Seq<u8>, Seq<char>>(key@),
            Err(failure) => loaded_private_key(filename@, file) == Err::<Seq<u8>, Seq<char>>(
                failure.message@,
            ),
        },
{
    match file {
        Err(error) => Err(open_error(filename, error.as_str())),
        Ok(pem) => match parse_pkcs8_keys(pem.as_slice()) {
            Ok(keys) => single_private_key(keys),
            Err(_) => Err(io_error("failed to load private key".to_owned())),
        },
    }
}

/// The protocols offered to a client, the preferred first.
pub fn alpn_protocols() -> (protocols: Vec<Vec<u8>>)
    ensures
        protocols.deep_view() == alpn_preference(),
{
    let mut h2: Vec<u8> = Vec::new();
    h2.push(0x68);
    h2.push(0x32);
    let mut http11: Vec<u8> = Vec::new();
    http11.push(0x68);
    http11.push(0x74);
    http11.push(0x74);
    http11.push(0x70);
    http11.push(0x2f);
    http11.push(0x31);
    http11.push(0x2e);
    http11.push(0x31);
    let mut http10: Vec<u8> = Vec::new();
    http10.push(0x68);
    http10.push(0x74);
    http10.push(0x74);
    http10.push(0x70);
    http10.push(0x2f);
    http10.push(0x31);
    http10.push(0x2e);
    http10.push(0x30);
    let mut protocols: Vec<Vec<u8>> = Vec::new();
    protocols.push(h2);
    protocols.push(http11);
    protocols.push(http10);
    assert(protocols.deep_view() =~~= alpn_preference());
    protocols
}

/// Decides everything that can be decided before the TLS library is asked:
/// loads the certificates, then the key, and refuses a demand for client
/// certificates. The first failure is the one returned.
pub fn check_setup(config: &TlsConfig, cert_file: FileRead, key_file: FileRead) -> (checked: Result<
    (Vec<Vec<u8>>, Vec<u8>),
    IoError,
>)
    ensures
        match checked {
            Ok((certs, key)) => checked_setup(*config, cert_file, key_file) == Ok::<
                (Seq<Seq<u8>>, Seq<u8>),
                Seq<char>,
            >((certs.deep_view(), key@)),
            Err(failure) => checked_setup(*config, cert_file, key_file) == Err::<
                (Seq<Seq<u8>>, Seq<u8>),
                Seq<char>,
            >(failure.message@),
        },
{
    let certs = match load_certs(config.cert_path.as_str(), cert_file) {
        Ok(certs) => certs,
        Err(failure) => {
            return Err(failure);
        },
    };
    let key = match load_private_key(config.key_path.as_str(), key_file) {
        Ok(key) => key,
        Err(failure) => {
            return Err(failure);
        },
    };
    if config.validate_client {
        return Err(io_error("mTLS isn't supported on rest api".to_owned()));
    }
    Ok((certs, key))
}

/// Turns the TLS library's answer into the configuration that the
/// connections share, with the protocols of [`alpn_preference`] set on it, or
/// into the failure that carries the library's own text.
pub fn shared_config(built: Result<rustls::ServerConfig, rustls::Error>) -> (shared: Result<
    Arc<rustls::ServerConfig>,
    IoError,
>)
    ensures
        shared is Ok <==> built is Ok,
        shared matches Ok(config) ==> config_alpn(*config) == alpn_preference(),
        shared matches Err(failure) ==> vstd::string::to_string_from_display_ensures::<rustls::Error>(
            &built->Err_0,
            failure.message,
        ),
{
    match built {
        Ok(config) => Ok(Arc::new(with_alpn_protocols(config, alpn_protocols()))),
        Err(error) => Err(io_error(error.to_string())),
    }
}

/// Builds the TLS configuration of the server from what the certificate
/// file and the key file gave.
///
/// Whatever [`checked_setup`] refuses is refused here with the same text. A
/// chain and a key that pass are handed to the TLS library, which judges the
/// key; a configuration that it builds offers the protocols of
/// [`alpn_preference`].
pub fn make_rustls_config(config: &TlsConfig, cert_file: FileRead, key_file: FileRead) -> (made: Result<
    Arc<rustls::ServerConfig>,
    IoError,
>)
    ensures
        match checked_setup(*config, cert_file, key_file) {
            Err(text) => made matches Err(failure) && failure.message@ == text,
            Ok(_) => true,
        },
        config.validate_client ==> made is Err,
        made matches Ok(built) ==> config_alpn(*built) == alpn_preference(),
{
    match check_setup(config, cert_file, key_file) {
        Err(failure) => Err(failure),
        Ok((certs, key)) => shared_config(single_cert_config(certs, key)),
    }
}

/// A configuration that asks for client certificates is refused, whatever
/// the files hold, and with the text that says so where the files are in
/// order.
pub proof fn lemma_client_validation_is_refused(
    config: TlsConfig,
    cert_file: FileRead,
    key_file: FileRead,
)
    requires
        config.validate_client,
    ensures
        checked_setup(config, cert_file, key_file) is Err,
        loaded_certs(config.cert_path@, cert_file) is Ok && loaded_private_key(
            config.key_path@,
            key_file,
        ) is Ok ==> checked_setup(config, cert_file, key_file) == Err::<
            (Seq<Seq<u8>>, Seq<u8>),
            Seq<char>,
        >("mTLS isn't supported on rest api"@),
{
}

/// A key file that holds no key, or more than one, fails to load, and the
/// failure names the number of keys found: no key is picked silently.
pub proof fn lemma_key_count_must_be_one(filename: Seq<char>, pem: Vec<u8>, keys: Seq<Seq<u8>>)
    requires
        keys.len() != 1,
    ensures
        single_key(keys) == Err::<Seq<u8>, Seq<char>>(
            "expected a single private key, got "@ + decimal(keys.len()),
        ),
        pem_pkcs8_keys(pem@) == Some(keys) ==> loaded_private_key(filename, Ok(pem)) == Err::<
            Seq<u8>,
            Seq<char>,
        >("expected a single private key, got "@ + decimal(keys.len())),
{
}

} // verus!
