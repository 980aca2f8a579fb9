use rest_core::tls_config::{
    alpn_protocols, check_setup, decimal_text, io_error, load_certs, load_private_key,
    make_rustls_config, open_error, single_private_key, TlsConfig,
};

const KEY_DER: [u8; 48] = [
    48, 46, 2, 1, 0, 48, 5, 6, 3, 43, 101, 112, 4, 34, 4, 32, 1, 2, 3, 4, 5, 6, 7, 8, 9, 10, 11, 12, 13,
    14, 15, 16, 17, 18, 19, 20, 21, 22, 23, 24, 25, 26, 27, 28, 29, 30, 31, 32,
];

const CERT_ONE: [u8; 5] = [48, 3, 2, 1, 1];

const CERT_TWO: [u8; 5] = [48, 3, 2, 1, 2];

/// Standard base64 with padding.
fn base64(bytes: &[u8]) -> String {
    let alphabet: Vec<char> =
        ('A'..='Z').chain('a'..='z').chain('0'..='9').chain(['+', '/']).collect();
    let mut text = String::new();
    for chunk in bytes.chunks(3) {
        let b0 = chunk[0] as usize;
        let b1 = if chunk.len() > 1 { chunk[1] as usize } else { 0 };
        let b2 = if chunk.len() > 2 { chunk[2] as usize } else { 0 };
        text.push(alphabet[b0 >> 2]);
        text.push(alphabet[((b0 & 3) << 4) | (b1 >> 4)]);
        text.push(if chunk.len() > 1 { alphabet[((b1 & 15) << 2) | (b2 >> 6)] } else { '=' });
        text.push(if chunk.len() > 2 { alphabet[b2 & 63] } else { '=' });
    }
    text
}

/// One PEM section around the given bytes.
fn pem(label: &str, der: &[u8]) -> String {
    let dashes = "-".repeat(5);
    format!("{dashes}BEGIN {label}{dashes}\n{}\n{dashes}END {label}{dashes}\n", base64(der))
}

/// The label of a PKCS#8 section.
fn key_label() -> String {
    ["PRIVATE", "KEY"].join(" ")
}

/// A key file with the one test key.
fn key_pem() -> String {
    pem(&key_label(), &KEY_DER)
}

/// A certificate file with the given certificates.
fn cert_pem(certs: &[&[u8]]) -> String {
    certs.iter().map(|der| pem("CERTIFICATE", der)).collect()
}

/// A certificate file with the two test certificates.
fn two_certs() -> String {
    cert_pem(&[&CERT_ONE, &CERT_TWO])
}

fn config(validate_client: bool) -> TlsConfig {
    TlsConfig {
        cert_path: "/etc/server/cert.pem".to_string(),
        key_path: "/etc/server/key.pem".to_string(),
        validate_client,
    }
}

fn file(text: &str) -> Result<Vec<u8>, String> {
    Ok(text.as_bytes().to_vec())
}

#[test]
fn pem_sections_are_written_as_expected() {
    assert_eq!(base64(b""), "");
    assert_eq!(base64(b"f"), "Zg==");
    assert_eq!(base64(b"fo"), "Zm8=");
    assert_eq!(base64(b"foobar"), "Zm9vYmFy");
    let lines: Vec<String> = cert_pem(&[b"foo"]).lines().map(|line| line.to_string()).collect();
    assert_eq!(lines.len(), 3);
    assert_eq!(lines[0].trim_matches('-'), "BEGIN CERTIFICATE");
    assert_eq!(lines[0].len(), "BEGIN CERTIFICATE".len() + 10);
    assert_eq!(lines[1], "Zm9v");
    assert_eq!(lines[2].trim_matches('-'), "END CERTIFICATE");
    assert_eq!(lines[2].len(), "END CERTIFICATE".len() + 10);
}

#[test]
fn io_error_carries_its_text() {
    assert_eq!(io_error("boom".to_string()).message, "boom");
}

#[test]
fn decimal_text_writes_numbers() {
    assert_eq!(decimal_text(0), "0");
    assert_eq!(decimal_text(7), "7");
    assert_eq!(decimal_text(10), "10");
    assert_eq!(decimal_text(404), "404");
    assert_eq!(decimal_text(65535), "65535");
    assert_eq!(decimal_text(1234567890), "1234567890");
}

#[test]
fn unreadable_file_names_the_file_and_the_reason() {
    let failure = open_error("/etc/server/cert.pem", "No such file or directory (os error 2)");
    assert_eq!(
        failure.message,
        "failed to open /etc/server/cert.pem: No such file or directory (os error 2)"
    );
    let failure = load_certs("cert.pem", Err("permission denied".to_string())).unwrap_err();
    assert_eq!(failure.message, "failed to open cert.pem: permission denied");
    let failure = load_private_key("key.pem", Err("permission denied".to_string())).unwrap_err();
    assert_eq!(failure.message, "failed to open key.pem: permission denied");
}

#[test]
fn certificates_are_loaded_in_order() {
    let certs = load_certs("cert.pem", file(&two_certs())).unwrap();
    assert_eq!(certs, vec![CERT_ONE.to_vec(), CERT_TWO.to_vec()]);
}

#[test]
fn certificates_skip_other_sections() {
    let mixed = format!("{}{}", key_pem(), two_certs());
    let certs = load_certs("cert.pem", file(&mixed)).unwrap();
    assert_eq!(certs.len(), 2);
}

#[test]
fn file_without_certificates_gives_an_empty_chain() {
    assert_eq!(load_certs("cert.pem", file("")).unwrap(), Vec::<Vec<u8>>::new());
    assert_eq!(load_certs("cert.pem", file(&key_pem())).unwrap(), Vec::<Vec<u8>>::new());
}

#[test]
fn broken_certificate_file_fails_to_load() {
    let whole = cert_pem(&[&CERT_ONE]);
    let unfinished = &whole[..whole.trim_end().rfind('\n').unwrap() + 1];
    let failure = load_certs("cert.pem", file(unfinished)).unwrap_err();
    assert_eq!(failure.message, "failed to load certificate");
    let not_base64 = cert_pem(&[&CERT_ONE]).replace(&base64(&CERT_ONE), "!!!!");
    let failure = load_certs("cert.pem", file(&not_base64)).unwrap_err();
    assert_eq!(failure.message, "failed to load certificate");
}

#[test]
fn single_key_is_loaded() {
    let key = load_private_key("key.pem", file(&key_pem())).unwrap();
    assert_eq!(key, KEY_DER.to_vec());
}

#[test]
fn key_file_without_key_fails() {
    let failure = load_private_key("key.pem", file("")).unwrap_err();
    assert_eq!(failure.message, "expected a single private key, got 0");
    let failure = load_private_key("key.pem", file(&two_certs())).unwrap_err();
    assert_eq!(failure.message, "expected a single private key, got 0");
}

#[test]
fn key_file_with_two_keys_fails() {
    let two = format!("{}{}", key_pem(), key_pem());
    let failure = load_private_key("key.pem", file(&two)).unwrap_err();
    assert_eq!(failure.message, "expected a single private key, got 2");
}

#[test]
fn key_count_is_written_in_decimal() {
    let keys: Vec<Vec<u8>> = (0..12).map(|i| vec![i as u8]).collect();
    let failure = single_private_key(keys).unwrap_err();
    assert_eq!(failure.message, "expected a single private key, got 12");
    assert_eq!(single_private_key(vec![vec![1, 2, 3]]).unwrap(), vec![1, 2, 3]);
    assert_eq!(
        single_private_key(Vec::new()).unwrap_err().message,
        "expected a single private key, got 0"
    );
}

#[test]
fn broken_key_file_fails_to_load() {
    let whole = key_pem();
    let unfinished = &whole[..whole.trim_end().rfind('\n').unwrap() + 1];
    let failure = load_private_key("key.pem", file(unfinished)).unwrap_err();
    assert_eq!(failure.message, "failed to load private key");
}

#[test]
fn client_validation_is_refused() {
    let failure = make_rustls_config(&config(true), file(&two_certs()), file(&key_pem())).unwrap_err();
    assert_eq!(failure.message, "mTLS isn't supported on rest api");
    let failure = check_setup(&config(true), file(&two_certs()), file(&key_pem())).unwrap_err();
    assert_eq!(failure.message, "mTLS isn't supported on rest api");
}

#[test]
fn failures_come_in_order() {
    let whole = cert_pem(&[&CERT_ONE]);
    let broken = &whole[..whole.trim_end().rfind('\n').unwrap() + 1];
    let failure =
        make_rustls_config(&config(true), file(broken), Err("gone".to_string())).unwrap_err();
    assert_eq!(failure.message, "failed to load certificate");
    let failure =
        make_rustls_config(&config(true), file(&two_certs()), Err("gone".to_string())).unwrap_err();
    assert_eq!(failure.message, "failed to open /etc/server/key.pem: gone");
    let failure = make_rustls_config(&config(true), file(&two_certs()), file("")).unwrap_err();
    assert_eq!(failure.message, "expected a single private key, got 0");
    let failure = make_rustls_config(&config(false), Err("gone".to_string()), file("")).unwrap_err();
    assert_eq!(failure.message, "failed to open /etc/server/cert.pem: gone");
}

#[test]
fn checked_setup_hands_on_chain_and_key() {
    let (certs, key) = check_setup(&config(false), file(&two_certs()), file(&key_pem())).unwrap();
    assert_eq!(certs.len(), 2);
    assert_eq!(key, KEY_DER.to_vec());
}

#[test]
fn valid_setup_builds_a_configuration_with_the_protocols() {
    let made = make_rustls_config(&config(false), file(&two_certs()), file(&key_pem())).unwrap();
    assert_eq!(
        made.alpn_protocols,
        vec![b"h2".to_vec(), b"http/1.1".to_vec(), b"http/1.0".to_vec()]
    );
}

#[test]
fn key_that_the_tls_library_refuses_fails() {
    let not_a_key = pem(&key_label(), &CERT_ONE);
    let failure =
        make_rustls_config(&config(false), file(&two_certs()), file(&not_a_key)).unwrap_err();
    assert_eq!(failure.message, "unexpected error: invalid private key");
}

#[test]
fn protocols_prefer_http2() {
    assert_eq!(
        alpn_protocols(),
        vec![b"h2".to_vec(), b"http/1.1".to_vec(), b"http/1.0".to_vec()]
    );
}
