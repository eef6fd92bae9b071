use filehost::errors::SSLError;
use filehost::ssl::{find_key, PemItem, SSLConfig, SourceFile};
use std::sync::Arc;

const SERVER_CERT: [u8; 364] = [
    48, 130, 1, 104, 48, 130, 1, 14, 160, 3, 2, 1, 2, 2, 20, 125, 114, 29, 139, 49, 82, 139, 112,
    109, 11, 245, 226, 218, 0, 207, 52, 24, 41, 243, 229, 48, 10, 6, 8, 42, 134, 72, 206, 61, 4, 3,
    2, 48, 31, 49, 29, 48, 27, 6, 3, 85, 4, 3, 12, 20, 102, 105, 108, 101, 104, 111, 115, 116, 32,
    116, 101, 115, 116, 32, 115, 101, 114, 118, 101, 114, 48, 32, 23, 13, 50, 48, 48, 49, 48, 49,
    48, 48, 48, 48, 48, 48, 90, 24, 15, 50, 49, 50, 48, 48, 49, 48, 49, 48, 48, 48, 48, 48, 48, 90,
    48, 31, 49, 29, 48, 27, 6, 3, 85, 4, 3, 12, 20, 102, 105, 108, 101, 104, 111, 115, 116, 32, 116,
    101, 115, 116, 32, 115, 101, 114, 118, 101, 114, 48, 89, 48, 19, 6, 7, 42, 134, 72, 206, 61, 2,
    1, 6, 8, 42, 134, 72, 206, 61, 3, 1, 7, 3, 66, 0, 4, 130, 234, 84, 161, 201, 221, 35, 124, 65,
    242, 147, 8, 124, 213, 113, 86, 71, 75, 124, 175, 187, 241, 149, 208, 229, 44, 111, 200, 9, 70,
    29, 239, 213, 231, 168, 37, 196, 59, 84, 232, 219, 243, 179, 20, 136, 185, 122, 19, 59, 37, 123,
    197, 93, 5, 52, 14, 113, 12, 212, 195, 121, 195, 81, 167, 163, 38, 48, 36, 48, 12, 6, 3, 85, 29,
    19, 1, 1, 255, 4, 2, 48, 0, 48, 20, 6, 3, 85, 29, 17, 4, 13, 48, 11, 130, 9, 108, 111, 99, 97,
    108, 104, 111, 115, 116, 48, 10, 6, 8, 42, 134, 72, 206, 61, 4, 3, 2, 3, 72, 0, 48, 69, 2, 32,
    68, 125, 174, 180, 171, 210, 137, 96, 167, 6, 72, 85, 93, 191, 162, 105, 46, 71, 127, 255, 182,
    27, 193, 56, 210, 119, 183, 69, 26, 213, 101, 70, 2, 33, 0, 170, 238, 66, 0, 182, 37, 141, 188,
    166, 203, 47, 189, 202, 115, 173, 110, 159, 77, 228, 77, 128, 201, 136, 115, 46, 102, 131, 15,
    76, 22, 25, 65,
];

const SERVER_KEY_PKCS8: [u8; 138] = [
    48, 129, 135, 2, 1, 0, 48, 19, 6, 7, 42, 134, 72, 206, 61, 2, 1, 6, 8, 42, 134, 72, 206, 61, 3,
    1, 7, 4, 109, 48, 107, 2, 1, 1, 4, 32, 26, 144, 252, 0, 194, 59, 88, 4, 30, 213, 39, 118, 153,
    34, 48, 143, 59, 168, 218, 102, 73, 63, 233, 104, 248, 93, 26, 158, 65, 195, 50, 254, 161, 68,
    3, 66, 0, 4, 130, 234, 84, 161, 201, 221, 35, 124, 65, 242, 147, 8, 124, 213, 113, 86, 71, 75,
    124, 175, 187, 241, 149, 208, 229, 44, 111, 200, 9, 70, 29, 239, 213, 231, 168, 37, 196, 59, 84,
    232, 219, 243, 179, 20, 136, 185, 122, 19, 59, 37, 123, 197, 93, 5, 52, 14, 113, 12, 212, 195,
    121, 195, 81, 167,
];

const SERVER_KEY_SEC1: [u8; 121] = [
    48, 119, 2, 1, 1, 4, 32, 26, 144, 252, 0, 194, 59, 88, 4, 30, 213, 39, 118, 153, 34, 48, 143,
    59, 168, 218, 102, 73, 63, 233, 104, 248, 93, 26, 158, 65, 195, 50, 254, 160, 10, 6, 8, 42, 134,
    72, 206, 61, 3, 1, 7, 161, 68, 3, 66, 0, 4, 130, 234, 84, 161, 201, 221, 35, 124, 65, 242, 147,
    8, 124, 213, 113, 86, 71, 75, 124, 175, 187, 241, 149, 208, 229, 44, 111, 200, 9, 70, 29, 239,
    213, 231, 168, 37, 196, 59, 84, 232, 219, 243, 179, 20, 136, 185, 122, 19, 59, 37, 123, 197, 93,
    5, 52, 14, 113, 12, 212, 195, 121, 195, 81, 167,
];

const ALICE_CERT: [u8; 311] = [
    48, 130, 1, 51, 48, 129, 218, 160, 3, 2, 1, 2, 2, 20, 124, 210, 19, 93, 146, 85, 210, 38, 102,
    220, 164, 38, 184, 87, 132, 176, 66, 218, 230, 41, 48, 10, 6, 8, 42, 134, 72, 206, 61, 4, 3, 2,
    48, 16, 49, 14, 48, 12, 6, 3, 85, 4, 3, 12, 5, 97, 108, 105, 99, 101, 48, 32, 23, 13, 50, 48,
    48, 49, 48, 49, 48, 48, 48, 48, 48, 48, 90, 24, 15, 50, 49, 50, 48, 48, 49, 48, 49, 48, 48, 48,
    48, 48, 48, 90, 48, 16, 49, 14, 48, 12, 6, 3, 85, 4, 3, 12, 5, 97, 108, 105, 99, 101, 48, 89,
    48, 19, 6, 7, 42, 134, 72, 206, 61, 2, 1, 6, 8, 42, 134, 72, 206, 61, 3, 1, 7, 3, 66, 0, 4, 65,
    148, 106, 46, 148, 177, 52, 170, 153, 143, 51, 104, 6, 111, 53, 199, 50, 200, 196, 190, 81, 23,
    130, 104, 155, 194, 194, 191, 140, 85, 191, 123, 92, 119, 194, 32, 185, 58, 162, 27, 214, 172,
    203, 32, 197, 52, 157, 83, 191, 59, 187, 191, 120, 122, 70, 24, 167, 90, 157, 121, 245, 50, 74,
    172, 163, 16, 48, 14, 48, 12, 6, 3, 85, 29, 19, 1, 1, 255, 4, 2, 48, 0, 48, 10, 6, 8, 42, 134,
    72, 206, 61, 4, 3, 2, 3, 72, 0, 48, 69, 2, 32, 114, 14, 150, 205, 80, 13, 205, 67, 82, 39, 40,
    185, 172, 65, 104, 32, 69, 77, 253, 22, 248, 248, 203, 186, 240, 13, 147, 167, 244, 137, 31,
    207, 2, 33, 0, 139, 40, 84, 52, 57, 174, 141, 191, 171, 217, 163, 39, 83, 54, 25, 1, 23, 247,
    189, 4, 189, 4, 150, 113, 71, 139, 252, 47, 25, 198, 105, 105,
];

const ALICE_KEY: [u8; 138] = [
    48, 129, 135, 2, 1, 0, 48, 19, 6, 7, 42, 134, 72, 206, 61, 2, 1, 6, 8, 42, 134, 72, 206, 61, 3,
    1, 7, 4, 109, 48, 107, 2, 1, 1, 4, 32, 229, 212, 122, 20, 195, 17, 156, 174, 44, 255, 148, 141,
    48, 133, 254, 230, 254, 242, 66, 208, 168, 67, 13, 6, 207, 76, 116, 179, 161, 176, 221, 55, 161,
    68, 3, 66, 0, 4, 65, 148, 106, 46, 148, 177, 52, 170, 153, 143, 51, 104, 6, 111, 53, 199, 50,
    200, 196, 190, 81, 23, 130, 104, 155, 194, 194, 191, 140, 85, 191, 123, 92, 119, 194, 32, 185,
    58, 162, 27, 214, 172, 203, 32, 197, 52, 157, 83, 191, 59, 187, 191, 120, 122, 70, 24, 167, 90,
    157, 121, 245, 50, 74, 172,
];

const ROOT_CERT: [u8; 310] = [
    48, 130, 1, 50, 48, 129, 216, 160, 3, 2, 1, 2, 2, 20, 47, 216, 134, 222, 51, 115, 227, 38, 129,
    187, 148, 158, 111, 79, 67, 51, 1, 170, 17, 103, 48, 10, 6, 8, 42, 134, 72, 206, 61, 4, 3, 2,
    48, 15, 49, 13, 48, 11, 6, 3, 85, 4, 3, 12, 4, 114, 111, 111, 116, 48, 32, 23, 13, 50, 48, 48,
    49, 48, 49, 48, 48, 48, 48, 48, 48, 90, 24, 15, 50, 49, 50, 48, 48, 49, 48, 49, 48, 48, 48, 48,
    48, 48, 90, 48, 15, 49, 13, 48, 11, 6, 3, 85, 4, 3, 12, 4, 114, 111, 111, 116, 48, 89, 48, 19,
    6, 7, 42, 134, 72, 206, 61, 2, 1, 6, 8, 42, 134, 72, 206, 61, 3, 1, 7, 3, 66, 0, 4, 251, 249,
    141, 226, 221, 99, 134, 22, 233, 35, 240, 104, 145, 241, 166, 255, 224, 223, 88, 54, 183, 153,
    17, 219, 157, 239, 228, 186, 83, 150, 174, 125, 187, 11, 198, 208, 102, 157, 251, 109, 204, 99,
    149, 214, 60, 38, 111, 233, 161, 196, 196, 168, 102, 39, 180, 179, 204, 237, 163, 193, 180, 253,
    92, 149, 163, 16, 48, 14, 48, 12, 6, 3, 85, 29, 19, 1, 1, 255, 4, 2, 48, 0, 48, 10, 6, 8, 42,
    134, 72, 206, 61, 4, 3, 2, 3, 73, 0, 48, 70, 2, 33, 0, 133, 6, 250, 173, 134, 142, 2, 101, 177,
    178, 236, 39, 99, 111, 160, 228, 249, 181, 209, 112, 54, 153, 58, 40, 133, 108, 230, 24, 202,
    203, 197, 27, 2, 33, 0, 184, 255, 115, 227, 240, 242, 62, 79, 17, 15, 122, 65, 116, 173, 177,
    237, 67, 122, 127, 226, 230, 89, 158, 84, 126, 40, 2, 57, 229, 30, 60, 24,
];

const MALLORY_CERT: [u8; 314] = [
    48, 130, 1, 54, 48, 129, 222, 160, 3, 2, 1, 2, 2, 20, 95, 166, 123, 179, 110, 41, 48, 82, 77,
    190, 147, 180, 192, 47, 32, 26, 71, 237, 188, 209, 48, 10, 6, 8, 42, 134, 72, 206, 61, 4, 3, 2,
    48, 18, 49, 16, 48, 14, 6, 3, 85, 4, 3, 12, 7, 109, 97, 108, 108, 111, 114, 121, 48, 32, 23, 13,
    50, 48, 48, 49, 48, 49, 48, 48, 48, 48, 48, 48, 90, 24, 15, 50, 49, 50, 48, 48, 49, 48, 49, 48,
    48, 48, 48, 48, 48, 90, 48, 18, 49, 16, 48, 14, 6, 3, 85, 4, 3, 12, 7, 109, 97, 108, 108, 111,
    114, 121, 48, 89, 48, 19, 6, 7, 42, 134, 72, 206, 61, 2, 1, 6, 8, 42, 134, 72, 206, 61, 3, 1, 7,
    3, 66, 0, 4, 54, 153, 77, 193, 102, 247, 225, 98, 87, 136, 241, 216, 42, 24, 138, 155, 149, 253,
    160, 157, 235, 164, 59, 157, 189, 37, 183, 80, 159, 144, 52, 233, 88, 222, 213, 69, 174, 149,
    25, 227, 7, 168, 172, 37, 178, 45, 185, 105, 19, 20, 70, 244, 49, 152, 117, 49, 252, 175, 107,
    145, 34, 142, 237, 230, 163, 16, 48, 14, 48, 12, 6, 3, 85, 29, 19, 1, 1, 255, 4, 2, 48, 0, 48,
    10, 6, 8, 42, 134, 72, 206, 61, 4, 3, 2, 3, 71, 0, 48, 68, 2, 32, 124, 92, 19, 97, 68, 6, 238,
    169, 137, 59, 58, 8, 18, 107, 232, 209, 241, 115, 124, 71, 7, 30, 69, 48, 153, 71, 127, 167, 23,
    136, 156, 238, 2, 32, 106, 128, 228, 217, 150, 244, 241, 60, 19, 51, 26, 46, 10, 3, 78, 55, 174,
    56, 96, 137, 22, 40, 88, 91, 49, 250, 187, 54, 41, 99, 186, 23,
];

const MALLORY_KEY: [u8; 138] = [
    48, 129, 135, 2, 1, 0, 48, 19, 6, 7, 42, 134, 72, 206, 61, 2, 1, 6, 8, 42, 134, 72, 206, 61, 3,
    1, 7, 4, 109, 48, 107, 2, 1, 1, 4, 32, 222, 74, 124, 145, 83, 239, 164, 205, 49, 198, 6, 148,
    250, 216, 59, 24, 220, 227, 74, 233, 2, 236, 156, 0, 163, 101, 226, 61, 40, 209, 170, 233, 161,
    68, 3, 66, 0, 4, 54, 153, 77, 193, 102, 247, 225, 98, 87, 136, 241, 216, 42, 24, 138, 155, 149,
    253, 160, 157, 235, 164, 59, 157, 189, 37, 183, 80, 159, 144, 52, 233, 88, 222, 213, 69, 174,
    149, 25, 227, 7, 168, 172, 37, 178, 45, 185, 105, 19, 20, 70, 244, 49, 152, 117, 49, 252, 175,
    107, 145, 34, 142, 237, 230,
];

fn base64(bytes: &[u8]) -> String {
    let alphabet = b"ABCDEFGHIJKLMNOPQRSTUVWXYZabcdefghijklmnopqrstuvwxyz0123456789+/";
    let mut out = String::new();
    for chunk in bytes.chunks(3) {
        let b = [chunk[0], *chunk.get(1).unwrap_or(&0), *chunk.get(2).unwrap_or(&0)];
        let n = ((b[0] as u32) << 16) | ((b[1] as u32) << 8) | (b[2] as u32);
        out.push(alphabet[(n >> 18) as usize & 63] as char);
        out.push(alphabet[(n >> 12) as usize & 63] as char);
        out.push(if chunk.len() > 1 { alphabet[(n >> 6) as usize & 63] as char } else { '=' });
        out.push(if chunk.len() > 2 { alphabet[n as usize & 63] as char } else { '=' });
    }
    out
}

fn pem(label: &str, der: &[u8]) -> Vec<u8> {
    let encoded = base64(der);
    let mut out = format!("-----BEGIN {}-----\n", label);
    for line in encoded.as_bytes().chunks(64) {
        out.push_str(std::str::from_utf8(line).unwrap());
        out.push('\n');
    }
    out.push_str(&format!("-----END {}-----\n", label));
    out.into_bytes()
}

/// A section whose content is no base64.
fn broken(label: &str) -> Vec<u8> {
    format!("-----BEGIN {}-----\n!!! no base64 !!!\n-----END {}-----\n", label, label).into_bytes()
}

/// A section without its last line.
fn unfinished(label: &str) -> Vec<u8> {
    format!("-----BEGIN {}-----\nAAAA\n", label).into_bytes()
}

fn cert_pem(der: &[u8]) -> Vec<u8> {
    pem("CERTIFICATE", der)
}

fn key_pem(der: &[u8]) -> Vec<u8> {
    pem("PRIVATE KEY", der)
}

fn file(path: &str, content: Vec<u8>) -> SourceFile {
    SourceFile { path: path.to_string(), content: Ok(content) }
}

fn unopened(path: &str) -> SourceFile {
    SourceFile {
        path: path.to_string(),
        content: Err(std::io::Error::new(std::io::ErrorKind::NotFound, "no such file")),
    }
}

fn server_cert() -> SourceFile {
    file("/tls/server.crt", cert_pem(&SERVER_CERT))
}

fn server_key() -> SourceFile {
    file("/tls/server.key", key_pem(&SERVER_KEY_PKCS8))
}

fn user_files() -> Vec<SourceFile> {
    vec![file("/certs/root.pem", cert_pem(&ROOT_CERT)), file("/certs/alice.pem", cert_pem(&ALICE_CERT))]
}

fn failure(result: Result<SSLConfig, SSLError>) -> SSLError {
    match result {
        Ok(_) => panic!("the context was built"),
        Err(err) => err,
    }
}

fn client(identity: Option<(&[u8], &[u8])>) -> Arc<rustls::ClientConfig> {
    let mut roots = rustls::RootCertStore::empty();
    roots.add(&rustls::Certificate(SERVER_CERT.to_vec())).unwrap();
    let builder = rustls::ClientConfig::builder().with_safe_defaults().with_root_certificates(roots);
    let config = match identity {
        Some((cert, key)) => builder
            .with_single_cert(vec![rustls::Certificate(cert.to_vec())], rustls::PrivateKey(key.to_vec()))
            .unwrap(),
        None => builder.with_no_client_auth(),
    };
    Arc::new(config)
}

fn shake_hands(
    server: Arc<rustls::ServerConfig>,
    client: Arc<rustls::ClientConfig>,
) -> Result<(rustls::ClientConnection, rustls::ServerConnection), rustls::Error> {
    let mut c = rustls::ClientConnection::new(client, "localhost".try_into().unwrap())?;
    let mut s = rustls::ServerConnection::new(server)?;
    for _ in 0..32 {
        if !c.is_handshaking() && !s.is_handshaking() {
            return Ok((c, s));
        }
        while c.wants_write() {
            let mut wire = Vec::new();
            c.write_tls(&mut wire).unwrap();
            s.read_tls(&mut &wire[..]).unwrap();
            s.process_new_packets()?;
        }
        while s.wants_write() {
            let mut wire = Vec::new();
            s.write_tls(&mut wire).unwrap();
            c.read_tls(&mut &wire[..]).unwrap();
            c.process_new_packets()?;
        }
    }
    Err(rustls::Error::General("the handshake did not end".to_string()))
}

#[test]
fn a_section_holds_a_key_or_none() {
    assert_eq!(PemItem::RSAKey(vec![1]).into_key(), Some(vec![1]));
    assert_eq!(PemItem::PKCS8Key(vec![2, 3]).into_key(), Some(vec![2, 3]));
    assert_eq!(PemItem::ECKey(vec![]).into_key(), Some(vec![]));
    assert_eq!(PemItem::X509Certificate(vec![4]).into_key(), None);
    assert_eq!(PemItem::Crl(vec![5]).into_key(), None);
    assert_eq!(PemItem::Other.into_key(), None);
}

#[test]
fn find_key_finds_a_pkcs8_key() {
    assert_eq!(find_key("/k", &key_pem(&SERVER_KEY_PKCS8)).unwrap(), SERVER_KEY_PKCS8.to_vec());
}

#[test]
fn find_key_finds_an_elliptic_curve_key() {
    let text = pem("EC PRIVATE KEY", &SERVER_KEY_SEC1);
    assert_eq!(find_key("/k", &text).unwrap(), SERVER_KEY_SEC1.to_vec());
}

#[test]
fn find_key_finds_an_rsa_key() {
    let text = pem("RSA PRIVATE KEY", &[1, 2, 3, 4, 5]);
    assert_eq!(find_key("/k", &text).unwrap(), vec![1, 2, 3, 4, 5]);
}

#[test]
fn find_key_passes_over_what_is_no_key() {
    let mut text = b"some words in front\n".to_vec();
    text.extend(cert_pem(&SERVER_CERT));
    text.extend(pem("X509 CRL", &[9, 9, 9]));
    text.extend(pem("SOMETHING ELSE", &[8, 8]));
    text.extend(cert_pem(&ALICE_CERT));
    text.extend(pem("EC PRIVATE KEY", &SERVER_KEY_SEC1));
    text.extend(key_pem(&SERVER_KEY_PKCS8));
    assert_eq!(find_key("/k", &text).unwrap(), SERVER_KEY_SEC1.to_vec());
}

#[test]
fn find_key_takes_the_first_of_several_keys() {
    let mut text = key_pem(&ALICE_KEY);
    text.extend(key_pem(&SERVER_KEY_PKCS8));
    assert_eq!(find_key("/k", &text).unwrap(), ALICE_KEY.to_vec());
}

#[test]
fn find_key_does_not_read_behind_the_first_key() {
    let mut text = key_pem(&SERVER_KEY_PKCS8);
    text.extend(broken("PRIVATE KEY"));
    assert_eq!(find_key("/k", &text).unwrap(), SERVER_KEY_PKCS8.to_vec());
}

#[test]
fn find_key_fails_where_there_is_no_key() {
    for text in [Vec::new(), b"no pem at all\n".to_vec(), cert_pem(&SERVER_CERT)] {
        match find_key("/tls/server.key", &text) {
            Err(SSLError::NoKeysFound { path }) => assert_eq!(path, "/tls/server.key"),
            other => panic!("{:?}", other),
        }
    }
}

#[test]
fn find_key_fails_on_a_section_that_cannot_be_read() {
    let mut behind_a_cert = cert_pem(&SERVER_CERT);
    behind_a_cert.extend(unfinished("PRIVATE KEY"));
    for text in [broken("PRIVATE KEY"), unfinished("PRIVATE KEY"), behind_a_cert] {
        match find_key("/tls/server.key", &text) {
            Err(SSLError::KeyParseError { path, err }) => {
                assert_eq!(path, "/tls/server.key");
                assert_eq!(err.kind(), std::io::ErrorKind::InvalidData);
            }
            other => panic!("{:?}", other),
        }
    }
}

#[test]
fn new_builds_a_context_that_admits_a_client_without_a_certificate() {
    let ssl = SSLConfig::new(server_cert(), server_key(), user_files()).unwrap();
    let (c, s) = shake_hands(ssl.config.clone(), client(None)).unwrap();
    assert_eq!(s.peer_certificates(), None);
    assert_eq!(c.peer_certificates().unwrap(), &[rustls::Certificate(SERVER_CERT.to_vec())]);
}

#[test]
fn new_builds_a_context_that_knows_the_certificate_of_a_user() {
    let ssl = SSLConfig::new(server_cert(), server_key(), user_files()).unwrap();
    let (_, s) = shake_hands(ssl.config.clone(), client(Some((&ALICE_CERT, &ALICE_KEY)))).unwrap();
    assert_eq!(s.peer_certificates().unwrap(), &[rustls::Certificate(ALICE_CERT.to_vec())]);
}

#[test]
fn new_builds_a_context_that_refuses_the_certificate_of_a_stranger() {
    let ssl = SSLConfig::new(server_cert(), server_key(), user_files()).unwrap();
    assert!(shake_hands(ssl.config.clone(), client(Some((&MALLORY_CERT, &MALLORY_KEY)))).is_err());
}

#[test]
fn new_trusts_only_the_files_it_is_given() {
    let only_root = vec![file("/certs/root.pem", cert_pem(&ROOT_CERT))];
    let ssl = SSLConfig::new(server_cert(), server_key(), only_root).unwrap();
    assert!(shake_hands(ssl.config.clone(), client(Some((&ALICE_CERT, &ALICE_KEY)))).is_err());
    assert!(shake_hands(ssl.config.clone(), client(None)).is_ok());
    let ssl = SSLConfig::new(server_cert(), server_key(), Vec::new()).unwrap();
    assert!(shake_hands(ssl.config.clone(), client(Some((&ALICE_CERT, &ALICE_KEY)))).is_err());
    assert!(shake_hands(ssl.config.clone(), client(None)).is_ok());
}

#[test]
fn new_trusts_every_certificate_of_a_file() {
    let mut both = cert_pem(&ROOT_CERT);
    both.extend(cert_pem(&ALICE_CERT));
    let ssl = SSLConfig::new(server_cert(), server_key(), vec![file("/certs/both.pem", both)]).unwrap();
    let (_, s) = shake_hands(ssl.config.clone(), client(Some((&ALICE_CERT, &ALICE_KEY)))).unwrap();
    assert_eq!(s.peer_certificates().unwrap(), &[rustls::Certificate(ALICE_CERT.to_vec())]);
}

#[test]
fn new_keeps_the_order_of_the_chain() {
    let mut chain = cert_pem(&SERVER_CERT);
    chain.extend(cert_pem(&ROOT_CERT));
    chain.extend(cert_pem(&ALICE_CERT));
    let ssl = SSLConfig::new(file("/tls/server.crt", chain), server_key(), user_files()).unwrap();
    let (c, _) = shake_hands(ssl.config.clone(), client(None)).unwrap();
    assert_eq!(
        c.peer_certificates().unwrap(),
        &[
            rustls::Certificate(SERVER_CERT.to_vec()),
            rustls::Certificate(ROOT_CERT.to_vec()),
            rustls::Certificate(ALICE_CERT.to_vec()),
        ]
    );
}

#[test]
fn new_takes_an_elliptic_curve_key_too() {
    let key = file("/tls/server.key", pem("EC PRIVATE KEY", &SERVER_KEY_SEC1));
    let ssl = SSLConfig::new(server_cert(), key, user_files()).unwrap();
    assert!(shake_hands(ssl.config.clone(), client(None)).is_ok());
}

#[test]
fn new_builds_a_context_without_a_chain() {
    assert!(SSLConfig::new(file("/tls/server.crt", Vec::new()), server_key(), user_files()).is_ok());
}

#[test]
fn new_fails_on_server_certificates_that_were_not_opened() {
    match failure(SSLConfig::new(unopened("/tls/server.crt"), server_key(), user_files())) {
        SSLError::CertOpenError { path, err } => {
            assert_eq!(path, "/tls/server.crt");
            assert_eq!(err.kind(), std::io::ErrorKind::NotFound);
        }
        other => panic!("{:?}", other),
    }
}

#[test]
fn new_fails_on_server_certificates_that_are_no_pem() {
    let text = broken("CERTIFICATE");
    match failure(SSLConfig::new(file("/tls/server.crt", text), server_key(), user_files())) {
        SSLError::CertParseError { path, .. } => assert_eq!(path, "/tls/server.crt"),
        other => panic!("{:?}", other),
    }
}

#[test]
fn new_fails_on_a_key_that_was_not_opened() {
    match failure(SSLConfig::new(server_cert(), unopened("/tls/server.key"), user_files())) {
        SSLError::KeyOpenError { path, .. } => assert_eq!(path, "/tls/server.key"),
        other => panic!("{:?}", other),
    }
}

#[test]
fn new_fails_on_a_key_file_without_a_key() {
    let no_key = file("/tls/server.key", cert_pem(&SERVER_CERT));
    match failure(SSLConfig::new(server_cert(), no_key, user_files())) {
        SSLError::NoKeysFound { path } => assert_eq!(path, "/tls/server.key"),
        other => panic!("{:?}", other),
    }
}

#[test]
fn new_fails_on_a_key_file_that_is_no_pem() {
    let key = file("/tls/server.key", unfinished("PRIVATE KEY"));
    match failure(SSLConfig::new(server_cert(), key, user_files())) {
        SSLError::KeyParseError { path, .. } => assert_eq!(path, "/tls/server.key"),
        other => panic!("{:?}", other),
    }
}

#[test]
fn new_fails_on_certificates_of_a_user_that_were_not_opened() {
    let users = vec![
        file("/certs/root.pem", cert_pem(&ROOT_CERT)),
        unopened("/certs/alice.pem"),
        unopened("/certs/bob.pem"),
    ];
    match failure(SSLConfig::new(server_cert(), server_key(), users)) {
        SSLError::CertOpenError { path, .. } => assert_eq!(path, "/certs/alice.pem"),
        other => panic!("{:?}", other),
    }
}

#[test]
fn new_fails_on_certificates_of_a_user_that_are_no_pem() {
    let text = broken("CERTIFICATE");
    let users = vec![file("/certs/root.pem", cert_pem(&ROOT_CERT)), file("/certs/alice.pem", text)];
    match failure(SSLConfig::new(server_cert(), server_key(), users)) {
        SSLError::CertParseError { path, .. } => assert_eq!(path, "/certs/alice.pem"),
        other => panic!("{:?}", other),
    }
}

#[test]
fn new_fails_on_a_certificate_of_a_user_that_is_no_certificate() {
    let users = vec![
        file("/certs/root.pem", cert_pem(&ROOT_CERT)),
        file("/certs/alice.pem", cert_pem(&[1, 2, 3, 4])),
    ];
    assert!(matches!(
        failure(SSLConfig::new(server_cert(), server_key(), users)),
        SSLError::CertAddError { .. }
    ));
}

#[test]
fn new_fails_on_a_key_that_is_no_key() {
    let key = file("/tls/server.key", key_pem(&[1, 2, 3, 4]));
    assert!(matches!(
        failure(SSLConfig::new(server_cert(), key, user_files())),
        SSLError::ConfigError { .. }
    ));
}

#[test]
fn new_fails_on_the_first_step_that_fails() {
    let err = failure(SSLConfig::new(
        unopened("/tls/server.crt"),
        unopened("/tls/server.key"),
        vec![unopened("/certs/alice.pem")],
    ));
    assert!(matches!(err, SSLError::CertOpenError { path, .. } if path == "/tls/server.crt"));
    let err = failure(SSLConfig::new(
        server_cert(),
        unopened("/tls/server.key"),
        vec![unopened("/certs/alice.pem")],
    ));
    assert!(matches!(err, SSLError::KeyOpenError { path, .. } if path == "/tls/server.key"));
    let err = failure(SSLConfig::new(
        server_cert(),
        file("/tls/server.key", key_pem(&[1, 2, 3, 4])),
        vec![unopened("/certs/alice.pem")],
    ));
    assert!(matches!(err, SSLError::CertOpenError { path, .. } if path == "/certs/alice.pem"));
}
