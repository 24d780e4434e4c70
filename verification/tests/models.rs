use localsend::config::{config_file, generate_tls_identity, key_fingerprint, key_setup, Config, KeySetup};
use localsend::error::LocalSendError;
use localsend::models::{Device, DeviceInfo, DeviceType, FileMetadata, PathFacts, Timestamp};
use localsend::net::{Ipv4Addr, SocketAddrV4};
use localsend::text::{join_path, push_decimal, text_less};
use localsend::textmap::TextMap;
use localsend::{ReceiveRequest, RunningState, DEFAULT_PORT};

fn facts(is_file: bool) -> PathFacts {
    PathFacts {
        is_file,
        size: 1234,
        contents: b"hello".to_vec(),
        modified: Some(Timestamp { secs: 0, nanos: 0 }),
        accessed: Some(Timestamp { secs: 1_700_000_000, nanos: 500_000_000 }),
    }
}

#[test]
fn running_state_defaults_to_running() {
    assert_eq!(RunningState::default(), RunningState::Running);
    assert!(!RunningState::Running.should_stop());
    assert!(RunningState::Stopping.should_stop());
}

#[test]
fn default_device() {
    let d = Device::default();
    assert_eq!(d.alias, "Localsend");
    assert_eq!(d.version, "2.1");
    assert!(d.device_model.is_none());
    assert_eq!(d.device_type, Some(DeviceType::Headless));
    assert_eq!(d.fingerprint.len(), 26);
    assert_eq!(d.port, DEFAULT_PORT);
    assert_eq!(d.port, 53317);
    assert_eq!(d.protocol, "https");
    assert!(!d.download);
    assert_eq!(d.announce, Some(true));
    assert_ne!(Device::default().fingerprint, d.fingerprint);
}

#[test]
fn default_device_info() {
    let d = DeviceInfo::default();
    assert_eq!(d.alias, "RustSend");
    assert_eq!(d.protocol, "http");
    assert_eq!(d.port, 53317);
    assert!(d.download);
    assert_eq!(d.fingerprint.len(), 36);
    assert_eq!(&d.fingerprint[8..9], "-");
}

#[test]
fn text_offer() {
    let m = FileMetadata::from_text("hello").ok().unwrap();
    assert_eq!(m.id.len(), 26);
    assert_eq!(m.file_name, format!("{}.txt", m.id));
    assert_eq!(m.size, 5);
    assert_eq!(m.file_type, "text/plain");
    assert_eq!(
        m.sha256.as_deref(),
        Some("2cf24dba5fb0a30e26e83b2ac5b9e29e1b161e5c1fa7425e73043362938b9824")
    );
    assert_eq!(m.preview.as_deref(), Some("hello"));
    assert!(m.metadata.is_none());
}

#[test]
fn text_offer_counts_bytes() {
    let m = FileMetadata::from_text("π").ok().unwrap();
    assert_eq!(m.size, 2);
}

#[test]
fn file_offer() {
    let m = FileMetadata::from_path("/home/u/docs/report.pdf", facts(true)).ok().unwrap();
    assert_eq!(m.id, "/home/u/docs/report.pdf");
    assert_eq!(m.file_name, "report.pdf");
    assert_eq!(m.size, 1234);
    assert_eq!(m.file_type, "application/pdf");
    assert_eq!(
        m.sha256.as_deref(),
        Some("2cf24dba5fb0a30e26e83b2ac5b9e29e1b161e5c1fa7425e73043362938b9824")
    );
    assert!(m.preview.is_none());
    let ext = m.metadata.unwrap();
    assert_eq!(ext.modified.as_deref(), Some("1970-01-01T00:00:00+00:00"));
    assert_eq!(ext.accessed.as_deref(), Some("2023-11-14T22:13:20.500+00:00"));
}

#[test]
fn file_offer_of_unknown_type() {
    let m = FileMetadata::from_path("notes.qqqqzz", facts(true)).ok().unwrap();
    assert_eq!(m.file_type, "application/octet-stream");
    assert_eq!(m.file_name, "notes.qqqqzz");
}

#[test]
fn directory_is_not_a_file() {
    assert_eq!(FileMetadata::from_path("/tmp", facts(false)).err(), Some(LocalSendError::NotAFile));
}

#[test]
fn file_names_in_id_order() {
    let mut files = TextMap::new();
    for (id, name) in [("b", "second"), ("a", "first"), ("c", "third")] {
        files.insert(
            id.to_string(),
            FileMetadata {
                id: id.to_string(),
                file_name: name.to_string(),
                size: 0,
                file_type: String::new(),
                sha256: None,
                preview: None,
                metadata: None,
            },
        );
    }
    let req = ReceiveRequest { alias: "x".to_string(), files };
    assert_eq!(req.file_names(), vec!["first", "second", "third"]);
}

#[test]
fn text_map_keeps_key_order_and_replaces() {
    let mut m = TextMap::new();
    assert_eq!(m.insert("pear".to_string(), 1), None);
    assert_eq!(m.insert("apple".to_string(), 2), None);
    assert_eq!(m.insert("Zebra".to_string(), 3), None);
    assert_eq!(m.insert("apple".to_string(), 4), Some(2));
    assert_eq!(m.len(), 3);
    assert_eq!(m.key_at(0), "Zebra");
    assert_eq!(m.key_at(1), "apple");
    assert_eq!(m.key_at(2), "pear");
    assert_eq!(m.get("apple"), Some(&4));
    assert_eq!(m.remove("pear"), Some(1));
    assert_eq!(m.remove("pear"), None);
    assert!(!m.contains_key("pear"));
    assert_eq!(m.len(), 2);
}

#[test]
fn text_order_is_code_point_order() {
    assert!(text_less("", "a"));
    assert!(text_less("ab", "abc"));
    assert!(!text_less("abc", "ab"));
    assert!(text_less("B", "a"));
    assert!(text_less("z", "é"));
    assert!(!text_less("same", "same"));
}

#[test]
fn decimals() {
    let mut s = String::new();
    push_decimal(&mut s, 0);
    s.push(' ');
    push_decimal(&mut s, 18446744073709551615);
    s.push(' ');
    push_decimal(&mut s, 42);
    assert_eq!(s, "0 18446744073709551615 42");
}

#[test]
fn paths() {
    assert_eq!(join_path("/data", "key.pem"), "/data/key.pem");
    assert_eq!(join_path("/data/", "key.pem"), "/data/key.pem");
    assert_eq!(join_path("", "key.pem"), "key.pem");
    assert_eq!(config_file("/home/u/.config"), "/home/u/.config/localsend.toml");
}

#[test]
fn ssl_paths_in_data_dir() {
    let c = Config::from_dirs(
        "/home/u",
        "/home/u/.local/share",
        Ipv4Addr::new(192, 168, 1, 5),
        "host".to_string(),
        "fp".to_string(),
    );
    assert_eq!(c.download_dir, "/home/u/localsend-downloads");
    assert_eq!(c.data_dir, "/home/u/.local/share/localsend");
    let (key, cert) = c.ssl();
    assert_eq!(key, "/home/u/.local/share/localsend/key.pem");
    assert_eq!(cert, "/home/u/.local/share/localsend/cert.pem");
    assert_eq!(c.device.alias, "host");
    assert_eq!(c.device.fingerprint, "fp");
    assert_eq!(c.multicast_addr, SocketAddrV4::new(Ipv4Addr::new(224, 0, 0, 167), 53317));
}

#[test]
fn config_without_dirs() {
    let c = Config::with_local_ip(Ipv4Addr::new(0, 0, 0, 0));
    assert_eq!(c.download_dir, "");
    assert_eq!(c.local_ip_addr, Ipv4Addr::new(0, 0, 0, 0));
    assert_eq!(c.device.fingerprint.len(), 26);
}

#[test]
fn key_setup_cases() {
    assert_eq!(key_setup(false, true, true), KeySetup::CreateDirAndGenerate);
    assert_eq!(key_setup(true, false, true), KeySetup::Generate);
    assert_eq!(key_setup(true, true, false), KeySetup::Generate);
    assert_eq!(key_setup(true, true, true), KeySetup::ReuseKey);
}

#[test]
fn key_fingerprint_is_sha256_hex() {
    assert_eq!(
        key_fingerprint(b"hello"),
        "2cf24dba5fb0a30e26e83b2ac5b9e29e1b161e5c1fa7425e73043362938b9824"
    );
}

#[test]
fn socket_text() {
    let a = SocketAddrV4::new(Ipv4Addr::new(255, 0, 10, 1), 65535);
    assert_eq!(a.to_text(), "255.0.10.1:65535");
    let mut b = a;
    b.set_port(80);
    assert_eq!(b.to_text(), "255.0.10.1:80");
}

#[test]
fn tls_identity_fingerprint_is_the_digest_of_its_key() {
    let id = generate_tls_identity().ok().unwrap();
    assert!(id.key_pem.contains("PRIVATE KEY"));
    assert!(id.cert_pem.contains("CERTIFICATE"));
    assert_eq!(id.fingerprint, key_fingerprint(id.key_pem.as_bytes()));
    assert_eq!(id.fingerprint.len(), 64);
    let again = generate_tls_identity().ok().unwrap();
    assert_ne!(again.fingerprint, id.fingerprint);
}
