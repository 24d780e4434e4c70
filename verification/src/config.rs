//! The configuration of a device: where it keeps its files and how it
//! presents itself.
use vstd::prelude::*;
use crate::discovery::multicast_ip;
use crate::ids::{is_julid_text, sha256_digest, sha256_hex};
use crate::models::{default_device_but_fingerprint, Device};
use crate::net::{Ipv4Addr, SocketAddrV4};
use crate::text::{join_path, path_join};
use crate::DEFAULT_PORT;
use crate::error::LocalSendError;
use vstd::utf8::encode_utf8;

verus! {

/// The configuration of a device.
#[derive(Debug)]
pub struct Config {
    pub multicast_addr: SocketAddrV4,
    pub download_dir: String,
    pub data_dir: String,
    pub local_ip_addr: Ipv4Addr,
    pub device: Device,
}

/// The protocol's multicast group on the default port.
pub open spec fn default_multicast_addr() -> SocketAddrV4 {
    SocketAddrV4 { ip: Ipv4Addr { a: 224, b: 0, c: 0, d: 167 }, port: DEFAULT_PORT }
}

/// How the TLS key of a device comes about at start: a new key where the data
/// directory or either file is missing (creating the directory first where
/// it is missing), else the key on disk, whose digest is the fingerprint.
#[derive(Debug, Clone, Copy, PartialEq, Eq, Structural)]
pub enum KeySetup {
    CreateDirAndGenerate,
    Generate,
    ReuseKey,
}

/// The way the key comes about, from what exists on disk.
pub fn key_setup(data_dir_exists: bool, key_exists: bool, cert_exists: bool) -> (k: KeySetup)
    ensures
        !data_dir_exists ==> k == KeySetup::CreateDirAndGenerate,
        data_dir_exists && !(key_exists && cert_exists) ==> k == KeySetup::Generate,
        data_dir_exists && key_exists && cert_exists ==> k == KeySetup::ReuseKey,
{
    if data_dir_exists {
        if !(key_exists && cert_exists) {
            KeySetup::Generate
        } else {
            KeySetup::ReuseKey
        }
    } else {
        KeySetup::CreateDirAndGenerate
    }
}

/// The fingerprint of a device whose TLS key, in PEM, is `key`: its SHA-256
/// digest in lowercase hexadecimal.
pub fn key_fingerprint(key: &[u8]) -> (f: String)
    ensures
        f@ == sha256_hex(key@),
{
    sha256_digest(key)
}

/// A TLS identity: a self-signed certificate and its key, in PEM, and the
/// fingerprint the device announces.
#[derive(Debug)]
pub struct TlsIdentity {
    pub cert_pem: String,
    pub key_pem: String,
    pub fingerprint: String,
}

/// `rcgen::generate_simple_self_signed(names)`: a new key pair and a
/// certificate for `names` signed by it, both in PEM, or the text of rcgen's
/// error. The key is random, so nothing is stated of either text.
#[verifier::external_body]
fn self_signed_pem(names: Vec<String>) -> (r: core::result::Result<(String, String), String>) {
    match rcgen::generate_simple_self_signed(names) {
        Ok(certified) => Ok((certified.cert.pem(), certified.signing_key.serialize_pem())),
        Err(e) => Err(e.to_string()),
    }
}

/// The host names a device's certificate is made for: any (`*`).
pub fn tls_names() -> (names: Vec<String>)
    ensures
        names@.len() == 1,
        names@[0]@ == "*"@,
{
    let mut names: Vec<String> = Vec::new();
    names.push(String::from_str("*"));
    names
}

/// The identity made of what rcgen handed back: the certificate and key as
/// generated, with the digest of the key as the fingerprint; or, where rcgen
/// failed, `SslGenFail` with its message.
pub fn tls_identity(generated: core::result::Result<(String, String), String>) -> (r:
    core::result::Result<TlsIdentity, LocalSendError>)
    ensures
        generated matches Ok(pems) ==> (r matches Ok(id) && id.cert_pem@ == pems.0@ && id.key_pem@
            == pems.1@ && id.fingerprint@ == sha256_hex(encode_utf8(pems.1@))),
        generated matches Err(message) ==> r == Err::<TlsIdentity, LocalSendError>(
            LocalSendError::SslGenFail(message),
        ),
{
    match generated {
        Ok((cert_pem, key_pem)) => {
            let fingerprint = key_fingerprint(key_pem.as_str().as_bytes());
            Ok(TlsIdentity { cert_pem, key_pem, fingerprint })
        },
        Err(message) => Err(LocalSendError::SslGenFail(message)),
    }
}

/// A new self-signed identity for any host name (`*`), whose fingerprint is
/// the digest of its key; or `SslGenFail` where rcgen fails.
pub fn generate_tls_identity() -> (r: core::result::Result<TlsIdentity, LocalSendError>)
    ensures
        r matches Ok(id) ==> id.fingerprint@ == sha256_hex(encode_utf8(id.key_pem@)),
        r matches Err(e) ==> e is SslGenFail,
{
    tls_identity(self_signed_pem(tls_names()))
}

/// A device that restarts with the key it wrote finds the same fingerprint:
/// the key on disk has the digest that was announced.
pub proof fn law_restart_keeps_fingerprint(first: TlsIdentity, on_disk: Seq<u8>)
    requires
        first.fingerprint@ == sha256_hex(encode_utf8(first.key_pem@)),
        on_disk == encode_utf8(first.key_pem@),
    ensures
        sha256_hex(on_disk) == first.fingerprint@,
{
}

/// `c` is the configuration that `Config::from_dirs` makes of the home
/// directory `home`, the local data directory `data_local_dir`, the address
/// `local_ip`, the alias `alias` and the fingerprint `fingerprint`.
pub open spec fn built_from_dirs(
    c: Config,
    home: Seq<char>,
    data_local_dir: Seq<char>,
    local_ip: Ipv4Addr,
    alias: Seq<char>,
    fingerprint: Seq<char>,
) -> bool {
    &&& c.multicast_addr == default_multicast_addr()
    &&& c.local_ip_addr == local_ip
    &&& c.download_dir@ == path_join(home, "localsend-downloads"@)
    &&& c.data_dir@ == path_join(data_local_dir, "localsend"@)
    &&& c.device.alias@ == alias
    &&& c.device.fingerprint@ == fingerprint
    &&& c.device.version@ == "2.1"@
    &&& c.device.device_model is None
    &&& c.device.device_type == Some(crate::models::DeviceType::Headless)
    &&& c.device.port == DEFAULT_PORT
    &&& c.device.protocol@ == "https"@
    &&& !c.device.download
    &&& c.device.announce == Some(true)
}

/// The device of a configuration built from directories is the default
/// device with the host's alias and the key's fingerprint: in every other
/// field, HTTPS as its protocol among them, it agrees with what
/// `Device::default` gives.
pub proof fn law_config_device_is_default(
    c: Config,
    home: Seq<char>,
    data_local_dir: Seq<char>,
    local_ip: Ipv4Addr,
    alias: Seq<char>,
    fingerprint: Seq<char>,
    default_device: Device,
)
    requires
        built_from_dirs(c, home, data_local_dir, local_ip, alias, fingerprint),
        default_device_but_fingerprint(default_device),
    ensures
        c.device.alias@ == alias,
        c.device.fingerprint@ == fingerprint,
        c.device.version@ == default_device.version@,
        c.device.device_model == default_device.device_model,
        c.device.device_type == default_device.device_type,
        c.device.port == default_device.port,
        c.device.protocol@ == default_device.protocol@,
        c.device.protocol@ == "https"@,
        c.device.download == default_device.download,
        c.device.announce == default_device.announce,
{
}

/// A device that starts again with the same directories, address and host
/// name, and finds on disk the key it generated the first time, comes back
/// as it was: the same download and data directories, the same alias and the
/// same fingerprint, with the key reused rather than made anew.
pub proof fn law_restart_keeps_config(
    first: Config,
    second: Config,
    identity: TlsIdentity,
    on_disk: Seq<u8>,
    home: Seq<char>,
    data_local_dir: Seq<char>,
    local_ip: Ipv4Addr,
    alias: Seq<char>,
)
    requires
        identity.fingerprint@ == sha256_hex(encode_utf8(identity.key_pem@)),
        built_from_dirs(first, home, data_local_dir, local_ip, alias, identity.fingerprint@),
        on_disk == encode_utf8(identity.key_pem@),
        built_from_dirs(second, home, data_local_dir, local_ip, alias, sha256_hex(on_disk)),
    ensures
        second.download_dir@ == first.download_dir@,
        second.data_dir@ == first.data_dir@,
        second.device.alias@ == first.device.alias@,
        second.device.fingerprint@ == first.device.fingerprint@,
        second.device.port == first.device.port,
        second.multicast_addr == first.multicast_addr,
{
}

/// The configuration file in the configuration directory `config_dir`.
pub fn config_file(config_dir: &str) -> (p: String)
    ensures
        p@ == path_join(config_dir@, "localsend.toml"@),
{
    join_path(config_dir, "localsend.toml")
}

impl Config {
    /// The paths of the TLS key and certificate: `key.pem` and `cert.pem` in
    /// the data directory.
    pub fn ssl(&self) -> (paths: (String, String))
        ensures
            paths.0@ == path_join(self.data_dir@, "key.pem"@),
            paths.1@ == path_join(self.data_dir@, "cert.pem"@),
    {
        let key = join_path(self.data_dir.as_str(), "key.pem");
        let cert = join_path(self.data_dir.as_str(), "cert.pem");
        (key, cert)
    }

    /// The configuration of a device at `local_ip` that has no directories
    /// yet: the protocol's multicast group, empty directories and the default
    /// device.
    pub fn with_local_ip(local_ip: Ipv4Addr) -> (c: Config)
        ensures
            c.multicast_addr == default_multicast_addr(),
            c.local_ip_addr == local_ip,
            c.download_dir@.len() == 0,
            c.data_dir@.len() == 0,
            c.device.alias@ == "Localsend"@,
            c.device.version@ == "2.1"@,
            c.device.device_model is None,
            c.device.device_type == Some(crate::models::DeviceType::Headless),
            is_julid_text(c.device.fingerprint@),
            c.device.port == DEFAULT_PORT,
            c.device.protocol@ == "https"@,
            !c.device.download,
            c.device.announce == Some(true),
    {
        Config {
            multicast_addr: SocketAddrV4::new(multicast_ip(), DEFAULT_PORT),
            download_dir: String::new(),
            data_dir: String::new(),
            local_ip_addr: local_ip,
            device: Device::default(),
        }
    }

    /// The configuration of a device at `local_ip` named `alias` whose key
    /// has the fingerprint `fingerprint`: downloads go to
    /// `localsend-downloads` in the home directory `home`, data to
    /// `localsend` in the local data directory `data_local_dir`; the rest of
    /// the device is the default.
    pub fn from_dirs(
        home: &str,
        data_local_dir: &str,
        local_ip: Ipv4Addr,
        alias: String,
        fingerprint: String,
    ) -> (c: Config)
        ensures
            built_from_dirs(c, home@, data_local_dir@, local_ip, alias@, fingerprint@),
            c.device.protocol@ == "https"@,
            c.device.alias == alias,
            c.device.fingerprint == fingerprint,
    {
        let mut device = Device::default();
        device.alias = alias;
        device.fingerprint = fingerprint;
        Config {
            multicast_addr: SocketAddrV4::new(multicast_ip(), DEFAULT_PORT),
            download_dir: join_path(home, "localsend-downloads"),
            data_dir: join_path(data_local_dir, "localsend"),
            local_ip_addr: local_ip,
            device,
        }
    }
}

} // verus!
