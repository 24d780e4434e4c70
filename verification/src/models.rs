//! Devices and the metadata of the files they exchange.
use vstd::prelude::*;
use crate::error::{LocalSendError, Result};
use crate::ids::{
    file_name_of, format_utc, fresh_julid_text, fresh_uuid_text, guess_mime, is_julid_text,
    is_uuid_text, mime_guess_first, opt_text, path_file_name, rfc3339_utc, sha256_digest,
    sha256_hex,
};
use crate::DEFAULT_PORT;
use vstd::string::StringSliceAdditionalSpecFns;

verus! {

/// The kind of a device, as it announces itself.
#[derive(Debug, Clone, Copy, PartialEq, Eq, Structural)]
pub enum DeviceType {
    Mobile,
    Desktop,
    Web,
    Headless,
    Server,
    Unknown,
}

/// The scheme a device serves its API on.
#[derive(Debug, Clone, Copy, PartialEq, Eq, Structural)]
pub enum Protocol {
    Http,
    Https,
}

/// A device of the protocol: how it presents itself and where it listens.
#[derive(Debug)]
pub struct Device {
    pub alias: String,
    pub version: String,
    pub device_model: Option<String>,
    pub device_type: Option<DeviceType>,
    pub fingerprint: String,
    pub port: u16,
    pub protocol: String,
    pub download: bool,
    pub announce: Option<bool>,
}

/// Two devices agree field by field, strings by their text.
pub open spec fn same_device(a: Device, b: Device) -> bool {
    &&& a.alias@ == b.alias@
    &&& a.version@ == b.version@
    &&& opt_text(a.device_model) == opt_text(b.device_model)
    &&& a.device_type == b.device_type
    &&& a.fingerprint@ == b.fingerprint@
    &&& a.port == b.port
    &&& a.protocol@ == b.protocol@
    &&& a.download == b.download
    &&& a.announce == b.announce
}

/// Two descriptions that differ in any field, the fingerprint among them, are
/// not the same device; two that agree in every field are.
pub proof fn law_same_device_is_field_equality(a: Device, b: Device)
    ensures
        a.fingerprint@ != b.fingerprint@ ==> !same_device(a, b),
        a.alias@ != b.alias@ ==> !same_device(a, b),
        a.version@ != b.version@ ==> !same_device(a, b),
        a.port != b.port ==> !same_device(a, b),
        a.protocol@ != b.protocol@ ==> !same_device(a, b),
        a.download != b.download ==> !same_device(a, b),
        a.announce != b.announce ==> !same_device(a, b),
        a.device_type != b.device_type ==> !same_device(a, b),
        opt_text(a.device_model) != opt_text(b.device_model) ==> !same_device(a, b),
        a == b ==> same_device(a, b),
{
}

/// The description `Device::default` gives, apart from its fingerprint: a
/// headless device named `Localsend`, version 2.1, on the default port,
/// serving HTTPS, not downloading, announcing itself.
pub open spec fn default_device_but_fingerprint(d: Device) -> bool {
    &&& d.alias@ == "Localsend"@
    &&& d.version@ == "2.1"@
    &&& d.device_model is None
    &&& d.device_type == Some(DeviceType::Headless)
    &&& d.port == DEFAULT_PORT
    &&& d.protocol@ == "https"@
    &&& !d.download
    &&& d.announce == Some(true)
}

pub(crate) fn clone_opt_text(s: &Option<String>) -> (r: Option<String>)
    ensures
        r == *s,
{
    match s {
        Some(t) => Some(t.clone()),
        None => None,
    }
}

fn same_opt_text(a: &Option<String>, b: &Option<String>) -> (r: bool)
    ensures
        r == (opt_text(*a) == opt_text(*b)),
{
    match (a, b) {
        (Some(x), Some(y)) => *x == *y,
        (None, None) => true,
        _ => false,
    }
}

impl Clone for Device {
    fn clone(&self) -> (r: Self)
        ensures
            r == *self,
    {
        Device {
            alias: self.alias.clone(),
            version: self.version.clone(),
            device_model: clone_opt_text(&self.device_model),
            device_type: self.device_type,
            fingerprint: self.fingerprint.clone(),
            port: self.port,
            protocol: self.protocol.clone(),
            download: self.download,
            announce: self.announce,
        }
    }
}

impl Device {
    /// Whether `self` and `other` describe the same device, field by field.
    pub fn same_device(&self, other: &Device) -> (r: bool)
        ensures
            r == same_device(*self, *other),
    {
        let same_type = match (self.device_type, other.device_type) {
            (Some(x), Some(y)) => x == y,
            (None, None) => true,
            _ => false,
        };
        let same_announce = match (self.announce, other.announce) {
            (Some(x), Some(y)) => x == y,
            (None, None) => true,
            _ => false,
        };
        self.alias == other.alias && self.version == other.version && same_opt_text(
            &self.device_model,
            &other.device_model,
        ) && same_type && self.fingerprint == other.fingerprint && self.port == other.port
            && self.protocol == other.protocol && self.download == other.download
            && same_announce
    }

    /// Whether the device asks to be announced to in return.
    pub fn wants_announce(&self) -> (r: bool)
        ensures
            r == (self.announce == Some(true)),
    {
        match self.announce {
            Some(b) => b,
            None => false,
        }
    }
}

impl Default for Device {
    /// A headless device named `Localsend` on the default port, serving
    /// HTTPS, announcing itself, with a fresh Julid as its fingerprint.
    fn default() -> (d: Self)
        ensures
            d.alias@ == "Localsend"@,
            d.version@ == "2.1"@,
            d.device_model is None,
            d.device_type == Some(DeviceType::Headless),
            is_julid_text(d.fingerprint@),
            d.port == DEFAULT_PORT,
            d.protocol@ == "https"@,
            !d.download,
            d.announce == Some(true),
            default_device_but_fingerprint(d),
    {
        Device {
            alias: String::from_str("Localsend"),
            version: String::from_str("2.1"),
            device_model: None,
            device_type: Some(DeviceType::Headless),
            fingerprint: fresh_julid_text(),
            port: DEFAULT_PORT,
            protocol: String::from_str("https"),
            download: false,
            announce: Some(true),
        }
    }
}

/// The device description of the plain-HTTP client.
#[derive(Debug)]
pub struct DeviceInfo {
    pub alias: String,
    pub version: String,
    pub device_model: Option<String>,
    pub device_type: Option<DeviceType>,
    pub fingerprint: String,
    pub port: u16,
    pub protocol: String,
    pub download: bool,
    pub announce: Option<bool>,
}

impl Default for DeviceInfo {
    /// A headless device named `RustSend` on port 53317, serving HTTP,
    /// downloading and announcing, with a fresh UUID as its fingerprint.
    fn default() -> (d: Self)
        ensures
            d.alias@ == "RustSend"@,
            d.version@ == "2.1"@,
            d.device_model is None,
            d.device_type == Some(DeviceType::Headless),
            is_uuid_text(d.fingerprint@),
            d.port == 53317,
            d.protocol@ == "http"@,
            d.download,
            d.announce == Some(true),
    {
        DeviceInfo {
            alias: String::from_str("RustSend"),
            version: String::from_str("2.1"),
            device_model: None,
            device_type: Some(DeviceType::Headless),
            fingerprint: fresh_uuid_text(),
            port: 53317,
            protocol: String::from_str("http"),
            download: true,
            announce: Some(true),
        }
    }
}

/// When a file was last modified and accessed, in RFC 3339.
#[derive(Debug)]
pub struct FileMetadataExt {
    pub modified: Option<String>,
    pub accessed: Option<String>,
}

/// What a sender says of a file it offers.
#[derive(Debug)]
pub struct FileMetadata {
    pub id: String,
    pub file_name: String,
    pub size: u64,
    /// The media type.
    pub file_type: String,
    pub sha256: Option<String>,
    pub preview: Option<String>,
    pub metadata: Option<FileMetadataExt>,
}

impl Clone for FileMetadataExt {
    fn clone(&self) -> (r: Self)
        ensures
            r == *self,
    {
        FileMetadataExt {
            modified: clone_opt_text(&self.modified),
            accessed: clone_opt_text(&self.accessed),
        }
    }
}

impl Clone for FileMetadata {
    fn clone(&self) -> (r: Self)
        ensures
            r == *self,
    {
        FileMetadata {
            id: self.id.clone(),
            file_name: self.file_name.clone(),
            size: self.size,
            file_type: self.file_type.clone(),
            sha256: clone_opt_text(&self.sha256),
            preview: clone_opt_text(&self.preview),
            metadata: match &self.metadata {
                Some(m) => Some(m.clone()),
                None => None,
            },
        }
    }
}

/// An instant as whole seconds (negative before the Unix epoch) and
/// nanoseconds after them.
#[derive(Debug, Clone, Copy, PartialEq, Eq, Structural)]
pub struct Timestamp {
    pub secs: i64,
    pub nanos: u32,
}

/// What the file system says of a path, gathered by the caller.
#[derive(Debug)]
pub struct PathFacts {
    pub is_file: bool,
    pub size: u64,
    /// The file's contents.
    pub contents: Vec<u8>,
    pub modified: Option<Timestamp>,
    pub accessed: Option<Timestamp>,
}

/// The RFC 3339 text of an instant, where there is one.
pub open spec fn time_text(t: Option<Timestamp>) -> Option<Seq<char>> {
    match t {
        Some(ts) => match rfc3339_utc(ts.secs, ts.nanos) {
            Some(s) => Some(s),
            None => None,
        },
        None => None,
    }
}

fn format_time(t: Option<Timestamp>) -> (r: Option<String>)
    ensures
        opt_text(r) == time_text(t),
{
    match t {
        Some(ts) => format_utc(ts.secs, ts.nanos),
        None => None,
    }
}

/// The media type of a path is mime_guess's first guess for it, unchanged,
/// and `application/octet-stream` only where there is no guess.
pub proof fn law_file_type_is_first_guess(path: Seq<char>)
    ensures
        mime_guess_first(path) matches Some(m) ==> file_type_of(path) == m,
        mime_guess_first(path) is None ==> file_type_of(path) == "application/octet-stream"@,
        mime_guess_first(path) == Some(file_type_of(path)) || (mime_guess_first(path) is None
            && file_type_of(path) == "application/octet-stream"@),
{
}

/// The media type given to a path: the first guess from its extension, or
/// `application/octet-stream`.
pub open spec fn file_type_of(path: Seq<char>) -> Seq<char> {
    match mime_guess_first(path) {
        Some(m) => m,
        None => "application/octet-stream"@,
    }
}

impl FileMetadata {
    /// The metadata of the regular file at `path`, from what the file system
    /// said of it: its path is its id, its last component its name, its type
    /// guessed from the extension, its digest that of its contents.
    pub fn from_path(path: &str, facts: PathFacts) -> (r: Result<FileMetadata>)
        ensures
            !facts.is_file ==> r == Err::<FileMetadata, LocalSendError>(LocalSendError::NotAFile),
            facts.is_file && path_file_name(path@) is None ==> r == Err::<
                FileMetadata,
                LocalSendError,
            >(LocalSendError::NotAFile),
            facts.is_file && path_file_name(path@) is Some ==> (r matches Ok(m) && {
                &&& m.id@ == path@
                &&& Some(m.file_name@) == path_file_name(path@)
                &&& m.size == facts.size
                &&& m.file_type@ == file_type_of(path@)
                &&& mime_guess_first(path@) matches Some(g) ==> m.file_type@ == g
                &&& mime_guess_first(path@) is None ==> m.file_type@ == "application/octet-stream"@
                &&& m.sha256 matches Some(h) && h@ == sha256_hex(facts.contents@)
                &&& m.preview is None
                &&& m.metadata matches Some(ext) && opt_text(ext.modified) == time_text(
                    facts.modified,
                ) && opt_text(ext.accessed) == time_text(facts.accessed)
            }),
    {
        if !facts.is_file {
            return Err(LocalSendError::NotAFile);
        }
        let file_name = match file_name_of(path) {
            Some(n) => n,
            None => {
                return Err(LocalSendError::NotAFile);
            },
        };
        let file_type = match guess_mime(path) {
            Some(m) => m,
            None => String::from_str("application/octet-stream"),
        };
        let sha256 = sha256_digest(facts.contents.as_slice());
        let metadata = FileMetadataExt {
            modified: format_time(facts.modified),
            accessed: format_time(facts.accessed),
        };
        Ok(FileMetadata {
            id: String::from_str(path),
            file_name,
            size: facts.size,
            file_type,
            sha256: Some(sha256),
            preview: None,
            metadata: Some(metadata),
        })
    }

    /// The metadata that offers `text` as a file: a fresh Julid as its id,
    /// named `<id>.txt`, of type `text/plain`, with the text as its preview.
    pub fn from_text(text: &str) -> (r: Result<FileMetadata>)
        ensures
            r matches Ok(m) && {
                &&& is_julid_text(m.id@)
                &&& m.file_name@ == m.id@ + ".txt"@
                &&& m.size == text.len()
                &&& m.file_type@ == "text/plain"@
                &&& m.sha256 matches Some(h) && h@ == sha256_hex(text.spec_bytes())
                &&& m.preview matches Some(p) && p@ == text@
                &&& m.metadata is None
            },
    {
        let size = text.len() as u64;
        let id = fresh_julid_text();
        let file_type = String::from_str("text/plain");
        let sha256 = Some(sha256_digest(text.as_bytes()));
        let mut file_name = id.clone();
        file_name.append(".txt");
        Ok(FileMetadata {
            id,
            file_name,
            size,
            file_type,
            sha256,
            preview: Some(String::from_str(text)),
            metadata: None,
        })
    }
}

} // verus!
