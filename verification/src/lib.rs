//! The LocalSend protocol's logic: device discovery, upload sessions with
//! per-file tokens, the metadata of offered files, and the configuration of a
//! device. Sockets, the HTTPS server and client, and the file system stay with
//! the caller, who hands this library plain values.
use vstd::prelude::*;

pub mod text;
pub mod textmap;
pub mod net;
pub mod ids;
pub mod error;
pub mod models;
pub mod transfer;
pub mod discovery;
pub mod config;
pub mod client_v1;

use crate::models::FileMetadata;
use crate::textmap::{sorted_keys, TextMap};

verus! {

/// The port the protocol listens on.
pub const DEFAULT_PORT: u16 = 53317;

/// The background tasks a service runs.
#[derive(Debug, Clone, Copy, PartialEq, Eq, Structural)]
pub enum LocalTask {
    Udp,
    Http,
    Multicast,
    Tick,
}

/// The answer of the user to an offer of files.
#[derive(Debug, Clone, Copy, PartialEq, Eq, Structural)]
pub enum ReceiveDialog {
    Approve,
    Deny,
}

/// What is sent: the file at a path, or a text.
#[derive(Debug)]
pub enum SendingType {
    File(String),
    Text(String),
}

/// An offer of files awaiting the user's answer: who offers, and what.
#[derive(Debug)]
pub struct ReceiveRequest {
    pub alias: String,
    pub files: TextMap<FileMetadata>,
}

impl ReceiveRequest {
    /// The names of the offered files, in the order of their ids.
    pub fn file_names(&self) -> (names: Vec<String>)
        ensures
            sorted_keys(self.files.pairs()),
            names@.len() == self.files.value_seq().len(),
            forall|i: int| 0 <= i < names@.len() ==> #[trigger] names@[i]@
                == self.files.value_seq()[i].file_name@,
    {
        let n = self.files.len();
        let mut names: Vec<String> = Vec::new();
        let mut i: usize = 0;
        while i < n
            invariant
                n == self.files.value_seq().len(),
                i <= n,
                names@.len() == i,
                forall|j: int| 0 <= j < i ==> #[trigger] names@[j]@
                    == self.files.value_seq()[j].file_name@,
            decreases n - i,
        {
            names.push(self.files.value_at(i).file_name.clone());
            i = i + 1;
        }
        names
    }
}

/// Whether the background tasks of a service keep going or wind down.
#[derive(Debug, Clone, Copy, PartialEq, Eq, Structural)]
pub enum RunningState {
    Running,
    Stopping,
}

impl RunningState {
    /// Whether a background loop ends at its next check.
    pub fn should_stop(&self) -> (b: bool)
        ensures
            b == (*self == RunningState::Stopping),
    {
        match self {
            RunningState::Stopping => true,
            RunningState::Running => false,
        }
    }
}

impl Default for RunningState {
    fn default() -> (s: Self)
        ensures
            s == RunningState::Running,
    {
        RunningState::Running
    }
}

} // verus!
