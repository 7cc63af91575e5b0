//! Resolved configuration for one run.
//!
//! Argument parsing, environment lookup and directory creation live outside
//! the library; they hand in these plain values once, and every component
//! takes them by reference — no ambient lookup.

use vstd::prelude::*;

use crate::sync::SyncOptions;

verus! {

/// The command-line surface: which server to snapshot, where the artifact
/// goes, and which optional transforms and push step to apply.
#[derive(Clone, Debug)]
pub struct Cli {
    /// Identifier of the server to snapshot.
    pub server_id: u64,
    /// Local directory that receives the artifact before any push.
    pub backup_dir: String,
    /// Compress the stream while downloading.
    pub compress: bool,
    /// Passphrase for the encryption stage, when set.
    pub encrypt: Option<String>,
    /// Remote destination for the final push, when set.
    pub rsync_target: Option<String>,
}

impl Cli {
    /// The transform options this configuration calls for.
    pub fn sync_options(&self) -> (r: SyncOptions)
        ensures
            r.compress == self.compress,
            r.encrypt_pass == self.encrypt,
    {
        let encrypt_pass = match &self.encrypt {
            Some(p) => Some(p.clone()),
            None => None,
        };
        SyncOptions { compress: self.compress, encrypt_pass }
    }
}

/// Everything a run needs, resolved once at startup.
#[derive(Clone, Debug)]
pub struct Config {
    /// Bearer credential for the provider's API.
    pub api_token: String,
    /// The parsed command-line surface.
    pub cli: Cli,
}

} // verus!
