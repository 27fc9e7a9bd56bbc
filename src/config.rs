use vstd::prelude::*;

verus! {

/// The network used when none is configured.
pub const DEFAULT_NETWORK: &'static str = "mainnet";

/// The consensus RPC endpoint used when none is configured.
pub const DEFAULT_CONSENSUS_RPC: &'static str = "https://www.lightclientdata.org";

/// The execution RPC endpoint used when none is configured.
pub const DEFAULT_EXECUTION_RPC: &'static str = "https://rpc.flashbots.net";

/// Client configuration as the host gives it: every field optional.
#[derive(Clone, Debug)]
pub struct JsHeliosClientConfig {
    pub network: Option<String>,
    pub consensus_rpc: Option<String>,
    pub execution_rpc: Option<String>,
    pub data_dir: Option<String>,
    pub checkpoint: Option<String>,
}

/// Client configuration with the defaults filled in.
#[derive(Debug)]
pub struct ClientSettings {
    pub network: String,
    pub consensus_rpc: String,
    pub execution_rpc: String,
    pub data_dir: Option<String>,
    pub checkpoint: Option<String>,
}

/// Where checkpoints are kept.
#[derive(Clone, Copy, Debug, PartialEq, Eq, Structural)]
pub enum DbKind {
    /// In files under the configured data directory.
    File,
    /// In the client configuration itself.
    Config,
}

/// The text of `o`, or `d` when it is absent.
pub open spec fn or_default(o: Option<String>, d: Seq<char>) -> Seq<char> {
    match o {
        Some(s) => s@,
        None => d,
    }
}

/// `r` holds a string exactly where `o` does, with the same text.
pub open spec fn same_text(o: Option<String>, r: Option<String>) -> bool {
    match o {
        Some(s) => r matches Some(t) && t@ == s@,
        None => r is None,
    }
}

/// The text of `o`, or of `d` when it is absent.
fn text_or(o: &Option<String>, d: &str) -> (r: String)
    ensures
        r@ == or_default(*o, d@),
{
    match o {
        Some(s) => s.clone(),
        None => d.to_owned(),
    }
}

/// A copy of an optional string.
fn copy_text(o: &Option<String>) -> (r: Option<String>)
    ensures
        same_text(*o, r),
{
    match o {
        Some(s) => Some(s.clone()),
        None => None,
    }
}

impl JsHeliosClientConfig {
    /// The settings to build a client with: each absent network or endpoint takes its
    /// default; the data directory and checkpoint are passed on as given.
    pub fn settings(&self) -> (r: ClientSettings)
        ensures
            r.network@ == or_default(self.network, DEFAULT_NETWORK@),
            r.consensus_rpc@ == or_default(self.consensus_rpc, DEFAULT_CONSENSUS_RPC@),
            r.execution_rpc@ == or_default(self.execution_rpc, DEFAULT_EXECUTION_RPC@),
            same_text(self.data_dir, r.data_dir),
            same_text(self.checkpoint, r.checkpoint),
    {
        ClientSettings {
            network: text_or(&self.network, DEFAULT_NETWORK),
            consensus_rpc: text_or(&self.consensus_rpc, DEFAULT_CONSENSUS_RPC),
            execution_rpc: text_or(&self.execution_rpc, DEFAULT_EXECUTION_RPC),
            data_dir: copy_text(&self.data_dir),
            checkpoint: copy_text(&self.checkpoint),
        }
    }

    /// The checkpoint store to use: files when a data directory is configured, the
    /// configuration otherwise.
    pub fn db_kind(&self) -> (r: DbKind)
        ensures
            r == DbKind::File <==> self.data_dir is Some,
            r == DbKind::Config <==> self.data_dir is None,
    {
        DbKind::for_data_dir(self.data_dir.is_some())
    }
}

impl DbKind {
    /// Files when a data directory is configured, the configuration otherwise.
    pub fn for_data_dir(has_data_dir: bool) -> (r: DbKind)
        ensures
            r == (if has_data_dir {
                DbKind::File
            } else {
                DbKind::Config
            }),
    {
        if has_data_dir {
            DbKind::File
        } else {
            DbKind::Config
        }
    }
}

} // verus!
