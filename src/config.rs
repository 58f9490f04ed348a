use vstd::prelude::*;

use crate::text::{decimal, decimal_string};

verus! {

/// A registered inference model: its name, and where and how to reach it
/// when it is served remotely.
#[derive(Debug, Clone)]
pub struct ModelConfig {
    pub name: String,
    pub url: Option<String>,
    pub api_key: Option<String>,
}

/// Settings of the inference calls.
#[derive(Debug, Clone)]
pub struct ApiConfig {
    pub timeout_ms: u64,
    pub retry_attempts: u32,
    /// Static headers sent with every inference request, in the order given.
    pub headers: Vec<(String, String)>,
}

/// Settings of the content-addressed gateway.
#[derive(Debug, Clone)]
pub struct IpfsConfig {
    pub gateway: String,
    pub timeout_ms: u64,
}

/// The configuration snapshot read by every service call.
#[derive(Debug, Clone)]
pub struct UomiConfig {
    pub local_file_path: String,
    pub api: ApiConfig,
    /// The model registry: each entry's key is the decimal text the guest's
    /// integer model key is matched against.
    pub models: Vec<(String, ModelConfig)>,
    pub ipfs: IpfsConfig,
}

/// The timeout used where none is configured, in milliseconds.
pub fn default_timeout() -> (r: u64)
    ensures
        r == 30000,
{
    30000
}

/// The number of inference attempts made where none is configured.
pub fn default_retry_attempts() -> (r: u32)
    ensures
        r == 3,
{
    3
}

/// The gateway used where none is configured.
pub fn default_ipfs_gateway() -> (r: String)
    ensures
        r@ == "https://ipfs.io/ipfs"@,
{
    String::from_str("https://ipfs.io/ipfs")
}

impl ApiConfig {
    /// Settings with the default timeout and attempt count and no headers.
    pub fn with_defaults() -> (r: ApiConfig)
        ensures
            r.timeout_ms == 30000,
            r.retry_attempts == 3,
            r.headers@.len() == 0,
    {
        ApiConfig { timeout_ms: default_timeout(), retry_attempts: default_retry_attempts(), headers: Vec::new() }
    }
}

impl IpfsConfig {
    /// The default gateway with the default timeout.
    pub fn with_defaults() -> (r: IpfsConfig)
        ensures
            r.gateway@ == "https://ipfs.io/ipfs"@,
            r.timeout_ms == 30000,
    {
        IpfsConfig { gateway: default_ipfs_gateway(), timeout_ms: default_timeout() }
    }
}

impl UomiConfig {
    /// Well-formed: no two registry entries share a key, as in the map the
    /// configuration is read from.
    pub open spec fn wf(&self) -> bool {
        forall|i: int, j: int|
            0 <= i < self.models@.len() && 0 <= j < self.models@.len() && #[trigger] self.models@[i].0@
                == #[trigger] self.models@[j].0@ ==> i == j
    }

    /// The registry holds an entry under the decimal text of `model_id`.
    pub open spec fn has_model(&self, model_id: i32) -> bool {
        exists|i: int| 0 <= i < self.models@.len() && self.models@[i].0@ == decimal(model_id as int)
    }

    /// Finds the registry entry keyed by the decimal text of `model_id`:
    /// the first one, and in a well-formed registry the only one.
    pub fn find_model(&self, model_id: i32) -> (r: Option<usize>)
        ensures
            r is None <==> !self.has_model(model_id),
            r matches Some(i) ==> i < self.models@.len() && self.models@[i as int].0@ == decimal(
                model_id as int,
            ) && forall|j: int| 0 <= j < i ==> self.models@[j].0@ != decimal(model_id as int),
            self.wf() ==> (r matches Some(i) ==> forall|j: int|
                0 <= j < self.models@.len() && self.models@[j].0@ == decimal(model_id as int) ==> j
                    == i),
    {
        let key = decimal_string(model_id);
        let mut i: usize = 0;
        while i < self.models.len()
            invariant
                i <= self.models@.len(),
                key@ == decimal(model_id as int),
                forall|j: int| 0 <= j < i ==> self.models@[j].0@ != decimal(model_id as int),
            decreases self.models@.len() - i,
        {
            if self.models[i].0 == key {
                return Some(i);
            }
            i = i + 1;
        }
        None
    }
}

} // verus!
