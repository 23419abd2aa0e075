//! The settings a run starts from.

use vstd::prelude::*;

verus! {

/// What the user configured: where the store lives and, optionally, the
/// forward proxy every request goes through.
#[derive(Debug)]
pub struct Config {
    pub base_url: String,
    pub proxy: Option<String>,
}

} // verus!
