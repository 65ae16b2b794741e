//! The startup settings the console is launched with.

use vstd::prelude::*;

verus! {

/// Everything the console needs to reach the remote service.
#[derive(Debug, Clone, PartialEq, Eq)]
pub struct AppConfig {
    pub nacos: NacosConfig,
}

/// Where the remote service lives and how to log in to it.
#[derive(Debug, Clone, PartialEq, Eq)]
pub struct NacosConfig {
    pub url: String,
    pub username: String,
    pub password: String,
}

} // verus!
