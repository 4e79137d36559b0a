//! Descriptions of the platform's REST endpoints.

use vstd::prelude::*;
use std::collections::HashMap;

verus! {

/// One REST endpoint: where it lives and how it is called.
#[derive(Debug)]
pub struct Api {
    pub base: String,
    pub endpoint: String,
    pub method: String,
    pub params: Option<HashMap<String, String>>,
}

impl Api {
    /// An endpoint description with the given parts.
    pub fn new(base: String, endpoint: String, method: String, params: Option<HashMap<String, String>>) -> (a: Api)
        ensures
            a.base == base,
            a.endpoint == endpoint,
            a.method == method,
            a.params == params,
    {
        Api { base, endpoint, method, params }
    }
}

/// The platform hosts the client talks to.
#[derive(Debug, Clone, Copy, PartialEq, Eq, Structural)]
pub enum BiliUrl {
    BiliLiveUrl,
}

impl BiliUrl {
    /// The base URL of a platform host.
    pub fn get_url(variant: BiliUrl) -> (r: String)
        ensures
            variant == BiliUrl::BiliLiveUrl ==> r@ == "https://api.live.bilibili.com/"@,
    {
        match variant {
            BiliUrl::BiliLiveUrl => "https://api.live.bilibili.com/".to_owned(),
        }
    }
}

} // verus!
