//! Api Config

use vstd::prelude::*;

verus! {

/// `reqwest::header::HeaderMap`: custom headers, carried unread to the transport.
#[verifier::external_type_specification]
#[verifier::external_body]
#[verifier::reject_recursive_types(T)]
pub struct ExHeaderMap<T>(reqwest::header::HeaderMap<T>);

/// `reqwest::header::HeaderValue`: one header value, never read here.
#[verifier::external_type_specification]
#[verifier::external_body]
pub struct ExHeaderValue(reqwest::header::HeaderValue);

/// `reqwest::Proxy`: a proxy descriptor, carried unread to the transport.
#[verifier::external_type_specification]
#[verifier::external_body]
pub struct ExProxy(reqwest::Proxy);

/// Relies on the derived `Clone` of `HeaderMap`: the copy holds the same headers.
#[verifier::external_body]
pub(crate) fn clone_headers(h: &reqwest::header::HeaderMap) -> (r: reqwest::header::HeaderMap)
    ensures
        r == *h,
{
    h.clone()
}

/// Relies on the derived `Clone` of `reqwest::Proxy`: the copy describes the same proxy.
#[verifier::external_body]
pub(crate) fn clone_proxy(p: &reqwest::Proxy) -> (r: reqwest::Proxy)
    ensures
        r == *p,
{
    p.clone()
}

pub(crate) fn clone_opt_headers(h: &Option<reqwest::header::HeaderMap>) -> (r: Option<reqwest::header::HeaderMap>)
    ensures
        r == *h,
{
    match h {
        Some(m) => Some(clone_headers(m)),
        None => None,
    }
}

pub(crate) fn clone_opt_proxy(p: &Option<reqwest::Proxy>) -> (r: Option<reqwest::Proxy>)
    ensures
        r == *p,
{
    match p {
        Some(x) => Some(clone_proxy(x)),
        None => None,
    }
}

/// Relies on the `Debug` of `Option<HeaderMap>`: `None` prints as `None`.
#[verifier::external_body]
fn headers_debug_text(h: &Option<reqwest::header::HeaderMap>) -> (r: String)
    ensures
        h is None ==> r@ == "None"@,
{
    format!("{:?}", h)
}

/// Relies on the `Debug` of `Option<reqwest::Proxy>`: `None` prints as `None`.
#[verifier::external_body]
fn proxy_debug_text(p: &Option<reqwest::Proxy>) -> (r: String)
    ensures
        p is None ==> r@ == "None"@,
{
    format!("{:?}", p)
}

pub open spec fn bool_text(b: bool) -> Seq<char> {
    if b {
        "true"@
    } else {
        "false"@
    }
}

pub const CORE_SANDBOX_BASE_URL: &'static str = "https://api.sandbox.midtrans.com";
pub const CORE_PRODUCTION_BASE_URL: &'static str = "https://api.midtrans.com";
pub const SNAP_SANDBOX_BASE_URL: &'static str = "https://app.sandbox.midtrans.com";
pub const SNAP_PRODUCTION_BASE_URL: &'static str = "https://app.midtrans.com";

/// Base URL of the core API in the chosen environment.
pub open spec fn core_api_base_url_of(is_production: bool) -> Seq<char> {
    if is_production {
        CORE_PRODUCTION_BASE_URL@
    } else {
        CORE_SANDBOX_BASE_URL@
    }
}

/// Base URL of the snap API in the chosen environment.
pub open spec fn snap_base_url_of(is_production: bool) -> Seq<char> {
    if is_production {
        SNAP_PRODUCTION_BASE_URL@
    } else {
        SNAP_SANDBOX_BASE_URL@
    }
}

/// Config Object that used to store is_production, server_key, client_key,
/// custom headers and proxy. And also API base urls.
///
/// note: client_key is not necessarily required for API call.
pub struct ApiConfig {
    pub is_production: bool,
    pub server_key: String,
    pub client_key: String,
    pub custom_headers: Option<reqwest::header::HeaderMap>,
    pub proxies: Option<reqwest::Proxy>,
}

impl ApiConfig {
    pub fn new(is_production: bool, server_key: String) -> (r: ApiConfigBuilder)
        ensures
            r.is_production == is_production,
            r.server_key == server_key,
            r.client_key is None,
            r.custom_header is None,
            r.proxies is None,
    {
        ApiConfigBuilder { is_production, server_key, client_key: None, custom_header: None, proxies: None }
    }

    pub fn get_core_api_base_url(&self) -> (r: &'static str)
        ensures
            r@ == core_api_base_url_of(self.is_production),
    {
        if self.is_production {
            CORE_PRODUCTION_BASE_URL
        } else {
            CORE_SANDBOX_BASE_URL
        }
    }

    pub fn get_snap_base_url(&self) -> (r: &'static str)
        ensures
            r@ == snap_base_url_of(self.is_production),
    {
        if self.is_production {
            SNAP_PRODUCTION_BASE_URL
        } else {
            SNAP_SANDBOX_BASE_URL
        }
    }

    /// `<ApiConfig(is_production,server_key,client_key,custom_headers,proxies)>`,
    /// the last two as their `Debug` text.
    pub fn to_string(&self) -> (r: String)
        ensures
            self.custom_headers is None && self.proxies is None ==> r@ == "<ApiConfig("@ + bool_text(
                self.is_production,
            ) + ","@ + self.server_key@ + ","@ + self.client_key@ + ",None,None)>"@,
    {
        let mut s = String::from_str("<ApiConfig(");
        s.append(if self.is_production { "true" } else { "false" });
        s.append(",");
        s.append(self.server_key.as_str());
        s.append(",");
        s.append(self.client_key.as_str());
        s.append(",");
        let h = headers_debug_text(&self.custom_headers);
        s.append(h.as_str());
        s.append(",");
        let p = proxy_debug_text(&self.proxies);
        s.append(p.as_str());
        s.append(")>");
        proof {
            if self.custom_headers is None && self.proxies is None {
                reveal_strlit(",None,None)>");
                reveal_strlit(",");
                reveal_strlit(")>");
                reveal_strlit("None");
                assert(s@ =~= "<ApiConfig("@ + bool_text(self.is_production) + ","@ + self.server_key@ + ","@
                    + self.client_key@ + ",None,None)>"@);
            }
        }
        s
    }

    pub fn get_is_production(&self) -> (r: bool)
        ensures
            r == self.is_production,
    {
        self.is_production
    }

    pub fn set_is_production(&mut self, value: bool)
        ensures
            *final(self) == (ApiConfig { is_production: value, ..*old(self) }),
    {
        self.is_production = value;
    }

    pub fn get_server_key(&self) -> (r: &str)
        ensures
            r@ == self.server_key@,
    {
        self.server_key.as_str()
    }

    pub fn set_server_key(&mut self, value: String)
        ensures
            *final(self) == (ApiConfig { server_key: value, ..*old(self) }),
    {
        self.server_key = value;
    }

    pub fn get_client_key(&self) -> (r: &str)
        ensures
            r@ == self.client_key@,
    {
        self.client_key.as_str()
    }

    pub fn set_client_key(&mut self, value: String)
        ensures
            *final(self) == (ApiConfig { client_key: value, ..*old(self) }),
    {
        self.client_key = value;
    }

    pub fn get_custom_headers(&self) -> (r: &Option<reqwest::header::HeaderMap>)
        ensures
            *r == self.custom_headers,
    {
        &self.custom_headers
    }

    pub fn set_custom_headers(&mut self, headers: reqwest::header::HeaderMap)
        ensures
            *final(self) == (ApiConfig { custom_headers: Some(headers), ..*old(self) }),
    {
        self.custom_headers = Some(headers);
    }

    pub fn get_proxies(&self) -> (r: &Option<reqwest::Proxy>)
        ensures
            *r == self.proxies,
    {
        &self.proxies
    }

    pub fn set_proxies(&mut self, proxies: reqwest::Proxy)
        ensures
            *final(self) == (ApiConfig { proxies: Some(proxies), ..*old(self) }),
    {
        self.proxies = Some(proxies);
    }
}

pub struct ApiConfigBuilder {
    pub is_production: bool,
    pub server_key: String,
    pub client_key: Option<String>,
    pub custom_header: Option<reqwest::header::HeaderMap>,
    pub proxies: Option<reqwest::Proxy>,
}

impl ApiConfigBuilder {
    pub fn client_key(&mut self, client_key: String) -> (r: &mut Self)
        ensures
            *r == (ApiConfigBuilder { client_key: Some(client_key), ..*old(self) }),
            *final(self) == *final(r),
    {
        self.client_key = Some(client_key);
        self
    }

    pub fn custom_header(&mut self, custom_header: reqwest::header::HeaderMap) -> (r: &mut Self)
        ensures
            *r == (ApiConfigBuilder { custom_header: Some(custom_header), ..*old(self) }),
            *final(self) == *final(r),
    {
        self.custom_header = Some(custom_header);
        self
    }

    pub fn proxies(&mut self, proxies: reqwest::Proxy) -> (r: &mut Self)
        ensures
            *r == (ApiConfigBuilder { proxies: Some(proxies), ..*old(self) }),
            *final(self) == *final(r),
    {
        self.proxies = Some(proxies);
        self
    }

    pub fn build(&mut self) -> (r: ApiConfig)
        ensures
            *final(self) == *old(self),
            r.is_production == old(self).is_production,
            r.server_key@ == old(self).server_key@,
            r.client_key@ == match old(self).client_key {
                Some(k) => k@,
                None => Seq::<char>::empty(),
            },
            r.custom_headers == old(self).custom_header,
            r.proxies == old(self).proxies,
    {
        let client_key = match &self.client_key {
            Some(k) => k.clone(),
            None => String::new(),
        };
        ApiConfig {
            is_production: self.is_production,
            server_key: self.server_key.clone(),
            client_key,
            custom_headers: clone_opt_headers(&self.custom_header),
            proxies: clone_opt_proxy(&self.proxies),
        }
    }
}

} // verus!
