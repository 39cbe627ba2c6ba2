//! Snap: the client of the hosted checkout API.

use vstd::prelude::*;
use crate::config::{ApiConfig, snap_base_url_of};
use crate::error_midtrans::MidtransError;
use crate::http_client::{ApiRequest, Method};
use crate::json::{JsonObject, JsonValue};
use crate::transactions::{Transactions, config_request, config_request_outcome, join2};

verus! {

/// The URL that snap transactions are created at, in `config`'s environment.
pub open spec fn snap_transactions_url(config: ApiConfig) -> Seq<char> {
    snap_base_url_of(config.is_production) + "/snap/v1/transactions"@
}

/// Snap struct used to do request to Midtrans Snap API
pub struct Snap {
    pub api_config: ApiConfig,
}

impl Transactions for Snap {
    open spec fn config_view(&self) -> ApiConfig {
        self.api_config
    }

    /// Getter for ApiConfig
    fn get_api_config(&self) -> (r: &ApiConfig) {
        &self.api_config
    }

    /// Setter for ApiConfig
    fn set_api_config(&mut self, api_config: ApiConfig) {
        self.api_config = api_config
    }
}

pub struct SnapBuilder {
    pub is_production: bool,
    pub server_key: String,
    pub client_key: Option<String>,
    pub custom_headers: Option<reqwest::header::HeaderMap>,
    pub proxies: Option<reqwest::Proxy>,
}

impl SnapBuilder {
    pub fn client_key(&mut self, client_key: String) -> (r: &mut Self)
        ensures
            *r == (SnapBuilder { client_key: Some(client_key), ..*old(self) }),
            *final(self) == *final(r),
    {
        self.client_key = Some(client_key);
        self
    }

    pub fn custom_headers(&mut self, custom_headers: reqwest::header::HeaderMap) -> (r: &mut Self)
        ensures
            *r == (SnapBuilder { custom_headers: Some(custom_headers), ..*old(self) }),
            *final(self) == *final(r),
    {
        self.custom_headers = Some(custom_headers);
        self
    }

    pub fn proxies(&mut self, proxies: reqwest::Proxy) -> (r: &mut Self)
        ensures
            *r == (SnapBuilder { proxies: Some(proxies), ..*old(self) }),
            *final(self) == *final(r),
    {
        self.proxies = Some(proxies);
        self
    }

    pub fn build(&self) -> (r: Result<Snap, MidtransError>)
        ensures
            r matches Ok(c),
            r->Ok_0.api_config.is_production == self.is_production,
            r->Ok_0.api_config.server_key@ == self.server_key@,
            r->Ok_0.api_config.client_key@ == match self.client_key {
                Some(k) => k@,
                None => Seq::<char>::empty(),
            },
            r->Ok_0.api_config.custom_headers == self.custom_headers,
            r->Ok_0.api_config.proxies == self.proxies,
    {
        let mut api_config = ApiConfig::new(self.is_production, self.server_key.clone());
        if let Some(key) = &self.client_key {
            api_config.client_key(key.clone());
        }
        if let Some(headers) = &self.custom_headers {
            api_config.custom_header(crate::config::clone_headers(headers));
        }
        if let Some(proxy) = &self.proxies {
            api_config.proxies(crate::config::clone_proxy(proxy));
        }
        let api_config = api_config.build();
        Ok(Snap { api_config })
    }
}

impl Snap {
    pub fn new(is_production: bool, server_key: String) -> (r: SnapBuilder)
        ensures
            r.is_production == is_production,
            r.server_key == server_key,
            r.client_key is None,
            r.custom_headers is None,
            r.proxies is None,
    {
        SnapBuilder { is_production, server_key, client_key: None, custom_headers: None, proxies: None }
    }

    /// Prepares a call to the Snap API that creates a transaction.
    ///
    /// `parameters` is a `&str` of Snap API JSON; the decoded answer holds
    /// `token` and `redirect_url`.
    pub fn create_transaction(&self, parameters: &str) -> (r: Result<ApiRequest, MidtransError>)
        ensures
            config_request_outcome(
                self.api_config,
                Method::Post,
                snap_transactions_url(self.api_config),
                parameters@,
                r,
            ),
    {
        let api_url = join2(self.api_config.get_snap_base_url(), "/snap/v1/transactions");
        config_request(&self.api_config, Method::Post, api_url.as_str(), parameters)
    }

    /// The `token` of a decoded `create_transaction` answer.
    pub fn create_transaction_token(response: &JsonObject) -> (r: Option<JsonValue>)
        ensures
            r == response@.get("token"@),
    {
        match response.get("token") {
            Some(v) => Some(v.copy()),
            None => None,
        }
    }

    /// The `redirect_url` of a decoded `create_transaction` answer.
    pub fn create_transaction_redirect_url(response: &JsonObject) -> (r: Option<JsonValue>)
        ensures
            r == response@.get("redirect_url"@),
    {
        match response.get("redirect_url") {
            Some(v) => Some(v.copy()),
            None => None,
        }
    }
}

} // verus!
