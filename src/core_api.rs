//! CoreApi: the client of the core (direct) API.

use vstd::prelude::*;
use crate::config::ApiConfig;
use crate::error_midtrans::MidtransError;
use crate::http_client::{ApiRequest, Method};
use crate::transactions::{Transactions, config_request, config_request_outcome, join2, join3};
use crate::config::core_api_base_url_of;

verus! {

/// The URL of `path` on the core API of `config`'s environment.
pub open spec fn core_url(config: ApiConfig, path: Seq<char>) -> Seq<char> {
    core_api_base_url_of(config.is_production) + path
}

/// CoreApi struct used to do request to Midtrans Core API
pub struct CoreApi {
    pub api_config: ApiConfig,
}

impl Transactions for CoreApi {
    open spec fn config_view(&self) -> ApiConfig {
        self.api_config
    }

    /// Getter for ApiConfig
    fn get_api_config(&self) -> (r: &ApiConfig) {
        &self.api_config
    }

    /// Setter for ApiConfig
    fn set_api_config(&mut self, api_config: ApiConfig) {
        self.api_config = api_config
    }
}

pub struct CoreApiBuilder {
    pub is_production: bool,
    pub server_key: String,
    pub client_key: Option<String>,
    pub custom_headers: Option<reqwest::header::HeaderMap>,
    pub proxies: Option<reqwest::Proxy>,
}

impl CoreApiBuilder {
    pub fn client_key(&mut self, client_key: String) -> (r: &mut Self)
        ensures
            *r == (CoreApiBuilder { client_key: Some(client_key), ..*old(self) }),
            *final(self) == *final(r),
    {
        self.client_key = Some(client_key);
        self
    }

    pub fn custom_headers(&mut self, custom_headers: reqwest::header::HeaderMap) -> (r: &mut Self)
        ensures
            *r == (CoreApiBuilder { custom_headers: Some(custom_headers), ..*old(self) }),
            *final(self) == *final(r),
    {
        self.custom_headers = Some(custom_headers);
        self
    }

    pub fn proxies(&mut self, proxies: reqwest::Proxy) -> (r: &mut Self)
        ensures
            *r == (CoreApiBuilder { proxies: Some(proxies), ..*old(self) }),
            *final(self) == *final(r),
    {
        self.proxies = Some(proxies);
        self
    }

    pub fn build(&self) -> (r: Result<CoreApi, MidtransError>)
        ensures
            r matches Ok(c),
            r->Ok_0.api_config.is_production == self.is_production,
            r->Ok_0.api_config.server_key@ == self.server_key@,
            r->Ok_0.api_config.client_key@ == match self.client_key {
                Some(k) => k@,
                None => Seq::<char>::empty(),
            },
            r->Ok_0.api_config.custom_headers == self.custom_headers,
            r->Ok_0.api_config.proxies == self.proxies,
    {
        let mut api_config = ApiConfig::new(self.is_production, self.server_key.clone());
        if let Some(key) = &self.client_key {
            api_config.client_key(key.clone());
        }
        if let Some(headers) = &self.custom_headers {
            api_config.custom_header(crate::config::clone_headers(headers));
        }
        if let Some(proxy) = &self.proxies {
            api_config.proxies(crate::config::clone_proxy(proxy));
        }
        let api_config = api_config.build();
        Ok(CoreApi { api_config })
    }
}

impl CoreApi {
    pub fn new(is_production: bool, server_key: String) -> (r: CoreApiBuilder)
        ensures
            r.is_production == is_production,
            r.server_key == server_key,
            r.client_key is None,
            r.custom_headers is None,
            r.proxies is None,
    {
        CoreApiBuilder { is_production, server_key, client_key: None, custom_headers: None, proxies: None }
    }

    /// Trigger `/charge` API call to Core API
    ///
    /// `parameters` is a `&str` of Core API JSON
    pub fn charge(&self, parameters: &str) -> (r: Result<ApiRequest, MidtransError>)
        ensures
            config_request_outcome(
                self.api_config,
                Method::Post,
                core_url(self.api_config, "/v2/charge"@),
                parameters@,
                r,
            ),
    {
        let api_url = join2(self.api_config.get_core_api_base_url(), "/v2/charge");
        config_request(&self.api_config, Method::Post, api_url.as_str(), parameters)
    }

    /// Trigger `/capture` API call to Core API
    ///
    /// `parameters` is a `&str` of Core API JSON
    pub fn capture(&self, parameters: &str) -> (r: Result<ApiRequest, MidtransError>)
        ensures
            config_request_outcome(
                self.api_config,
                Method::Post,
                core_url(self.api_config, "/v2/capture"@),
                parameters@,
                r,
            ),
    {
        let api_url = join2(self.api_config.get_core_api_base_url(), "/v2/capture");
        config_request(&self.api_config, Method::Post, api_url.as_str(), parameters)
    }

    /// Trigger `/card/register` API call to Core API
    ///
    /// `parameters` is a `&str` of Core API JSON
    pub fn card_register(&self, parameters: &str) -> (r: Result<ApiRequest, MidtransError>)
        ensures
            config_request_outcome(
                self.api_config,
                Method::Get,
                core_url(self.api_config, "/v2/card/register"@),
                parameters@,
                r,
            ),
    {
        let api_url = join2(self.api_config.get_core_api_base_url(), "/v2/card/register");
        config_request(&self.api_config, Method::Get, api_url.as_str(), parameters)
    }

    /// Trigger `/token` API call to Core API
    ///
    /// `parameters` is a `&str` of Core API JSON
    pub fn card_token(&self, parameters: &str) -> (r: Result<ApiRequest, MidtransError>)
        ensures
            config_request_outcome(
                self.api_config,
                Method::Get,
                core_url(self.api_config, "/v2/token"@),
                parameters@,
                r,
            ),
    {
        let api_url = join2(self.api_config.get_core_api_base_url(), "/v2/token");
        config_request(&self.api_config, Method::Get, api_url.as_str(), parameters)
    }

    /// Trigger `/v1/subscriptions` API call to Core API
    ///
    /// `parameters` is a `&str` of Core API JSON
    pub fn create_subscription(&self, parameters: &str) -> (r: Result<ApiRequest, MidtransError>)
        ensures
            config_request_outcome(
                self.api_config,
                Method::Post,
                core_url(self.api_config, "/v1/subscriptions"@),
                parameters@,
                r,
            ),
    {
        let api_url = join2(self.api_config.get_core_api_base_url(), "/v1/subscriptions");
        config_request(&self.api_config, Method::Post, api_url.as_str(), parameters)
    }

    /// Trigger `/v2/pay/account` API call to Core API
    ///
    /// `parameters` is a `&str` of Core API JSON
    pub fn link_payment_account(&self, parameters: &str) -> (r: Result<ApiRequest, MidtransError>)
        ensures
            config_request_outcome(
                self.api_config,
                Method::Post,
                core_url(self.api_config, "/v2/pay/account"@),
                parameters@,
                r,
            ),
    {
        let api_url = join2(self.api_config.get_core_api_base_url(), "/v2/pay/account");
        config_request(&self.api_config, Method::Post, api_url.as_str(), parameters)
    }

    /// Trigger `/point_inquiry/<token-id>` API call to Core API
    pub fn card_point_inquiry(&self, token_id: &str) -> (r: Result<ApiRequest, MidtransError>)
        ensures
            config_request_outcome(
                self.api_config,
                Method::Get,
                core_url(self.api_config, "/v2/point_inquiry/"@ + token_id@),
                Seq::empty(),
                r,
            ),
    {
        let api_url = join3(self.api_config.get_core_api_base_url(), "/v2/point_inquiry/", token_id);
        proof {
            reveal_strlit("");
        }
        assert(api_url@ =~= core_url(self.api_config, "/v2/point_inquiry/"@ + token_id@));
        config_request(&self.api_config, Method::Get, api_url.as_str(), "")
    }

    /// Trigger `/v1/subscriptions/<subscription_id>` API call to Core API
    pub fn get_subscription(&self, subscription_id: &str) -> (r: Result<ApiRequest, MidtransError>)
        ensures
            config_request_outcome(
                self.api_config,
                Method::Get,
                core_url(self.api_config, "/v1/subscriptions/"@ + subscription_id@),
                Seq::empty(),
                r,
            ),
    {
        let api_url = join3(self.api_config.get_core_api_base_url(), "/v1/subscriptions/", subscription_id);
        proof {
            reveal_strlit("");
        }
        assert(api_url@ =~= core_url(self.api_config, "/v1/subscriptions/"@ + subscription_id@));
        config_request(&self.api_config, Method::Get, api_url.as_str(), "")
    }

    /// Trigger `/v1/subscriptions/<subscription_id>/disable` API call to Core API
    pub fn disable_subscription(&self, subscription_id: &str) -> (r: Result<ApiRequest, MidtransError>)
        ensures
            config_request_outcome(
                self.api_config,
                Method::Post,
                core_url(self.api_config, "/v1/subscriptions/"@ + subscription_id@ + "/disable"@),
                Seq::empty(),
                r,
            ),
    {
        let mut api_url = join3(self.api_config.get_core_api_base_url(), "/v1/subscriptions/", subscription_id);
        api_url.append("/disable");
        proof {
            reveal_strlit("");
        }
        assert(api_url@ =~= core_url(self.api_config, "/v1/subscriptions/"@ + subscription_id@ + "/disable"@));
        config_request(&self.api_config, Method::Post, api_url.as_str(), "")
    }

    /// Trigger `/v1/subscriptions/<subscription_id>/enable` API call to Core API
    pub fn enable_subscription(&self, subscription_id: &str) -> (r: Result<ApiRequest, MidtransError>)
        ensures
            config_request_outcome(
                self.api_config,
                Method::Post,
                core_url(self.api_config, "/v1/subscriptions/"@ + subscription_id@ + "/enable"@),
                Seq::empty(),
                r,
            ),
    {
        let mut api_url = join3(self.api_config.get_core_api_base_url(), "/v1/subscriptions/", subscription_id);
        api_url.append("/enable");
        proof {
            reveal_strlit("");
        }
        assert(api_url@ =~= core_url(self.api_config, "/v1/subscriptions/"@ + subscription_id@ + "/enable"@));
        config_request(&self.api_config, Method::Post, api_url.as_str(), "")
    }

    /// Trigger `/v2/pay/account/<account-id>` API call to Core API
    pub fn get_payment_account(&self, account_id: &str) -> (r: Result<ApiRequest, MidtransError>)
        ensures
            config_request_outcome(
                self.api_config,
                Method::Get,
                core_url(self.api_config, "/v2/pay/account/"@ + account_id@),
                Seq::empty(),
                r,
            ),
    {
        let api_url = join3(self.api_config.get_core_api_base_url(), "/v2/pay/account/", account_id);
        proof {
            reveal_strlit("");
        }
        assert(api_url@ =~= core_url(self.api_config, "/v2/pay/account/"@ + account_id@));
        config_request(&self.api_config, Method::Get, api_url.as_str(), "")
    }

    /// Trigger `/v2/pay/account/<account-id>/unbind` API call to Core API
    pub fn unlink_payment_account(&self, account_id: &str) -> (r: Result<ApiRequest, MidtransError>)
        ensures
            config_request_outcome(
                self.api_config,
                Method::Post,
                core_url(self.api_config, "/v2/pay/account/"@ + account_id@ + "/unbind"@),
                Seq::empty(),
                r,
            ),
    {
        let mut api_url = join3(self.api_config.get_core_api_base_url(), "/v2/pay/account/", account_id);
        api_url.append("/unbind");
        proof {
            reveal_strlit("");
        }
        assert(api_url@ =~= core_url(self.api_config, "/v2/pay/account/"@ + account_id@ + "/unbind"@));
        config_request(&self.api_config, Method::Post, api_url.as_str(), "")
    }

    /// Trigger `/v1/subscriptions/<subscription_id>` API call to Core API, to update it
    pub fn update_subscription(&self, subscription_id: &str, parameters: &str) -> (r: Result<
        ApiRequest,
        MidtransError,
    >)
        ensures
            config_request_outcome(
                self.api_config,
                Method::Patch,
                core_url(self.api_config, "/v1/subscriptions/"@ + subscription_id@),
                parameters@,
                r,
            ),
    {
        let api_url = join3(self.api_config.get_core_api_base_url(), "/v1/subscriptions/", subscription_id);
        assert(api_url@ =~= core_url(self.api_config, "/v1/subscriptions/"@ + subscription_id@));
        config_request(&self.api_config, Method::Patch, api_url.as_str(), parameters)
    }
}

} // verus!
