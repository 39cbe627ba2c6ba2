//! Transactions: the lifecycle operations shared by both API clients.

use vstd::prelude::*;
use crate::config::{ApiConfig, clone_opt_headers, clone_opt_proxy, core_api_base_url_of};
use crate::error_midtrans::MidtransError;
use crate::http_client::{ApiRequest, Method, payload_object, prepare_request, request_outcome};
use crate::json::{JsonObject, JsonValue, decode_object, decoded_object, json_error, text_of, texts_of};

verus! {

/// The member of a notification that names its transaction.
pub const TRANSACTION_ID_KEY: &'static str = "transaction_id";

/// `a` and `b` written one after the other.
pub(crate) fn join2(a: &str, b: &str) -> (r: String)
    ensures
        r@ == a@ + b@,
{
    let mut s = String::from_str(a);
    s.append(b);
    s
}

/// `a`, `b` and `c` written one after the other.
pub(crate) fn join3(a: &str, b: &str, c: &str) -> (r: String)
    ensures
        r@ == a@ + b@ + c@,
{
    let mut s = join2(a, b);
    s.append(c);
    s
}

/// `a`, `b`, `c` and `d` written one after the other.
pub(crate) fn join4(a: &str, b: &str, c: &str, d: &str) -> (r: String)
    ensures
        r@ == a@ + b@ + c@ + d@,
{
    let mut s = join3(a, b, c);
    s.append(d);
    s
}

/// The request that `config` makes with `method` to `url`, carrying `parameters`.
pub open spec fn config_request_outcome(
    config: ApiConfig,
    method: Method,
    url: Seq<char>,
    parameters: Seq<char>,
    r: Result<ApiRequest, MidtransError>,
) -> bool {
    request_outcome(
        method,
        config.server_key@,
        url,
        parameters,
        config.custom_headers,
        config.proxies,
        r,
    )
}

/// The URL of a lifecycle operation on one transaction.
pub open spec fn transaction_url(config: ApiConfig, transaction_id: Seq<char>, suffix: Seq<char>) -> Seq<
    char,
> {
    core_api_base_url_of(config.is_production) + "/v2/"@ + transaction_id + suffix
}

/// Prepares a request with the credentials, headers and proxy of `config`.
pub(crate) fn config_request(config: &ApiConfig, method: Method, url: &str, parameters: &str) -> (r:
    Result<ApiRequest, MidtransError>)
    ensures
        config_request_outcome(*config, method, url@, parameters@, r),
{
    prepare_request(
        method,
        config.server_key.as_str(),
        url,
        parameters,
        clone_opt_headers(&config.custom_headers),
        clone_opt_proxy(&config.proxies),
    )
}

/// Prepares a lifecycle operation on one transaction of the core API.
fn transaction_request(
    config: &ApiConfig,
    method: Method,
    transaction_id: &str,
    suffix: &str,
    parameters: &str,
) -> (r: Result<ApiRequest, MidtransError>)
    ensures
        config_request_outcome(
            *config,
            method,
            transaction_url(*config, transaction_id@, suffix@),
            parameters@,
            r,
        ),
{
    let url = join4(config.get_core_api_base_url(), "/v2/", transaction_id, suffix);
    config_request(config, method, url.as_str(), parameters)
}

/// What a lifecycle query of `status` on one transaction gives.
pub open spec fn status_outcome(
    config: ApiConfig,
    transaction_id: Seq<char>,
    r: Result<ApiRequest, MidtransError>,
) -> bool {
    config_request_outcome(
        config,
        Method::Get,
        transaction_url(config, transaction_id, "/status"@),
        Seq::empty(),
        r,
    )
}

/// What decoding a notification text and re-querying its transaction gives:
/// the status query of the transaction it names, or a JSON decode error where
/// the text is no JSON object or names no transaction by a string.
pub open spec fn notification_outcome(
    config: ApiConfig,
    notification: Seq<char>,
    r: Result<ApiRequest, MidtransError>,
) -> bool {
    match decoded_object(notification) {
        Some(m) if m.contains_key(TRANSACTION_ID_KEY@) && m[TRANSACTION_ID_KEY@] is Some => status_outcome(
            config,
            m[TRANSACTION_ID_KEY@]->Some_0,
            r,
        ),
        _ => r matches Err(MidtransError::JsonDecodeError(_)),
    }
}

/// A notification that names transaction `id` leads to the very request that a
/// `status` query for `id` makes: same verb, URL, credentials, headers and proxy,
/// and no parameters.
pub proof fn lemma_notification_requeries_status(
    config: ApiConfig,
    notification: Seq<char>,
    id: Seq<char>,
    from_notification: Result<ApiRequest, MidtransError>,
    from_status: Result<ApiRequest, MidtransError>,
)
    requires
        decoded_object(notification) matches Some(m) && m.contains_key(TRANSACTION_ID_KEY@)
            && m[TRANSACTION_ID_KEY@] == Some(id),
        notification_outcome(config, notification, from_notification),
        status_outcome(config, id, from_status),
    ensures
        from_notification matches Ok(a),
        from_status matches Ok(b),
        from_notification->Ok_0.method == from_status->Ok_0.method,
        from_notification->Ok_0.url@ == from_status->Ok_0.url@,
        from_notification->Ok_0.username@ == from_status->Ok_0.username@,
        from_notification->Ok_0.password@ == from_status->Ok_0.password@,
        from_notification->Ok_0.custom_headers == from_status->Ok_0.custom_headers,
        from_notification->Ok_0.proxies == from_status->Ok_0.proxies,
        texts_of(payload_object(from_notification->Ok_0.payload)@) == texts_of(
            payload_object(from_status->Ok_0.payload)@,
        ),
        payload_object(from_status->Ok_0.payload)@ == Map::<Seq<char>, JsonValue>::empty(),
{
    assert(texts_of(payload_object(from_status->Ok_0.payload)@).dom() =~= payload_object(
        from_status->Ok_0.payload,
    )@.dom());
}

pub trait Transactions {
    /// The configuration that the client holds.
    spec fn config_view(&self) -> ApiConfig;

    fn get_api_config(&self) -> (r: &ApiConfig)
        ensures
            *r == self.config_view(),
    ;

    fn set_api_config(&mut self, api_config: ApiConfig)
        ensures
            final(self).config_view() == api_config,
    ;

    fn status(&self, transaction_id: String) -> (r: Result<ApiRequest, MidtransError>)
        ensures
            status_outcome(self.config_view(), transaction_id@, r),
    {
        proof {
            reveal_strlit("");
        }
        transaction_request(self.get_api_config(), Method::Get, transaction_id.as_str(), "/status", "")
    }

    fn statusb2b(&self, transaction_id: String) -> (r: Result<ApiRequest, MidtransError>)
        ensures
            config_request_outcome(
                self.config_view(),
                Method::Get,
                transaction_url(self.config_view(), transaction_id@, "/status/b2b"@),
                Seq::empty(),
                r,
            ),
    {
        proof {
            reveal_strlit("");
        }
        transaction_request(
            self.get_api_config(),
            Method::Get,
            transaction_id.as_str(),
            "/status/b2b",
            "",
        )
    }

    fn approve(&self, transaction_id: String) -> (r: Result<ApiRequest, MidtransError>)
        ensures
            config_request_outcome(
                self.config_view(),
                Method::Post,
                transaction_url(self.config_view(), transaction_id@, "/approve"@),
                Seq::empty(),
                r,
            ),
    {
        proof {
            reveal_strlit("");
        }
        transaction_request(self.get_api_config(), Method::Post, transaction_id.as_str(), "/approve", "")
    }

    fn deny(&self, transaction_id: String) -> (r: Result<ApiRequest, MidtransError>)
        ensures
            config_request_outcome(
                self.config_view(),
                Method::Post,
                transaction_url(self.config_view(), transaction_id@, "/deny"@),
                Seq::empty(),
                r,
            ),
    {
        proof {
            reveal_strlit("");
        }
        transaction_request(self.get_api_config(), Method::Post, transaction_id.as_str(), "/deny", "")
    }

    fn cancel(&self, transaction_id: String) -> (r: Result<ApiRequest, MidtransError>)
        ensures
            config_request_outcome(
                self.config_view(),
                Method::Post,
                transaction_url(self.config_view(), transaction_id@, "/cancel"@),
                Seq::empty(),
                r,
            ),
    {
        proof {
            reveal_strlit("");
        }
        transaction_request(self.get_api_config(), Method::Post, transaction_id.as_str(), "/cancel", "")
    }

    fn expire(&self, transaction_id: String) -> (r: Result<ApiRequest, MidtransError>)
        ensures
            config_request_outcome(
                self.config_view(),
                Method::Post,
                transaction_url(self.config_view(), transaction_id@, "/expire"@),
                Seq::empty(),
                r,
            ),
    {
        proof {
            reveal_strlit("");
        }
        transaction_request(self.get_api_config(), Method::Post, transaction_id.as_str(), "/expire", "")
    }

    fn refund(&self, transaction_id: String, parameters: &str) -> (r: Result<ApiRequest, MidtransError>)
        ensures
            config_request_outcome(
                self.config_view(),
                Method::Post,
                transaction_url(self.config_view(), transaction_id@, "/refund"@),
                parameters@,
                r,
            ),
    {
        transaction_request(
            self.get_api_config(),
            Method::Post,
            transaction_id.as_str(),
            "/refund",
            parameters,
        )
    }

    fn refund_direct(&self, transaction_id: String, parameters: &str) -> (r: Result<
        ApiRequest,
        MidtransError,
    >)
        ensures
            config_request_outcome(
                self.config_view(),
                Method::Post,
                transaction_url(self.config_view(), transaction_id@, "/refund/online/direct"@),
                parameters@,
                r,
            ),
    {
        transaction_request(
            self.get_api_config(),
            Method::Post,
            transaction_id.as_str(),
            "/refund/online/direct",
            parameters,
        )
    }

    /// Re-queries the status of the transaction that a notification names.
    fn notification_from_json(&self, notification: JsonObject) -> (r: Result<ApiRequest, MidtransError>)
        ensures
            match notification@.get(TRANSACTION_ID_KEY@) {
                Some(v) if text_of(v) is Some => config_request_outcome(
                    self.config_view(),
                    Method::Get,
                    transaction_url(self.config_view(), text_of(v)->Some_0, "/status"@),
                    Seq::empty(),
                    r,
                ),
                _ => r matches Err(MidtransError::JsonDecodeError(_)),
            },
    {
        match notification.get(TRANSACTION_ID_KEY) {
            Some(JsonValue::Text(id)) => self.status(id.clone()),
            _ => Err(MidtransError::JsonDecodeError(json_error("notification has no transaction_id string"))),
        }
    }

    /// Decodes a notification and re-queries the status of the transaction it names.
    fn notification_from_str(&self, notification: &str) -> (r: Result<ApiRequest, MidtransError>)
        ensures
            notification_outcome(self.config_view(), notification@, r),
            notification@.len() == 0 ==> r matches Err(MidtransError::JsonDecodeError(_)),
    {
        match decode_object(notification) {
            Ok(obj) => self.notification_from_json(obj),
            Err(e) => Err(MidtransError::JsonDecodeError(e)),
        }
    }
}

} // verus!
