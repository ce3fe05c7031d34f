//! The endpoint that the rows of a query are sent to.

use crate::config::error::{ConfigError, ConfigErrorView, outcome};
pub use crate::config::request_config::RequestConfig;
use crate::config::request_config::RequestConfigView;
use crate::config::string_map::StringMap;
use crate::text::{blank, is_blank, same_text};
use vstd::prelude::*;
use vstd::string::StringExecFns;

verus! {

/// How the tool proves to an endpoint who it is.
#[derive(Debug, PartialEq)]
#[allow(inconsistent_fields)]
pub enum EndpointAuth {
    Bearer { token: String, header_name: Option<String> },
    ApiKey { header_name: String, token: String },
    Basic { username: String, password: String },
    OAuth2 { client_id: String, client_secret: String, token_url: String },
}

/// The model of [`EndpointAuth`]: its texts as sequences of characters.
#[allow(inconsistent_fields)]
pub enum EndpointAuthView {
    Bearer { token: Seq<char>, header_name: Option<Seq<char>> },
    ApiKey { header_name: Seq<char>, token: Seq<char> },
    Basic { username: Seq<char>, password: Seq<char> },
    OAuth2 { client_id: Seq<char>, client_secret: Seq<char>, token_url: Seq<char> },
}

impl DeepView for EndpointAuth {
    type V = EndpointAuthView;

    open spec fn deep_view(&self) -> EndpointAuthView {
        match *self {
            EndpointAuth::Bearer { token, header_name } => EndpointAuthView::Bearer {
                token: token@,
                header_name: header_name.deep_view(),
            },
            EndpointAuth::ApiKey { header_name, token } => EndpointAuthView::ApiKey {
                header_name: header_name@,
                token: token@,
            },
            EndpointAuth::Basic { username, password } => EndpointAuthView::Basic {
                username: username@,
                password: password@,
            },
            EndpointAuth::OAuth2 { client_id, client_secret, token_url } => EndpointAuthView::OAuth2 {
                client_id: client_id@,
                client_secret: client_secret@,
                token_url: token_url@,
            },
        }
    }
}

impl Clone for EndpointAuth {
    fn clone(&self) -> (r: Self)
        ensures
            r.deep_view() == self.deep_view(),
    {
        match self {
            EndpointAuth::Bearer { token, header_name } => EndpointAuth::Bearer {
                token: token.clone(),
                header_name: header_name.clone(),
            },
            EndpointAuth::ApiKey { header_name, token } => EndpointAuth::ApiKey {
                header_name: header_name.clone(),
                token: token.clone(),
            },
            EndpointAuth::Basic { username, password } => EndpointAuth::Basic {
                username: username.clone(),
                password: password.clone(),
            },
            EndpointAuth::OAuth2 { client_id, client_secret, token_url } => EndpointAuth::OAuth2 {
                client_id: client_id.clone(),
                client_secret: client_secret.clone(),
                token_url: token_url.clone(),
            },
        }
    }
}

/// Which answers of an endpoint count as success, and what to do with a
/// record that it has already.
#[derive(Debug, PartialEq)]
pub struct ResponseConfig {
    pub success_codes: Vec<u16>,
    pub handle_duplicates: String,
}

/// The model of [`ResponseConfig`]: its texts as sequences of characters.
pub struct ResponseConfigView {
    pub success_codes: Seq<u16>,
    pub handle_duplicates: Seq<char>,
}

impl DeepView for ResponseConfig {
    type V = ResponseConfigView;

    open spec fn deep_view(&self) -> ResponseConfigView {
        ResponseConfigView {
            success_codes: self.success_codes@,
            handle_duplicates: self.handle_duplicates@,
        }
    }
}

impl Clone for ResponseConfig {
    fn clone(&self) -> (r: Self)
        ensures
            r.deep_view() == self.deep_view(),
    {
        let r = ResponseConfig {
            success_codes: self.success_codes.clone(),
            handle_duplicates: self.handle_duplicates.clone(),
        };
        assert(r.success_codes@ =~= self.success_codes@);
        r
    }
}

/// Where the rows of a query are sent.
#[derive(Debug, PartialEq)]
pub struct EndpointConfig {
    pub url: String,
    pub method: String,
    pub auth: Option<EndpointAuth>,
    pub headers: Option<StringMap<String>>,
    pub request: RequestConfig,
    pub response: Option<ResponseConfig>,
}

/// The model of [`EndpointConfig`]: its texts as sequences of characters.
pub struct EndpointConfigView {
    pub url: Seq<char>,
    pub method: Seq<char>,
    pub auth: Option<EndpointAuthView>,
    pub headers: Option<Seq<(Seq<char>, Seq<char>)>>,
    pub request: RequestConfigView,
    pub response: Option<ResponseConfigView>,
}

impl DeepView for EndpointConfig {
    type V = EndpointConfigView;

    open spec fn deep_view(&self) -> EndpointConfigView {
        EndpointConfigView {
            url: self.url@,
            method: self.method@,
            auth: self.auth.deep_view(),
            headers: self.headers.deep_view(),
            request: self.request.deep_view(),
            response: self.response.deep_view(),
        }
    }
}

impl Clone for EndpointConfig {
    fn clone(&self) -> (r: Self)
        ensures
            r.deep_view() == self.deep_view(),
    {
        let r = EndpointConfig {
            url: self.url.clone(),
            method: self.method.clone(),
            auth: self.auth.clone(),
            headers: self.headers.clone(),
            request: self.request.clone(),
            response: self.response.clone(),
        };
        assert(r.headers.deep_view() =~= self.headers.deep_view());
        r
    }
}

/// The methods that an endpoint can be called with: `GET`, `POST`, `PUT`,
/// `PATCH`, `DELETE`, `WRITE`, in capitals.
pub open spec fn http_method(s: Seq<char>) -> bool {
    s == "GET"@ || s == "POST"@ || s == "PUT"@ || s == "PATCH"@ || s == "DELETE"@ || s
        == "WRITE"@
}

/// Whether `s` is a method that an endpoint can be called with.
pub fn is_http_method(s: &str) -> (r: bool)
    ensures
        r == http_method(s@),
{
    same_text(s, "GET") || same_text(s, "POST") || same_text(s, "PUT") || same_text(s, "PATCH")
        || same_text(s, "DELETE") || same_text(s, "WRITE")
}

impl EndpointConfigView {
    /// The endpoint at `url`, called with `method`, with the request policy
    /// that an endpoint has when it names none.
    pub open spec fn new(url: Seq<char>, method: Seq<char>) -> EndpointConfigView {
        EndpointConfigView {
            url,
            method,
            auth: None,
            headers: None,
            request: RequestConfigView::default_value(),
            response: None,
        }
    }

    /// The first rule that the endpoint breaks, if any: a URL that is not
    /// blank, then a known method. The field is reported under `endpoint`.
    pub open spec fn check(self) -> Result<(), ConfigErrorView> {
        if blank(self.url) {
            Err(ConfigErrorView::MissingRequiredField("endpoint.url"@))
        } else if !http_method(self.method) {
            Err(ConfigErrorView::InvalidValue { field: "endpoint.method"@, value: self.method })
        } else {
            Ok(())
        }
    }
}

impl EndpointConfig {
    /// The endpoint at `url`, called with `method`; everything else is as
    /// in a document that leaves it out.
    pub fn new(url: String, method: String) -> (r: Self)
        ensures
            r.deep_view() == EndpointConfigView::new(url@, method@),
    {
        EndpointConfig {
            url,
            method,
            auth: None,
            headers: None,
            request: RequestConfig::default(),
            response: None,
        }
    }

    /// Checks the endpoint and reports the first rule that it breaks.
    pub fn validate(&self) -> (r: Result<(), ConfigError>)
        ensures
            outcome(r) == self.deep_view().check(),
    {
        if is_blank(self.url.as_str()) {
            return Err(ConfigError::MissingRequiredField(String::from_str("endpoint.url")));
        }
        if !is_http_method(self.method.as_str()) {
            return Err(
                ConfigError::InvalidValue {
                    field: String::from_str("endpoint.method"),
                    value: self.method.clone(),
                },
            );
        }
        Ok(())
    }
}

} // verus!
