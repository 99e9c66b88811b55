//! A request: one HTTP call, with what is needed to send it and what came back.

use crate::request::auth::{Auth, AuthView};
use crate::request::body::{ContentType, ContentTypeView};
use crate::request::key_value::{clone_rows, rows_view, KeyValue, KeyValueView};
use crate::request::method::Method;
use crate::request::response::{RequestResponse, RequestResponseView};
use crate::request::scripts::{RequestScripts, RequestScriptsView};
use crate::request::settings::RequestSettings;
use crate::utils::next_auth;
use crate::utils::text::{lowercase, same_text};
use vstd::prelude::*;
use vstd::string::*;

verus! {

#[derive(Debug, PartialEq, Eq)]
pub struct Request {
    pub name: String,
    pub url: String,
    pub method: Method,
    pub params: Vec<KeyValue>,
    pub headers: Vec<KeyValue>,
    pub body: ContentType,
    pub auth: Auth,
    pub scripts: RequestScripts,
    pub settings: RequestSettings,
    /// The result of the last execution. Never saved.
    pub response: RequestResponse,
    /// Whether an execution is under way. Never saved.
    pub is_pending: bool,
}

/// What a [`Request`] holds, as plain values.
pub struct RequestView {
    pub name: Seq<char>,
    pub url: Seq<char>,
    pub method: Method,
    pub params: Seq<KeyValueView>,
    pub headers: Seq<KeyValueView>,
    pub body: ContentTypeView,
    pub auth: AuthView,
    pub scripts: RequestScriptsView,
    pub settings: RequestSettings,
    pub response: RequestResponseView,
    pub is_pending: bool,
}

impl View for Request {
    type V = RequestView;

    open spec fn view(&self) -> RequestView {
        RequestView {
            name: self.name@,
            url: self.url@,
            method: self.method,
            params: rows_view(self.params@),
            headers: rows_view(self.headers@),
            body: self.body@,
            auth: self.auth@,
            scripts: self.scripts@,
            settings: self.settings,
            response: self.response@,
            is_pending: self.is_pending,
        }
    }
}

/// The headers that every new request starts with, all enabled.
pub open spec fn default_headers_view() -> Seq<KeyValueView> {
    seq![
        KeyValueView { key: "cache-control"@, value: "no-cache"@, enabled: true },
        KeyValueView { key: "user-agent"@, value: "ATAC/v0.16.0"@, enabled: true },
        KeyValueView { key: "accept"@, value: "*/*"@, enabled: true },
        KeyValueView { key: "accept-encoding"@, value: "gzip, deflate, br"@, enabled: true },
        KeyValueView { key: "connection"@, value: "keep-alive"@, enabled: true },
    ]
}

/// The headers that every new request starts with.
pub fn default_headers() -> (headers: Vec<KeyValue>)
    ensures
        rows_view(headers@) == default_headers_view(),
{
    let mut headers: Vec<KeyValue> = Vec::new();
    headers.push(KeyValue::new("cache-control", "no-cache"));
    headers.push(KeyValue::new("user-agent", "ATAC/v0.16.0"));
    headers.push(KeyValue::new("accept", "*/*"));
    headers.push(KeyValue::new("accept-encoding", "gzip, deflate, br"));
    headers.push(KeyValue::new("connection", "keep-alive"));
    headers
}

impl RequestView {
    /// The URL followed by the enabled parameters: `?`, then each as
    /// `key=value`, with `&` between them. Without an enabled parameter it is
    /// the URL alone.
    pub open spec fn url_with_params(self) -> Seq<char> {
        let pairs = enabled_pairs(self.params);
        if pairs.len() == 0 {
            self.url
        } else {
            self.url + "?"@ + join(pairs, "&"@)
        }
    }

    /// The request without the first header whose key is exactly `key`.
    pub open spec fn without_header(self, key: Seq<char>) -> RequestView {
        let position = position_of_key(self.headers, key);
        if position < self.headers.len() {
            RequestView { headers: self.headers.remove(position), ..self }
        } else {
            self
        }
    }

    /// The request with `value` in every header whose key is `key`, letter
    /// case aside, or, where there is none, with a new enabled header at the end.
    pub open spec fn with_header(self, key: Seq<char>, value: Seq<char>) -> RequestView {
        if exists|i: int| 0 <= i < self.headers.len() && key_matches(self.headers[i], key) {
            RequestView { headers: with_value_for_key(self.headers, key, value), ..self }
        } else {
            RequestView {
                headers: self.headers.push(KeyValueView { key: key, value: value, enabled: true }),
                ..self
            }
        }
    }

    /// A request with nothing set: method `Get`, no body, no authentication,
    /// every setting switched on, and not executed.
    pub open spec fn empty() -> RequestView {
        RequestView {
            name: Seq::empty(),
            url: Seq::empty(),
            method: Method::Get,
            params: Seq::empty(),
            headers: Seq::empty(),
            body: ContentTypeView::NoBody,
            auth: AuthView::NoAuth,
            scripts: RequestScriptsView { pre_request_script: None, post_request_script: None },
            settings: RequestSettings {
                use_config_proxy: true,
                allow_redirects: true,
                store_received_cookies: true,
                pretty_print_response_content: true,
            },
            response: RequestResponseView::empty(),
            is_pending: false,
        }
    }

    /// What is saved of a request: everything but the outcome of its execution.
    pub open spec fn persisted(self) -> RequestView {
        RequestView { response: RequestResponseView::empty(), is_pending: false, ..self }
    }
}

/// A parameter as it stands in a query string: key, `=`, value.
pub open spec fn pair_text(param: KeyValueView) -> Seq<char> {
    param.key + "="@ + param.value
}

/// The enabled rows of `params` as they stand in a query string, in order.
/// Disabled rows leave no trace.
pub open spec fn enabled_pairs(params: Seq<KeyValueView>) -> Seq<Seq<char>>
    decreases params.len(),
{
    if params.len() == 0 {
        Seq::empty()
    } else if params.last().enabled {
        enabled_pairs(params.drop_last()).push(pair_text(params.last()))
    } else {
        enabled_pairs(params.drop_last())
    }
}

/// The parts, with `separator` between each two neighbours.
pub open spec fn join(parts: Seq<Seq<char>>, separator: Seq<char>) -> Seq<char>
    decreases parts.len(),
{
    if parts.len() == 0 {
        Seq::empty()
    } else if parts.len() == 1 {
        parts[0]
    } else {
        join(parts.drop_last(), separator) + separator + parts.last()
    }
}

/// The position of the first row whose key is `key`, or the number of rows
/// where there is none.
pub open spec fn position_of_key(rows: Seq<KeyValueView>, key: Seq<char>) -> int
    decreases rows.len(),
{
    if rows.len() == 0 {
        0
    } else if rows[0].key == key {
        0
    } else {
        1 + position_of_key(rows.drop_first(), key)
    }
}

/// Whether the key of `row` is `key`, letter case aside.
pub open spec fn key_matches(row: KeyValueView, key: Seq<char>) -> bool {
    lowercase(row.key) == lowercase(key)
}

/// The rows, with the value of every row whose key is `key`, letter case
/// aside, replaced by `value`.
pub open spec fn with_value_for_key(
    rows: Seq<KeyValueView>,
    key: Seq<char>,
    value: Seq<char>,
) -> Seq<KeyValueView> {
    Seq::new(
        rows.len(),
        |i: int|
            if key_matches(rows[i], key) {
                KeyValueView { value: value, ..rows[i] }
            } else {
                rows[i]
            },
    )
}

impl Default for Request {
    fn default() -> (request: Request)
        ensures
            request@ == RequestView::empty(),
    {
        let request = Request {
            name: String::new(),
            url: String::new(),
            method: Method::default(),
            params: Vec::new(),
            headers: Vec::new(),
            body: ContentType::default(),
            auth: Auth::default(),
            scripts: RequestScripts::default(),
            settings: RequestSettings::default(),
            response: RequestResponse::default(),
            is_pending: false,
        };
        assert(request@.params =~= Seq::empty());
        request
    }
}

impl Clone for Request {
    fn clone(&self) -> (copy: Request)
        ensures
            copy@ == self@,
    {
        Request {
            name: self.name.clone(),
            url: self.url.clone(),
            method: self.method,
            params: clone_rows(&self.params),
            headers: clone_rows(&self.headers),
            body: self.body.clone(),
            auth: self.auth.clone(),
            scripts: self.scripts.clone(),
            settings: self.settings,
            response: self.response.clone(),
            is_pending: self.is_pending,
        }
    }
}

impl Request {
    /// A request called `name` with the default headers and nothing else set.
    pub fn new(name: String) -> (request: Request)
        ensures
            request@ == (RequestView {
                name: name@,
                headers: default_headers_view(),
                ..RequestView::empty()
            }),
    {
        let mut request = Request::default();
        request.name = name;
        request.headers = default_headers();
        request
    }

    /// The URL with the enabled parameters behind it.
    pub fn url_with_params_to_string(&self) -> (url: String)
        ensures
            url@ == self@.url_with_params(),
    {
        let mut query = String::new();
        let mut any_enabled = false;
        for index in 0..self.params.len()
            invariant
                any_enabled == (enabled_pairs(rows_view(self.params@).take(index as int)).len()
                    > 0),
                query@ == join(enabled_pairs(rows_view(self.params@).take(index as int)), "&"@),
        {
            let param = &self.params[index];
            proof {
                let rows = rows_view(self.params@);
                assert(rows.take(index + 1).drop_last() =~= rows.take(index as int));
                let before = enabled_pairs(rows.take(index as int));
                if param.enabled {
                    assert(before.push(pair_text(param@)).drop_last() =~= before);
                }
            }
            if param.enabled {
                if any_enabled {
                    query.append("&");
                }
                query.append(param.data.0.as_str());
                query.append("=");
                query.append(param.data.1.as_str());
                any_enabled = true;
            }
        }
        proof {
            let rows = rows_view(self.params@);
            assert(rows.take(self.params@.len() as int) =~= rows);
        }
        let mut url = self.url.clone();
        if any_enabled {
            url.append("?");
            url.append(query.as_str());
        }
        url
    }

    /// Removes the first header whose key is exactly `input_header`, if there is one.
    pub fn find_and_delete_header(&mut self, input_header: &str)
        ensures
            final(self)@ == old(self)@.without_header(input_header@),
    {
        let mut index: usize = 0;
        proof {
            assert(rows_view(self.headers@).skip(0) =~= rows_view(self.headers@));
        }
        while index < self.headers.len()
            invariant
                *self == *old(self),
                index <= self.headers@.len(),
                position_of_key(rows_view(self.headers@), input_header@) == index
                    + position_of_key(
                    rows_view(self.headers@).skip(index as int),
                    input_header@,
                ),
            decreases self.headers@.len() - index,
        {
            proof {
                let rest = rows_view(self.headers@).skip(index as int);
                assert(rest.drop_first() =~= rows_view(self.headers@).skip(index + 1));
            }
            if same_text(self.headers[index].data.0.as_str(), input_header) {
                self.headers.remove(index);
                proof {
                    assert(rows_view(self.headers@) =~= rows_view(old(self).headers@).remove(
                        index as int,
                    ));
                }
                return ;
            }
            index += 1;
        }
    }

    /// Sets the value of every header whose key is `input_header`, letter case
    /// aside. Where there is none, adds an enabled header at the end.
    pub fn modify_or_create_header(&mut self, input_header: &str, value: &str)
        ensures
            final(self)@ == old(self)@.with_header(input_header@, value@),
    {
        let wanted = input_header.to_lowercase();
        let mut was_header_found = false;
        let count = self.headers.len();
        for index in 0..count
            invariant
                wanted@ == lowercase(input_header@),
                count == self.headers@.len(),
                self.headers@.len() == old(self).headers@.len(),
                self@ == (RequestView { headers: self@.headers, ..old(self)@ }),
                was_header_found == (exists|i: int|
                    0 <= i < index && key_matches(
                        #[trigger] old(self).headers@[i]@,
                        input_header@,
                    )),
                forall|i: int|
                    0 <= i < index ==> (#[trigger] self.headers@[i])@ == if key_matches(
                        old(self).headers@[i]@,
                        input_header@,
                    ) {
                        KeyValueView { value: value@, ..old(self).headers@[i]@ }
                    } else {
                        old(self).headers@[i]@
                    },
                forall|i: int|
                    index <= i < count ==> (#[trigger] self.headers@[i])@ == old(
                        self,
                    ).headers@[i]@,
        {
            let matches = self.headers[index].data.0.as_str().to_lowercase() == wanted;
            if matches {
                self.headers[index].data.1 = value.to_string();
                was_header_found = true;
            }
        }
        let ghost rows = old(self)@.headers;
        proof {
            if was_header_found {
                let found = choose|i: int|
                    0 <= i < count && key_matches(
                        #[trigger] old(self).headers@[i]@,
                        input_header@,
                    );
                assert(key_matches(rows[found], input_header@));
            }
        }
        if !was_header_found {
            self.headers.push(KeyValue::new(input_header, value));
            proof {
                assert(self@.headers =~= rows.push(
                    KeyValueView { key: input_header@, value: value@, enabled: true },
                ));
            }
        } else {
            proof {
                assert(self@.headers =~= with_value_for_key(rows, input_header@, value@));
            }
        }
    }

    /// Takes the authentication that follows in the cycle.
    pub fn cycle_auth(&mut self)
        ensures
            final(self)@ == (RequestView { auth: old(self)@.auth.next(), ..old(self)@ }),
    {
        self.auth = next_auth(&self.auth);
    }

    /// Sets the user name of a basic authentication, and keeps its password.
    /// Does nothing to any other authentication.
    pub fn set_basic_auth_username(&mut self, username: String)
        ensures
            final(self)@ == (RequestView {
                auth: match old(self)@.auth {
                    AuthView::BasicAuth(_, password) => AuthView::BasicAuth(username@, password),
                    other => other,
                },
                ..old(self)@
            }),
    {
        let password = match &self.auth {
            Auth::BasicAuth(_, password) => password.clone(),
            _ => {
                return ;
            },
        };
        self.auth = Auth::BasicAuth(username, password);
    }

    /// Sets the password of a basic authentication, and keeps its user name.
    /// Does nothing to any other authentication.
    pub fn set_basic_auth_password(&mut self, password: String)
        ensures
            final(self)@ == (RequestView {
                auth: match old(self)@.auth {
                    AuthView::BasicAuth(username, _) => AuthView::BasicAuth(username, password@),
                    other => other,
                },
                ..old(self)@
            }),
    {
        let username = match &self.auth {
            Auth::BasicAuth(username, _) => username.clone(),
            _ => {
                return ;
            },
        };
        self.auth = Auth::BasicAuth(username, password);
    }

    /// Sets the token of a bearer authentication. Does nothing to any other
    /// authentication.
    pub fn set_bearer_token(&mut self, token: String)
        ensures
            final(self)@ == (RequestView {
                auth: match old(self)@.auth {
                    AuthView::BearerToken(_) => AuthView::BearerToken(token@),
                    other => other,
                },
                ..old(self)@
            }),
    {
        if let Auth::BearerToken(_) = &self.auth {
            self.auth = Auth::BearerToken(token);
        }
    }

    /// Gives the request another name.
    pub fn rename(&mut self, name: String)
        ensures
            final(self)@ == (RequestView { name: name@, ..old(self)@ }),
    {
        self.name = name;
    }
}

} // verus!
