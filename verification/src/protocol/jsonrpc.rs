//! The messages of JSON-RPC 2.0 that a host and a provider exchange.
use vstd::prelude::*;
use vstd::string::*;

use crate::json;
use crate::json::{Json, JsonNumber, JsonView};
use crate::keyed;
use crate::protocol;
use crate::protocol::fields;

verus! {

/// A request of the host.
#[derive(Debug)]
pub struct Request {
    pub jsonrpc: String,
    pub id: u64,
    pub method: String,
    pub params: Option<Json>,
}

#[verifier::ext_equal]
pub struct RequestView {
    pub jsonrpc: Seq<char>,
    pub id: u64,
    pub method: Seq<char>,
    pub params: Option<JsonView>,
}

impl View for Request {
    type V = RequestView;

    open spec fn view(&self) -> RequestView {
        RequestView {
            jsonrpc: self.jsonrpc@,
            id: self.id,
            method: self.method@,
            params: json::opt_json(self.params),
        }
    }
}

/// An error in a response.
#[derive(Debug)]
pub struct RpcError {
    pub code: i64,
    pub message: String,
    pub data: Option<Json>,
}

#[verifier::ext_equal]
pub struct RpcErrorView {
    pub code: i64,
    pub message: Seq<char>,
    pub data: Option<JsonView>,
}

impl View for RpcError {
    type V = RpcErrorView;

    open spec fn view(&self) -> RpcErrorView {
        RpcErrorView { code: self.code, message: self.message@, data: json::opt_json(self.data) }
    }
}

pub open spec fn opt_error(o: Option<RpcError>) -> Option<RpcErrorView> {
    match o {
        Some(e) => Some(e@),
        None => None,
    }
}

/// The response of the provider to a request.
#[derive(Debug)]
pub struct Response {
    pub jsonrpc: String,
    pub id: u64,
    pub result: Option<Json>,
    pub error: Option<RpcError>,
}

#[verifier::ext_equal]
pub struct ResponseView {
    pub jsonrpc: Seq<char>,
    pub id: u64,
    pub result: Option<JsonView>,
    pub error: Option<RpcErrorView>,
}

impl View for Response {
    type V = ResponseView;

    open spec fn view(&self) -> ResponseView {
        ResponseView {
            jsonrpc: self.jsonrpc@,
            id: self.id,
            result: json::opt_json(self.result),
            error: opt_error(self.error),
        }
    }
}

/// What the provider says without being asked.
#[derive(Debug)]
pub struct Notification {
    pub jsonrpc: String,
    pub method: String,
    pub params: Option<Json>,
}

#[verifier::ext_equal]
pub struct NotificationView {
    pub jsonrpc: Seq<char>,
    pub method: Seq<char>,
    pub params: Option<JsonView>,
}

impl View for Notification {
    type V = NotificationView;

    open spec fn view(&self) -> NotificationView {
        NotificationView { jsonrpc: self.jsonrpc@, method: self.method@, params: json::opt_json(self.params) }
    }
}

/// The JSON of a request.
pub open spec fn request_json(r: RequestView) -> JsonView {
    JsonView::Object(
        fields::with_some(
            Seq::empty()
                .push(("jsonrpc"@, JsonView::String(r.jsonrpc)))
                .push(("id"@, fields::number_json(r.id as nat)))
                .push(("method"@, JsonView::String(r.method))),
            "params"@,
            r.params,
        ),
    )
}

/// The JSON of an error.
pub open spec fn error_json(e: RpcErrorView) -> JsonView {
    JsonView::Object(
        fields::with_some(
            Seq::empty()
                .push(("code"@, JsonView::Number(json::number_of_i64(e.code))))
                .push(("message"@, JsonView::String(e.message))),
            "data"@,
            e.data,
        ),
    )
}

pub open spec fn opt_error_json(o: Option<RpcErrorView>) -> Option<JsonView> {
    match o {
        Some(e) => Some(error_json(e)),
        None => None,
    }
}

/// The JSON of a response.
pub open spec fn response_json(r: ResponseView) -> JsonView {
    JsonView::Object(
        fields::with_some(
            fields::with_some(
                Seq::empty()
                    .push(("jsonrpc"@, JsonView::String(r.jsonrpc)))
                    .push(("id"@, fields::number_json(r.id as nat))),
                "result"@,
                r.result,
            ),
            "error"@,
            opt_error_json(r.error),
        ),
    )
}

/// The JSON of a notification.
pub open spec fn notification_json(n: NotificationView) -> JsonView {
    JsonView::Object(
        fields::with_some(
            Seq::empty()
                .push(("jsonrpc"@, JsonView::String(n.jsonrpc)))
                .push(("method"@, JsonView::String(n.method))),
            "params"@,
            n.params,
        ),
    )
}

/// A member that may be missing or null.
pub open spec fn may_member(j: JsonView, i: int, key: Seq<char>) -> Option<JsonView> {
    match fields::at(j, i, key) {
        Some(JsonView::Null) => None,
        other => other,
    }
}

/// The request that a document stands for, if it stands for one.
pub open spec fn request_of(j: JsonView) -> Option<RequestView> {
    if fields::is_record(j, 3, 4) {
        match (
            fields::need_text(j, 0, "jsonrpc"@),
            fields::need_number(j, 1, "id"@, u64::MAX as nat),
            fields::need_text(j, 2, "method"@),
        ) {
            (Some(jsonrpc), Some(id), Some(method)) => Some(
                RequestView { jsonrpc, id: id as u64, method, params: may_member(j, 3, "params"@) },
            ),
            _ => None,
        }
    } else {
        None
    }
}

/// The error that a document stands for, if it stands for one.
pub open spec fn error_of(j: JsonView) -> Option<RpcErrorView> {
    if fields::is_record(j, 3, 3) {
        match (fields::at(j, 0, "code"@), fields::need_text(j, 1, "message"@)) {
            (Some(JsonView::Number(n)), Some(message)) => match json::number_as_i64(n) {
                Some(code) => Some(RpcErrorView { code, message, data: may_member(j, 2, "data"@) }),
                None => None,
            },
            _ => None,
        }
    } else {
        None
    }
}

/// The response that a document stands for, if it stands for one.
pub open spec fn response_of(j: JsonView) -> Option<ResponseView> {
    if fields::is_record(j, 4, 4) {
        match (fields::need_text(j, 0, "jsonrpc"@), fields::need_number(j, 1, "id"@, u64::MAX as nat)) {
            (Some(jsonrpc), Some(id)) => {
                let result = may_member(j, 2, "result"@);
                match may_member(j, 3, "error"@) {
                    None => Some(ResponseView { jsonrpc, id: id as u64, result, error: None }),
                    Some(e) => match error_of(e) {
                        Some(error) => Some(ResponseView { jsonrpc, id: id as u64, result, error: Some(error) }),
                        None => None,
                    },
                }
            },
            _ => None,
        }
    } else {
        None
    }
}

/// The notification that a document stands for, if it stands for one.
pub open spec fn notification_of(j: JsonView) -> Option<NotificationView> {
    if fields::is_record(j, 2, 3) {
        match (fields::need_text(j, 0, "jsonrpc"@), fields::need_text(j, 1, "method"@)) {
            (Some(jsonrpc), Some(method)) => Some(
                NotificationView { jsonrpc, method, params: may_member(j, 2, "params"@) },
            ),
            _ => None,
        }
    } else {
        None
    }
}

fn get_may_member(j: &Json, i: usize, key: &str) -> (r: Option<Json>)
    ensures
        json::opt_json(r) == may_member(j@, i as int, key@),
{
    match fields::get_at(j, i, key) {
        None => None,
        Some(Json::Null) => None,
        Some(m) => Some(m.clone()),
    }
}

fn put_some(members: &mut Vec<(String, Json)>, key: &str, o: &Option<Json>)
    ensures
        json::object_view(final(members)@) == fields::with_some(
            json::object_view(old(members)@),
            key@,
            json::opt_json(*o),
        ),
{
    if let Some(j) = o {
        fields::put(members, key, j.clone());
    }
}

impl Request {
    /// A request of a method.
    pub fn new(id: u64, method: &str, params: Json) -> (r: Request)
        ensures
            r@ == (RequestView { jsonrpc: "2.0"@, id, method: method@, params: Some(params@) }),
    {
        Request { jsonrpc: "2.0".to_owned(), id, method: method.to_owned(), params: Some(params) }
    }

    /// The JSON of the request.
    pub fn to_json(&self) -> (r: Json)
        ensures
            r@ == request_json(self@),
    {
        let mut m: Vec<(String, Json)> = Vec::new();
        fields::put(&mut m, "jsonrpc", Json::String(self.jsonrpc.clone()));
        fields::put(&mut m, "id", Json::Number(JsonNumber::PosInt(self.id)));
        fields::put(&mut m, "method", Json::String(self.method.clone()));
        put_some(&mut m, "params", &self.params);
        Json::Object(m)
    }

    /// The request that a document stands for.
    pub fn from_json(j: &Json) -> (r: Option<Request>)
        ensures
            match r {
                Some(q) => request_of(j@) == Some(q@),
                None => request_of(j@) is None,
            },
    {
        if !fields::has_record(j, 3, 4) {
            return None;
        }
        let jsonrpc = match fields::get_need_text(j, 0, "jsonrpc") {
            Some(s) => s,
            None => return None,
        };
        let id: u64 = match fields::get_need_number(j, 1, "id", u64::MAX) {
            Some(n) => n,
            None => return None,
        };
        let method = match fields::get_need_text(j, 2, "method") {
            Some(s) => s,
            None => return None,
        };
        Some(Request { jsonrpc, id, method, params: get_may_member(j, 3, "params") })
    }
}

impl RpcError {
    /// The JSON of the error.
    pub fn to_json(&self) -> (r: Json)
        ensures
            r@ == error_json(self@),
    {
        let mut m: Vec<(String, Json)> = Vec::new();
        fields::put(&mut m, "code", Json::Number(JsonNumber::of_i64(self.code)));
        fields::put(&mut m, "message", Json::String(self.message.clone()));
        put_some(&mut m, "data", &self.data);
        Json::Object(m)
    }

    /// The error that a document stands for.
    pub fn from_json(j: &Json) -> (r: Option<RpcError>)
        ensures
            match r {
                Some(e) => error_of(j@) == Some(e@),
                None => error_of(j@) is None,
            },
    {
        if !fields::has_record(j, 3, 3) {
            return None;
        }
        let code: i64 = match fields::get_at(j, 0, "code") {
            Some(Json::Number(n)) => match n.as_i64() {
                Some(i) => i,
                None => return None,
            },
            _ => return None,
        };
        let message = match fields::get_need_text(j, 1, "message") {
            Some(s) => s,
            None => return None,
        };
        Some(RpcError { code, message, data: get_may_member(j, 2, "data") })
    }
}

impl Response {
    /// The response to a request that succeeded.
    pub fn success(id: u64, result: Json) -> (r: Response)
        ensures
            r@ == (ResponseView { jsonrpc: "2.0"@, id, result: Some(result@), error: None }),
    {
        Response { jsonrpc: "2.0".to_owned(), id, result: Some(result), error: None }
    }

    /// The response to a request that failed.
    pub fn error(id: u64, code: i64, message: &str) -> (r: Response)
        ensures
            r@ == (ResponseView {
                jsonrpc: "2.0"@,
                id,
                result: None,
                error: Some(RpcErrorView { code, message: message@, data: None }),
            }),
    {
        Response {
            jsonrpc: "2.0".to_owned(),
            id,
            result: None,
            error: Some(RpcError { code, message: message.to_owned(), data: None }),
        }
    }

    /// The JSON of the response.
    pub fn to_json(&self) -> (r: Json)
        ensures
            r@ == response_json(self@),
    {
        let mut m: Vec<(String, Json)> = Vec::new();
        fields::put(&mut m, "jsonrpc", Json::String(self.jsonrpc.clone()));
        fields::put(&mut m, "id", Json::Number(JsonNumber::PosInt(self.id)));
        put_some(&mut m, "result", &self.result);
        if let Some(e) = &self.error {
            fields::put(&mut m, "error", e.to_json());
        }
        Json::Object(m)
    }

    /// The response that a document stands for.
    pub fn from_json(j: &Json) -> (r: Option<Response>)
        ensures
            match r {
                Some(q) => response_of(j@) == Some(q@),
                None => response_of(j@) is None,
            },
    {
        if !fields::has_record(j, 4, 4) {
            return None;
        }
        let jsonrpc = match fields::get_need_text(j, 0, "jsonrpc") {
            Some(s) => s,
            None => return None,
        };
        let id: u64 = match fields::get_need_number(j, 1, "id", u64::MAX) {
            Some(n) => n,
            None => return None,
        };
        let result = get_may_member(j, 2, "result");
        let error = match get_may_member(j, 3, "error") {
            None => None,
            Some(e) => match RpcError::from_json(&e) {
                Some(error) => Some(error),
                None => return None,
            },
        };
        Some(Response { jsonrpc, id, result, error })
    }
}

/// What the provider says when it is ready.
pub open spec fn ready_params() -> JsonView {
    JsonView::Object(
        Seq::empty().push(("protocol_version"@, fields::number_json(protocol::PROTOCOL_VERSION as nat))),
    )
}

impl Notification {
    /// The provider is ready, and speaks this version of the protocol.
    pub fn ready() -> (r: Notification)
        ensures
            r@ == (NotificationView { jsonrpc: "2.0"@, method: "ready"@, params: Some(ready_params()) }),
    {
        let mut m: Vec<(String, Json)> = Vec::new();
        fields::put(&mut m, "protocol_version", Json::Number(JsonNumber::PosInt(protocol::PROTOCOL_VERSION as u64)));
        Notification { jsonrpc: "2.0".to_owned(), method: "ready".to_owned(), params: Some(Json::Object(m)) }
    }

    /// The JSON of the notification.
    pub fn to_json(&self) -> (r: Json)
        ensures
            r@ == notification_json(self@),
    {
        let mut m: Vec<(String, Json)> = Vec::new();
        fields::put(&mut m, "jsonrpc", Json::String(self.jsonrpc.clone()));
        fields::put(&mut m, "method", Json::String(self.method.clone()));
        put_some(&mut m, "params", &self.params);
        Json::Object(m)
    }

    /// The notification that a document stands for.
    pub fn from_json(j: &Json) -> (r: Option<Notification>)
        ensures
            match r {
                Some(n) => notification_of(j@) == Some(n@),
                None => notification_of(j@) is None,
            },
    {
        if !fields::has_record(j, 2, 3) {
            return None;
        }
        match (fields::get_need_text(j, 0, "jsonrpc"), fields::get_need_text(j, 1, "method")) {
            (Some(jsonrpc), Some(method)) => Some(
                Notification { jsonrpc, method, params: get_may_member(j, 2, "params") },
            ),
            _ => None,
        }
    }
}

proof fn lemma_keys()
    ensures
        "jsonrpc"@ != "id"@,
        "jsonrpc"@ != "method"@,
        "jsonrpc"@ != "params"@,
        "jsonrpc"@ != "result"@,
        "jsonrpc"@ != "error"@,
        "id"@ != "method"@,
        "id"@ != "params"@,
        "id"@ != "result"@,
        "id"@ != "error"@,
        "method"@ != "params"@,
        "result"@ != "error"@,
        "code"@ != "message"@,
        "code"@ != "data"@,
        "message"@ != "data"@,
{
    reveal_strlit("jsonrpc");
    reveal_strlit("id");
    reveal_strlit("method");
    reveal_strlit("params");
    reveal_strlit("result");
    reveal_strlit("error");
    reveal_strlit("code");
    reveal_strlit("message");
    reveal_strlit("data");
    assert("jsonrpc"@.len() == 7 && "id"@.len() == 2 && "method"@.len() == 6 && "params"@.len() == 6);
    assert("result"@.len() == 6 && "error"@.len() == 5 && "code"@.len() == 4 && "message"@.len() == 7);
    assert("data"@.len() == 4);
    assert("method"@[0] != "params"@[0]);
    assert("code"@[0] != "data"@[0]);
}

/// A request comes back from its JSON, unless its parameters are null, which
/// are the same as none.
pub proof fn law_request_round_trip(r: RequestView)
    requires
        r.params != Some(JsonView::Null),
    ensures
        request_of(request_json(r)) == Some(r),
{
    lemma_keys();
    reveal_with_fuel(keyed::index_from, 5);
}

proof fn lemma_error_comes_back(e: RpcErrorView)
    requires
        e.data != Some(JsonView::Null),
    ensures
        error_of(error_json(e)) == Some(e),
{
    lemma_keys();
    reveal_with_fuel(keyed::index_from, 4);
}

/// A response comes back from its JSON, unless its result or the data of its
/// error are null, which are the same as none.
pub proof fn law_response_round_trip(r: ResponseView)
    requires
        r.result != Some(JsonView::Null),
        r.error matches Some(e) ==> e.data != Some(JsonView::Null),
    ensures
        response_of(response_json(r)) == Some(r),
{
    lemma_keys();
    if let Some(e) = r.error {
        lemma_error_comes_back(e);
    }
    reveal_with_fuel(keyed::index_from, 5);
}

/// A notification comes back from its JSON, unless its parameters are null,
/// which are the same as none.
pub proof fn law_notification_round_trip(n: NotificationView)
    requires
        n.params != Some(JsonView::Null),
    ensures
        notification_of(notification_json(n)) == Some(n),
{
    lemma_keys();
    reveal_with_fuel(keyed::index_from, 4);
}

} // verus!
