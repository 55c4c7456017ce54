//! HTTP as plain values: the requests that the service sends, the status
//! classes by which it reads the replies, and the responses that it gives.

use vstd::prelude::*;
use crate::sia_client::CreateBucketRequest;
use crate::text::pair_texts;

verus! {

/// The status of a reply that was served as asked.
pub const OK: u16 = 200;

/// The status of a request that was not understood.
pub const BAD_REQUEST: u16 = 400;

/// The status of a request that did not show the shared secret.
pub const UNAUTHORIZED: u16 = 401;

/// The status of a request for something that does not exist.
pub const NOT_FOUND: u16 = 404;

/// The status of a request that failed on the service's side.
pub const INTERNAL_SERVER_ERROR: u16 = 500;

/// Whether `status` is in the success class, 200 to 299.
pub open spec fn is_success(status: u16) -> bool {
    200 <= status <= 299
}

/// Tests whether a status code is in the success class.
pub fn status_is_success(status: u16) -> (r: bool)
    ensures
        r == is_success(status),
{
    200 <= status && status <= 299
}

/// The body of the liveness probe.
pub fn health() -> (r: &'static str)
    ensures
        r@ == "alive"@,
{
    "alive"
}

/// The method of a request.
#[derive(Clone, Copy, Debug, PartialEq, Eq, Structural)]
pub enum Method {
    Get,
    Post,
    Put,
    Delete,
}

/// What a request carries as its body.
#[derive(Debug)]
pub enum HttpBody {
    /// Nothing.
    Empty,
    /// The bytes of the object that is being stored. The caller holds them.
    Object,
    /// The JSON object that asks for a bucket and, where `public_read_access`
    /// is set, names its access policy.
    CreateBucket { request: CreateBucketRequest, public_read_access: Option<bool> },
}

/// A request body as contracts see it.
pub enum HttpBodyModel {
    Empty,
    Object,
    CreateBucket { name: Seq<char>, public_read_access: Option<bool> },
}

impl View for HttpBody {
    type V = HttpBodyModel;

    open spec fn view(&self) -> HttpBodyModel {
        match self {
            HttpBody::Empty => HttpBodyModel::Empty,
            HttpBody::Object => HttpBodyModel::Object,
            HttpBody::CreateBucket { request, public_read_access } => HttpBodyModel::CreateBucket {
                name: request.name@,
                public_read_access: *public_read_access,
            },
        }
    }
}

/// One request for the caller to send.
#[derive(Debug)]
pub struct HttpRequest {
    pub method: Method,
    /// The address, without the query.
    pub url: String,
    /// The parameters of the query, not yet encoded.
    pub query: Vec<(String, String)>,
    pub headers: Vec<(String, String)>,
    pub body: HttpBody,
}

/// A request as contracts see it.
pub struct HttpRequestModel {
    pub method: Method,
    pub url: Seq<char>,
    pub query: Seq<(Seq<char>, Seq<char>)>,
    pub headers: Seq<(Seq<char>, Seq<char>)>,
    pub body: HttpBodyModel,
}

impl View for HttpRequest {
    type V = HttpRequestModel;

    open spec fn view(&self) -> HttpRequestModel {
        HttpRequestModel {
            method: self.method,
            url: self.url@,
            query: pair_texts(self.query@),
            headers: pair_texts(self.headers@),
            body: self.body@,
        }
    }
}

/// One member of a response's JSON object.
#[derive(Debug)]
pub enum Field {
    Text(String),
    Number(u64),
}

/// A member as contracts see it.
pub enum FieldModel {
    Text(Seq<char>),
    Number(u64),
}

impl View for Field {
    type V = FieldModel;

    open spec fn view(&self) -> FieldModel {
        match self {
            Field::Text(text) => FieldModel::Text(text@),
            Field::Number(number) => FieldModel::Number(*number),
        }
    }
}

/// What the service answers: a status, and the members of the JSON object in
/// the body. A response without members has no body.
#[derive(Debug)]
pub struct Response {
    pub status: u16,
    pub body: Vec<(String, Field)>,
}

/// A response as contracts see it.
pub struct ResponseModel {
    pub status: u16,
    pub body: Seq<(Seq<char>, FieldModel)>,
}

/// The members of a body as contracts see them.
pub open spec fn member_models(members: Seq<(String, Field)>) -> Seq<(Seq<char>, FieldModel)> {
    Seq::new(members.len(), |i: int| (members[i].0@, members[i].1@))
}

impl View for Response {
    type V = ResponseModel;

    open spec fn view(&self) -> ResponseModel {
        ResponseModel { status: self.status, body: member_models(self.body@) }
    }
}

/// The response with the given status whose body holds one member,
/// `message`.
pub open spec fn message_response(status: u16, message: Seq<char>) -> ResponseModel {
    ResponseModel { status, body: seq![("message"@, FieldModel::Text(message))] }
}

impl Response {
    /// The response with the given status and no body.
    pub fn empty(status: u16) -> (response: Response)
        ensures
            response@ == (ResponseModel { status, body: Seq::empty() }),
    {
        let response = Response { status, body: Vec::new() };
        assert(response@.body =~= Seq::empty());
        response
    }

    /// The response with the given status and a message.
    pub fn message(status: u16, message: &str) -> (response: Response)
        ensures
            response@ == message_response(status, message@),
    {
        let mut response = Response::empty(status);
        response.push_text("message", message);
        assert(response@.body =~= seq![("message"@, FieldModel::Text(message@))]);
        response
    }

    /// Adds a member that holds text.
    pub fn push_text(&mut self, name: &str, value: &str)
        ensures
            final(self)@ == (ResponseModel {
                status: old(self)@.status,
                body: old(self)@.body.push((name@, FieldModel::Text(value@))),
            }),
    {
        self.body.push((String::from_str(name), Field::Text(String::from_str(value))));
        assert(self@.body =~= old(self)@.body.push((name@, FieldModel::Text(value@))));
    }

    /// Adds a member that holds a number.
    pub fn push_number(&mut self, name: &str, value: u64)
        ensures
            final(self)@ == (ResponseModel {
                status: old(self)@.status,
                body: old(self)@.body.push((name@, FieldModel::Number(value))),
            }),
    {
        self.body.push((String::from_str(name), Field::Number(value)));
        assert(self@.body =~= old(self)@.body.push((name@, FieldModel::Number(value))));
    }
}

} // verus!
