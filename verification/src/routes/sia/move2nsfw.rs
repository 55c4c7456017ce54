//! `POST /move-to-nsfw` against the storage workers: a video is read from
//! the worker of the general partition, written to the worker of the
//! restricted one, and then deleted from the first.

use vstd::prelude::*;
use crate::encoding::{describe_status, percent_encoded, status_text};
use crate::http::{is_success, message_response, status_is_success, FieldModel, HttpBody,
    HttpBodyModel, HttpRequest, HttpRequestModel, Method, Response, ResponseModel,
    INTERNAL_SERVER_ERROR, NOT_FOUND, OK};
use crate::keys::{video_key, video_key_text};
use crate::move2nsfw::Args;
use crate::mover::{item_models, Move, MoveAction, MoveItem, MoveItemModel, MoveModel, MoveReport};
use crate::routes::sia::{cookie, cookie_text, worker_object_url, worker_url_text, AuthError,
    RenterdConfig};
use crate::sink::{Location, ObjectKind, SinkKind, SinkRequest, SinkRequestModel, SinkWrite,
    WriteModel};
use crate::text::{concat2, concat3, push_pair};

verus! {

/// Why a request of this route failed.
#[derive(Debug)]
pub enum Error {
    /// A request to a worker could not be made.
    Network(String),
    /// A worker answered with this status, which is no success.
    Renterd(u16),
    /// A worker does not hold what it was asked for.
    NotFound,
    /// No token could be had.
    Internal(String),
}

impl Error {
    /// The status with which the service answers this error.
    pub open spec fn status(self) -> u16 {
        match self {
            Error::NotFound => NOT_FOUND,
            Error::Renterd(status) => if status == NOT_FOUND {
                NOT_FOUND
            } else {
                INTERNAL_SERVER_ERROR
            },
            _ => INTERNAL_SERVER_ERROR,
        }
    }

    /// The message with which the service answers this error. It names the
    /// kind of failure and none of its detail.
    pub open spec fn message(self) -> Seq<char> {
        match self {
            Error::NotFound => "Video not found in SFW bucket"@,
            Error::Renterd(status) => if status == NOT_FOUND {
                "Video not found in SFW bucket"@
            } else {
                "Failed to move object in Sia. Check server logs."@
            },
            _ => "Internal server error. Check server logs."@,
        }
    }

    /// The response that the service gives for this error.
    pub fn into_response(self) -> (response: Response)
        ensures
            response@ == message_response(self.status(), self.message()),
    {
        match self {
            Error::NotFound => Response::message(NOT_FOUND, "Video not found in SFW bucket"),
            Error::Renterd(status) => if status == NOT_FOUND {
                Response::message(NOT_FOUND, "Video not found in SFW bucket")
            } else {
                Response::message(
                    INTERNAL_SERVER_ERROR,
                    "Failed to move object in Sia. Check server logs.",
                )
            },
            _ => Response::message(
                INTERNAL_SERVER_ERROR,
                "Internal server error. Check server logs.",
            ),
        }
    }
}

/// The token that opens a worker, or the error of the request that could
/// not have one.
pub fn token(had: Result<String, AuthError>) -> (token: Result<String, Error>)
    ensures
        match had {
            Ok(t) => token == Ok::<String, Error>(t),
            Err(error) => token matches Err(Error::Internal(report)) && report@ == error.text(),
        },
{
    match had {
        Ok(t) => Ok(t),
        Err(error) => Err(Error::Internal(error.describe())),
    }
}

/// A request to the worker of the general partition, where the video is,
/// given the percent-encoded key.
pub open spec fn source_request_model(
    config: RenterdConfig,
    method: Method,
    encoded_key: Seq<char>,
    sfw_token: Seq<char>,
) -> HttpRequestModel {
    HttpRequestModel {
        method,
        url: worker_url_text(config.renterd_api_url_sfw@, encoded_key, config.sia_bucket_sfw@),
        query: Seq::empty(),
        headers: seq![("Cookie"@, cookie_text(sfw_token))],
        body: HttpBodyModel::Empty,
    }
}

/// The request that stores the video at the worker of the restricted
/// partition, given the percent-encoded key.
pub open spec fn destination_request_model(
    config: RenterdConfig,
    encoded_key: Seq<char>,
    nsfw_token: Seq<char>,
) -> HttpRequestModel {
    HttpRequestModel {
        method: Method::Put,
        url: worker_url_text(config.renterd_api_url_nsfw@, encoded_key, config.sia_bucket_nsfw@),
        query: Seq::empty(),
        headers: seq![("Cookie"@, cookie_text(nsfw_token)), ("Content-Type"@, "video/mp4"@)],
        body: HttpBodyModel::Object,
    }
}

/// The video of a request as an object to move: from the worker of the
/// general partition to that of the restricted one, under the same key and
/// without metadata.
pub open spec fn move_item_model(
    config: RenterdConfig,
    request: Args,
    sfw_token: Seq<char>,
    nsfw_token: Seq<char>,
) -> MoveItemModel {
    let key = video_key_text(request.publisher_user_id@, request.video_id@);
    let encoded = percent_encoded(key);
    MoveItemModel {
        source: Location {
            kind: SinkKind::HttpEndpoint,
            root: config.sink_model(false).destination_root,
            key,
        },
        credential: config.renterd_api_password@,
        read: SinkRequestModel::Send(
            source_request_model(config, Method::Get, encoded, sfw_token),
        ),
        write: WriteModel {
            sink: config.sink_model(true),
            key,
            object: ObjectKind::Video,
            metadata: None,
            expires: None,
            request: SinkRequestModel::Send(
                destination_request_model(config, encoded, nsfw_token),
            ),
        },
        delete: SinkRequestModel::Send(
            source_request_model(config, Method::Delete, encoded, sfw_token),
        ),
    }
}

/// Builds a request to the worker of the general partition.
fn source_request(config: &RenterdConfig, method: Method, key: &str, sfw_token: &str) -> (request:
    HttpRequest)
    ensures
        request@ == source_request_model(*config, method, percent_encoded(key@), sfw_token@),
{
    let mut headers: Vec<(String, String)> = Vec::new();
    let value = cookie(sfw_token);
    push_pair(&mut headers, "Cookie", value.as_str());
    let request = HttpRequest {
        method,
        url: worker_object_url(
            config.renterd_api_url_sfw.as_str(),
            key,
            config.sia_bucket_sfw.as_str(),
        ),
        query: Vec::new(),
        headers,
        body: HttpBody::Empty,
    };
    assert(request@.query =~= Seq::empty());
    assert(request@.headers =~= seq![("Cookie"@, cookie_text(sfw_token@))]);
    request
}

/// Starts the move of a request's video, with the tokens that open the two
/// workers: one object, read once.
pub fn handler(config: &RenterdConfig, request: &Args, sfw_token: &str, nsfw_token: &str) -> (started:
    (Move<Error>, MoveAction))
    ensures
        started.0@ == MoveModel::<Error>::start(started.0@.items, 1, 0),
        started.1 == (MoveAction::Read { index: 0, after_secs: 0 }),
        item_models(started.0@.items) == seq![
            move_item_model(*config, *request, sfw_token@, nsfw_token@),
        ],
{
    let key = video_key(request.publisher_user_id.as_str(), request.video_id.as_str());
    let read = source_request(config, Method::Get, key.as_str(), sfw_token);
    let delete = source_request(config, Method::Delete, key.as_str(), sfw_token);
    let mut headers: Vec<(String, String)> = Vec::new();
    let value = cookie(nsfw_token);
    push_pair(&mut headers, "Cookie", value.as_str());
    push_pair(&mut headers, "Content-Type", "video/mp4");
    let put = HttpRequest {
        method: Method::Put,
        url: worker_object_url(
            config.renterd_api_url_nsfw.as_str(),
            key.as_str(),
            config.sia_bucket_nsfw.as_str(),
        ),
        query: Vec::new(),
        headers,
        body: HttpBody::Object,
    };
    assert(put@.query =~= Seq::empty());
    assert(put@.headers =~= seq![
        ("Cookie"@, cookie_text(nsfw_token@)),
        ("Content-Type"@, "video/mp4"@),
    ]);
    let item = MoveItem {
        source: config.sink(false),
        key: key.clone(),
        read: SinkRequest::Send(read),
        write: SinkWrite {
            sink: config.sink(true),
            key,
            object: ObjectKind::Video,
            metadata: None,
            expires: None,
            request: SinkRequest::Send(put),
        },
        delete: SinkRequest::Send(delete),
    };
    let mut items: Vec<MoveItem> = Vec::new();
    items.push(item);
    assert(item_models(items@) =~= seq![
        move_item_model(*config, *request, sfw_token@, nsfw_token@),
    ]);
    Move::new(items, 1, 0)
}

/// What a worker's answer means for the read, the write or the delete of
/// the video: what is asked for is not there on 404, and the worker refused
/// on any other status that is no success.
pub fn worker_result(reply: Result<u16, String>) -> (result: Result<(), Error>)
    ensures
        match reply {
            Err(report) => result == Err::<(), Error>(Error::Network(report)),
            Ok(status) => if status == NOT_FOUND {
                result == Err::<(), Error>(Error::NotFound)
            } else if is_success(status) {
                result is Ok
            } else {
                result == Err::<(), Error>(Error::Renterd(status))
            },
        },
{
    match reply {
        Err(report) => Err(Error::Network(report)),
        Ok(status) => {
            if status == NOT_FOUND {
                Err(Error::NotFound)
            } else if status_is_success(status) {
                Ok(())
            } else {
                Err(Error::Renterd(status))
            }
        },
    }
}

/// What the service answers when the video is moved.
pub open spec fn moved_response_model(request: Args) -> ResponseModel {
    ResponseModel {
        status: OK,
        body: seq![
            ("message"@, FieldModel::Text("Video moved to NSFW bucket successfully"@)),
            (
                "key"@,
                FieldModel::Text(video_key_text(request.publisher_user_id@, request.video_id@)),
            ),
        ],
    }
}

/// The answer to a request whose move has ended: the video's key where the
/// move succeeded, whether or not a copy stayed behind, and the error where
/// it failed.
pub fn respond(request: &Args, moved: Result<MoveReport, Error>) -> (answer: Result<
    Response,
    Error,
>)
    ensures
        match moved {
            Ok(_) => answer matches Ok(response) && response@ == moved_response_model(*request),
            Err(error) => answer == Err::<Response, Error>(error),
        },
{
    match moved {
        Ok(_) => {
            let key = video_key(request.publisher_user_id.as_str(), request.video_id.as_str());
            let mut response = Response::message(OK, "Video moved to NSFW bucket successfully");
            response.push_text("key", key.as_str());
            assert(response@.body =~= moved_response_model(*request).body);
            Ok(response)
        },
        Err(error) => Err(error),
    }
}

impl Error {
    /// What the error reads in a report, with its detail.
    pub open spec fn text(self) -> Seq<char> {
        match self {
            Error::Network(report) => report@,
            Error::Renterd(status) => "Renterd returned non-ok status ("@ + status_text(status)
                + ")"@,
            Error::NotFound => "Object not found in source bucket"@,
            Error::Internal(report) => "Internal error: "@ + report@,
        }
    }

    /// Renders the error, with its detail, for a report.
    pub fn describe(&self) -> (text: String)
        ensures
            text@ == self.text(),
    {
        match self {
            Error::Network(report) => report.clone(),
            Error::Renterd(status) => {
                let line = describe_status(*status);
                concat3("Renterd returned non-ok status (", line.as_str(), ")")
            },
            Error::NotFound => String::from_str("Object not found in source bucket"),
            Error::Internal(report) => concat2("Internal error: ", report.as_str()),
        }
    }
}

} // verus!
