//! `POST /duplicate` against the storage workers: a video goes to the
//! worker of its partition, and to no other.

use vstd::prelude::*;
use crate::duplicate::Args;
use crate::encoding::{describe_status, percent_encode, percent_encoded, status_text};
use crate::http::{message_response, FieldModel, HttpBody, HttpBodyModel, HttpRequest,
    HttpRequestModel, Method, Response, ResponseModel, is_success, status_is_success, BAD_REQUEST,
    INTERNAL_SERVER_ERROR, NOT_FOUND, OK};
use crate::keys::{video_key, video_key_text};
use crate::metadata::{json_object_text, Metadata};
use crate::routes::sia::{cookie, cookie_text, worker_url, worker_url_text, AuthError,
    RenterdConfig};
use crate::sink::{ObjectKind, SinkRequest, SinkRequestModel, SinkWrite, WriteModel};
use crate::text::{concat2, concat3, push_pair};

verus! {

/// Why a request of this route failed.
#[derive(Debug)]
pub enum Error {
    /// A request to the content origin or to the worker could not be made.
    Network(String),
    /// A local operation failed.
    Io(String),
    /// The metadata could not be put into JSON.
    Json(String),
    /// The content origin answered with this status, which is not 200.
    Cloudflare(u16),
    /// The worker answered with this status, which is no success.
    Renterd(u16),
    /// No token could be had.
    Internal(String),
}

impl Error {
    /// The status with which the service answers this error.
    pub open spec fn status(self) -> u16 {
        match self {
            Error::Cloudflare(status) => if status == NOT_FOUND {
                NOT_FOUND
            } else {
                BAD_REQUEST
            },
            _ => INTERNAL_SERVER_ERROR,
        }
    }

    /// The message with which the service answers this error. It names the
    /// kind of failure and none of its detail.
    pub open spec fn message(self) -> Seq<char> {
        match self {
            Error::Cloudflare(status) => if status == NOT_FOUND {
                "The video doesn't exist on cloudflare"@
            } else {
                "The video couldn't be fetched from cloudflare. Check server logs."@
            },
            Error::Renterd(_) => "Failed to upload to Sia. Check server logs."@,
            _ => "Internal server error. Check server logs."@,
        }
    }

    /// The response that the service gives for this error.
    pub fn into_response(self) -> (response: Response)
        ensures
            response@ == message_response(self.status(), self.message()),
    {
        match self {
            Error::Cloudflare(status) => if status == NOT_FOUND {
                Response::message(NOT_FOUND, "The video doesn't exist on cloudflare")
            } else {
                Response::message(
                    BAD_REQUEST,
                    "The video couldn't be fetched from cloudflare. Check server logs.",
                )
            },
            Error::Renterd(_) => Response::message(
                INTERNAL_SERVER_ERROR,
                "Failed to upload to Sia. Check server logs.",
            ),
            _ => Response::message(
                INTERNAL_SERVER_ERROR,
                "Internal server error. Check server logs.",
            ),
        }
    }
}

/// The request that stores a video at the worker of its partition, given
/// the percent-encoded key and the JSON text of the metadata.
pub open spec fn upload_request_model(
    config: RenterdConfig,
    is_nsfw: bool,
    encoded_key: Seq<char>,
    metadata_json: Seq<char>,
    token: Seq<char>,
) -> HttpRequestModel {
    HttpRequestModel {
        method: Method::Put,
        url: worker_url_text(
            if is_nsfw {
                config.renterd_api_url_nsfw@
            } else {
                config.renterd_api_url_sfw@
            },
            encoded_key,
            if is_nsfw {
                config.sia_bucket_nsfw@
            } else {
                config.sia_bucket_sfw@
            },
        ),
        query: Seq::empty(),
        headers: seq![
            ("Cookie"@, cookie_text(token)),
            ("Content-Type"@, "video/mp4"@),
            ("X-Metadata"@, metadata_json),
        ],
        body: HttpBodyModel::Object,
    }
}

/// The write of a video to the worker of its partition, given the
/// percent-encoded key and the JSON text of the metadata.
pub open spec fn upload_write_with(
    config: RenterdConfig,
    args: Args,
    token: Seq<char>,
    encoded_key: Seq<char>,
    metadata_json: Seq<char>,
) -> WriteModel {
    WriteModel {
        sink: config.sink_model(args.is_nsfw),
        key: video_key_text(args.publisher_user_id@, args.video_id@),
        object: ObjectKind::Video,
        metadata: Some(args.metadata@),
        expires: None,
        request: SinkRequestModel::Send(
            upload_request_model(config, args.is_nsfw, encoded_key, metadata_json, token),
        ),
    }
}

/// The write of a video to the worker of its partition.
pub open spec fn upload_write(config: RenterdConfig, args: Args, token: Seq<char>) -> WriteModel {
    upload_write_with(
        config,
        args,
        token,
        percent_encoded(video_key_text(args.publisher_user_id@, args.video_id@)),
        json_object_text(args.metadata@),
    )
}

/// How far a request has come.
#[derive(Clone, Copy, Debug, PartialEq, Eq, Structural)]
pub enum Phase {
    /// The content origin is being asked for the video.
    AwaitOrigin,
    /// A token for the worker is being had.
    AwaitToken,
    /// The worker is being sent the video.
    AwaitUpload,
    /// The request has its answer.
    Done,
}

/// What the caller reports.
#[derive(Debug)]
pub enum Event {
    /// The content origin answered with this status, or could not be
    /// reached.
    Origin(Result<u16, String>),
    /// The token for the worker, or why there is none.
    Token(Result<String, AuthError>),
    /// The worker answered the upload with this status, or could not be
    /// reached.
    Uploaded(Result<u16, String>),
}

/// What the caller is to do next.
#[derive(Debug)]
pub enum Action {
    /// Have a token for the worker of this partition, the restricted one
    /// where `is_nsfw` is set, and report it.
    FetchToken { is_nsfw: bool },
    /// Perform this write with the bytes that the origin sent, and report
    /// the worker's answer.
    Upload(SinkWrite),
    /// Answer the request.
    Finish(Result<Response, Error>),
}

/// What the service answers when the video is stored.
pub open spec fn stored_response_model(config: RenterdConfig, args: Args) -> ResponseModel {
    ResponseModel {
        status: OK,
        body: seq![
            ("message"@, FieldModel::Text("Video uploaded to Sia successfully"@)),
            (
                "bucket"@,
                FieldModel::Text(
                    if args.is_nsfw {
                        config.sia_bucket_nsfw@
                    } else {
                        config.sia_bucket_sfw@
                    },
                ),
            ),
            ("key"@, FieldModel::Text(video_key_text(args.publisher_user_id@, args.video_id@))),
        ],
    }
}

/// Whether the action ends the request with `error`.
pub open spec fn fails_with(action: Action, error: Error) -> bool {
    action == Action::Finish(Err(error))
}

/// What is reported of an event that the state does not wait for.
pub open spec fn unexpected_text() -> Seq<char> {
    "the event does not fit the state of the request"@
}

/// The step relation of the route: whether, in the phase `before`, the
/// event leads to the phase `after` and the action.
///
/// The content origin is asked first. Any answer but 200 ends the request
/// before a token is asked for or the worker is named. Then the token is
/// had, and the video is sent to the worker of the request's partition.
pub open spec fn next(
    config: RenterdConfig,
    args: Args,
    before: Phase,
    event: Event,
    after: Phase,
    action: Action,
) -> bool {
    match (before, event) {
        (Phase::AwaitOrigin, Event::Origin(Ok(status))) => if status == OK {
            &&& after == Phase::AwaitToken
            &&& action matches Action::FetchToken { is_nsfw }
            &&& is_nsfw == args.is_nsfw
        } else {
            after == Phase::Done && fails_with(action, Error::Cloudflare(status))
        },
        (Phase::AwaitOrigin, Event::Origin(Err(report))) => after == Phase::Done && fails_with(
            action,
            Error::Network(report),
        ),
        (Phase::AwaitToken, Event::Token(Ok(token))) => {
            &&& after == Phase::AwaitUpload
            &&& action matches Action::Upload(write)
            &&& write@ == upload_write(config, args, token@)
        },
        (Phase::AwaitToken, Event::Token(Err(error))) => {
            &&& after == Phase::Done
            &&& action matches Action::Finish(Err(Error::Internal(report)))
            &&& report@ == error.text()
        },
        (Phase::AwaitUpload, Event::Uploaded(Ok(status))) => if is_success(status) {
            &&& after == Phase::Done
            &&& action matches Action::Finish(Ok(response))
            &&& response@ == stored_response_model(config, args)
        } else {
            after == Phase::Done && fails_with(action, Error::Renterd(status))
        },
        (Phase::AwaitUpload, Event::Uploaded(Err(report))) => after == Phase::Done && fails_with(
            action,
            Error::Network(report),
        ),
        _ => {
            &&& after == Phase::Done
            &&& action matches Action::Finish(Err(Error::Internal(report)))
            &&& report@ == unexpected_text()
        },
    }
}

/// Builds the write of a video to the worker of its partition from the
/// token that opens the worker, the percent-encoded key and the JSON text of
/// the metadata.
pub fn upload_with(
    config: &RenterdConfig,
    args: &Args,
    token: &str,
    encoded_key: &str,
    metadata_json: &str,
) -> (planned: SinkWrite)
    ensures
        planned@ == upload_write_with(*config, *args, token@, encoded_key@, metadata_json@),
{
    let mut headers: Vec<(String, String)> = Vec::new();
    let value = cookie(token);
    push_pair(&mut headers, "Cookie", value.as_str());
    push_pair(&mut headers, "Content-Type", "video/mp4");
    push_pair(&mut headers, "X-Metadata", metadata_json);
    let request = HttpRequest {
        method: Method::Put,
        url: worker_url(config.base_url(args.is_nsfw), encoded_key, config.bucket(args.is_nsfw)),
        query: Vec::new(),
        headers,
        body: HttpBody::Object,
    };
    assert(request@.query =~= Seq::empty());
    assert(request@.headers =~= seq![
        ("Cookie"@, cookie_text(token@)),
        ("Content-Type"@, "video/mp4"@),
        ("X-Metadata"@, metadata_json@),
    ]);
    SinkWrite {
        sink: config.sink(args.is_nsfw),
        key: video_key(args.publisher_user_id.as_str(), args.video_id.as_str()),
        object: ObjectKind::Video,
        metadata: Some(args.metadata.clone()),
        expires: None,
        request: SinkRequest::Send(request),
    }
}

/// Builds the write of a video to the worker of its partition, with the
/// token that opens the worker. The result is `Ok` for every input.
pub fn upload(config: &RenterdConfig, args: &Args, token: &str) -> (planned: Result<
    SinkWrite,
    Error,
>)
    ensures
        match planned {
            Ok(write) => write@ == upload_write(*config, *args, token@),
            Err(_) => false,
        },
{
    match args.metadata.to_json() {
        Ok(json) => {
            let key = video_key(args.publisher_user_id.as_str(), args.video_id.as_str());
            let encoded = percent_encode(key.as_str());
            Ok(upload_with(config, args, token, encoded.as_str(), json.as_str()))
        },
        Err(report) => Err(Error::Json(report)),
    }
}

/// Builds the answer to a request whose video is stored.
pub fn stored_response(config: &RenterdConfig, args: &Args) -> (response: Response)
    ensures
        response@ == stored_response_model(*config, *args),
{
    let key = video_key(args.publisher_user_id.as_str(), args.video_id.as_str());
    let mut response = Response::message(OK, "Video uploaded to Sia successfully");
    response.push_text("bucket", config.bucket(args.is_nsfw));
    response.push_text("key", key.as_str());
    assert(response@.body =~= stored_response_model(*config, *args).body);
    response
}

/// Takes a relay request one step further: from the phase and what the
/// caller reports, to the next phase and what the caller is to do.
pub fn handler(config: &RenterdConfig, args: &Args, phase: Phase, event: Event) -> (step: (
    Phase,
    Action,
))
    ensures
        next(*config, *args, phase, event, step.0, step.1),
{
    match event {
        Event::Origin(answer) => match phase {
            Phase::AwaitOrigin => match answer {
                Ok(status) => {
                    if status == OK {
                        (
                            Phase::AwaitToken,
                            Action::FetchToken { is_nsfw: args.is_nsfw },
                        )
                    } else {
                        (Phase::Done, Action::Finish(Err(Error::Cloudflare(status))))
                    }
                },
                Err(report) => (Phase::Done, Action::Finish(Err(Error::Network(report)))),
            },
            _ => unexpected(),
        },
        Event::Token(token) => match phase {
            Phase::AwaitToken => match token {
                Ok(token) => match upload(config, args, token.as_str()) {
                    Ok(write) => (Phase::AwaitUpload, Action::Upload(write)),
                    Err(error) => (Phase::Done, Action::Finish(Err(error))),
                },
                Err(error) => (
                    Phase::Done,
                    Action::Finish(Err(Error::Internal(error.describe()))),
                ),
            },
            _ => unexpected(),
        },
        Event::Uploaded(answer) => match phase {
            Phase::AwaitUpload => match answer {
                Ok(status) => {
                    if status_is_success(status) {
                        (Phase::Done, Action::Finish(Ok(stored_response(config, args))))
                    } else {
                        (Phase::Done, Action::Finish(Err(Error::Renterd(status))))
                    }
                },
                Err(report) => (Phase::Done, Action::Finish(Err(Error::Network(report)))),
            },
            _ => unexpected(),
        },
    }
}

/// Ends a request on an event that its phase does not wait for.
fn unexpected() -> (step: (Phase, Action))
    ensures
        step.0 == Phase::Done,
        step.1 matches Action::Finish(Err(Error::Internal(report))) && report@
            == unexpected_text(),
{
    (
        Phase::Done,
        Action::Finish(
            Err(Error::Internal(String::from_str("the event does not fit the state of the request"))),
        ),
    )
}

impl Error {
    /// What the error reads in a report, with its detail.
    pub open spec fn text(self) -> Seq<char> {
        match self {
            Error::Network(report) => report@,
            Error::Io(report) => report@,
            Error::Json(report) => report@,
            Error::Cloudflare(status) => "Cloudflare returned non-ok status ("@ + status_text(status)
                + ") when fetching the video"@,
            Error::Renterd(status) => "Renterd returned non-ok status ("@ + status_text(status)
                + ")"@,
            Error::Internal(report) => "Internal error: "@ + report@,
        }
    }

    /// Renders the error, with its detail, for a report.
    pub fn describe(&self) -> (text: String)
        ensures
            text@ == self.text(),
    {
        match self {
            Error::Network(report) => report.clone(),
            Error::Io(report) => report.clone(),
            Error::Json(report) => report.clone(),
            Error::Cloudflare(status) => {
                let line = describe_status(*status);
                concat3(
                    "Cloudflare returned non-ok status (",
                    line.as_str(),
                    ") when fetching the video",
                )
            },
            Error::Renterd(status) => {
                let line = describe_status(*status);
                concat3("Renterd returned non-ok status (", line.as_str(), ")")
            },
            Error::Internal(report) => concat2("Internal error: ", report.as_str()),
        }
    }
}

} // verus!
