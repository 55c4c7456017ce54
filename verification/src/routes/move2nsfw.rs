//! `POST /move-to-nsfw`: a video and its still image are read from the
//! mirror, written to the process-backed sink of the restricted partition,
//! and then deleted from the mirror.

use vstd::prelude::*;
use crate::consts::Config;
use crate::http::{message_response, Response, INTERNAL_SERVER_ERROR, OK};
use crate::keys::{thumbnail_key, thumbnail_key_text, video_key, video_key_text};
use crate::move2nsfw::Args;
use crate::mover::{item_models, Move, MoveAction, MoveItem, MoveItemModel, MoveModel, MoveReport};
use crate::s3_client::{S3Client, S3RequestModel};
use crate::sink::{Location, ObjectKind, SinkKind, SinkRequest, SinkRequestModel};
use crate::text::concat2;
use crate::uplink::{failure, failure_text, TransferOptionsModel};

verus! {

/// Why a request of this route failed.
#[derive(Debug)]
pub enum Error {
    /// The transfer tool could not be run or fed.
    Io(String),
    /// The mirror refused an operation.
    S3(String),
}

impl Error {
    /// The message with which the service answers this error. It names the
    /// kind of failure and none of its detail.
    pub open spec fn message(self) -> Seq<char> {
        match self {
            Error::Io(_) => "Internal server error. Check server logs."@,
            Error::S3(_) => "S3 storage operation failed. Check server logs."@,
        }
    }

    /// The response that the service gives for this error: status 500 and
    /// the message.
    pub fn into_response(self) -> (response: Response)
        ensures
            response@ == message_response(INTERNAL_SERVER_ERROR, self.message()),
    {
        match self {
            Error::Io(_) => Response::message(
                INTERNAL_SERVER_ERROR,
                "Internal server error. Check server logs.",
            ),
            Error::S3(_) => Response::message(
                INTERNAL_SERVER_ERROR,
                "S3 storage operation failed. Check server logs.",
            ),
        }
    }
}

/// What ends a move before its time.
#[derive(Debug)]
pub enum Failure {
    /// An operation failed with an error.
    Failed(Error),
    /// The transfer tool ran and exited with a failure while it stored
    /// `object`; `diagnostic` is what the tool complained about.
    Rejected { object: ObjectKind, diagnostic: String },
}

/// The key of an object of a request.
pub open spec fn key_text(request: Args, object: ObjectKind) -> Seq<char> {
    if object == ObjectKind::Thumbnail {
        thumbnail_key_text(request.publisher_user_id@, request.video_id@)
    } else {
        video_key_text(request.publisher_user_id@, request.video_id@)
    }
}

/// One object of a request as an object to move: from the mirror to the
/// process-backed sink of the restricted partition, under the same key and
/// without metadata.
pub open spec fn move_item_model(
    s3_client: S3Client,
    config: Config,
    request: Args,
    object: ObjectKind,
) -> MoveItemModel {
    let key = key_text(request, object);
    MoveItemModel {
        source: Location { kind: SinkKind::SdkClient, root: s3_client.bucket@, key },
        credential: s3_client.access_key@,
        read: SinkRequestModel::Store(S3RequestModel::Get { bucket: s3_client.bucket@, key }),
        write: crate::uplink::write_model(
            config.storj_sink_model(true),
            key,
            object,
            None,
            TransferOptionsModel { overwrite: false, metadata_json: None, expires: None },
        ),
        delete: SinkRequestModel::Store(
            S3RequestModel::Delete { bucket: s3_client.bucket@, key },
        ),
    }
}

/// Builds one object of a request as an object to move.
fn move_item(s3_client: &S3Client, config: &Config, request: &Args, object: ObjectKind) -> (item:
    MoveItem)
    ensures
        item@ == move_item_model(*s3_client, *config, *request, object),
{
    let owner = request.publisher_user_id.as_str();
    let video = request.video_id.as_str();
    let key = match object {
        ObjectKind::Thumbnail => thumbnail_key(owner, video),
        _ => video_key(owner, video),
    };
    let (read, delete) = match object {
        ObjectKind::Thumbnail => (
            s3_client.download_thumbnail(key.as_str()),
            s3_client.delete_thumbnail(key.as_str()),
        ),
        _ => (s3_client.download_video(key.as_str()), s3_client.delete_video(key.as_str())),
    };
    MoveItem {
        source: s3_client.sink(),
        key: key.clone(),
        read: SinkRequest::Store(read),
        write: crate::uplink::write(
            config.storj_sink(true),
            key,
            object,
            None,
            None,
            false,
        ),
        delete: SinkRequest::Store(delete),
    }
}

/// Starts the move of a request's video and still image: both are read,
/// then both are written, then both are deleted at the mirror, the video
/// first each time. Each read is tried once.
pub fn handler(s3_client: &S3Client, config: &Config, request: &Args) -> (started: (
    Move<Failure>,
    MoveAction,
))
    ensures
        started.0@ == MoveModel::<Failure>::start(started.0@.items, 1, 0),
        started.1 == (MoveAction::Read { index: 0, after_secs: 0 }),
        item_models(started.0@.items) == seq![
            move_item_model(*s3_client, *config, *request, ObjectKind::Video),
            move_item_model(*s3_client, *config, *request, ObjectKind::Thumbnail),
        ],
{
    let mut items: Vec<MoveItem> = Vec::new();
    items.push(move_item(s3_client, config, request, ObjectKind::Video));
    items.push(move_item(s3_client, config, request, ObjectKind::Thumbnail));
    assert(item_models(items@) =~= seq![
        move_item_model(*s3_client, *config, *request, ObjectKind::Video),
        move_item_model(*s3_client, *config, *request, ObjectKind::Thumbnail),
    ]);
    Move::new(items, 1, 0)
}

/// What a call to the mirror means for the read or the delete it was made
/// for: success, or a failure that carries what the store reported.
pub fn s3_result(outcome: Result<(), String>) -> (result: Result<(), Failure>)
    ensures
        outcome is Ok ==> result is Ok,
        outcome matches Err(report) ==> result == Err::<(), Failure>(
            Failure::Failed(Error::S3(report)),
        ),
{
    match outcome {
        Ok(_) => Ok(()),
        Err(report) => Err(Failure::Failed(Error::S3(report))),
    }
}

/// What the end of the transfer tool means for the write of `object`:
/// success, a rejection that carries what the tool complained about where it
/// exited with a failure, and an error where it could not be run or fed.
pub fn upload_result(object: ObjectKind, exit: Result<bool, String>, stderr: String) -> (result:
    Result<(), Failure>)
    ensures
        match exit {
            Ok(succeeded) => if succeeded {
                result is Ok
            } else {
                result == Err::<(), Failure>(Failure::Rejected { object, diagnostic: stderr })
            },
            Err(report) => result == Err::<(), Failure>(Failure::Failed(Error::Io(report))),
        },
{
    match exit {
        Ok(succeeded) => {
            if succeeded {
                Ok(())
            } else {
                Err(Failure::Rejected { object, diagnostic: stderr })
            }
        },
        Err(report) => Err(Failure::Failed(Error::Io(report))),
    }
}

/// What the service answers when the transfer tool rejected an object.
pub open spec fn rejected_text(object: ObjectKind) -> Seq<char> {
    if object == ObjectKind::Thumbnail {
        "Failed to upload thumbnail to Storj NSFW bucket. Check server logs."@
    } else {
        "Failed to upload video to Storj NSFW bucket. Check server logs."@
    }
}

/// The answer to a request whose move has ended: `moved` where the move
/// succeeded, whether or not a copy stayed behind at the mirror; status 500
/// where the transfer tool rejected an object; and the error where an
/// operation failed.
pub fn respond(moved: Result<MoveReport, Failure>) -> (answer: Result<Response, Error>)
    ensures
        match moved {
            Ok(_) => answer matches Ok(response) && response@ == message_response(OK, "moved"@),
            Err(Failure::Rejected { object, diagnostic }) => answer matches Ok(response)
                && response@ == message_response(INTERNAL_SERVER_ERROR, rejected_text(object)),
            Err(Failure::Failed(error)) => answer == Err::<Response, Error>(error),
        },
{
    match moved {
        Ok(_) => Ok(Response::message(OK, "moved")),
        Err(Failure::Rejected { object, diagnostic: _ }) => match object {
            ObjectKind::Thumbnail => Ok(
                Response::message(
                    INTERNAL_SERVER_ERROR,
                    "Failed to upload thumbnail to Storj NSFW bucket. Check server logs.",
                ),
            ),
            _ => Ok(
                Response::message(
                    INTERNAL_SERVER_ERROR,
                    "Failed to upload video to Storj NSFW bucket. Check server logs.",
                ),
            ),
        },
        Err(Failure::Failed(error)) => Err(error),
    }
}

impl Error {
    /// What the error reads in a report, with its detail.
    pub open spec fn text(self) -> Seq<char> {
        match self {
            Error::Io(report) => report@,
            Error::S3(report) => "S3 operation failed: "@ + report@,
        }
    }

    /// Renders the error, with its detail, for a report.
    pub fn describe(&self) -> (text: String)
        ensures
            text@ == self.text(),
    {
        match self {
            Error::Io(report) => report.clone(),
            Error::S3(report) => concat2("S3 operation failed: ", report.as_str()),
        }
    }
}

impl Failure {
    /// What the failure reads in a report: the text of its error, or what
    /// the transfer tool complained about.
    pub open spec fn text(self) -> Seq<char> {
        match self {
            Failure::Failed(error) => error.text(),
            Failure::Rejected { object, diagnostic } => failure_text(diagnostic@),
        }
    }

    /// Renders the failure, with its detail, for a report.
    pub fn describe(&self) -> (text: String)
        ensures
            text@ == self.text(),
    {
        match self {
            Failure::Failed(error) => error.describe(),
            Failure::Rejected { object, diagnostic } => failure(diagnostic.as_str()),
        }
    }
}

} // verus!
