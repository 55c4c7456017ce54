//! `POST /duplicate` and the two-phase raw upload: a video goes to the
//! process-backed sink of its partition and, where it is not sensitive, to
//! the mirror as well.

use vstd::prelude::*;
use crate::consts::Config;
use crate::duplicate::Args;
use crate::http::{message_response, FieldModel, Response, ResponseModel, BAD_REQUEST,
    INTERNAL_SERVER_ERROR, NOT_FOUND, OK};
use crate::keys::{thumbnail_key, thumbnail_key_text, video_key, video_key_text};
use crate::metadata::{json_object_text, Metadata};
use crate::process::{Command, CommandModel, Pipe};
use crate::relay::{Relay, RelayModel};
use crate::s3_client::S3Client;
use crate::sink::{write_models, ObjectKind, SinkWrite, WriteModel};
use crate::encoding::{describe_status, status_text};
use crate::text::{concat2, concat3, decimal, decimal_text, push_text, texts};
use crate::uplink::{copy_out, copy_out_model, failure, failure_text, object_url, object_url_text,
    TransferOptionsModel};

verus! {

/// Why a request of these routes failed.
#[derive(Debug)]
pub enum Error {
    /// A request to the content origin or to a sink could not be made.
    Network(String),
    /// A child process or a local file failed.
    Io(String),
    /// The body of the request could not be read.
    Hyper(String),
    /// The content origin answered with this status, which is not 200.
    Clouflare(u16),
    /// The mirror refused an operation.
    S3(String),
}

impl Error {
    /// The status with which the service answers this error.
    pub open spec fn status(self) -> u16 {
        match self {
            Error::Clouflare(status) => if status == NOT_FOUND {
                NOT_FOUND
            } else {
                BAD_REQUEST
            },
            _ => INTERNAL_SERVER_ERROR,
        }
    }

    /// The message with which the service answers this error. It names the
    /// kind of failure and none of its detail.
    pub open spec fn message(self) -> Seq<char> {
        match self {
            Error::Network(_) | Error::Io(_) | Error::Hyper(_) =>
                "Internal server error. Check server logs."@,
            Error::Clouflare(status) => if status == NOT_FOUND {
                "The video doesn't exist on cloudflare"@
            } else {
                "The video couldn't fetched from cloudflare. Check server logs."@
            },
            Error::S3(_) => "S3 storage operation failed. Check server logs."@,
        }
    }

    /// The response that the service gives for this error.
    pub fn into_response(self) -> (response: Response)
        ensures
            response@ == message_response(self.status(), self.message()),
    {
        match self {
            Error::Network(_) | Error::Io(_) | Error::Hyper(_) => Response::message(
                INTERNAL_SERVER_ERROR,
                "Internal server error. Check server logs.",
            ),
            Error::Clouflare(status) => if status == NOT_FOUND {
                Response::message(NOT_FOUND, "The video doesn't exist on cloudflare")
            } else {
                Response::message(
                    BAD_REQUEST,
                    "The video couldn't fetched from cloudflare. Check server logs.",
                )
            },
            Error::S3(_) => Response::message(
                INTERNAL_SERVER_ERROR,
                "S3 storage operation failed. Check server logs.",
            ),
        }
    }
}

/// The write of a video to the process-backed sink of its partition, given
/// the JSON text of the metadata.
pub open spec fn storj_video_write(
    config: Config,
    publisher_user_id: Seq<char>,
    video_id: Seq<char>,
    metadata: Map<Seq<char>, Seq<char>>,
    metadata_json: Seq<char>,
    expires: Option<Seq<char>>,
    is_nsfw: bool,
) -> WriteModel {
    crate::uplink::write_model(
        config.storj_sink_model(is_nsfw),
        video_key_text(publisher_user_id, video_id),
        ObjectKind::Video,
        Some(metadata),
        TransferOptionsModel { overwrite: false, metadata_json: Some(metadata_json), expires },
    )
}

/// The write of a video's still image to the process-backed sink of its
/// partition.
pub open spec fn storj_thumbnail_write(
    config: Config,
    publisher_user_id: Seq<char>,
    video_id: Seq<char>,
    expires: Option<Seq<char>>,
    is_nsfw: bool,
) -> WriteModel {
    crate::uplink::write_model(
        config.storj_sink_model(is_nsfw),
        thumbnail_key_text(publisher_user_id, video_id),
        ObjectKind::Thumbnail,
        None,
        TransferOptionsModel { overwrite: false, metadata_json: None, expires },
    )
}

/// Builds the write of a video to the process-backed sink of its partition
/// from the metadata and its JSON text.
pub fn storj_video(
    config: &Config,
    publisher_user_id: &str,
    video_id: &str,
    metadata: &Metadata,
    metadata_json: &str,
    expires: Option<&str>,
    is_nsfw: bool,
) -> (planned: SinkWrite)
    ensures
        planned@ == storj_video_write(
            *config,
            publisher_user_id@,
            video_id@,
            metadata@,
            metadata_json@,
            crate::text::optional_text(expires),
            is_nsfw,
        ),
{
    crate::uplink::write(
        config.storj_sink(is_nsfw),
        video_key(publisher_user_id, video_id),
        ObjectKind::Video,
        Some((metadata.clone(), metadata_json)),
        expires,
        false,
    )
}

/// Builds the write of a video, with the metadata it is to carry, to the
/// process-backed sink of its partition. The result is `Ok` for every
/// metadata, since every mapping from text to text has its JSON text.
pub fn upload_to_storj(
    config: &Config,
    publisher_user_id: &str,
    video_id: &str,
    metadata: &Metadata,
    is_nsfw: bool,
) -> (planned: Result<SinkWrite, Error>)
    ensures
        match planned {
            Ok(write) => write@ == storj_video_write(
                *config,
                publisher_user_id@,
                video_id@,
                metadata@,
                json_object_text(metadata@),
                None,
                is_nsfw,
            ),
            Err(_) => false,
        },
{
    match metadata.to_json() {
        Ok(json) => Ok(
            storj_video(
                config,
                publisher_user_id,
                video_id,
                metadata,
                json.as_str(),
                None,
                is_nsfw,
            ),
        ),
        Err(report) => Err(Error::Io(report)),
    }
}

/// Builds the write of a video that may be dropped after `expires`.
pub fn upload_to_storj_with_ttl(
    config: &Config,
    publisher_user_id: &str,
    video_id: &str,
    metadata: &Metadata,
    expires: &str,
    is_nsfw: bool,
) -> (planned: Result<SinkWrite, Error>)
    ensures
        match planned {
            Ok(write) => write@ == storj_video_write(
                *config,
                publisher_user_id@,
                video_id@,
                metadata@,
                json_object_text(metadata@),
                Some(expires@),
                is_nsfw,
            ),
            Err(_) => false,
        },
{
    match metadata.to_json() {
        Ok(json) => Ok(
            storj_video(
                config,
                publisher_user_id,
                video_id,
                metadata,
                json.as_str(),
                Some(expires),
                is_nsfw,
            ),
        ),
        Err(report) => Err(Error::Io(report)),
    }
}

/// Builds the write of a video's still image to the process-backed sink of
/// its partition.
pub fn upload_thumbnail_to_storj(
    config: &Config,
    publisher_user_id: &str,
    video_id: &str,
    is_nsfw: bool,
) -> (planned: SinkWrite)
    ensures
        planned@ == storj_thumbnail_write(*config, publisher_user_id@, video_id@, None, is_nsfw),
{
    crate::uplink::write(
        config.storj_sink(is_nsfw),
        thumbnail_key(publisher_user_id, video_id),
        ObjectKind::Thumbnail,
        None,
        None,
        false,
    )
}

/// Builds the write of a still image that may be dropped after `expires`.
pub fn upload_thumbnail_to_storj_with_ttl(
    config: &Config,
    publisher_user_id: &str,
    video_id: &str,
    expires: &str,
    is_nsfw: bool,
) -> (planned: SinkWrite)
    ensures
        planned@ == storj_thumbnail_write(
            *config,
            publisher_user_id@,
            video_id@,
            Some(expires@),
            is_nsfw,
        ),
{
    crate::uplink::write(
        config.storj_sink(is_nsfw),
        thumbnail_key(publisher_user_id, video_id),
        ObjectKind::Thumbnail,
        None,
        Some(expires),
        false,
    )
}

/// Builds the write of a video to the mirror.
pub fn upload_to_s3(
    s3_client: &S3Client,
    publisher_user_id: &str,
    video_id: &str,
    metadata: &Metadata,
) -> (planned: SinkWrite)
    ensures
        planned@ == s3_client.write_model(
            video_key_text(publisher_user_id@, video_id@),
            ObjectKind::Video,
            metadata@,
        ),
{
    let key = video_key(publisher_user_id, video_id);
    s3_client.write(key.as_str(), ObjectKind::Video, metadata)
}

/// Builds the write of a video's still image to the mirror.
pub fn upload_thumbnail_to_s3(s3_client: &S3Client, publisher_user_id: &str, video_id: &str) -> (planned:
    SinkWrite)
    ensures
        planned@ == s3_client.write_model(
            thumbnail_key_text(publisher_user_id@, video_id@),
            ObjectKind::Thumbnail,
            Map::empty(),
        ),
{
    let key = thumbnail_key(publisher_user_id, video_id);
    let none = Metadata::new();
    s3_client.write(key.as_str(), ObjectKind::Thumbnail, &none)
}

/// What an exit of the transfer tool means for the write it was run for:
/// success, or a failure that carries what the tool complained about.
pub fn transfer_result(succeeded: bool, stderr: &str) -> (result: Result<(), Error>)
    ensures
        succeeded ==> result is Ok,
        !succeeded ==> (result matches Err(Error::Io(text)) && text@ == failure_text(stderr@)),
{
    if succeeded {
        Ok(())
    } else {
        Err(Error::Io(failure(stderr)))
    }
}

/// The answer to a request whose relay has ended: status 200 without a
/// body where every write succeeded, and the answer to the error where one
/// failed.
pub fn respond(result: Result<(), Error>) -> (response: Response)
    ensures
        match result {
            Ok(_) => response@ == (ResponseModel { status: OK, body: Seq::empty() }),
            Err(error) => response@ == message_response(error.status(), error.message()),
        },
{
    match result {
        Ok(_) => Response::empty(OK),
        Err(error) => error.into_response(),
    }
}

/// What a call to the mirror means for the write it was made for: success,
/// or a failure that carries what the store reported.
pub fn s3_result(outcome: Result<(), String>) -> (result: Result<(), Error>)
    ensures
        outcome is Ok ==> result is Ok,
        outcome matches Err(report) ==> result == Err::<(), Error>(Error::S3(report)),
{
    match outcome {
        Ok(_) => Ok(()),
        Err(report) => Err(Error::S3(report)),
    }
}

/// The writes that a relay request asks for: sensitive content goes to the
/// restricted partition alone, other content to the general partition and
/// to the mirror.
pub open spec fn relay_writes(
    s3_client: S3Client,
    config: Config,
    args: Args,
    metadata_json: Seq<char>,
) -> Seq<WriteModel> {
    let storj = storj_video_write(
        config,
        args.publisher_user_id@,
        args.video_id@,
        args.metadata@,
        metadata_json,
        None,
        args.is_nsfw,
    );
    if args.is_nsfw {
        seq![storj]
    } else {
        seq![
            storj,
            s3_client.write_model(
                video_key_text(args.publisher_user_id@, args.video_id@),
                ObjectKind::Video,
                args.metadata@,
            ),
        ]
    }
}

/// Builds the relay of a request from the JSON text of its metadata, with
/// no write settled yet.
pub fn relay_with(s3_client: &S3Client, config: &Config, args: &Args, metadata_json: &str) -> (relay:
    Relay<Error>)
    ensures
        relay@ == RelayModel::<Error>::start(relay@.writes),
        write_models(relay@.writes) == relay_writes(*s3_client, *config, *args, metadata_json@),
{
    let owner = args.publisher_user_id.as_str();
    let video = args.video_id.as_str();
    let mut writes: Vec<SinkWrite> = Vec::new();
    writes.push(
        storj_video(
            config,
            owner,
            video,
            &args.metadata,
            metadata_json,
            None,
            args.is_nsfw,
        ),
    );
    if !args.is_nsfw {
        writes.push(upload_to_s3(s3_client, owner, video, &args.metadata));
    }
    assert(write_models(writes@) =~= relay_writes(*s3_client, *config, *args, metadata_json@));
    Relay::new(writes)
}

/// Decides what becomes of a relay request once the content origin has
/// answered with `origin_status`. Any status but 200 ends the request with
/// `Error::Clouflare` before a sink is named. On 200 the request gets its relay,
/// with no write settled yet.
pub fn handler(s3_client: &S3Client, config: &Config, args: &Args, origin_status: u16) -> (decided:
    Result<Relay<Error>, Error>)
    ensures
        origin_status != OK ==> decided == Err::<Relay<Error>, Error>(
            Error::Clouflare(origin_status),
        ),
        origin_status == OK ==> match decided {
            Ok(relay) => {
                &&& relay@ == RelayModel::<Error>::start(relay@.writes)
                &&& write_models(relay@.writes) == relay_writes(
                    *s3_client,
                    *config,
                    *args,
                    json_object_text(args.metadata@),
                )
            },
            Err(_) => false,
        },
{
    if origin_status != OK {
        return Err(Error::Clouflare(origin_status));
    }
    match args.metadata.to_json() {
        Ok(json) => Ok(relay_with(s3_client, config, args, json.as_str())),
        Err(report) => Err(Error::Io(report)),
    }
}

/// For how many hours an upload that was not finalized is kept.
pub const PENDING_UPLOAD_TTL_HOURS: u32 = 1;

/// What the instant that lies `secs` seconds and `nanos` nanoseconds after
/// the start of 1970, UTC, reads in RFC 3339.
pub uninterp spec fn rfc3339_text(secs: i64, nanos: u32) -> Seq<char>;

/// The seconds, counted from the start of 1970, of the first instant that has
/// a date: the start of the year 262144 BCE.
pub const MIN_TIMESTAMP: i64 = -8_334_601_228_800;

/// The seconds, counted from the start of 1970, of the last second that has
/// a date: the last second of the year 262142.
pub const MAX_TIMESTAMP: i64 = 8_210_266_876_799;

/// Whether `secs` seconds and `nanos` nanoseconds after the start of 1970
/// is an instant with a date and a time of day. The second must lie in the
/// range of dates, and the nanoseconds must stay below one second, or below
/// two seconds in the last second of a minute, where they stand for a leap
/// second.
pub open spec fn is_instant(secs: i64, nanos: u32) -> bool {
    &&& MIN_TIMESTAMP <= secs <= MAX_TIMESTAMP
    &&& (nanos < 1_000_000_000 || (nanos < 2_000_000_000 && (secs as int) % 60 == 59))
}

/// Calls `chrono::DateTime::from_timestamp` and, on the instant it gives,
/// `to_rfc3339`. The contract says for which numbers there is a text, names
/// the text, and claims that it depends on the two numbers alone. The
/// outside function gives no instant where the day of `secs` lies before
/// the first or after the last date that the crate holds, January 1 of
/// 262144 BCE and December 31 of 262142, or where the nanoseconds are two
/// seconds or more, or one second or more outside the last second of a
/// minute; it gives one everywhere else.
#[verifier::external_body]
fn format_rfc3339(secs: i64, nanos: u32) -> (text: Option<String>)
    ensures
        text is Some <==> is_instant(secs, nanos),
        text matches Some(t) ==> t@ == rfc3339_text(secs, nanos),
{
    chrono::DateTime::from_timestamp(secs, nanos).map(|instant| instant.to_rfc3339())
}

/// The text under which an upload records when it arrived, for an instant
/// given in seconds and nanoseconds since the start of 1970, UTC. There is a
/// text exactly where the numbers give an instant with a date and a time of
/// day, which holds of every reading of a clock in the years that have a
/// date.
pub fn uploaded_at(secs: i64, nanos: u32) -> (text: Option<String>)
    ensures
        text is Some <==> is_instant(secs, nanos),
        text matches Some(t) ==> t@ == rfc3339_text(secs, nanos),
{
    format_rfc3339(secs, nanos)
}

/// The parameters of the first phase of a raw upload.
#[derive(Debug)]
pub struct RawUploadInitialParams {
    pub publisher_user_id: String,
    pub video_id: String,
    pub is_nsfw: bool,
}

/// The parameters of the second phase of a raw upload.
#[derive(Debug)]
pub struct RawFinalizeParams {
    pub publisher_user_id: String,
    pub video_id: String,
    pub is_nsfw: bool,
}

/// The body of the second phase of a raw upload.
#[derive(Debug)]
pub struct RawFinalizeBody {
    /// The metadata that the video is to carry from now on. A body that
    /// names none stands for the empty mapping.
    pub metadata: Metadata,
}

/// The metadata of an upload that waits to be finalized: the marker
/// `_pending`, and the time of arrival.
pub open spec fn pending_metadata_model(uploaded_at: Seq<char>) -> Map<Seq<char>, Seq<char>> {
    Map::<Seq<char>, Seq<char>>::empty().insert("_pending"@, "true"@).insert(
        "_uploaded_at"@,
        uploaded_at,
    )
}

/// Builds the metadata of an upload that waits to be finalized.
pub fn pending_metadata(uploaded_at: &str) -> (metadata: Metadata)
    ensures
        metadata@ == pending_metadata_model(uploaded_at@),
{
    let mut metadata = Metadata::new();
    metadata.insert(String::from_str("_pending"), String::from_str("true"));
    metadata.insert(String::from_str("_uploaded_at"), String::from_str(uploaded_at));
    metadata
}

/// After what time a sink may drop an upload that was not finalized.
pub open spec fn pending_expiry_text() -> Seq<char> {
    "+"@ + decimal_text(PENDING_UPLOAD_TTL_HOURS as nat) + "h"@
}

/// Builds the time after which a sink may drop a pending upload.
pub fn pending_expiry() -> (expires: String)
    ensures
        expires@ == pending_expiry_text(),
{
    let hours = decimal(PENDING_UPLOAD_TTL_HOURS as u64);
    concat3("+", hours.as_str(), "h")
}

/// The writes of the first phase of a raw upload. The video and its still
/// image go to the process-backed sink of the partition, where they may be
/// dropped after the pending time; content that is not sensitive goes to
/// the mirror as well, where it stays.
pub open spec fn pending_writes(
    s3_client: S3Client,
    config: Config,
    params: RawUploadInitialParams,
    metadata: Map<Seq<char>, Seq<char>>,
    metadata_json: Seq<char>,
) -> Seq<WriteModel> {
    let owner = params.publisher_user_id@;
    let video = params.video_id@;
    let expires = Some(pending_expiry_text());
    let storj_video = storj_video_write(
        config,
        owner,
        video,
        metadata,
        metadata_json,
        expires,
        params.is_nsfw,
    );
    let storj_thumbnail = storj_thumbnail_write(config, owner, video, expires, params.is_nsfw);
    if params.is_nsfw {
        seq![storj_video, storj_thumbnail]
    } else {
        seq![
            storj_video,
            storj_thumbnail,
            s3_client.write_model(video_key_text(owner, video), ObjectKind::Video, metadata),
            s3_client.write_model(
                thumbnail_key_text(owner, video),
                ObjectKind::Thumbnail,
                Map::empty(),
            ),
        ]
    }
}

/// Builds the relay of the first phase of a raw upload from the pending
/// metadata and its JSON text.
pub fn pending_relay_with(
    s3_client: &S3Client,
    config: &Config,
    params: &RawUploadInitialParams,
    metadata: &Metadata,
    metadata_json: &str,
) -> (relay: Relay<Error>)
    ensures
        relay@ == RelayModel::<Error>::start(relay@.writes),
        write_models(relay@.writes) == pending_writes(
            *s3_client,
            *config,
            *params,
            metadata@,
            metadata_json@,
        ),
{
    let expires = pending_expiry();
    let owner = params.publisher_user_id.as_str();
    let video = params.video_id.as_str();
    let mut writes: Vec<SinkWrite> = Vec::new();
    writes.push(
        storj_video(
            config,
            owner,
            video,
            metadata,
            metadata_json,
            Some(expires.as_str()),
            params.is_nsfw,
        ),
    );
    writes.push(
        upload_thumbnail_to_storj_with_ttl(config, owner, video, expires.as_str(), params.is_nsfw),
    );
    if !params.is_nsfw {
        writes.push(upload_to_s3(s3_client, owner, video, metadata));
        writes.push(upload_thumbnail_to_s3(s3_client, owner, video));
    }
    assert(write_models(writes@) =~= pending_writes(
        *s3_client,
        *config,
        *params,
        metadata@,
        metadata_json@,
    ));
    Relay::new(writes)
}

/// Starts the first phase of a raw upload: the relay of the video and its
/// still image, marked as pending since `uploaded_at`. The result is `Ok`
/// for every input.
pub fn handler_raw_upload_initial(
    s3_client: &S3Client,
    config: &Config,
    params: &RawUploadInitialParams,
    uploaded_at: &str,
) -> (decided: Result<Relay<Error>, Error>)
    ensures
        match decided {
            Ok(relay) => {
                &&& relay@ == RelayModel::<Error>::start(relay@.writes)
                &&& write_models(relay@.writes) == pending_writes(
                    *s3_client,
                    *config,
                    *params,
                    pending_metadata_model(uploaded_at@),
                    json_object_text(pending_metadata_model(uploaded_at@)),
                )
            },
            Err(_) => false,
        },
{
    let metadata = pending_metadata(uploaded_at);
    match metadata.to_json() {
        Ok(json) => Ok(pending_relay_with(s3_client, config, params, &metadata, json.as_str())),
        Err(report) => Err(Error::Io(report)),
    }
}

/// What the service answers when the first phase of a raw upload is done.
pub open spec fn pending_response_model() -> ResponseModel {
    ResponseModel {
        status: OK,
        body: seq![
            ("status"@, FieldModel::Text("pending"@)),
            ("expires_in_hours"@, FieldModel::Number(PENDING_UPLOAD_TTL_HOURS as u64)),
            (
                "message"@,
                FieldModel::Text(
                    "Video uploaded successfully. Call /duplicate_raw/finalize to complete the upload."@,
                ),
            ),
        ],
    }
}

/// Builds the answer to a first phase that is done.
pub fn pending_response() -> (response: Response)
    ensures
        response@ == pending_response_model(),
{
    let mut response = Response::empty(OK);
    response.push_text("status", "pending");
    response.push_number("expires_in_hours", PENDING_UPLOAD_TTL_HOURS as u64);
    response.push_text(
        "message",
        "Video uploaded successfully. Call /duplicate_raw/finalize to complete the upload.",
    );
    assert(response@.body =~= pending_response_model().body);
    response
}

/// Which frame of the video an extraction asks for.
#[derive(Clone, Copy, Debug, PartialEq, Eq, Structural)]
pub enum ThumbnailAttempt {
    /// The frame one second into the video.
    AtOneSecond,
    /// The first frame, for a video shorter than that.
    AtStart,
}

/// The arguments with which `ffmpeg` reads a video on its input and writes
/// one frame of it as a PNG image on its output.
pub open spec fn thumbnail_args(attempt: ThumbnailAttempt) -> Seq<Seq<char>> {
    seq!["-i"@, "pipe:0"@] + (if attempt == ThumbnailAttempt::AtOneSecond {
        seq!["-ss"@, "00:00:01"@]
    } else {
        Seq::<Seq<char>>::empty()
    }) + seq!["-vframes"@, "1"@, "-f"@, "image2pipe"@, "-vcodec"@, "png"@, "pipe:1"@]
}

/// The process that extracts a frame.
pub open spec fn thumbnail_command_model(attempt: ThumbnailAttempt) -> CommandModel {
    CommandModel {
        program: "ffmpeg"@,
        args: thumbnail_args(attempt),
        stdin: Pipe::Piped,
        stdout: Pipe::Piped,
        stderr: Pipe::Null,
    }
}

/// Builds the process that extracts a frame. The caller feeds it the video
/// and collects the image from its output.
pub fn thumbnail_command(attempt: ThumbnailAttempt) -> (command: Command)
    ensures
        command@ == thumbnail_command_model(attempt),
{
    let mut args: Vec<String> = Vec::new();
    assert(texts(args@) =~= Seq::<Seq<char>>::empty());
    push_text(&mut args, "-i");
    push_text(&mut args, "pipe:0");
    match attempt {
        ThumbnailAttempt::AtOneSecond => {
            push_text(&mut args, "-ss");
            push_text(&mut args, "00:00:01");
        },
        ThumbnailAttempt::AtStart => {},
    }
    push_text(&mut args, "-vframes");
    push_text(&mut args, "1");
    push_text(&mut args, "-f");
    push_text(&mut args, "image2pipe");
    push_text(&mut args, "-vcodec");
    push_text(&mut args, "png");
    push_text(&mut args, "pipe:1");
    assert(texts(args@) =~= thumbnail_args(attempt));
    Command {
        program: String::from_str("ffmpeg"),
        args,
        stdin: Pipe::Piped,
        stdout: Pipe::Piped,
        stderr: Pipe::Null,
    }
}

/// What follows an attempt to extract a frame.
#[derive(Debug)]
pub enum Thumbnail {
    /// The image is at hand.
    Ready(Vec<u8>),
    /// The first frame is to be tried, with this process.
    Retry(Command),
    /// No frame could be had.
    Failed(Error),
}

/// Decides what follows an attempt to extract a frame, from how the process
/// ended and what it wrote. An attempt at one second that failed or wrote
/// nothing is followed by one at the start. An attempt at the start gives
/// whatever it wrote, and fails only where it wrote nothing.
pub fn extract_thumbnail(attempt: ThumbnailAttempt, succeeded: bool, output: Vec<u8>) -> (next:
    Thumbnail)
    ensures
        match attempt {
            ThumbnailAttempt::AtOneSecond => if succeeded && output@.len() > 0 {
                next == Thumbnail::Ready(output)
            } else {
                next matches Thumbnail::Retry(command) && command@ == thumbnail_command_model(
                    ThumbnailAttempt::AtStart,
                )
            },
            ThumbnailAttempt::AtStart => if output@.len() > 0 {
                next == Thumbnail::Ready(output)
            } else {
                next matches Thumbnail::Failed(Error::Io(text)) && text@
                    == "Failed to extract thumbnail from video"@
            },
        },
{
    match attempt {
        ThumbnailAttempt::AtOneSecond => {
            if succeeded && output.len() > 0 {
                Thumbnail::Ready(output)
            } else {
                Thumbnail::Retry(thumbnail_command(ThumbnailAttempt::AtStart))
            }
        },
        ThumbnailAttempt::AtStart => {
            if output.len() > 0 {
                Thumbnail::Ready(output)
            } else {
                Thumbnail::Failed(
                    Error::Io(String::from_str("Failed to extract thumbnail from video")),
                )
            }
        },
    }
}

/// How often the download of one object is tried before its local copy is
/// looked for regardless.
pub const MAX_DOWNLOAD_ATTEMPTS: u32 = 3;

/// For how many seconds a failed download waits before it is tried again.
pub const RETRY_DELAY_SECS: u64 = 2;

/// The local file that holds an object while its upload is finalized.
pub open spec fn temp_file_text(
    publisher_user_id: Seq<char>,
    video_id: Seq<char>,
    object: ObjectKind,
) -> Seq<char> {
    "/tmp/storj-finalize-"@ + publisher_user_id + "-"@ + video_id + (if object
        == ObjectKind::Thumbnail {
        "_thumbnail.png"@
    } else {
        ".mp4"@
    })
}

/// The key of a pending object.
pub open spec fn pending_key_text(
    publisher_user_id: Seq<char>,
    video_id: Seq<char>,
    object: ObjectKind,
) -> Seq<char> {
    if object == ObjectKind::Thumbnail {
        thumbnail_key_text(publisher_user_id, video_id)
    } else {
        video_key_text(publisher_user_id, video_id)
    }
}

/// The process that fetches a pending object into its local file.
pub open spec fn fetch_command_model(
    config: Config,
    params: RawFinalizeParams,
    object: ObjectKind,
) -> CommandModel {
    let sink = config.storj_sink_model(params.is_nsfw);
    copy_out_model(
        sink.credential,
        object_url_text(
            sink.destination_root,
            pending_key_text(params.publisher_user_id@, params.video_id@, object),
        ),
        temp_file_text(params.publisher_user_id@, params.video_id@, object),
    )
}

/// What is reported when a pending object is not at hand after the last
/// attempt to fetch it.
pub open spec fn download_failure_text(object: ObjectKind, last_error: Seq<char>) -> Seq<char> {
    "Failed to download "@ + (if object == ObjectKind::Thumbnail {
        "thumbnail"@
    } else {
        "video"@
    }) + " from Storj after "@ + decimal_text(MAX_DOWNLOAD_ATTEMPTS as nat)
        + " retries. Last error: "@ + last_error
}

/// The writes of the second phase of a raw upload. They replace the pending
/// objects by objects that stay, and the pending metadata by `metadata`.
pub open spec fn finalize_writes(
    s3_client: S3Client,
    config: Config,
    params: RawFinalizeParams,
    metadata: Map<Seq<char>, Seq<char>>,
    metadata_json: Seq<char>,
) -> Seq<WriteModel> {
    let owner = params.publisher_user_id@;
    let video = params.video_id@;
    let storj_video = storj_video_write(
        config,
        owner,
        video,
        metadata,
        metadata_json,
        None,
        params.is_nsfw,
    );
    let storj_thumbnail = storj_thumbnail_write(config, owner, video, None, params.is_nsfw);
    if params.is_nsfw {
        seq![storj_video, storj_thumbnail]
    } else {
        seq![
            storj_video,
            storj_thumbnail,
            s3_client.write_model(video_key_text(owner, video), ObjectKind::Video, metadata),
            s3_client.write_model(
                thumbnail_key_text(owner, video),
                ObjectKind::Thumbnail,
                Map::empty(),
            ),
        ]
    }
}

/// What the service answers when an upload is finalized.
pub open spec fn completed_response_model() -> ResponseModel {
    ResponseModel {
        status: OK,
        body: seq![
            ("status"@, FieldModel::Text("completed"@)),
            ("message"@, FieldModel::Text("Video finalized successfully with metadata."@)),
        ],
    }
}

/// Builds the local file name of a pending object.
pub fn temp_file(publisher_user_id: &str, video_id: &str, object: ObjectKind) -> (path: String)
    ensures
        path@ == temp_file_text(publisher_user_id@, video_id@, object),
{
    let mut path = String::from_str("/tmp/storj-finalize-");
    path.append(publisher_user_id);
    path.append("-");
    path.append(video_id);
    match object {
        ObjectKind::Thumbnail => path.append("_thumbnail.png"),
        _ => path.append(".mp4"),
    }
    path
}

/// Builds the process that fetches a pending object into its local file.
pub fn fetch_command(config: &Config, params: &RawFinalizeParams, object: ObjectKind) -> (command:
    Command)
    ensures
        command@ == fetch_command_model(*config, *params, object),
{
    let sink = config.storj_sink(params.is_nsfw);
    let key = match object {
        ObjectKind::Thumbnail => thumbnail_key(
            params.publisher_user_id.as_str(),
            params.video_id.as_str(),
        ),
        _ => video_key(params.publisher_user_id.as_str(), params.video_id.as_str()),
    };
    let from = object_url(sink.destination_root.as_str(), key.as_str());
    let to = temp_file(params.publisher_user_id.as_str(), params.video_id.as_str(), object);
    copy_out(sink.credential.as_str(), from.as_str(), to.as_str())
}

/// Builds the report on a pending object that is not at hand.
pub fn download_failure(object: ObjectKind, last_error: &str) -> (report: String)
    ensures
        report@ == download_failure_text(object, last_error@),
{
    let mut report = String::from_str("Failed to download ");
    match object {
        ObjectKind::Thumbnail => report.append("thumbnail"),
        _ => report.append("video"),
    }
    report.append(" from Storj after ");
    let attempts = decimal(MAX_DOWNLOAD_ATTEMPTS as u64);
    report.append(attempts.as_str());
    report.append(" retries. Last error: ");
    report.append(last_error);
    report
}

/// Builds the relay of the second phase of a raw upload from the metadata
/// that the video is to carry and its JSON text.
pub fn finalize_relay_with(
    s3_client: &S3Client,
    config: &Config,
    params: &RawFinalizeParams,
    metadata: &Metadata,
    metadata_json: &str,
) -> (relay: Relay<Error>)
    ensures
        relay@ == RelayModel::<Error>::start(relay@.writes),
        write_models(relay@.writes) == finalize_writes(
            *s3_client,
            *config,
            *params,
            metadata@,
            metadata_json@,
        ),
{
    let owner = params.publisher_user_id.as_str();
    let video = params.video_id.as_str();
    let mut writes: Vec<SinkWrite> = Vec::new();
    writes.push(
        storj_video(
            config,
            owner,
            video,
            metadata,
            metadata_json,
            None,
            params.is_nsfw,
        ),
    );
    writes.push(upload_thumbnail_to_storj(config, owner, video, params.is_nsfw));
    if !params.is_nsfw {
        writes.push(upload_to_s3(s3_client, owner, video, metadata));
        writes.push(upload_thumbnail_to_s3(s3_client, owner, video));
    }
    assert(write_models(writes@) =~= finalize_writes(
        *s3_client,
        *config,
        *params,
        metadata@,
        metadata_json@,
    ));
    Relay::new(writes)
}

/// Builds the relay of the second phase of a raw upload. The result is `Ok`
/// for every input.
pub fn finalize_relay(
    s3_client: &S3Client,
    config: &Config,
    params: &RawFinalizeParams,
    metadata: &Metadata,
) -> (decided: Result<Relay<Error>, Error>)
    ensures
        match decided {
            Ok(relay) => {
                &&& relay@ == RelayModel::<Error>::start(relay@.writes)
                &&& write_models(relay@.writes) == finalize_writes(
                    *s3_client,
                    *config,
                    *params,
                    metadata@,
                    json_object_text(metadata@),
                )
            },
            Err(_) => false,
        },
{
    match metadata.to_json() {
        Ok(json) => Ok(finalize_relay_with(s3_client, config, params, metadata, json.as_str())),
        Err(report) => Err(Error::Io(report)),
    }
}

/// Builds the answer to an upload that is finalized.
pub fn completed_response() -> (response: Response)
    ensures
        response@ == completed_response_model(),
{
    let mut response = Response::empty(OK);
    response.push_text("status", "completed");
    response.push_text("message", "Video finalized successfully with metadata.");
    assert(response@.body =~= completed_response_model().body);
    response
}

/// How far the second phase of a raw upload has come.
#[derive(Clone, Copy, Debug, PartialEq, Eq, Structural)]
pub enum FinalizePhase {
    /// The pending video is being fetched into its local file.
    FetchVideo,
    /// The local file of the video is being looked for.
    CheckVideo,
    /// The pending still image is being fetched into its local file.
    FetchThumbnail,
    /// The local file of the still image is being looked for.
    CheckThumbnail,
    /// The local file of the video is being read.
    ReadVideo,
    /// The local file of the still image is being read.
    ReadThumbnail,
    /// The two objects are being written again.
    Upload,
    /// The request has its answer.
    Done,
}

/// The state of the second phase of a raw upload.
#[derive(Debug)]
pub struct Finalize {
    pub phase: FinalizePhase,
    /// Which attempt to fetch the current object is under way, from 1.
    pub attempt: u32,
    /// What the last failed attempt to fetch the current object complained
    /// about.
    pub last_error: String,
}

/// What the caller reports to the second phase.
#[derive(Debug)]
pub enum FinalizeEvent {
    /// The process that fetches an object has ended.
    Exited { succeeded: bool, stderr: String },
    /// The local file is there, or is not.
    Exists(bool),
    /// The local file has been read.
    Loaded,
    /// The process could not be run, or the file could not be read.
    Failed(String),
    /// Every write has settled, with this result.
    Settled(Result<(), Error>),
}

/// What the second phase asks of the caller next.
#[derive(Debug)]
pub enum FinalizeAction {
    /// Wait for `after_secs` seconds, run the process, and report how it
    /// ended.
    Run { command: Command, after_secs: u64 },
    /// Report whether the file exists. A check that fails counts as absent.
    CheckFile(String),
    /// Read the file as the bytes of `object`.
    ReadFile { path: String, object: ObjectKind },
    /// Perform the writes of the relay and report its result.
    Upload(Relay<Error>),
    /// Remove the files, whether or not that succeeds, and answer. The
    /// files are listed for a request that failed as for one that is done.
    Finish { remove: Vec<String>, result: Result<Response, Error> },
}

/// Which object a phase deals with.
pub open spec fn phase_object(phase: FinalizePhase) -> ObjectKind {
    match phase {
        FinalizePhase::FetchThumbnail
        | FinalizePhase::CheckThumbnail
        | FinalizePhase::ReadThumbnail => ObjectKind::Thumbnail,
        _ => ObjectKind::Video,
    }
}

/// The local files that may exist while the request is in `phase`: that of
/// the video from the first fetch on, and that of the still image from its
/// fetch on. A request that has its answer has none left.
pub open spec fn local_files(params: RawFinalizeParams, phase: FinalizePhase) -> Seq<Seq<char>> {
    let owner = params.publisher_user_id@;
    let video = params.video_id@;
    match phase {
        FinalizePhase::Done => Seq::empty(),
        FinalizePhase::FetchVideo | FinalizePhase::CheckVideo => seq![
            temp_file_text(owner, video, ObjectKind::Video),
        ],
        _ => seq![
            temp_file_text(owner, video, ObjectKind::Video),
            temp_file_text(owner, video, ObjectKind::Thumbnail),
        ],
    }
}

/// Whether the action ends the request with an error of the process or of
/// the file system, and has `files` removed.
pub open spec fn fails_with_io(
    action: FinalizeAction,
    files: Seq<Seq<char>>,
    text: Seq<char>,
) -> bool {
    &&& action matches FinalizeAction::Finish { remove, result }
    &&& texts(remove@) == files
    &&& result matches Err(Error::Io(report))
    &&& report@ == text
}

/// Whether the action runs the process that fetches `object`, after
/// `after_secs` seconds.
pub open spec fn runs_fetch(
    action: FinalizeAction,
    config: Config,
    params: RawFinalizeParams,
    object: ObjectKind,
    delay: u64,
) -> bool {
    &&& action matches FinalizeAction::Run { command, after_secs }
    &&& command@ == fetch_command_model(config, params, object)
    &&& after_secs == delay
}

/// What is reported of an event that the state does not wait for.
pub open spec fn unexpected_text() -> Seq<char> {
    "the event does not fit the state of the request"@
}

/// The step relation of the second phase: whether, from the state `before`,
/// the event leads to the state `after` and the action.
///
/// A fetch that succeeds is followed by a look for its local file. A fetch
/// that fails is tried again while attempts are left, and ends the request
/// with an error once they are used up: no file is looked for then, and
/// nothing is written to any sink. Whenever the request ends, with an error
/// as with its answer, the local files that may exist are to be removed.
pub open spec fn finalize_next(
    s3_client: S3Client,
    config: Config,
    params: RawFinalizeParams,
    body: RawFinalizeBody,
    before: Finalize,
    event: FinalizeEvent,
    after: Finalize,
    action: FinalizeAction,
) -> bool {
    let owner = params.publisher_user_id@;
    let video = params.video_id@;
    let object = phase_object(before.phase);
    let files = local_files(params, before.phase);
    match (before.phase, event) {
        (FinalizePhase::Done, _) => after.phase == FinalizePhase::Done && fails_with_io(
            action,
            files,
            unexpected_text(),
        ),
        (_, FinalizeEvent::Failed(report)) => after.phase == FinalizePhase::Done
            && fails_with_io(action, files, report@),
        (FinalizePhase::FetchVideo, FinalizeEvent::Exited { succeeded, stderr })
        | (FinalizePhase::FetchThumbnail, FinalizeEvent::Exited { succeeded, stderr }) => {
            if succeeded {
                &&& after.phase == (if object == ObjectKind::Video {
                    FinalizePhase::CheckVideo
                } else {
                    FinalizePhase::CheckThumbnail
                })
                &&& after.attempt == before.attempt
                &&& after.last_error@ == before.last_error@
                &&& action matches FinalizeAction::CheckFile(path)
                &&& path@ == temp_file_text(owner, video, object)
            } else if before.attempt < MAX_DOWNLOAD_ATTEMPTS {
                &&& after.phase == before.phase
                &&& after.attempt == before.attempt + 1
                &&& after.last_error@ == stderr@
                &&& runs_fetch(action, config, params, object, RETRY_DELAY_SECS)
            } else {
                &&& after.phase == FinalizePhase::Done
                &&& fails_with_io(action, files, download_failure_text(object, stderr@))
            }
        },
        (FinalizePhase::CheckVideo, FinalizeEvent::Exists(found)) => {
            if found {
                &&& after.phase == FinalizePhase::FetchThumbnail
                &&& after.attempt == 1
                &&& after.last_error@ == Seq::<char>::empty()
                &&& runs_fetch(action, config, params, ObjectKind::Thumbnail, 0)
            } else {
                &&& after.phase == FinalizePhase::Done
                &&& fails_with_io(
                    action,
                    files,
                    download_failure_text(ObjectKind::Video, before.last_error@),
                )
            }
        },
        (FinalizePhase::CheckThumbnail, FinalizeEvent::Exists(found)) => {
            if found {
                &&& after.phase == FinalizePhase::ReadVideo
                &&& action matches FinalizeAction::ReadFile { path, object: read }
                &&& path@ == temp_file_text(owner, video, ObjectKind::Video)
                &&& read == ObjectKind::Video
            } else {
                &&& after.phase == FinalizePhase::Done
                &&& fails_with_io(
                    action,
                    files,
                    download_failure_text(ObjectKind::Thumbnail, before.last_error@),
                )
            }
        },
        (FinalizePhase::ReadVideo, FinalizeEvent::Loaded) => {
            &&& after.phase == FinalizePhase::ReadThumbnail
            &&& action matches FinalizeAction::ReadFile { path, object: read }
            &&& path@ == temp_file_text(owner, video, ObjectKind::Thumbnail)
            &&& read == ObjectKind::Thumbnail
        },
        (FinalizePhase::ReadThumbnail, FinalizeEvent::Loaded) => {
            &&& after.phase == FinalizePhase::Upload
            &&& action matches FinalizeAction::Upload(relay)
            &&& relay@ == RelayModel::<Error>::start(relay@.writes)
            &&& write_models(relay@.writes) == finalize_writes(
                s3_client,
                config,
                params,
                body.metadata@,
                json_object_text(body.metadata@),
            )
        },
        (FinalizePhase::Upload, FinalizeEvent::Settled(outcome)) => {
            &&& after.phase == FinalizePhase::Done
            &&& action matches FinalizeAction::Finish { remove, result }
            &&& texts(remove@) == files
            &&& match outcome {
                Ok(_) => result matches Ok(response) && response@ == completed_response_model(),
                Err(error) => result == Err::<Response, Error>(error),
            }
        },
        _ => after.phase == FinalizePhase::Done && fails_with_io(
            action,
            files,
            unexpected_text(),
        ),
    }
}

/// Lists the local files that may exist while the request is in `phase`.
pub fn files_to_remove(params: &RawFinalizeParams, phase: FinalizePhase) -> (files: Vec<String>)
    ensures
        texts(files@) == local_files(*params, phase),
{
    let owner = params.publisher_user_id.as_str();
    let video = params.video_id.as_str();
    let mut files: Vec<String> = Vec::new();
    assert(texts(files@) =~= Seq::<Seq<char>>::empty());
    match phase {
        FinalizePhase::Done => {},
        FinalizePhase::FetchVideo | FinalizePhase::CheckVideo => {
            let first = temp_file(owner, video, ObjectKind::Video);
            push_text(&mut files, first.as_str());
        },
        _ => {
            let first = temp_file(owner, video, ObjectKind::Video);
            push_text(&mut files, first.as_str());
            let second = temp_file(owner, video, ObjectKind::Thumbnail);
            push_text(&mut files, second.as_str());
        },
    }
    assert(texts(files@) =~= local_files(*params, phase));
    files
}

impl Finalize {
    /// The state in which the second phase starts, and its first action: to
    /// fetch the pending video.
    pub fn start(config: &Config, params: &RawFinalizeParams) -> (started: (Finalize, FinalizeAction))
        ensures
            started.0.phase == FinalizePhase::FetchVideo,
            started.0.attempt == 1,
            started.0.last_error@ == Seq::<char>::empty(),
            runs_fetch(started.1, *config, *params, ObjectKind::Video, 0),
    {
        (
            Finalize { phase: FinalizePhase::FetchVideo, attempt: 1, last_error: String::new() },
            FinalizeAction::Run {
                command: fetch_command(config, params, ObjectKind::Video),
                after_secs: 0,
            },
        )
    }

    /// The state in which the request has its answer.
    fn done() -> (state: Finalize)
        ensures
            state.phase == FinalizePhase::Done,
    {
        Finalize { phase: FinalizePhase::Done, attempt: 0, last_error: String::new() }
    }

    /// Ends a request that was in `phase` with an error of the process or
    /// of the file system.
    fn fail(params: &RawFinalizeParams, phase: FinalizePhase, report: String) -> (ended: (
        Finalize,
        FinalizeAction,
    ))
        ensures
            ended.0.phase == FinalizePhase::Done,
            fails_with_io(ended.1, local_files(*params, phase), report@),
    {
        (
            Finalize::done(),
            FinalizeAction::Finish {
                remove: files_to_remove(params, phase),
                result: Err(Error::Io(report)),
            },
        )
    }

    /// Ends a request that was in `phase` on an event that the phase does
    /// not wait for.
    fn unexpected(params: &RawFinalizeParams, phase: FinalizePhase) -> (ended: (
        Finalize,
        FinalizeAction,
    ))
        ensures
            ended.0.phase == FinalizePhase::Done,
            fails_with_io(ended.1, local_files(*params, phase), unexpected_text()),
    {
        Finalize::fail(
            params,
            phase,
            String::from_str("the event does not fit the state of the request"),
        )
    }
}

/// Takes the second phase of a raw upload one step further: from the state
/// and what the caller reports, to the next state and what the caller is to
/// do.
///
/// Each of the two pending objects is fetched into a local file, up to
/// three times with two seconds in between. When the third attempt has
/// failed too, the request ends with an error. After a fetch that succeeded
/// the file is looked for, both files are read, the objects are written
/// again with the metadata of the request's body, and the request is
/// answered. Whenever the request ends, the local files are to be removed.
pub fn handler_raw_finalize(
    s3_client: &S3Client,
    config: &Config,
    params: &RawFinalizeParams,
    body: &RawFinalizeBody,
    state: Finalize,
    event: FinalizeEvent,
) -> (next: (Finalize, FinalizeAction))
    ensures
        finalize_next(*s3_client, *config, *params, *body, state, event, next.0, next.1),
{
    let owner = params.publisher_user_id.as_str();
    let video = params.video_id.as_str();
    let phase = state.phase;
    match event {
        FinalizeEvent::Failed(report) => {
            match phase {
                FinalizePhase::Done => Finalize::unexpected(params, phase),
                _ => Finalize::fail(params, phase, report),
            }
        },
        FinalizeEvent::Exited { succeeded, stderr } => {
            match phase {
                FinalizePhase::FetchVideo | FinalizePhase::FetchThumbnail => {
                    let object = match phase {
                        FinalizePhase::FetchVideo => ObjectKind::Video,
                        _ => ObjectKind::Thumbnail,
                    };
                    let check = match phase {
                        FinalizePhase::FetchVideo => FinalizePhase::CheckVideo,
                        _ => FinalizePhase::CheckThumbnail,
                    };
                    if succeeded {
                        (
                            Finalize {
                                phase: check,
                                attempt: state.attempt,
                                last_error: state.last_error,
                            },
                            FinalizeAction::CheckFile(temp_file(owner, video, object)),
                        )
                    } else if state.attempt < MAX_DOWNLOAD_ATTEMPTS {
                        (
                            Finalize { phase, attempt: state.attempt + 1, last_error: stderr },
                            FinalizeAction::Run {
                                command: fetch_command(config, params, object),
                                after_secs: RETRY_DELAY_SECS,
                            },
                        )
                    } else {
                        Finalize::fail(params, phase, download_failure(object, stderr.as_str()))
                    }
                },
                _ => Finalize::unexpected(params, phase),
            }
        },
        FinalizeEvent::Exists(found) => {
            match phase {
                FinalizePhase::CheckVideo => {
                    if found {
                        (
                            Finalize {
                                phase: FinalizePhase::FetchThumbnail,
                                attempt: 1,
                                last_error: String::new(),
                            },
                            FinalizeAction::Run {
                                command: fetch_command(config, params, ObjectKind::Thumbnail),
                                after_secs: 0,
                            },
                        )
                    } else {
                        Finalize::fail(
                            params,
                            phase,
                            download_failure(ObjectKind::Video, state.last_error.as_str()),
                        )
                    }
                },
                FinalizePhase::CheckThumbnail => {
                    if found {
                        (
                            Finalize {
                                phase: FinalizePhase::ReadVideo,
                                attempt: state.attempt,
                                last_error: state.last_error,
                            },
                            FinalizeAction::ReadFile {
                                path: temp_file(owner, video, ObjectKind::Video),
                                object: ObjectKind::Video,
                            },
                        )
                    } else {
                        Finalize::fail(
                            params,
                            phase,
                            download_failure(ObjectKind::Thumbnail, state.last_error.as_str()),
                        )
                    }
                },
                _ => Finalize::unexpected(params, phase),
            }
        },
        FinalizeEvent::Loaded => {
            match phase {
                FinalizePhase::ReadVideo => (
                    Finalize {
                        phase: FinalizePhase::ReadThumbnail,
                        attempt: state.attempt,
                        last_error: state.last_error,
                    },
                    FinalizeAction::ReadFile {
                        path: temp_file(owner, video, ObjectKind::Thumbnail),
                        object: ObjectKind::Thumbnail,
                    },
                ),
                FinalizePhase::ReadThumbnail => {
                    match finalize_relay(s3_client, config, params, &body.metadata) {
                        Ok(relay) => (
                            Finalize {
                                phase: FinalizePhase::Upload,
                                attempt: state.attempt,
                                last_error: state.last_error,
                            },
                            FinalizeAction::Upload(relay),
                        ),
                        Err(error) => (
                            Finalize::done(),
                            FinalizeAction::Finish {
                                remove: files_to_remove(params, phase),
                                result: Err(error),
                            },
                        ),
                    }
                },
                _ => Finalize::unexpected(params, phase),
            }
        },
        FinalizeEvent::Settled(outcome) => {
            match phase {
                FinalizePhase::Upload => {
                    let remove = files_to_remove(params, phase);
                    match outcome {
                        Ok(_) => (
                            Finalize::done(),
                            FinalizeAction::Finish { remove, result: Ok(completed_response()) },
                        ),
                        Err(error) => (
                            Finalize::done(),
                            FinalizeAction::Finish { remove, result: Err(error) },
                        ),
                    }
                },
                _ => Finalize::unexpected(params, phase),
            }
        },
    }
}

impl Error {
    /// What the error reads in a report, with its detail.
    pub open spec fn text(self) -> Seq<char> {
        match self {
            Error::Network(report) => report@,
            Error::Io(report) => report@,
            Error::Hyper(report) => report@,
            Error::Clouflare(status) => "Cloudflare returned non-ok status ("@ + status_text(status)
                + ") when fetching the video"@,
            Error::S3(report) => "S3 operation failed: "@ + report@,
        }
    }

    /// Renders the error, with its detail, for a report.
    pub fn describe(&self) -> (text: String)
        ensures
            text@ == self.text(),
    {
        match self {
            Error::Network(report) => report.clone(),
            Error::Io(report) => report.clone(),
            Error::Hyper(report) => report.clone(),
            Error::Clouflare(status) => {
                let line = describe_status(*status);
                concat3(
                    "Cloudflare returned non-ok status (",
                    line.as_str(),
                    ") when fetching the video",
                )
            },
            Error::S3(report) => concat2("S3 operation failed: ", report.as_str()),
        }
    }
}

} // verus!
