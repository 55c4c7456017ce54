//! `POST /hls/duplicate`: one file of a segmented stream goes to the
//! process-backed sink of its partition and, where it is not sensitive, to
//! the mirror as well. A file that is already there is replaced.

use vstd::prelude::*;
use crate::consts::Config;
use crate::http::{message_response, Response, ResponseModel, INTERNAL_SERVER_ERROR, OK};
use crate::keys::{hls_key, hls_key_text};
use crate::metadata::{json_object_text, Metadata};
use crate::relay::{Relay, RelayModel};
use crate::s3_client::S3Client;
use crate::sink::{write_models, ObjectKind, SinkWrite, WriteModel};
use crate::text::concat2;
use crate::uplink::{failure, failure_text, TransferOptionsModel};

verus! {

/// Why a request of this route failed.
#[derive(Debug)]
pub enum Error {
    /// A request to a sink could not be made.
    Network(String),
    /// A child process failed, or a write did not run to its end.
    Io(String),
    /// The body of the request could not be read.
    Hyper(String),
    /// The mirror refused an operation.
    S3(String),
}

impl Error {
    /// The message with which the service answers this error. It names the
    /// kind of failure and none of its detail.
    pub open spec fn message(self) -> Seq<char> {
        match self {
            Error::S3(_) => "S3 storage operation failed. Check server logs."@,
            _ => "Internal server error. Check server logs."@,
        }
    }

    /// The response that the service gives for this error: status 500 and
    /// the message.
    pub fn into_response(self) -> (response: Response)
        ensures
            response@ == message_response(INTERNAL_SERVER_ERROR, self.message()),
    {
        match self {
            Error::S3(_) => Response::message(
                INTERNAL_SERVER_ERROR,
                "S3 storage operation failed. Check server logs.",
            ),
            _ => Response::message(
                INTERNAL_SERVER_ERROR,
                "Internal server error. Check server logs.",
            ),
        }
    }
}

/// The parameters of the request.
#[derive(Debug)]
pub struct HlsUploadParams {
    pub video_id: String,
    pub is_nsfw: bool,
    pub hls_file_name: String,
    /// The metadata that the file is to carry. A request that names none
    /// stands for the empty mapping.
    pub metadata: Metadata,
}

/// The write of one file of a segmented stream to the process-backed sink
/// of its partition, given the JSON text of the metadata.
pub open spec fn storj_segment_write(
    config: Config,
    video_id: Seq<char>,
    hls_file_name: Seq<char>,
    metadata: Map<Seq<char>, Seq<char>>,
    metadata_json: Seq<char>,
    is_nsfw: bool,
) -> WriteModel {
    crate::uplink::write_model(
        config.storj_sink_model(is_nsfw),
        hls_key_text(video_id, hls_file_name),
        ObjectKind::Segment,
        Some(metadata),
        TransferOptionsModel {
            overwrite: true,
            metadata_json: Some(metadata_json),
            expires: None,
        },
    )
}

/// Builds the write of one file of a segmented stream to the process-backed
/// sink of its partition from the metadata and its JSON text.
pub fn storj_segment(
    config: &Config,
    video_id: &str,
    hls_file_name: &str,
    metadata: &Metadata,
    metadata_json: &str,
    is_nsfw: bool,
) -> (planned: SinkWrite)
    ensures
        planned@ == storj_segment_write(
            *config,
            video_id@,
            hls_file_name@,
            metadata@,
            metadata_json@,
            is_nsfw,
        ),
{
    crate::uplink::write(
        config.storj_sink(is_nsfw),
        hls_key(video_id, hls_file_name),
        ObjectKind::Segment,
        Some((metadata.clone(), metadata_json)),
        None,
        true,
    )
}

/// Builds the write of one file of a segmented stream, with the metadata it
/// is to carry, to the process-backed sink of its partition. The result is
/// `Ok` for every metadata.
pub fn upload_hls_to_storj(
    config: &Config,
    video_id: &str,
    hls_file_name: &str,
    metadata: &Metadata,
    is_nsfw: bool,
) -> (planned: Result<SinkWrite, Error>)
    ensures
        match planned {
            Ok(write) => write@ == storj_segment_write(
                *config,
                video_id@,
                hls_file_name@,
                metadata@,
                json_object_text(metadata@),
                is_nsfw,
            ),
            Err(_) => false,
        },
{
    match metadata.to_json() {
        Ok(json) => Ok(
            storj_segment(config, video_id, hls_file_name, metadata, json.as_str(), is_nsfw),
        ),
        Err(report) => Err(Error::Io(report)),
    }
}

/// Builds the write of one file of a segmented stream to the mirror.
pub fn upload_hls_to_s3(
    s3_client: &S3Client,
    video_id: &str,
    hls_file_name: &str,
    metadata: &Metadata,
) -> (planned: SinkWrite)
    ensures
        planned@ == s3_client.write_model(
            hls_key_text(video_id@, hls_file_name@),
            ObjectKind::Segment,
            metadata@,
        ),
{
    let key = hls_key(video_id, hls_file_name);
    s3_client.write(key.as_str(), ObjectKind::Segment, metadata)
}

/// What an exit of the transfer tool means for the write it was run for:
/// success, or a failure that carries what the tool complained about.
pub fn transfer_result(succeeded: bool, stderr: &str) -> (result: Result<(), Error>)
    ensures
        succeeded ==> result is Ok,
        !succeeded ==> (result matches Err(Error::Io(text)) && text@ == failure_text(stderr@)),
{
    if succeeded {
        Ok(())
    } else {
        Err(Error::Io(failure(stderr)))
    }
}

/// The answer to a request whose relay has ended: status 200 without a
/// body where every write succeeded, and the answer to the error where one
/// failed.
pub fn respond(result: Result<(), Error>) -> (response: Response)
    ensures
        match result {
            Ok(_) => response@ == (ResponseModel { status: OK, body: Seq::empty() }),
            Err(error) => response@ == message_response(INTERNAL_SERVER_ERROR, error.message()),
        },
{
    match result {
        Ok(_) => Response::empty(OK),
        Err(error) => error.into_response(),
    }
}

/// What a call to the mirror means for the write it was made for: success,
/// or a failure that carries what the store reported.
pub fn s3_result(outcome: Result<(), String>) -> (result: Result<(), Error>)
    ensures
        outcome is Ok ==> result is Ok,
        outcome matches Err(report) ==> result == Err::<(), Error>(Error::S3(report)),
{
    match outcome {
        Ok(_) => Ok(()),
        Err(report) => Err(Error::S3(report)),
    }
}

/// The writes that a request asks for: the process-backed sink of the
/// partition always, the mirror for content that is not sensitive.
pub open spec fn segment_writes(
    s3_client: S3Client,
    config: Config,
    params: HlsUploadParams,
    metadata_json: Seq<char>,
) -> Seq<WriteModel> {
    let storj = storj_segment_write(
        config,
        params.video_id@,
        params.hls_file_name@,
        params.metadata@,
        metadata_json,
        params.is_nsfw,
    );
    if params.is_nsfw {
        seq![storj]
    } else {
        seq![
            storj,
            s3_client.write_model(
                hls_key_text(params.video_id@, params.hls_file_name@),
                ObjectKind::Segment,
                params.metadata@,
            ),
        ]
    }
}

/// Builds the relay of one file of a segmented stream from the JSON text
/// of its metadata, with no write settled yet.
pub fn relay_with(
    s3_client: &S3Client,
    config: &Config,
    params: &HlsUploadParams,
    metadata_json: &str,
) -> (relay: Relay<Error>)
    ensures
        relay@ == RelayModel::<Error>::start(relay@.writes),
        write_models(relay@.writes) == segment_writes(
            *s3_client,
            *config,
            *params,
            metadata_json@,
        ),
{
    let video = params.video_id.as_str();
    let name = params.hls_file_name.as_str();
    let mut writes: Vec<SinkWrite> = Vec::new();
    writes.push(storj_segment(config, video, name, &params.metadata, metadata_json, params.is_nsfw));
    if !params.is_nsfw {
        writes.push(upload_hls_to_s3(s3_client, video, name, &params.metadata));
    }
    assert(write_models(writes@) =~= segment_writes(
        *s3_client,
        *config,
        *params,
        metadata_json@,
    ));
    Relay::new(writes)
}

/// Starts the relay of one file of a segmented stream, with no write
/// settled yet. The result is `Ok` for every input.
pub fn handler(s3_client: &S3Client, config: &Config, params: &HlsUploadParams) -> (decided: Result<
    Relay<Error>,
    Error,
>)
    ensures
        match decided {
            Ok(relay) => {
                &&& relay@ == RelayModel::<Error>::start(relay@.writes)
                &&& write_models(relay@.writes) == segment_writes(
                    *s3_client,
                    *config,
                    *params,
                    json_object_text(params.metadata@),
                )
            },
            Err(_) => false,
        },
{
    match params.metadata.to_json() {
        Ok(json) => Ok(relay_with(s3_client, config, params, json.as_str())),
        Err(report) => Err(Error::Io(report)),
    }
}

impl Error {
    /// What the error reads in a report, with its detail.
    pub open spec fn text(self) -> Seq<char> {
        match self {
            Error::Network(report) => report@,
            Error::Io(report) => report@,
            Error::Hyper(report) => report@,
            Error::S3(report) => "S3 operation failed: "@ + report@,
        }
    }

    /// Renders the error, with its detail, for a report.
    pub fn describe(&self) -> (text: String)
        ensures
            text@ == self.text(),
    {
        match self {
            Error::Network(report) => report.clone(),
            Error::Io(report) => report.clone(),
            Error::Hyper(report) => report.clone(),
            Error::S3(report) => concat2("S3 operation failed: ", report.as_str()),
        }
    }
}

} // verus!
