//! The SDK-backed sink: what the service asks of the S3-compatible store.
//!
//! An `S3Client` holds the settings of the connection and the bucket. Its
//! methods describe the calls; the caller makes them with the store's own
//! client.

use vstd::prelude::*;
use crate::consts::Config;
use crate::metadata::Metadata;
use crate::sink::{ObjectKind, SinkDescriptor, SinkKind, SinkModel, SinkRequest,
    SinkRequestModel, SinkWrite, WriteModel};
use crate::text::{ends_with, str_ends_with};

verus! {

/// The name under which the credentials are registered with the client.
pub const CREDENTIALS_PROVIDER: &'static str = "hetzner_s3";

/// The content type of a video.
pub const VIDEO_CONTENT_TYPE: &'static str = "video/mp4";

/// The content type of a still image.
pub const THUMBNAIL_CONTENT_TYPE: &'static str = "image/png";

/// One call to the store.
#[derive(Debug)]
pub enum S3Request {
    /// Stores the object at hand under `key`.
    Put { bucket: String, key: String, content_type: String, metadata: Metadata },
    /// Fetches the object under `key`.
    Get { bucket: String, key: String },
    /// Deletes the object under `key`.
    Delete { bucket: String, key: String },
}

/// A call as contracts see it.
pub enum S3RequestModel {
    Put {
        bucket: Seq<char>,
        key: Seq<char>,
        content_type: Seq<char>,
        metadata: Map<Seq<char>, Seq<char>>,
    },
    Get { bucket: Seq<char>, key: Seq<char> },
    Delete { bucket: Seq<char>, key: Seq<char> },
}

impl View for S3Request {
    type V = S3RequestModel;

    open spec fn view(&self) -> S3RequestModel {
        match self {
            S3Request::Put { bucket, key, content_type, metadata } => S3RequestModel::Put {
                bucket: bucket@,
                key: key@,
                content_type: content_type@,
                metadata: metadata@,
            },
            S3Request::Get { bucket, key } => S3RequestModel::Get { bucket: bucket@, key: key@ },
            S3Request::Delete { bucket, key } => S3RequestModel::Delete {
                bucket: bucket@,
                key: key@,
            },
        }
    }
}

/// The content type under which one file of a segmented stream is stored: a
/// playlist by its ending `.m3u8`, a transport-stream segment by `.ts`, and
/// anything else as plain bytes.
pub open spec fn hls_content_type(key: Seq<char>) -> Seq<char> {
    if ends_with(key, ".m3u8"@) {
        "application/vnd.apple.mpegurl"@
    } else if ends_with(key, ".ts"@) {
        "video/mp2t"@
    } else {
        "application/octet-stream"@
    }
}

/// The bytes of the chunks of a stream, one after the other.
pub open spec fn joined(chunks: Seq<Result<Vec<u8>, String>>) -> Seq<u8>
    decreases chunks.len(),
{
    if chunks.len() == 0 {
        Seq::empty()
    } else {
        joined(chunks.drop_last()) + (match chunks.last() {
            Ok(bytes) => bytes@,
            Err(_) => Seq::empty(),
        })
    }
}

/// What the first chunk that failed to arrive reported, if one failed.
pub open spec fn first_report(chunks: Seq<Result<Vec<u8>, String>>) -> Option<Seq<char>>
    decreases chunks.len(),
{
    if chunks.len() == 0 {
        None
    } else {
        match first_report(chunks.drop_last()) {
            Some(report) => Some(report),
            None => match chunks.last() {
                Ok(_) => None,
                Err(report) => Some(report@),
            },
        }
    }
}

/// Joins the chunks of a stream into the body of one upload. Where every
/// chunk arrived, the body holds all their bytes in order. Where one did not,
/// there is no body, so that nothing short of the whole is ever stored: the
/// result is what the first chunk that failed reported.
pub fn collect_chunks(chunks: &Vec<Result<Vec<u8>, String>>) -> (body: Result<Vec<u8>, String>)
    ensures
        match first_report(chunks@) {
            None => body matches Ok(bytes) && bytes@ == joined(chunks@),
            Some(report) => body matches Err(text) && text@ == report,
        },
{
    let mut body: Vec<u8> = Vec::new();
    let mut i: usize = 0;
    while i < chunks.len()
        invariant
            i <= chunks@.len(),
            first_report(chunks@.subrange(0, i as int)) is None,
            body@ == joined(chunks@.subrange(0, i as int)),
        decreases chunks@.len() - i,
    {
        proof {
            let upto = chunks@.subrange(0, i + 1);
            assert(upto.drop_last() =~= chunks@.subrange(0, i as int));
            assert(upto.last() == chunks@[i as int]);
        }
        match &chunks[i] {
            Ok(bytes) => {
                body.extend_from_slice(bytes.as_slice());
            },
            Err(report) => {
                proof {
                    lemma_first_report_stays(chunks@, i + 1);
                }
                return Err(report.clone());
            },
        }
        i += 1;
    }
    assert(chunks@.subrange(0, chunks@.len() as int) =~= chunks@);
    Ok(body)
}

/// A report that is the first among the chunks up to `upto` is the first
/// among all chunks.
proof fn lemma_first_report_stays(chunks: Seq<Result<Vec<u8>, String>>, upto: int)
    requires
        0 <= upto <= chunks.len(),
        first_report(chunks.subrange(0, upto)) is Some,
    ensures
        first_report(chunks) == first_report(chunks.subrange(0, upto)),
    decreases chunks.len() - upto,
{
    if upto < chunks.len() {
        let longer = chunks.subrange(0, upto + 1);
        assert(longer.drop_last() =~= chunks.subrange(0, upto));
        lemma_first_report_stays(chunks, upto + 1);
    } else {
        assert(chunks.subrange(0, upto) =~= chunks);
    }
}

/// The settings of the connection to the store, and the bucket in it.
#[derive(Debug)]
pub struct S3Client {
    pub endpoint: String,
    pub region: String,
    pub access_key: String,
    pub secret_key: String,
    /// Whether the bucket is named in the path of the address, not in the host.
    pub force_path_style: bool,
    pub bucket: String,
}

impl Clone for S3Client {
    fn clone(&self) -> (copy: Self)
        ensures
            copy == *self,
    {
        S3Client {
            endpoint: self.endpoint.clone(),
            region: self.region.clone(),
            access_key: self.access_key.clone(),
            secret_key: self.secret_key.clone(),
            force_path_style: self.force_path_style,
            bucket: self.bucket.clone(),
        }
    }
}

impl S3Client {
    /// The client that the configuration describes. The bucket is named in
    /// the path of each address.
    pub fn new(config: &Config) -> (client: Self)
        ensures
            client.endpoint@ == config.hetzner_s3_endpoint@,
            client.region@ == config.hetzner_s3_region@,
            client.access_key@ == config.hetzner_s3_access_key@,
            client.secret_key@ == config.hetzner_s3_secret_key@,
            client.force_path_style,
            client.bucket@ == config.hetzner_s3_bucket@,
    {
        S3Client {
            endpoint: config.hetzner_s3_endpoint.clone(),
            region: config.hetzner_s3_region.clone(),
            access_key: config.hetzner_s3_access_key.clone(),
            secret_key: config.hetzner_s3_secret_key.clone(),
            force_path_style: true,
            bucket: config.hetzner_s3_bucket.clone(),
        }
    }

    /// The store as a sink, as contracts see it.
    pub open spec fn sink_model(&self) -> SinkModel {
        SinkModel {
            kind: SinkKind::SdkClient,
            destination_root: self.bucket@,
            credential: self.access_key@,
        }
    }

    /// The store as a sink: the bucket, reached through the SDK.
    pub fn sink(&self) -> (sink: SinkDescriptor)
        ensures
            sink@ == self.sink_model(),
    {
        SinkDescriptor::new(SinkKind::SdkClient, self.bucket.as_str(), self.access_key.as_str())
    }

    /// The content type under which an object of the given kind is stored.
    pub open spec fn content_type_of(object: ObjectKind, key: Seq<char>) -> Seq<char> {
        match object {
            ObjectKind::Video => VIDEO_CONTENT_TYPE@,
            ObjectKind::Thumbnail => THUMBNAIL_CONTENT_TYPE@,
            ObjectKind::Segment => hls_content_type(key),
        }
    }

    /// The write that stores an object under `key` in this store. A still
    /// image carries no metadata.
    pub open spec fn write_model(
        &self,
        key: Seq<char>,
        object: ObjectKind,
        metadata: Map<Seq<char>, Seq<char>>,
    ) -> WriteModel {
        let stored = if object == ObjectKind::Thumbnail {
            Map::empty()
        } else {
            metadata
        };
        WriteModel {
            sink: self.sink_model(),
            key,
            object,
            metadata: if object == ObjectKind::Thumbnail {
                None
            } else {
                Some(metadata)
            },
            expires: None,
            request: SinkRequestModel::Store(
                S3RequestModel::Put {
                    bucket: self.bucket@,
                    key,
                    content_type: Self::content_type_of(object, key),
                    metadata: stored,
                },
            ),
        }
    }

    /// Builds the write that stores an object under `key` in this store.
    pub fn write(&self, key: &str, object: ObjectKind, metadata: &Metadata) -> (planned: SinkWrite)
        ensures
            planned@ == self.write_model(key@, object, metadata@),
    {
        let request = match object {
            ObjectKind::Video => self.upload_video_stream(key, metadata),
            ObjectKind::Thumbnail => self.upload_thumbnail(key),
            ObjectKind::Segment => self.upload_hls_segment(key, metadata),
        };
        let kept = match object {
            ObjectKind::Thumbnail => None,
            _ => Some(metadata.clone()),
        };
        SinkWrite {
            sink: self.sink(),
            key: String::from_str(key),
            object,
            metadata: kept,
            expires: None,
            request: SinkRequest::Store(request),
        }
    }

    /// The call that stores a video under `key` with the given metadata.
    pub fn upload_video_stream(&self, key: &str, metadata: &Metadata) -> (request: S3Request)
        ensures
            request@ == (S3RequestModel::Put {
                bucket: self.bucket@,
                key: key@,
                content_type: VIDEO_CONTENT_TYPE@,
                metadata: metadata@,
            }),
    {
        S3Request::Put {
            bucket: self.bucket.clone(),
            key: String::from_str(key),
            content_type: String::from_str(VIDEO_CONTENT_TYPE),
            metadata: metadata.clone(),
        }
    }

    /// The call that stores one file of a segmented stream under `key`, with
    /// the content type that the key's ending asks for.
    pub fn upload_hls_segment(&self, key: &str, metadata: &Metadata) -> (request: S3Request)
        ensures
            request@ == (S3RequestModel::Put {
                bucket: self.bucket@,
                key: key@,
                content_type: hls_content_type(key@),
                metadata: metadata@,
            }),
    {
        let content_type = if str_ends_with(key, ".m3u8") {
            "application/vnd.apple.mpegurl"
        } else if str_ends_with(key, ".ts") {
            "video/mp2t"
        } else {
            "application/octet-stream"
        };
        S3Request::Put {
            bucket: self.bucket.clone(),
            key: String::from_str(key),
            content_type: String::from_str(content_type),
            metadata: metadata.clone(),
        }
    }

    /// The call that stores a still image under `key`, without metadata.
    pub fn upload_thumbnail(&self, key: &str) -> (request: S3Request)
        ensures
            request@ == (S3RequestModel::Put {
                bucket: self.bucket@,
                key: key@,
                content_type: THUMBNAIL_CONTENT_TYPE@,
                metadata: Map::empty(),
            }),
    {
        S3Request::Put {
            bucket: self.bucket.clone(),
            key: String::from_str(key),
            content_type: String::from_str(THUMBNAIL_CONTENT_TYPE),
            metadata: Metadata::new(),
        }
    }

    /// The call that fetches the video under `key`.
    pub fn download_video(&self, key: &str) -> (request: S3Request)
        ensures
            request@ == (S3RequestModel::Get { bucket: self.bucket@, key: key@ }),
    {
        S3Request::Get { bucket: self.bucket.clone(), key: String::from_str(key) }
    }

    /// The call that fetches the still image under `key`.
    pub fn download_thumbnail(&self, key: &str) -> (request: S3Request)
        ensures
            request@ == (S3RequestModel::Get { bucket: self.bucket@, key: key@ }),
    {
        S3Request::Get { bucket: self.bucket.clone(), key: String::from_str(key) }
    }

    /// The call that deletes the video under `key`.
    pub fn delete_video(&self, key: &str) -> (request: S3Request)
        ensures
            request@ == (S3RequestModel::Delete { bucket: self.bucket@, key: key@ }),
    {
        S3Request::Delete { bucket: self.bucket.clone(), key: String::from_str(key) }
    }

    /// The call that deletes the still image under `key`.
    pub fn delete_thumbnail(&self, key: &str) -> (request: S3Request)
        ensures
            request@ == (S3RequestModel::Delete { bucket: self.bucket@, key: key@ }),
    {
        S3Request::Delete { bucket: self.bucket.clone(), key: String::from_str(key) }
    }
}

} // verus!
