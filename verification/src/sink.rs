//! Storage sinks and what is written to them.
//!
//! A sink is one storage backend that holds named objects. The service never
//! talks to a sink from here: it describes each write as a `SinkWrite`, and
//! the caller performs it. The stores themselves are modelled as a `World`, a
//! mapping from locations to objects, over which the guarantees of the relay
//! and of the move are stated.

use vstd::prelude::*;
use crate::http::{HttpRequest, HttpRequestModel};
use crate::metadata::Metadata;
use crate::process::{Command, CommandModel};
use crate::s3_client::{S3Request, S3RequestModel};

verus! {

/// How a sink is reached.
#[derive(Clone, Copy, Debug, PartialEq, Eq, Hash, Structural)]
pub enum SinkKind {
    /// Through a transfer tool run as a child process.
    Process,
    /// Through the object store's client library.
    SdkClient,
    /// Through the HTTP interface of a storage worker.
    HttpEndpoint,
}

/// What kind of object a write carries. It tells the caller which bytes to
/// send.
#[derive(Clone, Copy, Debug, PartialEq, Eq, Hash, Structural)]
pub enum ObjectKind {
    /// The video itself.
    Video,
    /// The still image taken from the video.
    Thumbnail,
    /// One file of a segmented stream, which may replace an earlier one.
    Segment,
}

/// One storage backend and partition.
#[derive(Debug)]
pub struct SinkDescriptor {
    pub kind: SinkKind,
    /// The bucket, or the base address, below which the objects are filed.
    pub destination_root: String,
    /// What grants access. The library passes it on and never reads it.
    pub credential: String,
}

/// A sink as contracts see it.
pub struct SinkModel {
    pub kind: SinkKind,
    pub destination_root: Seq<char>,
    pub credential: Seq<char>,
}

impl View for SinkDescriptor {
    type V = SinkModel;

    open spec fn view(&self) -> SinkModel {
        SinkModel {
            kind: self.kind,
            destination_root: self.destination_root@,
            credential: self.credential@,
        }
    }
}

impl Clone for SinkDescriptor {
    fn clone(&self) -> (copy: Self)
        ensures
            copy == *self,
    {
        SinkDescriptor {
            kind: self.kind,
            destination_root: self.destination_root.clone(),
            credential: self.credential.clone(),
        }
    }
}

impl SinkDescriptor {
    /// A sink of the given kind.
    pub fn new(kind: SinkKind, destination_root: &str, credential: &str) -> (sink: Self)
        ensures
            sink@ == (SinkModel {
                kind,
                destination_root: destination_root@,
                credential: credential@,
            }),
    {
        SinkDescriptor {
            kind,
            destination_root: String::from_str(destination_root),
            credential: String::from_str(credential),
        }
    }
}

/// The outside work that performs one operation on a sink.
#[derive(Debug)]
pub enum SinkRequest {
    /// A child process to run, for a process-backed sink.
    Run(Command),
    /// A call to the object store, for an SDK-backed sink.
    Store(S3Request),
    /// A request to send, for a sink behind an HTTP endpoint.
    Send(HttpRequest),
}

/// The outside work as contracts see it.
pub enum SinkRequestModel {
    Run(CommandModel),
    Store(S3RequestModel),
    Send(HttpRequestModel),
}

impl View for SinkRequest {
    type V = SinkRequestModel;

    open spec fn view(&self) -> SinkRequestModel {
        match self {
            SinkRequest::Run(command) => SinkRequestModel::Run(command@),
            SinkRequest::Store(call) => SinkRequestModel::Store(call@),
            SinkRequest::Send(request) => SinkRequestModel::Send(request@),
        }
    }
}

/// One write that a request asks for.
#[derive(Debug)]
pub struct SinkWrite {
    /// Where the object goes.
    pub sink: SinkDescriptor,
    /// The name of the object below the sink's root.
    pub key: String,
    /// Which bytes are written.
    pub object: ObjectKind,
    /// The metadata stored with the object, where it carries any.
    pub metadata: Option<Metadata>,
    /// After what time the sink may drop the object, where it is not to stay.
    pub expires: Option<String>,
    /// The outside work that performs the write.
    pub request: SinkRequest,
}

/// A write as contracts see it.
pub struct WriteModel {
    pub sink: SinkModel,
    pub key: Seq<char>,
    pub object: ObjectKind,
    pub metadata: Option<Map<Seq<char>, Seq<char>>>,
    pub expires: Option<Seq<char>>,
    pub request: SinkRequestModel,
}

impl View for SinkWrite {
    type V = WriteModel;

    open spec fn view(&self) -> WriteModel {
        WriteModel {
            sink: self.sink@,
            key: self.key@,
            object: self.object,
            metadata: match self.metadata {
                Some(m) => Some(m@),
                None => None,
            },
            expires: match self.expires {
                Some(e) => Some(e@),
                None => None,
            },
            request: self.request@,
        }
    }
}

/// The models of a list of writes, in order.
pub open spec fn write_models(writes: Seq<SinkWrite>) -> Seq<WriteModel> {
    Seq::new(writes.len(), |i: int| writes[i]@)
}

/// The place of one object: a sink's kind and root, and the object's key.
/// The credential is no part of it: two descriptors that differ only in how
/// they get access name the same store.
pub struct Location {
    pub kind: SinkKind,
    pub root: Seq<char>,
    pub key: Seq<char>,
}

/// An object as a sink holds it.
pub struct StoredObject {
    pub body: Seq<u8>,
    pub metadata: Map<Seq<char>, Seq<char>>,
    pub expires: Option<Seq<char>>,
}

/// The bytes that a request has at hand.
pub struct Payloads {
    /// The video, or the segment, that came with the request.
    pub body: Seq<u8>,
    /// The still image taken from it.
    pub thumbnail: Seq<u8>,
}

/// What all sinks hold.
pub type World = Map<Location, StoredObject>;

/// Where a write puts its object.
pub open spec fn location_of(write: WriteModel) -> Location {
    Location { kind: write.sink.kind, root: write.sink.destination_root, key: write.key }
}

/// The object that a write leaves behind when it succeeds.
pub open spec fn object_of(write: WriteModel, payloads: Payloads) -> StoredObject {
    StoredObject {
        body: match write.object {
            ObjectKind::Thumbnail => payloads.thumbnail,
            _ => payloads.body,
        },
        metadata: match write.metadata {
            Some(m) => m,
            None => Map::empty(),
        },
        expires: write.expires,
    }
}

/// The stores after one write has settled. A write that succeeded has put
/// its object in place; one that failed has changed nothing.
pub open spec fn after_write(
    world: World,
    write: WriteModel,
    payloads: Payloads,
    succeeded: bool,
) -> World {
    if succeeded {
        world.insert(location_of(write), object_of(write, payloads))
    } else {
        world
    }
}

/// The stores after one delete has settled. A delete that succeeded has
/// taken the object away; one that failed has changed nothing.
pub open spec fn after_delete(world: World, at: Location, succeeded: bool) -> World {
    if succeeded {
        world.remove(at)
    } else {
        world
    }
}

/// Whether no two of the writes go to the same place.
pub open spec fn distinct_locations(writes: Seq<WriteModel>) -> bool {
    forall|i: int, j: int|
        0 <= i < j < writes.len() ==> location_of(writes[i]) != location_of(writes[j])
}

/// Whether two states of the stores agree on one place.
pub open spec fn same_at(first: World, second: World, at: Location) -> bool {
    &&& first.contains_key(at) == second.contains_key(at)
    &&& first.contains_key(at) ==> first[at] == second[at]
}

} // verus!
