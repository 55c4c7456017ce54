//! A client of the storage worker and of the two wallet daemons, as plain
//! values: each method describes the request to send, and `reply_result`
//! reads the answer.

use vstd::prelude::*;
use crate::encoding::{basic_auth, basic_auth_text, describe_status, status_text};
use crate::http::{is_success, status_is_success, HttpBody, HttpBodyModel, HttpRequest,
    HttpRequestModel, Method, NOT_FOUND};
use crate::metadata::{json_object_text, Metadata};
use crate::mover::{item_models, Move, MoveAction, MoveItem, MoveItemModel, MoveModel};
use crate::sink::{Location, ObjectKind, SinkDescriptor, SinkKind, SinkModel, SinkRequest,
    SinkRequestModel, SinkWrite, WriteModel};
use crate::text::{concat2, concat3, pair_texts, push_pair};

verus! {

/// What the worker knows of a bucket.
#[derive(Debug)]
pub struct BucketInfo {
    pub name: String,
    pub created_at: String,
}

impl Clone for BucketInfo {
    fn clone(&self) -> (copy: Self)
        ensures
            copy == *self,
    {
        BucketInfo { name: self.name.clone(), created_at: self.created_at.clone() }
    }
}

/// The body of the request that creates a bucket.
#[derive(Debug)]
pub struct CreateBucketRequest {
    pub name: String,
}

impl Clone for CreateBucketRequest {
    fn clone(&self) -> (copy: Self)
        ensures
            copy == *self,
    {
        CreateBucketRequest { name: self.name.clone() }
    }
}

/// What a wallet daemon knows of its wallet.
#[derive(Debug)]
pub struct WalletInfo {
    pub id: String,
    pub name: String,
    pub description: Option<String>,
    pub metadata: Option<Metadata>,
}

/// Why an operation failed.
#[derive(Debug)]
pub enum SiaError {
    /// The request could not be made, or its answer could not be read.
    Http(String),
    /// The service answered with a status that is no success.
    Api { status: u16, message: String },
    /// The service did not accept the credentials.
    Auth,
    /// The worker has no bucket of this name.
    BucketNotFound(String),
    /// The daemon has no such wallet.
    WalletNotFound(String),
    /// The worker has no object under this key.
    ObjectNotFound(String),
}

/// An error as contracts see it.
pub enum SiaErrorModel {
    Http(Seq<char>),
    Api { status: u16, message: Seq<char> },
    Auth,
    BucketNotFound(Seq<char>),
    WalletNotFound(Seq<char>),
    ObjectNotFound(Seq<char>),
}

impl View for SiaError {
    type V = SiaErrorModel;

    open spec fn view(&self) -> SiaErrorModel {
        match self {
            SiaError::Http(report) => SiaErrorModel::Http(report@),
            SiaError::Api { status, message } => SiaErrorModel::Api {
                status: *status,
                message: message@,
            },
            SiaError::Auth => SiaErrorModel::Auth,
            SiaError::BucketNotFound(name) => SiaErrorModel::BucketNotFound(name@),
            SiaError::WalletNotFound(name) => SiaErrorModel::WalletNotFound(name@),
            SiaError::ObjectNotFound(key) => SiaErrorModel::ObjectNotFound(key@),
        }
    }
}

/// How the services are reached, and the buckets of the two partitions.
#[derive(Debug)]
pub struct SiaSettings {
    pub renterd_base_url: String,
    pub sfw_walletd_base_url: String,
    pub nsfw_walletd_base_url: String,
    pub renterd_api_password: String,
    pub sfw_walletd_api_password: String,
    pub nsfw_walletd_api_password: String,
    pub sfw_bucket: String,
    pub nsfw_bucket: String,
}

/// The operation that a request asks for. Where the service may answer
/// that the thing asked for does not exist, the operation names that thing.
#[derive(Debug)]
pub enum Operation {
    CreateBucket,
    GetBucket(String),
    UploadObject(String),
    DeleteObject(String),
    DownloadObject(String),
    GetSfwWallet,
    GetNsfwWallet,
}

/// What a status of 404 means for an operation, where it means that the
/// thing asked for does not exist.
pub open spec fn missing(operation: Operation) -> Option<SiaErrorModel> {
    match operation {
        Operation::GetBucket(name) => Some(SiaErrorModel::BucketNotFound(name@)),
        Operation::UploadObject(key) => Some(SiaErrorModel::ObjectNotFound(key@)),
        Operation::DeleteObject(key) => Some(SiaErrorModel::ObjectNotFound(key@)),
        Operation::DownloadObject(key) => Some(SiaErrorModel::ObjectNotFound(key@)),
        Operation::GetSfwWallet => Some(SiaErrorModel::WalletNotFound("SFW wallet"@)),
        Operation::GetNsfwWallet => Some(SiaErrorModel::WalletNotFound("NSFW wallet"@)),
        _ => None,
    }
}

/// What the answer to an operation means: on 404, that the thing asked for
/// does not exist, where the operation asks for a thing; else success on a
/// status of the success class, and on any other status the error that
/// carries the status and `message`, the text of the answer's body.
pub open spec fn reply_model(operation: Operation, status: u16, message: Seq<char>) -> Result<
    (),
    SiaErrorModel,
> {
    if status == NOT_FOUND && missing(operation) is Some {
        Err(missing(operation)->0)
    } else if is_success(status) {
        Ok(())
    } else {
        Err(SiaErrorModel::Api { status, message })
    }
}

/// The model of a result.
pub open spec fn result_model(result: Result<(), SiaError>) -> Result<(), SiaErrorModel> {
    match result {
        Ok(_) => Ok(()),
        Err(error) => Err(error@),
    }
}

/// What the answer to an operation that asks for a value means, given what
/// the body of the answer held: the value where the status tells of
/// success and the body could be read, and the error of the reading where it
/// could not.
pub open spec fn parsed_model<T>(
    operation: Operation,
    status: u16,
    message: Seq<char>,
    parsed: Result<T, String>,
) -> Result<T, SiaErrorModel> {
    match reply_model(operation, status, message) {
        Err(error) => Err(error),
        Ok(_) => match parsed {
            Ok(value) => Ok(value),
            Err(report) => Err(SiaErrorModel::Http(report@)),
        },
    }
}

/// Reads the answer to an operation that asks for a value, such as a
/// `BucketInfo` or a `WalletInfo`, from its status, the text of its body, and
/// the value that the body held or what was wrong with it.
pub fn parsed_reply<T>(
    operation: Operation,
    status: u16,
    message: String,
    parsed: Result<T, String>,
) -> (result: Result<T, SiaError>)
    ensures
        match parsed_model(operation, status, message@, parsed) {
            Ok(value) => result == Ok::<T, SiaError>(value),
            Err(error) => result matches Err(failed) && failed@ == error,
        },
{
    match reply_result(operation, status, message) {
        Err(error) => Err(error),
        Ok(_) => match parsed {
            Ok(value) => Ok(value),
            Err(report) => Err(SiaError::Http(report)),
        },
    }
}

/// Reads the answer to an operation from its status and the text of its
/// body.
pub fn reply_result(operation: Operation, status: u16, message: String) -> (result: Result<
    (),
    SiaError,
>)
    ensures
        result_model(result) == reply_model(operation, status, message@),
{
    if status == NOT_FOUND {
        match operation {
            Operation::GetBucket(name) => { return Err(SiaError::BucketNotFound(name)); },
            Operation::UploadObject(key) => { return Err(SiaError::ObjectNotFound(key)); },
            Operation::DeleteObject(key) => { return Err(SiaError::ObjectNotFound(key)); },
            Operation::DownloadObject(key) => { return Err(SiaError::ObjectNotFound(key)); },
            Operation::GetSfwWallet => {
                return Err(SiaError::WalletNotFound(String::from_str("SFW wallet")));
            },
            Operation::GetNsfwWallet => {
                return Err(SiaError::WalletNotFound(String::from_str("NSFW wallet")));
            },
            _ => {},
        }
    }
    if status_is_success(status) {
        Ok(())
    } else {
        Err(SiaError::Api { status, message })
    }
}

/// The addresses of the services, the headers that open them, and the
/// buckets of the two partitions.
#[derive(Debug)]
pub struct SiaClient {
    renterd_base_url: String,
    sfw_walletd_base_url: String,
    nsfw_walletd_base_url: String,
    renterd_auth_header: String,
    sfw_walletd_auth_header: String,
    nsfw_walletd_auth_header: String,
    sfw_bucket: String,
    nsfw_bucket: String,
}

/// A client as contracts see it.
pub struct SiaClientModel {
    pub renterd_base_url: Seq<char>,
    pub sfw_walletd_base_url: Seq<char>,
    pub nsfw_walletd_base_url: Seq<char>,
    pub renterd_auth_header: Seq<char>,
    pub sfw_walletd_auth_header: Seq<char>,
    pub nsfw_walletd_auth_header: Seq<char>,
    pub sfw_bucket: Seq<char>,
    pub nsfw_bucket: Seq<char>,
}

impl View for SiaClient {
    type V = SiaClientModel;

    closed spec fn view(&self) -> SiaClientModel {
        SiaClientModel {
            renterd_base_url: self.renterd_base_url@,
            sfw_walletd_base_url: self.sfw_walletd_base_url@,
            nsfw_walletd_base_url: self.nsfw_walletd_base_url@,
            renterd_auth_header: self.renterd_auth_header@,
            sfw_walletd_auth_header: self.sfw_walletd_auth_header@,
            nsfw_walletd_auth_header: self.nsfw_walletd_auth_header@,
            sfw_bucket: self.sfw_bucket@,
            nsfw_bucket: self.nsfw_bucket@,
        }
    }
}

impl SiaClientModel {
    /// A request without a body that presents `authorization`.
    pub open spec fn plain_request(
        method: Method,
        url: Seq<char>,
        authorization: Seq<char>,
        query: Seq<(Seq<char>, Seq<char>)>,
    ) -> HttpRequestModel {
        HttpRequestModel {
            method,
            url,
            query,
            headers: seq![("Authorization"@, authorization)],
            body: HttpBodyModel::Empty,
        }
    }

    /// The address of the object under `key` at the worker.
    pub open spec fn object_url(self, key: Seq<char>) -> Seq<char> {
        self.renterd_base_url + "/worker/object/"@ + key
    }

    /// The request that creates a bucket.
    pub open spec fn create_bucket(self, name: Seq<char>) -> HttpRequestModel {
        HttpRequestModel {
            method: Method::Post,
            url: self.renterd_base_url + "/bus/buckets"@,
            query: Seq::empty(),
            headers: seq![("Authorization"@, self.renterd_auth_header)],
            body: HttpBodyModel::CreateBucket { name, public_read_access: None },
        }
    }

    /// The request that asks for a bucket.
    pub open spec fn get_bucket(self, name: Seq<char>) -> HttpRequestModel {
        Self::plain_request(
            Method::Get,
            self.renterd_base_url + "/bus/buckets/"@ + name,
            self.renterd_auth_header,
            Seq::empty(),
        )
    }

    /// The parameters of the request that stores an object: the bucket, the
    /// numbers of shards, and the JSON text of the metadata where the object
    /// carries any.
    pub open spec fn upload_query(bucket: Seq<char>, metadata_json: Option<Seq<char>>) -> Seq<
        (Seq<char>, Seq<char>),
    > {
        seq![("bucket"@, bucket), ("minshards"@, "10"@), ("totalshards"@, "30"@)] + (
        match metadata_json {
            Some(json) => seq![("metadata"@, json)],
            None => Seq::empty(),
        })
    }

    /// The request that stores an object.
    pub open spec fn upload_object(
        self,
        bucket: Seq<char>,
        key: Seq<char>,
        metadata_json: Option<Seq<char>>,
    ) -> HttpRequestModel {
        HttpRequestModel {
            method: Method::Put,
            url: self.object_url(key),
            query: Self::upload_query(bucket, metadata_json),
            headers: seq![("Authorization"@, self.renterd_auth_header)],
            body: HttpBodyModel::Object,
        }
    }

    /// The request that deletes an object.
    pub open spec fn delete_object(self, bucket: Seq<char>, key: Seq<char>) -> HttpRequestModel {
        Self::plain_request(
            Method::Delete,
            self.object_url(key),
            self.renterd_auth_header,
            seq![("bucket"@, bucket)],
        )
    }

    /// The request that fetches an object.
    pub open spec fn download_object(self, bucket: Seq<char>, key: Seq<char>) -> HttpRequestModel {
        Self::plain_request(
            Method::Get,
            self.object_url(key),
            self.renterd_auth_header,
            seq![("bucket"@, bucket)],
        )
    }

    /// The request that asks the wallet daemon of a partition for its
    /// wallet.
    pub open spec fn get_wallet(self, is_nsfw: bool) -> HttpRequestModel {
        if is_nsfw {
            Self::plain_request(
                Method::Get,
                self.nsfw_walletd_base_url + "/api/wallet"@,
                self.nsfw_walletd_auth_header,
                Seq::empty(),
            )
        } else {
            Self::plain_request(
                Method::Get,
                self.sfw_walletd_base_url + "/api/wallet"@,
                self.sfw_walletd_auth_header,
                Seq::empty(),
            )
        }
    }

    /// A bucket of the worker as a sink.
    pub open spec fn sink(self, bucket: Seq<char>) -> SinkModel {
        SinkModel {
            kind: SinkKind::HttpEndpoint,
            destination_root: self.renterd_base_url + "/"@ + bucket,
            credential: self.renterd_auth_header,
        }
    }

    /// An object as an object to move from one bucket of the worker to
    /// another, under the same key and without metadata.
    pub open spec fn move_item(
        self,
        source_bucket: Seq<char>,
        dest_bucket: Seq<char>,
        key: Seq<char>,
    ) -> MoveItemModel {
        MoveItemModel {
            source: Location {
                kind: SinkKind::HttpEndpoint,
                root: self.sink(source_bucket).destination_root,
                key,
            },
            credential: self.renterd_auth_header,
            read: SinkRequestModel::Send(self.download_object(source_bucket, key)),
            write: WriteModel {
                sink: self.sink(dest_bucket),
                key,
                object: ObjectKind::Video,
                metadata: None,
                expires: None,
                request: SinkRequestModel::Send(self.upload_object(dest_bucket, key, None)),
            },
            delete: SinkRequestModel::Send(self.delete_object(source_bucket, key)),
        }
    }
}

/// Builds a request without a body that presents `authorization`.
fn plain_request(
    method: Method,
    url: String,
    authorization: &str,
    query: Vec<(String, String)>,
) -> (request: HttpRequest)
    ensures
        request@ == SiaClientModel::plain_request(
            method,
            url@,
            authorization@,
            pair_texts(query@),
        ),
{
    let mut headers: Vec<(String, String)> = Vec::new();
    push_pair(&mut headers, "Authorization", authorization);
    assert(pair_texts(headers@) =~= seq![("Authorization"@, authorization@)]);
    HttpRequest { method, url, query, headers, body: HttpBody::Empty }
}

/// The parameters that name a bucket.
fn bucket_query(bucket: &str) -> (query: Vec<(String, String)>)
    ensures
        pair_texts(query@) == seq![("bucket"@, bucket@)],
{
    let mut query: Vec<(String, String)> = Vec::new();
    push_pair(&mut query, "bucket", bucket);
    assert(pair_texts(query@) =~= seq![("bucket"@, bucket@)]);
    query
}

/// No parameters.
fn no_query() -> (query: Vec<(String, String)>)
    ensures
        pair_texts(query@) == Seq::<(Seq<char>, Seq<char>)>::empty(),
{
    let query: Vec<(String, String)> = Vec::new();
    assert(pair_texts(query@) =~= Seq::<(Seq<char>, Seq<char>)>::empty());
    query
}

impl SiaClient {
    /// The client that the settings describe. Each service is opened by its
    /// password, presented with an empty user name.
    pub fn new(settings: &SiaSettings) -> (client: Self)
        ensures
            client@ == (SiaClientModel {
                renterd_base_url: settings.renterd_base_url@,
                sfw_walletd_base_url: settings.sfw_walletd_base_url@,
                nsfw_walletd_base_url: settings.nsfw_walletd_base_url@,
                renterd_auth_header: basic_auth_text(settings.renterd_api_password@),
                sfw_walletd_auth_header: basic_auth_text(settings.sfw_walletd_api_password@),
                nsfw_walletd_auth_header: basic_auth_text(settings.nsfw_walletd_api_password@),
                sfw_bucket: settings.sfw_bucket@,
                nsfw_bucket: settings.nsfw_bucket@,
            }),
    {
        SiaClient {
            renterd_base_url: settings.renterd_base_url.clone(),
            sfw_walletd_base_url: settings.sfw_walletd_base_url.clone(),
            nsfw_walletd_base_url: settings.nsfw_walletd_base_url.clone(),
            renterd_auth_header: basic_auth(settings.renterd_api_password.as_str()),
            sfw_walletd_auth_header: basic_auth(settings.sfw_walletd_api_password.as_str()),
            nsfw_walletd_auth_header: basic_auth(settings.nsfw_walletd_api_password.as_str()),
            sfw_bucket: settings.sfw_bucket.clone(),
            nsfw_bucket: settings.nsfw_bucket.clone(),
        }
    }

    /// Builds the request that creates the bucket `name`.
    pub fn create_bucket(&self, name: &str) -> (request: HttpRequest)
        ensures
            request@ == self@.create_bucket(name@),
    {
        let mut headers: Vec<(String, String)> = Vec::new();
        push_pair(&mut headers, "Authorization", self.renterd_auth_header.as_str());
        assert(pair_texts(headers@) =~= seq![("Authorization"@, self.renterd_auth_header@)]);
        HttpRequest {
            method: Method::Post,
            url: concat2(self.renterd_base_url.as_str(), "/bus/buckets"),
            query: no_query(),
            headers,
            body: HttpBody::CreateBucket {
                request: CreateBucketRequest { name: String::from_str(name) },
                public_read_access: None,
            },
        }
    }

    /// Builds the request that asks for the bucket `name`.
    pub fn get_bucket(&self, name: &str) -> (request: HttpRequest)
        ensures
            request@ == self@.get_bucket(name@),
    {
        plain_request(
            Method::Get,
            concat3(self.renterd_base_url.as_str(), "/bus/buckets/", name),
            self.renterd_auth_header.as_str(),
            no_query(),
        )
    }

    /// Builds the request that stores an object under `key` in `bucket`,
    /// given the JSON text of its metadata where it carries any.
    pub fn upload_request(&self, bucket: &str, key: &str, metadata_json: Option<&str>) -> (request:
        HttpRequest)
        ensures
            request@ == self@.upload_object(
                bucket@,
                key@,
                crate::text::optional_text(metadata_json),
            ),
    {
        let mut headers: Vec<(String, String)> = Vec::new();
        push_pair(&mut headers, "Authorization", self.renterd_auth_header.as_str());
        assert(pair_texts(headers@) =~= seq![("Authorization"@, self.renterd_auth_header@)]);
        let mut query: Vec<(String, String)> = Vec::new();
        push_pair(&mut query, "bucket", bucket);
        push_pair(&mut query, "minshards", "10");
        push_pair(&mut query, "totalshards", "30");
        match metadata_json {
            Some(json) => {
                push_pair(&mut query, "metadata", json);
            },
            None => {},
        }
        assert(pair_texts(query@) =~= SiaClientModel::upload_query(
            bucket@,
            crate::text::optional_text(metadata_json),
        ));
        HttpRequest {
            method: Method::Put,
            url: concat3(self.renterd_base_url.as_str(), "/worker/object/", key),
            query,
            headers,
            body: HttpBody::Object,
        }
    }

    /// Builds the request that stores an object under `key` in `bucket`
    /// with the metadata it is to carry. The result is `Ok` for every
    /// input.
    pub fn upload_object(&self, bucket: &str, key: &str, metadata: Option<&Metadata>) -> (request:
        Result<HttpRequest, SiaError>)
        ensures
            match request {
                Ok(built) => built@ == self@.upload_object(
                    bucket@,
                    key@,
                    match metadata {
                        Some(m) => Some(json_object_text(m@)),
                        None => None,
                    },
                ),
                Err(_) => false,
            },
    {
        match metadata {
            Some(m) => match m.to_json() {
                Ok(json) => Ok(self.upload_request(bucket, key, Some(json.as_str()))),
                Err(report) => Err(SiaError::Http(report)),
            },
            None => Ok(self.upload_request(bucket, key, None)),
        }
    }

    /// Builds the request that deletes the object under `key` in `bucket`.
    pub fn delete_object(&self, bucket: &str, key: &str) -> (request: HttpRequest)
        ensures
            request@ == self@.delete_object(bucket@, key@),
    {
        plain_request(
            Method::Delete,
            concat3(self.renterd_base_url.as_str(), "/worker/object/", key),
            self.renterd_auth_header.as_str(),
            bucket_query(bucket),
        )
    }

    /// Builds the request that fetches the object under `key` in `bucket`.
    pub fn download_object(&self, bucket: &str, key: &str) -> (request: HttpRequest)
        ensures
            request@ == self@.download_object(bucket@, key@),
    {
        plain_request(
            Method::Get,
            concat3(self.renterd_base_url.as_str(), "/worker/object/", key),
            self.renterd_auth_header.as_str(),
            bucket_query(bucket),
        )
    }

    /// Builds the request that asks for the wallet of the general partition.
    pub fn get_sfw_wallet(&self) -> (request: HttpRequest)
        ensures
            request@ == self@.get_wallet(false),
    {
        plain_request(
            Method::Get,
            concat2(self.sfw_walletd_base_url.as_str(), "/api/wallet"),
            self.sfw_walletd_auth_header.as_str(),
            no_query(),
        )
    }

    /// Builds the request that asks for the wallet of the restricted
    /// partition.
    pub fn get_nsfw_wallet(&self) -> (request: HttpRequest)
        ensures
            request@ == self@.get_wallet(true),
    {
        plain_request(
            Method::Get,
            concat2(self.nsfw_walletd_base_url.as_str(), "/api/wallet"),
            self.nsfw_walletd_auth_header.as_str(),
            no_query(),
        )
    }

    /// The bucket of a partition.
    pub fn get_bucket_name(&self, is_nsfw: bool) -> (name: &str)
        ensures
            name@ == (if is_nsfw {
                self@.nsfw_bucket
            } else {
                self@.sfw_bucket
            }),
    {
        if is_nsfw {
            self.nsfw_bucket.as_str()
        } else {
            self.sfw_bucket.as_str()
        }
    }

    /// A bucket of the worker as a sink.
    pub fn sink(&self, bucket: &str) -> (sink: SinkDescriptor)
        ensures
            sink@ == self@.sink(bucket@),
    {
        let root = concat3(self.renterd_base_url.as_str(), "/", bucket);
        SinkDescriptor::new(
            SinkKind::HttpEndpoint,
            root.as_str(),
            self.renterd_auth_header.as_str(),
        )
    }

    /// Starts the move of the object under `key` from one bucket of the
    /// worker to another: one object, read once.
    pub fn move_object(&self, source_bucket: &str, dest_bucket: &str, key: &str) -> (started: (
        Move<SiaError>,
        MoveAction,
    ))
        ensures
            started.0@ == MoveModel::<SiaError>::start(started.0@.items, 1, 0),
            started.1 == (MoveAction::Read { index: 0, after_secs: 0 }),
            item_models(started.0@.items) == seq![
                self@.move_item(source_bucket@, dest_bucket@, key@),
            ],
    {
        let item = MoveItem {
            source: self.sink(source_bucket),
            key: String::from_str(key),
            read: SinkRequest::Send(self.download_object(source_bucket, key)),
            write: SinkWrite {
                sink: self.sink(dest_bucket),
                key: String::from_str(key),
                object: ObjectKind::Video,
                metadata: None,
                expires: None,
                request: SinkRequest::Send(self.upload_request(dest_bucket, key, None)),
            },
            delete: SinkRequest::Send(self.delete_object(source_bucket, key)),
        };
        let mut items: Vec<MoveItem> = Vec::new();
        items.push(item);
        assert(item_models(items@) =~= seq![self@.move_item(source_bucket@, dest_bucket@, key@)]);
        Move::new(items, 1, 0)
    }
}

/// How far the check of the two buckets, or of the two wallets, has come.
#[derive(Clone, Copy, Debug, PartialEq, Eq, Structural)]
pub enum Progress {
    /// The general partition is being asked.
    AskSfw,
    /// The bucket of the general partition is being created.
    CreateSfw,
    /// The restricted partition is being asked.
    AskNsfw,
    /// The bucket of the restricted partition is being created.
    CreateNsfw,
    /// Nothing is left to do.
    Done,
}

/// What the caller is to do next.
#[derive(Debug)]
pub enum Next {
    /// Send the request, read the answer with `reply_result` for the
    /// operation, and report the result.
    Send { request: HttpRequest, operation: Operation },
    /// The work has ended with this result.
    Finish(Result<(), SiaError>),
}

/// Whether `next` asks the worker to create the bucket `name`.
pub open spec fn creates_bucket(next: Next, client: SiaClientModel, name: Seq<char>) -> bool {
    &&& next matches Next::Send { request, operation }
    &&& request@ == client.create_bucket(name)
    &&& operation is CreateBucket
}

/// Whether `next` asks the worker for the bucket `name`.
pub open spec fn asks_bucket(next: Next, client: SiaClientModel, name: Seq<char>) -> bool {
    &&& next matches Next::Send { request, operation }
    &&& request@ == client.get_bucket(name)
    &&& operation matches Operation::GetBucket(asked)
    &&& asked@ == name
}

/// Whether `next` asks the wallet daemon of a partition for its wallet.
pub open spec fn asks_wallet(next: Next, client: SiaClientModel, is_nsfw: bool) -> bool {
    &&& next matches Next::Send { request, operation }
    &&& request@ == client.get_wallet(is_nsfw)
    &&& if is_nsfw {
        operation is GetNsfwWallet
    } else {
        operation is GetSfwWallet
    }
}

/// The step relation of `ensure_buckets_exist`.
///
/// Each partition's bucket is asked for, the general one first. A bucket
/// that the worker does not have is created, and a failure to create it ends
/// the work with its error. Any other answer to the question, an error too,
/// counts as if the bucket were there.
pub open spec fn ensure_next(
    client: SiaClientModel,
    before: Progress,
    result: Result<(), SiaError>,
    after: Progress,
    next: Next,
) -> bool {
    match before {
        Progress::AskSfw => if result matches Err(SiaError::BucketNotFound(_)) {
            after == Progress::CreateSfw && creates_bucket(next, client, client.sfw_bucket)
        } else {
            after == Progress::AskNsfw && asks_bucket(next, client, client.nsfw_bucket)
        },
        Progress::CreateSfw => match result {
            Ok(_) => after == Progress::AskNsfw && asks_bucket(next, client, client.nsfw_bucket),
            Err(error) => after == Progress::Done && next == Next::Finish(Err(error)),
        },
        Progress::AskNsfw => if result matches Err(SiaError::BucketNotFound(_)) {
            after == Progress::CreateNsfw && creates_bucket(next, client, client.nsfw_bucket)
        } else {
            after == Progress::Done && next matches Next::Finish(Ok(_))
        },
        Progress::CreateNsfw => after == Progress::Done && match result {
            Ok(_) => next matches Next::Finish(Ok(_)),
            Err(error) => next == Next::Finish(Err(error)),
        },
        Progress::Done => after == Progress::Done && next matches Next::Finish(Ok(_)),
    }
}

/// The step relation of `validate_wallets`: the wallet of the general
/// partition is asked for, then that of the restricted one, and the first
/// failure ends the work with its error.
pub open spec fn validate_next(
    client: SiaClientModel,
    before: Progress,
    result: Result<(), SiaError>,
    after: Progress,
    next: Next,
) -> bool {
    match (before, result) {
        (Progress::AskSfw, Ok(_)) => after == Progress::AskNsfw && asks_wallet(next, client, true),
        (Progress::AskSfw, Err(error)) => after == Progress::Done && next == Next::Finish(
            Err(error),
        ),
        (Progress::AskNsfw, Ok(_)) => after == Progress::Done && next matches Next::Finish(Ok(_)),
        (Progress::AskNsfw, Err(error)) => after == Progress::Done && next == Next::Finish(
            Err(error),
        ),
        (_, _) => after == Progress::Done && next matches Next::Finish(Ok(_)),
    }
}

impl SiaClient {
    /// The first request of `ensure_buckets_exist`: the question for the
    /// bucket of the general partition.
    pub fn ensure_buckets_start(&self) -> (started: (Progress, Next))
        ensures
            started.0 == Progress::AskSfw,
            asks_bucket(started.1, self@, self@.sfw_bucket),
    {
        (
            Progress::AskSfw,
            Next::Send {
                request: self.get_bucket(self.sfw_bucket.as_str()),
                operation: Operation::GetBucket(self.sfw_bucket.clone()),
            },
        )
    }

    /// Makes sure that both buckets exist, one step at a time: takes the
    /// result of the last request and says what to do next.
    pub fn ensure_buckets_exist(&self, progress: Progress, result: Result<(), SiaError>) -> (step: (
        Progress,
        Next,
    ))
        ensures
            ensure_next(self@, progress, result, step.0, step.1),
    {
        match progress {
            Progress::AskSfw => match result {
                Err(SiaError::BucketNotFound(_)) => (
                    Progress::CreateSfw,
                    Next::Send {
                        request: self.create_bucket(self.sfw_bucket.as_str()),
                        operation: Operation::CreateBucket,
                    },
                ),
                _ => (
                    Progress::AskNsfw,
                    Next::Send {
                        request: self.get_bucket(self.nsfw_bucket.as_str()),
                        operation: Operation::GetBucket(self.nsfw_bucket.clone()),
                    },
                ),
            },
            Progress::CreateSfw => match result {
                Ok(_) => (
                    Progress::AskNsfw,
                    Next::Send {
                        request: self.get_bucket(self.nsfw_bucket.as_str()),
                        operation: Operation::GetBucket(self.nsfw_bucket.clone()),
                    },
                ),
                Err(error) => (Progress::Done, Next::Finish(Err(error))),
            },
            Progress::AskNsfw => match result {
                Err(SiaError::BucketNotFound(_)) => (
                    Progress::CreateNsfw,
                    Next::Send {
                        request: self.create_bucket(self.nsfw_bucket.as_str()),
                        operation: Operation::CreateBucket,
                    },
                ),
                _ => (Progress::Done, Next::Finish(Ok(()))),
            },
            Progress::CreateNsfw => match result {
                Ok(_) => (Progress::Done, Next::Finish(Ok(()))),
                Err(error) => (Progress::Done, Next::Finish(Err(error))),
            },
            Progress::Done => (Progress::Done, Next::Finish(Ok(()))),
        }
    }

    /// The first request of `validate_wallets`: the question for the wallet
    /// of the general partition.
    pub fn validate_wallets_start(&self) -> (started: (Progress, Next))
        ensures
            started.0 == Progress::AskSfw,
            asks_wallet(started.1, self@, false),
    {
        (
            Progress::AskSfw,
            Next::Send { request: self.get_sfw_wallet(), operation: Operation::GetSfwWallet },
        )
    }

    /// Makes sure that both wallets exist, one step at a time: takes the
    /// result of the last request and says what to do next.
    pub fn validate_wallets(&self, progress: Progress, result: Result<(), SiaError>) -> (step: (
        Progress,
        Next,
    ))
        ensures
            validate_next(self@, progress, result, step.0, step.1),
    {
        match progress {
            Progress::AskSfw => match result {
                Ok(_) => (
                    Progress::AskNsfw,
                    Next::Send {
                        request: self.get_nsfw_wallet(),
                        operation: Operation::GetNsfwWallet,
                    },
                ),
                Err(error) => (Progress::Done, Next::Finish(Err(error))),
            },
            Progress::AskNsfw => match result {
                Ok(_) => (Progress::Done, Next::Finish(Ok(()))),
                Err(error) => (Progress::Done, Next::Finish(Err(error))),
            },
            _ => (Progress::Done, Next::Finish(Ok(()))),
        }
    }
}

impl SiaErrorModel {
    /// What the error reads in a report, with its detail.
    pub open spec fn text(self) -> Seq<char> {
        match self {
            SiaErrorModel::Http(report) => "HTTP request failed: "@ + report,
            SiaErrorModel::Api { status, message } => "Sia API error: "@ + status_text(status)
                + " - "@ + message,
            SiaErrorModel::Auth => "Authentication failed"@,
            SiaErrorModel::BucketNotFound(name) => "Bucket not found: "@ + name,
            SiaErrorModel::WalletNotFound(name) => "Wallet not found: "@ + name,
            SiaErrorModel::ObjectNotFound(key) => "Object not found: "@ + key,
        }
    }
}

impl SiaError {
    /// Renders the error, with its detail, for a report.
    pub fn describe(&self) -> (text: String)
        ensures
            text@ == self@.text(),
    {
        match self {
            SiaError::Http(report) => concat2("HTTP request failed: ", report.as_str()),
            SiaError::Api { status, message } => {
                let line = describe_status(*status);
                let mut text = concat2("Sia API error: ", line.as_str());
                text.append(" - ");
                text.append(message.as_str());
                text
            },
            SiaError::Auth => String::from_str("Authentication failed"),
            SiaError::BucketNotFound(name) => concat2("Bucket not found: ", name.as_str()),
            SiaError::WalletNotFound(name) => concat2("Wallet not found: ", name.as_str()),
            SiaError::ObjectNotFound(key) => concat2("Object not found: ", key.as_str()),
        }
    }
}

} // verus!
