//! The sink behind the HTTP interface of a storage worker: its session
//! tokens, its buckets, and the addresses of its objects.
//!
//! The worker hands out a token on the presentation of a password. The
//! token is kept, one for each partition, and presented again until shortly
//! before the worker would let it lapse.

use vstd::prelude::*;
use crate::encoding::{basic_auth, basic_auth_text, describe_status, percent_encode,
    percent_encoded, status_text};
use crate::http::{status_is_success, is_success, HttpBody, HttpBodyModel, HttpRequest,
    HttpRequestModel, Method, NOT_FOUND, OK};
use crate::sia_client::CreateBucketRequest;
use crate::sink::{SinkDescriptor, SinkKind, SinkModel};
use crate::text::{concat2, concat3, pair_texts, push_pair};

pub mod duplicate;
pub mod move2nsfw;

verus! {

/// For how many milliseconds the worker is asked to honour a token: one
/// hour.
pub const TOKEN_VALIDITY_MS: u64 = 3_600_000;

/// For how many milliseconds a token is presented again: fifty minutes, so
/// that no request goes out with a token that lapses on the way.
pub const TOKEN_CACHE_MS: u64 = 3_000_000;

/// How the two workers are reached, and the buckets they keep.
#[derive(Debug)]
pub struct RenterdConfig {
    pub renterd_api_password: String,
    /// The address of the worker of the general partition.
    pub renterd_api_url_sfw: String,
    /// The address of the worker of the restricted partition.
    pub renterd_api_url_nsfw: String,
    pub sia_bucket_sfw: String,
    pub sia_bucket_nsfw: String,
}

impl RenterdConfig {
    /// The address of the worker of a partition.
    pub fn base_url(&self, is_nsfw: bool) -> (url: &str)
        ensures
            url@ == base_url_text(*self, is_nsfw),
    {
        if is_nsfw {
            self.renterd_api_url_nsfw.as_str()
        } else {
            self.renterd_api_url_sfw.as_str()
        }
    }

    /// The worker and bucket of a partition as a sink, as contracts see it.
    /// It is named by the worker's address and the bucket.
    pub open spec fn sink_model(&self, is_nsfw: bool) -> SinkModel {
        if is_nsfw {
            SinkModel {
                kind: SinkKind::HttpEndpoint,
                destination_root: self.renterd_api_url_nsfw@ + "/"@ + self.sia_bucket_nsfw@,
                credential: self.renterd_api_password@,
            }
        } else {
            SinkModel {
                kind: SinkKind::HttpEndpoint,
                destination_root: self.renterd_api_url_sfw@ + "/"@ + self.sia_bucket_sfw@,
                credential: self.renterd_api_password@,
            }
        }
    }

    /// The worker and bucket of a partition as a sink.
    pub fn sink(&self, is_nsfw: bool) -> (sink: SinkDescriptor)
        ensures
            sink@ == self.sink_model(is_nsfw),
    {
        let root = if is_nsfw {
            concat3(self.renterd_api_url_nsfw.as_str(), "/", self.sia_bucket_nsfw.as_str())
        } else {
            concat3(self.renterd_api_url_sfw.as_str(), "/", self.sia_bucket_sfw.as_str())
        };
        SinkDescriptor::new(
            SinkKind::HttpEndpoint,
            root.as_str(),
            self.renterd_api_password.as_str(),
        )
    }

    /// The bucket of a partition.
    pub fn bucket(&self, is_nsfw: bool) -> (bucket: &str)
        ensures
            bucket@ == (if is_nsfw {
                self.sia_bucket_nsfw@
            } else {
                self.sia_bucket_sfw@
            }),
    {
        if is_nsfw {
            self.sia_bucket_nsfw.as_str()
        } else {
            self.sia_bucket_sfw.as_str()
        }
    }
}

/// A token and the time until which it is presented.
#[derive(Debug)]
pub struct CachedToken {
    pub token: String,
    /// The time, in milliseconds on the caller's clock, from which the token
    /// is no longer presented.
    pub expires_at: u64,
}

/// A kept token as contracts see it.
pub struct CachedTokenModel {
    pub token: Seq<char>,
    pub expires_at: u64,
}

impl View for CachedToken {
    type V = CachedTokenModel;

    open spec fn view(&self) -> CachedTokenModel {
        CachedTokenModel { token: self.token@, expires_at: self.expires_at }
    }
}

impl Clone for CachedToken {
    fn clone(&self) -> (copy: Self)
        ensures
            copy == *self,
    {
        CachedToken { token: self.token.clone(), expires_at: self.expires_at }
    }
}

/// The kept tokens, one for each partition.
#[derive(Debug)]
pub struct SiaTokens {
    pub sfw: Option<CachedToken>,
    pub nsfw: Option<CachedToken>,
}

/// The kept tokens as contracts see them.
pub struct SiaTokensModel {
    pub sfw: Option<CachedTokenModel>,
    pub nsfw: Option<CachedTokenModel>,
}

/// A kept token, if there is one, as contracts see it.
pub open spec fn token_model(kept: Option<CachedToken>) -> Option<CachedTokenModel> {
    match kept {
        Some(token) => Some(token@),
        None => None,
    }
}

impl View for SiaTokens {
    type V = SiaTokensModel;

    open spec fn view(&self) -> SiaTokensModel {
        SiaTokensModel { sfw: token_model(self.sfw), nsfw: token_model(self.nsfw) }
    }
}

impl Default for SiaTokens {
    fn default() -> (tokens: Self)
        ensures
            tokens@ == (SiaTokensModel { sfw: None, nsfw: None }),
    {
        SiaTokens { sfw: None, nsfw: None }
    }
}

impl SiaTokensModel {
    /// The token kept for the worker of a partition.
    pub open spec fn slot(self, is_nsfw: bool) -> Option<CachedTokenModel> {
        if is_nsfw {
            self.nsfw
        } else {
            self.sfw
        }
    }

    /// The token to present to the worker of a partition at the time `now`:
    /// the one kept for that partition, as long as its time has not come.
    pub open spec fn valid(self, is_nsfw: bool, now: u64) -> Option<Seq<char>> {
        match self.slot(is_nsfw) {
            Some(kept) => if now < kept.expires_at {
                Some(kept.token)
            } else {
                None
            },
            None => None,
        }
    }

    /// The tokens after `token` has been kept for the worker of a partition
    /// at the time `now`. A token kept before for that partition is
    /// replaced; the other partition's token stays.
    pub open spec fn stored(self, is_nsfw: bool, token: Seq<char>, now: u64) -> Self {
        let kept = Some(CachedTokenModel { token, expires_at: expiry(now) });
        if is_nsfw {
            SiaTokensModel { sfw: self.sfw, nsfw: kept }
        } else {
            SiaTokensModel { sfw: kept, nsfw: self.nsfw }
        }
    }

    /// How many requests for a token go out when one is wanted for the
    /// worker of a partition at the time `now`: none while the kept token's
    /// time has not come, else one.
    pub open spec fn requests(self, is_nsfw: bool, now: u64) -> nat {
        if self.valid(is_nsfw, now) is Some {
            0
        } else {
            1
        }
    }
}

/// The time until which a token that was issued at `now` is presented. It
/// stops at the end of the clock's range.
pub open spec fn expiry(now: u64) -> u64 {
    if now + TOKEN_CACHE_MS > u64::MAX {
        u64::MAX
    } else {
        (now + TOKEN_CACHE_MS) as u64
    }
}

/// The kept tokens of the two workers. The caller shares one cache among
/// its requests: many may look a token up at a time, one may store.
#[derive(Debug)]
pub struct SiaTokenCache {
    pub tokens: SiaTokens,
}

impl View for SiaTokenCache {
    type V = SiaTokensModel;

    open spec fn view(&self) -> SiaTokensModel {
        self.tokens@
    }
}

impl SiaTokenCache {
    /// A cache that holds no token.
    pub fn new() -> (cache: Self)
        ensures
            cache@ == (SiaTokensModel { sfw: None, nsfw: None }),
    {
        SiaTokenCache { tokens: SiaTokens { sfw: None, nsfw: None } }
    }

    /// The token to present to the worker of a partition at the time `now`,
    /// if one is kept for that partition and its time has not come.
    pub fn lookup(&self, is_nsfw: bool, now: u64) -> (token: Option<String>)
        ensures
            match self@.valid(is_nsfw, now) {
                Some(kept) => token matches Some(t) && t@ == kept,
                None => token is None,
            },
    {
        let kept = if is_nsfw {
            &self.tokens.nsfw
        } else {
            &self.tokens.sfw
        };
        match kept {
            Some(cached) => {
                if now < cached.expires_at {
                    Some(cached.token.clone())
                } else {
                    None
                }
            },
            None => None,
        }
    }

    /// Keeps `token`, issued at the time `now`, for the worker of a
    /// partition. What is kept for the other partition stays as it is.
    pub fn store(&mut self, is_nsfw: bool, token: String, now: u64)
        ensures
            final(self)@ == old(self)@.stored(is_nsfw, token@, now),
            final(self)@.slot(!is_nsfw) == old(self)@.slot(!is_nsfw),
    {
        let kept = CachedToken { token, expires_at: now.saturating_add(TOKEN_CACHE_MS) };
        if is_nsfw {
            self.tokens.nsfw = Some(kept);
        } else {
            self.tokens.sfw = Some(kept);
        }
    }
}

/// Why no token could be had.
#[derive(Debug)]
pub enum AuthError {
    /// The worker could not be reached.
    Transport(String),
    /// The worker answered with this status, which is no success.
    Status(u16),
    /// The worker's answer held no token.
    Malformed(String),
}

impl AuthError {
    /// What the error reads in a report.
    pub open spec fn text(self) -> Seq<char> {
        match self {
            AuthError::Transport(report) => report@,
            AuthError::Status(status) => "Failed to get auth token: HTTP "@ + status_text(status),
            AuthError::Malformed(report) => report@,
        }
    }

    /// Renders the error for a report.
    pub fn describe(&self) -> (text: String)
        ensures
            text@ == self.text(),
    {
        match self {
            AuthError::Transport(report) => report.clone(),
            AuthError::Status(status) => {
                let line = describe_status(*status);
                concat2("Failed to get auth token: HTTP ", line.as_str())
            },
            AuthError::Malformed(report) => report.clone(),
        }
    }
}

/// The request that asks the worker at `base_url` for a token.
pub open spec fn auth_request_model(base_url: Seq<char>, password: Seq<char>) -> HttpRequestModel {
    HttpRequestModel {
        method: Method::Post,
        url: base_url + "/api/auth?validity=3600000"@,
        query: Seq::empty(),
        headers: seq![("Authorization"@, basic_auth_text(password))],
        body: HttpBodyModel::Empty,
    }
}

/// Builds the request that asks the worker at `base_url` for a token.
pub fn auth_request(base_url: &str, password: &str) -> (request: HttpRequest)
    ensures
        request@ == auth_request_model(base_url@, password@),
{
    let mut headers: Vec<(String, String)> = Vec::new();
    let authorization = basic_auth(password);
    push_pair(&mut headers, "Authorization", authorization.as_str());
    let request = HttpRequest {
        method: Method::Post,
        url: concat2(base_url, "/api/auth?validity=3600000"),
        query: Vec::new(),
        headers,
        body: HttpBody::Empty,
    };
    assert(request@.query =~= Seq::empty());
    assert(request@.headers =~= seq![("Authorization"@, basic_auth_text(password@))]);
    request
}

/// What is to be done to have a token.
#[derive(Debug)]
pub enum TokenStep {
    /// Nothing: this kept token is still good.
    Cached(String),
    /// Send this request and report the answer.
    Authenticate(HttpRequest),
}

/// The address of the worker of a partition.
pub open spec fn base_url_text(config: RenterdConfig, is_nsfw: bool) -> Seq<char> {
    if is_nsfw {
        config.renterd_api_url_nsfw@
    } else {
        config.renterd_api_url_sfw@
    }
}

/// Decides how the token for the worker of a partition is had at the time
/// `now`: from the cache while the token kept for that partition has not
/// reached its time, else by one request to that partition's worker.
pub fn get_auth_token(config: &RenterdConfig, is_nsfw: bool, cache: &SiaTokenCache, now: u64) -> (step:
    TokenStep)
    ensures
        match cache@.valid(is_nsfw, now) {
            Some(kept) => step matches TokenStep::Cached(token) && token@ == kept,
            None => step matches TokenStep::Authenticate(request) && request@
                == auth_request_model(
                base_url_text(*config, is_nsfw),
                config.renterd_api_password@,
            ),
        },
        step is Authenticate <==> cache@.requests(is_nsfw, now) == 1,
{
    match cache.lookup(is_nsfw, now) {
        Some(token) => TokenStep::Cached(token),
        None => TokenStep::Authenticate(
            auth_request(config.base_url(is_nsfw), config.renterd_api_password.as_str()),
        ),
    }
}

/// What came of the request for a token.
#[derive(Debug)]
pub enum AuthReply {
    /// The worker could not be reached.
    Unreachable(String),
    /// The worker answered with `status`. `token` is the token that the
    /// body names, or what was wrong with the body.
    Answered { status: u16, token: Result<String, String> },
}

/// The token that an answer of the worker issues, or why it issues none.
pub open spec fn issued(reply: AuthReply) -> Result<Seq<char>, AuthError> {
    match reply {
        AuthReply::Unreachable(report) => Err(AuthError::Transport(report)),
        AuthReply::Answered { status, token } => if !is_success(status) {
            Err(AuthError::Status(status))
        } else {
            match token {
                Ok(issued) => Ok(issued@),
                Err(report) => Err(AuthError::Malformed(report)),
            }
        },
    }
}

/// Takes the answer of a partition's worker to a request for a token, at
/// the time `now`. A token that was issued is kept for that partition and
/// handed out. Any failure leaves the cache as it is, and whatever the
/// answer, what is kept for the other partition stays as it is.
pub fn accept_auth_reply(cache: &mut SiaTokenCache, is_nsfw: bool, reply: AuthReply, now: u64) -> (token:
    Result<String, AuthError>)
    ensures
        match issued(reply) {
            Ok(fresh) => {
                &&& token matches Ok(t)
                &&& t@ == fresh
                &&& final(cache)@ == old(cache)@.stored(is_nsfw, fresh, now)
            },
            Err(error) => token == Err::<String, AuthError>(error) && final(cache)@ == old(
                cache,
            )@,
        },
        final(cache)@.slot(!is_nsfw) == old(cache)@.slot(!is_nsfw),
{
    match reply {
        AuthReply::Unreachable(report) => Err(AuthError::Transport(report)),
        AuthReply::Answered { status, token } => {
            if !status_is_success(status) {
                Err(AuthError::Status(status))
            } else {
                match token {
                    Ok(fresh) => {
                        cache.store(is_nsfw, fresh.clone(), now);
                        Ok(fresh)
                    },
                    Err(report) => Err(AuthError::Malformed(report)),
                }
            }
        },
    }
}

/// The cookie that presents a token.
pub open spec fn cookie_text(token: Seq<char>) -> Seq<char> {
    "renterd_auth="@ + token
}

/// Builds the cookie that presents a token.
pub fn cookie(token: &str) -> (value: String)
    ensures
        value@ == cookie_text(token@),
{
    concat2("renterd_auth=", token)
}

/// The address of an object at a worker, given the percent-encoded key.
pub open spec fn worker_url_text(base_url: Seq<char>, encoded_key: Seq<char>, bucket: Seq<char>) -> Seq<
    char,
> {
    base_url + "/api/worker/object/"@ + encoded_key + "?bucket="@ + bucket
}

/// Builds the address of an object at a worker from the percent-encoded
/// key.
pub fn worker_url(base_url: &str, encoded_key: &str, bucket: &str) -> (url: String)
    ensures
        url@ == worker_url_text(base_url@, encoded_key@, bucket@),
{
    let mut url = String::from_str(base_url);
    url.append("/api/worker/object/");
    url.append(encoded_key);
    url.append("?bucket=");
    url.append(bucket);
    url
}

/// Builds the address of the object under `key` in `bucket` at a worker.
pub fn worker_object_url(base_url: &str, key: &str, bucket: &str) -> (url: String)
    ensures
        url@ == worker_url_text(base_url@, percent_encoded(key@), bucket@),
{
    let encoded = percent_encode(key);
    worker_url(base_url, encoded.as_str(), bucket)
}

/// Why a bucket could not be made sure of.
#[derive(Debug)]
pub enum BucketError {
    /// No token could be had.
    Auth(AuthError),
    /// The worker could not be reached.
    Transport(String),
    /// The worker answered the question for the bucket with this status.
    Check(u16),
    /// The worker answered the request to create the bucket with this
    /// status.
    Create(u16),
}

impl BucketError {
    /// What the error reads in a report.
    pub open spec fn text(self) -> Seq<char> {
        match self {
            BucketError::Auth(error) => error.text(),
            BucketError::Transport(report) => report@,
            BucketError::Check(status) => "Failed to check bucket: HTTP "@ + status_text(status),
            BucketError::Create(status) => "Failed to create bucket: HTTP "@ + status_text(
                status,
            ),
        }
    }

    /// Renders the error for a report.
    pub fn describe(&self) -> (text: String)
        ensures
            text@ == self.text(),
    {
        match self {
            BucketError::Auth(error) => error.describe(),
            BucketError::Transport(report) => report.clone(),
            BucketError::Check(status) => {
                let line = describe_status(*status);
                concat2("Failed to check bucket: HTTP ", line.as_str())
            },
            BucketError::Create(status) => {
                let line = describe_status(*status);
                concat2("Failed to create bucket: HTTP ", line.as_str())
            },
        }
    }
}

/// The request that asks a worker whether it has a bucket.
pub open spec fn bucket_check_model(
    base_url: Seq<char>,
    bucket_name: Seq<char>,
    token: Seq<char>,
) -> HttpRequestModel {
    HttpRequestModel {
        method: Method::Get,
        url: base_url + "/api/bus/bucket/"@ + bucket_name,
        query: Seq::empty(),
        headers: seq![("Cookie"@, cookie_text(token))],
        body: HttpBodyModel::Empty,
    }
}

/// The request that asks a worker to create a bucket that is closed to
/// public reading.
pub open spec fn bucket_create_model(
    base_url: Seq<char>,
    bucket_name: Seq<char>,
    token: Seq<char>,
) -> HttpRequestModel {
    HttpRequestModel {
        method: Method::Post,
        url: base_url + "/api/bus/buckets"@,
        query: Seq::empty(),
        headers: seq![("Cookie"@, cookie_text(token))],
        body: HttpBodyModel::CreateBucket { name: bucket_name, public_read_access: Some(false) },
    }
}

/// The headers that present a token.
fn cookie_headers(token: &str) -> (headers: Vec<(String, String)>)
    ensures
        pair_texts(headers@) == seq![("Cookie"@, cookie_text(token@))],
{
    let mut headers: Vec<(String, String)> = Vec::new();
    let value = cookie(token);
    push_pair(&mut headers, "Cookie", value.as_str());
    assert(pair_texts(headers@) =~= seq![("Cookie"@, cookie_text(token@))]);
    headers
}

/// Builds the request that asks a worker whether it has a bucket.
pub fn bucket_check_request(base_url: &str, bucket_name: &str, token: &str) -> (request:
    HttpRequest)
    ensures
        request@ == bucket_check_model(base_url@, bucket_name@, token@),
{
    let mut url = String::from_str(base_url);
    url.append("/api/bus/bucket/");
    url.append(bucket_name);
    let request = HttpRequest {
        method: Method::Get,
        url,
        query: Vec::new(),
        headers: cookie_headers(token),
        body: HttpBody::Empty,
    };
    assert(request@.query =~= Seq::empty());
    request
}

/// What follows the worker's answer to the question for a bucket.
#[derive(Debug)]
pub enum BucketStep {
    /// The bucket is there.
    Exists,
    /// The bucket is not there: send this request to create it, and report
    /// the answer.
    Create(HttpRequest),
    /// The worker's answer settles nothing.
    Failed(BucketError),
}

/// Decides what follows when a worker has answered the question for a
/// bucket with `check_status`: nothing on 200, the request that creates the
/// bucket on 404, and an error on anything else.
pub fn create_bucket_if_not_exists(
    base_url: &str,
    bucket_name: &str,
    token: &str,
    check_status: u16,
) -> (step: BucketStep)
    ensures
        check_status == OK ==> step is Exists,
        check_status == NOT_FOUND ==> (step matches BucketStep::Create(request) && request@
            == bucket_create_model(base_url@, bucket_name@, token@)),
        check_status != OK && check_status != NOT_FOUND ==> (step matches BucketStep::Failed(
            BucketError::Check(status),
        ) && status == check_status),
{
    if check_status == OK {
        BucketStep::Exists
    } else if check_status == NOT_FOUND {
        let request = HttpRequest {
            method: Method::Post,
            url: concat2(base_url, "/api/bus/buckets"),
            query: Vec::new(),
            headers: cookie_headers(token),
            body: HttpBody::CreateBucket {
                request: CreateBucketRequest { name: String::from_str(bucket_name) },
                public_read_access: Some(false),
            },
        };
        assert(request@.query =~= Seq::empty());
        BucketStep::Create(request)
    } else {
        BucketStep::Failed(BucketError::Check(check_status))
    }
}

/// What the worker's answer to the request to create a bucket means.
pub fn bucket_created(status: u16) -> (result: Result<(), BucketError>)
    ensures
        is_success(status) ==> result is Ok,
        !is_success(status) ==> (result matches Err(BucketError::Create(refused)) && refused
            == status),
{
    if status_is_success(status) {
        Ok(())
    } else {
        Err(BucketError::Create(status))
    }
}

} // verus!
