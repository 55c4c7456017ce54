use video_relay::duplicate::Args;
use video_relay::http::{Field, HttpBody, Method, Response};
use video_relay::metadata::Metadata;
use video_relay::routes::sia::duplicate::{handler, stored_response, upload, Action, Error, Event,
    Phase};
use video_relay::routes::sia::{accept_auth_reply, auth_request, bucket_check_request,
    bucket_created, cookie, create_bucket_if_not_exists, get_auth_token, worker_object_url,
    worker_url, AuthError, AuthReply, BucketError, BucketStep, RenterdConfig, SiaTokenCache,
    SiaTokens, TokenStep, TOKEN_CACHE_MS, TOKEN_VALIDITY_MS};
use video_relay::sink::{ObjectKind, SinkKind, SinkRequest};

const SFW: &str = "http://localhost:9980";
const NSFW: &str = "http://localhost:9981";

fn renterd() -> RenterdConfig {
    RenterdConfig {
        renterd_api_password: "1234".to_string(),
        renterd_api_url_sfw: SFW.to_string(),
        renterd_api_url_nsfw: NSFW.to_string(),
        sia_bucket_sfw: "sfw".to_string(),
        sia_bucket_nsfw: "nsfw".to_string(),
    }
}

fn request(is_nsfw: bool) -> Args {
    Args {
        publisher_user_id: "u1".to_string(),
        video_id: "v1".to_string(),
        is_nsfw,
        metadata: Metadata::from_pairs(vec![("lang".to_string(), "en".to_string())]),
    }
}

fn answered(status: u16, token: &str) -> AuthReply {
    AuthReply::Answered { status, token: Ok(token.to_string()) }
}

fn message_of(response: &Response) -> &str {
    match &response.body[0].1 {
        Field::Text(text) => text,
        other => panic!("not text: {:?}", other),
    }
}

/// Has a token for `base_url` at `now`, and counts the requests to the
/// worker, which hands out `fresh`.
fn token_at(cache: &mut SiaTokenCache, is_nsfw: bool, now: u64, fresh: &str, calls: &mut u32) -> String {
    match get_auth_token(&renterd(), is_nsfw, cache, now) {
        TokenStep::Cached(token) => token,
        TokenStep::Authenticate(_) => {
            *calls += 1;
            accept_auth_reply(cache, is_nsfw, answered(200, fresh), now).expect("a token is issued")
        }
    }
}

#[test]
fn token_is_asked_for_once_and_kept_for_fifty_minutes() {
    assert_eq!(TOKEN_CACHE_MS, 50 * 60 * 1000);
    assert_eq!(TOKEN_VALIDITY_MS, 60 * 60 * 1000);
    let mut cache = SiaTokenCache::new();
    let mut calls = 0;
    assert_eq!(token_at(&mut cache, false, 1_000, "first", &mut calls), "first");
    assert_eq!(calls, 1);
    assert_eq!(token_at(&mut cache, false, 1_000, "second", &mut calls), "first");
    assert_eq!(token_at(&mut cache, false, 2_000_000, "second", &mut calls), "first");
    assert_eq!(token_at(&mut cache, false, 1_000 + TOKEN_CACHE_MS - 1, "second", &mut calls), "first");
    assert_eq!(calls, 1);
    assert_eq!(token_at(&mut cache, false, 1_000 + TOKEN_CACHE_MS, "second", &mut calls), "second");
    assert_eq!(calls, 2);
    assert_eq!(token_at(&mut cache, false, 1_000 + TOKEN_CACHE_MS + 5, "third", &mut calls), "second");
    assert_eq!(calls, 2);
    assert_eq!(
        cache.tokens.sfw.as_ref().map(|kept| kept.expires_at),
        Some(1_000 + 2 * TOKEN_CACHE_MS)
    );
}

#[test]
fn tokens_are_kept_for_each_partition() {
    let mut cache = SiaTokenCache::new();
    let mut calls = 0;
    assert_eq!(token_at(&mut cache, false, 0, "general", &mut calls), "general");
    assert_eq!(token_at(&mut cache, true, 0, "restricted", &mut calls), "restricted");
    assert_eq!(calls, 2);
    assert_eq!(token_at(&mut cache, false, 10, "x", &mut calls), "general");
    assert_eq!(token_at(&mut cache, true, 10, "x", &mut calls), "restricted");
    assert_eq!(calls, 2);
    assert_eq!(cache.lookup(false, 10), Some("general".to_string()));
    assert_eq!(cache.lookup(true, 10), Some("restricted".to_string()));
    assert_eq!(cache.lookup(false, TOKEN_CACHE_MS), None);
}

#[test]
fn token_expiry_stops_at_the_end_of_the_clock() {
    let mut cache = SiaTokenCache::new();
    cache.store(false, "t".to_string(), u64::MAX - 5);
    assert_eq!(cache.tokens.sfw.as_ref().map(|kept| kept.expires_at), Some(u64::MAX));
    assert_eq!(cache.lookup(false, u64::MAX - 1), Some("t".to_string()));
    assert_eq!(cache.lookup(false, u64::MAX), None);
    let empty = SiaTokens::default();
    assert!(empty.sfw.is_none() && empty.nsfw.is_none());
}

#[test]
fn token_request_presents_the_password() {
    let request = auth_request(SFW, "1234");
    assert_eq!(request.method, Method::Post);
    assert_eq!(request.url, "http://localhost:9980/api/auth?validity=3600000");
    assert_eq!(request.headers, vec![("Authorization".to_string(), "Basic OjEyMzQ=".to_string())]);
    assert!(request.query.is_empty());
    assert!(matches!(request.body, HttpBody::Empty));
    match get_auth_token(&renterd(), true, &SiaTokenCache::new(), 0) {
        TokenStep::Authenticate(asked) => {
            assert_eq!(asked.url, "http://localhost:9981/api/auth?validity=3600000");
            assert_eq!(asked.headers[0].1, "Basic OjEyMzQ=");
        }
        other => panic!("an empty cache has no token: {:?}", other),
    }
}

#[test]
fn failed_authentication_leaves_the_cache() {
    let mut cache = SiaTokenCache::new();
    cache.store(false, "old".to_string(), 0);
    let late = TOKEN_CACHE_MS + 1;
    match accept_auth_reply(&mut cache, false, answered(401, "ignored"), late) {
        Err(AuthError::Status(401)) => {}
        other => panic!("not refused: {:?}", other),
    }
    match accept_auth_reply(&mut cache, false, AuthReply::Unreachable("refused".to_string()), late) {
        Err(AuthError::Transport(report)) => assert_eq!(report, "refused"),
        other => panic!("not unreachable: {:?}", other),
    }
    let garbled = AuthReply::Answered { status: 200, token: Err("no token".to_string()) };
    match accept_auth_reply(&mut cache, false, garbled, late) {
        Err(AuthError::Malformed(report)) => assert_eq!(report, "no token"),
        other => panic!("not malformed: {:?}", other),
    }
    assert_eq!(cache.tokens.sfw.as_ref().map(|kept| kept.token.as_str()), Some("old"));
    assert_eq!(cache.tokens.sfw.as_ref().map(|kept| kept.expires_at), Some(TOKEN_CACHE_MS));
    assert!(cache.tokens.nsfw.is_none());
    assert_eq!(AuthError::Status(503).describe(), "Failed to get auth token: HTTP 503 Service Unavailable");
    assert_eq!(AuthError::Transport("t".to_string()).describe(), "t");
    assert_eq!(AuthError::Malformed("m".to_string()).describe(), "m");
}

#[test]
fn addresses_and_cookies() {
    assert_eq!(cookie("abc"), "renterd_auth=abc");
    assert_eq!(worker_url("http://h", "k", "b"), "http://h/api/worker/object/k?bucket=b");
    assert_eq!(
        worker_object_url("http://h", "u 1/v.mp4", "b"),
        "http://h/api/worker/object/u%201%2Fv.mp4?bucket=b"
    );
}

#[test]
fn bucket_is_created_where_the_worker_has_none() {
    let check = bucket_check_request(SFW, "videos", "tok");
    assert_eq!(check.method, Method::Get);
    assert_eq!(check.url, "http://localhost:9980/api/bus/bucket/videos");
    assert_eq!(check.headers, vec![("Cookie".to_string(), "renterd_auth=tok".to_string())]);
    assert!(matches!(create_bucket_if_not_exists(SFW, "videos", "tok", 200), BucketStep::Exists));
    match create_bucket_if_not_exists(SFW, "videos", "tok", 404) {
        BucketStep::Create(create) => {
            assert_eq!(create.method, Method::Post);
            assert_eq!(create.url, "http://localhost:9980/api/bus/buckets");
            assert_eq!(create.headers, vec![("Cookie".to_string(), "renterd_auth=tok".to_string())]);
            match create.body {
                HttpBody::CreateBucket { request, public_read_access } => {
                    assert_eq!(request.name, "videos");
                    assert_eq!(public_read_access, Some(false));
                }
                other => panic!("not a bucket: {:?}", other),
            }
        }
        other => panic!("not created: {:?}", other),
    }
    for status in [500u16, 204, 403] {
        match create_bucket_if_not_exists(SFW, "videos", "tok", status) {
            BucketStep::Failed(BucketError::Check(seen)) => assert_eq!(seen, status),
            other => panic!("not failed: {:?}", other),
        }
    }
    assert!(bucket_created(201).is_ok());
    assert!(matches!(bucket_created(409), Err(BucketError::Create(409))));
    assert_eq!(BucketError::Check(500).describe(), "Failed to check bucket: HTTP 500 Internal Server Error");
    assert_eq!(BucketError::Create(409).describe(), "Failed to create bucket: HTTP 409 Conflict");
    assert_eq!(BucketError::Transport("t".to_string()).describe(), "t");
    assert_eq!(
        BucketError::Auth(AuthError::Status(401)).describe(),
        "Failed to get auth token: HTTP 401 Unauthorized"
    );
}

#[test]
fn relay_to_the_worker_of_the_partition() {
    let config = renterd();
    let args = request(false);
    let (phase, action) = handler(&config, &args, Phase::AwaitOrigin, Event::Origin(Ok(200)));
    assert_eq!(phase, Phase::AwaitToken);
    assert!(matches!(action, Action::FetchToken { is_nsfw: false }));
    let (phase, action) = handler(&config, &args, phase, Event::Token(Ok("tok".to_string())));
    assert_eq!(phase, Phase::AwaitUpload);
    match action {
        Action::Upload(write) => {
            assert_eq!(write.sink.kind, SinkKind::HttpEndpoint);
            assert_eq!(write.sink.destination_root, "http://localhost:9980/sfw");
            assert_eq!(write.key, "u1/v1.mp4");
            assert_eq!(write.object, ObjectKind::Video);
            match write.request {
                SinkRequest::Send(put) => {
                    assert_eq!(put.method, Method::Put);
                    assert_eq!(
                        put.url,
                        "http://localhost:9980/api/worker/object/u1%2Fv1.mp4?bucket=sfw"
                    );
                    assert_eq!(
                        put.headers,
                        vec![
                            ("Cookie".to_string(), "renterd_auth=tok".to_string()),
                            ("Content-Type".to_string(), "video/mp4".to_string()),
                            ("X-Metadata".to_string(), "{\"lang\":\"en\"}".to_string()),
                        ]
                    );
                    assert!(matches!(put.body, HttpBody::Object));
                }
                other => panic!("not a request: {:?}", other),
            }
        }
        other => panic!("not an upload: {:?}", other),
    }
    let (phase, action) = handler(&config, &args, phase, Event::Uploaded(Ok(200)));
    assert_eq!(phase, Phase::Done);
    match action {
        Action::Finish(Ok(response)) => {
            assert_eq!(response.status, 200);
            assert_eq!(message_of(&response), "Video uploaded to Sia successfully");
            assert_eq!(response.body[1].0, "bucket");
            assert!(matches!(&response.body[1].1, Field::Text(bucket) if bucket == "sfw"));
            assert_eq!(response.body[2].0, "key");
            assert!(matches!(&response.body[2].1, Field::Text(key) if key == "u1/v1.mp4"));
        }
        other => panic!("not an answer: {:?}", other),
    }
}

#[test]
fn sensitive_relay_goes_to_the_restricted_worker() {
    let config = renterd();
    let args = request(true);
    let (_, action) = handler(&config, &args, Phase::AwaitOrigin, Event::Origin(Ok(200)));
    assert!(matches!(action, Action::FetchToken { is_nsfw: true }));
    let write = upload(&config, &args, "tok").expect("metadata is text");
    assert_eq!(write.sink.destination_root, "http://localhost:9981/nsfw");
    match write.request {
        SinkRequest::Send(put) => {
            assert_eq!(put.url, "http://localhost:9981/api/worker/object/u1%2Fv1.mp4?bucket=nsfw")
        }
        other => panic!("not a request: {:?}", other),
    }
    let response = stored_response(&config, &args);
    assert!(matches!(&response.body[1].1, Field::Text(bucket) if bucket == "nsfw"));
}

#[test]
fn relay_to_the_worker_ends_on_failures() {
    let config = renterd();
    let args = request(false);
    for status in [404u16, 500, 204] {
        let (phase, action) = handler(&config, &args, Phase::AwaitOrigin, Event::Origin(Ok(status)));
        assert_eq!(phase, Phase::Done);
        assert!(matches!(action, Action::Finish(Err(Error::Cloudflare(seen))) if seen == status));
    }
    let (phase, action) =
        handler(&config, &args, Phase::AwaitOrigin, Event::Origin(Err("dns".to_string())));
    assert_eq!(phase, Phase::Done);
    assert!(matches!(action, Action::Finish(Err(Error::Network(report))) if report == "dns"));
    let (phase, action) =
        handler(&config, &args, Phase::AwaitToken, Event::Token(Err(AuthError::Status(401))));
    assert_eq!(phase, Phase::Done);
    assert!(matches!(
        action,
        Action::Finish(Err(Error::Internal(report)))
            if report == "Failed to get auth token: HTTP 401 Unauthorized"
    ));
    let (phase, action) = handler(&config, &args, Phase::AwaitUpload, Event::Uploaded(Ok(507)));
    assert_eq!(phase, Phase::Done);
    assert!(matches!(action, Action::Finish(Err(Error::Renterd(507)))));
    let (_, action) =
        handler(&config, &args, Phase::AwaitUpload, Event::Uploaded(Err("reset".to_string())));
    assert!(matches!(action, Action::Finish(Err(Error::Network(report))) if report == "reset"));
    for (phase, event) in [
        (Phase::AwaitOrigin, Event::Uploaded(Ok(200))),
        (Phase::AwaitToken, Event::Origin(Ok(200))),
        (Phase::AwaitUpload, Event::Token(Ok("t".to_string()))),
        (Phase::Done, Event::Origin(Ok(200))),
    ] {
        let (after, action) = handler(&config, &args, phase, event);
        assert_eq!(after, Phase::Done);
        assert!(matches!(
            action,
            Action::Finish(Err(Error::Internal(report)))
                if report == "the event does not fit the state of the request"
        ));
    }
}

#[test]
fn worker_errors_are_answered_without_their_detail() {
    let cases: Vec<(Error, u16, &str)> = vec![
        (Error::Network("n".to_string()), 500, "Internal server error. Check server logs."),
        (Error::Io("i".to_string()), 500, "Internal server error. Check server logs."),
        (Error::Json("j".to_string()), 500, "Internal server error. Check server logs."),
        (Error::Internal("x".to_string()), 500, "Internal server error. Check server logs."),
        (Error::Cloudflare(404), 404, "The video doesn't exist on cloudflare"),
        (
            Error::Cloudflare(500),
            400,
            "The video couldn't be fetched from cloudflare. Check server logs.",
        ),
        (Error::Renterd(404), 500, "Failed to upload to Sia. Check server logs."),
    ];
    for (error, status, message) in cases {
        let response = error.into_response();
        assert_eq!(response.status, status);
        assert_eq!(message_of(&response), message);
    }
}

#[test]
fn upload_from_encoded_key_and_json() {
    let write = video_relay::routes::sia::duplicate::upload_with(
        &renterd(),
        &request(true),
        "tok",
        "KEY",
        "JSON",
    );
    assert_eq!(write.key, "u1/v1.mp4");
    match write.request {
        SinkRequest::Send(put) => {
            assert_eq!(put.url, "http://localhost:9981/api/worker/object/KEY?bucket=nsfw");
            assert_eq!(put.headers[2], ("X-Metadata".to_string(), "JSON".to_string()));
        }
        other => panic!("not a request: {:?}", other),
    }
}

#[test]
fn tokens_of_workers_with_like_addresses_are_kept_apart() {
    let config = RenterdConfig {
        renterd_api_password: "1234".to_string(),
        renterd_api_url_sfw: "http://general:9980".to_string(),
        renterd_api_url_nsfw: "http://restricted:9980".to_string(),
        sia_bucket_sfw: "sfw".to_string(),
        sia_bucket_nsfw: "nsfw".to_string(),
    };
    let mut cache = SiaTokenCache::new();
    match get_auth_token(&config, true, &cache, 0) {
        TokenStep::Authenticate(request) => {
            assert_eq!(request.url, "http://restricted:9980/api/auth?validity=3600000")
        }
        other => panic!("an empty cache has no token: {:?}", other),
    }
    let issued = accept_auth_reply(&mut cache, true, answered(200, "restricted"), 0);
    assert_eq!(issued.ok(), Some("restricted".to_string()));
    assert!(cache.tokens.sfw.is_none());
    assert_eq!(cache.lookup(false, 1), None);
    assert_eq!(cache.lookup(true, 1), Some("restricted".to_string()));
    match get_auth_token(&config, false, &cache, 1) {
        TokenStep::Authenticate(request) => {
            assert_eq!(request.url, "http://general:9980/api/auth?validity=3600000")
        }
        other => panic!("no token is kept for the general partition: {:?}", other),
    }
    assert!(accept_auth_reply(&mut cache, false, answered(500, "x"), 1).is_err());
    assert_eq!(cache.lookup(true, 2), Some("restricted".to_string()));
}

#[test]
fn worker_errors_read_with_their_detail() {
    assert_eq!(
        Error::Cloudflare(404).describe(),
        "Cloudflare returned non-ok status (404 Not Found) when fetching the video"
    );
    assert_eq!(Error::Renterd(500).describe(), "Renterd returned non-ok status (500 Internal Server Error)");
    assert_eq!(Error::Internal("x".to_string()).describe(), "Internal error: x");
    assert_eq!(Error::Network("n".to_string()).describe(), "n");
    assert_eq!(Error::Io("i".to_string()).describe(), "i");
    assert_eq!(Error::Json("j".to_string()).describe(), "j");
}
