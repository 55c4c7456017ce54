use video_relay::consts::{Config, Environment};
use video_relay::http::Field;
use video_relay::metadata::Metadata;
use video_relay::process::Pipe;
use video_relay::routes::duplicate::{completed_response, download_failure, extract_thumbnail,
    fetch_command, files_to_remove, finalize_relay, handler_raw_finalize, handler_raw_upload_initial,
    pending_expiry, pending_metadata, pending_response, temp_file, thumbnail_command,
    uploaded_at, Error, Finalize, FinalizeAction, FinalizeEvent, FinalizePhase, RawFinalizeBody,
    RawFinalizeParams, RawUploadInitialParams, Thumbnail, ThumbnailAttempt,
    MAX_DOWNLOAD_ATTEMPTS, MAX_TIMESTAMP, MIN_TIMESTAMP, PENDING_UPLOAD_TTL_HOURS,
    RETRY_DELAY_SECS};
use video_relay::s3_client::{S3Client, S3Request};
use video_relay::sink::{ObjectKind, SinkKind, SinkRequest, SinkWrite};

fn config() -> Config {
    Config::from_environment(Environment {
        sfw_bucket: None,
        storj_access_grant_sfw: Some("grant-sfw".to_string()),
        nsfw_bucket: None,
        storj_access_grant_nsfw: Some("grant-nsfw".to_string()),
        hetzner_s3_endpoint: Some("https://s3.example".to_string()),
        hetzner_s3_bucket: Some("mirror".to_string()),
        hetzner_s3_access_key: Some("access".to_string()),
        hetzner_s3_secret_key: Some("secret".to_string()),
        hetzner_s3_region: None,
        service_secret_token: Some("hunter2".to_string()),
    })
    .expect("every required variable is set")
}

fn initial(is_nsfw: bool) -> RawUploadInitialParams {
    RawUploadInitialParams {
        publisher_user_id: "u1".to_string(),
        video_id: "v1".to_string(),
        is_nsfw,
    }
}

fn finalize_params(is_nsfw: bool) -> RawFinalizeParams {
    RawFinalizeParams { publisher_user_id: "u1".to_string(), video_id: "v1".to_string(), is_nsfw }
}

fn finalize_body() -> RawFinalizeBody {
    RawFinalizeBody {
        metadata: Metadata::from_pairs(vec![("title".to_string(), "cat".to_string())]),
    }
}

fn args_of(write: &SinkWrite) -> Vec<String> {
    match &write.request {
        SinkRequest::Run(command) => command.args.clone(),
        other => panic!("not a process: {:?}", other),
    }
}

fn text_of(field: &Field) -> &str {
    match field {
        Field::Text(text) => text,
        other => panic!("not text: {:?}", other),
    }
}

#[test]
fn time_of_arrival_reads_in_rfc3339() {
    assert_eq!(uploaded_at(1431648000, 0), Some("2015-05-15T00:00:00+00:00".to_string()));
    assert_eq!(uploaded_at(0, 500_000_000), Some("1970-01-01T00:00:00.500+00:00".to_string()));
    assert_eq!(uploaded_at(i64::MAX, 0), None);
}

#[test]
fn time_of_arrival_has_a_text_exactly_for_instants_with_a_date() {
    assert_eq!(MIN_TIMESTAMP, -8_334_601_228_800);
    assert_eq!(MAX_TIMESTAMP, 8_210_266_876_799);
    assert_eq!(
        uploaded_at(MAX_TIMESTAMP, 0),
        Some("+262142-12-31T23:59:59+00:00".to_string())
    );
    assert_eq!(uploaded_at(MAX_TIMESTAMP + 1, 0), None);
    assert_eq!(
        uploaded_at(MIN_TIMESTAMP, 0),
        Some("-262143-01-01T00:00:00+00:00".to_string())
    );
    assert_eq!(uploaded_at(MIN_TIMESTAMP - 1, 0), None);
    assert_eq!(uploaded_at(i64::MIN, 0), None);
    assert_eq!(uploaded_at(253_402_300_799, 0), Some("9999-12-31T23:59:59+00:00".to_string()));
    assert_eq!(uploaded_at(-1, 0), Some("1969-12-31T23:59:59+00:00".to_string()));

    assert!(uploaded_at(0, 999_999_999).is_some());
    assert_eq!(uploaded_at(0, 1_000_000_000), None);
    assert_eq!(uploaded_at(58, 1_000_000_000), None);
    assert_eq!(uploaded_at(59, 1_000_000_000), Some("1970-01-01T00:00:60+00:00".to_string()));
    assert!(uploaded_at(59, 1_999_999_999).is_some());
    assert_eq!(uploaded_at(59, 2_000_000_000), None);
    assert_eq!(uploaded_at(0, u32::MAX), None);
    assert!(uploaded_at(-1, 1_500_000_000).is_some());
    assert_eq!(uploaded_at(-2, 1_500_000_000), None);
    assert!(uploaded_at(-61, 1_000_000_000).is_some());
    assert!(uploaded_at(MAX_TIMESTAMP, 1_999_999_999).is_some());
    assert_eq!(uploaded_at(MAX_TIMESTAMP, 2_000_000_000), None);
    assert!(uploaded_at(MIN_TIMESTAMP, 999_999_999).is_some());
    assert_eq!(uploaded_at(MIN_TIMESTAMP, 1_000_000_000), None);
    assert!(uploaded_at(MIN_TIMESTAMP + 59, 1_000_000_000).is_some());
}

#[test]
fn pending_upload_is_marked_and_expires() {
    assert_eq!(PENDING_UPLOAD_TTL_HOURS, 1);
    assert_eq!(pending_expiry(), "+1h");
    let metadata = pending_metadata("2015-05-15T00:00:00+00:00");
    assert_eq!(metadata.len(), 2);
    assert_eq!(metadata.get("_pending"), Some(&"true".to_string()));
    assert_eq!(metadata.get("_uploaded_at"), Some(&"2015-05-15T00:00:00+00:00".to_string()));
}

#[test]
fn first_phase_of_general_content_has_four_writes() {
    let config = config();
    let s3 = S3Client::new(&config);
    let relay = handler_raw_upload_initial(&s3, &config, &initial(false), "T")
        .expect("pending metadata is text");
    let writes = relay.writes();
    assert_eq!(writes.len(), 4);
    assert_eq!(
        args_of(&writes[0]),
        vec![
            "cp",
            "--interactive=false",
            "--analytics=false",
            "--progress=false",
            "--metadata={\"_pending\":\"true\",\"_uploaded_at\":\"T\"}",
            "--expires",
            "+1h",
            "--access",
            "grant-sfw",
            "-",
            "sj://yral-videos/u1/v1.mp4",
        ]
    );
    assert_eq!(
        args_of(&writes[1]),
        vec![
            "cp",
            "--interactive=false",
            "--analytics=false",
            "--progress=false",
            "--expires",
            "+1h",
            "--access",
            "grant-sfw",
            "-",
            "sj://yral-videos/u1/v1_thumbnail.png",
        ]
    );
    assert_eq!(writes[0].object, ObjectKind::Video);
    assert_eq!(writes[1].object, ObjectKind::Thumbnail);
    assert_eq!(writes[0].expires.as_deref(), Some("+1h"));
    assert_eq!(writes[1].expires.as_deref(), Some("+1h"));
    assert!(writes[1].metadata.is_none());
    let pending = writes[0].metadata.as_ref().expect("the video carries metadata");
    assert_eq!(pending.get("_pending"), Some(&"true".to_string()));
    match &writes[2].request {
        SinkRequest::Store(S3Request::Put { bucket, key, content_type, metadata }) => {
            assert_eq!(bucket, "mirror");
            assert_eq!(key, "u1/v1.mp4");
            assert_eq!(content_type, "video/mp4");
            assert_eq!(metadata.get("_pending"), Some(&"true".to_string()));
            assert_eq!(metadata.get("_uploaded_at"), Some(&"T".to_string()));
        }
        other => panic!("not a call to the store: {:?}", other),
    }
    match &writes[3].request {
        SinkRequest::Store(S3Request::Put { key, content_type, metadata, .. }) => {
            assert_eq!(key, "u1/v1_thumbnail.png");
            assert_eq!(content_type, "image/png");
            assert_eq!(metadata.len(), 0);
        }
        other => panic!("not a call to the store: {:?}", other),
    }
    assert!(writes[2].expires.is_none());
    assert!(writes[3].expires.is_none());
    assert_eq!(writes[3].object, ObjectKind::Thumbnail);
}

#[test]
fn first_phase_of_sensitive_content_stays_restricted() {
    let config = config();
    let s3 = S3Client::new(&config);
    let relay = handler_raw_upload_initial(&s3, &config, &initial(true), "T")
        .expect("pending metadata is text");
    let writes = relay.writes();
    assert_eq!(writes.len(), 2);
    for write in writes.iter() {
        assert_eq!(write.sink.kind, SinkKind::Process);
        assert_eq!(write.sink.destination_root, "yral-nsfw-videos");
        assert_eq!(write.sink.credential, "grant-nsfw");
    }
    assert_eq!(args_of(&writes[0])[10], "sj://yral-nsfw-videos/u1/v1.mp4");
}

#[test]
fn first_phase_answers_pending() {
    let response = pending_response();
    assert_eq!(response.status, 200);
    assert_eq!(response.body.len(), 3);
    assert_eq!(response.body[0].0, "status");
    assert_eq!(text_of(&response.body[0].1), "pending");
    assert_eq!(response.body[1].0, "expires_in_hours");
    assert!(matches!(response.body[1].1, Field::Number(1)));
    assert_eq!(response.body[2].0, "message");
    assert_eq!(
        text_of(&response.body[2].1),
        "Video uploaded successfully. Call /duplicate_raw/finalize to complete the upload."
    );
}

#[test]
fn finalize_replaces_the_pending_metadata() {
    let config = config();
    let s3 = S3Client::new(&config);
    let first = handler_raw_upload_initial(&s3, &config, &initial(false), "T")
        .expect("pending metadata is text");
    let second = finalize_relay(&s3, &config, &finalize_params(false), &finalize_body().metadata)
        .expect("metadata is text");
    assert_eq!(first.writes().len(), second.writes().len());
    for (pending, stays) in first.writes().iter().zip(second.writes().iter()) {
        assert_eq!(pending.sink.kind, stays.sink.kind);
        assert_eq!(pending.sink.destination_root, stays.sink.destination_root);
        assert_eq!(pending.key, stays.key);
        assert_eq!(pending.object, stays.object);
        assert!(stays.expires.is_none());
        if stays.object == ObjectKind::Video {
            let metadata = stays.metadata.as_ref().expect("the video carries metadata");
            assert_eq!(metadata.len(), 1);
            assert_eq!(metadata.get("title"), Some(&"cat".to_string()));
            assert_eq!(metadata.get("_pending"), None);
        }
    }
    assert_eq!(
        args_of(&second.writes()[0]),
        vec![
            "cp",
            "--interactive=false",
            "--analytics=false",
            "--progress=false",
            "--metadata={\"title\":\"cat\"}",
            "--access",
            "grant-sfw",
            "-",
            "sj://yral-videos/u1/v1.mp4",
        ]
    );
    assert_eq!(
        args_of(&second.writes()[1]),
        vec![
            "cp",
            "--interactive=false",
            "--analytics=false",
            "--progress=false",
            "--access",
            "grant-sfw",
            "-",
            "sj://yral-videos/u1/v1_thumbnail.png",
        ]
    );
}

#[test]
fn thumbnail_is_tried_at_one_second_then_at_the_start() {
    let first = thumbnail_command(ThumbnailAttempt::AtOneSecond);
    assert_eq!(first.program, "ffmpeg");
    assert_eq!(
        first.args,
        vec!["-i", "pipe:0", "-ss", "00:00:01", "-vframes", "1", "-f", "image2pipe", "-vcodec",
            "png", "pipe:1"]
    );
    assert_eq!((first.stdin, first.stdout, first.stderr), (Pipe::Piped, Pipe::Piped, Pipe::Null));
    let second = thumbnail_command(ThumbnailAttempt::AtStart);
    assert_eq!(
        second.args,
        vec!["-i", "pipe:0", "-vframes", "1", "-f", "image2pipe", "-vcodec", "png", "pipe:1"]
    );

    match extract_thumbnail(ThumbnailAttempt::AtOneSecond, true, vec![1, 2, 3]) {
        Thumbnail::Ready(image) => assert_eq!(image, vec![1, 2, 3]),
        other => panic!("not ready: {:?}", other),
    }
    for (succeeded, output) in [(false, vec![1u8]), (true, vec![]), (false, vec![])] {
        match extract_thumbnail(ThumbnailAttempt::AtOneSecond, succeeded, output) {
            Thumbnail::Retry(command) => assert_eq!(command.args, second.args),
            other => panic!("not tried again: {:?}", other),
        }
    }
    match extract_thumbnail(ThumbnailAttempt::AtStart, false, vec![9]) {
        Thumbnail::Ready(image) => assert_eq!(image, vec![9]),
        other => panic!("not ready: {:?}", other),
    }
    for succeeded in [false, true] {
        match extract_thumbnail(ThumbnailAttempt::AtStart, succeeded, vec![]) {
            Thumbnail::Failed(Error::Io(report)) => {
                assert_eq!(report, "Failed to extract thumbnail from video")
            }
            other => panic!("not failed: {:?}", other),
        }
    }
}

#[test]
fn finalize_names_its_files_and_commands() {
    let config = config();
    assert_eq!(temp_file("u1", "v1", ObjectKind::Video), "/tmp/storj-finalize-u1-v1.mp4");
    assert_eq!(
        temp_file("u1", "v1", ObjectKind::Thumbnail),
        "/tmp/storj-finalize-u1-v1_thumbnail.png"
    );
    let command = fetch_command(&config, &finalize_params(true), ObjectKind::Thumbnail);
    assert_eq!(
        command.args,
        vec![
            "cp",
            "--interactive=false",
            "--analytics=false",
            "--progress=false",
            "--access",
            "grant-nsfw",
            "sj://yral-nsfw-videos/u1/v1_thumbnail.png",
            "/tmp/storj-finalize-u1-v1_thumbnail.png",
        ]
    );
    assert_eq!(command.stderr, Pipe::Piped);
    assert_eq!(
        download_failure(ObjectKind::Video, "timeout"),
        "Failed to download video from Storj after 3 retries. Last error: timeout"
    );
    assert_eq!(
        download_failure(ObjectKind::Thumbnail, ""),
        "Failed to download thumbnail from Storj after 3 retries. Last error: "
    );
    assert_eq!(MAX_DOWNLOAD_ATTEMPTS, 3);
    assert_eq!(RETRY_DELAY_SECS, 2);
}

struct Driver {
    config: Config,
    s3: S3Client,
    params: RawFinalizeParams,
    body: RawFinalizeBody,
}

impl Driver {
    fn new(is_nsfw: bool) -> Self {
        let config = config();
        let s3 = S3Client::new(&config);
        Driver { config, s3, params: finalize_params(is_nsfw), body: finalize_body() }
    }

    fn step(&self, state: Finalize, event: FinalizeEvent) -> (Finalize, FinalizeAction) {
        handler_raw_finalize(&self.s3, &self.config, &self.params, &self.body, state, event)
    }
}

fn exited(succeeded: bool, stderr: &str) -> FinalizeEvent {
    FinalizeEvent::Exited { succeeded, stderr: stderr.to_string() }
}

const VIDEO_FILE: &str = "/tmp/storj-finalize-u1-v1.mp4";
const IMAGE_FILE: &str = "/tmp/storj-finalize-u1-v1_thumbnail.png";

fn expect_io_failure(action: FinalizeAction, files: &[&str], expected: &str) {
    match action {
        FinalizeAction::Finish { remove, result: Err(Error::Io(report)) } => {
            assert_eq!(remove, files);
            assert_eq!(report, expected);
        }
        other => panic!("not a failure: {:?}", other),
    }
}

#[test]
fn finalize_runs_from_download_to_answer() {
    let driver = Driver::new(false);
    let (state, action) = Finalize::start(&driver.config, &driver.params);
    assert_eq!(state.phase, FinalizePhase::FetchVideo);
    assert_eq!(state.attempt, 1);
    match action {
        FinalizeAction::Run { command, after_secs } => {
            assert_eq!(after_secs, 0);
            assert_eq!(command.args[6], "sj://yral-videos/u1/v1.mp4");
            assert_eq!(command.args[7], VIDEO_FILE);
        }
        other => panic!("not a process: {:?}", other),
    }
    let (state, action) = driver.step(state, exited(true, ""));
    assert_eq!(state.phase, FinalizePhase::CheckVideo);
    assert!(matches!(action, FinalizeAction::CheckFile(path) if path == VIDEO_FILE));
    let (state, action) = driver.step(state, FinalizeEvent::Exists(true));
    assert_eq!(state.phase, FinalizePhase::FetchThumbnail);
    assert_eq!(state.attempt, 1);
    match action {
        FinalizeAction::Run { command, after_secs } => {
            assert_eq!(after_secs, 0);
            assert_eq!(command.args[6], "sj://yral-videos/u1/v1_thumbnail.png");
        }
        other => panic!("not a process: {:?}", other),
    }
    let (state, action) = driver.step(state, exited(true, ""));
    assert_eq!(state.phase, FinalizePhase::CheckThumbnail);
    assert!(matches!(action, FinalizeAction::CheckFile(path) if path == IMAGE_FILE));
    let (state, action) = driver.step(state, FinalizeEvent::Exists(true));
    assert_eq!(state.phase, FinalizePhase::ReadVideo);
    assert!(matches!(action, FinalizeAction::ReadFile { path, object: ObjectKind::Video } if path == VIDEO_FILE));
    let (state, action) = driver.step(state, FinalizeEvent::Loaded);
    assert_eq!(state.phase, FinalizePhase::ReadThumbnail);
    assert!(matches!(action, FinalizeAction::ReadFile { path, object: ObjectKind::Thumbnail } if path == IMAGE_FILE));
    let (state, action) = driver.step(state, FinalizeEvent::Loaded);
    assert_eq!(state.phase, FinalizePhase::Upload);
    match action {
        FinalizeAction::Upload(relay) => {
            assert_eq!(relay.writes().len(), 4);
            assert!(!relay.is_complete());
        }
        other => panic!("not an upload: {:?}", other),
    }
    let (state, action) = driver.step(state, FinalizeEvent::Settled(Ok(())));
    assert_eq!(state.phase, FinalizePhase::Done);
    match action {
        FinalizeAction::Finish { remove, result: Ok(response) } => {
            assert_eq!(remove, vec![VIDEO_FILE, IMAGE_FILE]);
            assert_eq!(response.status, 200);
            assert_eq!(text_of(&response.body[0].1), "completed");
            assert_eq!(
                text_of(&response.body[1].1),
                "Video finalized successfully with metadata."
            );
        }
        other => panic!("not an answer: {:?}", other),
    }
    let (state, action) = driver.step(state, FinalizeEvent::Loaded);
    assert_eq!(state.phase, FinalizePhase::Done);
    expect_io_failure(action, &[], "the event does not fit the state of the request");
}

#[test]
fn finalize_fails_when_the_third_download_has_failed() {
    let driver = Driver::new(true);
    let (state, _) = Finalize::start(&driver.config, &driver.params);
    let mut runs = 1;
    let (state, action) = driver.step(state, exited(false, "first"));
    assert_eq!((state.phase, state.attempt), (FinalizePhase::FetchVideo, 2));
    assert_eq!(state.last_error, "first");
    match action {
        FinalizeAction::Run { command, after_secs } => {
            runs += 1;
            assert_eq!(after_secs, 2);
            assert_eq!(command.args[5], "grant-nsfw");
            assert_eq!(command.args[6], "sj://yral-nsfw-videos/u1/v1.mp4");
        }
        other => panic!("not a process: {:?}", other),
    }
    let (state, action) = driver.step(state, exited(false, "second"));
    assert_eq!((state.phase, state.attempt), (FinalizePhase::FetchVideo, 3));
    assert!(matches!(action, FinalizeAction::Run { after_secs: 2, .. }));
    runs += 1;
    let (state, action) = driver.step(state, exited(false, "third"));
    assert_eq!(runs, 3);
    assert_eq!(state.phase, FinalizePhase::Done);
    expect_io_failure(
        action,
        &[VIDEO_FILE],
        "Failed to download video from Storj after 3 retries. Last error: third",
    );
    let (state, action) = driver.step(state, FinalizeEvent::Exists(true));
    assert_eq!(state.phase, FinalizePhase::Done);
    expect_io_failure(action, &[], "the event does not fit the state of the request");
}

#[test]
fn finalize_stops_trying_once_a_download_succeeds() {
    let driver = Driver::new(true);
    let (state, _) = Finalize::start(&driver.config, &driver.params);
    let (state, _) = driver.step(state, exited(false, "1"));
    let (state, action) = driver.step(state, exited(true, ""));
    assert_eq!(state.phase, FinalizePhase::CheckVideo);
    assert_eq!(state.last_error, "1");
    assert!(matches!(action, FinalizeAction::CheckFile(path) if path == VIDEO_FILE));
    let (state, action) = driver.step(state, FinalizeEvent::Exists(true));
    assert_eq!((state.phase, state.attempt), (FinalizePhase::FetchThumbnail, 1));
    assert_eq!(state.last_error, "");
    assert!(matches!(action, FinalizeAction::Run { after_secs: 0, .. }));
    let (state, _) = driver.step(state, exited(false, "t1"));
    let (state, _) = driver.step(state, exited(false, "t2"));
    let (state, action) = driver.step(state, exited(false, "t3"));
    assert_eq!(state.phase, FinalizePhase::Done);
    expect_io_failure(
        action,
        &[VIDEO_FILE, IMAGE_FILE],
        "Failed to download thumbnail from Storj after 3 retries. Last error: t3",
    );
}

#[test]
fn finalize_fails_where_a_fetched_file_is_not_there() {
    let driver = Driver::new(true);
    let (state, _) = Finalize::start(&driver.config, &driver.params);
    let (state, _) = driver.step(state, exited(false, "slow"));
    let (state, _) = driver.step(state, exited(true, ""));
    let (state, action) = driver.step(state, FinalizeEvent::Exists(false));
    assert_eq!(state.phase, FinalizePhase::Done);
    expect_io_failure(
        action,
        &[VIDEO_FILE],
        "Failed to download video from Storj after 3 retries. Last error: slow",
    );
    let checking =
        Finalize { phase: FinalizePhase::CheckThumbnail, attempt: 1, last_error: String::new() };
    let (state, action) = driver.step(checking, FinalizeEvent::Exists(false));
    assert_eq!(state.phase, FinalizePhase::Done);
    expect_io_failure(
        action,
        &[VIDEO_FILE, IMAGE_FILE],
        "Failed to download thumbnail from Storj after 3 retries. Last error: ",
    );
}

#[test]
fn finalize_removes_its_files_on_every_failure() {
    let driver = Driver::new(true);
    let (state, _) = Finalize::start(&driver.config, &driver.params);
    let (state, action) = driver.step(state, FinalizeEvent::Failed("no such program".to_string()));
    assert_eq!(state.phase, FinalizePhase::Done);
    expect_io_failure(action, &[VIDEO_FILE], "no such program");

    let upload = Finalize { phase: FinalizePhase::Upload, attempt: 1, last_error: String::new() };
    let (state, action) =
        driver.step(upload, FinalizeEvent::Settled(Err(Error::S3("denied".to_string()))));
    assert_eq!(state.phase, FinalizePhase::Done);
    match action {
        FinalizeAction::Finish { remove, result: Err(Error::S3(report)) } => {
            assert_eq!(remove, vec![VIDEO_FILE, IMAGE_FILE]);
            assert_eq!(report, "denied");
        }
        other => panic!("not the failure of the upload: {:?}", other),
    }

    let reading = Finalize { phase: FinalizePhase::ReadVideo, attempt: 1, last_error: String::new() };
    let (_, action) = driver.step(reading, FinalizeEvent::Failed("unreadable".to_string()));
    expect_io_failure(action, &[VIDEO_FILE, IMAGE_FILE], "unreadable");

    let reading = Finalize { phase: FinalizePhase::ReadVideo, attempt: 1, last_error: String::new() };
    let (state, action) = driver.step(reading, FinalizeEvent::Exists(true));
    assert_eq!(state.phase, FinalizePhase::Done);
    expect_io_failure(
        action,
        &[VIDEO_FILE, IMAGE_FILE],
        "the event does not fit the state of the request",
    );

    let fetching = Finalize { phase: FinalizePhase::FetchVideo, attempt: 1, last_error: String::new() };
    let (_, action) = driver.step(fetching, FinalizeEvent::Settled(Ok(())));
    expect_io_failure(action, &[VIDEO_FILE], "the event does not fit the state of the request");

    for phase in [FinalizePhase::FetchVideo, FinalizePhase::CheckVideo] {
        assert_eq!(files_to_remove(&driver.params, phase), vec![VIDEO_FILE]);
    }
    for phase in [
        FinalizePhase::FetchThumbnail,
        FinalizePhase::CheckThumbnail,
        FinalizePhase::ReadVideo,
        FinalizePhase::ReadThumbnail,
        FinalizePhase::Upload,
    ] {
        assert_eq!(files_to_remove(&driver.params, phase), vec![VIDEO_FILE, IMAGE_FILE]);
    }
    assert!(files_to_remove(&driver.params, FinalizePhase::Done).is_empty());
}

#[test]
fn finalize_of_sensitive_content_uploads_to_the_restricted_partition_only() {
    let driver = Driver::new(true);
    let reading = Finalize { phase: FinalizePhase::ReadThumbnail, attempt: 1, last_error: String::new() };
    let (state, action) = driver.step(reading, FinalizeEvent::Loaded);
    assert_eq!(state.phase, FinalizePhase::Upload);
    match action {
        FinalizeAction::Upload(relay) => {
            assert_eq!(relay.writes().len(), 2);
            for write in relay.writes().iter() {
                assert_eq!(write.sink.destination_root, "yral-nsfw-videos");
            }
        }
        other => panic!("not an upload: {:?}", other),
    }
    assert_eq!(completed_response().status, 200);
}

type Stored = (Vec<u8>, Vec<(String, String)>, Option<String>);

/// Writes every object of a relay into `store`, as sinks that never fail
/// would, and reports the writes to the relay in the given order.
fn store_all(
    mut relay: video_relay::relay::Relay<Error>,
    order: &[usize],
    video: &[u8],
    thumbnail: &[u8],
    store: &mut std::collections::HashMap<(SinkKind, String, String), Stored>,
) {
    for &index in order {
        {
            let write = &relay.writes()[index];
            let bytes = if write.object == ObjectKind::Thumbnail { thumbnail } else { video };
            let mut metadata = match &write.metadata {
                Some(m) => m.pairs().clone(),
                None => Vec::new(),
            };
            metadata.sort();
            store.insert(
                (write.sink.kind, write.sink.destination_root.clone(), write.key.clone()),
                (bytes.to_vec(), metadata, write.expires.clone()),
            );
        }
        assert!(relay.settle(index, Ok(())));
    }
    let outcome = relay.finish().ok().expect("every write has settled");
    assert!(outcome.into_result().is_ok());
}

#[test]
fn pending_object_is_marked_until_it_is_finalized() {
    let config = config();
    let s3 = S3Client::new(&config);
    let mut store = std::collections::HashMap::new();
    let video = b"raw video".to_vec();
    let thumbnail = b"png".to_vec();
    let in_storj = (SinkKind::Process, "yral-videos".to_string(), "u1/v1.mp4".to_string());
    let in_mirror = (SinkKind::SdkClient, "mirror".to_string(), "u1/v1.mp4".to_string());

    let first = handler_raw_upload_initial(&s3, &config, &initial(false), "T")
        .expect("pending metadata is text");
    store_all(first, &[2, 0, 3, 1], &video, &thumbnail, &mut store);
    assert_eq!(store.len(), 4);
    let pending = vec![
        ("_pending".to_string(), "true".to_string()),
        ("_uploaded_at".to_string(), "T".to_string()),
    ];
    assert_eq!(store.get(&in_storj), Some(&(video.clone(), pending.clone(), Some("+1h".to_string()))));
    assert_eq!(store.get(&in_mirror), Some(&(video.clone(), pending, None)));

    let read_back = store.get(&in_storj).expect("the pending video is there").0.clone();
    let second = finalize_relay(&s3, &config, &finalize_params(false), &finalize_body().metadata)
        .expect("metadata is text");
    store_all(second, &[1, 3, 0, 2], &read_back, &thumbnail, &mut store);
    assert_eq!(store.len(), 4);
    let stays = vec![("title".to_string(), "cat".to_string())];
    assert_eq!(store.get(&in_storj), Some(&(video.clone(), stays.clone(), None)));
    assert_eq!(store.get(&in_mirror), Some(&(video.clone(), stays, None)));
    let image = (SinkKind::Process, "yral-videos".to_string(), "u1/v1_thumbnail.png".to_string());
    assert_eq!(store.get(&image), Some(&(thumbnail.clone(), Vec::new(), None)));
}

#[test]
fn single_writes_of_the_two_phases() {
    let config = config();
    let s3 = S3Client::new(&config);
    let metadata = Metadata::from_pairs(vec![("k".to_string(), "v".to_string())]);
    let video = video_relay::routes::duplicate::upload_to_storj_with_ttl(
        &config, "o", "v", &metadata, "+2h", false,
    )
    .expect("metadata is text");
    assert_eq!(
        args_of(&video),
        vec![
            "cp",
            "--interactive=false",
            "--analytics=false",
            "--progress=false",
            "--metadata={\"k\":\"v\"}",
            "--expires",
            "+2h",
            "--access",
            "grant-sfw",
            "-",
            "sj://yral-videos/o/v.mp4",
        ]
    );
    assert_eq!(video.expires.as_deref(), Some("+2h"));
    let image = video_relay::routes::duplicate::upload_thumbnail_to_storj(&config, "o", "v", true);
    assert_eq!(args_of(&image)[7], "sj://yral-nsfw-videos/o/v_thumbnail.png");
    assert!(image.expires.is_none());
    let image = video_relay::routes::duplicate::upload_thumbnail_to_storj_with_ttl(
        &config, "o", "v", "+1h", true,
    );
    assert_eq!(args_of(&image)[4], "--expires");
    assert_eq!(args_of(&image)[5], "+1h");
    let mirrored = video_relay::routes::duplicate::upload_thumbnail_to_s3(&s3, "o", "v");
    assert_eq!(mirrored.key, "o/v_thumbnail.png");
    assert!(mirrored.metadata.is_none());
}
