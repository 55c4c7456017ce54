use std::collections::HashMap;

use video_relay::consts::{Config, Environment};
use video_relay::http::{Field, Method, Response};
use video_relay::move2nsfw::Args;
use video_relay::mover::{Move, MoveAction, MoveItem};
use video_relay::process::Pipe;
use video_relay::routes::move2nsfw as mirror;
use video_relay::routes::sia::move2nsfw as worker;
use video_relay::routes::sia::{AuthError, RenterdConfig};
use video_relay::routes::storj::move2nsfw as storj;
use video_relay::s3_client::{S3Client, S3Request};
use video_relay::sink::{ObjectKind, SinkKind, SinkRequest};

fn config() -> Config {
    Config::from_environment(Environment {
        sfw_bucket: None,
        storj_access_grant_sfw: Some("grant-sfw".to_string()),
        nsfw_bucket: None,
        storj_access_grant_nsfw: Some("grant-nsfw".to_string()),
        hetzner_s3_endpoint: Some("https://s3.example".to_string()),
        hetzner_s3_bucket: Some("mirror".to_string()),
        hetzner_s3_access_key: Some("access".to_string()),
        hetzner_s3_secret_key: Some("secret".to_string()),
        hetzner_s3_region: None,
        service_secret_token: Some("hunter2".to_string()),
    })
    .expect("every required variable is set")
}

fn renterd() -> RenterdConfig {
    RenterdConfig {
        renterd_api_password: "1234".to_string(),
        renterd_api_url_sfw: "http://localhost:9980".to_string(),
        renterd_api_url_nsfw: "http://localhost:9981".to_string(),
        sia_bucket_sfw: "sfw".to_string(),
        sia_bucket_nsfw: "nsfw".to_string(),
    }
}

fn request() -> Args {
    Args { publisher_user_id: "u1".to_string(), video_id: "v1".to_string() }
}

fn message_of(response: &Response) -> &str {
    match &response.body[0].1 {
        Field::Text(text) => text,
        other => panic!("not text: {:?}", other),
    }
}

/// Stores that hold bytes by kind, root and key, and fail the operations
/// they are told to fail.
struct Stores {
    objects: HashMap<(SinkKind, String, String), Vec<u8>>,
    fail_read: bool,
    fail_write: Option<usize>,
    fail_delete: Option<usize>,
    log: Vec<String>,
}

impl Stores {
    fn holding(items: &[MoveItem], body: &[u8]) -> Self {
        let mut objects = HashMap::new();
        for item in items {
            objects.insert(
                (item.source.kind, item.source.destination_root.clone(), item.key.clone()),
                body.to_vec(),
            );
        }
        Stores { objects, fail_read: false, fail_write: None, fail_delete: None, log: Vec::new() }
    }

    fn has(&self, kind: SinkKind, root: &str, key: &str) -> Option<&Vec<u8>> {
        self.objects.get(&(kind, root.to_string(), key.to_string()))
    }
}

/// Runs a move to its end and says whether each operation succeeded.
fn drive<E>(
    mut moving: Move<E>,
    first: MoveAction,
    stores: &mut Stores,
    fail: impl Fn(&str, usize) -> E,
) -> Result<Vec<usize>, E> {
    let mut action = first;
    let mut held: HashMap<usize, Vec<u8>> = HashMap::new();
    loop {
        let result = match action {
            MoveAction::Read { index, after_secs } => {
                assert_eq!(after_secs, 0);
                stores.log.push(format!("read {}", index));
                let item = &moving.items()[index];
                let at = (item.source.kind, item.source.destination_root.clone(), item.key.clone());
                match stores.objects.get(&at) {
                    Some(bytes) if !stores.fail_read => {
                        held.insert(index, bytes.clone());
                        Ok(())
                    }
                    _ => Err(fail("read", index)),
                }
            }
            MoveAction::Write { index } => {
                stores.log.push(format!("write {}", index));
                if stores.fail_write == Some(index) {
                    Err(fail("write", index))
                } else {
                    let write = &moving.items()[index].write;
                    stores.objects.insert(
                        (write.sink.kind, write.sink.destination_root.clone(), write.key.clone()),
                        held[&index].clone(),
                    );
                    Ok(())
                }
            }
            MoveAction::Delete { index } => {
                stores.log.push(format!("delete {}", index));
                if stores.fail_delete == Some(index) {
                    Err(fail("delete", index))
                } else {
                    let item = &moving.items()[index];
                    stores.objects.remove(&(
                        item.source.kind,
                        item.source.destination_root.clone(),
                        item.key.clone(),
                    ));
                    Ok(())
                }
            }
            MoveAction::Finish => break,
        };
        action = moving.step(result);
    }
    assert!(moving.is_done());
    match moving.finish() {
        Ok(result) => result.map(|report| report.strays),
        Err(_) => panic!("the move has ended"),
    }
}

#[test]
fn worker_move_takes_the_video_from_general_to_restricted() {
    let config = renterd();
    let (moving, first) = worker::handler(&config, &request(), "tok-sfw", "tok-nsfw");
    assert_eq!(first, MoveAction::Read { index: 0, after_secs: 0 });
    let mut stores = Stores::holding(moving.items(), b"video");
    let result = drive(moving, first, &mut stores, |_, _| worker::Error::Renterd(500));
    assert_eq!(result.ok(), Some(vec![]));
    assert_eq!(
        stores.has(SinkKind::HttpEndpoint, "http://localhost:9981/nsfw", "u1/v1.mp4"),
        Some(&b"video".to_vec())
    );
    assert_eq!(stores.has(SinkKind::HttpEndpoint, "http://localhost:9980/sfw", "u1/v1.mp4"), None);
    assert_eq!(stores.log, vec!["read 0", "write 0", "delete 0"]);
}

#[test]
fn worker_move_leaves_the_source_where_the_write_fails() {
    let config = renterd();
    let (moving, first) = worker::handler(&config, &request(), "tok-sfw", "tok-nsfw");
    let mut stores = Stores::holding(moving.items(), b"video");
    stores.fail_write = Some(0);
    let result = drive(moving, first, &mut stores, |_, _| worker::Error::Renterd(507));
    assert!(matches!(result, Err(worker::Error::Renterd(507))));
    assert_eq!(
        stores.has(SinkKind::HttpEndpoint, "http://localhost:9980/sfw", "u1/v1.mp4"),
        Some(&b"video".to_vec())
    );
    assert_eq!(stores.has(SinkKind::HttpEndpoint, "http://localhost:9981/nsfw", "u1/v1.mp4"), None);
    assert_eq!(stores.log, vec!["read 0", "write 0"]);
}

#[test]
fn worker_move_succeeds_with_a_stray_where_the_delete_fails() {
    let config = renterd();
    let (moving, first) = worker::handler(&config, &request(), "tok-sfw", "tok-nsfw");
    let mut stores = Stores::holding(moving.items(), b"video");
    stores.fail_delete = Some(0);
    let result = drive(moving, first, &mut stores, |_, _| worker::Error::Renterd(500));
    assert_eq!(result.ok(), Some(vec![0]));
    assert!(stores.has(SinkKind::HttpEndpoint, "http://localhost:9981/nsfw", "u1/v1.mp4").is_some());
    assert!(stores.has(SinkKind::HttpEndpoint, "http://localhost:9980/sfw", "u1/v1.mp4").is_some());
}

#[test]
fn worker_move_fails_where_the_video_is_not_there() {
    let config = renterd();
    let (moving, first) = worker::handler(&config, &request(), "tok-sfw", "tok-nsfw");
    let mut stores = Stores::holding(&[], b"");
    let result = drive(moving, first, &mut stores, |_, _| worker::Error::NotFound);
    assert!(matches!(result, Err(worker::Error::NotFound)));
    assert!(stores.objects.is_empty());
    assert_eq!(stores.log, vec!["read 0"]);
}

#[test]
fn worker_move_sends_these_requests() {
    let config = renterd();
    let (moving, _) = worker::handler(&config, &request(), "tok-sfw", "tok-nsfw");
    let item = &moving.items()[0];
    assert_eq!(item.key, "u1/v1.mp4");
    match &item.read {
        SinkRequest::Send(get) => {
            assert_eq!(get.method, Method::Get);
            assert_eq!(get.url, "http://localhost:9980/api/worker/object/u1%2Fv1.mp4?bucket=sfw");
            assert_eq!(get.headers, vec![("Cookie".to_string(), "renterd_auth=tok-sfw".to_string())]);
            assert!(get.query.is_empty());
        }
        other => panic!("not a request: {:?}", other),
    }
    match &item.write.request {
        SinkRequest::Send(put) => {
            assert_eq!(put.method, Method::Put);
            assert_eq!(put.url, "http://localhost:9981/api/worker/object/u1%2Fv1.mp4?bucket=nsfw");
            assert_eq!(
                put.headers,
                vec![
                    ("Cookie".to_string(), "renterd_auth=tok-nsfw".to_string()),
                    ("Content-Type".to_string(), "video/mp4".to_string()),
                ]
            );
        }
        other => panic!("not a request: {:?}", other),
    }
    match &item.delete {
        SinkRequest::Send(delete) => {
            assert_eq!(delete.method, Method::Delete);
            assert_eq!(delete.url, "http://localhost:9980/api/worker/object/u1%2Fv1.mp4?bucket=sfw");
        }
        other => panic!("not a request: {:?}", other),
    }
    assert!(item.write.metadata.is_none());
    assert_eq!(item.write.object, ObjectKind::Video);
}

#[test]
fn worker_answers_are_read() {
    assert!(worker::worker_result(Ok(200)).is_ok());
    assert!(matches!(worker::worker_result(Ok(404)), Err(worker::Error::NotFound)));
    assert!(matches!(worker::worker_result(Ok(500)), Err(worker::Error::Renterd(500))));
    assert!(matches!(worker::worker_result(Ok(302)), Err(worker::Error::Renterd(302))));
    assert!(matches!(
        worker::worker_result(Err("reset".to_string())),
        Err(worker::Error::Network(report)) if report == "reset"
    ));
    assert!(worker::worker_result(Ok(204)).is_ok());
    assert!(matches!(worker::worker_result(Ok(500)), Err(worker::Error::Renterd(500))));
    assert!(matches!(
        worker::worker_result(Err("reset".to_string())),
        Err(worker::Error::Network(report)) if report == "reset"
    ));
    assert_eq!(worker::token(Ok("t".to_string())).ok(), Some("t".to_string()));
    match worker::token(Err(AuthError::Status(401))) {
        Err(worker::Error::Internal(report)) => {
            assert_eq!(report, "Failed to get auth token: HTTP 401 Unauthorized")
        }
        other => panic!("not an internal error: {:?}", other),
    }
}

#[test]
fn worker_move_is_answered() {
    let moved = worker::respond(&request(), Ok(video_relay::mover::MoveReport { strays: vec![0] }))
        .expect("the move succeeded");
    assert_eq!(moved.status, 200);
    assert_eq!(message_of(&moved), "Video moved to NSFW bucket successfully");
    assert_eq!(moved.body[1].0, "key");
    assert!(matches!(&moved.body[1].1, Field::Text(key) if key == "u1/v1.mp4"));
    assert!(matches!(
        worker::respond(&request(), Err(worker::Error::NotFound)),
        Err(worker::Error::NotFound)
    ));
    let cases: Vec<(worker::Error, u16, &str)> = vec![
        (worker::Error::NotFound, 404, "Video not found in SFW bucket"),
        (worker::Error::Renterd(404), 404, "Video not found in SFW bucket"),
        (worker::Error::Renterd(500), 500, "Failed to move object in Sia. Check server logs."),
        (worker::Error::Network("n".to_string()), 500, "Internal server error. Check server logs."),
        (worker::Error::Internal("i".to_string()), 500, "Internal server error. Check server logs."),
    ];
    for (error, status, message) in cases {
        let response = error.into_response();
        assert_eq!(response.status, status);
        assert_eq!(message_of(&response), message);
    }
    assert_eq!(worker::Error::NotFound.describe(), "Object not found in source bucket");
    assert_eq!(
        worker::Error::Renterd(507).describe(),
        "Renterd returned non-ok status (507 Insufficient Storage)"
    );
    assert_eq!(worker::Error::Network("n".to_string()).describe(), "n");
    assert_eq!(worker::Error::Internal("i".to_string()).describe(), "Internal error: i");
}

#[test]
fn mirror_move_takes_video_and_image_to_the_restricted_partition() {
    let config = config();
    let s3 = S3Client::new(&config);
    let (moving, first) = mirror::handler(&s3, &config, &request());
    assert_eq!(moving.items().len(), 2);
    let mut stores = Stores::holding(moving.items(), b"bytes");
    let result = drive(moving, first, &mut stores, |_, _| {
        mirror::Failure::Rejected { object: ObjectKind::Video, diagnostic: String::new() }
    });
    assert_eq!(result.ok(), Some(vec![]));
    assert_eq!(
        stores.log,
        vec!["read 0", "read 1", "write 0", "write 1", "delete 0", "delete 1"]
    );
    assert!(stores.has(SinkKind::Process, "yral-nsfw-videos", "u1/v1.mp4").is_some());
    assert!(stores.has(SinkKind::Process, "yral-nsfw-videos", "u1/v1_thumbnail.png").is_some());
    assert!(stores.has(SinkKind::SdkClient, "mirror", "u1/v1.mp4").is_none());
    assert!(stores.has(SinkKind::SdkClient, "mirror", "u1/v1_thumbnail.png").is_none());
}

#[test]
fn mirror_move_deletes_nothing_where_a_write_fails() {
    let config = config();
    let s3 = S3Client::new(&config);
    for failing in [0usize, 1] {
        let (moving, first) = mirror::handler(&s3, &config, &request());
        let mut stores = Stores::holding(moving.items(), b"bytes");
        stores.fail_write = Some(failing);
        let result = drive(moving, first, &mut stores, |_, index| {
            mirror::Failure::Rejected {
                object: if index == 0 { ObjectKind::Video } else { ObjectKind::Thumbnail },
                diagnostic: "denied".to_string(),
            }
        });
        let answer = mirror::respond(result.map(|strays| video_relay::mover::MoveReport { strays }))
            .expect("a rejection is answered");
        assert_eq!(answer.status, 500);
        assert_eq!(
            message_of(&answer),
            if failing == 0 {
                "Failed to upload video to Storj NSFW bucket. Check server logs."
            } else {
                "Failed to upload thumbnail to Storj NSFW bucket. Check server logs."
            }
        );
        assert_eq!(stores.has(SinkKind::SdkClient, "mirror", "u1/v1.mp4"), Some(&b"bytes".to_vec()));
        assert_eq!(
            stores.has(SinkKind::SdkClient, "mirror", "u1/v1_thumbnail.png"),
            Some(&b"bytes".to_vec())
        );
        assert!(!stores.log.iter().any(|entry| entry.starts_with("delete")));
        assert_eq!(
            stores.has(SinkKind::Process, "yral-nsfw-videos", "u1/v1.mp4").is_some(),
            failing == 1
        );
    }
}

#[test]
fn mirror_move_reports_strays_and_still_succeeds() {
    let config = config();
    let s3 = S3Client::new(&config);
    let (moving, first) = mirror::handler(&s3, &config, &request());
    let mut stores = Stores::holding(moving.items(), b"bytes");
    stores.fail_delete = Some(1);
    let result = drive(moving, first, &mut stores, |_, _| {
        mirror::Failure::Failed(mirror::Error::S3("denied".to_string()))
    });
    assert_eq!(result.as_ref().ok(), Some(&vec![1]));
    let answer = mirror::respond(result.map(|strays| video_relay::mover::MoveReport { strays }))
        .expect("the move succeeded");
    assert_eq!(answer.status, 200);
    assert_eq!(message_of(&answer), "moved");
    assert!(stores.has(SinkKind::SdkClient, "mirror", "u1/v1.mp4").is_none());
    assert!(stores.has(SinkKind::SdkClient, "mirror", "u1/v1_thumbnail.png").is_some());
}

#[test]
fn mirror_move_fails_where_a_read_fails() {
    let config = config();
    let s3 = S3Client::new(&config);
    let (moving, first) = mirror::handler(&s3, &config, &request());
    let mut stores = Stores::holding(moving.items(), b"bytes");
    stores.fail_read = true;
    let result = drive(moving, first, &mut stores, |_, _| {
        mirror::Failure::Failed(mirror::Error::S3("NoSuchKey".to_string()))
    });
    match mirror::respond(result.map(|strays| video_relay::mover::MoveReport { strays })) {
        Err(mirror::Error::S3(report)) => assert_eq!(report, "NoSuchKey"),
        other => panic!("not the mirror's failure: {:?}", other),
    }
    assert_eq!(stores.log, vec!["read 0"]);
    assert_eq!(stores.objects.len(), 2);
}

#[test]
fn mirror_move_names_its_operations() {
    let config = config();
    let s3 = S3Client::new(&config);
    let (moving, _) = mirror::handler(&s3, &config, &request());
    let items = moving.items();
    assert!(matches!(
        &items[0].read,
        SinkRequest::Store(S3Request::Get { bucket, key }) if bucket == "mirror" && key == "u1/v1.mp4"
    ));
    assert!(matches!(
        &items[1].delete,
        SinkRequest::Store(S3Request::Delete { bucket, key })
            if bucket == "mirror" && key == "u1/v1_thumbnail.png"
    ));
    match &items[1].write.request {
        SinkRequest::Run(command) => {
            assert_eq!(
                command.args,
                vec![
                    "cp",
                    "--interactive=false",
                    "--analytics=false",
                    "--progress=false",
                    "--access",
                    "grant-nsfw",
                    "-",
                    "sj://yral-nsfw-videos/u1/v1_thumbnail.png",
                ]
            );
            assert_eq!(command.stderr, Pipe::Piped);
        }
        other => panic!("not a process: {:?}", other),
    }
    assert_eq!(items[0].write.object, ObjectKind::Video);
    assert_eq!(items[1].write.object, ObjectKind::Thumbnail);
}

#[test]
fn mirror_results_and_answers() {
    assert!(mirror::s3_result(Ok(())).is_ok());
    assert!(matches!(
        mirror::s3_result(Err("x".to_string())),
        Err(mirror::Failure::Failed(mirror::Error::S3(report))) if report == "x"
    ));
    assert!(mirror::upload_result(ObjectKind::Video, Ok(true), String::new()).is_ok());
    match mirror::upload_result(ObjectKind::Thumbnail, Ok(false), "denied".to_string()) {
        Err(failure) => {
            assert_eq!(failure.describe(), "uplink command failed: denied");
            assert!(matches!(
                failure,
                mirror::Failure::Rejected { object: ObjectKind::Thumbnail, diagnostic }
                    if diagnostic == "denied"
            ));
        }
        Ok(()) => panic!("the tool exited with a failure"),
    }
    assert!(matches!(
        mirror::upload_result(ObjectKind::Video, Err("spawn".to_string()), String::new()),
        Err(mirror::Failure::Failed(mirror::Error::Io(report))) if report == "spawn"
    ));
    assert_eq!(mirror::Error::S3("x".to_string()).describe(), "S3 operation failed: x");
    assert_eq!(mirror::Error::Io("x".to_string()).describe(), "x");
    assert_eq!(
        mirror::Failure::Failed(mirror::Error::S3("y".to_string())).describe(),
        "S3 operation failed: y"
    );
    let io = mirror::Error::Io("x".to_string()).into_response();
    assert_eq!((io.status, message_of(&io)), (500, "Internal server error. Check server logs."));
    let s3 = mirror::Error::S3("x".to_string()).into_response();
    assert_eq!((s3.status, message_of(&s3)), (500, "S3 storage operation failed. Check server logs."));
}

#[test]
fn storj_move_runs_the_transfer_tool() {
    let config = config();
    let command = storj::handler(&config, &request());
    assert_eq!(command.program, "uplink");
    assert_eq!(
        command.args,
        vec![
            "mv",
            "--interactive=false",
            "--analytics=false",
            "--progress=false",
            "--access",
            "grant-sfw",
            "sj://yral-videos/u1/v1.mp4",
            "sj://yral-nsfw-videos/u1/v1.mp4",
        ]
    );
    assert_eq!(
        (command.stdin, command.stdout, command.stderr),
        (Pipe::Null, Pipe::Inherit, Pipe::Piped)
    );
    let moved = storj::respond(storj::move_result(Ok(true), String::new()));
    assert_eq!((moved.status, message_of(&moved)), (200, "moved"));
    let result = storj::move_result(Ok(false), "no such bucket".to_string());
    match &result {
        Err(storj::Error::Uplink(diagnostic)) => assert_eq!(diagnostic, "no such bucket"),
        other => panic!("not the tool's failure: {:?}", other),
    }
    assert_eq!(
        result.as_ref().err().map(|error| error.describe()),
        Some("uplink command failed: no such bucket".to_string())
    );
    let failed = storj::respond(result);
    assert_eq!(
        (failed.status, message_of(&failed)),
        (500, "uplink exitted with an error. Check server logs.")
    );
    match storj::move_result(Err("no such file".to_string()), String::new()) {
        Err(storj::Error::Io(report)) => {
            assert_eq!(report, "no such file");
            assert_eq!(storj::Error::Io(report.clone()).describe(), "no such file");
            let response = storj::respond(Err(storj::Error::Io(report)));
            assert_eq!(
                (response.status, message_of(&response)),
                (500, "Internal server error. Check server logs.")
            );
        }
        other => panic!("not an error: {:?}", other),
    }
}

fn one_item() -> MoveItem {
    let config = config();
    let s3 = S3Client::new(&config);
    MoveItem {
        source: s3.sink(),
        key: "k".to_string(),
        read: SinkRequest::Store(s3.download_video("k")),
        write: video_relay::uplink::write(
            config.storj_sink(true),
            "k".to_string(),
            ObjectKind::Video,
            None,
            None,
            false,
        ),
        delete: SinkRequest::Store(s3.delete_video("k")),
    }
}

#[test]
fn move_retries_a_read_as_often_as_it_is_told() {
    let (mut moving, first): (Move<&str>, MoveAction) = Move::new(vec![one_item()], 3, 2);
    assert_eq!(first, MoveAction::Read { index: 0, after_secs: 0 });
    assert_eq!(moving.step(Err("one")), MoveAction::Read { index: 0, after_secs: 2 });
    assert_eq!(moving.step(Err("two")), MoveAction::Read { index: 0, after_secs: 2 });
    assert!(!moving.is_done());
    moving = match moving.finish() {
        Err(unfinished) => unfinished,
        Ok(_) => panic!("the move has not ended"),
    };
    assert_eq!(moving.step(Err("three")), MoveAction::Finish);
    assert!(moving.is_done());
    assert_eq!(moving.step(Ok(())), MoveAction::Finish);
    match moving.finish() {
        Ok(Err(error)) => assert_eq!(error, "three"),
        _ => panic!("the move failed at its third read"),
    }
}

#[test]
fn move_goes_on_after_a_read_that_succeeds_late() {
    let (mut moving, _): (Move<&str>, MoveAction) = Move::new(vec![one_item()], 3, 2);
    assert_eq!(moving.step(Err("one")), MoveAction::Read { index: 0, after_secs: 2 });
    assert_eq!(moving.step(Ok(())), MoveAction::Write { index: 0 });
    assert_eq!(moving.step(Ok(())), MoveAction::Delete { index: 0 });
    assert_eq!(moving.step(Ok(())), MoveAction::Finish);
    match moving.finish() {
        Ok(Ok(report)) => assert!(report.strays.is_empty()),
        _ => panic!("the move succeeded"),
    }
}

#[test]
fn move_of_nothing_ends_at_once() {
    let (moving, first): (Move<()>, MoveAction) = Move::new(Vec::new(), 1, 0);
    assert_eq!(first, MoveAction::Finish);
    assert!(moving.is_done());
    match moving.finish() {
        Ok(Ok(report)) => assert!(report.strays.is_empty()),
        _ => panic!("nothing was to be moved"),
    }
}
