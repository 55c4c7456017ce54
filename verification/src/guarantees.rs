//! What the service guarantees of its relays, of the two-phase upload, of
//! its moves and of the token cache, stated over the model of the stores
//! and proved from the contracts of the functions that decide.

use vstd::prelude::*;
use crate::consts::Config;
use crate::duplicate::Args;
use crate::keys::{lemma_keys_differ, video_key_text};
use crate::mover::{lemma_move_of_one, lemma_move_of_two, move_of_one_holds, move_of_two_holds,
    MoveItem};
use crate::relay::{lemma_relay, lemma_relay_of_one, lemma_relay_of_two, relay_holds,
    relay_of_one_holds, relay_of_two_holds, reported, reports_once, settled_by, world_by,
    RelayModel};
use crate::routes::duplicate::{download_failure_text, fails_with_io, finalize_next,
    finalize_writes, local_files, pending_expiry_text, pending_metadata_model, pending_writes,
    phase_object, relay_writes, Error, Finalize, FinalizeAction, FinalizeEvent, FinalizePhase,
    RawFinalizeBody, RawFinalizeParams, RawUploadInitialParams, MAX_DOWNLOAD_ATTEMPTS};
use crate::text::texts;
use crate::routes::duplicate_hls::{segment_writes, HlsUploadParams};
use crate::routes::sia::duplicate::upload_write;
use crate::routes::sia::{expiry, RenterdConfig, SiaTokensModel, TOKEN_CACHE_MS};
use crate::s3_client::S3Client;
use crate::sia_client::{SiaClientModel, SiaError};
use crate::sink::{distinct_locations, location_of, write_models, Location, ObjectKind, Payloads,
    SinkKind, SinkWrite, StoredObject, World};

verus! {

/// A relay request for content that is not sensitive has two writes, one to
/// the general partition and one to the mirror. In whichever order the two
/// settle, the request succeeds where both succeed. Where one fails, the
/// request fails with the failure that was seen first, and the object of
/// the write that succeeded is in its sink all the same.
pub proof fn lemma_general_relay_reaches_both_sinks(
    s3_client: S3Client,
    config: Config,
    args: Args,
    metadata_json: Seq<char>,
    writes: Seq<SinkWrite>,
    world: World,
    payloads: Payloads,
    first: int,
    first_result: Result<(), Error>,
    second_result: Result<(), Error>,
)
    requires
        !args.is_nsfw,
        write_models(writes) == relay_writes(s3_client, config, args, metadata_json),
        first == 0 || first == 1,
    ensures
        writes.len() == 2,
        writes[0]@.sink == config.storj_sink_model(false),
        writes[1]@.sink == s3_client.sink_model(),
        relay_of_two_holds(writes, world, payloads, first, first_result, second_result),
{
    let models = write_models(writes);
    assert(models.len() == 2);
    assert(models[0] == writes[0]@);
    assert(models[1] == writes[1]@);
    assert(location_of(writes[0]@).kind == SinkKind::Process);
    assert(location_of(writes[1]@).kind == SinkKind::SdkClient);
    lemma_relay_of_two(writes, world, payloads, first, first_result, second_result);
}

/// The relay of one file of a segmented stream that is not sensitive has
/// two writes, one to the general partition and one to the mirror, and
/// behaves as `relay_of_two_holds` says, in whichever order the two settle.
pub proof fn lemma_general_segment_reaches_both_sinks(
    s3_client: S3Client,
    config: Config,
    params: HlsUploadParams,
    metadata_json: Seq<char>,
    writes: Seq<SinkWrite>,
    world: World,
    payloads: Payloads,
    first: int,
    first_result: Result<(), crate::routes::duplicate_hls::Error>,
    second_result: Result<(), crate::routes::duplicate_hls::Error>,
)
    requires
        !params.is_nsfw,
        write_models(writes) == segment_writes(s3_client, config, params, metadata_json),
        first == 0 || first == 1,
    ensures
        writes.len() == 2,
        writes[0]@.sink == config.storj_sink_model(false),
        writes[1]@.sink == s3_client.sink_model(),
        relay_of_two_holds(writes, world, payloads, first, first_result, second_result),
{
    let models = write_models(writes);
    assert(models.len() == 2);
    assert(models[0] == writes[0]@);
    assert(models[1] == writes[1]@);
    assert(location_of(writes[0]@).kind == SinkKind::Process);
    assert(location_of(writes[1]@).kind == SinkKind::SdkClient);
    lemma_relay_of_two(writes, world, payloads, first, first_result, second_result);
}

/// A relay request for sensitive content has one write, to the restricted
/// partition. Whatever becomes of it, no other place in any sink changes.
pub proof fn lemma_sensitive_relay_stays_restricted(
    s3_client: S3Client,
    config: Config,
    args: Args,
    metadata_json: Seq<char>,
    writes: Seq<SinkWrite>,
    world: World,
    payloads: Payloads,
    result: Result<(), Error>,
)
    requires
        args.is_nsfw,
        write_models(writes) == relay_writes(s3_client, config, args, metadata_json),
    ensures
        writes.len() == 1,
        writes[0]@.sink == config.storj_sink_model(true),
        location_of(writes[0]@) == (Location {
            kind: SinkKind::Process,
            root: config.yral_nsfw_videos@,
            key: video_key_text(args.publisher_user_id@, args.video_id@),
        }),
        relay_of_one_holds(writes, world, payloads, result),
{
    let models = write_models(writes);
    assert(models.len() == 1);
    assert(models[0] == writes[0]@);
    lemma_relay_of_one(writes, world, payloads, result);
}

/// On every route, each write that a request for sensitive content asks for
/// goes to the restricted partition: to its process-backed sink, or, on the
/// route of the storage workers, to its worker. The general partition and
/// the mirror are never named.
pub proof fn lemma_sensitive_writes_are_restricted(
    s3_client: S3Client,
    config: Config,
    renterd: RenterdConfig,
    args: Args,
    initial: RawUploadInitialParams,
    finalize: RawFinalizeParams,
    segment: HlsUploadParams,
    metadata: Map<Seq<char>, Seq<char>>,
    metadata_json: Seq<char>,
    token: Seq<char>,
)
    ensures
        args.is_nsfw ==> forall|i: int|
            0 <= i < relay_writes(s3_client, config, args, metadata_json).len() ==> (
            #[trigger] relay_writes(s3_client, config, args, metadata_json)[i]).sink
                == config.storj_sink_model(true),
        initial.is_nsfw ==> forall|i: int|
            0 <= i < pending_writes(s3_client, config, initial, metadata, metadata_json).len()
                ==> (#[trigger] pending_writes(
                s3_client,
                config,
                initial,
                metadata,
                metadata_json,
            )[i]).sink == config.storj_sink_model(true),
        finalize.is_nsfw ==> forall|i: int|
            0 <= i < finalize_writes(s3_client, config, finalize, metadata, metadata_json).len()
                ==> (#[trigger] finalize_writes(
                s3_client,
                config,
                finalize,
                metadata,
                metadata_json,
            )[i]).sink == config.storj_sink_model(true),
        segment.is_nsfw ==> forall|i: int|
            0 <= i < segment_writes(s3_client, config, segment, metadata_json).len() ==> (
            #[trigger] segment_writes(s3_client, config, segment, metadata_json)[i]).sink
                == config.storj_sink_model(true),
        args.is_nsfw ==> upload_write(renterd, args, token).sink == renterd.sink_model(true),
{
}

/// The places at which the video of a raw upload is filed: in the
/// process-backed sink of its partition and, where `mirrored`, in the mirror.
pub open spec fn video_place(
    s3_client: S3Client,
    config: Config,
    publisher_user_id: Seq<char>,
    video_id: Seq<char>,
    is_nsfw: bool,
    mirrored: bool,
) -> Location {
    if mirrored {
        Location {
            kind: SinkKind::SdkClient,
            root: s3_client.bucket@,
            key: video_key_text(publisher_user_id, video_id),
        }
    } else {
        Location {
            kind: SinkKind::Process,
            root: config.storj_sink_model(is_nsfw).destination_root,
            key: video_key_text(publisher_user_id, video_id),
        }
    }
}

/// The writes of either phase of a raw upload go to different places.
pub proof fn lemma_raw_upload_places_differ(
    s3_client: S3Client,
    config: Config,
    initial: RawUploadInitialParams,
    finalize: RawFinalizeParams,
    first_metadata: Map<Seq<char>, Seq<char>>,
    first_json: Seq<char>,
    second_metadata: Map<Seq<char>, Seq<char>>,
    second_json: Seq<char>,
)
    ensures
        distinct_locations(
            pending_writes(s3_client, config, initial, first_metadata, first_json),
        ),
        distinct_locations(
            finalize_writes(s3_client, config, finalize, second_metadata, second_json),
        ),
{
    lemma_keys_differ(initial.publisher_user_id@, initial.video_id@);
    lemma_keys_differ(finalize.publisher_user_id@, finalize.video_id@);
}

/// The relay of every route writes to different places, and so behaves as
/// `relay_holds` says while its writes settle, in any order: it is complete
/// when every write has settled and not before; it succeeds where every
/// write succeeded and else fails with the failure that was seen first; and
/// each write that succeeded has left its object in its sink, whatever
/// became of the others.
pub proof fn lemma_every_relay_holds<E>(
    s3_client: S3Client,
    config: Config,
    args: Args,
    initial: RawUploadInitialParams,
    finalize: RawFinalizeParams,
    segment: HlsUploadParams,
    metadata: Map<Seq<char>, Seq<char>>,
    metadata_json: Seq<char>,
    writes: Seq<SinkWrite>,
    world: World,
    payloads: Payloads,
    reports: Seq<(int, Result<(), E>)>,
)
    requires
        ({
            ||| write_models(writes) == relay_writes(s3_client, config, args, metadata_json)
            ||| write_models(writes) == pending_writes(
                s3_client,
                config,
                initial,
                metadata,
                metadata_json,
            )
            ||| write_models(writes) == finalize_writes(
                s3_client,
                config,
                finalize,
                metadata,
                metadata_json,
            )
            ||| write_models(writes) == segment_writes(s3_client, config, segment, metadata_json)
        }),
        reports_once(reports, writes.len()),
    ensures
        relay_holds(writes, world, payloads, reports),
{
    lemma_raw_upload_places_differ(
        s3_client,
        config,
        initial,
        finalize,
        metadata,
        metadata_json,
        metadata,
        metadata_json,
    );
    assert(distinct_locations(relay_writes(s3_client, config, args, metadata_json)));
    assert(distinct_locations(segment_writes(s3_client, config, segment, metadata_json)));
    lemma_relay(writes, world, payloads, reports);
}

/// The two phases of a raw upload. When every write of the first phase has
/// succeeded, in whatever order, the video is in each of its sinks with the
/// bytes that were uploaded, and its metadata holds the marker `_pending`
/// and the time of arrival; in the process-backed sink it is marked to
/// expire. When every write of the second phase has then succeeded, in
/// whatever order, the video is in each of its sinks with the same bytes and
/// with exactly the metadata of the finalize request, and is no longer
/// marked to expire. So the marker is gone unless the finalize request
/// itself asked for it.
pub proof fn lemma_finalize_replaces_pending<E>(
    s3_client: S3Client,
    config: Config,
    initial: RawUploadInitialParams,
    finalize: RawFinalizeParams,
    uploaded_at: Seq<char>,
    pending_json: Seq<char>,
    metadata: Map<Seq<char>, Seq<char>>,
    metadata_json: Seq<char>,
    first_writes: Seq<SinkWrite>,
    second_writes: Seq<SinkWrite>,
    world: World,
    payloads: Payloads,
    first_reports: Seq<(int, Result<(), E>)>,
    second_reports: Seq<(int, Result<(), E>)>,
    mirrored: bool,
)
    requires
        initial.publisher_user_id@ == finalize.publisher_user_id@,
        initial.video_id@ == finalize.video_id@,
        initial.is_nsfw == finalize.is_nsfw,
        mirrored ==> !initial.is_nsfw,
        write_models(first_writes) == pending_writes(
            s3_client,
            config,
            initial,
            pending_metadata_model(uploaded_at),
            pending_json,
        ),
        write_models(second_writes) == finalize_writes(
            s3_client,
            config,
            finalize,
            metadata,
            metadata_json,
        ),
        reports_once(first_reports, first_writes.len()),
        reports_once(second_reports, second_writes.len()),
        forall|i: int| 0 <= i < first_writes.len() ==> reported(first_reports, i),
        forall|i: int| 0 <= i < second_writes.len() ==> reported(second_reports, i),
        forall|k: int| 0 <= k < first_reports.len() ==> (#[trigger] first_reports[k]).1 is Ok,
        forall|k: int| 0 <= k < second_reports.len() ==> (#[trigger] second_reports[k]).1 is Ok,
    ensures
        ({
            let first = RelayModel::<E>::start(first_writes);
            let second = RelayModel::<E>::start(second_writes);
            let pending = world_by(first, world, payloads, first_reports);
            let place = video_place(
                s3_client,
                config,
                initial.publisher_user_id@,
                initial.video_id@,
                initial.is_nsfw,
                mirrored,
            );
            let read_back = Payloads { body: pending[place].body, thumbnail: payloads.thumbnail };
            let finalized = world_by(second, pending, read_back, second_reports);
            &&& settled_by(first, first_reports).is_complete()
            &&& settled_by(second, second_reports).is_complete()
            &&& pending.contains_key(place)
            &&& pending[place].body == payloads.body
            &&& pending[place].metadata == pending_metadata_model(uploaded_at)
            &&& pending[place].metadata.contains_key("_pending"@)
            &&& pending[place].metadata["_pending"@] == "true"@
            &&& !mirrored ==> pending[place].expires == Some(pending_expiry_text())
            &&& finalized.contains_key(place)
            &&& finalized[place] == (StoredObject {
                body: payloads.body,
                metadata,
                expires: None,
            })
            &&& !metadata.contains_key("_pending"@) ==> !finalized[place].metadata.contains_key(
                "_pending"@,
            )
        }),
{
    lemma_raw_upload_places_differ(
        s3_client,
        config,
        initial,
        finalize,
        pending_metadata_model(uploaded_at),
        pending_json,
        metadata,
        metadata_json,
    );
    let index: int = if mirrored {
        2
    } else {
        0
    };
    let first = RelayModel::<E>::start(first_writes);
    let second = RelayModel::<E>::start(second_writes);
    assert(write_models(first_writes).len() == first_writes.len());
    assert(write_models(second_writes).len() == second_writes.len());
    assert(index < first_writes.len());
    assert(index < second_writes.len());
    lemma_relay(first_writes, world, payloads, first_reports);
    let pending = world_by(first, world, payloads, first_reports);
    assert(write_models(first_writes)[index] == first_writes[index]@);
    assert(reported(first_reports, index));
    let k = choose|k: int| 0 <= k < first_reports.len() && (#[trigger] first_reports[k]).0 == index;
    assert(first_reports[k].1 is Ok);
    let place = location_of(first_writes[index]@);
    let read_back = Payloads { body: pending[place].body, thumbnail: payloads.thumbnail };
    lemma_relay(second_writes, pending, read_back, second_reports);
    assert(write_models(second_writes)[index] == second_writes[index]@);
    assert(reported(second_reports, index));
    let j = choose|j: int|
        0 <= j < second_reports.len() && (#[trigger] second_reports[j]).0 == index;
    assert(second_reports[j].1 is Ok);
    assert(location_of(second_writes[index]@) == place);
    reveal_strlit("_pending");
    reveal_strlit("_uploaded_at");
    assert("_pending"@ != "_uploaded_at"@) by {
        assert("_pending"@.len() == 8);
        assert("_uploaded_at"@.len() == 12);
    }
}

/// The second phase of a raw upload gives up after the last attempt. When
/// the fetch of a pending object fails and no attempt is left, the request
/// ends with an error that carries what the tool complained about: no file
/// is looked for, no process is run again, and nothing is written to any
/// sink. The local files that may exist are to be removed.
pub proof fn lemma_failed_fetches_end_the_request(
    s3_client: S3Client,
    config: Config,
    params: RawFinalizeParams,
    body: RawFinalizeBody,
    before: Finalize,
    stderr: String,
    after: Finalize,
    action: FinalizeAction,
)
    requires
        before.phase == FinalizePhase::FetchVideo || before.phase == FinalizePhase::FetchThumbnail,
        before.attempt >= MAX_DOWNLOAD_ATTEMPTS,
        finalize_next(
            s3_client,
            config,
            params,
            body,
            before,
            FinalizeEvent::Exited { succeeded: false, stderr },
            after,
            action,
        ),
    ensures
        after.phase == FinalizePhase::Done,
        fails_with_io(
            action,
            local_files(params, before.phase),
            download_failure_text(phase_object(before.phase), stderr@),
        ),
        !(action is Upload),
        !(action is CheckFile),
        !(action is Run),
{
}

/// Whenever the second phase of a raw upload ends a request that had not
/// ended before, with an error as with its answer, it has the local files
/// removed that may exist by then: that of the video, and from the fetch of
/// the still image on that of the still image too.
pub proof fn lemma_every_end_removes_the_local_files(
    s3_client: S3Client,
    config: Config,
    params: RawFinalizeParams,
    body: RawFinalizeBody,
    before: Finalize,
    event: FinalizeEvent,
    after: Finalize,
    action: FinalizeAction,
)
    requires
        before.phase != FinalizePhase::Done,
        finalize_next(s3_client, config, params, body, before, event, after, action),
        action is Finish,
    ensures
        action matches FinalizeAction::Finish { remove, result } && texts(remove@) == local_files(
            params,
            before.phase,
        ),
        local_files(params, before.phase).len() >= 1,
{
}

/// The token cache. A token that was kept for a partition is the one to
/// present to that partition's worker at every time before its expiry, so
/// that no request for a new one goes out; from its expiry on there is none
/// to present, and one request goes out. The expiry lies fifty minutes after
/// the time of issue wherever the clock can tell that time. Where two tokens
/// are kept for one partition, one after the other, the later one replaces
/// the earlier. What is kept for the other partition stays as it is, and is
/// never presented in its place.
pub proof fn lemma_token_is_presented_until_expiry(
    tokens: SiaTokensModel,
    is_nsfw: bool,
    token: Seq<char>,
    issued_at: u64,
    later_token: Seq<char>,
    later_at: u64,
    now: u64,
)
    ensures
        now < expiry(issued_at) ==> {
            &&& tokens.stored(is_nsfw, token, issued_at).valid(is_nsfw, now) == Some(token)
            &&& tokens.stored(is_nsfw, token, issued_at).requests(is_nsfw, now) == 0
        },
        now >= expiry(issued_at) ==> {
            &&& tokens.stored(is_nsfw, token, issued_at).valid(is_nsfw, now) is None
            &&& tokens.stored(is_nsfw, token, issued_at).requests(is_nsfw, now) == 1
        },
        issued_at + TOKEN_CACHE_MS <= u64::MAX ==> expiry(issued_at) == issued_at
            + TOKEN_CACHE_MS,
        tokens.stored(is_nsfw, token, issued_at).stored(is_nsfw, later_token, later_at)
            == tokens.stored(is_nsfw, later_token, later_at),
        tokens.stored(is_nsfw, token, issued_at).slot(!is_nsfw) == tokens.slot(!is_nsfw),
        tokens.stored(is_nsfw, token, issued_at).valid(!is_nsfw, now) == tokens.valid(
            !is_nsfw,
            now,
        ),
{
}

/// Two calls for the token of one partition, the first on an empty cache at
/// the time `first_at`, the second at `second_at`, before fifty minutes have
/// passed. The first call finds nothing kept and sends one request; the
/// token `issued` that the worker hands out is kept. The second call is
/// given that same token from the cache and sends no request, so that one
/// request goes out over both calls.
pub proof fn lemma_token_is_asked_for_once(
    is_nsfw: bool,
    issued: Seq<char>,
    first_at: u64,
    second_at: u64,
)
    requires
        second_at < first_at + TOKEN_CACHE_MS,
        second_at < u64::MAX,
    ensures
        ({
            let empty = SiaTokensModel { sfw: None, nsfw: None };
            let kept = empty.stored(is_nsfw, issued, first_at);
            &&& empty.valid(is_nsfw, first_at) is None
            &&& empty.requests(is_nsfw, first_at) == 1
            &&& kept.valid(is_nsfw, second_at) == Some(issued)
            &&& kept.requests(is_nsfw, second_at) == 0
            &&& empty.requests(is_nsfw, first_at) + kept.requests(is_nsfw, second_at) == 1
        }),
{
}

/// The move of a video from the worker of the general partition to that of
/// the restricted one. Where the two workers keep different stores and the
/// video is at the first, the move behaves as `move_of_one_holds` says:
/// after a move that succeeded the video is at the destination, and it is
/// gone from the source where the delete succeeded too; where the write
/// failed, the video is at the source, unchanged, and the destination is as
/// it was.
pub proof fn lemma_worker_move(
    config: RenterdConfig,
    request: crate::move2nsfw::Args,
    sfw_token: Seq<char>,
    nsfw_token: Seq<char>,
    moved: MoveItem,
    world: World,
    read: Result<(), crate::routes::sia::move2nsfw::Error>,
    write: Result<(), crate::routes::sia::move2nsfw::Error>,
    delete: Result<(), crate::routes::sia::move2nsfw::Error>,
)
    requires
        moved@ == crate::routes::sia::move2nsfw::move_item_model(
            config,
            request,
            sfw_token,
            nsfw_token,
        ),
        config.sink_model(false).destination_root != config.sink_model(true).destination_root,
        world.contains_key(moved@.source),
    ensures
        move_of_one_holds(moved, world, read, write, delete),
{
    lemma_move_of_one(moved, world, read, write, delete);
}

/// The move of an object from one bucket of the worker to another, through
/// the client. Where the buckets differ and the object is in the first,
/// the move behaves as `move_of_one_holds` says.
pub proof fn lemma_client_move(
    client: SiaClientModel,
    source_bucket: Seq<char>,
    dest_bucket: Seq<char>,
    key: Seq<char>,
    moved: MoveItem,
    world: World,
    read: Result<(), SiaError>,
    write: Result<(), SiaError>,
    delete: Result<(), SiaError>,
)
    requires
        moved@ == client.move_item(source_bucket, dest_bucket, key),
        client.sink(source_bucket).destination_root != client.sink(dest_bucket).destination_root,
        world.contains_key(moved@.source),
    ensures
        move_of_one_holds(moved, world, read, write, delete),
{
    lemma_move_of_one(moved, world, read, write, delete);
}

/// The move of a video and its still image from the mirror to the
/// process-backed sink of the restricted partition. Where both are at the
/// mirror, the move behaves as `move_of_two_holds` says: after a move that
/// succeeded both are at the destination, and each is gone from the mirror
/// where its delete succeeded too; where a write failed, both are at the
/// mirror, unchanged.
pub proof fn lemma_mirror_move(
    s3_client: S3Client,
    config: Config,
    request: crate::move2nsfw::Args,
    video: MoveItem,
    thumbnail: MoveItem,
    world: World,
    reads: (
        Result<(), crate::routes::move2nsfw::Failure>,
        Result<(), crate::routes::move2nsfw::Failure>,
    ),
    writes: (
        Result<(), crate::routes::move2nsfw::Failure>,
        Result<(), crate::routes::move2nsfw::Failure>,
    ),
    deletes: (
        Result<(), crate::routes::move2nsfw::Failure>,
        Result<(), crate::routes::move2nsfw::Failure>,
    ),
)
    requires
        video@ == crate::routes::move2nsfw::move_item_model(
            s3_client,
            config,
            request,
            ObjectKind::Video,
        ),
        thumbnail@ == crate::routes::move2nsfw::move_item_model(
            s3_client,
            config,
            request,
            ObjectKind::Thumbnail,
        ),
        world.contains_key(video@.source),
        world.contains_key(thumbnail@.source),
    ensures
        move_of_two_holds(video, thumbnail, world, reads, writes, deletes),
{
    lemma_keys_differ(request.publisher_user_id@, request.video_id@);
    lemma_move_of_two(video, thumbnail, world, reads, writes, deletes);
}

} // verus!
