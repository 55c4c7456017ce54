//! The relay orchestrator: one request, one or more sink writes, one outcome.
//!
//! A `Relay` is made from the writes that a request asks for. The caller
//! starts all of them, in any order and at the same time if it likes, and
//! reports each one as it settles. When every write has settled the relay hands
//! out the `RelayOutcome`. A write that failed fails the request as a whole;
//! what the other writes have stored stays where it is.

use vstd::prelude::*;
use crate::sink::{after_write, distinct_locations, location_of, object_of, same_at, write_models,
    Location, Payloads, SinkDescriptor, SinkWrite, World};

verus! {

/// What became of the writes of one request.
#[derive(Debug)]
pub struct RelayOutcome<E> {
    /// The sinks that took their write, in the order in which they settled.
    pub succeeded: Vec<SinkDescriptor>,
    /// The sinks that refused theirs, each with its error, in the order in
    /// which they settled.
    pub failed: Vec<(SinkDescriptor, E)>,
}

impl<E> RelayOutcome<E> {
    /// Whether every write succeeded.
    pub open spec fn is_success(&self) -> bool {
        self.failed@.len() == 0
    }

    /// The request's result: success where no write failed, else the error
    /// that was seen first.
    pub open spec fn result(&self) -> Result<(), E> {
        if self.failed@.len() == 0 {
            Ok(())
        } else {
            Err(self.failed@[0].1)
        }
    }

    /// Tests whether every write succeeded.
    pub fn all_succeeded(&self) -> (r: bool)
        ensures
            r == self.is_success(),
    {
        self.failed.len() == 0
    }

    /// The request's result: success where no write failed, else the error
    /// that was seen first.
    pub fn into_result(self) -> (r: Result<(), E>)
        ensures
            r == self.result(),
    {
        let mut failed = self.failed;
        if failed.len() == 0 {
            Ok(())
        } else {
            let first = failed.remove(0);
            Err(first.1)
        }
    }
}

/// The state of a relay as contracts see it.
pub struct RelayModel<E> {
    /// The writes of the request.
    pub writes: Seq<SinkWrite>,
    /// For each write, whether it has settled.
    pub settled: Seq<bool>,
    /// The sinks whose write succeeded, in the order of settling.
    pub succeeded: Seq<SinkDescriptor>,
    /// The sinks whose write failed, in the order of settling.
    pub failed: Seq<(SinkDescriptor, E)>,
}

impl<E> RelayModel<E> {
    /// The state before any write has settled.
    pub open spec fn start(writes: Seq<SinkWrite>) -> Self {
        RelayModel {
            writes,
            settled: Seq::new(writes.len(), |i: int| false),
            succeeded: Seq::empty(),
            failed: Seq::empty(),
        }
    }

    /// Whether the write at `index` exists and has not settled.
    pub open spec fn is_pending(self, index: int) -> bool {
        &&& 0 <= index < self.writes.len()
        &&& index < self.settled.len()
        &&& !self.settled[index]
    }

    /// Whether every write has settled.
    pub open spec fn is_complete(self) -> bool {
        forall|i: int| 0 <= i < self.writes.len() ==> !self.is_pending(i)
    }

    /// The state after the write at `index` has settled with `result`. A
    /// report on a write that does not exist, or that has already settled,
    /// changes nothing.
    pub open spec fn settle(self, index: int, result: Result<(), E>) -> Self {
        if self.is_pending(index) {
            RelayModel {
                writes: self.writes,
                settled: self.settled.update(index, true),
                succeeded: match result {
                    Ok(_) => self.succeeded.push(self.writes[index].sink),
                    Err(_) => self.succeeded,
                },
                failed: match result {
                    Ok(_) => self.failed,
                    Err(e) => self.failed.push((self.writes[index].sink, e)),
                },
            }
        } else {
            self
        }
    }

    /// The result that the request has once every write has settled: success
    /// where no write failed, else the error that was seen first.
    pub open spec fn result(self) -> Result<(), E> {
        if self.failed.len() == 0 {
            Ok(())
        } else {
            Err(self.failed[0].1)
        }
    }

    /// What the stores hold after the write at `index` has settled.
    pub open spec fn settle_world(
        self,
        world: World,
        payloads: Payloads,
        index: int,
        succeeded: bool,
    ) -> World {
        if self.is_pending(index) {
            after_write(world, self.writes[index]@, payloads, succeeded)
        } else {
            world
        }
    }
}

/// The writes of one request, and what is known of each.
#[derive(Debug)]
pub struct Relay<E> {
    writes: Vec<SinkWrite>,
    settled: Vec<bool>,
    succeeded: Vec<SinkDescriptor>,
    failed: Vec<(SinkDescriptor, E)>,
}

impl<E> View for Relay<E> {
    type V = RelayModel<E>;

    closed spec fn view(&self) -> RelayModel<E> {
        RelayModel {
            writes: self.writes@,
            settled: self.settled@,
            succeeded: self.succeeded@,
            failed: self.failed@,
        }
    }
}

impl<E> Relay<E> {
    /// A relay of the given writes, none of them settled.
    pub fn new(writes: Vec<SinkWrite>) -> (relay: Self)
        ensures
            relay@ == RelayModel::<E>::start(writes@),
    {
        let mut settled: Vec<bool> = Vec::new();
        let mut i: usize = 0;
        while i < writes.len()
            invariant
                i <= writes@.len(),
                settled@.len() == i,
                forall|k: int| 0 <= k < i ==> !settled@[k],
            decreases writes@.len() - i,
        {
            settled.push(false);
            i += 1;
        }
        assert(settled@ =~= Seq::new(writes@.len(), |i: int| false));
        Relay { writes, settled, succeeded: Vec::new(), failed: Vec::new() }
    }

    /// The writes that the caller is to perform.
    pub fn writes(&self) -> (writes: &Vec<SinkWrite>)
        ensures
            writes@ == self@.writes,
    {
        &self.writes
    }

    /// Tests whether the write at `index` exists and has not settled.
    pub fn is_pending(&self, index: usize) -> (r: bool)
        ensures
            r == self@.is_pending(index as int),
    {
        index < self.writes.len() && index < self.settled.len() && !self.settled[index]
    }

    /// Records that the write at `index` has settled with `result`, and says
    /// whether the report was taken. It is not taken where there is no such
    /// write or where that write has settled before.
    pub fn settle(&mut self, index: usize, result: Result<(), E>) -> (taken: bool)
        ensures
            taken == old(self)@.is_pending(index as int),
            final(self)@ == old(self)@.settle(index as int, result),
    {
        if !self.is_pending(index) {
            return false;
        }
        self.settled.set(index, true);
        let sink = self.writes[index].sink.clone();
        match result {
            Ok(_) => {
                self.succeeded.push(sink);
            },
            Err(e) => {
                self.failed.push((sink, e));
            },
        }
        true
    }

    /// Tests whether every write has settled.
    pub fn is_complete(&self) -> (r: bool)
        ensures
            r == self@.is_complete(),
    {
        let mut i: usize = 0;
        while i < self.writes.len()
            invariant
                i <= self.writes@.len(),
                forall|k: int| 0 <= k < i ==> !self@.is_pending(k),
            decreases self.writes@.len() - i,
        {
            if self.is_pending(i) {
                return false;
            }
            i += 1;
        }
        true
    }

    /// The outcome, once every write has settled. Before that the relay comes
    /// back as it is.
    pub fn finish(self) -> (r: Result<RelayOutcome<E>, Relay<E>>)
        ensures
            self@.is_complete() ==> (r matches Ok(outcome) && outcome.succeeded@
                == self@.succeeded && outcome.failed@ == self@.failed),
            !self@.is_complete() ==> r == Err::<RelayOutcome<E>, Relay<E>>(self),
    {
        if self.is_complete() {
            Ok(RelayOutcome { succeeded: self.succeeded, failed: self.failed })
        } else {
            Err(self)
        }
    }
}

/// What holds of a relay of two writes of which the one at `first` settles
/// first: the relay is complete only after both have settled; it succeeds
/// exactly where both writes succeed, and else reports the failure that was
/// seen first; a write that succeeded has left its object in place whatever
/// the other did, a write that failed has left its place as it was, and no
/// other place has changed.
pub open spec fn relay_of_two_holds<E>(
    writes: Seq<SinkWrite>,
    world: World,
    payloads: Payloads,
    first: int,
    first_result: Result<(), E>,
    second_result: Result<(), E>,
) -> bool {
    let second = 1 - first;
    let begun = RelayModel::<E>::start(writes);
    let half = begun.settle(first, first_result);
    let done = half.settle(second, second_result);
    let world_half = begun.settle_world(world, payloads, first, first_result is Ok);
    let world_done = half.settle_world(world_half, payloads, second, second_result is Ok);
    let first_place = location_of(writes[first]@);
    let second_place = location_of(writes[second]@);
    &&& !begun.is_complete()
    &&& !half.is_complete()
    &&& done.is_complete()
    &&& first_result is Ok && second_result is Ok ==> done.result() is Ok
    &&& first_result is Err ==> done.result() == first_result
    &&& first_result is Ok && second_result is Err ==> done.result() == second_result
    &&& done.succeeded.len() + done.failed.len() == 2
    &&& first_result is Ok ==> {
        &&& done.succeeded.contains(writes[first].sink)
        &&& world_done.contains_key(first_place)
        &&& world_done[first_place] == object_of(writes[first]@, payloads)
    }
    &&& second_result is Ok ==> {
        &&& done.succeeded.contains(writes[second].sink)
        &&& world_done.contains_key(second_place)
        &&& world_done[second_place] == object_of(writes[second]@, payloads)
    }
    &&& first_result is Err ==> same_at(world_done, world, first_place)
    &&& second_result is Err ==> same_at(world_done, world, second_place)
    &&& forall|at: Location|
        at != first_place && at != second_place ==> #[trigger] same_at(world_done, world, at)
}

/// What holds of a relay of one write: it is complete once that write has
/// settled, its result is that of the write, the object is in place where
/// the write succeeded, and no other place has changed.
pub open spec fn relay_of_one_holds<E>(
    writes: Seq<SinkWrite>,
    world: World,
    payloads: Payloads,
    result: Result<(), E>,
) -> bool {
    let begun = RelayModel::<E>::start(writes);
    let done = begun.settle(0, result);
    let world_done = begun.settle_world(world, payloads, 0, result is Ok);
    let place = location_of(writes[0]@);
    &&& !begun.is_complete()
    &&& done.is_complete()
    &&& result is Ok ==> done.result() is Ok
    &&& result is Err ==> done.result() == result
    &&& result is Ok ==> {
        &&& world_done.contains_key(place)
        &&& world_done[place] == object_of(writes[0]@, payloads)
    }
    &&& result is Err ==> world_done == world
    &&& forall|at: Location| at != place ==> #[trigger] same_at(world_done, world, at)
}

/// A relay of two writes to different places, settled in either order,
/// behaves as `relay_of_two_holds` says.
pub proof fn lemma_relay_of_two<E>(
    writes: Seq<SinkWrite>,
    world: World,
    payloads: Payloads,
    first: int,
    first_result: Result<(), E>,
    second_result: Result<(), E>,
)
    requires
        writes.len() == 2,
        location_of(writes[0]@) != location_of(writes[1]@),
        first == 0 || first == 1,
    ensures
        relay_of_two_holds(writes, world, payloads, first, first_result, second_result),
{
    let second = 1 - first;
    let begun = RelayModel::<E>::start(writes);
    let half = begun.settle(first, first_result);
    let done = half.settle(second, second_result);
    assert(begun.is_pending(first));
    assert(half.is_pending(second));
    assert(!done.is_pending(0) && !done.is_pending(1));
    match first_result {
        Ok(_) => {
            assert(half.succeeded[0] == writes[first].sink);
            assert(done.succeeded[0] == writes[first].sink);
        },
        Err(_) => {},
    }
    match second_result {
        Ok(_) => {
            assert(done.succeeded[done.succeeded.len() - 1] == writes[second].sink);
        },
        Err(_) => {},
    }
}

/// A relay of one write behaves as `relay_of_one_holds` says.
pub proof fn lemma_relay_of_one<E>(
    writes: Seq<SinkWrite>,
    world: World,
    payloads: Payloads,
    result: Result<(), E>,
)
    requires
        writes.len() == 1,
    ensures
        relay_of_one_holds(writes, world, payloads, result),
{
    let begun = RelayModel::<E>::start(writes);
    let done = begun.settle(0, result);
    assert(begun.is_pending(0));
    assert(!done.is_pending(0));
}

/// The state of a relay after the given reports have come in, one after the
/// other. A report names a write by its position and gives its result.
pub open spec fn settled_by<E>(
    begun: RelayModel<E>,
    reports: Seq<(int, Result<(), E>)>,
) -> RelayModel<E>
    decreases reports.len(),
{
    if reports.len() == 0 {
        begun
    } else {
        settled_by(begun, reports.drop_last()).settle(reports.last().0, reports.last().1)
    }
}

/// What the stores hold after the writes that the reports are about have
/// settled, one after the other.
pub open spec fn world_by<E>(
    begun: RelayModel<E>,
    world: World,
    payloads: Payloads,
    reports: Seq<(int, Result<(), E>)>,
) -> World
    decreases reports.len(),
{
    if reports.len() == 0 {
        world
    } else {
        settled_by(begun, reports.drop_last()).settle_world(
            world_by(begun, world, payloads, reports.drop_last()),
            payloads,
            reports.last().0,
            reports.last().1 is Ok,
        )
    }
}

/// The error of the first report that tells of a failure, if there is one.
pub open spec fn first_failure<E>(reports: Seq<(int, Result<(), E>)>) -> Option<E>
    decreases reports.len(),
{
    if reports.len() == 0 {
        None
    } else {
        match first_failure(reports.drop_last()) {
            Some(error) => Some(error),
            None => match reports.last().1 {
                Ok(_) => None,
                Err(error) => Some(error),
            },
        }
    }
}

/// Whether each report is about one of `count` writes, and no two reports
/// are about the same write.
pub open spec fn reports_once<E>(reports: Seq<(int, Result<(), E>)>, count: nat) -> bool {
    &&& forall|k: int| 0 <= k < reports.len() ==> 0 <= (#[trigger] reports[k]).0 < count
    &&& forall|j: int, k: int|
        0 <= j < k < reports.len() ==> (#[trigger] reports[j]).0 != (#[trigger] reports[k]).0
}

/// Whether one of the reports is about the write at `index`.
pub open spec fn reported<E>(reports: Seq<(int, Result<(), E>)>, index: int) -> bool {
    exists|k: int| 0 <= k < reports.len() && (#[trigger] reports[k]).0 == index
}

/// Whether none of the reports tells that a write to `at` succeeded.
pub open spec fn unwritten<E>(
    writes: Seq<SinkWrite>,
    reports: Seq<(int, Result<(), E>)>,
    at: Location,
) -> bool {
    forall|k: int|
        0 <= k < reports.len() && (#[trigger] reports[k]).1 is Ok ==> location_of(
            writes[reports[k].0]@,
        ) != at
}

/// What holds of a relay of any number of writes to different places, while
/// the reports on its writes come in, in any order and each write once.
///
/// The writes that have settled are those that were reported. The relay is
/// complete when every write has been reported, and not before. Its result is
/// success where every report told of success, and else the error of the
/// first report that told of a failure. Each write that was reported to have
/// succeeded has left its object in place, whatever became of the others, and
/// no other place has changed.
pub open spec fn relay_holds<E>(
    writes: Seq<SinkWrite>,
    world: World,
    payloads: Payloads,
    reports: Seq<(int, Result<(), E>)>,
) -> bool {
    let begun = RelayModel::<E>::start(writes);
    let state = settled_by(begun, reports);
    let stores = world_by(begun, world, payloads, reports);
    &&& state.writes == writes
    &&& state.settled.len() == writes.len()
    &&& forall|i: int|
        0 <= i < writes.len() ==> (#[trigger] state.is_pending(i) <==> !reported(reports, i))
    &&& state.is_complete() <==> forall|i: int|
        0 <= i < writes.len() ==> #[trigger] reported(reports, i)
    &&& match first_failure(reports) {
        Some(error) => state.result() == Err::<(), E>(error),
        None => state.result() is Ok,
    }
    &&& state.succeeded.len() + state.failed.len() == reports.len()
    &&& forall|k: int|
        0 <= k < reports.len() && (#[trigger] reports[k]).1 is Ok ==> {
            &&& stores.contains_key(location_of(writes[reports[k].0]@))
            &&& stores[location_of(writes[reports[k].0]@)] == object_of(
                writes[reports[k].0]@,
                payloads,
            )
        }
    &&& forall|at: Location| #[trigger]
        unwritten(writes, reports, at) ==> same_at(stores, world, at)
}

/// A relay of writes to different places behaves as `relay_holds` says.
pub proof fn lemma_relay<E>(
    writes: Seq<SinkWrite>,
    world: World,
    payloads: Payloads,
    reports: Seq<(int, Result<(), E>)>,
)
    requires
        distinct_locations(write_models(writes)),
        reports_once(reports, writes.len()),
    ensures
        relay_holds(writes, world, payloads, reports),
    decreases reports.len(),
{
    let begun = RelayModel::<E>::start(writes);
    if reports.len() == 0 {
        assert forall|i: int| 0 <= i < writes.len() implies (#[trigger] begun.is_pending(i)
            <==> !reported(reports, i)) by {}
        if writes.len() > 0 {
            assert(begun.is_pending(0));
            assert(!reported(reports, 0));
        }
    } else {
        let front = reports.drop_last();
        let last = reports.last();
        assert(reports_once(front, writes.len())) by {
            assert forall|k: int| 0 <= k < front.len() implies 0 <= (#[trigger] front[k]).0
                < writes.len() by {
                assert(front[k] == reports[k]);
            }
            assert forall|j: int, k: int| 0 <= j < k < front.len() implies (#[trigger] front[j]).0
                != (#[trigger] front[k]).0 by {
                assert(front[j] == reports[j]);
                assert(front[k] == reports[k]);
            }
        }
        lemma_relay(writes, world, payloads, front);
        let before = settled_by(begun, front);
        let state = settled_by(begun, reports);
        let stores_before = world_by(begun, world, payloads, front);
        let stores = world_by(begun, world, payloads, reports);
        assert(last == reports[reports.len() - 1]);
        assert(!reported(front, last.0)) by {
            if reported(front, last.0) {
                let k = choose|k: int| 0 <= k < front.len() && (#[trigger] front[k]).0 == last.0;
                assert(front[k] == reports[k]);
            }
        }
        assert(before.is_pending(last.0));
        assert(state == before.settle(last.0, last.1));
        assert forall|i: int| 0 <= i < writes.len() implies (#[trigger] state.is_pending(i)
            <==> !reported(reports, i)) by {
            if reported(front, i) {
                let k = choose|k: int| 0 <= k < front.len() && (#[trigger] front[k]).0 == i;
                assert(reports[k] == front[k]);
            }
            if reported(reports, i) && i != last.0 {
                let k = choose|k: int| 0 <= k < reports.len() && (#[trigger] reports[k]).0 == i;
                assert(front[k] == reports[k]);
            }
            assert(before.is_pending(i) <==> !reported(front, i));
        }
        assert(state.is_complete() <==> forall|i: int|
            0 <= i < writes.len() ==> #[trigger] reported(reports, i)) by {
            if state.is_complete() {
                assert forall|i: int| 0 <= i < writes.len() implies #[trigger] reported(
                    reports,
                    i,
                ) by {
                    assert(!state.is_pending(i));
                }
            }
        }
        let place = location_of(writes[last.0]@);
        assert(write_models(writes)[last.0] == writes[last.0]@);
        assert forall|k: int| 0 <= k < reports.len() && (#[trigger] reports[k]).1 is Ok implies {
            &&& stores.contains_key(location_of(writes[reports[k].0]@))
            &&& stores[location_of(writes[reports[k].0]@)] == object_of(
                writes[reports[k].0]@,
                payloads,
            )
        } by {
            if k < front.len() {
                assert(front[k] == reports[k]);
                let other = reports[k].0;
                assert(write_models(writes)[other] == writes[other]@);
                assert(other != last.0);
                if other < last.0 {
                    assert(location_of(write_models(writes)[other]) != location_of(
                        write_models(writes)[last.0],
                    ));
                } else {
                    assert(location_of(write_models(writes)[last.0]) != location_of(
                        write_models(writes)[other],
                    ));
                }
            }
        }
        assert forall|at: Location| #[trigger] unwritten(writes, reports, at) implies same_at(
            stores,
            world,
            at,
        ) by {
            assert forall|k: int| 0 <= k < front.len() && (#[trigger] front[k]).1 is Ok implies location_of(
                writes[front[k].0]@,
            ) != at by {
                assert(front[k] == reports[k]);
            }
            assert(unwritten(writes, front, at));
            assert(same_at(stores_before, world, at));
            if last.1 is Ok {
                assert(location_of(writes[reports[reports.len() - 1].0]@) != at);
            }
        }
        match first_failure(front) {
            Some(_) => {
                assert(before.failed.len() > 0);
                assert(state.failed[0] == before.failed[0]);
            },
            None => {
                assert(before.failed.len() == 0) by {
                    if before.failed.len() > 0 {
                        assert(before.result() is Err);
                    }
                }
                match last.1 {
                    Ok(_) => {},
                    Err(_) => {
                        assert(state.failed.len() == 1);
                    },
                }
            },
        }
    }
}

} // verus!
