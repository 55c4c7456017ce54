//! The move operator: objects are read from one sink, written to another,
//! and deleted from the first only when every write has succeeded.
//!
//! A `Move` tells the caller which operation to perform next, and takes the
//! result of each. A read that fails may be tried again, a fixed number of
//! times. A write that fails ends the move and leaves the source as it is. A
//! delete that fails does not fail the move: the object has arrived, and the
//! copy that stays behind is recorded as a stray.

use vstd::prelude::*;
use crate::sink::{after_delete, after_write, location_of, object_of, same_at, Location, Payloads,
    SinkDescriptor, SinkRequest, SinkRequestModel, SinkWrite, World, WriteModel};

verus! {

/// One object to move.
#[derive(Debug)]
pub struct MoveItem {
    /// The sink that holds the object.
    pub source: SinkDescriptor,
    /// The key under which the source holds it.
    pub key: String,
    /// The outside work that reads the object from its source.
    pub read: SinkRequest,
    /// The write that puts the object in its destination.
    pub write: SinkWrite,
    /// The outside work that deletes the object from its source.
    pub delete: SinkRequest,
}

/// One object to move as contracts see it.
pub struct MoveItemModel {
    /// Where the object is read and deleted.
    pub source: Location,
    /// What grants access to the source.
    pub credential: Seq<char>,
    pub read: SinkRequestModel,
    /// The write that puts it in its destination.
    pub write: WriteModel,
    pub delete: SinkRequestModel,
}

impl View for MoveItem {
    type V = MoveItemModel;

    open spec fn view(&self) -> MoveItemModel {
        MoveItemModel {
            source: Location {
                kind: self.source.kind,
                root: self.source.destination_root@,
                key: self.key@,
            },
            credential: self.source.credential@,
            read: self.read@,
            write: self.write@,
            delete: self.delete@,
        }
    }
}

/// The models of a list of objects to move, in order.
pub open spec fn item_models(items: Seq<MoveItem>) -> Seq<MoveItemModel> {
    Seq::new(items.len(), |i: int| items[i]@)
}

/// What the caller is to do next.
#[derive(Clone, Copy, Debug, PartialEq, Eq, Structural)]
pub enum MoveAction {
    /// Wait for `after_secs` seconds, then read the object at `index`.
    Read { index: usize, after_secs: u64 },
    /// Write the object at `index` to its destination.
    Write { index: usize },
    /// Delete the object at `index` from its source.
    Delete { index: usize },
    /// The move has ended: take its result.
    Finish,
}

/// How far a move has come.
#[derive(Clone, Copy, Debug, PartialEq, Eq, Structural)]
pub enum MovePhase {
    /// The object at this position is being read.
    Reading(usize),
    /// The object at this position is being written.
    Writing(usize),
    /// The object at this position is being deleted from its source.
    Deleting(usize),
    /// The move has ended.
    Done,
}

/// The state of a move as contracts see it.
pub struct MoveModel<E> {
    /// The objects that are moved.
    pub items: Seq<MoveItem>,
    pub phase: MovePhase,
    /// Which attempt to read the current object is under way, from 1.
    pub attempt: u32,
    /// How often the read of one object is tried.
    pub max_attempts: u32,
    /// For how many seconds a failed read waits before it is tried again.
    pub retry_delay_secs: u64,
    /// The error that ended the move, if one did.
    pub failure: Option<E>,
    /// The positions of the objects whose source copy could not be deleted.
    pub strays: Seq<usize>,
}

impl<E> MoveModel<E> {
    /// The state in which a move of the given objects starts.
    pub open spec fn start(items: Seq<MoveItem>, max_attempts: u32, retry_delay_secs: u64) -> Self {
        MoveModel {
            items,
            phase: if items.len() == 0 {
                MovePhase::Done
            } else {
                MovePhase::Reading(0)
            },
            attempt: 1,
            max_attempts,
            retry_delay_secs,
            failure: None,
            strays: Seq::empty(),
        }
    }

    /// The action with which a move starts.
    pub open spec fn first_action(self) -> MoveAction {
        match self.phase {
            MovePhase::Reading(index) => MoveAction::Read { index, after_secs: 0 },
            _ => MoveAction::Finish,
        }
    }

    /// The state in which the move has ended with `failure`.
    pub open spec fn ended(self, failure: Option<E>) -> Self {
        MoveModel { phase: MovePhase::Done, failure, ..self }
    }

    /// The state and the action that follow when the current operation has
    /// settled with `result`.
    pub open spec fn step(self, result: Result<(), E>) -> (Self, MoveAction) {
        match self.phase {
            MovePhase::Reading(index) => match result {
                Ok(_) => if index + 1 < self.items.len() {
                    (
                        MoveModel {
                            phase: MovePhase::Reading((index + 1) as usize),
                            attempt: 1,
                            ..self
                        },
                        MoveAction::Read { index: (index + 1) as usize, after_secs: 0 },
                    )
                } else {
                    (
                        MoveModel { phase: MovePhase::Writing(0), ..self },
                        MoveAction::Write { index: 0 },
                    )
                },
                Err(error) => if self.attempt < self.max_attempts {
                    (
                        MoveModel { attempt: (self.attempt + 1) as u32, ..self },
                        MoveAction::Read { index, after_secs: self.retry_delay_secs },
                    )
                } else {
                    (self.ended(Some(error)), MoveAction::Finish)
                },
            },
            MovePhase::Writing(index) => match result {
                Ok(_) => if index + 1 < self.items.len() {
                    (
                        MoveModel { phase: MovePhase::Writing((index + 1) as usize), ..self },
                        MoveAction::Write { index: (index + 1) as usize },
                    )
                } else {
                    (
                        MoveModel { phase: MovePhase::Deleting(0), ..self },
                        MoveAction::Delete { index: 0 },
                    )
                },
                Err(error) => (self.ended(Some(error)), MoveAction::Finish),
            },
            MovePhase::Deleting(index) => {
                let strays = match result {
                    Ok(_) => self.strays,
                    Err(_) => self.strays.push(index),
                };
                if index + 1 < self.items.len() {
                    (
                        MoveModel {
                            phase: MovePhase::Deleting((index + 1) as usize),
                            strays,
                            ..self
                        },
                        MoveAction::Delete { index: (index + 1) as usize },
                    )
                } else {
                    (MoveModel { phase: MovePhase::Done, strays, ..self }, MoveAction::Finish)
                }
            },
            MovePhase::Done => (self, MoveAction::Finish),
        }
    }
}

/// What a move that succeeded reports.
#[derive(Debug)]
pub struct MoveReport {
    /// The positions of the objects whose source copy could not be deleted.
    /// They have arrived at the destination and are there twice now.
    pub strays: Vec<usize>,
}

/// A move of one or more objects.
#[derive(Debug)]
pub struct Move<E> {
    items: Vec<MoveItem>,
    phase: MovePhase,
    attempt: u32,
    max_attempts: u32,
    retry_delay_secs: u64,
    failure: Option<E>,
    strays: Vec<usize>,
}

impl<E> View for Move<E> {
    type V = MoveModel<E>;

    closed spec fn view(&self) -> MoveModel<E> {
        MoveModel {
            items: self.items@,
            phase: self.phase,
            attempt: self.attempt,
            max_attempts: self.max_attempts,
            retry_delay_secs: self.retry_delay_secs,
            failure: self.failure,
            strays: self.strays@,
        }
    }
}

impl<E> Move<E> {
    /// A move of the given objects, and its first action. The read of each
    /// object is tried up to `max_attempts` times, with `retry_delay_secs`
    /// seconds before each further attempt.
    pub fn new(items: Vec<MoveItem>, max_attempts: u32, retry_delay_secs: u64) -> (started: (
        Self,
        MoveAction,
    ))
        ensures
            started.0@ == MoveModel::<E>::start(items@, max_attempts, retry_delay_secs),
            started.1 == started.0@.first_action(),
    {
        if items.len() == 0 {
            (
                Move {
                    items,
                    phase: MovePhase::Done,
                    attempt: 1,
                    max_attempts,
                    retry_delay_secs,
                    failure: None,
                    strays: Vec::new(),
                },
                MoveAction::Finish,
            )
        } else {
            (
                Move {
                    items,
                    phase: MovePhase::Reading(0),
                    attempt: 1,
                    max_attempts,
                    retry_delay_secs,
                    failure: None,
                    strays: Vec::new(),
                },
                MoveAction::Read { index: 0, after_secs: 0 },
            )
        }
    }

    /// The objects of the move, by position.
    pub fn items(&self) -> (items: &Vec<MoveItem>)
        ensures
            items@ == self@.items,
    {
        &self.items
    }

    /// Takes the result of the operation that the last action asked for, and
    /// says what to do next.
    pub fn step(&mut self, result: Result<(), E>) -> (action: MoveAction)
        ensures
            (final(self)@, action) == old(self)@.step(result),
    {
        let count = self.items.len();
        match self.phase {
            MovePhase::Reading(index) => match result {
                Ok(_) => {
                    if index < count && index + 1 < count {
                        self.phase = MovePhase::Reading(index + 1);
                        self.attempt = 1;
                        MoveAction::Read { index: index + 1, after_secs: 0 }
                    } else {
                        self.phase = MovePhase::Writing(0);
                        MoveAction::Write { index: 0 }
                    }
                },
                Err(error) => {
                    if self.attempt < self.max_attempts {
                        self.attempt = self.attempt + 1;
                        MoveAction::Read { index, after_secs: self.retry_delay_secs }
                    } else {
                        self.phase = MovePhase::Done;
                        self.failure = Some(error);
                        MoveAction::Finish
                    }
                },
            },
            MovePhase::Writing(index) => match result {
                Ok(_) => {
                    if index < count && index + 1 < count {
                        self.phase = MovePhase::Writing(index + 1);
                        MoveAction::Write { index: index + 1 }
                    } else {
                        self.phase = MovePhase::Deleting(0);
                        MoveAction::Delete { index: 0 }
                    }
                },
                Err(error) => {
                    self.phase = MovePhase::Done;
                    self.failure = Some(error);
                    MoveAction::Finish
                },
            },
            MovePhase::Deleting(index) => {
                match result {
                    Ok(_) => {},
                    Err(_) => {
                        self.strays.push(index);
                    },
                }
                if index < count && index + 1 < count {
                    self.phase = MovePhase::Deleting(index + 1);
                    MoveAction::Delete { index: index + 1 }
                } else {
                    self.phase = MovePhase::Done;
                    MoveAction::Finish
                }
            },
            MovePhase::Done => MoveAction::Finish,
        }
    }

    /// Tests whether the move has ended.
    pub fn is_done(&self) -> (done: bool)
        ensures
            done == (self@.phase == MovePhase::Done),
    {
        match self.phase {
            MovePhase::Done => true,
            _ => false,
        }
    }

    /// The result of a move that has ended: the error that ended it, or the
    /// report. A move that has not ended comes back as it is.
    pub fn finish(self) -> (result: Result<Result<MoveReport, E>, Move<E>>)
        ensures
            self@.phase != MovePhase::Done ==> result == Err::<Result<MoveReport, E>, Move<E>>(
                self,
            ),
            self@.phase == MovePhase::Done ==> match self@.failure {
                Some(error) => result == Ok::<Result<MoveReport, E>, Move<E>>(Err(error)),
                None => result matches Ok(Ok(report)) && report.strays@ == self@.strays,
            },
    {
        match self.phase {
            MovePhase::Done => match self.failure {
                Some(error) => Ok(Err(error)),
                None => Ok(Ok(MoveReport { strays: self.strays })),
            },
            _ => Err(self),
        }
    }
}

/// What the stores hold after the operation that `action` asked for has
/// settled. A write that succeeded has stored the bytes that the source
/// holds; a delete that succeeded has taken the source's copy away; any
/// other operation has changed nothing.
pub open spec fn move_world(
    world: World,
    items: Seq<MoveItemModel>,
    action: MoveAction,
    succeeded: bool,
) -> World {
    match action {
        MoveAction::Write { index } => if 0 <= index < items.len() {
            after_write(
                world,
                items[index as int].write,
                Payloads {
                    body: world[items[index as int].source].body,
                    thumbnail: world[items[index as int].source].body,
                },
                succeeded,
            )
        } else {
            world
        },
        MoveAction::Delete { index } => if 0 <= index < items.len() {
            after_delete(world, items[index as int].source, succeeded)
        } else {
            world
        },
        _ => world,
    }
}

/// What holds of the move of one object that is read at the first attempt
/// or not at all. Three operations are asked for in turn, the read, the write
/// and the delete, and each only where the one before has succeeded.
///
/// Where the read or the write fails, the move fails with that error and
/// the stores are as they were: the object is at its source, unchanged, and
/// the destination holds what it held. Where read and write succeed, the move
/// succeeds and the destination holds the source's bytes. The source's copy
/// is gone where the delete succeeded too; where it failed, the copy is
/// still there and its position is reported as a stray.
pub open spec fn move_of_one_holds<E>(
    moved: MoveItem,
    world: World,
    read: Result<(), E>,
    write: Result<(), E>,
    delete: Result<(), E>,
) -> bool {
    let item = moved@;
    let items = seq![item];
    let begun = MoveModel::<E>::start(seq![moved], 1, 0);
    let destination = location_of(item.write);
    let moved = world[item.source].body;
    let (after_read, second) = begun.step(read);
    let (after_write, third) = after_read.step(write);
    let world_written = move_world(world, items, second, write is Ok);
    let (after_delete, fourth) = after_write.step(delete);
    let world_deleted = move_world(world_written, items, third, delete is Ok);
    &&& begun.first_action() == (MoveAction::Read { index: 0, after_secs: 0 })
    &&& read is Err ==> {
        &&& second == MoveAction::Finish
        &&& after_read.phase == MovePhase::Done
        &&& after_read.failure == Some(read->Err_0)
    }
    &&& read is Ok ==> second == (MoveAction::Write { index: 0 })
    &&& read is Ok && write is Err ==> {
        &&& third == MoveAction::Finish
        &&& after_write.phase == MovePhase::Done
        &&& after_write.failure == Some(write->Err_0)
        &&& world_written == world
    }
    &&& read is Ok && write is Ok ==> {
        &&& third == (MoveAction::Delete { index: 0 })
        &&& fourth == MoveAction::Finish
        &&& after_delete.phase == MovePhase::Done
        &&& after_delete.failure is None
        &&& world_deleted.contains_key(destination)
        &&& world_deleted[destination].body == moved
        &&& world_deleted[destination] == object_of(
            item.write,
            Payloads { body: moved, thumbnail: moved },
        )
        &&& delete is Ok ==> {
            &&& !world_deleted.contains_key(item.source)
            &&& after_delete.strays == Seq::<usize>::empty()
        }
        &&& delete is Err ==> {
            &&& same_at(world_deleted, world, item.source)
            &&& after_delete.strays == seq![0usize]
        }
        &&& forall|at: Location|
            at != destination && at != item.source ==> #[trigger] same_at(
                world_deleted,
                world,
                at,
            )
    }
}

/// The move of one object that is at its source, to a destination that is
/// another place, behaves as `move_of_one_holds` says.
pub proof fn lemma_move_of_one<E>(
    moved: MoveItem,
    world: World,
    read: Result<(), E>,
    write: Result<(), E>,
    delete: Result<(), E>,
)
    requires
        world.contains_key(moved@.source),
        moved@.source != location_of(moved@.write),
    ensures
        move_of_one_holds(moved, world, read, write, delete),
{
    let begun = MoveModel::<E>::start(seq![moved], 1, 0);
    let (after_read, second) = begun.step(read);
    let (after_write, third) = after_read.step(write);
    let (after_delete, fourth) = after_write.step(delete);
    if read is Ok && write is Ok {
        match delete {
            Ok(_) => {},
            Err(_) => {
                assert(after_delete.strays =~= seq![0usize]);
            },
        }
    }
}

/// What holds of the move of two objects, each read at the first attempt or
/// not at all. Both are read, then both are written, then both are deleted
/// at their source, the first object first each time, and each operation is
/// asked for only where the one before has succeeded.
///
/// Where a read fails, the move fails with that error and the stores are
/// as they were. Where a write fails, the move fails with that error and no
/// delete is asked for: both objects are at their source, unchanged. Where
/// both writes succeed, the move succeeds and each destination holds the
/// bytes of its source. The copy at a source is gone where its delete
/// succeeded; where it failed, the copy is still there and its position is
/// reported as a stray.
pub open spec fn move_of_two_holds<E>(
    first_moved: MoveItem,
    second_moved: MoveItem,
    world: World,
    reads: (Result<(), E>, Result<(), E>),
    writes: (Result<(), E>, Result<(), E>),
    deletes: (Result<(), E>, Result<(), E>),
) -> bool {
    let first = first_moved@;
    let second = second_moved@;
    let items = seq![first, second];
    let begun = MoveModel::<E>::start(seq![first_moved, second_moved], 1, 0);
    let (state1, action1) = begun.step(reads.0);
    let (state2, action2) = state1.step(reads.1);
    let (state3, action3) = state2.step(writes.0);
    let world3 = move_world(world, items, action2, writes.0 is Ok);
    let (state4, action4) = state3.step(writes.1);
    let world4 = move_world(world3, items, action3, writes.1 is Ok);
    let (state5, action5) = state4.step(deletes.0);
    let world5 = move_world(world4, items, action4, deletes.0 is Ok);
    let (state6, action6) = state5.step(deletes.1);
    let world6 = move_world(world5, items, action5, deletes.1 is Ok);
    &&& begun.first_action() == (MoveAction::Read { index: 0, after_secs: 0 })
    &&& reads.0 is Err ==> {
        &&& action1 == MoveAction::Finish
        &&& state1.failure == Some(reads.0->Err_0)
    }
    &&& reads.0 is Ok ==> action1 == (MoveAction::Read { index: 1, after_secs: 0 })
    &&& reads.0 is Ok && reads.1 is Err ==> {
        &&& action2 == MoveAction::Finish
        &&& state2.failure == Some(reads.1->Err_0)
    }
    &&& reads.0 is Ok && reads.1 is Ok ==> {
        &&& action2 == (MoveAction::Write { index: 0 })
        &&& writes.0 is Err ==> {
            &&& action3 == MoveAction::Finish
            &&& state3.failure == Some(writes.0->Err_0)
            &&& world3 == world
        }
        &&& writes.0 is Ok ==> action3 == (MoveAction::Write { index: 1 })
        &&& writes.0 is Ok && writes.1 is Err ==> {
            &&& action4 == MoveAction::Finish
            &&& state4.failure == Some(writes.1->Err_0)
            &&& same_at(world4, world, first.source)
            &&& same_at(world4, world, second.source)
        }
        &&& writes.0 is Ok && writes.1 is Ok ==> {
            &&& action4 == (MoveAction::Delete { index: 0 })
            &&& action5 == (MoveAction::Delete { index: 1 })
            &&& action6 == MoveAction::Finish
            &&& state6.phase == MovePhase::Done
            &&& state6.failure is None
            &&& world6.contains_key(location_of(first.write))
            &&& world6[location_of(first.write)].body == world[first.source].body
            &&& world6.contains_key(location_of(second.write))
            &&& world6[location_of(second.write)].body == world[second.source].body
            &&& deletes.0 is Ok ==> !world6.contains_key(first.source)
            &&& deletes.0 is Err ==> same_at(world6, world, first.source) && state6.strays.contains(
                0,
            )
            &&& deletes.1 is Ok ==> !world6.contains_key(second.source)
            &&& deletes.1 is Err ==> same_at(world6, world, second.source)
                && state6.strays.contains(1)
            &&& deletes.0 is Ok && deletes.1 is Ok ==> state6.strays.len() == 0
        }
    }
}

/// The move of two objects that are at their sources, where the two sources
/// and the two destinations are four different places, behaves as
/// `move_of_two_holds` says.
pub proof fn lemma_move_of_two<E>(
    first_moved: MoveItem,
    second_moved: MoveItem,
    world: World,
    reads: (Result<(), E>, Result<(), E>),
    writes: (Result<(), E>, Result<(), E>),
    deletes: (Result<(), E>, Result<(), E>),
)
    requires
        world.contains_key(first_moved@.source),
        world.contains_key(second_moved@.source),
        first_moved@.source != second_moved@.source,
        location_of(first_moved@.write) != location_of(second_moved@.write),
        first_moved@.source != location_of(first_moved@.write),
        first_moved@.source != location_of(second_moved@.write),
        second_moved@.source != location_of(first_moved@.write),
        second_moved@.source != location_of(second_moved@.write),
    ensures
        move_of_two_holds(first_moved, second_moved, world, reads, writes, deletes),
{
    let first = first_moved@;
    let second = second_moved@;
    let items = seq![first, second];
    let begun = MoveModel::<E>::start(seq![first_moved, second_moved], 1, 0);
    let (state1, action1) = begun.step(reads.0);
    let (state2, action2) = state1.step(reads.1);
    let (state3, action3) = state2.step(writes.0);
    let (state4, action4) = state3.step(writes.1);
    let (state5, action5) = state4.step(deletes.0);
    let (state6, action6) = state5.step(deletes.1);
    assert(items[0] == first);
    assert(items[1] == second);
    if reads.0 is Ok && reads.1 is Ok && writes.0 is Ok && writes.1 is Ok {
        if deletes.0 is Err {
            assert(state5.strays[0] == 0);
            if deletes.1 is Err {
                assert(state6.strays[0] == 0);
                assert(state6.strays[1] == 1);
            } else {
                assert(state6.strays[0] == 0);
            }
        } else if deletes.1 is Err {
            assert(state6.strays[0] == 1);
        }
    }
}

} // verus!
