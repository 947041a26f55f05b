//! A model of what the operations act on, and what the protocols guarantee
//! of it.
//!
//! The model keeps four sets of identifiers: the directories that exist, the
//! stacks that are declared (their directory holds a manifest), the stacks
//! whose containers are up, and the volumes that exist. An effect that is
//! answered with success changes the sets as its name says; one that fails
//! changes nothing.

use vstd::prelude::*;
use vstd::utf8::encode_utf8;
use crate::errors::{FsStep, Invalid, Operation, RuntimeCall, StackError};
use crate::lifecycle::{
    call_failure, create_next, create_planned, delete_begun, delete_next, list_follows,
    step_failure, switch_begun, switch_next, switch_reply, update_begun, Config, CreateState,
    DeleteState, Effect, Event, ListState, Reply, SwitchState,
};
use crate::registry::{
    declared, highest, lemma_highest_exists, lemma_highest_is, lemma_next_id_is_fresh, next_id,
    occupied, text_id, DirEntry,
};
use crate::status::{StackStatus, StatusUpdate};
use crate::template::{ports_of, read_template};

verus! {

/// The stacks as they are on disk and in the runtime.
pub struct World {
    /// The identifiers whose directory exists.
    pub occupied: Set<int>,
    /// The identifiers whose directory holds a manifest: the declared stacks.
    pub declared: Set<int>,
    /// The stacks whose containers are up.
    pub running: Set<int>,
    /// The stacks whose volume exists.
    pub volumes: Set<int>,
}

/// The world is consistent: a manifest lies in a directory, and there are
/// finitely many directories.
pub open spec fn consistent(w: World) -> bool {
    w.occupied.finite() && w.declared.subset_of(w.occupied)
}

/// The world after `effect` was asked for and answered by `event`.
pub open spec fn performed(w: World, effect: Effect, event: Event) -> World {
    match effect {
        Effect::CreateDirectory { id } => if step_failure(event) is None {
            World { occupied: w.occupied.insert(id as int), ..w }
        } else {
            w
        },
        Effect::WriteManifest { id } => if step_failure(event) is None {
            World { declared: w.declared.insert(id as int), ..w }
        } else {
            w
        },
        Effect::RemoveDirectory { id } => if step_failure(event) is None {
            World {
                occupied: w.occupied.remove(id as int),
                declared: w.declared.remove(id as int),
                ..w
            }
        } else {
            w
        },
        Effect::ComposeUp { id } => if call_failure(event) is None {
            World { running: w.running.insert(id as int), volumes: w.volumes.insert(id as int), ..w }
        } else {
            w
        },
        Effect::ComposeDown { id } => if call_failure(event) is None {
            World { running: w.running.remove(id as int), ..w }
        } else {
            w
        },
        Effect::RemoveVolume { id } => if call_failure(event) is None {
            World { volumes: w.volumes.remove(id as int), ..w }
        } else {
            w
        },
        _ => w,
    }
}

/// The entries are those of the stacks root in the world `w`.
pub open spec fn shows(entries: Seq<DirEntry>, w: World) -> bool {
    occupied(entries) == w.occupied && declared(entries) == w.declared
}

/// The state, the effect asked for and the world after an operation that
/// began with `start` in the world `w` has been given the answers `answers`,
/// one for each effect it asked for.
pub open spec fn run<S>(
    step: spec_fn(S, Event) -> (S, Effect),
    start: (S, Effect),
    w: World,
    answers: Seq<Event>,
) -> (S, Effect, World)
    decreases answers.len(),
{
    if answers.len() == 0 {
        (start.0, start.1, w)
    } else {
        let before = run(step, start, w, answers.drop_last());
        let next = step(before.0, answers.last());
        (next.0, next.1, performed(before.2, before.1, answers.last()))
    }
}

/// One more answer takes a run one step further.
pub proof fn lemma_run_push<S>(
    step: spec_fn(S, Event) -> (S, Effect),
    start: (S, Effect),
    w: World,
    answers: Seq<Event>,
    answer: Event,
)
    ensures
        run(step, start, w, answers.push(answer)) == ({
            let before = run(step, start, w, answers);
            let next = step(before.0, answer);
            (next.0, next.1, performed(before.2, before.1, answer))
        }),
{
    assert(answers.push(answer).drop_last() =~= answers);
}

/// The steps of a creation under `config`.
pub open spec fn create_steps(config: Config) -> spec_fn(CreateState, Event) -> (
    CreateState,
    Effect,
) {
    |state: CreateState, event: Event| create_next(state, event, config)
}

/// The start of a creation.
pub open spec fn create_start() -> (CreateState, Effect) {
    (CreateState::Scanning, Effect::ScanRoot)
}

/// A creation that meets no failure makes the stack with the identifier after
/// the highest in use: its directory, its manifest, its containers and its
/// volume exist afterwards, and nothing else has changed.
pub proof fn lemma_create_makes_next_stack(
    config: Config,
    w: World,
    entries: Vec<DirEntry>,
    launch: Event,
)
    requires
        consistent(w),
        shows(entries@, w),
        w.occupied.len() < config.max_stacks,
        highest(w.occupied) < i32::MAX,
        read_template(config.env_template@) is Ok,
        call_failure(launch) is None,
    ensures
        ({
            let id = next_id(w.occupied);
            let ports = ports_of(read_template(config.env_template@)->Ok_0, id);
            let end = run(
                create_steps(config),
                create_start(),
                w,
                seq![Event::Scanned(entries), Event::Done, Event::Done, Event::Done, launch],
            );
            &&& !w.occupied.contains(id)
            &&& end.0 == CreateState::Finished
            &&& end.1 == Effect::Finish(Ok(Reply::Created { id: id as i32, ports }))
            &&& end.2 == World {
                occupied: w.occupied.insert(id),
                declared: w.declared.insert(id),
                running: w.running.insert(id),
                volumes: w.volumes.insert(id),
            }
        }),
{
    let step = create_steps(config);
    let start = create_start();
    let a0 = Seq::<Event>::empty();
    let a1 = a0.push(Event::Scanned(entries));
    let a2 = a1.push(Event::Done);
    let a3 = a2.push(Event::Done);
    let a4 = a3.push(Event::Done);
    let a5 = a4.push(launch);
    lemma_next_id_is_fresh(w.occupied);
    lemma_highest_bounds(w.occupied);
    lemma_run_push(step, start, w, a0, Event::Scanned(entries));
    lemma_run_push(step, start, w, a1, Event::Done);
    lemma_run_push(step, start, w, a2, Event::Done);
    lemma_run_push(step, start, w, a3, Event::Done);
    lemma_run_push(step, start, w, a4, launch);
    assert(a5 =~= seq![Event::Scanned(entries), Event::Done, Event::Done, Event::Done, launch]);
}

/// The highest identifier of a finite set of positive numbers is not negative.
pub proof fn lemma_highest_bounds(s: Set<int>)
    requires
        s.finite(),
    ensures
        s.len() == 0 ==> highest(s) == 0,
        s.len() > 0 ==> s.contains(highest(s)),
{
    if s.len() > 0 {
        lemma_highest_exists(s);
    }
}

/// A creation whose containers do not come up leaves nothing behind: the
/// directory it made is removed again, so that the world is as it was and no
/// stack of the new identifier is declared. The failure reported is that of
/// the runtime, with what it wrote to its error stream.
pub proof fn lemma_create_rolls_back(
    config: Config,
    w: World,
    entries: Vec<DirEntry>,
    launch: Event,
)
    requires
        consistent(w),
        shows(entries@, w),
        w.occupied.len() < config.max_stacks,
        highest(w.occupied) < i32::MAX,
        read_template(config.env_template@) is Ok,
        call_failure(launch) is Some,
    ensures
        ({
            let id = next_id(w.occupied);
            let end = run(
                create_steps(config),
                create_start(),
                w,
                seq![
                    Event::Scanned(entries),
                    Event::Done,
                    Event::Done,
                    Event::Done,
                    launch,
                    Event::Done,
                ],
            );
            &&& end.0 == CreateState::Finished
            &&& end.1 == Effect::Finish(
                Err(
                    StackError::DockerError {
                        op: Operation::Create,
                        call: RuntimeCall::ComposeUp,
                        id: Some(id as i32),
                        how: call_failure(launch)->Some_0.0,
                        detail: call_failure(launch)->Some_0.1,
                    },
                ),
            )
            &&& end.2 == w
            &&& !end.2.occupied.contains(id)
            &&& !end.2.declared.contains(id)
        }),
{
    let step = create_steps(config);
    let start = create_start();
    let a0 = Seq::<Event>::empty();
    let a1 = a0.push(Event::Scanned(entries));
    let a2 = a1.push(Event::Done);
    let a3 = a2.push(Event::Done);
    let a4 = a3.push(Event::Done);
    let a5 = a4.push(launch);
    let a6 = a5.push(Event::Done);
    lemma_next_id_is_fresh(w.occupied);
    lemma_highest_bounds(w.occupied);
    lemma_run_push(step, start, w, a0, Event::Scanned(entries));
    lemma_run_push(step, start, w, a1, Event::Done);
    lemma_run_push(step, start, w, a2, Event::Done);
    lemma_run_push(step, start, w, a3, Event::Done);
    lemma_run_push(step, start, w, a4, launch);
    lemma_run_push(step, start, w, a5, Event::Done);
    assert(a6 =~= seq![
        Event::Scanned(entries),
        Event::Done,
        Event::Done,
        Event::Done,
        launch,
        Event::Done,
    ]);
    let end = run(step, start, w, a6);
    assert(end.2.occupied =~= w.occupied);
    assert(end.2.declared =~= w.declared);
}

/// A creation that cannot write the configuration file, or the manifest,
/// removes the directory it made and reports the failure of the write: the
/// world is as it was.
pub proof fn lemma_create_undoes_failed_write(
    config: Config,
    w: World,
    entries: Vec<DirEntry>,
    write: Event,
)
    requires
        consistent(w),
        shows(entries@, w),
        w.occupied.len() < config.max_stacks,
        highest(w.occupied) < i32::MAX,
        read_template(config.env_template@) is Ok,
        step_failure(write) is Some,
    ensures
        run(
            create_steps(config),
            create_start(),
            w,
            seq![Event::Scanned(entries), Event::Done, write, Event::Done],
        ) == (
            CreateState::Finished,
            Effect::Finish(
                Err(
                    StackError::FileSystemError {
                        op: Operation::Create,
                        step: FsStep::WriteConfig,
                        id: Some(next_id(w.occupied) as i32),
                        detail: step_failure(write)->Some_0,
                    },
                ),
            ),
            w,
        ),
        run(
            create_steps(config),
            create_start(),
            w,
            seq![Event::Scanned(entries), Event::Done, Event::Done, write, Event::Done],
        ) == (
            CreateState::Finished,
            Effect::Finish(
                Err(
                    StackError::FileSystemError {
                        op: Operation::Create,
                        step: FsStep::WriteManifest,
                        id: Some(next_id(w.occupied) as i32),
                        detail: step_failure(write)->Some_0,
                    },
                ),
            ),
            w,
        ),
{
    let step = create_steps(config);
    let start = create_start();
    let a0 = Seq::<Event>::empty();
    let a1 = a0.push(Event::Scanned(entries));
    let a2 = a1.push(Event::Done);
    lemma_next_id_is_fresh(w.occupied);
    lemma_highest_bounds(w.occupied);
    lemma_run_push(step, start, w, a0, Event::Scanned(entries));
    lemma_run_push(step, start, w, a1, Event::Done);
    {
        let b3 = a2.push(write);
        let b4 = b3.push(Event::Done);
        lemma_run_push(step, start, w, a2, write);
        lemma_run_push(step, start, w, b3, Event::Done);
        assert(b4 =~= seq![Event::Scanned(entries), Event::Done, write, Event::Done]);
        let end = run(step, start, w, b4);
        assert(end.2.occupied =~= w.occupied);
        assert(end.2.declared =~= w.declared);
    }
    {
        let c3 = a2.push(Event::Done);
        let c4 = c3.push(write);
        let c5 = c4.push(Event::Done);
        lemma_run_push(step, start, w, a2, Event::Done);
        lemma_run_push(step, start, w, c3, write);
        lemma_run_push(step, start, w, c4, Event::Done);
        assert(c5 =~= seq![Event::Scanned(entries), Event::Done, Event::Done, write, Event::Done]);
        let end = run(step, start, w, c5);
        assert(end.2.occupied =~= w.occupied);
        assert(end.2.declared =~= w.declared);
    }
}

/// Where the rollback itself fails, that failure is the one reported, and the
/// directory of the new stack is still there.
pub proof fn lemma_create_reports_failed_rollback(
    config: Config,
    w: World,
    entries: Vec<DirEntry>,
    launch: Event,
    removal: Event,
)
    requires
        consistent(w),
        shows(entries@, w),
        w.occupied.len() < config.max_stacks,
        highest(w.occupied) < i32::MAX,
        read_template(config.env_template@) is Ok,
        call_failure(launch) is Some,
        step_failure(removal) is Some,
    ensures
        ({
            let end = run(
                create_steps(config),
                create_start(),
                w,
                seq![Event::Scanned(entries), Event::Done, Event::Done, Event::Done, launch, removal],
            );
            &&& end.1 == Effect::Finish(
                Err(
                    StackError::FileSystemError {
                        op: Operation::Create,
                        step: FsStep::RollBack,
                        id: Some(next_id(w.occupied) as i32),
                        detail: step_failure(removal)->Some_0,
                    },
                ),
            )
            &&& end.2.occupied == w.occupied.insert(next_id(w.occupied))
            &&& end.2.running == w.running
        }),
{
    let step = create_steps(config);
    let start = create_start();
    let a0 = Seq::<Event>::empty();
    let a1 = a0.push(Event::Scanned(entries));
    let a2 = a1.push(Event::Done);
    let a3 = a2.push(Event::Done);
    let a4 = a3.push(Event::Done);
    let a5 = a4.push(launch);
    let a6 = a5.push(removal);
    lemma_next_id_is_fresh(w.occupied);
    lemma_highest_bounds(w.occupied);
    lemma_run_push(step, start, w, a0, Event::Scanned(entries));
    lemma_run_push(step, start, w, a1, Event::Done);
    lemma_run_push(step, start, w, a2, Event::Done);
    lemma_run_push(step, start, w, a3, Event::Done);
    lemma_run_push(step, start, w, a4, launch);
    lemma_run_push(step, start, w, a5, removal);
    assert(a6 =~= seq![
        Event::Scanned(entries),
        Event::Done,
        Event::Done,
        Event::Done,
        launch,
        removal,
    ]);
}

/// Once as many identifiers are in use as stacks are allowed, a creation is
/// refused as soon as it has seen the entries of the root, and changes
/// nothing.
pub proof fn lemma_create_refused_at_capacity(config: Config, w: World, entries: Vec<DirEntry>)
    requires
        shows(entries@, w),
        w.occupied.len() >= config.max_stacks,
    ensures
        run(create_steps(config), create_start(), w, seq![Event::Scanned(entries)]) == (
            CreateState::Finished,
            Effect::Finish(
                Err(
                    StackError::ValidationError(
                        Invalid::CapacityReached { max_stacks: config.max_stacks },
                    ),
                ),
            ),
            w,
        ),
{
    lemma_run_push(
        create_steps(config),
        create_start(),
        w,
        Seq::<Event>::empty(),
        Event::Scanned(entries),
    );
}

/// After one stack of a full fleet is gone, a creation is admitted again: it
/// goes on to make the directory of the next stack.
pub proof fn lemma_create_admitted_after_delete(
    config: Config,
    w: World,
    gone: int,
    entries: Vec<DirEntry>,
)
    requires
        consistent(w),
        w.occupied.len() == config.max_stacks,
        w.occupied.contains(gone),
        occupied(entries@) == w.occupied.remove(gone),
        highest(w.occupied.remove(gone)) < i32::MAX,
        read_template(config.env_template@) is Ok,
    ensures
        create_planned(entries@, config).1 == (Effect::CreateDirectory {
            id: next_id(w.occupied.remove(gone)) as i32,
        }),
{
}

/// The identifiers in use after `n` creations in a row, none of which failed,
/// starting from the identifiers `s`.
pub open spec fn after_creates(s: Set<int>, n: nat) -> Set<int>
    decreases n,
{
    if n == 0 {
        s
    } else {
        after_creates(s, (n - 1) as nat).insert(next_id(after_creates(s, (n - 1) as nat)))
    }
}

/// Creations in a row, with no deletion between them, number their stacks
/// upwards one by one: the creation that follows `n` others gets the
/// identifier `n` above the one that the first got. Starting with no stack at
/// all, the stacks are numbered 1, 2, 3 and so on.
pub proof fn lemma_creates_count_up(s: Set<int>, n: nat)
    requires
        s.finite(),
    ensures
        after_creates(s, n).finite(),
        next_id(after_creates(s, n)) == next_id(s) + n,
        s.len() == 0 ==> next_id(after_creates(s, n)) == n + 1,
    decreases n,
{
    if n > 0 {
        let p = after_creates(s, (n - 1) as nat);
        lemma_creates_count_up(s, (n - 1) as nat);
        lemma_next_id_is_fresh(p);
        let a = next_id(p);
        lemma_highest_is(p.insert(a), a);
    }
}

/// No two creations in a row give the same identifier: a later one gives a
/// higher identifier than an earlier one.
pub proof fn lemma_creates_never_share_an_id(s: Set<int>, i: nat, j: nat)
    requires
        s.finite(),
        i < j,
    ensures
        next_id(after_creates(s, i)) < next_id(after_creates(s, j)),
        after_creates(s, j).contains(next_id(after_creates(s, i))),
        !after_creates(s, j).contains(next_id(after_creates(s, j))),
{
    lemma_creates_count_up(s, i);
    lemma_creates_count_up(s, j);
    lemma_next_id_is_fresh(after_creates(s, j));
    lemma_creates_keep(s, i + 1, j);
}

/// Creations only add identifiers.
pub proof fn lemma_creates_keep(s: Set<int>, i: nat, j: nat)
    requires
        i <= j,
    ensures
        after_creates(s, i).subset_of(after_creates(s, j)),
    decreases j,
{
    if i < j {
        lemma_creates_keep(s, i, (j - 1) as nat);
    }
}

/// After the stack with the highest identifier is deleted, the next creation
/// gives 1 if no stack is left, and otherwise the identifier after the highest
/// that is left. That is the deleted identifier again exactly where the one
/// just below it is still in use, or where the deleted stack was stack 1 and
/// alone.
pub proof fn lemma_next_id_after_deleting_highest(s: Set<int>)
    requires
        s.finite(),
        s.len() > 0,
        forall|x: int| s.contains(x) ==> x > 0,
    ensures
        ({
            let left = s.remove(highest(s));
            &&& left.len() == 0 ==> next_id(left) == 1
            &&& left.len() > 0 ==> next_id(left) == highest(left) + 1 && highest(left) < highest(s)
            &&& next_id(left) <= highest(s)
            &&& next_id(left) == highest(s) <==> left.contains(highest(s) - 1) || (left.len() == 0
                && highest(s) == 1)
        }),
{
    lemma_highest_exists(s);
    let m = highest(s);
    let left = s.remove(m);
    lemma_highest_bounds(left);
    if left.len() > 0 {
        assert(s.contains(highest(left)));
        if left.contains(m - 1) {
            lemma_highest_is(left, m - 1);
        }
    }
}

/// Where the stack with the highest identifier is deleted and the identifier
/// just below it is not in use, the next creation gives the deleted identifier
/// again only if the deleted stack was the only one.
pub proof fn lemma_highest_id_reused_only_if_sole(s: Set<int>)
    requires
        s.finite(),
        s.len() > 0,
        forall|x: int| s.contains(x) ==> x > 0,
        !s.contains(highest(s) - 1),
    ensures
        next_id(s.remove(highest(s))) == highest(s) ==> s.len() == 1 && highest(s) == 1,
{
    lemma_next_id_after_deleting_highest(s);
}

/// An identifier below the highest is not given again once its stack is
/// deleted: the next creation still gives the identifier after the highest.
pub proof fn lemma_deleted_id_below_highest_not_reused(s: Set<int>, gone: int)
    requires
        s.finite(),
        s.contains(gone),
        gone != highest(s),
    ensures
        next_id(s.remove(gone)) == next_id(s),
        next_id(s.remove(gone)) > gone,
{
    lemma_highest_exists(s);
    let m = highest(s);
    lemma_highest_is(s.remove(gone), m);
}

/// The steps of a start, a stop or a status update.
pub open spec fn switch_steps() -> spec_fn(SwitchState, Event) -> (SwitchState, Effect) {
    |state: SwitchState, event: Event| switch_next(state, event)
}

/// The steps of a deletion.
pub open spec fn delete_steps() -> spec_fn(DeleteState, Event) -> (DeleteState, Effect) {
    |state: DeleteState, event: Event| delete_next(state, event)
}

/// A start, a stop or a status update of a stack whose manifest is there
/// calls the runtime once. If the call goes well the containers are up, or
/// down, as was asked; if not, its failure is reported and nothing has
/// changed. Either way the directory and the manifest are as they were.
pub proof fn lemma_switch_toggles_containers(
    w: World,
    op: Operation,
    target: StackStatus,
    stack: String,
    call: Event,
)
    requires
        text_id(encode_utf8(stack@)) is Some,
    ensures
        ({
            let id = text_id(encode_utf8(stack@))->Some_0;
            let end = run(
                switch_steps(),
                switch_begun(op, target, stack),
                w,
                seq![Event::Probed(true), call],
            );
            &&& end.0 == SwitchState::Finished
            &&& end.2.occupied == w.occupied
            &&& end.2.declared == w.declared
            &&& call_failure(call) is None ==> {
                &&& end.1 == Effect::Finish(Ok(switch_reply(op, id)))
                &&& target == StackStatus::Running ==> end.2.running == w.running.insert(id as int)
                &&& target == StackStatus::Stopped ==> end.2.running == w.running.remove(id as int)
            }
            &&& call_failure(call) matches Some(failure) ==> {
                &&& end.1 == Effect::Finish(
                    Err(
                        StackError::DockerError {
                            op,
                            call: if target == StackStatus::Running {
                                RuntimeCall::ComposeUp
                            } else {
                                RuntimeCall::ComposeDown
                            },
                            id: text_id(encode_utf8(stack@)),
                            how: failure.0,
                            detail: failure.1,
                        },
                    ),
                )
                &&& end.2 == w
            }
        }),
{
    let step = switch_steps();
    let start = switch_begun(op, target, stack);
    let a0 = Seq::<Event>::empty();
    let a1 = a0.push(Event::Probed(true));
    let a2 = a1.push(call);
    lemma_run_push(step, start, w, a0, Event::Probed(true));
    lemma_run_push(step, start, w, a1, call);
    assert(a2 =~= seq![Event::Probed(true), call]);
}

/// A stack whose manifest is not reported to be there is not found, by a
/// start, a stop, a status update and a deletion alike, and nothing is asked
/// of the runtime.
pub proof fn lemma_missing_stack_is_not_found(
    w: World,
    op: Operation,
    target: StackStatus,
    stack: String,
    probe: Event,
)
    requires
        text_id(encode_utf8(stack@)) is Some,
        probe != Event::Probed(true),
    ensures
        run(switch_steps(), switch_begun(op, target, stack), w, seq![probe]) == (
            SwitchState::Finished,
            Effect::Finish(Err::<Reply, StackError>(StackError::StackNotFound(stack))),
            w,
        ),
        run(delete_steps(), delete_begun(stack), w, seq![probe]) == (
            DeleteState::Finished,
            Effect::Finish(Err::<Reply, StackError>(StackError::StackNotFound(stack))),
            w,
        ),
{
    let a0 = Seq::<Event>::empty();
    lemma_run_push(switch_steps(), switch_begun(op, target, stack), w, a0, probe);
    lemma_run_push(delete_steps(), delete_begun(stack), w, a0, probe);
}

/// A deletion that meets no failure takes the stack away altogether: its
/// containers are down, and its volume, its manifest and its directory are
/// gone.
pub proof fn lemma_delete_removes_stack(w: World, stack: String, down: Event, volume: Event)
    requires
        text_id(encode_utf8(stack@)) is Some,
        call_failure(down) is None,
        call_failure(volume) is None,
    ensures
        ({
            let id = text_id(encode_utf8(stack@))->Some_0 as int;
            run(
                delete_steps(),
                delete_begun(stack),
                w,
                seq![Event::Probed(true), down, volume, Event::Done],
            ) == (
                DeleteState::Finished,
                Effect::Finish(
                    Ok::<Reply, StackError>(Reply::Deleted { id: text_id(encode_utf8(stack@))->Some_0 }),
                ),
                World {
                    occupied: w.occupied.remove(id),
                    declared: w.declared.remove(id),
                    running: w.running.remove(id),
                    volumes: w.volumes.remove(id),
                },
            )
        }),
{
    let step = delete_steps();
    let start = delete_begun(stack);
    let a0 = Seq::<Event>::empty();
    let a1 = a0.push(Event::Probed(true));
    let a2 = a1.push(down);
    let a3 = a2.push(volume);
    let a4 = a3.push(Event::Done);
    lemma_run_push(step, start, w, a0, Event::Probed(true));
    lemma_run_push(step, start, w, a1, down);
    lemma_run_push(step, start, w, a2, volume);
    lemma_run_push(step, start, w, a3, Event::Done);
    assert(a4 =~= seq![Event::Probed(true), down, volume, Event::Done]);
}

/// A deletion ends at the first of its three steps that fails, and undoes
/// nothing. If the containers cannot be taken down, nothing has changed. If
/// the volume cannot be removed, the containers are down and the volume is
/// still there. If the directory cannot be removed, the containers are down
/// and the volume is gone. In each case the directory and the manifest are as
/// they were, so that the stack is still declared.
pub proof fn lemma_delete_ends_at_first_failure(
    w: World,
    stack: String,
    down: Event,
    volume: Event,
    removal: Event,
)
    requires
        text_id(encode_utf8(stack@)) is Some,
    ensures
        call_failure(down) matches Some(failure) ==> run(
            delete_steps(),
            delete_begun(stack),
            w,
            seq![Event::Probed(true), down],
        ) == (
            DeleteState::Finished,
            Effect::Finish(
                Err::<Reply, StackError>(
                    StackError::DockerError {
                        op: Operation::Delete,
                        call: RuntimeCall::ComposeDown,
                        id: text_id(encode_utf8(stack@)),
                        how: failure.0,
                        detail: failure.1,
                    },
                ),
            ),
            w,
        ),
        call_failure(down) is None ==> (call_failure(volume) matches Some(failure) ==> run(
            delete_steps(),
            delete_begun(stack),
            w,
            seq![Event::Probed(true), down, volume],
        ) == (
            DeleteState::Finished,
            Effect::Finish(
                Err::<Reply, StackError>(
                    StackError::DockerError {
                        op: Operation::Delete,
                        call: RuntimeCall::VolumeRemove,
                        id: text_id(encode_utf8(stack@)),
                        how: failure.0,
                        detail: failure.1,
                    },
                ),
            ),
            World { running: w.running.remove(text_id(encode_utf8(stack@))->Some_0 as int), ..w },
        )),
        call_failure(down) is None && call_failure(volume) is None ==> (step_failure(
            removal,
        ) matches Some(detail) ==> run(
            delete_steps(),
            delete_begun(stack),
            w,
            seq![Event::Probed(true), down, volume, removal],
        ) == (
            DeleteState::Finished,
            Effect::Finish(
                Err::<Reply, StackError>(
                    StackError::FileSystemError {
                        op: Operation::Delete,
                        step: FsStep::RemoveDirectory,
                        id: Some(text_id(encode_utf8(stack@))->Some_0),
                        detail,
                    },
                ),
            ),
            World {
                running: w.running.remove(text_id(encode_utf8(stack@))->Some_0 as int),
                volumes: w.volumes.remove(text_id(encode_utf8(stack@))->Some_0 as int),
                ..w
            },
        )),
{
    let step = delete_steps();
    let start = delete_begun(stack);
    let a0 = Seq::<Event>::empty();
    let a1 = a0.push(Event::Probed(true));
    let a2 = a1.push(down);
    let a3 = a2.push(volume);
    let a4 = a3.push(removal);
    lemma_run_push(step, start, w, a0, Event::Probed(true));
    lemma_run_push(step, start, w, a1, down);
    lemma_run_push(step, start, w, a2, volume);
    lemma_run_push(step, start, w, a3, removal);
    assert(a2 =~= seq![Event::Probed(true), down]);
    assert(a3 =~= seq![Event::Probed(true), down, volume]);
    assert(a4 =~= seq![Event::Probed(true), down, volume, removal]);
}

/// A listing that finds no declared stack ends at once with an empty result:
/// the effect after the scan is the end, not a question to the runtime.
pub proof fn lemma_empty_listing_asks_no_runtime(entries: Vec<DirEntry>, next: (ListState, Effect))
    requires
        forall|id: int| !declared(entries@).contains(id),
        list_follows(ListState::Scanning, Event::Scanned(entries), next),
    ensures
        next == (ListState::Finished, Effect::Finish(Ok::<Reply, StackError>(Reply::NoStacks))),
        next.1 != Effect::ListRunning,
{
    assert(declared(entries@) =~= Set::<int>::empty());
}

/// The world `w` with the directory of stack `id` added.
pub open spec fn with_directory(w: World, id: int) -> World {
    World { occupied: w.occupied.insert(id), ..w }
}

/// The world `w` with the directory and the manifest of stack `id` added.
pub open spec fn with_manifest(w: World, id: int) -> World {
    World { occupied: w.occupied.insert(id), declared: w.declared.insert(id), ..w }
}

/// The world `w` with all of stack `id` added: directory, manifest, running
/// containers and volume.
pub open spec fn with_stack(w: World, id: int) -> World {
    World {
        occupied: w.occupied.insert(id),
        declared: w.declared.insert(id),
        running: w.running.insert(id),
        volumes: w.volumes.insert(id),
    }
}

/// The failure is that of a rollback.
pub open spec fn is_failed_rollback(e: StackError) -> bool {
    e matches StackError::FileSystemError { step, .. } && step == FsStep::RollBack
}

/// Where the answers begin with the entries of the root, these are the entries
/// of the world `w`.
pub open spec fn scan_shows(answers: Seq<Event>, w: World) -> bool {
    answers.len() > 0 ==> (answers[0] matches Event::Scanned(entries) ==> shows(entries@, w))
}

/// What holds at every point of a creation that began in the world `w`, after
/// `n` answers.
pub open spec fn create_invariant(w: World, n: nat, at: (CreateState, Effect, World)) -> bool {
    let id = next_id(w.occupied);
    match at.0 {
        CreateState::Scanning => n == 0 && at.1 == Effect::ScanRoot && at.2 == w,
        CreateState::MakingDirectory { id: i, ports } => i == id && at.1
            == (Effect::CreateDirectory { id: i }) && at.2 == w,
        CreateState::WritingConfig { id: i, ports } => i == id && at.1 == (Effect::WriteConfig {
            id: i,
            ports,
        }) && at.2 == with_directory(w, id),
        CreateState::WritingManifest { id: i, ports } => i == id && at.1
            == (Effect::WriteManifest { id: i }) && at.2 == with_directory(w, id),
        CreateState::Launching { id: i, ports } => i == id && at.1 == (Effect::ComposeUp { id: i })
            && at.2 == with_manifest(w, id),
        CreateState::RollingBack { id: i, cause } => i == id && at.1 == (Effect::RemoveDirectory {
            id: i,
        }) && !is_failed_rollback(cause) && (at.2 == with_directory(w, id) || at.2
            == with_manifest(w, id)),
        CreateState::Finished => match at.1 {
            Effect::Finish(Ok(reply)) => reply matches Reply::Created { id: i, .. } && i == id
                && at.2 == with_stack(w, id),
            Effect::Finish(Err(e)) => if is_failed_rollback(e) {
                at.2 == with_directory(w, id) || at.2 == with_manifest(w, id)
            } else {
                at.2 == w
            },
            Effect::Idle => true,
            _ => false,
        },
    }
}

proof fn lemma_create_invariant(config: Config, w: World, answers: Seq<Event>)
    requires
        consistent(w),
        scan_shows(answers, w),
    ensures
        create_invariant(w, answers.len(), run(create_steps(config), create_start(), w, answers)),
    decreases answers.len(),
{
    if answers.len() > 0 {
        let earlier = answers.drop_last();
        lemma_create_invariant(config, w, earlier);
        lemma_next_id_is_fresh(w.occupied);
        let before = run(create_steps(config), create_start(), w, earlier);
        let id = next_id(w.occupied);
        if before.0 is RollingBack && step_failure(answers.last()) is None {
            // the directory goes, and with it the manifest: both were new
            assert(with_directory(w, id).occupied.remove(id) =~= w.occupied);
            assert(with_directory(w, id).declared.remove(id) =~= w.declared);
            assert(with_manifest(w, id).occupied.remove(id) =~= w.occupied);
            assert(with_manifest(w, id).declared.remove(id) =~= w.declared);
        }
    }
}

/// A creation is all or nothing. Whatever answers it is given, once it has
/// ended well the new stack is all there, under the identifier after the
/// highest that was in use, and nothing else has changed; once it has ended
/// with a failure the world is as it was before. The one exception is a
/// rollback that fails: then the directory of the new stack is left behind,
/// and the failure reported is that of the rollback.
pub proof fn lemma_create_is_all_or_nothing(config: Config, w: World, answers: Seq<Event>)
    requires
        consistent(w),
        scan_shows(answers, w),
    ensures
        ({
            let end = run(create_steps(config), create_start(), w, answers);
            let id = next_id(w.occupied);
            &&& !w.occupied.contains(id)
            &&& end.1 matches Effect::Finish(Ok(reply)) ==> {
                &&& reply matches Reply::Created { id: given, .. } && given == id
                &&& end.2 == with_stack(w, id)
            }
            &&& end.1 matches Effect::Finish(Err(e)) ==> {
                ||| end.2 == w
                ||| is_failed_rollback(e) && end.2.occupied == w.occupied.insert(id) && end.2.running
                    == w.running
            }
        }),
{
    lemma_create_invariant(config, w, answers);
    lemma_create_only_finishes_when_finished(config, w, answers);
    lemma_next_id_is_fresh(w.occupied);
    let end = run(create_steps(config), create_start(), w, answers);
    assert(create_invariant(w, answers.len(), end));
}

/// A creation names its result only when it has ended.
proof fn lemma_create_only_finishes_when_finished(config: Config, w: World, answers: Seq<Event>)
    ensures
        run(create_steps(config), create_start(), w, answers).1 is Finish ==> run(
            create_steps(config),
            create_start(),
            w,
            answers,
        ).0 is Finished,
{
}

/// A start, a stop or a status update never touches a directory or a
/// manifest, whatever answers it is given.
pub proof fn lemma_switch_keeps_files(
    w: World,
    op: Operation,
    target: StackStatus,
    stack: String,
    update: StatusUpdate,
    answers: Seq<Event>,
)
    ensures
        run(switch_steps(), switch_begun(op, target, stack), w, answers).2.occupied == w.occupied,
        run(switch_steps(), switch_begun(op, target, stack), w, answers).2.declared == w.declared,
        run(switch_steps(), update_begun(stack, update), w, answers).2.occupied == w.occupied,
        run(switch_steps(), update_begun(stack, update), w, answers).2.declared == w.declared,
{
    lemma_switch_effects(w, switch_begun(op, target, stack), answers);
    lemma_switch_effects(w, update_begun(stack, update), answers);
}

/// The effects that a start, a stop or a status update asks for.
proof fn lemma_switch_effects(w: World, start: (SwitchState, Effect), answers: Seq<Event>)
    requires
        start.1 is ProbeManifest || start.1 is Finish,
        start.0 is Probing <==> start.1 is ProbeManifest,
        start.0 is Finished <==> start.1 is Finish,
    ensures
        ({
            let at = run(switch_steps(), start, w, answers);
            &&& at.2.occupied == w.occupied
            &&& at.2.declared == w.declared
            &&& match at.0 {
                SwitchState::Probing { .. } => at.1 is ProbeManifest,
                SwitchState::Switching { .. } => at.1 is ComposeUp || at.1 is ComposeDown,
                SwitchState::Finished => at.1 is Finish || at.1 is Idle,
            }
        }),
    decreases answers.len(),
{
    if answers.len() > 0 {
        lemma_switch_effects(w, start, answers.drop_last());
    }
}

/// What holds at every point of a deletion that began in the world `w`: until
/// it has ended well, the directory and the manifest are as they were.
pub open spec fn delete_invariant(w: World, at: (DeleteState, Effect, World)) -> bool {
    match at.0 {
        DeleteState::Probing { .. } => at.1 is ProbeManifest && at.2 == w,
        DeleteState::Stopping { id, .. } => at.1 == (Effect::ComposeDown { id }) && at.2.occupied
            == w.occupied && at.2.declared == w.declared,
        DeleteState::RemovingVolume { id, .. } => at.1 == (Effect::RemoveVolume { id })
            && at.2.occupied == w.occupied && at.2.declared == w.declared,
        DeleteState::RemovingDirectory { id, .. } => at.1 == (Effect::RemoveDirectory { id })
            && at.2.occupied == w.occupied && at.2.declared == w.declared,
        DeleteState::Finished => match at.1 {
            Effect::Finish(Ok(_)) => true,
            Effect::Finish(Err(_)) => at.2.occupied == w.occupied && at.2.declared == w.declared,
            Effect::Idle => true,
            _ => false,
        },
    }
}

/// A deletion that ends with a failure, at whatever step and whatever answers
/// it is given, has left the directory and the manifest of every stack as they
/// were: the stack it was to delete is still declared if it was before.
pub proof fn lemma_failed_delete_keeps_stack_declared(w: World, stack: String, answers: Seq<Event>)
    ensures
        delete_invariant(w, run(delete_steps(), delete_begun(stack), w, answers)),
        run(delete_steps(), delete_begun(stack), w, answers).1 matches Effect::Finish(Err(_)) ==> {
            &&& run(delete_steps(), delete_begun(stack), w, answers).2.occupied == w.occupied
            &&& run(delete_steps(), delete_begun(stack), w, answers).2.declared == w.declared
        },
    decreases answers.len(),
{
    if answers.len() > 0 {
        lemma_failed_delete_keeps_stack_declared(w, stack, answers.drop_last());
        let before = run(delete_steps(), delete_begun(stack), w, answers.drop_last());
        let after = run(delete_steps(), delete_begun(stack), w, answers);
        assert((after.0, after.1) == delete_next(before.0, answers.last()));
    }
}

} // verus!
