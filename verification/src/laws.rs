//! What holds of the library as a whole, stated over the step functions and
//! proved from their definitions.

use vstd::prelude::*;
use crate::collection::{batch, batch_from, start_all};
use crate::config::document;
use crate::error::DockrError;
use crate::module::{
    candidate, created, discovered, first_candidate, is_config_name, lemma_first_candidate_none,
    loaded, ModuleView,
};
use crate::protocol::{done, succeeded, ActionView, Event, Op, Warning};
use crate::snapshot::{FileEntry, Listing};

verus! {

/// A module loaded from a configuration file equals the module created
/// directly from the entries of the document, whatever working directory
/// the latter is given.
pub proof fn law_load_equals_create(path: Seq<char>, contents: Seq<u8>, pwd: Seq<char>)
    ensures
        loaded(path, contents) matches Ok(module) ==> (document(contents) matches Ok(json)
            && module.same_config(created(json.name, pwd, json.cmd, json.args))),
{
}

/// Starting a running module does nothing: the module stays as it is and no
/// process is asked for, whatever the event. So a second `start`, called
/// right after a first one that succeeded, creates no second process.
pub proof fn law_start_is_idempotent(module: ModuleView, first: Event, second: Event)
    ensures
        module.running() ==> module.start(second) == (module, done()),
        succeeded(module.start(first).1) ==> module.start(first).0.running(),
        succeeded(module.start(first).1) ==> module.start(first).0.start(second) == (
            module.start(first).0,
            done(),
        ),
{
}

/// Once a poll reports that the process still runs when the grace period is
/// over, `stop_in` polls no more: it asks for the kill, and when the kill is
/// reported the module is idle and the operation done.
pub proof fn law_stop_kills_at_timeout(module: ModuleView, timeout: u128, elapsed_ms: u128)
    requires
        module.running(),
        elapsed_ms >= timeout,
    ensures
        module.stop_in(timeout, Event::Running { elapsed_ms }) == (
            module,
            ActionView::Kill { pid: module.proc->0 },
        ),
        module.stop_in(timeout, Event::Killed) == (module.with_proc(None), done()),
{
}

/// A process that exits on its own is not killed: when a poll reports the
/// exit, `stop_in` is done and the module idle. A kill is asked for only on
/// the report that the process still runs after the grace period; before
/// that, such a report leads to another poll.
pub proof fn law_stop_is_graceful(module: ModuleView, timeout: u128, event: Event)
    requires
        module.running(),
    ensures
        module.stop_in(timeout, Event::Exited) == (module.with_proc(None), done()),
        module.stop_in(timeout, event).1 is Kill ==> (event matches Event::Running { elapsed_ms }
            && elapsed_ms >= timeout),
        (event matches Event::Running { elapsed_ms } && elapsed_ms < timeout) ==> module.stop_in(
            timeout,
            event,
        ) == (module, ActionView::Poll { pid: module.proc->0 }),
{
}

/// A module holds a process exactly between a spawn that succeeded and a
/// wait, poll or kill that saw the process end. No step changes the name, the
/// working directory, the executable or the arguments, and no step replaces
/// the process of a running module by another.
pub proof fn law_process_lifecycle(module: ModuleView, op: Op, event: Event)
    ensures
        module.step(op, event).0 == module.with_proc(module.step(op, event).0.proc),
        !module.running() ==> (module.step(op, event).0.running() <==> op is Start
            && event is Spawned),
        module.running() ==> (!module.step(op, event).0.running() <==> (op is Wait
            && event is Exited) || (op is Stop && (event is Exited || event is Killed))),
        module.running() && module.step(op, event).0.running() ==> module.step(op, event).0
            == module,
        module.run(event).0 == module.with_proc(module.run(event).0.proc),
        !module.running() ==> (module.run(event).0.running() <==> event is Spawned),
        module.running() ==> (!module.run(event).0.running() <==> event is Exited),
{
}

/// A batch that is begun changes no module.
proof fn lemma_begun_batch_changes_nothing(modules: Seq<ModuleView>, op: Op, from: int)
    requires
        0 <= from,
    ensures
        batch_from(modules, op, from, Event::Begin).0 == modules,
    decreases modules.len() - from,
{
    if from < modules.len() {
        lemma_begun_batch_changes_nothing(modules, op, from + 1);
        assert(modules.update(from, modules[from]) =~= modules);
    }
}

/// One step of a batch works on one module: the first on which the operation
/// has something left to do. That module takes the step with the event, every
/// other module stays as it is, and where the step fails on that module, the
/// failure is the answer of the batch. So the modules behind a failure are
/// not touched.
pub proof fn law_batch_is_sequential(modules: Seq<ModuleView>, op: Op, event: Event, first: int)
    requires
        0 <= first < modules.len(),
        forall|i: int| 0 <= i < first ==> (#[trigger] modules[i]).settled(op),
        !modules[first].settled(op),
    ensures
        batch(modules, op, event).0 == modules.update(first, modules[first].step(op, event).0),
        !succeeded(modules[first].step(op, event).1) ==> batch(modules, op, event).1
            == modules[first].step(op, event).1,
{
    lemma_batch_skips_settled(modules, op, 0, first, event);
    let taken = modules.update(first, modules[first].step(op, event).0);
    if succeeded(modules[first].step(op, event).1) {
        lemma_begun_batch_changes_nothing(taken, op, first + 1);
    }
}

/// A batch has nothing to do where the operation has nothing left to do on
/// any module: it is done at once and changes nothing.
pub proof fn law_batch_on_settled_modules(modules: Seq<ModuleView>, op: Op, event: Event)
    requires
        forall|i: int| 0 <= i < modules.len() ==> (#[trigger] modules[i]).settled(op),
    ensures
        batch(modules, op, event) == (modules, done()),
{
    lemma_batch_skips_settled(modules, op, 0, modules.len() as int, event);
}

/// The actions that `start_all` answers with, one call after the other, when
/// the first call is made with `event` and every spawn succeeds; `pids` holds
/// the process ids that the spawns give, in order.
pub open spec fn start_all_actions(modules: Seq<ModuleView>, event: Event, pids: Seq<u32>) -> Seq<
    ActionView,
>
    decreases pids.len(),
{
    let (next, action) = start_all(modules, event);
    if action is Spawn && pids.len() > 0 {
        seq![action] + start_all_actions(next, Event::Spawned { pid: pids[0] }, pids.drop_first())
    } else {
        seq![action]
    }
}

/// The spawns of the modules at or after position `from`, in order, and the
/// successful end behind them.
pub open spec fn spawns_from(modules: Seq<ModuleView>, from: int) -> Seq<ActionView> {
    Seq::new(
        (modules.len() - from + 1) as nat,
        |k: int|
            if from + k < modules.len() {
                ActionView::Spawn(modules[from + k].launch())
            } else {
                done()
            },
    )
}

/// A batch passes over the modules on which the operation has nothing left
/// to do.
proof fn lemma_batch_skips_settled(
    modules: Seq<ModuleView>,
    op: Op,
    from: int,
    to: int,
    event: Event,
)
    requires
        0 <= from <= to <= modules.len(),
        forall|i: int| from <= i < to ==> (#[trigger] modules[i]).settled(op),
    ensures
        batch_from(modules, op, from, event) == batch_from(modules, op, to, event),
    decreases to - from,
{
    if from < to {
        lemma_batch_skips_settled(modules, op, from + 1, to, event);
    }
}

/// The step of `start_all` that takes in the report of a spawn: the modules
/// before `next - 1` run, the one at `next - 1` is the one that was spawned,
/// and those behind it are idle.
proof fn lemma_start_all_after_spawn(modules: Seq<ModuleView>, next: int, pid: u32)
    requires
        1 <= next <= modules.len(),
        forall|i: int| 0 <= i < next - 1 ==> (#[trigger] modules[i]).running(),
        forall|i: int| next - 1 <= i < modules.len() ==> !(#[trigger] modules[i]).running(),
    ensures
        start_all(modules, Event::Spawned { pid }) == (
            modules.update(next - 1, modules[next - 1].with_proc(Some(pid))),
            if next < modules.len() {
                ActionView::Spawn(modules[next].launch())
            } else {
                done()
            },
        ),
{
    let event = Event::Spawned { pid };
    let taken = modules.update(next - 1, modules[next - 1].with_proc(Some(pid)));
    lemma_batch_skips_settled(modules, Op::Start, 0, next - 1, event);
    assert(batch_from(modules, Op::Start, next - 1, event) == batch_from(
        taken,
        Op::Start,
        next,
        Event::Begin,
    ));
    if next < modules.len() {
        assert(taken.update(next, taken[next]) =~= taken);
    }
}

/// The actions of `start_all` from the report of a spawn on.
proof fn lemma_start_all_actions_after_spawn(
    modules: Seq<ModuleView>,
    next: int,
    pid: u32,
    pids: Seq<u32>,
)
    requires
        1 <= next <= modules.len(),
        forall|i: int| 0 <= i < next - 1 ==> (#[trigger] modules[i]).running(),
        forall|i: int| next - 1 <= i < modules.len() ==> !(#[trigger] modules[i]).running(),
        pids.len() == modules.len() - next,
    ensures
        start_all_actions(modules, Event::Spawned { pid }, pids) == spawns_from(modules, next),
    decreases pids.len(),
{
    lemma_start_all_after_spawn(modules, next, pid);
    if next < modules.len() {
        let taken = modules.update(next - 1, modules[next - 1].with_proc(Some(pid)));
        lemma_start_all_actions_after_spawn(taken, next + 1, pids[0], pids.drop_first());
        assert(seq![ActionView::Spawn(modules[next].launch())] + spawns_from(taken, next + 1)
            =~= spawns_from(modules, next));
    } else {
        assert(seq![done()] =~= spawns_from(modules, next));
    }
}

/// `start_all` goes through the modules in the order of the collection: on
/// idle modules, and while every spawn succeeds, it asks for the spawn of the
/// first module, then of the second, and so on to the last, and is done.
pub proof fn law_start_all_keeps_order(modules: Seq<ModuleView>, pids: Seq<u32>)
    requires
        modules.len() > 0,
        pids.len() == modules.len(),
        forall|i: int| 0 <= i < modules.len() ==> !(#[trigger] modules[i]).running(),
    ensures
        start_all_actions(modules, Event::Begin, pids) == spawns_from(modules, 0),
{
    assert(modules.update(0, modules[0]) =~= modules);
    assert(start_all(modules, Event::Begin) == (modules, ActionView::Spawn(modules[0].launch())));
    lemma_start_all_actions_after_spawn(modules, 1, pids[0], pids.drop_first());
    assert(seq![ActionView::Spawn(modules[0].launch())] + spawns_from(modules, 1) =~= spawns_from(
        modules,
        0,
    ));
}

/// `start_all` on a collection without modules never fails: it asks for the
/// warning that the batch is empty, and is done once that was emitted.
pub proof fn law_start_all_on_empty(event: Event)
    ensures
        start_all(Seq::empty(), Event::Begin) == (
            Seq::<ModuleView>::empty(),
            ActionView::Warn(Warning::EmptyCollection),
        ),
        start_all(Seq::empty(), Event::Warned) == (Seq::<ModuleView>::empty(), done()),
        !(start_all(Seq::empty(), event).1 matches ActionView::Done(Err(_))),
{
}

/// Where the search from `from` finds a module, it is that of an entry at or
/// after `from`, and no entry between the two gives one.
proof fn lemma_first_candidate_found(entries: Seq<FileEntry>, from: int) -> (at: int)
    requires
        0 <= from,
        first_candidate(entries, from) is Some,
    ensures
        from <= at < entries.len(),
        candidate(entries[at]) == first_candidate(entries, from),
        forall|i: int| from <= i < at ==> candidate(#[trigger] entries[i]) is None,
    decreases entries.len() - from,
{
    if candidate(entries[from]) is Some {
        from
    } else {
        lemma_first_candidate_found(entries, from + 1)
    }
}

/// The search finds the module of an entry before which no entry gives one.
proof fn lemma_first_candidate_at(entries: Seq<FileEntry>, from: int, at: int)
    requires
        0 <= from <= at < entries.len(),
        candidate(entries[at]) is Some,
        forall|i: int| from <= i < at ==> candidate(#[trigger] entries[i]) is None,
    ensures
        first_candidate(entries, from) == candidate(entries[at]),
    decreases at - from,
{
    if from < at {
        lemma_first_candidate_at(entries, from + 1, at);
    }
}

/// Discovery fails only where the directory could not be listed. A path that
/// is no directory, and a directory in which no entry gives a module, yield
/// the answer that nothing was found, and nothing else does. In particular a
/// directory holds nothing where no entry's own name holds the marker,
/// whatever the path of the directory and whatever the files hold.
pub proof fn law_discovery_absence(dir: Listing<FileEntry>)
    ensures
        discovered(dir) is Err <==> dir is Unreadable,
        discovered(dir) == Ok::<Option<ModuleView>, DockrError>(None) <==> (dir is NotADirectory
            || (dir matches Listing::Entries(entries) && forall|i: int|
            0 <= i < entries.len() ==> candidate(#[trigger] entries[i]) is None)),
        (dir matches Listing::Entries(entries) && forall|i: int|
            0 <= i < entries.len() ==> !is_config_name((#[trigger] entries[i]).name@))
            ==> discovered(dir) == Ok::<Option<ModuleView>, DockrError>(None),
{
    if let Listing::Entries(entries) = dir {
        lemma_first_candidate_none(entries@, 0);
    }
}

/// A module that discovery finds comes from an entry of the directory whose
/// own name holds the marker, whose contents were read, and whose contents
/// load as that module; and no entry listed before it gives a module.
pub proof fn law_discovery_origin(entries: Vec<FileEntry>, module: ModuleView) -> (at: int)
    requires
        discovered(Listing::Entries(entries)) == Ok::<Option<ModuleView>, DockrError>(
            Some(module),
        ),
    ensures
        0 <= at < entries.len(),
        is_config_name(entries[at].name@),
        entries[at].contents matches Some(bytes) && loaded(entries[at].path@, bytes@) == Ok::<
            ModuleView,
            DockrError,
        >(module),
        forall|i: int| 0 <= i < at ==> candidate(#[trigger] entries[i]) is None,
{
    lemma_first_candidate_found(entries@, 0)
}

/// Discovery returns the module of the first entry that gives one: it is
/// enough that no entry listed before it gives a module. So where exactly
/// one entry gives a module, that module is found, wherever it is listed.
pub proof fn law_discovery_takes_first(entries: Vec<FileEntry>, at: int)
    requires
        0 <= at < entries.len(),
        candidate(entries[at]) is Some,
        forall|i: int| 0 <= i < at ==> candidate(#[trigger] entries[i]) is None,
    ensures
        discovered(Listing::Entries(entries)) == Ok::<Option<ModuleView>, DockrError>(
            candidate(entries[at]),
        ),
{
    lemma_first_candidate_at(entries@, 0, at);
}

} // verus!
