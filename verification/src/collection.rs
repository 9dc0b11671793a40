//! A collection: modules in a fixed order, operated one after the other.

use vstd::prelude::*;
use crate::error::DockrError;
use crate::module::{discovered, Module, ModuleView};
use crate::protocol::{done, succeeded, Action, ActionView, Event, Op, Warning, STOP_TIMEOUT};
use crate::snapshot::{FileEntry, Listing};

verus! {

/// An ordered group of modules. The order of insertion is the order in which
/// batch operations go through the modules. A module may occur more than
/// once.
#[derive(Debug)]
pub struct Collection {
    modules: Vec<Module>,
}

impl View for Collection {
    type V = Seq<ModuleView>;

    closed spec fn view(&self) -> Seq<ModuleView> {
        self.modules@.map_values(|module: Module| module@)
    }
}

/// One step of a batch of `op` over the modules at or after position `from`.
///
/// Modules on which `op` has nothing left to do are passed over. The first
/// other module takes the event. If that completes `op` on it, the batch goes
/// on to the modules behind it, which are begun afresh; if not, the action of
/// that module is the action of the batch, and no module behind it is
/// touched.
pub open spec fn batch_from(modules: Seq<ModuleView>, op: Op, from: int, event: Event) -> (
    Seq<ModuleView>,
    ActionView,
)
    decreases modules.len() - from,
{
    if from < 0 || from >= modules.len() {
        (modules, done())
    } else if modules[from].settled(op) {
        batch_from(modules, op, from + 1, event)
    } else {
        let (module, action) = modules[from].step(op, event);
        if succeeded(action) {
            batch_from(modules.update(from, module), op, from + 1, Event::Begin)
        } else {
            (modules.update(from, module), action)
        }
    }
}

/// One step of a batch of `op` over all modules.
pub open spec fn batch(modules: Seq<ModuleView>, op: Op, event: Event) -> (
    Seq<ModuleView>,
    ActionView,
) {
    batch_from(modules, op, 0, event)
}

/// One step of `start_all`. Without modules there is nothing to start; the
/// step asks for a warning first and is done once that was emitted.
pub open spec fn start_all(modules: Seq<ModuleView>, event: Event) -> (
    Seq<ModuleView>,
    ActionView,
) {
    if modules.len() == 0 {
        if event is Warned {
            (modules, done())
        } else {
            (modules, ActionView::Warn(Warning::EmptyCollection))
        }
    } else {
        batch(modules, Op::Start, event)
    }
}

/// One step of `wait_all`.
pub open spec fn wait_all(modules: Seq<ModuleView>, event: Event) -> (
    Seq<ModuleView>,
    ActionView,
) {
    batch(modules, Op::Wait, event)
}

/// One step of `stop_all_in`. Every module gets the whole of `timeout`.
pub open spec fn stop_all_in(modules: Seq<ModuleView>, timeout: u128, event: Event) -> (
    Seq<ModuleView>,
    ActionView,
) {
    batch(modules, Op::Stop { timeout }, event)
}

/// One step of `run_all`: `start_all`, and once that is done, `wait_all`.
/// The report of a wait goes to `wait_all` directly.
pub open spec fn run_all(modules: Seq<ModuleView>, event: Event) -> (
    Seq<ModuleView>,
    ActionView,
) {
    if event is Exited || event is WaitFailed {
        wait_all(modules, event)
    } else {
        let (started, action) = start_all(modules, event);
        if succeeded(action) {
            wait_all(started, Event::Begin)
        } else {
            (started, action)
        }
    }
}

/// The modules found in the first `upto` subdirectories, in their order. A
/// subdirectory that holds no module, or that could not be listed, adds
/// nothing.
pub open spec fn gathered(dirs: Seq<Listing<FileEntry>>, upto: int) -> Seq<ModuleView>
    decreases upto,
{
    if upto <= 0 {
        Seq::empty()
    } else {
        let before = gathered(dirs, upto - 1);
        match discovered(dirs[upto - 1]) {
            Ok(Some(module)) => before.push(module),
            _ => before,
        }
    }
}

/// What discovery finds below a root directory: a failure where the root
/// could not be listed, else the modules of its subdirectories.
pub open spec fn discovered_all(root: Listing<Listing<FileEntry>>) -> Result<
    Seq<ModuleView>,
    DockrError,
> {
    match root {
        Listing::Entries(dirs) => Ok(gathered(dirs@, dirs@.len() as int)),
        _ => Err(DockrError::DiscoveryIo),
    }
}

impl Collection {
    /// Returns an empty collection.
    pub fn new() -> (collection: Collection)
        ensures
            collection@ == Seq::<ModuleView>::empty(),
    {
        let collection = Collection { modules: Vec::new() };
        assert(collection@ =~= Seq::<ModuleView>::empty());
        collection
    }

    /// Creates a collection that holds the given modules in the given order.
    pub fn create(modules: Vec<Module>) -> (collection: Collection)
        ensures
            collection@ == modules@.map_values(|module: Module| module@),
    {
        Collection { modules }
    }

    /// Builds a collection from the subdirectories of a root directory: each
    /// subdirectory adds the module that [`Module::open_dir`] finds in it, and
    /// nothing where that finds none or fails.
    pub fn open_dir(root: &Listing<Listing<FileEntry>>) -> (r: Result<Collection, DockrError>)
        ensures
            match r {
                Ok(collection) => discovered_all(*root) == Ok::<Seq<ModuleView>, DockrError>(
                    collection@,
                ),
                Err(error) => discovered_all(*root) == Err::<Seq<ModuleView>, DockrError>(error),
            },
    {
        match root {
            Listing::Entries(dirs) => Ok(gather(dirs)),
            _ => Err(DockrError::DiscoveryIo),
        }
    }

    /// Appends a module.
    pub fn push(&mut self, module: Module)
        ensures
            final(self)@ == old(self)@.push(module@),
    {
        self.modules.push(module);
        assert(self@ =~= old(self)@.push(module@));
    }

    /// The modules, in order.
    pub fn modules(&self) -> (modules: &Vec<Module>)
        ensures
            modules@.map_values(|module: Module| module@) == self@,
    {
        &self.modules
    }

    /// One step of a batch of `op`.
    fn batch(&mut self, op: Op, event: Event) -> (action: Action)
        ensures
            (final(self)@, action@) == batch(old(self)@, op, event),
    {
        let mut pending = event;
        let mut i: usize = 0;
        while i < self.modules.len()
            invariant
                i <= self.modules.len(),
                batch_from(self@, op, i as int, pending) == batch(old(self)@, op, event),
            decreases self.modules.len() - i,
        {
            if !self.modules[i].settled(op) {
                let ghost before = self@;
                let action = self.modules[i].step(op, pending);
                assert(self@ =~= before.update(i as int, self.modules[i as int]@));
                match action {
                    Action::Done(Ok(())) => {
                        pending = Event::Begin;
                    },
                    other => {
                        return other;
                    },
                }
            }
            i += 1;
        }
        Action::Done(Ok(()))
    }

    /// Starts the modules, in order. The first failure ends the batch; the
    /// modules behind it are not started.
    ///
    /// Call with [`Event::Begin`], perform the action, and call again with
    /// the report, until the answer is [`Action::Done`]. On a collection
    /// without modules the batch succeeds, after asking for a warning.
    pub fn start_all(&mut self, event: Event) -> (action: Action)
        ensures
            (final(self)@, action@) == start_all(old(self)@, event),
    {
        if self.modules.len() == 0 {
            match event {
                Event::Warned => Action::Done(Ok(())),
                _ => Action::Warn(Warning::EmptyCollection),
            }
        } else {
            self.batch(Op::Start, event)
        }
    }

    /// Stops the modules, in order, each with the default grace period,
    /// [`STOP_TIMEOUT`].
    pub fn stop_all(&mut self, event: Event) -> (action: Action)
        ensures
            (final(self)@, action@) == stop_all_in(old(self)@, STOP_TIMEOUT, event),
    {
        self.stop_all_in(STOP_TIMEOUT, event)
    }

    /// Stops the modules, in order. Each is given `timeout` milliseconds of
    /// its own to exit before it is killed.
    pub fn stop_all_in(&mut self, timeout: u128, event: Event) -> (action: Action)
        ensures
            (final(self)@, action@) == stop_all_in(old(self)@, timeout, event),
    {
        self.batch(Op::Stop { timeout }, event)
    }

    /// Starts the modules, then waits for each of them to exit.
    pub fn run_all(&mut self, event: Event) -> (action: Action)
        ensures
            (final(self)@, action@) == run_all(old(self)@, event),
    {
        match event {
            Event::Exited => self.wait_all(event),
            Event::WaitFailed => self.wait_all(event),
            _ => {
                let action = self.start_all(event);
                match action {
                    Action::Done(Ok(())) => self.wait_all(Event::Begin),
                    other => other,
                }
            },
        }
    }

    /// Waits for the modules to exit on their own, in order.
    pub fn wait_all(&mut self, event: Event) -> (action: Action)
        ensures
            (final(self)@, action@) == wait_all(old(self)@, event),
    {
        self.batch(Op::Wait, event)
    }
}

/// Goes through the subdirectories and keeps the modules found.
fn gather(dirs: &Vec<Listing<FileEntry>>) -> (collection: Collection)
    ensures
        collection@ == gathered(dirs@, dirs@.len() as int),
{
    let mut collection = Collection::new();
    let mut i: usize = 0;
    while i < dirs.len()
        invariant
            i <= dirs.len(),
            collection@ == gathered(dirs@, i as int),
        decreases dirs.len() - i,
    {
        if let Ok(Some(module)) = Module::open_dir(&dirs[i]) {
            collection.push(module);
        }
        i += 1;
    }
    collection
}

} // verus!
