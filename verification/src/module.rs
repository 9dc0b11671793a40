//! A module: one external program, how to invoke it, and whether it runs.

use vstd::prelude::*;
use vstd::std_specs::convert::FromSpec;
use crate::config::{document, DockrJson, DockrJsonView};
use crate::error::DockrError;
use crate::paths::{contains, has_infix, parent, parent_of};
use crate::protocol::{done, failed, succeeded, Action, ActionView, Event, Launch, LaunchView, Op, STOP_TIMEOUT};
use crate::snapshot::{FileEntry, Listing};

verus! {

/// One externally launchable program: its invocation parameters and, while it
/// is believed to run, the id of its process.
///
/// A module is idle or running. Every constructor gives an idle module;
/// `start` makes it running once the process was created; `wait` and `stop`
/// make it idle again once the process is known to be gone.
#[derive(Debug)]
pub struct Module {
    name: String,
    pwd: Option<String>,
    cmd: String,
    args: Vec<String>,
    proc: Option<u32>,
}

/// The mathematical content of a [`Module`].
pub struct ModuleView {
    /// The display name; informational only.
    pub name: Seq<char>,
    /// The working directory, where one is set.
    pub pwd: Option<Seq<char>>,
    /// The executable.
    pub cmd: Seq<char>,
    /// The arguments, in order.
    pub args: Seq<Seq<char>>,
    /// The process id while the module runs.
    pub proc: Option<u32>,
}

impl View for Module {
    type V = ModuleView;

    closed spec fn view(&self) -> ModuleView {
        ModuleView {
            name: self.name@,
            pwd: self.pwd.deep_view(),
            cmd: self.cmd@,
            args: self.args.deep_view(),
            proc: self.proc,
        }
    }
}

impl ModuleView {
    /// Whether a process is believed to run.
    pub open spec fn running(self) -> bool {
        self.proc is Some
    }

    /// The same module with another process state.
    pub open spec fn with_proc(self, proc: Option<u32>) -> ModuleView {
        ModuleView { proc, ..self }
    }

    /// Equality of modules: the same name, executable and arguments. The
    /// working directory and the process state do not count.
    pub open spec fn same_config(self, other: ModuleView) -> bool {
        self.name == other.name && self.cmd == other.cmd && self.args == other.args
    }

    /// The command line of the module; the working directory is `.` where
    /// none is set.
    pub open spec fn launch(self) -> LaunchView {
        LaunchView {
            cmd: self.cmd,
            dir: match self.pwd {
                Some(dir) => dir,
                None => "."@,
            },
            args: self.args,
        }
    }

    /// One step of `start`. On a running module there is nothing to do. On an
    /// idle one, the report of a spawn is taken in; any other event makes the
    /// step ask for the spawn.
    pub open spec fn start(self, event: Event) -> (ModuleView, ActionView) {
        match self.proc {
            Some(_) => (self, done()),
            None => match event {
                Event::Spawned { pid } => (self.with_proc(Some(pid)), done()),
                Event::SpawnFailed => (self, failed(DockrError::Spawn)),
                _ => (self, ActionView::Spawn(self.launch())),
            },
        }
    }

    /// One step of `wait`. On an idle module there is nothing to do. On a
    /// running one, the report of a wait is taken in; any other event makes
    /// the step ask for the wait.
    pub open spec fn wait(self, event: Event) -> (ModuleView, ActionView) {
        match self.proc {
            None => (self, done()),
            Some(pid) => match event {
                Event::Exited => (self.with_proc(None), done()),
                Event::WaitFailed => (self, failed(DockrError::Wait)),
                _ => (self, ActionView::Wait { pid }),
            },
        }
    }

    /// One step of `stop_in`. On an idle module there is nothing to do. A
    /// running one is polled until it has exited or `timeout` milliseconds
    /// have gone by, and killed in the latter case.
    pub open spec fn stop_in(self, timeout: u128, event: Event) -> (ModuleView, ActionView) {
        match self.proc {
            None => (self, done()),
            Some(pid) => match event {
                Event::Exited => (self.with_proc(None), done()),
                Event::Killed => (self.with_proc(None), done()),
                Event::WaitFailed => (self, failed(DockrError::Wait)),
                Event::KillFailed => (self, failed(DockrError::Kill)),
                Event::Running { elapsed_ms } => if elapsed_ms >= timeout {
                    (self, ActionView::Kill { pid })
                } else {
                    (self, ActionView::Poll { pid })
                },
                _ => (self, ActionView::Poll { pid }),
            },
        }
    }

    /// One step of `run`: `start`, and once that is done, `wait`. The report
    /// of a wait goes to `wait` directly.
    pub open spec fn run(self, event: Event) -> (ModuleView, ActionView) {
        if event is Exited || event is WaitFailed {
            self.wait(event)
        } else {
            let (started, action) = self.start(event);
            if succeeded(action) {
                started.wait(Event::Begin)
            } else {
                (started, action)
            }
        }
    }

    /// One step of the operation `op`.
    pub open spec fn step(self, op: Op, event: Event) -> (ModuleView, ActionView) {
        match op {
            Op::Start => self.start(event),
            Op::Wait => self.wait(event),
            Op::Stop { timeout } => self.stop_in(timeout, event),
        }
    }

    /// Whether the operation `op` has nothing left to do on this module.
    pub open spec fn settled(self, op: Op) -> bool {
        match op {
            Op::Start => self.running(),
            _ => !self.running(),
        }
    }
}

/// The blank module: every text empty, no working directory, idle.
pub open spec fn blank() -> ModuleView {
    ModuleView { name: Seq::empty(), pwd: None, cmd: Seq::empty(), args: Seq::empty(), proc: None }
}

/// The idle module with the given name, working directory, executable and
/// arguments.
pub open spec fn created(
    name: Seq<char>,
    pwd: Seq<char>,
    cmd: Seq<char>,
    args: Seq<Seq<char>>,
) -> ModuleView {
    ModuleView { name, pwd: Some(pwd), cmd, args, proc: None }
}

/// The module that a configuration document gives by itself: its three
/// entries, no working directory, and no process.
pub open spec fn configured(json: DockrJsonView) -> ModuleView {
    ModuleView { name: json.name, pwd: None, cmd: json.cmd, args: json.args, proc: None }
}

/// The module that a configuration file gives: the module of the document,
/// with the directory of the file as working directory.
pub open spec fn loaded(path: Seq<char>, contents: Seq<u8>) -> Result<ModuleView, DockrError> {
    match document(contents) {
        Err(fault) => Err(DockrError::ConfigParse(fault)),
        Ok(json) => Ok(ModuleView { pwd: parent_of(path), ..configured(json) }),
    }
}

/// Whether a file name is that of a configuration file: it holds the marker
/// `.json`.
pub open spec fn is_config_name(name: Seq<char>) -> bool {
    has_infix(name, ".json"@)
}

/// The module that a directory entry gives, if it gives one: its own name
/// holds the marker, it could be read, and its contents are a valid
/// document. The directories that lead to the entry play no part in whether
/// it is looked at.
pub open spec fn candidate(entry: FileEntry) -> Option<ModuleView> {
    if !is_config_name(entry.name@) {
        None
    } else {
        match entry.contents {
            None => None,
            Some(bytes) => match loaded(entry.path@, bytes@) {
                Ok(module) => Some(module),
                Err(_) => None,
            },
        }
    }
}

/// The module of the first entry at or after position `from` that gives one.
pub open spec fn first_candidate(entries: Seq<FileEntry>, from: int) -> Option<ModuleView>
    decreases entries.len() - from,
{
    if from < 0 || from >= entries.len() {
        None
    } else {
        match candidate(entries[from]) {
            Some(module) => Some(module),
            None => first_candidate(entries, from + 1),
        }
    }
}

/// What discovery finds in a directory: nothing where the path is no
/// directory, a failure where it could not be listed, else the module of the
/// first entry that gives one.
pub open spec fn discovered(dir: Listing<FileEntry>) -> Result<Option<ModuleView>, DockrError> {
    match dir {
        Listing::NotADirectory => Ok(None),
        Listing::Unreadable => Err(DockrError::DiscoveryIo),
        Listing::Entries(entries) => Ok(first_candidate(entries@, 0)),
    }
}

/// Copies a list of strings.
fn copy_strings(strings: &Vec<String>) -> (r: Vec<String>)
    ensures
        r.deep_view() == strings.deep_view(),
{
    let mut r: Vec<String> = Vec::new();
    let mut i: usize = 0;
    while i < strings.len()
        invariant
            i <= strings.len(),
            r.len() == i,
            forall|k: int| 0 <= k < i ==> r[k]@ == strings[k]@,
        decreases strings.len() - i,
    {
        r.push(strings[i].clone());
        i += 1;
    }
    assert(r.deep_view() =~= strings.deep_view());
    r
}

/// Whether two lists hold the same strings in the same order.
fn same_strings(left: &Vec<String>, right: &Vec<String>) -> (r: bool)
    ensures
        r == (left.deep_view() == right.deep_view()),
{
    if left.len() != right.len() {
        assert(left.deep_view().len() != right.deep_view().len());
        return false;
    }
    let mut i: usize = 0;
    while i < left.len()
        invariant
            i <= left.len(),
            left.len() == right.len(),
            forall|k: int| 0 <= k < i ==> left[k]@ == right[k]@,
        decreases left.len() - i,
    {
        if left[i] != right[i] {
            assert(left.deep_view()[i as int] != right.deep_view()[i as int]);
            return false;
        }
        i += 1;
    }
    assert(left.deep_view() =~= right.deep_view());
    true
}

/// No entry at or after `from` gives a module exactly if the search from
/// there finds none.
pub proof fn lemma_first_candidate_none(entries: Seq<FileEntry>, from: int)
    requires
        0 <= from,
    ensures
        first_candidate(entries, from) is None <==> forall|i: int|
            from <= i < entries.len() ==> candidate(#[trigger] entries[i]) is None,
    decreases entries.len() - from,
{
    if from < entries.len() {
        lemma_first_candidate_none(entries, from + 1);
    }
}

/// Whether a file of this name is taken for a configuration file; `name` is
/// the file's own name, without the directories that lead to it. Discovery
/// looks at the contents of no other file.
pub fn is_config_file(name: &str) -> (r: bool)
    ensures
        r == is_config_name(name@),
{
    contains(name, ".json")
}

/// Loads the first entry that gives a module.
fn first_module(entries: &Vec<FileEntry>) -> (r: Option<Module>)
    ensures
        r.is_some() == first_candidate(entries@, 0).is_some(),
        r matches Some(module) ==> first_candidate(entries@, 0) == Some(module@),
{
    let mut i: usize = 0;
    while i < entries.len()
        invariant
            i <= entries.len(),
            first_candidate(entries@, 0) == first_candidate(entries@, i as int),
        decreases entries.len() - i,
    {
        let entry = &entries[i];
        if is_config_file(entry.name.as_str()) {
            if let Some(bytes) = &entry.contents {
                if let Ok(module) = Module::open(entry.path.as_str(), bytes.as_slice()) {
                    return Some(module);
                }
            }
        }
        i += 1;
    }
    None
}

impl Module {
    /// Returns a blank module: every text empty, no working directory, idle.
    pub fn new() -> (module: Module)
        ensures
            module@ == blank(),
    {
        let module = Module {
            name: String::new(),
            pwd: None,
            cmd: String::new(),
            args: Vec::new(),
            proc: None,
        };
        assert(module.args.deep_view() =~= Seq::<Seq<char>>::empty());
        module
    }

    /// Creates an idle module from its name, working directory, executable
    /// and arguments.
    pub fn create(name: &str, pwd: &str, cmd: &str, args: Vec<&str>) -> (module: Module)
        ensures
            module@ == created(name@, pwd@, cmd@, args.deep_view()),
    {
        let mut owned: Vec<String> = Vec::new();
        let mut i: usize = 0;
        while i < args.len()
            invariant
                i <= args.len(),
                owned.len() == i,
                forall|k: int| 0 <= k < i ==> owned[k]@ == args[k]@,
            decreases args.len() - i,
        {
            owned.push(args[i].to_owned());
            i += 1;
        }
        assert(owned.deep_view() =~= args.deep_view());
        Module {
            name: name.to_owned(),
            pwd: Some(pwd.to_owned()),
            cmd: cmd.to_owned(),
            args: owned,
            proc: None,
        }
    }

    /// Loads a module from a configuration file: `path` is where the file
    /// lies, `contents` what it holds. The working directory of the module is
    /// the directory of the file.
    pub fn open(path: &str, contents: &[u8]) -> (r: Result<Module, DockrError>)
        ensures
            match r {
                Ok(module) => loaded(path@, contents@) == Ok::<ModuleView, DockrError>(module@),
                Err(error) => loaded(path@, contents@) == Err::<ModuleView, DockrError>(error),
            },
    {
        match DockrJson::parse(contents) {
            Err(fault) => Err(DockrError::ConfigParse(fault)),
            Ok(json) => {
                let mut module = Module::from(json);
                module.pwd = parent(path);
                Ok(module)
            },
        }
    }

    /// Looks for a configuration file among the entries of a directory and
    /// loads the first that is valid. A directory without one is no failure:
    /// the answer is then `Ok(None)`.
    pub fn open_dir(dir: &Listing<FileEntry>) -> (r: Result<Option<Module>, DockrError>)
        ensures
            match r {
                Ok(Some(module)) => discovered(*dir) == Ok::<Option<ModuleView>, DockrError>(
                    Some(module@),
                ),
                Ok(None) => discovered(*dir) == Ok::<Option<ModuleView>, DockrError>(None),
                Err(error) => discovered(*dir) == Err::<Option<ModuleView>, DockrError>(error),
            },
            (*dir matches Listing::Entries(entries) && forall|i: int|
                0 <= i < entries.len() ==> !is_config_name((#[trigger] entries[i]).name@))
                ==> r == Ok::<Option<Module>, DockrError>(None),
    {
        match dir {
            Listing::NotADirectory => Ok(None),
            Listing::Unreadable => Err(DockrError::DiscoveryIo),
            Listing::Entries(entries) => {
                proof {
                    lemma_first_candidate_none(entries@, 0);
                }
                Ok(first_module(entries))
            },
        }
    }

    /// Whether a process is believed to run.
    pub fn is_running(&self) -> (r: bool)
        ensures
            r == self@.running(),
    {
        self.proc.is_some()
    }

    /// The command line of the module.
    fn launch(&self) -> (launch: Launch)
        ensures
            launch@ == self@.launch(),
    {
        let dir = match &self.pwd {
            Some(dir) => dir.clone(),
            None => ".".to_owned(),
        };
        Launch { cmd: self.cmd.clone(), dir, args: copy_strings(&self.args) }
    }

    /// Launches the module, unless it runs already.
    ///
    /// Call with [`Event::Begin`]. Where the answer is [`Action::Spawn`],
    /// create the process and call again with the report.
    pub fn start(&mut self, event: Event) -> (action: Action)
        ensures
            (final(self)@, action@) == old(self)@.start(event),
    {
        if self.proc.is_some() {
            return Action::Done(Ok(()));
        }
        match event {
            Event::Spawned { pid } => {
                self.proc = Some(pid);
                Action::Done(Ok(()))
            },
            Event::SpawnFailed => Action::Done(Err(DockrError::Spawn)),
            _ => Action::Spawn(self.launch()),
        }
    }

    /// Waits until the process of the module has exited on its own.
    ///
    /// Call with [`Event::Begin`]. Where the answer is [`Action::Wait`], block
    /// on the process and call again with the report.
    pub fn wait(&mut self, event: Event) -> (action: Action)
        ensures
            (final(self)@, action@) == old(self)@.wait(event),
    {
        let pid = match self.proc {
            None => { return Action::Done(Ok(())); },
            Some(pid) => pid,
        };
        match event {
            Event::Exited => {
                self.proc = None;
                Action::Done(Ok(()))
            },
            Event::WaitFailed => Action::Done(Err(DockrError::Wait)),
            _ => Action::Wait { pid },
        }
    }

    /// Stops the module with the default grace period, [`STOP_TIMEOUT`].
    pub fn stop(&mut self, event: Event) -> (action: Action)
        ensures
            (final(self)@, action@) == old(self)@.stop_in(STOP_TIMEOUT, event),
    {
        self.stop_in(STOP_TIMEOUT, event)
    }

    /// Gives the process `timeout` milliseconds to exit on its own and kills
    /// it after that.
    ///
    /// Call with [`Event::Begin`]. Where the answer is [`Action::Poll`] or
    /// [`Action::Kill`], do so and call again with the report.
    pub fn stop_in(&mut self, timeout: u128, event: Event) -> (action: Action)
        ensures
            (final(self)@, action@) == old(self)@.stop_in(timeout, event),
    {
        let pid = match self.proc {
            None => { return Action::Done(Ok(())); },
            Some(pid) => pid,
        };
        match event {
            Event::Exited => {
                self.proc = None;
                Action::Done(Ok(()))
            },
            Event::Killed => {
                self.proc = None;
                Action::Done(Ok(()))
            },
            Event::WaitFailed => Action::Done(Err(DockrError::Wait)),
            Event::KillFailed => Action::Done(Err(DockrError::Kill)),
            Event::Running { elapsed_ms } => {
                if elapsed_ms >= timeout {
                    Action::Kill { pid }
                } else {
                    Action::Poll { pid }
                }
            },
            _ => Action::Poll { pid },
        }
    }

    /// Starts the module and waits for it to exit.
    pub fn run(&mut self, event: Event) -> (action: Action)
        ensures
            (final(self)@, action@) == old(self)@.run(event),
    {
        match event {
            Event::Exited => self.wait(event),
            Event::WaitFailed => self.wait(event),
            _ => {
                let action = self.start(event);
                match action {
                    Action::Done(Ok(())) => self.wait(Event::Begin),
                    other => other,
                }
            },
        }
    }

    /// Whether the operation `op` has nothing left to do on this module.
    pub(crate) fn settled(&self, op: Op) -> (r: bool)
        ensures
            r == self@.settled(op),
    {
        match op {
            Op::Start => self.proc.is_some(),
            _ => self.proc.is_none(),
        }
    }

    /// One step of the operation `op`.
    pub(crate) fn step(&mut self, op: Op, event: Event) -> (action: Action)
        ensures
            (final(self)@, action@) == old(self)@.step(op, event),
    {
        match op {
            Op::Start => self.start(event),
            Op::Wait => self.wait(event),
            Op::Stop { timeout } => self.stop_in(timeout, event),
        }
    }
}

impl PartialEq for Module {
    fn eq(&self, other: &Module) -> (r: bool) {
        self.name == other.name && self.cmd == other.cmd && same_strings(&self.args, &other.args)
    }
}

impl Eq for Module {

}

impl vstd::std_specs::cmp::PartialEqSpecImpl for Module {
    open spec fn obeys_eq_spec() -> bool {
        true
    }

    open spec fn eq_spec(&self, other: &Module) -> bool {
        self@.same_config(other@)
    }
}

impl From<DockrJson> for Module {
    fn from(json: DockrJson) -> (module: Module) {
        Module { name: json.name, pwd: None, cmd: json.cmd, args: json.args, proc: None }
    }
}

/// What `Module::from` makes of a document is the module that the document
/// gives by itself.
pub proof fn lemma_from_json(json: DockrJson)
    ensures
        Module::from_spec(json)@ == configured(json@),
{
}

impl vstd::std_specs::convert::FromSpecImpl<DockrJson> for Module {
    open spec fn obeys_from_spec() -> bool {
        true
    }

    closed spec fn from_spec(json: DockrJson) -> Module {
        Module { name: json.name, pwd: None, cmd: json.cmd, args: json.args, proc: None }
    }
}

} // verus!
