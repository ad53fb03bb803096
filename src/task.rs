//! The batch a sync run works through, the checks made before any worker
//! starts, and the rules that decide how each task ends.
use vstd::prelude::*;
use crate::package::{Package, PackageView, package_views};
use vstd::string::StringSliceAdditionalSpecFns;

verus! {

/// Why a run refuses to start.
#[derive(Debug)]
pub enum TaskError {
    /// The batch holds no task.
    NoPlugins,
    /// The terminal could not be queried, or the signal listener could not be
    /// installed.
    TerminalError(String),
    /// The terminal has fewer than three lines.
    TerminalToSmall,
}

/// What a run does to each plugin of its batch.
#[derive(Clone, Copy, Debug, PartialEq, Eq, Structural)]
pub enum TaskType {
    Install,
    Update,
}

/// A batch of plugins to sync, and how many workers sync them.
pub struct TaskManager {
    task_type: TaskType,
    packs: Vec<Package>,
    thread_num: usize,
}

/// Whether a run may start: the batch is not empty and the terminal has room
/// for a margin above and below it.
pub open spec fn can_start(tasks: nat, terminal_height: int) -> bool {
    tasks > 0 && terminal_height > 2
}

impl TaskManager {
    pub closed spec fn kind(&self) -> TaskType {
        self.task_type
    }

    pub closed spec fn tasks(&self) -> Seq<PackageView> {
        package_views(self.packs@)
    }

    pub closed spec fn workers(&self) -> nat {
        self.thread_num as nat
    }

    /// An empty batch of `task_type` tasks, run by `thread_num` workers.
    pub fn new(task_type: TaskType, thread_num: usize) -> (r: TaskManager)
        requires
            thread_num >= 1,
        ensures
            r.kind() == task_type,
            r.tasks() == Seq::<PackageView>::empty(),
            r.workers() == thread_num,
    {
        let r = TaskManager { task_type, packs: Vec::new(), thread_num };
        assert(r.tasks() =~= Seq::<PackageView>::empty());
        r
    }

    /// Appends a task for `pack` to the batch.
    pub fn add(&mut self, pack: Package)
        ensures
            final(self).tasks() == old(self).tasks().push(pack@),
            final(self).kind() == old(self).kind(),
            final(self).workers() == old(self).workers(),
    {
        self.packs.push(pack);
        assert(package_views(self.packs@) =~= old(self).tasks().push(pack@));
    }

    pub fn task_type(&self) -> (r: TaskType)
        ensures
            r == self.kind(),
    {
        self.task_type
    }

    pub fn thread_num(&self) -> (r: usize)
        ensures
            r == self.workers(),
    {
        self.thread_num
    }

    pub fn packs(&self) -> (r: &Vec<Package>)
        ensures
            package_views(r@) == self.tasks(),
    {
        &self.packs
    }

    /// The checks made once before any worker starts: the batch must hold a
    /// task, and the terminal must be more than two lines high.
    pub fn check(&self, terminal_height: u16) -> (r: Result<(), TaskError>)
        ensures
            r is Ok <==> can_start(self.tasks().len(), terminal_height as int),
            r matches Err(TaskError::NoPlugins) <==> self.tasks().len() == 0,
            r matches Err(TaskError::TerminalToSmall) <==> self.tasks().len() > 0
                && terminal_height <= 2,
    {
        if self.packs.len() == 0 {
            Err(TaskError::NoPlugins)
        } else if terminal_height <= 2 {
            Err(TaskError::TerminalToSmall)
        } else {
            Ok(())
        }
    }
}

/// Relies on num_cpus::get, the number of CPUs this process may use, which
/// its documentation promises is at least one.
#[verifier::external_body]
fn available_cpus() -> (r: usize)
    ensures
        r >= 1,
{
    num_cpus::get()
}

/// The number of workers of a run: the one asked for, at least one, or else
/// one for each CPU the process may use.
pub fn worker_count(requested: Option<usize>) -> (r: usize)
    ensures
        r >= 1,
        requested matches Some(n) ==> r == if n >= 1 { n } else { 1 },
{
    match requested {
        Some(n) => if n >= 1 { n } else { 1 },
        None => available_cpus(),
    }
}

/// Whether a task kept a healthy install: its operation synced, or its
/// failure keeps the plugin recorded. A build step never changes this.
pub fn task_passed(synced: bool, retain: bool) -> (r: bool)
    ensures
        r == !crate::ledger::is_failure(synced, retain),
{
    synced || retain
}

/// What a task's line shows once its operation is over, in order.
#[derive(Clone, Copy, Debug, PartialEq, Eq, Structural)]
pub enum Mark {
    /// The error glyph with the operation's error.
    Error,
    /// The plugin's build command is running.
    Building,
    /// The error glyph with the build's error.
    BuildError,
    /// The success glyph and "done".
    Done,
}

pub open spec fn marks_of(synced: bool, has_build: bool, build_ok: bool) -> Seq<Mark> {
    if !synced {
        seq![Mark::Error]
    } else if !has_build {
        seq![Mark::Done]
    } else if build_ok {
        seq![Mark::Building, Mark::Done]
    } else {
        seq![Mark::Building, Mark::BuildError, Mark::Done]
    }
}

/// A task whose operation synced ends its line with success whatever its
/// build did, and a failed build is reported on the way; a task whose
/// operation failed shows its error alone.
pub proof fn law_build_never_flips_success(synced: bool, has_build: bool, build_ok: bool)
    ensures
        synced ==> marks_of(synced, has_build, build_ok).last() == Mark::Done,
        synced && has_build && !build_ok ==> marks_of(synced, has_build, build_ok).contains(Mark::BuildError),
        !synced ==> marks_of(synced, has_build, build_ok) == seq![Mark::Error],
{
    if synced && has_build && !build_ok {
        assert(marks_of(synced, has_build, build_ok)[1] == Mark::BuildError);
    }
}

/// The marks of a task's line: an error when the operation failed; else
/// the build, if the plugin has one, its error if it failed, and success.
pub fn line_marks(synced: bool, has_build: bool, build_ok: bool) -> (r: Vec<Mark>)
    ensures
        r@ == marks_of(synced, has_build, build_ok),
{
    let mut r: Vec<Mark> = Vec::new();
    if !synced {
        r.push(Mark::Error);
    } else {
        if has_build {
            r.push(Mark::Building);
            if !build_ok {
                r.push(Mark::BuildError);
            }
        }
        r.push(Mark::Done);
    }
    assert(r@ =~= marks_of(synced, has_build, build_ok));
    r
}

/// The column of a line's status glyph.
pub const SIGN_MARGIN: u16 = 3;

/// The gap between a line's label and its messages.
pub const MSG_MARGIN: u16 = 5;

/// The label of a task's line: ` [name]`.
pub fn status_label(name: &String) -> (r: String)
    ensures
        r@ == " ["@ + name@ + "]"@,
{
    let mut r = String::from_str(" [");
    r.append(name.as_str());
    r.append("]");
    r
}

/// The column where a line's messages start, past its label; `None` where
/// that column does not fit a terminal coordinate.
pub fn message_column(label: &str) -> (r: Option<u16>)
    ensures
        label.spec_bytes().len() + MSG_MARGIN <= u16::MAX <==> r is Some,
        r matches Some(c) ==> c == label.spec_bytes().len() + MSG_MARGIN,
{
    let n = label.as_bytes().len();
    if n <= 65535 - 5 {
        Some(n as u16 + MSG_MARGIN)
    } else {
        None
    }
}

} // verus!
