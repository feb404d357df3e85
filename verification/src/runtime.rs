//! The one background executor of the process.
//!
//! The host starts up and shuts down in stages. The executor is created when
//! the stage at which scenes become available is reached, and is shut down,
//! with a bounded grace period, when that stage is left.

use vstd::prelude::*;

verus! {

/// Seconds that running tasks are given to finish when the executor shuts down.
pub const SHUTDOWN_GRACE_SECS: u64 = 5;

/// The stages of the host's start-up; shutdown walks them in reverse.
#[derive(Debug, Clone, Copy, PartialEq, Eq, Structural)]
pub enum InitLevel {
    Core,
    Servers,
    Scene,
    Editor,
}

/// What kind of executor the process gets.
#[derive(Debug, Clone, Copy, PartialEq, Eq, Structural)]
pub struct ExecutorConfig {
    /// Tasks run on a pool of threads, not on the thread that built the executor.
    pub multi_thread: bool,
    /// Network I/O is available to tasks.
    pub io: bool,
    /// Timers are available to tasks.
    pub timers: bool,
}

/// The executor of this library: multi-threaded, with I/O and timers.
pub open spec fn executor_config() -> ExecutorConfig {
    ExecutorConfig { multi_thread: true, io: true, timers: true }
}

/// Work left for the caller when the executor is taken down: ask `executor`
/// to shut down and wait at most `grace_secs` seconds for its tasks; tasks
/// still running after that are abandoned.
#[derive(Debug, PartialEq, Eq)]
pub struct Shutdown<X> {
    pub executor: X,
    pub grace_secs: u64,
}

/// The place of the process-wide executor: empty before start-up and after
/// teardown, holding exactly one executor in between.
#[derive(Debug)]
pub struct IrohRuntime<X> {
    runtime: Option<X>,
}

impl<X> View for IrohRuntime<X> {
    type V = Option<X>;

    closed spec fn view(&self) -> Option<X> {
        self.runtime
    }
}

impl<X> IrohRuntime<X> {
    /// The place before start-up: no executor.
    pub fn new() -> (place: Self)
        ensures
            place@ is None,
    {
        IrohRuntime { runtime: None }
    }

    /// Whether an executor is in place.
    pub fn is_active(&self) -> (active: bool)
        ensures
            active == (self@ is Some),
    {
        self.runtime.is_some()
    }

    /// Start-up reached `level`. At [`InitLevel::Scene`], and only there, an
    /// executor of the kind [`executor_config`] is built with `build` and
    /// put in place, unless one is in place already; `build` is not called
    /// otherwise.
    pub fn init_singleton<F: FnOnce(ExecutorConfig) -> X>(&mut self, level: &InitLevel, build: F)
        requires
            *level == InitLevel::Scene && old(self)@ is None ==> call_requires(
                build,
                (executor_config(),),
            ),
        ensures
            *level == InitLevel::Scene && old(self)@ is None ==> (final(self)@ matches Some(x)
                && call_ensures(build, (executor_config(),), x)),
            !(*level == InitLevel::Scene && old(self)@ is None) ==> final(self)@ == old(self)@,
    {
        if *level == InitLevel::Scene && self.runtime.is_none() {
            let config = ExecutorConfig { multi_thread: true, io: true, timers: true };
            self.runtime = Some(build(config));
        }
    }

    /// Shutdown reached `level`. At [`InitLevel::Scene`] the executor leaves
    /// its place and is handed out for shutdown with the grace period of
    /// [`SHUTDOWN_GRACE_SECS`]; at every other level nothing happens.
    ///
    /// Leaving the scene stage without an executor in place is a fatal
    /// error of the host, and is excluded here.
    pub fn deinit_singleton(&mut self, level: &InitLevel) -> (teardown: Option<Shutdown<X>>)
        requires
            *level == InitLevel::Scene ==> old(self)@ is Some,
        ensures
            *level == InitLevel::Scene ==> final(self)@ is None && (teardown matches Some(work)
                && Some(work.executor) == old(self)@ && work.grace_secs == SHUTDOWN_GRACE_SECS),
            *level != InitLevel::Scene ==> final(self)@ == old(self)@ && teardown is None,
    {
        if *level == InitLevel::Scene {
            match self.runtime.take() {
                Some(executor) => Some(Shutdown { executor, grace_secs: SHUTDOWN_GRACE_SECS }),
                None => None,
            }
        } else {
            None
        }
    }

    /// Schedules a task: `launch` hands the task to the executor and
    /// returns at once with the task's handle, which is passed on.
    ///
    /// Scheduling without an executor in place is a fatal error of the
    /// host, and is excluded here.
    pub fn spawn<H, F: FnOnce(&X) -> H>(&self, launch: F) -> (handle: H)
        requires
            self@ matches Some(executor) && call_requires(launch, (&executor,)),
        ensures
            self@ matches Some(executor) && call_ensures(launch, (&executor,), handle),
    {
        match &self.runtime {
            Some(executor) => launch(executor),
            None => vstd::pervasive::unreached(),
        }
    }

    /// Runs a task to its end on the calling thread: `run` drives the task
    /// on the executor and returns what the task produced, which is passed
    /// on.
    ///
    /// Running without an executor in place is a fatal error of the host,
    /// and is excluded here.
    pub fn block_on<T, F: FnOnce(&X) -> T>(&self, run: F) -> (output: T)
        requires
            self@ matches Some(executor) && call_requires(run, (&executor,)),
        ensures
            self@ matches Some(executor) && call_ensures(run, (&executor,), output),
    {
        match &self.runtime {
            Some(executor) => run(executor),
            None => vstd::pervasive::unreached(),
        }
    }
}

} // verus!
