//! Bringing the vendor module into the process.
//!
//! The module ships inside the program as a payload of bytes. Before the
//! first native call it has to be written to a temporary file and loaded
//! from there, once per process. The three steps touch the file system and
//! the dynamic loader, so they are taken elsewhere; what is decided here is
//! their order and what follows from each result. A step that fails is
//! fatal: nothing is retried and there is no other module to fall back on.

use vstd::prelude::*;

verus! {

/// The steps that make the module available, in the order they are taken.
#[derive(Debug, Clone, Copy, PartialEq, Eq, Structural)]
pub enum BootStep {
    /// Create a temporary file with a name of its own.
    CreateTempFile,
    /// Write the payload into that file.
    WritePayload,
    /// Load the file as a module.
    LoadModule,
}

/// How far the bootstrap has come.
#[derive(Debug, Clone, Copy, PartialEq, Eq, Structural)]
pub enum Bootstrap {
    /// Everything before this step has succeeded; it is the next to take.
    Pending(BootStep),
    /// The module is loaded and serves every lookup from now on.
    Ready,
    /// This step failed. The process cannot go on.
    Failed(BootStep),
}

/// What is to be done in a given state.
#[derive(Debug, Clone, Copy, PartialEq, Eq, Structural)]
pub enum BootAction {
    /// Take this step and come back with its result.
    Perform(BootStep),
    /// Use the loaded module.
    Serve,
    /// Give up: this step failed.
    Abort(BootStep),
}

impl BootStep {
    /// The place of the step in the order of the bootstrap, from 0.
    pub open spec fn position(self) -> int {
        match self {
            BootStep::CreateTempFile => 0,
            BootStep::WritePayload => 1,
            BootStep::LoadModule => 2,
        }
    }

    /// What is said of the step when it has failed.
    pub open spec fn failure_text(self) -> Seq<char> {
        match self {
            BootStep::CreateTempFile => "Failed to create temp file"@,
            BootStep::WritePayload => "Failed to write .so to temp file"@,
            BootStep::LoadModule => "Failed to load library"@,
        }
    }

    /// The message with which the process gives up when this step has failed.
    pub fn failure_message(&self) -> (message: &'static str)
        ensures
            message@ == self.failure_text(),
    {
        match self {
            BootStep::CreateTempFile => "Failed to create temp file",
            BootStep::WritePayload => "Failed to write .so to temp file",
            BootStep::LoadModule => "Failed to load library",
        }
    }
}

impl Bootstrap {
    /// Where every process starts: nothing has been done yet.
    pub open spec fn start() -> Bootstrap {
        Bootstrap::Pending(BootStep::CreateTempFile)
    }

    /// What is to be done in this state.
    pub open spec fn next_action(self) -> BootAction {
        match self {
            Bootstrap::Pending(step) => BootAction::Perform(step),
            Bootstrap::Ready => BootAction::Serve,
            Bootstrap::Failed(step) => BootAction::Abort(step),
        }
    }

    /// The state after the pending step has been taken with the given
    /// result. `Ready` and `Failed` are final: no result moves them.
    pub open spec fn after(self, succeeded: bool) -> Bootstrap {
        match self {
            Bootstrap::Pending(step) => if !succeeded {
                Bootstrap::Failed(step)
            } else {
                match step {
                    BootStep::CreateTempFile => Bootstrap::Pending(BootStep::WritePayload),
                    BootStep::WritePayload => Bootstrap::Pending(BootStep::LoadModule),
                    BootStep::LoadModule => Bootstrap::Ready,
                }
            },
            Bootstrap::Ready => Bootstrap::Ready,
            Bootstrap::Failed(step) => Bootstrap::Failed(step),
        }
    }

    /// The state after a whole series of results, the first of them first.
    pub open spec fn run(self, results: Seq<bool>) -> Bootstrap
        decreases results.len(),
    {
        if results.len() == 0 {
            self
        } else {
            self.run(results.drop_last()).after(results.last())
        }
    }

    /// Starts the bootstrap.
    pub fn new() -> (state: Bootstrap)
        ensures
            state == Self::start(),
    {
        Bootstrap::Pending(BootStep::CreateTempFile)
    }

    /// Says what is to be done now.
    pub fn action(&self) -> (action: BootAction)
        ensures
            action == self.next_action(),
    {
        match self {
            Bootstrap::Pending(step) => BootAction::Perform(*step),
            Bootstrap::Ready => BootAction::Serve,
            Bootstrap::Failed(step) => BootAction::Abort(*step),
        }
    }

    /// Takes in the result of the pending step.
    pub fn advance(self, succeeded: bool) -> (state: Bootstrap)
        ensures
            state == self.after(succeeded),
    {
        match self {
            Bootstrap::Pending(step) => {
                if !succeeded {
                    Bootstrap::Failed(step)
                } else {
                    match step {
                        BootStep::CreateTempFile => Bootstrap::Pending(BootStep::WritePayload),
                        BootStep::WritePayload => Bootstrap::Pending(BootStep::LoadModule),
                        BootStep::LoadModule => Bootstrap::Ready,
                    }
                }
            },
            Bootstrap::Ready => Bootstrap::Ready,
            Bootstrap::Failed(step) => Bootstrap::Failed(step),
        }
    }
}

/// The module is ready exactly when each of the three steps has been taken
/// and has succeeded.
pub proof fn lemma_ready_after_three_successes(results: Seq<bool>)
    ensures
        Bootstrap::start().run(results) is Ready <==> results.len() >= 3 && results[0]
            && results[1] && results[2],
{
    lemma_run_from_start(results);
}

/// Once the module is ready it stays ready, and a failure stays the failure
/// it was: no later result brings a step back.
pub proof fn lemma_final_states_stay(state: Bootstrap, results: Seq<bool>)
    requires
        state is Ready || state is Failed,
    ensures
        state.run(results) == state,
    decreases results.len(),
{
    if results.len() > 0 {
        lemma_final_states_stay(state, results.drop_last());
    }
}

/// No step is taken twice. Of two moments in one run at which a step is
/// pending, the later one has a later step pending; so the payload is
/// written once and the module is loaded once, however long the run.
pub proof fn lemma_no_step_twice(results: Seq<bool>, earlier: int, later: int)
    requires
        0 <= earlier < later <= results.len(),
    ensures
        ({
            let before = Bootstrap::start().run(results.take(earlier));
            let after = Bootstrap::start().run(results.take(later));
            before matches Bootstrap::Pending(first) ==> (after matches Bootstrap::Pending(second)
                ==> first.position() < second.position())
        }),
{
    lemma_run_from_start(results.take(earlier));
    lemma_run_from_start(results.take(later));
}

/// Where a run from the start stands, read off its results: as many steps
/// are behind it as it has successes before its first failure.
proof fn lemma_run_from_start(results: Seq<bool>)
    ensures
        ({
            let state = Bootstrap::start().run(results);
            let n = results.len();
            &&& n == 0 ==> state == Bootstrap::start()
            &&& n >= 1 && !results[0] ==> state == Bootstrap::Failed(BootStep::CreateTempFile)
            &&& n == 1 && results[0] ==> state == Bootstrap::Pending(BootStep::WritePayload)
            &&& n >= 2 && results[0] && !results[1] ==> state == Bootstrap::Failed(
                BootStep::WritePayload,
            )
            &&& n == 2 && results[0] && results[1] ==> state == Bootstrap::Pending(
                BootStep::LoadModule,
            )
            &&& n >= 3 && results[0] && results[1] && !results[2] ==> state == Bootstrap::Failed(
                BootStep::LoadModule,
            )
            &&& n >= 3 && results[0] && results[1] && results[2] ==> state == Bootstrap::Ready
        }),
    decreases results.len(),
{
    if results.len() > 0 {
        lemma_run_from_start(results.drop_last());
    }
}

} // verus!
