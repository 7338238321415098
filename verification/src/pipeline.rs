use vstd::prelude::*;

verus! {

/// Why a build run stopped. Every failing step maps to exactly one kind;
/// there is no recoverable category.
#[derive(Debug, Clone, Copy, PartialEq, Eq)]
pub enum BuildError {
    /// The recursive fetch of the VM sources returned a non-zero status.
    FetchFailed,
    /// The native configure step returned a non-zero status.
    ConfigureFailed,
    /// The native compile step returned a non-zero status.
    CompileFailed,
    /// The public header could not be parsed into bindings.
    ParseFailed,
    /// The generated bindings file could not be written.
    WriteFailed,
}

/// One externally performed step of the build, in the order the pipeline
/// hands them out.
#[derive(Debug, Clone, Copy, PartialEq, Eq)]
pub enum Action {
    /// Fetch the VM source tree and its nested dependencies.
    FetchSources,
    /// Run the native build generator to emit build files.
    Configure,
    /// Run the native build generator to compile the sources.
    Compile,
    /// Emit the link directives for the host build system.
    EmitLinkDirectives,
    /// Parse the public header and generate the typed bindings.
    GenerateBindings,
    /// Write the generated bindings to the output file.
    WriteBindings,
}

/// What the runner reports back after performing an action.
#[derive(Debug, Clone, Copy, PartialEq, Eq)]
pub enum Outcome {
    Success,
    Failure,
}

/// The control state of one build run. The pipeline is a strict linear
/// sequence with a single short-circuit: when the compiled artifact already
/// exists at start, configure and compile are skipped.
#[derive(Debug, Clone, Copy, PartialEq, Eq)]
pub enum PipelineState {
    /// Waiting for the source fetch; remembers whether the artifact
    /// already existed when the run started.
    AwaitFetch { already_compiled: bool },
    AwaitConfigure,
    AwaitCompile,
    AwaitLink,
    AwaitBindings,
    AwaitWrite,
    /// Every step ran and succeeded.
    Complete,
    /// A step failed; nothing further runs.
    Failed(BuildError),
}

/// The state a run begins in, given whether the artifact already exists.
pub open spec fn spec_start(already_compiled: bool) -> PipelineState {
    PipelineState::AwaitFetch { already_compiled }
}

/// The action owed in a state, or `None` when the run is over.
pub open spec fn spec_next_action(s: PipelineState) -> Option<Action> {
    match s {
        PipelineState::AwaitFetch { .. } => Some(Action::FetchSources),
        PipelineState::AwaitConfigure => Some(Action::Configure),
        PipelineState::AwaitCompile => Some(Action::Compile),
        PipelineState::AwaitLink => Some(Action::EmitLinkDirectives),
        PipelineState::AwaitBindings => Some(Action::GenerateBindings),
        PipelineState::AwaitWrite => Some(Action::WriteBindings),
        PipelineState::Complete => None,
        PipelineState::Failed(_) => None,
    }
}

/// The state after the pending action reports its outcome. A failure of
/// fetch, configure, compile, parse or write halts the run with the matching
/// error; emitting link directives is declarative output with no failure
/// mode, so its outcome carries no information.
pub open spec fn spec_advance(s: PipelineState, o: Outcome) -> PipelineState {
    match s {
        PipelineState::AwaitFetch { already_compiled } => match o {
            Outcome::Success => if already_compiled {
                PipelineState::AwaitLink
            } else {
                PipelineState::AwaitConfigure
            },
            Outcome::Failure => PipelineState::Failed(BuildError::FetchFailed),
        },
        PipelineState::AwaitConfigure => match o {
            Outcome::Success => PipelineState::AwaitCompile,
            Outcome::Failure => PipelineState::Failed(BuildError::ConfigureFailed),
        },
        PipelineState::AwaitCompile => match o {
            Outcome::Success => PipelineState::AwaitLink,
            Outcome::Failure => PipelineState::Failed(BuildError::CompileFailed),
        },
        PipelineState::AwaitLink => PipelineState::AwaitBindings,
        PipelineState::AwaitBindings => match o {
            Outcome::Success => PipelineState::AwaitWrite,
            Outcome::Failure => PipelineState::Failed(BuildError::ParseFailed),
        },
        PipelineState::AwaitWrite => match o {
            Outcome::Success => PipelineState::Complete,
            Outcome::Failure => PipelineState::Failed(BuildError::WriteFailed),
        },
        PipelineState::Complete => PipelineState::Complete,
        PipelineState::Failed(e) => PipelineState::Failed(e),
    }
}

/// How many actions a run can still hand out from a state.
pub open spec fn spec_remaining(s: PipelineState) -> nat {
    match s {
        PipelineState::AwaitFetch { .. } => 6,
        PipelineState::AwaitConfigure => 5,
        PipelineState::AwaitCompile => 4,
        PipelineState::AwaitLink => 3,
        PipelineState::AwaitBindings => 2,
        PipelineState::AwaitWrite => 1,
        PipelineState::Complete => 0,
        PipelineState::Failed(_) => 0,
    }
}

/// The actions a run performs from `s` when every step succeeds.
pub open spec fn spec_success_trace(s: PipelineState) -> Seq<Action>
    decreases spec_remaining(s),
{
    match spec_next_action(s) {
        None => Seq::empty(),
        Some(a) => seq![a] + spec_success_trace(spec_advance(s, Outcome::Success)),
    }
}

/// Whether a file exists at the artifact path after a run's actions, given
/// whether one existed before: only a compile creates it, and no action of
/// this pipeline removes it.
pub open spec fn spec_artifact_after(exists_before: bool, actions: Seq<Action>) -> bool
    decreases actions.len(),
{
    if actions.len() == 0 {
        exists_before
    } else {
        spec_artifact_after(exists_before || actions[0] == Action::Compile, actions.drop_first())
    }
}

proof fn lemma_artifact_persists(actions: Seq<Action>)
    ensures
        spec_artifact_after(true, actions),
    decreases actions.len(),
{
    if actions.len() > 0 {
        lemma_artifact_persists(actions.drop_first());
    }
}

/// A run that starts with the artifact already compiled performs exactly
/// fetch, link emission, bindings generation and bindings write: it never
/// configures or compiles, yet still regenerates the bindings; a run that
/// starts without the artifact performs every step, bindings included.
pub proof fn lemma_compiled_artifact_skips_native_build()
    ensures
        spec_success_trace(spec_start(true)) == seq![
            Action::FetchSources,
            Action::EmitLinkDirectives,
            Action::GenerateBindings,
            Action::WriteBindings,
        ],
        spec_success_trace(spec_start(false)) == seq![
            Action::FetchSources,
            Action::Configure,
            Action::Compile,
            Action::EmitLinkDirectives,
            Action::GenerateBindings,
            Action::WriteBindings,
        ],
        !spec_success_trace(spec_start(true)).contains(Action::Configure),
        !spec_success_trace(spec_start(true)).contains(Action::Compile),
        spec_success_trace(spec_start(true)).contains(Action::GenerateBindings),
        spec_success_trace(spec_start(false)).contains(Action::GenerateBindings),
{
    reveal_with_fuel(spec_success_trace, 8);
    let short = spec_success_trace(spec_start(true));
    let long = spec_success_trace(spec_start(false));
    assert(short =~= seq![
        Action::FetchSources,
        Action::EmitLinkDirectives,
        Action::GenerateBindings,
        Action::WriteBindings,
    ]);
    assert(long =~= seq![
        Action::FetchSources,
        Action::Configure,
        Action::Compile,
        Action::EmitLinkDirectives,
        Action::GenerateBindings,
        Action::WriteBindings,
    ]);
    assert(short.contains(Action::GenerateBindings)) by {
        assert(short[2] == Action::GenerateBindings);
    }
    assert(long.contains(Action::GenerateBindings)) by {
        assert(long[4] == Action::GenerateBindings);
    }
    assert forall|i: int| 0 <= i < short.len() implies short[i] != Action::Configure
        && short[i] != Action::Compile by {
        assert(short.len() == 4);
    }
}

/// A non-zero exit from the fetch, the configure or the compile step halts
/// the run at once with the matching error, and so does a failure of the
/// binding parse or of the output write; a failed run owes no action, and
/// nothing — link emission included — runs after the failure.
pub proof fn lemma_failure_halts(already_compiled: bool, e: BuildError, o: Outcome)
    ensures
        spec_advance(spec_start(already_compiled), Outcome::Failure)
            == PipelineState::Failed(BuildError::FetchFailed),
        spec_advance(PipelineState::AwaitConfigure, Outcome::Failure)
            == PipelineState::Failed(BuildError::ConfigureFailed),
        spec_advance(PipelineState::AwaitCompile, Outcome::Failure)
            == PipelineState::Failed(BuildError::CompileFailed),
        spec_advance(PipelineState::AwaitBindings, Outcome::Failure)
            == PipelineState::Failed(BuildError::ParseFailed),
        spec_advance(PipelineState::AwaitWrite, Outcome::Failure)
            == PipelineState::Failed(BuildError::WriteFailed),
        spec_next_action(PipelineState::Failed(e)) is None,
        spec_advance(PipelineState::Failed(e), o) == PipelineState::Failed(e),
        spec_success_trace(PipelineState::Failed(e)) == Seq::<Action>::empty(),
{
    reveal_with_fuel(spec_success_trace, 1);
    assert(spec_success_trace(PipelineState::Failed(e)) =~= Seq::<Action>::empty());
}

/// States from which the native build can no longer be owed: a fresh start
/// with the artifact already compiled, or anything past the configure and
/// compile steps.
pub open spec fn spec_skips_native_build(s: PipelineState) -> bool {
    match s {
        PipelineState::AwaitFetch { already_compiled } => already_compiled,
        PipelineState::AwaitConfigure => false,
        PipelineState::AwaitCompile => false,
        _ => true,
    }
}

/// Whatever the outcomes, a run that starts with the artifact already
/// compiled never owes the configure or the compile action: the skipping
/// states are closed under every step, and no skipping state hands either
/// action out.
pub proof fn lemma_compiled_start_never_owes_native_build(s: PipelineState, o: Outcome)
    requires
        spec_skips_native_build(s),
    ensures
        spec_skips_native_build(spec_advance(s, o)),
        spec_next_action(s) != Some(Action::Configure),
        spec_next_action(s) != Some(Action::Compile),
{
}

/// Re-running the pipeline with an unchanged environment and an already
/// compiled artifact is idempotent for the native build: the first run
/// neither configures nor compiles, the artifact still exists afterwards,
/// so the second run hands out exactly the same actions — and each run
/// still writes the bindings output afresh.
pub proof fn lemma_rerun_is_idempotent()
    ensures
        !spec_success_trace(spec_start(true)).contains(Action::Configure),
        !spec_success_trace(spec_start(true)).contains(Action::Compile),
        spec_artifact_after(true, spec_success_trace(spec_start(true))),
        spec_success_trace(
            spec_start(spec_artifact_after(true, spec_success_trace(spec_start(true)))),
        ) == spec_success_trace(spec_start(true)),
        spec_success_trace(spec_start(true)).contains(Action::WriteBindings),
{
    lemma_compiled_artifact_skips_native_build();
    lemma_artifact_persists(spec_success_trace(spec_start(true)));
    let short = spec_success_trace(spec_start(true));
    assert(short.contains(Action::WriteBindings)) by {
        assert(short[3] == Action::WriteBindings);
    }
}

impl PipelineState {
    /// Begins a run. `already_compiled` is whether a file exists at the
    /// platform's compiled-artifact path at this moment; the pipeline
    /// re-derives nothing later.
    pub fn start(already_compiled: bool) -> (r: Self)
        ensures
            r == spec_start(already_compiled),
    {
        PipelineState::AwaitFetch { already_compiled }
    }

    /// The next action the runner must perform, or `None` when the run
    /// is complete or has failed.
    pub fn next_action(&self) -> (r: Option<Action>)
        ensures
            r == spec_next_action(*self),
    {
        match self {
            PipelineState::AwaitFetch { .. } => Some(Action::FetchSources),
            PipelineState::AwaitConfigure => Some(Action::Configure),
            PipelineState::AwaitCompile => Some(Action::Compile),
            PipelineState::AwaitLink => Some(Action::EmitLinkDirectives),
            PipelineState::AwaitBindings => Some(Action::GenerateBindings),
            PipelineState::AwaitWrite => Some(Action::WriteBindings),
            PipelineState::Complete => None,
            PipelineState::Failed(_) => None,
        }
    }

    /// Consumes the outcome of the pending action and moves to the next
    /// state.
    pub fn advance(self, outcome: Outcome) -> (r: Self)
        ensures
            r == spec_advance(self, outcome),
    {
        match self {
            PipelineState::AwaitFetch { already_compiled } => match outcome {
                Outcome::Success => if already_compiled {
                    PipelineState::AwaitLink
                } else {
                    PipelineState::AwaitConfigure
                },
                Outcome::Failure => PipelineState::Failed(BuildError::FetchFailed),
            },
            PipelineState::AwaitConfigure => match outcome {
                Outcome::Success => PipelineState::AwaitCompile,
                Outcome::Failure => PipelineState::Failed(BuildError::ConfigureFailed),
            },
            PipelineState::AwaitCompile => match outcome {
                Outcome::Success => PipelineState::AwaitLink,
                Outcome::Failure => PipelineState::Failed(BuildError::CompileFailed),
            },
            PipelineState::AwaitLink => PipelineState::AwaitBindings,
            PipelineState::AwaitBindings => match outcome {
                Outcome::Success => PipelineState::AwaitWrite,
                Outcome::Failure => PipelineState::Failed(BuildError::ParseFailed),
            },
            PipelineState::AwaitWrite => match outcome {
                Outcome::Success => PipelineState::Complete,
                Outcome::Failure => PipelineState::Failed(BuildError::WriteFailed),
            },
            PipelineState::Complete => PipelineState::Complete,
            PipelineState::Failed(e) => PipelineState::Failed(e),
        }
    }

    /// The error a failed run stopped with, if any.
    pub fn error(&self) -> (r: Option<BuildError>)
        ensures
            r == (match *self {
                PipelineState::Failed(e) => Some(e),
                _ => None::<BuildError>,
            }),
    {
        match self {
            PipelineState::Failed(e) => Some(*e),
            _ => None,
        }
    }
}

} // verus!
