use vm_build::pipeline::{Action, BuildError, Outcome, PipelineState};

fn run_all_success(already_compiled: bool) -> (Vec<Action>, PipelineState) {
    let mut state = PipelineState::start(already_compiled);
    let mut actions = Vec::new();
    while let Some(action) = state.next_action() {
        actions.push(action);
        state = state.advance(Outcome::Success);
    }
    (actions, state)
}

#[test]
fn compiled_artifact_skips_configure_and_compile() {
    let (actions, end) = run_all_success(true);
    assert_eq!(
        actions,
        vec![
            Action::FetchSources,
            Action::EmitLinkDirectives,
            Action::GenerateBindings,
            Action::WriteBindings,
        ]
    );
    assert_eq!(end, PipelineState::Complete);
}

#[test]
fn fresh_build_runs_every_step_in_order() {
    let (actions, end) = run_all_success(false);
    assert_eq!(
        actions,
        vec![
            Action::FetchSources,
            Action::Configure,
            Action::Compile,
            Action::EmitLinkDirectives,
            Action::GenerateBindings,
            Action::WriteBindings,
        ]
    );
    assert_eq!(end, PipelineState::Complete);
}

#[test]
fn fetch_failure_halts_before_anything_else() {
    let state = PipelineState::start(false);
    assert_eq!(state.next_action(), Some(Action::FetchSources));
    let failed = state.advance(Outcome::Failure);
    assert_eq!(failed.error(), Some(BuildError::FetchFailed));
    assert_eq!(failed.next_action(), None);
    // Even reporting further outcomes moves nowhere.
    assert_eq!(failed.advance(Outcome::Success), failed);
}

#[test]
fn configure_failure_halts_with_its_own_error() {
    let state = PipelineState::start(false).advance(Outcome::Success);
    assert_eq!(state.next_action(), Some(Action::Configure));
    let failed = state.advance(Outcome::Failure);
    assert_eq!(failed.error(), Some(BuildError::ConfigureFailed));
    assert_eq!(failed.next_action(), None);
}

#[test]
fn compile_failure_halts_before_link_emission() {
    let state = PipelineState::start(false)
        .advance(Outcome::Success)
        .advance(Outcome::Success);
    assert_eq!(state.next_action(), Some(Action::Compile));
    let failed = state.advance(Outcome::Failure);
    assert_eq!(failed.error(), Some(BuildError::CompileFailed));
    assert_eq!(failed.next_action(), None);
}

#[test]
fn parse_and_write_failures_carry_their_kinds() {
    let at_bindings = PipelineState::start(true)
        .advance(Outcome::Success)
        .advance(Outcome::Success);
    assert_eq!(at_bindings.next_action(), Some(Action::GenerateBindings));
    let parse_failed = at_bindings.advance(Outcome::Failure);
    assert_eq!(parse_failed.error(), Some(BuildError::ParseFailed));

    let at_write = at_bindings.advance(Outcome::Success);
    assert_eq!(at_write.next_action(), Some(Action::WriteBindings));
    let write_failed = at_write.advance(Outcome::Failure);
    assert_eq!(write_failed.error(), Some(BuildError::WriteFailed));
    assert_eq!(write_failed.next_action(), None);
}

#[test]
fn rerun_with_compiled_artifact_is_idempotent_for_native_build() {
    // First run: the artifact already exists, so nothing recompiles,
    // and the artifact still exists afterwards.
    let mut artifact_exists = true;
    let (first, _) = run_all_success(artifact_exists);
    assert!(!first.contains(&Action::Configure));
    assert!(!first.contains(&Action::Compile));
    for action in &first {
        if *action == Action::Compile {
            artifact_exists = true;
        }
    }
    assert!(artifact_exists);
    // Second run: an unchanged environment hands out the same actions,
    // and still rewrites the bindings.
    let (second, _) = run_all_success(artifact_exists);
    assert_eq!(first, second);
    assert!(second.contains(&Action::WriteBindings));
}

#[test]
fn completed_run_owes_nothing_more() {
    let (_, end) = run_all_success(false);
    assert_eq!(end.next_action(), None);
    assert_eq!(end.error(), None);
    assert_eq!(end.advance(Outcome::Failure), PipelineState::Complete);
}
