use ecsr::cascade::{next_action, step, Action, Event, State};
use ecsr::command::synthesize;
use ecsr::errors::{RunError, Stage};

fn s(x: &str) -> String {
    x.to_string()
}

#[test]
fn full_run_synthesizes_expected_line() {
    let mut state = State::Start;
    assert_eq!(next_action(&state), Some(Action::LoadProfiles));

    state = step(
        state,
        Event::ProfilesLoaded { profiles: vec![s("dev"), s("ops")] },
    )
    .unwrap();
    assert_eq!(
        next_action(&state),
        Some(Action::PromptChoice { stage: Stage::Profile })
    );

    state = step(state, Event::Chose { index: 0 }).unwrap();
    assert_eq!(
        next_action(&state),
        Some(Action::FetchClusters { profile: s("dev") })
    );

    state = step(
        state,
        Event::Fetched { candidates: vec![s("prod"), s("staging")] },
    )
    .unwrap();
    assert_eq!(
        next_action(&state),
        Some(Action::PromptChoice { stage: Stage::Cluster })
    );

    state = step(state, Event::Chose { index: 0 }).unwrap();
    assert_eq!(
        next_action(&state),
        Some(Action::FetchServices { cluster: s("prod") })
    );

    state = step(state, Event::Fetched { candidates: vec![s("web-api")] }).unwrap();
    state = step(state, Event::Chose { index: 0 }).unwrap();
    assert_eq!(
        next_action(&state),
        Some(Action::FetchTasks { cluster: s("prod"), service: s("web-api") })
    );

    state = step(state, Event::Fetched { candidates: vec![s("abcd1234")] }).unwrap();
    state = step(state, Event::Chose { index: 0 }).unwrap();
    assert_eq!(
        next_action(&state),
        Some(Action::FetchContainers { cluster: s("prod"), task: s("abcd1234") })
    );

    state = step(
        state,
        Event::Fetched { candidates: vec![s("nginx"), s("sidecar")] },
    )
    .unwrap();
    assert_eq!(
        next_action(&state),
        Some(Action::PromptChoice { stage: Stage::Container })
    );

    state = step(state, Event::Chose { index: 0 }).unwrap();
    assert_eq!(next_action(&state), Some(Action::PromptCommand));

    state = step(state, Event::CommandEntered { command: s("bash") }).unwrap();
    assert_eq!(next_action(&state), None);

    match state {
        State::Finished { context } => {
            assert_eq!(
                synthesize(&context),
                "aws --profile dev ecs execute-command --cluster prod \
                 --container nginx --interactive --command bash --task abcd1234"
            );
        }
        other => panic!("run did not finish: {:?}", other),
    }
}

#[test]
fn zero_clusters_abort_the_run() {
    let got = step(
        State::FetchingClusters { profile: s("dev") },
        Event::Fetched { candidates: vec![] },
    );
    assert_eq!(got, Err(RunError::NoCandidates { stage: Stage::Cluster }));
}

#[test]
fn zero_services_abort_the_run() {
    let got = step(
        State::FetchingServices { profile: s("dev"), cluster: s("prod") },
        Event::Fetched { candidates: vec![] },
    );
    assert_eq!(got, Err(RunError::NoCandidates { stage: Stage::Service }));
}

#[test]
fn zero_tasks_abort_the_run() {
    let got = step(
        State::FetchingTasks { profile: s("dev"), cluster: s("prod"), service: s("web-api") },
        Event::Fetched { candidates: vec![] },
    );
    assert_eq!(got, Err(RunError::NoCandidates { stage: Stage::Task }));
}

#[test]
fn zero_containers_abort_the_run() {
    let got = step(
        State::FetchingContainers {
            profile: s("dev"),
            cluster: s("prod"),
            service: s("web-api"),
            task: s("abcd1234"),
        },
        Event::Fetched { candidates: vec![] },
    );
    assert_eq!(got, Err(RunError::NoCandidates { stage: Stage::Container }));
}

#[test]
fn out_of_range_choice_is_fatal() {
    let got = step(
        State::ChoosingCluster { profile: s("dev"), clusters: vec![s("prod")] },
        Event::Chose { index: 1 },
    );
    assert_eq!(got, Err(RunError::Internal));
}

#[test]
fn choice_from_empty_profile_list_is_fatal() {
    let got = step(
        State::ChoosingProfile { profiles: vec![] },
        Event::Chose { index: 0 },
    );
    assert_eq!(got, Err(RunError::Internal));
}

#[test]
fn interrupted_prompt_aborts() {
    let got = step(
        State::ChoosingProfile { profiles: vec![s("dev")] },
        Event::Interrupted,
    );
    assert_eq!(got, Err(RunError::PromptAborted));
}

#[test]
fn interrupted_command_prompt_aborts() {
    let got = step(
        State::AwaitingCommand {
            profile: s("dev"),
            cluster: s("prod"),
            service: s("web-api"),
            task: s("abcd1234"),
            container: s("nginx"),
        },
        Event::Interrupted,
    );
    assert_eq!(got, Err(RunError::PromptAborted));
}

#[test]
fn lookup_failure_carries_its_cause() {
    let got = step(
        State::FetchingServices { profile: s("dev"), cluster: s("prod") },
        Event::LookupError { cause: s("access denied") },
    );
    assert_eq!(got, Err(RunError::LookupFailed { cause: s("access denied") }));
}

#[test]
fn missing_credentials_file_aborts() {
    let got = step(State::Start, Event::CredentialsMissing);
    assert_eq!(got, Err(RunError::CredentialsFileMissing));
}

#[test]
fn event_the_state_never_awaits_is_fatal() {
    let got = step(State::Start, Event::Chose { index: 0 });
    assert_eq!(got, Err(RunError::Internal));
    let got = step(
        State::FetchingClusters { profile: s("dev") },
        Event::CommandEntered { command: s("bash") },
    );
    assert_eq!(got, Err(RunError::Internal));
}

#[test]
fn empty_command_is_accepted_verbatim() {
    let state = State::AwaitingCommand {
        profile: s("dev"),
        cluster: s("prod"),
        service: s("web-api"),
        task: s("abcd1234"),
        container: s("nginx"),
    };
    let got = step(state, Event::CommandEntered { command: s("") }).unwrap();
    match got {
        State::Finished { context } => {
            assert_eq!(context.command, "");
            assert_eq!(
                synthesize(&context),
                "aws --profile dev ecs execute-command --cluster prod \
                 --container nginx --interactive --command  --task abcd1234"
            );
        }
        other => panic!("run did not finish: {:?}", other),
    }
}
