use remote_connections::attempt::{
    prepare_remote_connection_attempt, Cancellation, CancellationStep, CloseWatch,
};
use remote_connections::connect::{AttemptOutcome, ConnectStep, RemoteProjectConnect};
use remote_connections::connection::{
    MockConnectionOptions, RemoteConnectionOptions, SshConnectionOptions,
};
use remote_connections::events::Event;
use remote_connections::existing::{
    open_existing_remote_project, ExistingOutcome, ExistingStep,
};
use remote_connections::navigate::{navigate_to_positions, Navigation};
use remote_connections::open::{open_remote_project, OpenError, RemoteProjectOpen};
use remote_connections::paths::{PathWithPosition, RemotePath};
use remote_connections::prepare::{
    prepare_remote_project, prepare_remote_project_inner, PreparationOutcome, PreparationStep,
    PrepareError,
};
use remote_connections::probe::{path_exists, PathProbe};
use remote_connections::resolve::{determine_paths_with_positions, PathResolution};
use remote_connections::workspace::{
    split_openings, ExistingWorkspace, OpenOptions, OpenVisible, PathOpening,
};

fn path(text: &str) -> RemotePath {
    RemotePath::Text(text.to_string())
}

fn at(text: &str, row: Option<u32>, column: Option<u32>) -> PathWithPosition {
    PathWithPosition { path: path(text), row, column }
}

fn mock() -> RemoteConnectionOptions {
    RemoteConnectionOptions::Mock(MockConnectionOptions { id: 1 })
}

fn found() -> ExistingWorkspace {
    ExistingWorkspace { window: 7, workspace: 8, open_visible: OpenVisible::OnlyFiles }
}

#[test]
fn cursors_go_to_positions() {
    let items = vec![Some(1), None, Some(3), Some(4), Some(5), Some(6)];
    let positions = vec![
        at("a", Some(1), Some(4)),
        at("b", Some(2), Some(2)),
        at("c", None, Some(9)),
        at("d", Some(0), Some(0)),
        at("e", Some(u32::MAX), None),
    ];
    assert_eq!(
        navigate_to_positions(&items, &positions),
        vec![
            Navigation { item: 1, row: 0, column: 3 },
            Navigation { item: 4, row: 0, column: 0 },
            Navigation { item: 5, row: u32::MAX - 1, column: 0 },
        ]
    );
    assert!(navigate_to_positions(&Vec::new(), &positions).is_empty());
    assert!(navigate_to_positions(&items, &Vec::new()).is_empty());
}

#[test]
fn a_path_with_a_row_gives_way_unless_it_exists() {
    for exists_there in [false, true] {
        let mut resolution = determine_paths_with_positions(vec![
            RemotePath::Encoded(vec![0xff, 0xfe]),
            path("file.txt:3:5"),
            path("plain"),
            RemotePath::Encoded(vec![0x80]),
        ]);
        assert!(
            matches!(&resolution, PathResolution::Parse { positions, .. } if positions.len() == 1)
        );
        resolution = resolution.next(Event::Parsed(at("file.txt", Some(3), Some(5))));
        assert!(matches!(&resolution, PathResolution::Probe { .. }));
        resolution = resolution.next(Event::Probed(exists_there));
        assert!(
            matches!(&resolution, PathResolution::Parse { positions, .. } if positions.len() == 2)
        );
        resolution = resolution.next(Event::Parsed(at("plain", None, None)));
        let (second, position) = if exists_there {
            (path("file.txt:3:5"), at("file.txt:3:5", None, None))
        } else {
            (path("file.txt"), at("file.txt", Some(3), Some(5)))
        };
        assert_eq!(
            resolution,
            PathResolution::Done {
                paths: vec![
                    RemotePath::Encoded(vec![0xff, 0xfe]),
                    second,
                    path("plain"),
                    RemotePath::Encoded(vec![0x80]),
                ],
                positions: vec![
                    PathWithPosition::from_path(RemotePath::Encoded(vec![0xff, 0xfe])),
                    position,
                    at("plain", None, None),
                    PathWithPosition::from_path(RemotePath::Encoded(vec![0x80])),
                ],
            }
        );
    }
}

#[test]
fn a_path_without_a_row_stays_even_if_it_reads_otherwise() {
    let resolution = determine_paths_with_positions(vec![path("odd:")]);
    let resolution = resolution.next(Event::Probed(false));
    assert!(matches!(&resolution, PathResolution::Parse { .. }));
    assert_eq!(
        resolution.next(Event::Parsed(at("odd", None, None))),
        PathResolution::Done { paths: vec![path("odd:")], positions: vec![at("odd:", None, None)] }
    );
}

#[test]
fn no_paths_are_resolved_at_once() {
    assert_eq!(
        determine_paths_with_positions(Vec::new()),
        PathResolution::Done { paths: Vec::new(), positions: Vec::new() }
    );
}

#[test]
fn a_path_exists_if_the_test_succeeds() {
    let probe = path_exists("/a b".to_string());
    assert_eq!(
        probe,
        PathProbe::Build {
            program: "test".to_string(),
            args: vec!["-e".to_string(), "/a b".to_string()],
            env: Vec::new(),
            interactive: false,
        }
    );
    let probe = probe.next(Event::Performed);
    assert_eq!(probe, PathProbe::Spawn);
    let probe = probe.next(Event::Performed);
    assert_eq!(probe, PathProbe::Wait);
    assert_eq!(probe.next(Event::Probed(true)), PathProbe::Done(true));
    assert_eq!(PathProbe::Wait.next(Event::Probed(false)), PathProbe::Done(false));
}

#[test]
fn whatever_goes_wrong_the_path_is_missing() {
    let failed = || Event::Failed("no".to_string());
    assert_eq!(path_exists("/a".to_string()).next(failed()), PathProbe::Done(false));
    assert_eq!(PathProbe::Spawn.next(failed()), PathProbe::Done(false));
    assert_eq!(PathProbe::Wait.next(failed()), PathProbe::Done(false));
    assert_eq!(PathProbe::Done(true).next(failed()), PathProbe::Done(true));
}

#[test]
fn openings_are_split() {
    let openings = vec![
        PathOpening::Error("first".to_string()),
        PathOpening::Item(3),
        PathOpening::Nothing,
        PathOpening::Error("second".to_string()),
    ];
    assert_eq!(
        split_openings(&openings),
        (
            vec![None, Some(3), None, None],
            vec!["first".to_string(), "second".to_string()]
        )
    );
}

fn existing(
    paths: Vec<RemotePath>,
    positions: Option<Vec<PathWithPosition>>,
    activate_window: bool,
) -> ExistingStep {
    let options = OpenOptions::default();
    open_existing_remote_project(&mock(), paths, positions, options, activate_window)
}

#[test]
fn paths_are_opened_in_a_live_workspace() {
    let asked = OpenOptions { visible: Some(OpenVisible::All), requesting_window: Some(9) };
    let step =
        open_existing_remote_project(&mock(), vec![path("/p/f:2")], None, asked, true);
    assert_eq!(
        step,
        ExistingStep::Find {
            connection: mock(),
            paths: vec![path("/p/f:2")],
            known: None,
            options: asked,
            activate_window: true,
        }
    );
    assert!(step.takes_time());
    let step = step.next(Event::Found(Some(found())));
    assert!(!step.takes_time());
    let step = step.next(Event::Connection(true));
    assert!(matches!(&step, ExistingStep::Resolve { .. }));
    let step = step.next(Event::Parsed(at("/p/f", Some(2), None)));
    assert!(step.takes_time());
    let step = step.next(Event::Probed(false));
    assert_eq!(
        step,
        ExistingStep::OpenPaths {
            found: found(),
            paths: vec![path("/p/f")],
            positions: vec![at("/p/f", Some(2), None)],
            options: OpenOptions {
                visible: Some(OpenVisible::OnlyFiles),
                requesting_window: None,
            },
            activate_window: true,
        }
    );
    let step = step.next(Event::PathsOpened(vec![PathOpening::Item(4)]));
    let navigations = vec![Navigation { item: 4, row: 1, column: 0 }];
    assert_eq!(
        step,
        ExistingStep::ShowErrors {
            found: found(),
            errors: Vec::new(),
            navigations: navigations.clone(),
        }
    );
    let step = step.next(Event::Performed);
    assert_eq!(step, ExistingStep::Navigate { found: found(), navigations });
    assert_eq!(
        step.next(Event::Performed),
        ExistingStep::Done(ExistingOutcome::Opened(7))
    );
}

#[test]
fn known_positions_are_not_told_apart_again() {
    let positions = vec![at("/p/f", Some(2), None)];
    let step = existing(vec![path("/p/f")], Some(positions.clone()), false)
        .next(Event::Found(Some(found())))
        .next(Event::Connection(true));
    match &step {
        ExistingStep::OpenPaths { paths, positions: known, activate_window, .. } => {
            assert_eq!(*paths, vec![path("/p/f")]);
            assert_eq!(*known, positions);
            assert!(!*activate_window);
        }
        _ => panic!("the paths should be opened"),
    }
    assert_eq!(
        step.next(Event::Failed("gone".to_string())),
        ExistingStep::Done(ExistingOutcome::Failed("gone".to_string()))
    );
}

#[test]
fn a_dead_connection_counts_as_none() {
    let step = existing(vec![path("/p")], None, true)
        .next(Event::Found(Some(found())))
        .next(Event::Connection(false));
    assert_eq!(step, ExistingStep::Done(ExistingOutcome::Nothing));
    let step = existing(vec![path("/p")], None, true).next(Event::Found(None));
    assert_eq!(step, ExistingStep::Done(ExistingOutcome::Nothing));
}

#[test]
fn an_attempt_needs_its_modal() {
    assert_eq!(prepare_remote_connection_attempt(5, &mock(), true, false), None);
    let options = RemoteConnectionOptions::Ssh(SshConnectionOptions {
        password: Some("secret".to_string()),
        ..SshConnectionOptions::default()
    });
    let attempt = prepare_remote_connection_attempt(5, &options, true, true).unwrap();
    assert_eq!(attempt.password, Some("secret".to_string()));
    assert_eq!(attempt.close_watch, CloseWatch { window: 5, reported: false });
    assert_eq!(
        attempt.cancellation,
        Cancellation { window: 5, created_new_window: true, step: CancellationStep::Wait }
    );
    let attempt = prepare_remote_connection_attempt(5, &mock(), false, true).unwrap();
    assert_eq!(attempt.password, None);
}

#[test]
fn the_closing_of_the_window_is_reported_once() {
    let mut watch = CloseWatch { window: 5, reported: false };
    assert!(!watch.on_window_closed(6));
    assert!(watch.on_window_closed(5));
    assert!(!watch.on_window_closed(5));
    assert!(!watch.on_window_closed(6));
}

#[test]
fn cancelling_closes_only_a_new_window() {
    for created_new_window in [false, true] {
        let waiting =
            Cancellation { window: 5, created_new_window, step: CancellationStep::Wait };
        assert_eq!(waiting.next(&Event::Performed), waiting);
        let cancelled = waiting.next(&Event::Cancelled);
        assert_eq!(cancelled.step, CancellationStep::CancelConnection);
        let told = cancelled.next(&Event::Performed);
        if created_new_window {
            assert_eq!(told.step, CancellationStep::RemoveWindow);
            assert_eq!(told.next(&Event::Performed).step, CancellationStep::Done);
        } else {
            assert_eq!(told.step, CancellationStep::Done);
        }
    }
}

fn prepared(requesting_window: Option<u64>, window: u64) -> RemoteProjectConnect {
    let options = OpenOptions { visible: None, requesting_window };
    let mut preparation = prepare_remote_project_inner(mock(), vec![path("/p")], options);
    if requesting_window.is_none() {
        assert!(preparation.created_new_window());
        preparation = preparation.next(Event::PositionFetched(2));
        assert_eq!(
            preparation.step,
            PreparationStep::OpenWindow {
                position: 2,
                placeholder: true,
                init_worktree_trust: false,
            }
        );
        preparation = preparation.next(Event::WindowOpened(window));
    } else {
        assert!(!preparation.created_new_window());
        assert_eq!(preparation.step, PreparationStep::ReadWorkspace { window });
    }
    preparation = preparation.next(Event::WorkspaceRead(8));
    assert_eq!(preparation.step, PreparationStep::ShowModal { window, workspace: 8 });
    preparation = preparation.next(Event::AttemptPrepared(true));
    match preparation.outcome() {
        PreparationOutcome::Ready(project) => {
            assert_eq!(project.window(), window);
            assert_eq!(project.initial_workspace, 8);
            project.connect(true)
        }
        _ => panic!("the project should be ready"),
    }
}

#[test]
fn preparing_fails_with_the_error_of_the_step() {
    let failed = || Event::Failed("no".to_string());
    let start = || prepare_remote_project(mock(), vec![path("/p")]);
    assert_eq!(start().step, PreparationStep::FetchPosition);
    let error = PrepareError::Position("no".to_string());
    assert_eq!(error.message(), "fetching remote workspace position from db");
    assert_eq!(start().next(failed()).outcome(), PreparationOutcome::Failed(error));

    let opening = start().next(Event::PositionFetched(2)).next(failed());
    let error = PrepareError::Window("no".to_string());
    assert_eq!(error.message(), "no");
    assert_eq!(opening.outcome(), PreparationOutcome::Failed(error));

    let activating = start().next(Event::PositionFetched(2)).next(Event::WindowOpened(3));
    assert_eq!(activating.step, PreparationStep::ActivateWindow { window: 3 });
    assert_eq!(
        activating.next(failed()).outcome(),
        PreparationOutcome::Failed(PrepareError::Window("no".to_string()))
    );

    let modal = start()
        .next(Event::PositionFetched(2))
        .next(Event::WindowOpened(3))
        .next(Event::WorkspaceRead(8))
        .next(Event::AttemptPrepared(false));
    assert_eq!(PrepareError::Modal.message(), "remote connection modal could not be opened");
    assert_eq!(modal.outcome(), PreparationOutcome::Failed(PrepareError::Modal));
}

#[test]
fn opening_fails_with_the_error_of_the_existing_workspace() {
    let paths = vec![RemotePath::Encoded(vec![0xff])];
    let open = open_remote_project(mock(), paths, OpenOptions::default())
        .next(Event::Found(Some(found())))
        .next(Event::Connection(true))
        .next(Event::Failed("gone".to_string()));
    assert_eq!(open, RemoteProjectOpen::Failed(OpenError::Existing("gone".to_string())));
    assert_eq!(OpenError::Existing("gone".to_string()).message(), "gone");
    assert_eq!(
        OpenError::Prepare(PrepareError::Modal).message(),
        "remote connection modal could not be opened"
    );
}

/// A session that has taken its lock.
fn locked(requesting_window: Option<u64>) -> RemoteProjectConnect {
    prepared(requesting_window, 3)
        .next(Event::Performed)
        .next(Event::Found(None))
        .next(Event::Performed)
        .next(Event::Parsed(at("/p", None, None)))
        .next(Event::Performed)
}

#[test]
fn the_lock_is_held_from_the_second_look_to_the_end() {
    let connect = prepared(None, 3);
    assert!(connect.cancellable());
    assert!(!connect.holds_lock());
    let connect = locked(None);
    assert!(connect.holds_lock());
    let connect = connect.next(Event::Found(None));
    assert!(matches!(&connect.step, ConnectStep::OpenProject { .. }));
    assert!(connect.holds_lock());
    let connect = connect.next(Event::ProjectOpened(Some(vec![None])));
    assert!(connect.holds_lock());
    assert!(!connect.cancellable());
    let connect = connect.next(Event::Cancelled).next(Event::Performed);
    assert!(!connect.holds_lock());
    assert_eq!(connect.step, ConnectStep::FinishModal(AttemptOutcome::Opened(3)));
    assert_eq!(connect.next(Event::Performed).step, ConnectStep::Done(3));
}

#[test]
fn every_search_is_made_as_asked() {
    let first = prepared(Some(3), 3).next(Event::Performed);
    let options = OpenOptions { visible: None, requesting_window: Some(3) };
    let search = |known: Option<Vec<PathWithPosition>>| ExistingStep::Find {
        connection: mock(),
        paths: vec![path("/p")],
        known,
        options,
        activate_window: true,
    };
    assert!(!first.created_new_window());
    assert!(prepared(None, 3).created_new_window());
    assert_eq!(first.step, ConnectStep::CheckFirst(search(None)));
    match locked(Some(3)).step {
        ConnectStep::CheckAgain { check, .. } => {
            assert_eq!(check, search(Some(vec![at("/p", None, None)])));
        }
        _ => panic!("the project should be looked for again"),
    }
}

#[test]
fn a_project_without_a_workspace_is_given_up() {
    let connect = locked(None).next(Event::Found(None)).next(Event::ProjectOpened(None));
    assert_eq!(connect.step, ConnectStep::FinishModal(AttemptOutcome::NotOpened));
    let connect = connect.next(Event::Performed);
    assert_eq!(connect.step, ConnectStep::RemoveWindow(3));
    assert_eq!(connect.next(Event::Performed).step, ConnectStep::Done(3));
    let connect = locked(Some(3)).next(Event::Found(None)).next(Event::ProjectOpened(None));
    assert_eq!(connect.next(Event::Performed).step, ConnectStep::Done(3));
}

#[test]
fn trust_is_asked_for_if_only_the_opening_failed() {
    let connect = locked(Some(3))
        .next(Event::Found(None))
        .next(Event::Failed("broken".to_string()))
        .next(Event::Performed);
    assert_eq!(
        connect.step,
        ConnectStep::Prompt {
            message: "Failed to connect to mock server",
            error: "broken".to_string(),
            opening_failed: true,
        }
    );
    let connect = connect.next(Event::Answered(Some(1)));
    assert_eq!(connect.step, ConnectStep::TrackTrust { workspace: 8 });
    assert_eq!(connect.next(Event::Performed).step, ConnectStep::Done(3));

    let connect = prepared(Some(3), 3)
        .next(Event::Performed)
        .next(Event::Found(None))
        .next(Event::Failed("no server".to_string()))
        .next(Event::Performed);
    assert_eq!(
        connect.step,
        ConnectStep::Prompt {
            message: "Failed to connect to mock server",
            error: "no server".to_string(),
            opening_failed: false,
        }
    );
    assert_eq!(connect.next(Event::Answered(None)).step, ConnectStep::Done(3));
}

#[test]
fn a_prompt_that_cannot_be_shown_leaves_the_window_alone() {
    let connect = prepared(None, 3)
        .next(Event::Failed("window not found".to_string()))
        .next(Event::Performed)
        .next(Event::Failed("window not found".to_string()));
    assert_eq!(connect.step, ConnectStep::Done(3));
}

#[test]
fn a_retry_starts_over_unless_it_cannot_be_prepared() {
    let asked = || {
        prepared(None, 3)
            .next(Event::Failed("no".to_string()))
            .next(Event::Performed)
            .next(Event::Answered(Some(0)))
    };
    assert_eq!(asked().step, ConnectStep::Retry { workspace: 8 });
    assert_eq!(asked().next(Event::AttemptPrepared(true)), prepared(None, 3));
    assert_eq!(
        asked().next(Event::AttemptPrepared(false)).step,
        ConnectStep::RemoveWindow(3)
    );
}

#[test]
fn a_workspace_that_came_up_meanwhile_is_used() {
    let connect = locked(None)
        .next(Event::Found(Some(found())))
        .next(Event::Connection(true))
        .next(Event::PathsOpened(vec![PathOpening::Nothing]))
        .next(Event::Performed)
        .next(Event::Performed);
    assert_eq!(connect.step, ConnectStep::FinishModal(AttemptOutcome::Opened(7)));
    let connect = connect.next(Event::Performed);
    assert_eq!(connect.step, ConnectStep::RemoveWindow(7));
    assert_eq!(connect.next(Event::Performed).step, ConnectStep::Done(7));
    let connect = locked(Some(3))
        .next(Event::Found(Some(found())))
        .next(Event::Connection(true))
        .next(Event::Failed("gone".to_string()));
    assert_eq!(
        connect.step,
        ConnectStep::FinishModal(AttemptOutcome::Failed {
            error: "gone".to_string(),
            opening_failed: false,
        })
    );
}
