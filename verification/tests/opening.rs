use std::sync::Arc;

use futures::lock::{Mutex, OwnedMutexGuard};
use remote_connections::attempt::{prepare_remote_connection_attempt, RemoteConnectionAttempt};
use remote_connections::connect::{prompt_answers, ConnectStep, RemoteProjectConnect};
use remote_connections::connection::{MockConnectionOptions, RemoteConnectionOptions};
use remote_connections::events::Event;
use remote_connections::existing::{open_existing_remote_project, ExistingStep};
use remote_connections::locks::RemoteProjectOpenLocks;
use remote_connections::navigate::Navigation;
use remote_connections::open::{open_remote_project, OpenError, RemoteProjectOpen};
use remote_connections::paths::{PathWithPosition, RemotePath};
use remote_connections::prepare::{
    prepare_remote_project, PreparationOutcome, PreparationStep, PreparedRemoteProject,
    RemoteProjectPreparation,
};
use remote_connections::resolve::PathResolution;
use remote_connections::workspace::{
    split_openings, ExistingWorkspace, OpenOptions, OpenVisible, PathOpening,
};

/// A workspace that is open on a remote directory.
struct OpenWorkspace {
    id: u64,
    window: u64,
    root: String,
    alive: bool,
}

/// The editor and the remote machine around it.
struct World {
    windows: Vec<u64>,
    next_id: u64,
    workspaces: Vec<OpenWorkspace>,
    directories: Vec<String>,
    files: Vec<String>,
    server_reachable: bool,
    server_answers: bool,
    prompts: usize,
    prompt_open: bool,
    answers: Vec<Option<usize>>,
    cursors: Vec<Navigation>,
    errors: Vec<String>,
    connections: usize,
    /// The workspaces in which trust was asked for.
    trust_asked: Vec<u64>,
    /// The workspaces in which the modal was shown.
    modals_shown: Vec<u64>,
    modals_told: usize,
    locks: RemoteProjectOpenLocks<u64, Vec<String>>,
}

fn world() -> World {
    World {
        windows: Vec::new(),
        next_id: 1,
        workspaces: Vec::new(),
        directories: vec!["/project".to_string(), "/project/src".to_string()],
        files: vec![
            "/project/file.txt".to_string(),
            "/project/src/main.rs".to_string(),
            "/project/src/lib.rs".to_string(),
            "/project/README.md".to_string(),
        ],
        server_reachable: true,
        server_answers: true,
        prompts: 0,
        prompt_open: false,
        answers: Vec::new(),
        cursors: Vec::new(),
        errors: Vec::new(),
        connections: 0,
        trust_asked: Vec::new(),
        modals_shown: Vec::new(),
        modals_told: 0,
        locks: RemoteProjectOpenLocks::default(),
    }
}

/// Where windows are opened.
const POSITION: u64 = 11;

/// The workspace that is in a window before a project is opened in it.
fn stand_in(window: u64) -> u64 {
    1000 + window
}

fn mock(id: u64) -> RemoteConnectionOptions {
    RemoteConnectionOptions::Mock(MockConnectionOptions { id })
}

fn path(text: &str) -> RemotePath {
    RemotePath::Text(text.to_string())
}

fn text(path: &RemotePath) -> String {
    match path {
        RemotePath::Text(text) => text.clone(),
        RemotePath::Encoded(_) => panic!("not a text path"),
    }
}

/// Reads `path:row:column`.
fn parse(text: &str) -> PathWithPosition {
    let mut rest = text.to_string();
    let mut numbers: Vec<u32> = Vec::new();
    while let Some((before, number)) = rest.clone().rsplit_once(':') {
        match number.parse::<u32>() {
            Ok(number) => numbers.insert(0, number),
            Err(_) => break,
        }
        rest = before.to_string();
    }
    PathWithPosition {
        path: RemotePath::Text(rest),
        row: numbers.first().copied(),
        column: numbers.get(1).copied(),
    }
}

impl World {
    fn id(&mut self) -> u64 {
        self.next_id += 1;
        self.next_id
    }

    fn open_window(&mut self) -> u64 {
        let window = self.id();
        self.windows.push(window);
        window
    }

    fn close_window(&mut self, window: u64) {
        self.windows.retain(|open| *open != window);
        self.workspaces.retain(|workspace| workspace.window != window);
    }

    fn is_there(&self, path: &str) -> bool {
        self.files.iter().any(|file| file == path) || self.directories.iter().any(|dir| dir == path)
    }

    fn find(&self, paths: &[RemotePath]) -> Option<ExistingWorkspace> {
        self.workspaces
            .iter()
            .find(|workspace| {
                paths.iter().all(|path| {
                    let path = text(path);
                    path == workspace.root || path.starts_with(&format!("{}/", workspace.root))
                })
            })
            .map(|workspace| ExistingWorkspace {
                window: workspace.window,
                workspace: workspace.id,
                open_visible: OpenVisible::All,
            })
    }

    fn open_path(&mut self, path: &str) -> PathOpening {
        if self.directories.iter().any(|dir| dir == path) {
            PathOpening::Nothing
        } else if self.files.iter().any(|file| file == path) {
            PathOpening::Item(self.id())
        } else {
            PathOpening::Error(format!("no such file: {path}"))
        }
    }

    fn resolution(&self, resolution: &PathResolution) -> Event {
        match resolution {
            PathResolution::Parse { paths, positions } => {
                Event::Parsed(parse(&text(&paths[positions.len()])))
            }
            PathResolution::Probe { paths, positions, .. } => {
                Event::Probed(self.is_there(&text(&paths[positions.len()])))
            }
            PathResolution::Done { .. } => unreachable!(),
        }
    }

    fn existing(&mut self, step: &ExistingStep) -> Event {
        match step {
            ExistingStep::Find { paths, .. } => Event::Found(self.find(paths)),
            ExistingStep::ReadConnection { found, .. } => Event::Connection(
                self.workspaces
                    .iter()
                    .any(|workspace| workspace.id == found.workspace && workspace.alive),
            ),
            ExistingStep::Resolve { resolution, .. } => self.resolution(resolution),
            ExistingStep::OpenPaths { paths, options, .. } => {
                assert_eq!(options.visible, Some(OpenVisible::All));
                assert_eq!(options.requesting_window, None);
                let mut openings = Vec::new();
                for path in paths {
                    openings.push(self.open_path(&text(path)));
                }
                Event::PathsOpened(openings)
            }
            ExistingStep::ShowErrors { errors, .. } => {
                self.errors.extend(errors.iter().cloned());
                Event::Performed
            }
            ExistingStep::Navigate { navigations, .. } => {
                self.cursors.extend(navigations.iter().copied());
                Event::Performed
            }
            ExistingStep::Done(_) => unreachable!(),
        }
    }

    fn attempt(
        &mut self,
        window: u64,
        workspace: u64,
        options: &RemoteConnectionOptions,
        created_new_window: bool,
    ) -> Option<RemoteConnectionAttempt> {
        let shown = self.windows.contains(&window);
        if shown {
            self.modals_shown.push(workspace);
        }
        prepare_remote_connection_attempt(window, options, created_new_window, shown)
    }

    fn preparation(&mut self, preparation: &RemoteProjectPreparation) -> Event {
        match preparation.step {
            PreparationStep::ReadWorkspace { window } => {
                if self.windows.contains(&window) {
                    Event::WorkspaceRead(stand_in(window))
                } else {
                    Event::Failed("window not found".to_string())
                }
            }
            PreparationStep::FetchPosition => Event::PositionFetched(POSITION),
            PreparationStep::OpenWindow { position, placeholder, init_worktree_trust } => {
                assert_eq!(position, POSITION);
                assert!(placeholder);
                assert!(!init_worktree_trust);
                Event::WindowOpened(self.open_window())
            }
            PreparationStep::ActivateWindow { window } => Event::WorkspaceRead(stand_in(window)),
            PreparationStep::ShowModal { window, workspace } => {
                assert_eq!(workspace, stand_in(window));
                let created = preparation.created_new_window();
                let options = &preparation.connection_options;
                let attempt = self.attempt(window, workspace, options, created);
                Event::AttemptPrepared(attempt.is_some())
            }
            PreparationStep::Ready { .. } | PreparationStep::Failed(_) => unreachable!(),
        }
    }
}

/// Somebody who connects to a project, with the lock that they hold.
struct Session {
    connect: Option<RemoteProjectConnect>,
    lock: Option<Arc<Mutex<()>>>,
    guard: Option<OwnedMutexGuard<()>>,
    cancelled: bool,
    result: Option<u64>,
}

fn session(connect: RemoteProjectConnect) -> Session {
    Session { connect: Some(connect), lock: None, guard: None, cancelled: false, result: None }
}

impl Session {
    /// Goes on until the session is over, or has to wait for something.
    fn run(&mut self, world: &mut World) {
        while self.result.is_none() {
            let connect = self.connect.take().unwrap();
            if !connect.holds_lock() {
                self.guard = None;
            }
            if let ConnectStep::Done(window) = connect.step {
                self.result = Some(window);
                self.lock = None;
                return;
            }
            let event = if self.cancelled && connect.cancellable() {
                Some(Event::Cancelled)
            } else {
                self.perform(&connect, world)
            };
            match event {
                Some(event) => self.connect = Some(connect.next(event)),
                None => {
                    self.connect = Some(connect);
                    return;
                }
            }
        }
    }

    fn perform(&mut self, connect: &RemoteProjectConnect, world: &mut World) -> Option<Event> {
        let window_gone = !world.windows.contains(&connect.window);
        Some(match &connect.step {
            ConnectStep::Activate => {
                if window_gone {
                    Event::Failed("window not found".to_string())
                } else {
                    Event::Performed
                }
            }
            ConnectStep::CheckFirst(check) => world.existing(check),
            ConnectStep::Connect => {
                if !world.server_reachable {
                    Event::Failed("no such server".to_string())
                } else if world.server_answers {
                    world.connections += 1;
                    Event::Performed
                } else {
                    return None;
                }
            }
            ConnectStep::Resolve(resolution) => world.resolution(resolution),
            ConnectStep::Lock { paths, .. } => {
                let identity = match &connect.connection_options {
                    RemoteConnectionOptions::Mock(options) => options.id,
                    _ => unreachable!(),
                };
                let paths: Vec<String> = paths.iter().map(text).collect();
                if self.lock.is_none() {
                    self.lock = Some(world.locks.lock(identity, paths));
                }
                self.guard = self.lock.as_ref().unwrap().try_lock_owned();
                if self.guard.is_none() {
                    return None;
                }
                Event::Performed
            }
            ConnectStep::CheckAgain { check, .. } => {
                assert!(self.guard.is_some());
                world.existing(check)
            }
            ConnectStep::OpenProject { paths, .. } => {
                assert!(self.guard.is_some());
                if window_gone {
                    return Some(Event::Failed("window not found".to_string()));
                }
                let mut items = Vec::new();
                for path in paths {
                    let opening = world.open_path(&text(path));
                    items.push(match opening {
                        PathOpening::Item(item) => Some(item),
                        _ => None,
                    });
                }
                let id = world.id();
                world.workspaces.push(OpenWorkspace {
                    id,
                    window: connect.window,
                    root: text(&paths[0]),
                    alive: true,
                });
                Event::ProjectOpened(Some(items))
            }
            ConnectStep::Navigate(navigations) => {
                world.cursors.extend(navigations.iter().copied());
                Event::Performed
            }
            ConnectStep::FinishModal(_) => {
                world.modals_told += 1;
                Event::Performed
            }
            ConnectStep::Prompt { message, .. } => {
                assert_eq!(*message, "Failed to connect to mock server");
                if window_gone {
                    return Some(Event::Failed("window not found".to_string()));
                }
                if !world.prompt_open {
                    world.prompts += 1;
                    world.prompt_open = true;
                }
                if world.answers.is_empty() {
                    return None;
                }
                world.prompt_open = false;
                Event::Answered(world.answers.remove(0))
            }
            ConnectStep::TrackTrust { workspace } => {
                world.trust_asked.push(*workspace);
                Event::Performed
            }
            ConnectStep::Retry { workspace } => {
                let attempt = world.attempt(
                    connect.window,
                    *workspace,
                    &connect.connection_options,
                    connect.created_new_window(),
                );
                Event::AttemptPrepared(attempt.is_some())
            }
            ConnectStep::RemoveWindow(_) => {
                world.close_window(connect.window);
                Event::Performed
            }
            ConnectStep::Done(_) => unreachable!(),
        })
    }
}

/// Prepares a project in a new window.
fn prepare(
    world: &mut World,
    options: RemoteConnectionOptions,
    paths: Vec<RemotePath>,
) -> PreparedRemoteProject {
    let mut preparation = prepare_remote_project(options, paths);
    loop {
        let event = world.preparation(&preparation);
        match preparation.next(event).outcome() {
            PreparationOutcome::Pending(pending) => preparation = pending,
            PreparationOutcome::Ready(project) => return project,
            PreparationOutcome::Failed(error) => panic!("{}", error.message()),
        }
    }
}

/// Opens a project up to the point where it connects.
fn start(world: &mut World, mut open: RemoteProjectOpen) -> RemoteProjectOpen {
    loop {
        let event = match &open {
            RemoteProjectOpen::Existing { check, .. } => world.existing(check),
            RemoteProjectOpen::Prepare(preparation) => world.preparation(preparation),
            _ => return open,
        };
        open = open.next(event);
    }
}

/// Opens a project from start to finish.
fn open(
    world: &mut World,
    options: RemoteConnectionOptions,
    paths: Vec<RemotePath>,
    open_options: OpenOptions,
) -> Result<u64, OpenError> {
    match start(world, open_remote_project(options, paths, open_options)) {
        RemoteProjectOpen::Connect(connect) => {
            let mut session = session(connect);
            session.run(world);
            Ok(session.result.expect("the session should be over"))
        }
        RemoteProjectOpen::Opened(window) => Ok(window),
        RemoteProjectOpen::Failed(error) => Err(error),
        _ => unreachable!(),
    }
}

#[test]
fn test_open_remote_project_with_mock_connection() {
    let mut world = world();
    let result = open(&mut world, mock(1), vec![path("/project")], OpenOptions::default());

    assert!(result.is_ok(), "open_remote_project should succeed");
    assert_eq!(world.windows.len(), 1, "Should have opened a window");
    let window = world.windows[0];
    assert_eq!(result, Ok(window));
    assert!(
        world.workspaces.iter().any(|workspace| workspace.window == window),
        "Project should be a remote project"
    );
    assert_eq!(world.modals_told, 1);
}

#[test]
fn test_reuse_existing_remote_workspace_window() {
    let mut world = world();
    let first_window = open(&mut world, mock(1), vec![path("/project")], OpenOptions::default())
        .expect("first open_remote_project should succeed");
    assert_eq!(world.windows.len(), 1, "First open should create exactly one window");

    let found = world.find(&[path("/project/src/lib.rs")]);
    assert!(
        found.is_some(),
        "find_existing_workspace should locate the existing remote workspace"
    );
    assert_eq!(
        found.unwrap().window, first_window,
        "find_existing_workspace should return the same window"
    );

    let second = open(
        &mut world,
        mock(1),
        vec![path("/project/src/lib.rs")],
        OpenOptions::default(),
    )
    .expect("second open_remote_project should succeed via reuse");
    assert_eq!(
        world.windows.len(),
        1,
        "Second open should reuse the existing window, not create a new one"
    );
    assert_eq!(world.connections, 1);
    assert_eq!(
        second, first_window,
        "The window handle should be the same after reuse"
    );
}

#[test]
fn test_reopen_existing_remote_root_treats_root_as_directory() {
    let mut world = world();
    world.directories.push("/home/remote-reopen-root-project".to_string());
    let root = "/home/remote-reopen-root-project";
    open(&mut world, mock(1), vec![path(root)], OpenOptions::default())
        .expect("initial open_remote_project should succeed");

    let open_results = vec![world.open_path(root)];
    let (items, errors) = split_openings(&open_results);
    assert_eq!(items.len(), 1, "should return one open result");
    assert!(
        items[0].is_none(),
        "reopening a remote root directory should not try to open it as a file"
    );
    assert!(errors.is_empty());

    let options = OpenOptions::default();
    let mut step =
        open_existing_remote_project(&mock(1), vec![path(root)], None, options, true);
    while !matches!(&step, ExistingStep::ShowErrors { .. }) {
        let event = world.existing(&step);
        step = step.next(event);
    }
    match &step {
        ExistingStep::ShowErrors { found, errors, navigations } => {
            assert_eq!(found.window, world.windows[0]);
            assert!(errors.is_empty());
            assert!(navigations.is_empty());
        }
        _ => unreachable!(),
    }
}

#[test]
fn test_reconnect_when_server_not_running() {
    let mut world = world();
    open(&mut world, mock(1), vec![path("/project")], OpenOptions::default())
        .expect("initial open should succeed");
    assert_eq!(world.windows.len(), 1);
    let window = world.windows[0];

    world.workspaces[0].alive = false;
    let original_client = world.workspaces[0].id;

    let result = open(
        &mut world,
        mock(1),
        vec![path("/project")],
        OpenOptions { requesting_window: Some(window), ..OpenOptions::default() },
    );
    // The second look still sees the dead workspace, which counts as none.
    assert!(result.is_ok(), "reconnect should succeed but got: {:?}", result.err());
    assert_eq!(result, Ok(window));
    assert_eq!(world.windows.len(), 1);
    let client = world.workspaces.iter().find(|workspace| workspace.alive).unwrap();
    assert_ne!(client.id, original_client);
    assert_eq!(client.window, window);
    assert_eq!(world.connections, 2);
    assert_eq!(world.prompts, 0);
}

#[test]
fn test_prepared_remote_project_reuses_completed_open() {
    let mut world = world();
    let prepared = prepare(&mut world, mock(1), vec![path("/project")]);
    let placeholder = prepared.window();
    let window = open(&mut world, mock(1), vec![path("/project")], OpenOptions::default()).unwrap();
    let workspace = world.workspaces[0].id;

    let mut restoring = session(prepared.connect(false));
    restoring.run(&mut world);
    let restored = restoring.result.unwrap();

    assert_eq!(restored, window);
    assert_eq!(world.windows, vec![window]);
    assert!(!world.windows.contains(&placeholder));
    assert_eq!(world.workspaces.len(), 1);
    assert_eq!(world.workspaces[0].id, workspace);
    assert_eq!(world.prompts, 0);
}

#[test]
fn test_prepared_remote_project_reuses_pending_open() {
    for (open_path, restore_path) in [
        ("/project", "/project"),
        ("/project/file.txt", "/project/file.txt:1:4"),
    ] {
        let mut world = world();
        world.server_answers = false;
        let prepared = prepare(&mut world, mock(1), vec![path(restore_path)]);
        let opening = start(
            &mut world,
            open_remote_project(mock(1), vec![path(open_path)], OpenOptions::default()),
        );
        let mut opening = match opening {
            RemoteProjectOpen::Connect(connect) => session(connect),
            _ => unreachable!(),
        };
        opening.run(&mut world);
        assert!(opening.result.is_none());
        let mut restoring = session(prepared.connect(false));
        restoring.run(&mut world);
        assert!(restoring.result.is_none());
        assert_eq!(world.windows.len(), 2);

        world.server_answers = true;
        opening.run(&mut world);
        restoring.run(&mut world);
        let window = opening.result.unwrap();
        assert_eq!(restoring.result, Some(window));
        assert_eq!(world.windows, vec![window]);
        assert_eq!(world.prompts, 0);
        if open_path != restore_path {
            let cursor = world.cursors.last().unwrap();
            assert_eq!((cursor.row, cursor.column), (0, 3));
        } else {
            assert!(world.cursors.is_empty());
        }
    }
}

#[test]
fn the_second_of_two_opens_waits_for_the_lock_of_the_first() {
    let mut world = world();
    let first = prepare(&mut world, mock(1), vec![path("/project")]);
    let second = prepare(&mut world, mock(1), vec![path("/project")]);
    let other = prepare(&mut world, mock(1), vec![path("/project/src")]);

    // Somebody else holds the lock of the project.
    let lock = world.locks.lock(1, vec!["/project".to_string()]);
    let guard = lock.try_lock_owned().unwrap();
    let mut first = session(first.connect(true));
    let mut second = session(second.connect(true));
    let mut other = session(other.connect(true));
    first.run(&mut world);
    second.run(&mut world);
    other.run(&mut world);
    assert!(first.result.is_none());
    assert!(second.result.is_none());
    assert!(other.result.is_some());
    assert_eq!(world.workspaces.len(), 1);

    drop(guard);
    first.run(&mut world);
    let window = first.result.unwrap();
    second.run(&mut world);
    assert_eq!(second.result, Some(window));
    assert_eq!(world.workspaces.iter().filter(|open| open.root == "/project").count(), 1);
}

#[test]
fn test_closing_prepared_remote_project_cancels_wait_for_pending_open() {
    let mut world = world();
    world.server_answers = false;
    let prepared = prepare(&mut world, mock(1), vec![path("/project")]);
    let placeholder = prepared.window();
    let workspace = stand_in(placeholder);
    let mut attempt = world.attempt(placeholder, workspace, &mock(1), true).unwrap();
    let opening = start(
        &mut world,
        open_remote_project(mock(1), vec![path("/project")], OpenOptions::default()),
    );
    let mut opening = match opening {
        RemoteProjectOpen::Connect(connect) => session(connect),
        _ => unreachable!(),
    };
    opening.run(&mut world);
    let mut restoring = session(prepared.connect(false));
    restoring.run(&mut world);
    assert!(restoring.result.is_none());

    world.close_window(placeholder);
    restoring.cancelled = attempt.close_watch.on_window_closed(placeholder);
    restoring.run(&mut world);
    assert!(restoring.result.is_some());
    assert_eq!(restoring.result, Some(placeholder));
    assert!(opening.result.is_none());
    assert_eq!(world.windows.len(), 1);

    world.server_answers = true;
    opening.run(&mut world);
    let window = opening.result.unwrap();
    assert_eq!(world.windows, vec![window]);
    assert_eq!(world.prompts, 0);
}

#[test]
fn test_prepared_remote_project_cancels_before_and_during_connection() {
    for start_connection in [false, true] {
        let mut world = world();
        world.server_answers = false;
        let prepared = prepare(&mut world, mock(1), vec![path("/project")]);
        let window = prepared.window();
        let mut connecting = session(prepared.connect(false));
        if start_connection {
            connecting.run(&mut world);
        }
        assert!(connecting.result.is_none());

        connecting.cancelled = true;
        connecting.run(&mut world);
        assert_eq!(world.windows.len(), 0);
        assert_eq!(connecting.result, Some(window));
        assert_eq!(world.prompts, 0);
    }
}

#[test]
fn test_prepared_remote_project_retries_connection_failure() {
    let mut world = world();
    world.server_reachable = false;
    let prepared = prepare(&mut world, mock(u64::MAX), vec![path("/project")]);
    let window = prepared.window();
    let mut connecting = session(prepared.connect(false));
    connecting.run(&mut world);
    assert!(world.prompt_open);
    assert!(connecting.result.is_none());

    world.server_reachable = true;
    let retry = prompt_answers().iter().position(|answer| *answer == "Retry");
    world.answers.push(retry);
    connecting.run(&mut world);
    assert_eq!(connecting.result, Some(window));
    assert_eq!(world.windows, vec![window]);
    assert!(!world.prompt_open);
    assert_eq!(world.prompts, 1);
    assert_eq!(world.modals_told, 2);
    assert_eq!(world.modals_shown, vec![stand_in(window), stand_in(window)]);
    assert!(world.workspaces.iter().any(|workspace| workspace.window == window));
}

#[test]
fn giving_up_after_a_failure_closes_a_new_window() {
    let mut world = world();
    world.server_reachable = false;
    world.answers.push(Some(1));
    let result = open(&mut world, mock(1), vec![path("/project")], OpenOptions::default());
    assert!(result.is_ok());
    assert!(world.windows.is_empty());
    assert_eq!(world.prompts, 1);
    assert!(world.trust_asked.is_empty());
}

#[test]
fn giving_up_after_a_failure_keeps_a_window_that_was_there() {
    let mut world = world();
    let window = world.open_window();
    world.server_reachable = false;
    world.answers.push(None);
    let result = open(
        &mut world,
        mock(1),
        vec![path("/project")],
        OpenOptions { requesting_window: Some(window), ..OpenOptions::default() },
    );
    assert_eq!(result, Ok(window));
    assert_eq!(world.windows, vec![window]);
}

#[test]
fn errors_in_a_reused_workspace_are_shown() {
    let mut world = world();
    open(&mut world, mock(1), vec![path("/project")], OpenOptions::default()).unwrap();
    open(
        &mut world,
        mock(1),
        vec![path("/project/none.txt"), path("/project/file.txt:7")],
        OpenOptions::default(),
    )
    .unwrap();
    assert_eq!(world.errors, vec!["no such file: /project/none.txt".to_string()]);
    assert_eq!(world.cursors.len(), 1);
    assert_eq!((world.cursors[0].row, world.cursors[0].column), (6, 0));
}

#[test]
fn a_window_that_is_gone_is_an_error() {
    let mut world = world();
    let result = open(
        &mut world,
        mock(1),
        vec![path("/project")],
        OpenOptions { requesting_window: Some(99), ..OpenOptions::default() },
    );
    let error = result.unwrap_err();
    assert_eq!(error.message(), "window not found");
    assert!(matches!(error, OpenError::Prepare(_)));
}
