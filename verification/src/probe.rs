//! Asking a remote machine whether a path exists.

use crate::events::{Event, EventModel};
use vstd::prelude::*;

verus! {

/// How far the question has got.
#[derive(Debug, PartialEq, Eq)]
pub enum PathProbe {
    /// Have the connection make a command that runs `program` with `args` on the remote machine,
    /// with the variables in `env` added to its environment, and with a terminal if `interactive`
    /// says so.
    Build { program: String, args: Vec<String>, env: Vec<(String, String)>, interactive: bool },
    /// Start the command.
    Spawn,
    /// Wait for the command to exit, and report whether it succeeded.
    Wait,
    /// Whether the path exists.
    Done(bool),
}

/// What a [`PathProbe`] is.
pub enum ProbeModel {
    Build {
        program: Seq<char>,
        args: Seq<Seq<char>>,
        env: Seq<(Seq<char>, Seq<char>)>,
        interactive: bool,
    },
    Spawn,
    Wait,
    Done(bool),
}

impl DeepView for PathProbe {
    type V = ProbeModel;

    open spec fn deep_view(&self) -> ProbeModel {
        match *self {
            PathProbe::Build { program, args, env, interactive } => ProbeModel::Build {
                program: program@,
                args: args.deep_view(),
                env: env.deep_view(),
                interactive,
            },
            PathProbe::Spawn => ProbeModel::Spawn,
            PathProbe::Wait => ProbeModel::Wait,
            PathProbe::Done(found) => ProbeModel::Done(found),
        }
    }
}

/// The question whether `path` exists: `test -e` on the remote machine, in the environment as it is
/// and without a terminal.
pub open spec fn probe_of(path: Seq<char>) -> ProbeModel {
    ProbeModel::Build {
        program: "test"@,
        args: seq!["-e"@, path],
        env: Seq::empty(),
        interactive: false,
    }
}

impl ProbeModel {
    /// What `event` makes of the question: whatever goes wrong, the path counts as missing. An
    /// event that does not answer changes nothing.
    pub open spec fn next(self, event: EventModel) -> ProbeModel {
        match (self, event) {
            (ProbeModel::Build { .. }, EventModel::Performed) => ProbeModel::Spawn,
            (ProbeModel::Spawn, EventModel::Performed) => ProbeModel::Wait,
            (ProbeModel::Wait, EventModel::Probed(success)) => ProbeModel::Done(success),
            (ProbeModel::Done(_), _) => self,
            (_, EventModel::Failed(_)) => ProbeModel::Done(false),
            _ => self,
        }
    }

    /// The question after some events.
    pub open spec fn run(self, events: Seq<EventModel>) -> ProbeModel
        decreases events.len(),
    {
        if events.len() == 0 {
            self
        } else {
            self.run(events.drop_last()).next(events.last())
        }
    }
}

/// Starts to ask whether `path` exists.
pub fn path_exists(path: String) -> (probe: PathProbe)
    ensures
        probe.deep_view() == probe_of(path@),
{
    let mut args: Vec<String> = Vec::new();
    args.push("-e".to_owned());
    args.push(path);
    assert(args.deep_view() =~= seq!["-e"@, path@]);
    let env: Vec<(String, String)> = Vec::new();
    assert(env.deep_view() =~= Seq::empty());
    PathProbe::Build { program: "test".to_owned(), args, env, interactive: false }
}

impl PathProbe {
    /// Takes in how the step went.
    pub fn next(self, event: Event) -> (probe: Self)
        ensures
            probe.deep_view() == self.deep_view().next(event.deep_view()),
    {
        match (self, event) {
            (PathProbe::Build { .. }, Event::Performed) => PathProbe::Spawn,
            (PathProbe::Spawn, Event::Performed) => PathProbe::Wait,
            (PathProbe::Wait, Event::Probed(success)) => PathProbe::Done(success),
            (PathProbe::Done(found), _) => PathProbe::Done(found),
            (_, Event::Failed(_)) => PathProbe::Done(false),
            (probe, _) => probe,
        }
    }
}

/// A path is found only if the command could be made, was started and exited with success: nothing
/// else leads to that answer.
pub proof fn law_only_success_finds_a_path(path: Seq<char>, events: Seq<EventModel>)
    requires
        probe_of(path).run(events) == ProbeModel::Done(true),
    ensures
        exists|built: int, started: int, exited: int|
            0 <= built < started < exited < events.len() && #[trigger] events[built]
                == EventModel::Performed && #[trigger] events[started] == EventModel::Performed
                && #[trigger] events[exited] == EventModel::Probed(true),
    decreases events.len(),
{
    lemma_probe_steps(path, events);
}

proof fn lemma_probe_steps(path: Seq<char>, events: Seq<EventModel>)
    ensures
        probe_of(path).run(events) is Build ==> probe_of(path).run(events) == probe_of(path),
        probe_of(path).run(events) is Spawn ==> exists|built: int|
            0 <= built < events.len() && #[trigger] events[built] == EventModel::Performed,
        probe_of(path).run(events) is Wait ==> exists|built: int, started: int|
            0 <= built < started < events.len() && #[trigger] events[built]
                == EventModel::Performed && #[trigger] events[started] == EventModel::Performed,
        probe_of(path).run(events) == ProbeModel::Done(true) ==> exists|
            built: int,
            started: int,
            exited: int,
        |
            0 <= built < started < exited < events.len() && #[trigger] events[built]
                == EventModel::Performed && #[trigger] events[started] == EventModel::Performed
                && #[trigger] events[exited] == EventModel::Probed(true),
    decreases events.len(),
{
    if events.len() > 0 {
        let earlier = events.drop_last();
        let last = events.len() - 1;
        lemma_probe_steps(path, earlier);
        let before = probe_of(path).run(earlier);
        let after = probe_of(path).run(events);
        if before is Spawn {
            let built = choose|built: int|
                0 <= built < earlier.len() && #[trigger] earlier[built] == EventModel::Performed;
            assert(events[built] == EventModel::Performed);
        }
        if before is Wait {
            let (built, started) = choose|built: int, started: int|
                0 <= built < started < earlier.len() && #[trigger] earlier[built]
                    == EventModel::Performed && #[trigger] earlier[started]
                    == EventModel::Performed;
            assert(events[built] == EventModel::Performed);
            assert(events[started] == EventModel::Performed);
        }
        if before == ProbeModel::Done(true) {
            let (built, started, exited) = choose|built: int, started: int, exited: int|
                0 <= built < started < exited < earlier.len() && #[trigger] earlier[built]
                    == EventModel::Performed && #[trigger] earlier[started]
                    == EventModel::Performed && #[trigger] earlier[exited] == EventModel::Probed(
                    true,
                );
            assert(events[built] == EventModel::Performed);
            assert(events[started] == EventModel::Performed);
            assert(events[exited] == EventModel::Probed(true));
        }
        assert(events[last] == events.last());
    }
}

/// The question is put to `test -e` and the path as it is, with nothing added to the environment
/// and without a terminal.
pub proof fn law_a_path_is_asked_for_as_it_is(path: Seq<char>)
    ensures
        probe_of(path) matches ProbeModel::Build { program, args, env, interactive } && program
            == "test"@ && args.len() == 2 && args[0] == "-e"@ && args[1] == path && env.len() == 0
            && !interactive,
{
}

/// The command is made, started and waited for, and the path exists exactly if the command
/// succeeds. A failure at any point means that it does not. Nothing else leads on.
pub proof fn law_a_question_is_answered_by_its_command(probe: ProbeModel, event: EventModel)
    ensures
        match (probe, event) {
            (ProbeModel::Done(_), _) => probe.next(event) == probe,
            (_, EventModel::Failed(_)) => probe.next(event) == ProbeModel::Done(false),
            (ProbeModel::Build { .. }, EventModel::Performed) => probe.next(event) is Spawn,
            (ProbeModel::Spawn, EventModel::Performed) => probe.next(event) is Wait,
            (ProbeModel::Wait, EventModel::Probed(success)) => probe.next(event)
                == ProbeModel::Done(success),
            _ => probe.next(event) == probe,
        },
{
}

} // verus!
