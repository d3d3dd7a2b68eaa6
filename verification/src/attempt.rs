//! One attempt to connect, and what cancels it.

use crate::connection::RemoteConnectionOptions;
use crate::events::{Event, EventModel};
use vstd::prelude::*;

verus! {

/// Looks out for the window of the attempt to be closed, and reports it once.
#[derive(Clone, Copy, Debug, PartialEq, Eq, Structural)]
pub struct CloseWatch {
    pub window: u64,
    pub reported: bool,
}

impl CloseWatch {
    /// The watch after a window was closed.
    pub open spec fn after(self, closed: u64) -> CloseWatch {
        CloseWatch { reported: self.reported || closed == self.window, ..self }
    }

    /// The watch after some windows were closed.
    pub open spec fn after_all(self, closed: Seq<u64>) -> CloseWatch
        decreases closed.len(),
    {
        if closed.len() == 0 {
            self
        } else {
            self.after_all(closed.drop_last()).after(closed.last())
        }
    }

    /// The closing of this window is one to report.
    pub open spec fn reports(self, closed: u64) -> bool {
        closed == self.window && !self.reported
    }

    /// Takes in that a window was closed, and tells whether to report it.
    pub fn on_window_closed(&mut self, closed: u64) -> (report: bool)
        ensures
            report == old(self).reports(closed),
            *final(self) == old(self).after(closed),
    {
        let report = closed == self.window && !self.reported;
        if closed == self.window {
            self.reported = true;
        }
        report
    }
}

/// What is to be done next about the cancellation of an attempt.
#[derive(Clone, Copy, Debug, PartialEq, Eq, Structural)]
pub enum CancellationStep {
    /// Wait for the user to cancel, or for the window to close.
    Wait,
    /// Tell the connection that it is cancelled.
    CancelConnection,
    /// Close the window of the attempt.
    RemoveWindow,
    /// Nothing is left to do.
    Done,
}

/// Carries out the cancellation of an attempt.
#[derive(Clone, Copy, Debug, PartialEq, Eq, Structural)]
pub struct Cancellation {
    pub window: u64,
    pub created_new_window: bool,
    pub step: CancellationStep,
}

impl Cancellation {
    /// The cancellation after `event`. An event that does not answer the step changes nothing.
    pub open spec fn after(self, event: EventModel) -> Cancellation {
        match (self.step, event) {
            (CancellationStep::Wait, EventModel::Cancelled) => Cancellation {
                step: CancellationStep::CancelConnection,
                ..self
            },
            (CancellationStep::CancelConnection, EventModel::Performed) => Cancellation {
                step: if self.created_new_window {
                    CancellationStep::RemoveWindow
                } else {
                    CancellationStep::Done
                },
                ..self
            },
            (CancellationStep::RemoveWindow, EventModel::Performed) => Cancellation {
                step: CancellationStep::Done,
                ..self
            },
            _ => self,
        }
    }

    /// The cancellation after some events.
    pub open spec fn after_all(self, events: Seq<EventModel>) -> Cancellation
        decreases events.len(),
    {
        if events.len() == 0 {
            self
        } else {
            self.after_all(events.drop_last()).after(events.last())
        }
    }

    /// Takes in how the step went.
    pub fn next(self, event: &Event) -> (cancellation: Self)
        ensures
            cancellation == self.after(event.deep_view()),
    {
        let step = match (self.step, event) {
            (CancellationStep::Wait, Event::Cancelled) => CancellationStep::CancelConnection,
            (CancellationStep::CancelConnection, Event::Performed) => {
                if self.created_new_window {
                    CancellationStep::RemoveWindow
                } else {
                    CancellationStep::Done
                }
            },
            (CancellationStep::RemoveWindow, Event::Performed) => CancellationStep::Done,
            (step, _) => step,
        };
        Cancellation { step, ..self }
    }
}

/// What goes into one attempt to connect.
#[derive(Debug, PartialEq, Eq)]
pub struct RemoteConnectionAttempt {
    /// The password to connect with, if one is known.
    pub password: Option<String>,
    pub close_watch: CloseWatch,
    pub cancellation: Cancellation,
}

/// What a [`RemoteConnectionAttempt`] is.
pub struct AttemptModel {
    pub password: Option<Seq<char>>,
    pub close_watch: CloseWatch,
    pub cancellation: Cancellation,
}

impl DeepView for RemoteConnectionAttempt {
    type V = AttemptModel;

    open spec fn deep_view(&self) -> AttemptModel {
        AttemptModel {
            password: self.password.deep_view(),
            close_watch: self.close_watch,
            cancellation: self.cancellation,
        }
    }
}

/// A new attempt to connect from a window.
pub open spec fn new_attempt(
    window: u64,
    password: Option<Seq<char>>,
    created_new_window: bool,
) -> AttemptModel {
    AttemptModel {
        password,
        close_watch: CloseWatch { window, reported: false },
        cancellation: Cancellation { window, created_new_window, step: CancellationStep::Wait },
    }
}

/// Prepares an attempt to connect from a window, given whether the window shows the modal in which
/// the attempt can be followed and cancelled. Without the modal there is no attempt.
pub fn prepare_remote_connection_attempt(
    window: u64,
    connection_options: &RemoteConnectionOptions,
    created_new_window: bool,
    modal_shown: bool,
) -> (attempt: Option<RemoteConnectionAttempt>)
    ensures
        attempt.deep_view() == (if modal_shown {
            Some(
                new_attempt(
                    window,
                    connection_options.deep_view().known_password(),
                    created_new_window,
                ),
            )
        } else {
            None
        }),
{
    if !modal_shown {
        return None;
    }
    let password = match connection_options.password() {
        Some(password) => Some(password.clone()),
        None => None,
    };
    Some(
        RemoteConnectionAttempt {
            password,
            close_watch: CloseWatch { window, reported: false },
            cancellation: Cancellation { window, created_new_window, step: CancellationStep::Wait },
        },
    )
}

/// The closing of the window is reported when it happens for the first time, and never again,
/// whatever other windows are closed.
pub proof fn law_the_closing_is_reported_once(
    window: u64,
    password: Option<Seq<char>>,
    created_new_window: bool,
    closed: Seq<u64>,
    next: u64,
)
    ensures
        new_attempt(window, password, created_new_window).close_watch.after_all(closed).reports(
            next,
        ) <==> next == window && !closed.contains(window),
{
    lemma_closings(new_attempt(window, password, created_new_window).close_watch, closed);
}

proof fn lemma_closings(watch: CloseWatch, closed: Seq<u64>)
    ensures
        watch.after_all(closed).window == watch.window,
        watch.after_all(closed).reported <==> watch.reported || closed.contains(watch.window),
    decreases closed.len(),
{
    if closed.len() > 0 {
        let earlier = closed.drop_last();
        lemma_closings(watch, earlier);
        if earlier.contains(watch.window) {
            let i = choose|i: int| 0 <= i < earlier.len() && earlier[i] == watch.window;
            assert(closed[i] == watch.window);
        }
        if closed.contains(watch.window) && !earlier.contains(watch.window) {
            let i = choose|i: int| 0 <= i < closed.len() && closed[i] == watch.window;
            if i < earlier.len() {
                assert(earlier[i] == watch.window);
            }
            assert(closed.last() == watch.window);
        }
        if closed.last() == watch.window {
            assert(closed[closed.len() - 1] == watch.window);
        }
    }
}

/// Nothing is cancelled before the user or the window asks for it, and a window that was there
/// before the attempt is never closed.
pub proof fn law_only_a_new_window_is_closed(
    window: u64,
    password: Option<Seq<char>>,
    created_new_window: bool,
    events: Seq<EventModel>,
)
    ensures
        ({
            let now = new_attempt(window, password, created_new_window).cancellation.after_all(
                events,
            );
            &&& now.window == window
            &&& now.step !is Wait <==> events.contains(EventModel::Cancelled)
            &&& now.step is RemoveWindow ==> created_new_window
        }),
    decreases events.len(),
{
    if events.len() > 0 {
        let earlier = events.drop_last();
        law_only_a_new_window_is_closed(window, password, created_new_window, earlier);
        let start = new_attempt(window, password, created_new_window).cancellation;
        lemma_cancellation_keeps(start, earlier);
        if earlier.contains(EventModel::Cancelled) {
            let i = choose|i: int| 0 <= i < earlier.len() && earlier[i] == EventModel::Cancelled;
            assert(events[i] == EventModel::Cancelled);
        } else if events.contains(EventModel::Cancelled) {
            let i = choose|i: int| 0 <= i < events.len() && events[i] == EventModel::Cancelled;
            if i < earlier.len() {
                assert(earlier[i] == EventModel::Cancelled);
            }
            assert(events.last() == EventModel::Cancelled);
        }
        if events.last() == EventModel::Cancelled {
            assert(events[events.len() - 1] == EventModel::Cancelled);
        }
    }
}

proof fn lemma_cancellation_keeps(cancellation: Cancellation, events: Seq<EventModel>)
    ensures
        cancellation.after_all(events).window == cancellation.window,
        cancellation.after_all(events).created_new_window == cancellation.created_new_window,
    decreases events.len(),
{
    if events.len() > 0 {
        lemma_cancellation_keeps(cancellation, events.drop_last());
    }
}

/// Once an attempt is cancelled, the connection is told, and then a window that was opened for the
/// attempt is closed.
pub proof fn law_cancelling_tells_the_connection(
    window: u64,
    password: Option<Seq<char>>,
    created_new_window: bool,
)
    ensures
        ({
            let waiting = new_attempt(window, password, created_new_window).cancellation;
            let cancelled = waiting.after(EventModel::Cancelled);
            let told = cancelled.after(EventModel::Performed);
            &&& cancelled.step is CancelConnection
            &&& created_new_window ==> told.step is RemoveWindow && told.after(
                EventModel::Performed,
            ).step is Done
            &&& !created_new_window ==> told.step is Done
        }),
{
}

/// An attempt is made from its window and with the password that is known for its connection, if
/// one is; nothing was closed or cancelled yet. Without the modal there is no attempt.
pub proof fn law_an_attempt_starts_afresh(
    window: u64,
    connection_options: RemoteConnectionOptions,
    created_new_window: bool,
    modal_shown: bool,
    attempt: Option<RemoteConnectionAttempt>,
)
    requires
        call_ensures(
            prepare_remote_connection_attempt,
            (window, &connection_options, created_new_window, modal_shown),
            attempt,
        ),
    ensures
        attempt is Some <==> modal_shown,
        attempt matches Some(attempt) ==> {
            &&& attempt.password.deep_view() == (match connection_options {
                RemoteConnectionOptions::Ssh(options) => options.password.deep_view(),
                _ => None,
            })
            &&& attempt.close_watch.window == window
            &&& !attempt.close_watch.reported
            &&& attempt.cancellation.window == window
            &&& attempt.cancellation.created_new_window == created_new_window
            &&& attempt.cancellation.step is Wait
        },
{
}

/// Only the closing of the watched window is noted, and it is reported unless it was before.
pub proof fn law_only_its_own_window_is_watched(watch: CloseWatch, closed: u64)
    ensures
        watch.after(closed).window == watch.window,
        closed == watch.window ==> watch.after(closed).reported && watch.reports(closed)
            == !watch.reported,
        closed != watch.window ==> watch.after(closed) == watch && !watch.reports(closed),
{
}

/// What a cancellation does next: it waits for the cancelling and for nothing else, then tells the
/// connection, then closes the window if that was opened for the attempt.
pub proof fn law_a_cancellation_goes_step_by_step(cancellation: Cancellation, event: EventModel)
    ensures
        cancellation.after(event).window == cancellation.window,
        cancellation.after(event).created_new_window == cancellation.created_new_window,
        match cancellation.step {
            CancellationStep::Wait => cancellation.after(event).step == (if event is Cancelled {
                CancellationStep::CancelConnection
            } else {
                CancellationStep::Wait
            }),
            CancellationStep::CancelConnection => cancellation.after(event).step == (
            if event !is Performed {
                CancellationStep::CancelConnection
            } else if cancellation.created_new_window {
                CancellationStep::RemoveWindow
            } else {
                CancellationStep::Done
            }),
            CancellationStep::RemoveWindow => cancellation.after(event).step == (
            if event is Performed {
                CancellationStep::Done
            } else {
                CancellationStep::RemoveWindow
            }),
            CancellationStep::Done => cancellation.after(event).step is Done,
        },
{
}

} // verus!
