//! The event dispatcher: a state machine over the event subscription.
//!
//! The surrounding loop performs the I/O — reading the event stream,
//! fetching tree snapshots, enqueueing commands — and feeds each outcome
//! back in as a `DispatcherInput`; `dispatcher_step` makes every decision.

use vstd::prelude::*;

use crate::heuristic::SplitCommand;
use crate::heuristic::choose_split;
use crate::heuristic::spec_choose_split;
use crate::tree::WindowNode;
use crate::tree::has_tabbed_ancestor;
use crate::tree::is_tabbed_or_stacked;
use crate::tree::spec_has_tabbed_ancestor;
use crate::tree::spec_is_tabbed_or_stacked;

verus! {

/// The change kind of a window event. Only focus changes make this system
/// act, so every other kind is folded into `Other`.
#[derive(Clone, Copy, PartialEq, Eq, Structural, Debug)]
pub enum WindowChange {
    Focus,
    Other,
}

/// A window event from the window manager: its change kind and a snapshot
/// of the container it concerns, taken at the moment of the event.
pub struct FocusEvent {
    pub change: WindowChange,
    pub container: WindowNode,
}

/// The dispatcher's position in its event-handling protocol.
pub enum DispatcherState {
    /// Waiting for the next window event.
    Idle,
    /// A focus event arrived; a fresh tree snapshot is awaited. The focused
    /// container is kept for the decision.
    AwaitingTree { container: WindowNode },
    /// The decision fell to a split: the command is on its way onto the
    /// internal queue.
    Forwarding { command: SplitCommand },
    /// A fatal condition was met; the dispatcher decides nothing further.
    Closed,
}

/// One input to the dispatcher: an event from the stream, the outcome of a
/// tree fetch, the completion of an enqueue, or the end of the stream.
pub enum DispatcherInput {
    /// A window event arrived on the subscription stream.
    Window(FocusEvent),
    /// The requested tree snapshot arrived.
    TreeFetched(WindowNode),
    /// The tree fetch failed.
    TreeFetchFailed,
    /// The pending command was placed on the internal queue.
    CommandEnqueued,
    /// The event stream ended or yielded an error.
    StreamEnded,
}

/// What the surrounding loop must do after a step: nothing, fetch a fresh
/// tree snapshot, enqueue a command, or fail fatally.
#[derive(Clone, Copy, PartialEq, Eq, Structural, Debug)]
pub enum DispatcherAction {
    Wait,
    FetchTree,
    Enqueue(SplitCommand),
    Fail,
}

/// The transition relation of the dispatcher. A failed fetch or a finished
/// stream closes it fatally; a focus event asks for a fresh tree; a fetched
/// tree is walked, and a focused window without tabbed ancestor yields
/// exactly one enqueued split command; every input a state does not expect
/// leaves the state as it stands.
pub open spec fn spec_dispatcher_step(state: DispatcherState, input: DispatcherInput) -> (
    DispatcherState,
    DispatcherAction,
) {
    match (state, input) {
        (_, DispatcherInput::TreeFetchFailed) => (DispatcherState::Closed, DispatcherAction::Fail),
        (_, DispatcherInput::StreamEnded) => (DispatcherState::Closed, DispatcherAction::Fail),
        (DispatcherState::Idle, DispatcherInput::Window(ev)) => {
            if ev.change == WindowChange::Focus {
                (
                    DispatcherState::AwaitingTree { container: ev.container },
                    DispatcherAction::FetchTree,
                )
            } else {
                (DispatcherState::Idle, DispatcherAction::Wait)
            }
        },
        (DispatcherState::AwaitingTree { container }, DispatcherInput::TreeFetched(root)) => {
            if spec_has_tabbed_ancestor(
                root,
                container.id,
                spec_is_tabbed_or_stacked(container.layout),
            ) {
                (DispatcherState::Idle, DispatcherAction::Wait)
            } else {
                (
                    DispatcherState::Forwarding { command: spec_choose_split(container) },
                    DispatcherAction::Enqueue(spec_choose_split(container)),
                )
            }
        },
        (DispatcherState::Forwarding { command: _ }, DispatcherInput::CommandEnqueued) => (
            DispatcherState::Idle,
            DispatcherAction::Wait,
        ),
        (s, _) => (s, DispatcherAction::Wait),
    }
}

/// Advance the dispatcher by one input. The walk over the fetched tree is
/// seeded with the tabbed-ness of the focused container's own layout, so a
/// focused container that is itself the tree root is judged by its own
/// layout.
pub fn dispatcher_step(state: DispatcherState, input: DispatcherInput) -> (r: (
    DispatcherState,
    DispatcherAction,
))
    ensures
        r == spec_dispatcher_step(state, input),
{
    match (state, input) {
        (_, DispatcherInput::TreeFetchFailed) => (DispatcherState::Closed, DispatcherAction::Fail),
        (_, DispatcherInput::StreamEnded) => (DispatcherState::Closed, DispatcherAction::Fail),
        (DispatcherState::Idle, DispatcherInput::Window(ev)) => {
            if ev.change == WindowChange::Focus {
                (
                    DispatcherState::AwaitingTree { container: ev.container },
                    DispatcherAction::FetchTree,
                )
            } else {
                (DispatcherState::Idle, DispatcherAction::Wait)
            }
        },
        (DispatcherState::AwaitingTree { container }, DispatcherInput::TreeFetched(root)) => {
            let seed = is_tabbed_or_stacked(container.layout);
            if has_tabbed_ancestor(&root, container.id, seed) {
                (DispatcherState::Idle, DispatcherAction::Wait)
            } else {
                let command = choose_split(&container);
                (
                    DispatcherState::Forwarding { command },
                    DispatcherAction::Enqueue(command),
                )
            }
        },
        (DispatcherState::Forwarding { command: _ }, DispatcherInput::CommandEnqueued) => (
            DispatcherState::Idle,
            DispatcherAction::Wait,
        ),
        (s, _) => (s, DispatcherAction::Wait),
    }
}

/// A focus event is answered by exactly one tree fetch, and then by exactly
/// zero or one enqueued command: none when the focused window already sits
/// under a tabbed or stacked ancestor, and exactly one — the heuristic's
/// choice for the focused container — when it does not; after the enqueue
/// the dispatcher stands idle again.
pub proof fn lemma_focus_event_commands(ev: FocusEvent, root: WindowNode)
    requires
        ev.change == WindowChange::Focus,
    ensures
        ({
            let (s1, a1) = spec_dispatcher_step(DispatcherState::Idle, DispatcherInput::Window(ev));
            &&& s1 == (DispatcherState::AwaitingTree { container: ev.container })
            &&& a1 == DispatcherAction::FetchTree
        }),
        ({
            let (s2, a2) = spec_dispatcher_step(
                DispatcherState::AwaitingTree { container: ev.container },
                DispatcherInput::TreeFetched(root),
            );
            if spec_has_tabbed_ancestor(
                root,
                ev.container.id,
                spec_is_tabbed_or_stacked(ev.container.layout),
            ) {
                s2 == DispatcherState::Idle && a2 == DispatcherAction::Wait
            } else {
                &&& a2 == DispatcherAction::Enqueue(spec_choose_split(ev.container))
                &&& s2 == (DispatcherState::Forwarding {
                    command: spec_choose_split(ev.container),
                })
                &&& spec_dispatcher_step(s2, DispatcherInput::CommandEnqueued) == (
                    DispatcherState::Idle,
                    DispatcherAction::Wait,
                )
            }
        }),
{
}

/// An event whose change kind is not focus is ignored: the dispatcher
/// stays idle and produces no action.
pub proof fn lemma_non_focus_event_ignored(ev: FocusEvent)
    requires
        ev.change != WindowChange::Focus,
    ensures
        spec_dispatcher_step(DispatcherState::Idle, DispatcherInput::Window(ev)) == (
            DispatcherState::Idle,
            DispatcherAction::Wait,
        ),
{
}

} // verus!
