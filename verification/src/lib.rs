//! Automatic tiling-direction assistant for a tiling window manager.
//!
//! The library holds the decision engine: the tree walk that determines
//! whether a window sits under a tabbed or stacked ancestor, the heuristic
//! that picks a split direction from a container's geometry and name, the
//! dispatcher state machine that turns focus events into commands, and the
//! bounded FIFO queue that carries commands to the submitter.

mod ancestry;
mod dispatch;
mod heuristic;
mod queue;
mod tree;

pub use ancestry::is_only_occurrence;
pub use ancestry::is_valid_path;
pub use ancestry::lemma_absent_target_yields_false;
pub use ancestry::lemma_child_of_tabbed_has_tabbed_ancestor;
pub use ancestry::lemma_has_tabbed_ancestor_deterministic;
pub use ancestry::lemma_no_tabbed_ancestor_yields_false;
pub use ancestry::lemma_tabbed_root_target;
pub use ancestry::node_at;
pub use ancestry::subtree_contains_id;
pub use ancestry::tabbed_on_path;
pub use dispatch::DispatcherAction;
pub use dispatch::DispatcherInput;
pub use dispatch::DispatcherState;
pub use dispatch::FocusEvent;
pub use dispatch::WindowChange;
pub use dispatch::dispatcher_step;
pub use dispatch::lemma_focus_event_commands;
pub use dispatch::lemma_non_focus_event_ignored;
pub use dispatch::spec_dispatcher_step;
pub use heuristic::SplitCommand;
pub use heuristic::choose_split;
pub use heuristic::is_terminal_like;
pub use heuristic::lemma_choose_split_deterministic;
pub use heuristic::spec_choose_split;
pub use heuristic::spec_command_text;
pub use heuristic::spec_is_terminal_like;
pub use heuristic::spec_is_terminal_name;
pub use queue::CommandQueue;
pub use queue::lemma_fifo_order;
pub use tree::Layout;
pub use tree::Rect;
pub use tree::WindowNode;
pub use tree::has_tabbed_ancestor;
pub use tree::is_tabbed_or_stacked;
pub use tree::spec_has_tabbed_ancestor;
pub use tree::spec_is_tabbed_or_stacked;
