//! The split-direction heuristic.
//!
//! A terminal-like container grows a right-hand stack: flush to the left
//! edge of the workspace it splits horizontally, anywhere else vertically.
//! Any other window splits along its longer content axis — a spiral —
//! with ties resolved to vertical.

use vstd::prelude::*;

use crate::tree::WindowNode;

verus! {

/// A split direction for the window manager to apply to the focused
/// container.
#[derive(Clone, Copy, PartialEq, Eq, Structural, Debug)]
pub enum SplitCommand {
    Horizontal,
    Vertical,
}

/// The command string that the window manager's command endpoint
/// understands for each split direction.
pub open spec fn spec_command_text(c: SplitCommand) -> Seq<char> {
    match c {
        SplitCommand::Horizontal => "split horizontal"@,
        SplitCommand::Vertical => "split vertical"@,
    }
}

impl SplitCommand {
    /// The command string to submit to the window manager.
    pub fn text(&self) -> (s: String)
        ensures
            s@ == spec_command_text(*self),
    {
        match self {
            SplitCommand::Horizontal => "split horizontal".to_owned(),
            SplitCommand::Vertical => "split vertical".to_owned(),
        }
    }
}

/// The recognized terminal application names: configuration data of the
/// heuristic, fixed at build time.
pub open spec fn spec_is_terminal_name(s: Seq<char>) -> bool {
    s == "Alacritty"@ || s == "xterm"@
}

/// A container is terminal-like iff its name exactly equals one of the
/// recognized terminal application names.
pub open spec fn spec_is_terminal_like(n: WindowNode) -> bool {
    match n.name {
        Option::Some(s) => spec_is_terminal_name(s@),
        Option::None => false,
    }
}

/// Whether `n` carries the name of a recognized terminal application.
pub fn is_terminal_like(n: &WindowNode) -> (r: bool)
    ensures
        r == spec_is_terminal_like(*n),
{
    match &n.name {
        Option::Some(s) => {
            let alacritty: String = "Alacritty".to_owned();
            let xterm: String = "xterm".to_owned();
            *s == alacritty || *s == xterm
        },
        Option::None => false,
    }
}

/// The split direction chosen for `n`: terminal-like containers split
/// horizontally when flush to the left workspace edge and vertically
/// otherwise; all other windows split horizontally when their content is
/// wider than tall and vertically otherwise, a tie counting as vertical.
pub open spec fn spec_choose_split(n: WindowNode) -> SplitCommand {
    if spec_is_terminal_like(n) {
        if n.rect.x == 0 {
            SplitCommand::Horizontal
        } else {
            SplitCommand::Vertical
        }
    } else {
        if n.window_rect.width > n.window_rect.height {
            SplitCommand::Horizontal
        } else {
            SplitCommand::Vertical
        }
    }
}

/// Pick the split direction for the container `n`. Total: every container
/// yields a command, and the choice depends on the container alone.
pub fn choose_split(n: &WindowNode) -> (c: SplitCommand)
    ensures
        c == spec_choose_split(*n),
{
    if is_terminal_like(n) {
        if n.rect.x == 0 {
            SplitCommand::Horizontal
        } else {
            SplitCommand::Vertical
        }
    } else {
        if n.window_rect.width > n.window_rect.height {
            SplitCommand::Horizontal
        } else {
            SplitCommand::Vertical
        }
    }
}

/// The heuristic is a function of the container alone: two choices made
/// from the same container are equal. `choose_split` ensures its result
/// equals `spec_choose_split`, so repeated calls agree.
pub proof fn lemma_choose_split_deterministic(
    n: WindowNode,
    c1: SplitCommand,
    c2: SplitCommand,
)
    requires
        c1 == spec_choose_split(n),
        c2 == spec_choose_split(n),
    ensures
        c1 == c2,
{
}

} // verus!
