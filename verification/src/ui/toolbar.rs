//! The toolbar: its buttons and what each one reports when it is pressed.

use vstd::prelude::*;

verus! {

/// A button of the toolbar.
#[derive(Debug, Clone, Copy, PartialEq, Eq, Structural)]
pub enum ToolbarAction {
    Play,
    New,
    Load,
    Save,
    Help,
    Github,
    Open,
}

impl ToolbarAction {
    /// The line that a press of the button writes to standard output.
    pub open spec fn report(self) -> Seq<char> {
        match self {
            ToolbarAction::Play => "Play clicked"@,
            ToolbarAction::New => "New clicked"@,
            ToolbarAction::Load => "Load clicked"@,
            ToolbarAction::Save => "Save clicked"@,
            ToolbarAction::Help => "Help clicked"@,
            ToolbarAction::Github => "Github clicked"@,
            ToolbarAction::Open => "Open clicked"@,
        }
    }

    /// The line to write when the button is pressed. Writing it is the
    /// application's part.
    pub fn announcement(self) -> (line: &'static str)
        ensures
            line@ == self.report(),
    {
        match self {
            ToolbarAction::Play => "Play clicked",
            ToolbarAction::New => "New clicked",
            ToolbarAction::Load => "Load clicked",
            ToolbarAction::Save => "Save clicked",
            ToolbarAction::Help => "Help clicked",
            ToolbarAction::Github => "Github clicked",
            ToolbarAction::Open => "Open clicked",
        }
    }
}

} // verus!
