//! Presentation settings: terminal colours, which stack frames are shown,
//! and the colour toggle of the interactive debugger.
use vstd::prelude::*;

verus! {

/// Whether ANSI colours are written.
#[derive(Debug, Clone, Copy, PartialEq, Eq)]
pub struct TerminalStyle {
    pub enabled: bool,
}

/// Options for rendering stack traces in the interactive debugger.
#[derive(Debug, Clone, Copy)]
pub struct StackTraceOptions {
    /// Show runtime frames too.
    pub full: bool,
    pub style: Option<TerminalStyle>,
}

impl StackTraceOptions {
    /// User frames only, in the style detected for the terminal.
    pub fn user(detected: TerminalStyle) -> (r: Self)
        ensures
            !r.full,
            r.style == Some(detected),
    {
        StackTraceOptions { full: false, style: Some(detected) }
    }

    /// Every frame, without colours.
    pub fn all() -> (r: Self)
        ensures
            r.full,
            r.style is None,
    {
        StackTraceOptions { full: true, style: None }
    }
}

/// Display state of the interactive debugger.
#[derive(Debug, Clone, Copy)]
pub struct ReplDisplay {
    pub colors_enabled: bool,
}

impl ReplDisplay {
    /// Colours start off.
    pub fn new() -> (r: Self)
        ensures
            !r.colors_enabled,
    {
        ReplDisplay { colors_enabled: false }
    }

    /// The terminal style matching the colour setting.
    pub fn style(&self) -> (r: TerminalStyle)
        ensures
            r.enabled == self.colors_enabled,
    {
        TerminalStyle { enabled: self.colors_enabled }
    }

    /// Sets colours on or off, or toggles them when `enable` is `None`, and
    /// returns the line to print.
    pub fn set_colors(&mut self, enable: Option<bool>) -> (msg: &'static str)
        ensures
            final(self).colors_enabled == match enable {
                Some(v) => v,
                None => !old(self).colors_enabled,
            },
            msg@ == if final(self).colors_enabled {
                "Syntax colors on"@
            } else {
                "Syntax colors off"@
            },
    {
        let next = match enable {
            Some(value) => value,
            None => !self.colors_enabled,
        };
        self.colors_enabled = next;
        if self.colors_enabled {
            "Syntax colors on"
        } else {
            "Syntax colors off"
        }
    }
}

} // verus!
