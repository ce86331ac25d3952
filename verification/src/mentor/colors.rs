//! Terminal colors for the mentor display.
use vstd::prelude::*;

verus! {

/// ANSI escape codes for terminal colors; every code is empty when colors
/// are disabled.
pub struct MentorColors {
    enabled: bool,
}

impl View for MentorColors {
    type V = bool;

    /// Whether colors are enabled.
    closed spec fn view(&self) -> bool {
        self.enabled
    }
}

/// `code` when colors are enabled, else nothing.
pub open spec fn colored(enabled: bool, code: Seq<char>) -> Seq<char> {
    if enabled { code } else { ""@ }
}

impl MentorColors {
    /// Colors explicitly enabled or disabled.
    pub fn with_enabled(enabled: bool) -> (r: Self)
        ensures
            r@ == enabled,
    {
        MentorColors { enabled }
    }

    /// Whether colors are enabled.
    pub fn is_enabled(&self) -> (b: bool)
        ensures
            b == self@,
    {
        self.enabled
    }

    /// Cyan, for box borders.
    pub fn border(&self) -> (r: &'static str)
        ensures
            r@ == colored(self@, "\x1b[36m"@),
    {
        if self.enabled { "\x1b[36m" } else { "" }
    }

    /// Bold cyan, for the title.
    pub fn title(&self) -> (r: &'static str)
        ensures
            r@ == colored(self@, "\x1b[1;36m"@),
    {
        if self.enabled { "\x1b[1;36m" } else { "" }
    }

    /// Bold yellow, for the key message.
    pub fn key_message(&self) -> (r: &'static str)
        ensures
            r@ == colored(self@, "\x1b[1;33m"@),
    {
        if self.enabled { "\x1b[1;33m" } else { "" }
    }

    /// Plain, for explanation text.
    pub fn explanation(&self) -> (r: &'static str)
        ensures
            r@ == colored(self@, "\x1b[0m"@),
    {
        if self.enabled { "\x1b[0m" } else { "" }
    }

    /// Blue, for source locations.
    pub fn location(&self) -> (r: &'static str)
        ensures
            r@ == colored(self@, "\x1b[34m"@),
    {
        if self.enabled { "\x1b[34m" } else { "" }
    }

    /// Green, for search suggestions.
    pub fn search(&self) -> (r: &'static str)
        ensures
            r@ == colored(self@, "\x1b[32m"@),
    {
        if self.enabled { "\x1b[32m" } else { "" }
    }

    /// Bold white, for commands.
    pub fn command(&self) -> (r: &'static str)
        ensures
            r@ == colored(self@, "\x1b[1;37m"@),
    {
        if self.enabled { "\x1b[1;37m" } else { "" }
    }

    /// Magenta, for concepts.
    pub fn concept(&self) -> (r: &'static str)
        ensures
            r@ == colored(self@, "\x1b[35m"@),
    {
        if self.enabled { "\x1b[35m" } else { "" }
    }

    /// Dim, for secondary text.
    pub fn dim(&self) -> (r: &'static str)
        ensures
            r@ == colored(self@, "\x1b[2m"@),
    {
        if self.enabled { "\x1b[2m" } else { "" }
    }

    /// Bold red, for the error type label.
    pub fn error_type(&self) -> (r: &'static str)
        ensures
            r@ == colored(self@, "\x1b[1;31m"@),
    {
        if self.enabled { "\x1b[1;31m" } else { "" }
    }

    /// Resets all formatting.
    pub fn reset(&self) -> (r: &'static str)
        ensures
            r@ == colored(self@, "\x1b[0m"@),
    {
        if self.enabled { "\x1b[0m" } else { "" }
    }

    /// Underline.
    pub fn underline(&self) -> (r: &'static str)
        ensures
            r@ == colored(self@, "\x1b[4m"@),
    {
        if self.enabled { "\x1b[4m" } else { "" }
    }
}

} // verus!
