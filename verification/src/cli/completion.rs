//! `keygen completion <shell>`.

use vstd::prelude::*;

verus! {

/// Options of `keygen completion`.
#[derive(Debug)]
pub struct CompletionArgs {
    /// Target shell.
    pub shell: ShellChoice,
}

/// The shells completion scripts can be generated for.
#[derive(Debug, Clone, Copy, PartialEq, Eq, Structural)]
pub enum ShellChoice {
    Bash,
    Zsh,
    Fish,
    Powershell,
    Elvish,
}

} // verus!
