//! Packages the bootstrap may ask a package manager for.

use vstd::prelude::*;

verus! {

/// A package known to the bootstrap.
#[derive(Clone, Copy, Debug, PartialEq, Eq, Structural)]
pub enum Package {
    Git,
    Zsh,
    ZshCompletions,
    BashCompletion,
}

impl Package {
    /// The name under which package managers know this package.
    pub open spec fn name_spec(self) -> Seq<char> {
        match self {
            Package::Git => "git"@,
            Package::Zsh => "zsh"@,
            Package::ZshCompletions => "zsh-completions"@,
            Package::BashCompletion => "bash-completion"@,
        }
    }

    /// The name under which package managers know this package.
    pub fn name(&self) -> (name: &str)
        ensures
            name@ == self.name_spec(),
    {
        match self {
            Package::Git => "git",
            Package::Zsh => "zsh",
            Package::ZshCompletions => "zsh-completions",
            Package::BashCompletion => "bash-completion",
        }
    }
}

} // verus!
