//! The subcommands and what is decided before one of them runs.
use vstd::prelude::*;

verus! {

/// The workflows the tool offers.
#[derive(Clone, Copy, Debug, PartialEq, Eq, Structural)]
pub enum SubCommand {
    /// Unlock and mount the encrypted partition.
    Mount,
    /// Check the composed passphrase against the partition.
    Validate,
    /// Seal the hardware fragment of the passphrase.
    SetTpm,
    /// Add the composed passphrase to a key slot.
    SetLuks,
}

impl Default for SubCommand {
    fn default() -> (r: SubCommand)
        ensures
            r == SubCommand::Mount,
    {
        SubCommand::Mount
    }
}

impl SubCommand {
    /// The name under which the subcommand is shown.
    pub fn name(&self) -> (r: &'static str)
        ensures
            r@ == subcommand_name(*self),
    {
        proof {
            reveal_strlit("Mount");
            reveal_strlit("Validate");
            reveal_strlit("SetTpm");
            reveal_strlit("SetLuks");
        }
        match self {
            SubCommand::Mount => "Mount",
            SubCommand::Validate => "Validate",
            SubCommand::SetTpm => "SetTpm",
            SubCommand::SetLuks => "SetLuks",
        }
    }
}

/// The shown name of each subcommand.
pub open spec fn subcommand_name(c: SubCommand) -> Seq<char> {
    match c {
        SubCommand::Mount => "Mount"@,
        SubCommand::Validate => "Validate"@,
        SubCommand::SetTpm => "SetTpm"@,
        SubCommand::SetLuks => "SetLuks"@,
    }
}

/// What runs once the configuration has been read.
#[derive(Clone, Copy, Debug, PartialEq, Eq, Structural)]
pub struct CommandPlan {
    /// Whether the banner is printed first.
    pub show_header: bool,
    /// The workflow to run.
    pub command: SubCommand,
}

/// Decides the run from the configuration's banner flag and the subcommand
/// given: the banner shows unless it is hidden explicitly, and `Mount` runs
/// when no subcommand is given.
pub fn cli_internal(no_header: Option<bool>, command: Option<SubCommand>) -> (r: CommandPlan)
    ensures
        r.show_header == (no_header != Some(true)),
        r.command == match command {
            Some(c) => c,
            None => SubCommand::Mount,
        },
{
    let command = match command {
        Some(c) => c,
        None => SubCommand::default(),
    };
    CommandPlan { show_header: no_header != Some(true), command }
}

} // verus!
