//! The commands of the command line, and what each one comes to on a given
//! registry.

use vstd::prelude::*;
use crate::services::{
    add_service, edit_of, edit_service_in_json, execute, execution_of, id_view, list_services,
    removal_of, remove_service, text_view, Execution, Removal, Service, ServiceView, RESTART,
    START, STOP,
};

verus! {

/// One invocation of the command line.
#[derive(Debug, PartialEq, Eq)]
pub struct Cli {
    pub command: Commands,
}

/// The commands that an invocation can carry.
#[derive(Debug, PartialEq, Eq)]
pub enum Commands {
    /// Start a service with its stored command, if it stores one.
    Start { id: Option<usize>, name: Option<String> },
    /// Stop a service with its stored command, if it stores one.
    Stop { id: Option<usize>, name: Option<String> },
    /// Restart a service with its stored command, if it stores one.
    Restart { id: Option<usize>, name: Option<String> },
    /// Show every stored service.
    List,
    /// Store a new service.
    Add {
        name: String,
        start_commands: Option<String>,
        stop_commands: Option<String>,
        restart_commands: Option<String>,
    },
    /// Remove the services with this identifier or this name, then number
    /// the others anew.
    Remove { id: Option<usize>, name: Option<String> },
    /// Change the supplied fields of one service.
    Edit {
        id: usize,
        name: Option<String>,
        start_commands: Option<String>,
        stop_commands: Option<String>,
        restart_commands: Option<String>,
    },
}

/// What one command comes to: what to report, what to run, and which
/// registries to write, in what order.
#[derive(Debug, PartialEq, Eq)]
pub enum Outcome {
    /// A start, stop or restart was decided. Nothing is written.
    Executed(Execution),
    /// The registry is not empty: show `records`. Nothing is written.
    Listed { records: Vec<Service> },
    /// The registry is empty. Nothing is written.
    NoServices,
    /// A record was appended: write `records`.
    Added { records: Vec<Service> },
    /// The edit was applied to the record at `position`, or to none: write
    /// `records` in either case.
    Edited { records: Vec<Service>, position: Option<usize> },
    /// The removal named neither an identifier nor a name. Nothing is
    /// written.
    MissingCriteria,
    /// The removal matched no record. Nothing is written.
    NoMatch,
    /// Records were removed: write `filtered`, then write `renumbered`.
    Removed { filtered: Vec<Service>, renumbered: Vec<Service> },
}

impl Outcome {
    /// The registries that the caller writes to the store, first to last.
    pub open spec fn writes(self) -> Seq<Seq<ServiceView>> {
        match self {
            Outcome::Added { records } => seq![records.deep_view()],
            Outcome::Edited { records, position } => seq![records.deep_view()],
            Outcome::Removed { filtered, renumbered } => seq![
                filtered.deep_view(),
                renumbered.deep_view(),
            ],
            _ => Seq::empty(),
        }
    }

    /// The line that tells the user of this outcome, where there is one.
    /// A listing is shown by its records, and a command that names no
    /// action speaks for itself when it runs.
    pub open spec fn notice_view(self) -> Option<Seq<char>> {
        match self {
            Outcome::Executed(Execution::EmptyRegistry) => Some(
                "Add a service before execute commands."@,
            ),
            Outcome::Executed(Execution::NotFound) => Some("Service not found."@),
            Outcome::Executed(Execution::NotImplemented) => Some("Command not implemented."@),
            Outcome::Executed(Execution::Run { position, announcement, command }) => Some(
                announcement@,
            ),
            Outcome::Executed(Execution::Fallback { command }) => None,
            Outcome::Listed { records } => None,
            Outcome::NoServices => Some("No services found."@),
            Outcome::Added { records } => Some("Service added."@),
            Outcome::Edited { records, position } => Some("Service edited."@),
            Outcome::MissingCriteria => Some(
                "Please provide an ID or a name to remove a service."@,
            ),
            Outcome::NoMatch => Some("No matching service found to remove."@),
            Outcome::Removed { filtered, renumbered } => Some("Service removed."@),
        }
    }

    /// The line that tells the user of this outcome, where there is one.
    pub fn notice(&self) -> (line: Option<String>)
        ensures
            text_view(line) == self.notice_view(),
    {
        match self {
            Outcome::Executed(Execution::EmptyRegistry) => Some(
                "Add a service before execute commands.".to_owned(),
            ),
            Outcome::Executed(Execution::NotFound) => Some("Service not found.".to_owned()),
            Outcome::Executed(Execution::NotImplemented) => Some(
                "Command not implemented.".to_owned(),
            ),
            Outcome::Executed(Execution::Run { position, announcement, command }) => Some(
                announcement.clone(),
            ),
            Outcome::Executed(Execution::Fallback { command }) => None,
            Outcome::Listed { records } => None,
            Outcome::NoServices => Some("No services found.".to_owned()),
            Outcome::Added { records } => Some("Service added.".to_owned()),
            Outcome::Edited { records, position } => Some("Service edited.".to_owned()),
            Outcome::MissingCriteria => Some(
                "Please provide an ID or a name to remove a service.".to_owned(),
            ),
            Outcome::NoMatch => Some("No matching service found to remove.".to_owned()),
            Outcome::Removed { filtered, renumbered } => Some("Service removed.".to_owned()),
        }
    }
}

/// `outcome` is what `command` comes to on the registry `records`.
pub open spec fn outcome_of(
    command: Commands,
    records: Seq<ServiceView>,
    outcome: Outcome,
) -> bool {
    match command {
        Commands::Start { id, name } => {
            &&& outcome matches Outcome::Executed(execution)
            &&& execution_of(records, id_view(id), text_view(name), START, execution)
        },
        Commands::Stop { id, name } => {
            &&& outcome matches Outcome::Executed(execution)
            &&& execution_of(records, id_view(id), text_view(name), STOP, execution)
        },
        Commands::Restart { id, name } => {
            &&& outcome matches Outcome::Executed(execution)
            &&& execution_of(records, id_view(id), text_view(name), RESTART, execution)
        },
        Commands::List => if records.len() == 0 {
            outcome is NoServices
        } else {
            outcome matches Outcome::Listed { records: shown } && shown.deep_view() == records
        },
        Commands::Add { name, start_commands, stop_commands, restart_commands } => {
            &&& outcome matches Outcome::Added { records: grown }
            &&& grown.deep_view() == records.push(
                ServiceView {
                    id: (records.len() + 1) as nat,
                    name: name@,
                    start_command: text_view(start_commands),
                    stop_command: text_view(stop_commands),
                    restart_command: text_view(restart_commands),
                },
            )
        },
        Commands::Remove { id, name } => match outcome {
            Outcome::MissingCriteria => removal_of(
                records,
                id_view(id),
                text_view(name),
                records,
                Removal::MissingCriteria,
            ),
            Outcome::NoMatch => removal_of(
                records,
                id_view(id),
                text_view(name),
                records,
                Removal::NoMatch,
            ),
            Outcome::Removed { filtered, renumbered } => removal_of(
                records,
                id_view(id),
                text_view(name),
                renumbered.deep_view(),
                Removal::Removed { filtered },
            ),
            _ => false,
        },
        Commands::Edit { id, name, start_commands, stop_commands, restart_commands } => {
            &&& outcome matches Outcome::Edited { records: edited, position }
            &&& edit_of(
                records,
                id as nat,
                text_view(name),
                text_view(start_commands),
                text_view(stop_commands),
                text_view(restart_commands),
                edited.deep_view(),
                position,
            )
        },
    }
}

/// Decides what the command of `cli` comes to on the registry `services`.
/// The caller then writes, runs and reports what the outcome says.
pub fn handle_commands(cli: Cli, services: Vec<Service>) -> (outcome: Outcome)
    requires
        cli.command is Add ==> services.len() < usize::MAX,
    ensures
        outcome_of(cli.command, services.deep_view(), outcome),
{
    let mut services = services;
    match cli.command {
        Commands::Start { id, name } => Outcome::Executed(execute(&services, id, name, START)),
        Commands::Stop { id, name } => Outcome::Executed(execute(&services, id, name, STOP)),
        Commands::Restart { id, name } => Outcome::Executed(
            execute(&services, id, name, RESTART),
        ),
        Commands::List => {
            if list_services(&services).is_none() {
                Outcome::NoServices
            } else {
                Outcome::Listed { records: services }
            }
        },
        Commands::Add { name, start_commands, stop_commands, restart_commands } => {
            add_service(&mut services, name, start_commands, stop_commands, restart_commands);
            Outcome::Added { records: services }
        },
        Commands::Remove { id, name } => match remove_service(&mut services, id, name) {
            Removal::MissingCriteria => Outcome::MissingCriteria,
            Removal::NoMatch => Outcome::NoMatch,
            Removal::Removed { filtered } => Outcome::Removed { filtered, renumbered: services },
        },
        Commands::Edit { id, name, start_commands, stop_commands, restart_commands } => {
            let position = edit_service_in_json(
                &mut services,
                id,
                name,
                start_commands,
                stop_commands,
                restart_commands,
            );
            Outcome::Edited { records: services, position }
        },
    }
}

} // verus!
