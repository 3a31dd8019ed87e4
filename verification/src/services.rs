//! Service records and the operations on an ordered registry of them.

use vstd::prelude::*;

verus! {

/// One registered service: an identifier, a name, and up to three shell
/// command lines.
#[derive(Debug, PartialEq, Eq)]
pub struct Service {
    pub id: usize,
    pub name: String,
    pub start_command: Option<String>,
    pub stop_command: Option<String>,
    pub restart_command: Option<String>,
}

/// The mathematical value of a [`Service`].
pub struct ServiceView {
    pub id: nat,
    pub name: Seq<char>,
    pub start_command: Option<Seq<char>>,
    pub stop_command: Option<Seq<char>>,
    pub restart_command: Option<Seq<char>>,
}

/// The characters of an optional string.
pub open spec fn text_view(text: Option<String>) -> Option<Seq<char>> {
    match text {
        Some(s) => Some(s@),
        None => None,
    }
}

impl View for Service {
    type V = ServiceView;

    open spec fn view(&self) -> ServiceView {
        ServiceView {
            id: self.id as nat,
            name: self.name@,
            start_command: text_view(self.start_command),
            stop_command: text_view(self.stop_command),
            restart_command: text_view(self.restart_command),
        }
    }
}

impl DeepView for Service {
    type V = ServiceView;

    open spec fn deep_view(&self) -> ServiceView {
        self@
    }
}

impl Clone for Service {
    fn clone(&self) -> (copy: Self)
        ensures
            copy == *self,
    {
        Service {
            id: self.id,
            name: self.name.clone(),
            start_command: self.start_command.clone(),
            stop_command: self.stop_command.clone(),
            restart_command: self.restart_command.clone(),
        }
    }
}

/// The record at position `i` carries the identifier `i + 1`, for every
/// position of the sequence.
pub open spec fn dense(records: Seq<ServiceView>) -> bool {
    forall|i: int| 0 <= i < records.len() ==> (#[trigger] records[i]).id == i + 1
}

/// The same records in the same order, each numbered by its position,
/// counting from one.
pub open spec fn renumbered(records: Seq<ServiceView>) -> Seq<ServiceView> {
    Seq::new(records.len(), |i: int| ServiceView { id: (i + 1) as nat, ..records[i] })
}

/// Gives every record the identifier of its position, counting from one.
pub fn reorganize_ids(services: &mut Vec<Service>)
    ensures
        final(services).deep_view() == renumbered(old(services).deep_view()),
        dense(final(services).deep_view()),
{
    let mut i: usize = 0;
    while i < services.len()
        invariant
            i <= services.len(),
            services.len() == old(services).len(),
            forall|j: int|
                0 <= j < i ==> (#[trigger] services[j])@ == renumbered(
                    old(services).deep_view(),
                )[j],
            forall|j: int| i <= j < services.len() ==> #[trigger] services[j] == old(services)[j],
        decreases services.len() - i,
    {
        services[i].id = i + 1;
        i += 1;
    }
}

/// The identifier a caller asked for, as a natural number.
pub open spec fn id_view(id: Option<usize>) -> Option<nat> {
    match id {
        Some(i) => Some(i as nat),
        None => None,
    }
}

/// `i` is the first position, in storage order, of a record whose
/// identifier is `id`.
pub open spec fn first_with_id(records: Seq<ServiceView>, id: nat, i: int) -> bool {
    &&& 0 <= i < records.len()
    &&& records[i].id == id
    &&& forall|j: int| 0 <= j < i ==> (#[trigger] records[j]).id != id
}

/// `i` is the first position, in storage order, of a record whose name is
/// `name`. Names may repeat; the earliest record wins.
pub open spec fn first_with_name(records: Seq<ServiceView>, name: Seq<char>, i: int) -> bool {
    &&& 0 <= i < records.len()
    &&& records[i].name == name
    &&& forall|j: int| 0 <= j < i ==> (#[trigger] records[j]).name != name
}

/// The record that a request for `id` and `name` targets stands at position
/// `i`. An identifier beats a name; a request that gives neither targets the
/// identifier 1.
pub open spec fn resolves_to(
    records: Seq<ServiceView>,
    id: Option<nat>,
    name: Option<Seq<char>>,
    i: int,
) -> bool {
    match id {
        Some(wanted) => first_with_id(records, wanted, i),
        None => match name {
            Some(wanted) => first_with_name(records, wanted, i),
            None => first_with_id(records, 1, i),
        },
    }
}

/// The position of the first record whose identifier is `id`.
pub fn find_by_id(services: &Vec<Service>, id: usize) -> (found: Option<usize>)
    ensures
        match found {
            Some(i) => first_with_id(services.deep_view(), id as nat, i as int),
            None => forall|i: int| !first_with_id(services.deep_view(), id as nat, i),
        },
{
    let mut i: usize = 0;
    while i < services.len()
        invariant
            i <= services.len(),
            forall|j: int| 0 <= j < i ==> (#[trigger] services.deep_view()[j]).id != id,
        decreases services.len() - i,
    {
        if services[i].id == id {
            return Some(i);
        }
        i += 1;
    }
    None
}

/// The position of the first record whose name is `name`.
pub fn find_by_name(services: &Vec<Service>, name: &String) -> (found: Option<usize>)
    ensures
        match found {
            Some(i) => first_with_name(services.deep_view(), name@, i as int),
            None => forall|i: int| !first_with_name(services.deep_view(), name@, i),
        },
{
    let mut i: usize = 0;
    while i < services.len()
        invariant
            i <= services.len(),
            forall|j: int| 0 <= j < i ==> (#[trigger] services.deep_view()[j]).name != name@,
        decreases services.len() - i,
    {
        if services[i].name == *name {
            return Some(i);
        }
        i += 1;
    }
    None
}

/// Finds the record that a request targets: by identifier when one is
/// given, else by name, else the record numbered 1.
pub fn resolve(services: &Vec<Service>, id: Option<usize>, name: &Option<String>) -> (found:
    Option<usize>)
    ensures
        match found {
            Some(i) => resolves_to(services.deep_view(), id_view(id), text_view(*name), i as int),
            None => forall|i: int|
                !resolves_to(services.deep_view(), id_view(id), text_view(*name), i),
        },
{
    match id {
        Some(wanted) => find_by_id(services, wanted),
        None => match name {
            Some(wanted) => find_by_name(services, wanted),
            None => find_by_id(services, 1),
        },
    }
}

/// The command type that starts a service.
pub const START: i8 = 1;

/// The command type that stops a service.
pub const STOP: i8 = 2;

/// The command type that restarts a service.
pub const RESTART: i8 = 3;

/// `command_type` names one of the three actions.
pub open spec fn is_action(command_type: i8) -> bool {
    command_type == START || command_type == STOP || command_type == RESTART
}

/// The command line that `record` stores for the action `command_type`, if
/// it stores one.
pub open spec fn command_for(record: ServiceView, command_type: i8) -> Option<Seq<char>> {
    if command_type == START {
        record.start_command
    } else if command_type == STOP {
        record.stop_command
    } else {
        record.restart_command
    }
}

/// The shell line that is run for a command type that names no action.
pub open spec fn fallback_command() -> Seq<char> {
    "echo 'Command not fount.'"@
}

/// The word that names the action `command_type` in an announcement.
pub open spec fn verb(command_type: i8) -> Seq<char> {
    if command_type == START {
        "Start"@
    } else if command_type == STOP {
        "Stop"@
    } else {
        "Restart"@
    }
}

/// The line that says which command is about to run for which service.
pub open spec fn announcement_of(command_type: i8, name: Seq<char>, command: Seq<char>) -> Seq<
    char,
> {
    verb(command_type) + " service '"@ + name + "' with command: '"@ + command + "'"@
}

/// What a request to start, stop or restart a service comes to.
#[derive(Debug, PartialEq, Eq)]
pub enum Execution {
    /// The registry holds no record at all.
    EmptyRegistry,
    /// No record matches the request.
    NotFound,
    /// The targeted record stores no command for the action.
    NotImplemented,
    /// Print `announcement`, then run `command`, which the record at
    /// `position` stores for the action.
    Run { position: usize, announcement: String, command: String },
    /// The command type names no action: run `command`, which says so.
    Fallback { command: String },
}

/// `outcome` is what a request for `id`, `name` and `command_type` comes to
/// on `records`. Exactly one outcome meets this for given arguments.
pub open spec fn execution_of(
    records: Seq<ServiceView>,
    id: Option<nat>,
    name: Option<Seq<char>>,
    command_type: i8,
    outcome: Execution,
) -> bool {
    match outcome {
        Execution::EmptyRegistry => records.len() == 0,
        Execution::NotFound => {
            &&& records.len() > 0
            &&& forall|i: int| !resolves_to(records, id, name, i)
        },
        Execution::NotImplemented => {
            &&& is_action(command_type)
            &&& exists|i: int|
                resolves_to(records, id, name, i) && command_for(records[i], command_type) is None
        },
        Execution::Run { position, announcement, command } => {
            &&& is_action(command_type)
            &&& resolves_to(records, id, name, position as int)
            &&& command_for(records[position as int], command_type) == Some(command@)
            &&& announcement@ == announcement_of(
                command_type,
                records[position as int].name,
                command@,
            )
        },
        Execution::Fallback { command } => {
            &&& !is_action(command_type)
            &&& exists|i: int| resolves_to(records, id, name, i)
            &&& command@ == fallback_command()
        },
    }
}

/// Decides what a request to start, stop or restart a service comes to,
/// without running anything and without touching the registry.
pub fn execute(
    services: &Vec<Service>,
    id: Option<usize>,
    name: Option<String>,
    command_type: i8,
) -> (outcome: Execution)
    ensures
        execution_of(services.deep_view(), id_view(id), text_view(name), command_type, outcome),
{
    if services.len() == 0 {
        return Execution::EmptyRegistry;
    }
    let position = match resolve(services, id, &name) {
        Some(position) => position,
        None => {
            return Execution::NotFound;
        },
    };
    let service = &services[position];
    let (word, stored) = if command_type == START {
        ("Start", &service.start_command)
    } else if command_type == STOP {
        ("Stop", &service.stop_command)
    } else if command_type == RESTART {
        ("Restart", &service.restart_command)
    } else {
        return Execution::Fallback { command: "echo 'Command not fount.'".to_owned() };
    };
    match stored {
        Some(command) => {
            let announcement = word.to_owned().concat(" service '").concat(
                service.name.as_str(),
            ).concat("' with command: '").concat(command.as_str()).concat("'");
            Execution::Run { position, announcement, command: command.clone() }
        },
        None => Execution::NotImplemented,
    }
}

/// What to tell the user once a command has run.
#[derive(Debug, PartialEq, Eq)]
pub enum Report {
    /// The command ended well: print this line to standard output.
    Success(String),
    /// The command ended badly: print this line to standard error.
    Failure(String),
}

/// Says what to tell the user once a command has run: its output where it
/// ended well, what it wrote to standard error where it did not.
pub fn report(succeeded: bool, output: &str, errors: &str) -> (line: Report)
    ensures
        match line {
            Report::Success(text) => succeeded && text@ == "Commmand executed with success.\n "@
                + output@,
            Report::Failure(text) => !succeeded && text@ == "Error on execute command: "@
                + errors@,
        },
{
    if succeeded {
        Report::Success("Commmand executed with success.\n ".to_owned().concat(output))
    } else {
        Report::Failure("Error on execute command: ".to_owned().concat(errors))
    }
}

/// A removal that names `id` and `name` leaves `record` in place: its
/// identifier differs from `id`, where one is given, and its name differs
/// from `name`, where one is given.
pub open spec fn keeps(record: ServiceView, id: Option<nat>, name: Option<Seq<char>>) -> bool {
    &&& (id matches Some(wanted) ==> record.id != wanted)
    &&& (name matches Some(wanted) ==> record.name != wanted)
}

/// The records that a removal leaves in place, in their order.
pub open spec fn kept(records: Seq<ServiceView>, id: Option<nat>, name: Option<Seq<char>>) -> Seq<
    ServiceView,
> {
    records.filter(|record: ServiceView| keeps(record, id, name))
}

/// Whether a removal that names `id` and `name` leaves `service` in place.
pub fn is_kept(service: &Service, id: Option<usize>, name: &Option<String>) -> (stays: bool)
    ensures
        stays == keeps(service@, id_view(id), text_view(*name)),
{
    let id_differs = match id {
        Some(wanted) => service.id != wanted,
        None => true,
    };
    let name_differs = match name {
        Some(wanted) => service.name != *wanted,
        None => true,
    };
    id_differs && name_differs
}

/// Drops every record that the removal singles out and keeps the others in
/// their order, with their identifiers as they were.
pub fn retain_unmatched(services: &mut Vec<Service>, id: Option<usize>, name: &Option<String>)
    ensures
        final(services).deep_view() == kept(
            old(services).deep_view(),
            id_view(id),
            text_view(*name),
        ),
{
    let ghost stays = |record: ServiceView| keeps(record, id_view(id), text_view(*name));
    let mut survivors: Vec<Service> = Vec::new();
    let mut i: usize = 0;
    proof {
        assert(services.deep_view().take(0) =~= Seq::<ServiceView>::empty());
        reveal(Seq::filter);
        assert(survivors.deep_view() =~= services.deep_view().take(0).filter(stays));
    }
    while i < services.len()
        invariant
            i <= services.len(),
            *services == *old(services),
            stays == |record: ServiceView| keeps(record, id_view(id), text_view(*name)),
            survivors.deep_view() == services.deep_view().take(i as int).filter(stays),
        decreases services.len() - i,
    {
        let ghost before = survivors.deep_view();
        let stay = is_kept(&services[i], id, name);
        if stay {
            survivors.push(services[i].clone());
        }
        proof {
            let records = services.deep_view();
            assert(records.take(i as int + 1) =~= records.take(i as int).push(records[i as int]));
            records.take(i as int).lemma_filter_push(records[i as int], stays);
            if stay {
                assert(survivors.deep_view() =~= before.push(records[i as int]));
            } else {
                assert(survivors.deep_view() =~= before);
            }
        }
        i += 1;
    }
    proof {
        assert(services.deep_view().take(i as int) =~= services.deep_view());
    }
    *services = survivors;
}

/// What a removal comes to.
#[derive(Debug, PartialEq, Eq)]
pub enum Removal {
    /// Neither an identifier nor a name was given: nothing is removed and
    /// nothing is to be written.
    MissingCriteria,
    /// No record matches: nothing is removed and nothing is to be written.
    NoMatch,
    /// At least one record left. `filtered` holds the remaining records
    /// under their old identifiers, which is what is written first; the
    /// registry holds them renumbered, which is what is written next.
    Removed { filtered: Vec<Service> },
}

/// `outcome` and the registry `after` are what removing by `id` and `name`
/// makes of the registry `before`.
pub open spec fn removal_of(
    before: Seq<ServiceView>,
    id: Option<nat>,
    name: Option<Seq<char>>,
    after: Seq<ServiceView>,
    outcome: Removal,
) -> bool {
    match outcome {
        Removal::MissingCriteria => {
            &&& id is None && name is None
            &&& after == before
        },
        Removal::NoMatch => {
            &&& id is Some || name is Some
            &&& kept(before, id, name).len() == before.len()
            &&& after == before
        },
        Removal::Removed { filtered } => {
            &&& id is Some || name is Some
            &&& kept(before, id, name).len() < before.len()
            &&& filtered.deep_view() == kept(before, id, name)
            &&& after == renumbered(kept(before, id, name))
        },
    }
}

/// Removes every record whose identifier is `id` or whose name is `name`,
/// then numbers the remaining records by position.
pub fn remove_service(
    services: &mut Vec<Service>,
    id: Option<usize>,
    name: Option<String>,
) -> (outcome: Removal)
    ensures
        removal_of(
            old(services).deep_view(),
            id_view(id),
            text_view(name),
            final(services).deep_view(),
            outcome,
        ),
        outcome is Removed ==> dense(final(services).deep_view()),
{
    if id.is_none() && name.is_none() {
        return Removal::MissingCriteria;
    }
    let mut survivors = services.clone();
    assert(survivors@ =~= services@);
    retain_unmatched(&mut survivors, id, &name);
    proof {
        services.deep_view().lemma_filter_len(
            |record: ServiceView| keeps(record, id_view(id), text_view(name)),
        );
    }
    if survivors.len() == services.len() {
        return Removal::NoMatch;
    }
    let filtered = survivors.clone();
    assert(filtered@ =~= survivors@);
    reorganize_ids(&mut survivors);
    *services = survivors;
    Removal::Removed { filtered }
}

/// Appends a record numbered one more than the count of records so far.
pub fn add_service(
    services: &mut Vec<Service>,
    name: String,
    start_command: Option<String>,
    stop_command: Option<String>,
    restart_command: Option<String>,
)
    requires
        old(services).len() < usize::MAX,
    ensures
        final(services).deep_view() == old(services).deep_view().push(
            ServiceView {
                id: (old(services).len() + 1) as nat,
                name: name@,
                start_command: text_view(start_command),
                stop_command: text_view(stop_command),
                restart_command: text_view(restart_command),
            },
        ),
        dense(old(services).deep_view()) ==> dense(final(services).deep_view()),
{
    let service = Service {
        id: services.len() + 1,
        name,
        start_command,
        stop_command,
        restart_command,
    };
    services.push(service);
    assert(services.deep_view() =~= old(services).deep_view().push(service@));
}

/// `record` with each supplied field in place of the stored one. A field
/// that is not supplied stays as it is; the identifier always stays.
pub open spec fn patched(
    record: ServiceView,
    name: Option<Seq<char>>,
    start_command: Option<Seq<char>>,
    stop_command: Option<Seq<char>>,
    restart_command: Option<Seq<char>>,
) -> ServiceView {
    ServiceView {
        id: record.id,
        name: match name {
            Some(supplied) => supplied,
            None => record.name,
        },
        start_command: if start_command is Some {
            start_command
        } else {
            record.start_command
        },
        stop_command: if stop_command is Some {
            stop_command
        } else {
            record.stop_command
        },
        restart_command: if restart_command is Some {
            restart_command
        } else {
            record.restart_command
        },
    }
}

/// The registry `after` and `position` are what editing the record numbered
/// `id` makes of the registry `before`.
pub open spec fn edit_of(
    before: Seq<ServiceView>,
    id: nat,
    name: Option<Seq<char>>,
    start_command: Option<Seq<char>>,
    stop_command: Option<Seq<char>>,
    restart_command: Option<Seq<char>>,
    after: Seq<ServiceView>,
    position: Option<usize>,
) -> bool {
    match position {
        Some(i) => {
            &&& first_with_id(before, id, i as int)
            &&& after == before.update(
                i as int,
                patched(before[i as int], name, start_command, stop_command, restart_command),
            )
        },
        None => {
            &&& forall|i: int| !first_with_id(before, id, i)
            &&& after == before
        },
    }
}

/// Overwrites, in the first record numbered `id`, each field that is
/// supplied, and says where that record stands. Where no record is numbered
/// `id` the registry stays as it is.
pub fn edit_service_in_json(
    services: &mut Vec<Service>,
    id: usize,
    name: Option<String>,
    start_command: Option<String>,
    stop_command: Option<String>,
    restart_command: Option<String>,
) -> (position: Option<usize>)
    ensures
        edit_of(
            old(services).deep_view(),
            id as nat,
            text_view(name),
            text_view(start_command),
            text_view(stop_command),
            text_view(restart_command),
            final(services).deep_view(),
            position,
        ),
{
    let position = find_by_id(services, id);
    if let Some(i) = position {
        if let Some(supplied) = name {
            services[i].name = supplied;
        }
        if start_command.is_some() {
            services[i].start_command = start_command;
        }
        if stop_command.is_some() {
            services[i].stop_command = stop_command;
        }
        if restart_command.is_some() {
            services[i].restart_command = restart_command;
        }
        assert(services.deep_view() =~= old(services).deep_view().update(
            i as int,
            patched(
                old(services).deep_view()[i as int],
                text_view(name),
                text_view(start_command),
                text_view(stop_command),
                text_view(restart_command),
            ),
        ));
    }
    position
}

/// Hands the records out for display, or says that there are none.
pub fn list_services(services: &Vec<Service>) -> (listing: Option<&Vec<Service>>)
    ensures
        services.len() == 0 <==> listing is None,
        listing matches Some(shown) ==> *shown == *services,
{
    if services.is_empty() {
        None
    } else {
        Some(services)
    }
}

} // verus!
