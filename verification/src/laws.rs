//! What holds of the registry operations whatever the registry holds.

use vstd::prelude::*;
use crate::commands::{outcome_of, Commands, Outcome};
use crate::services::{
    command_for, dense, edit_of, execution_of, first_with_id, is_action, kept, keeps, patched,
    renumbered, resolves_to, Execution, ServiceView,
};

verus! {

/// Numbering twice gives the identifiers that numbering once gives.
pub proof fn renumbering_is_idempotent(records: Seq<ServiceView>)
    ensures
        renumbered(renumbered(records)) == renumbered(records),
{
    assert(renumbered(renumbered(records)) =~= renumbered(records));
}

/// After numbering, the identifiers run from 1 to the count of records, in
/// storage order.
pub proof fn renumbering_is_dense(records: Seq<ServiceView>)
    ensures
        dense(renumbered(records)),
        renumbered(records).len() == records.len(),
{
}

/// Numbering changes identifiers only: names and commands stay with their
/// position.
pub proof fn renumbering_keeps_fields(records: Seq<ServiceView>, i: int)
    requires
        0 <= i < records.len(),
    ensures
        renumbered(records)[i].name == records[i].name,
        renumbered(records)[i].start_command == records[i].start_command,
        renumbered(records)[i].stop_command == records[i].stop_command,
        renumbered(records)[i].restart_command == records[i].restart_command,
{
}

/// A registry that is numbered densely is left as it is by numbering.
pub proof fn renumbering_fixes_dense(records: Seq<ServiceView>)
    requires
        dense(records),
    ensures
        renumbered(records) == records,
{
    assert(renumbered(records) =~= records);
}

/// Appending a record numbered one more than the count keeps a densely
/// numbered registry densely numbered.
pub proof fn adding_keeps_dense(records: Seq<ServiceView>, added: ServiceView)
    requires
        dense(records),
        added.id == records.len() + 1,
    ensures
        dense(records.push(added)),
{
}

/// After a removal and the numbering that follows it, the identifiers run
/// from 1 to the count of the remaining records, whatever they were before.
pub proof fn removing_is_dense(
    records: Seq<ServiceView>,
    id: Option<nat>,
    name: Option<Seq<char>>,
)
    ensures
        dense(renumbered(kept(records, id, name))),
        kept(records, id, name).len() <= records.len(),
{
    records.lemma_filter_len(|record: ServiceView| keeps(record, id, name));
}

/// A removal leaves no record that it names, and every record it leaves was
/// in the registry before.
pub proof fn removing_leaves_only_unmatched(
    records: Seq<ServiceView>,
    id: Option<nat>,
    name: Option<Seq<char>>,
    i: int,
)
    requires
        0 <= i < kept(records, id, name).len(),
    ensures
        keeps(kept(records, id, name)[i], id, name),
        records.contains(kept(records, id, name)[i]),
{
    let stays = |record: ServiceView| keeps(record, id, name);
    records.lemma_filter_pred(stays, i);
    records.lemma_filter_contains_rev(stays, kept(records, id, name)[i]);
}

/// An edit never touches an identifier, so it keeps a densely numbered
/// registry densely numbered, and it keeps the count of records.
pub proof fn editing_keeps_dense(
    before: Seq<ServiceView>,
    id: nat,
    name: Option<Seq<char>>,
    start_command: Option<Seq<char>>,
    stop_command: Option<Seq<char>>,
    restart_command: Option<Seq<char>>,
    after: Seq<ServiceView>,
    position: Option<usize>,
)
    requires
        edit_of(before, id, name, start_command, stop_command, restart_command, after, position),
    ensures
        after.len() == before.len(),
        dense(before) ==> dense(after),
{
}

/// An edit that supplies no field changes nothing.
pub proof fn editing_nothing_changes_nothing(record: ServiceView)
    ensures
        patched(record, None, None, None, None) == record,
{
}

/// A request targets at most one record.
pub proof fn resolution_is_unique(
    records: Seq<ServiceView>,
    id: Option<nat>,
    name: Option<Seq<char>>,
    i: int,
    j: int,
)
    requires
        resolves_to(records, id, name, i),
        resolves_to(records, id, name, j),
    ensures
        i == j,
{
}

/// A request comes to one outcome only: two outcomes that both answer it
/// are of the same kind, name the same position and carry the same texts.
pub proof fn execution_is_determined(
    records: Seq<ServiceView>,
    id: Option<nat>,
    name: Option<Seq<char>>,
    command_type: i8,
    one: Execution,
    other: Execution,
)
    requires
        execution_of(records, id, name, command_type, one),
        execution_of(records, id, name, command_type, other),
    ensures
        match one {
            Execution::EmptyRegistry => other is EmptyRegistry,
            Execution::NotFound => other is NotFound,
            Execution::NotImplemented => other is NotImplemented,
            Execution::Run { position, announcement, command } => {
                &&& other matches Execution::Run {
                    position: same_position,
                    announcement: same_announcement,
                    command: same_command,
                }
                &&& same_position == position
                &&& same_announcement@ == announcement@
                &&& same_command@ == command@
            },
            Execution::Fallback { command } => {
                &&& other matches Execution::Fallback { command: same_command }
                &&& same_command@ == command@
            },
        },
{
    if exists|i: int| resolves_to(records, id, name, i) {
        let target = choose|i: int| resolves_to(records, id, name, i);
        assert forall|i: int| resolves_to(records, id, name, i) implies i == target by {
            resolution_is_unique(records, id, name, i, target);
        }
    }
}

/// A start, stop or restart that finds its command touches nothing: it is
/// decided on the record that the request targets, and the command it runs
/// is the one that this record stores for the action.
pub proof fn execution_runs_the_stored_command(
    records: Seq<ServiceView>,
    id: Option<nat>,
    name: Option<Seq<char>>,
    command_type: i8,
    outcome: Execution,
    target: int,
)
    requires
        execution_of(records, id, name, command_type, outcome),
        resolves_to(records, id, name, target),
        is_action(command_type),
    ensures
        command_for(records[target], command_type) is None <==> outcome is NotImplemented,
        command_for(records[target], command_type) matches Some(line) ==> {
            &&& outcome matches Execution::Run { position, announcement, command }
            &&& position == target
            &&& command@ == line
        },
{
    assert forall|i: int| resolves_to(records, id, name, i) implies i == target by {
        resolution_is_unique(records, id, name, i, target);
    }
}

/// In a densely numbered registry the record numbered `id` stands at
/// position `id - 1`, and no identifier outside 1 to the count is found.
pub proof fn dense_lookup_is_by_position(records: Seq<ServiceView>, id: nat, i: int)
    requires
        dense(records),
    ensures
        first_with_id(records, id, i) <==> (0 <= i < records.len() && id == i + 1),
{
}

/// A request that names neither an identifier nor a name targets the first
/// record of a densely numbered registry that is not empty.
pub proof fn default_target_is_first_record(records: Seq<ServiceView>)
    requires
        dense(records),
        records.len() > 0,
    ensures
        resolves_to(records, None, None, 0),
{
}

/// Only an addition, an edit and a removal that matched write to the store:
/// one registry, one registry, and two.
pub proof fn writes_are_counted(command: Commands, records: Seq<ServiceView>, outcome: Outcome)
    requires
        outcome_of(command, records, outcome),
    ensures
        outcome.writes().len() == if command is Add || command is Edit {
            1nat
        } else if outcome is Removed {
            2nat
        } else {
            0nat
        },
        outcome is Removed ==> command is Remove,
{
}

/// A removal that names neither an identifier nor a name is refused and
/// writes nothing, whatever the registry holds.
pub proof fn removal_without_criteria_is_refused(
    command: Commands,
    records: Seq<ServiceView>,
    outcome: Outcome,
)
    requires
        outcome_of(command, records, outcome),
        command matches Commands::Remove { id, name } && id is None && name is None,
    ensures
        outcome is MissingCriteria,
        outcome.writes().len() == 0,
{
}

/// Whatever a command writes last is densely numbered, provided that the
/// registry was so before. After a removal it is so in any case.
pub proof fn last_write_is_dense(command: Commands, records: Seq<ServiceView>, outcome: Outcome)
    requires
        outcome_of(command, records, outcome),
        dense(records) || command is Remove,
        outcome.writes().len() > 0,
    ensures
        dense(outcome.writes().last()),
{
    match command {
        Commands::Edit { id, name, start_commands, stop_commands, restart_commands } => {
            assert(outcome.writes().last().len() == records.len());
        },
        _ => {},
    }
}

} // verus!
