use vstd::prelude::*;

verus! {

/// What a simulated client does next.
#[derive(Clone, Copy, Debug, PartialEq, Eq, Structural)]
pub enum Action {
    /// List the orders of one table.
    ListRandomTable,
    /// Place an order and delete it again.
    CreateAndRemove,
}

/// One step of a simulated client: what it does, and for which table.
#[derive(Clone, Copy, Debug, PartialEq, Eq, Structural)]
pub struct Step {
    pub action: Action,
    pub table_number: u8,
}

/// The action that a roll selects: listing on an even roll, placing and
/// deleting on an odd one.
pub open spec fn action_for(roll: u8) -> Action {
    if roll % 2 == 0 {
        Action::ListRandomTable
    } else {
        Action::CreateAndRemove
    }
}

/// The table that a roll selects among `table_count` tables.
pub open spec fn table_for(roll: u8, table_count: u8) -> int {
    roll as int % table_count as int
}

/// The step that two rolls select among `table_count` tables.
pub open spec fn step_of(action_roll: u8, table_roll: u8, table_count: u8) -> Step {
    Step {
        action: action_for(action_roll),
        table_number: table_for(table_roll, table_count) as u8,
    }
}

/// Selects the action for a roll.
pub fn choose_action(roll: u8) -> (action: Action)
    ensures
        action == action_for(roll),
{
    match roll % 2 {
        0 => Action::ListRandomTable,
        1 => Action::CreateAndRemove,
        _ => Action::ListRandomTable,
    }
}

/// Selects the table for a roll: one of the tables `0` to `table_count - 1`.
pub fn choose_table(roll: u8, table_count: u8) -> (table_number: u8)
    requires
        table_count > 0,
    ensures
        table_number == table_for(roll, table_count),
        table_number < table_count,
{
    roll % table_count
}

/// The step that two rolls select.
pub fn step_for(action_roll: u8, table_roll: u8, table_count: u8) -> (step: Step)
    requires
        table_count > 0,
    ensures
        step == step_of(action_roll, table_roll, table_count),
        step.table_number < table_count,
{
    Step {
        action: choose_action(action_roll),
        table_number: choose_table(table_roll, table_count),
    }
}

/// Draws the next step of a simulated client: two random rolls, one for the
/// action and one for the table. Whatever is drawn, the step is the one that
/// some two rolls select, and its table is one of the tables `0` to
/// `table_count - 1`.
pub fn next_step(table_count: u8) -> (step: Step)
    requires
        table_count > 0,
    ensures
        exists|action_roll: u8, table_roll: u8|
            step == #[trigger] step_of(action_roll, table_roll, table_count),
        step.table_number < table_count,
{
    let action_roll: u8 = rand::random::<u8>();
    let table_roll: u8 = rand::random::<u8>();
    step_for(action_roll, table_roll, table_count)
}

} // verus!
