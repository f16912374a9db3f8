//! Per-entity undo history: record, rewind and reset.
use vstd::prelude::*;

verus! {

/// A command to the history recorder, applied to every entities entity.
#[derive(Clone, Copy, Debug, PartialEq, Eq, Hash, Structural)]
pub enum HistoryCommands {
    /// Append each entity's current value to its history.
    Record,
    /// Restore each entity's last recorded value and drop it from the history.
    Rewind,
    /// Restore each entity's first recorded value and clear the history.
    Reset,
}

/// The values an entity held before each recorded turn, oldest first.
pub struct History<T> {
    entries: Vec<T>,
}

impl<T> View for History<T> {
    type V = Seq<T>;

    closed spec fn view(&self) -> Seq<T> {
        self.entries@
    }
}

/// The value and history of a entities entity after `command`, given its value `current`
/// and its history `history` before.
pub open spec fn command_effect<T>(command: HistoryCommands, current: T, history: Seq<T>) -> (T, Seq<T>) {
    match command {
        HistoryCommands::Record => (current, history.push(current)),
        HistoryCommands::Rewind => {
            if history.len() == 0 {
                (current, history)
            } else {
                (history.last(), history.drop_last())
            }
        },
        HistoryCommands::Reset => {
            if history.len() == 0 {
                (current, history)
            } else {
                (history[0], Seq::empty())
            }
        },
    }
}

impl<T: Copy> History<T> {
    pub fn new() -> (r: History<T>)
        ensures
            r@ == Seq::<T>::empty(),
    {
        History { entries: Vec::new() }
    }

    pub fn len(&self) -> (r: usize)
        ensures
            r == self@.len(),
    {
        self.entries.len()
    }

    /// The recorded value at position `i`, oldest first.
    pub fn get(&self, i: usize) -> (r: T)
        requires
            i < self@.len(),
        ensures
            r == self@[i as int],
    {
        self.entries[i]
    }

    /// Appends `current` to the history.
    pub fn record(&mut self, current: T)
        ensures
            final(self)@ == old(self)@.push(current),
    {
        self.entries.push(current);
    }

    /// Pops the last recorded value into `current`; nothing changes when the history is empty.
    pub fn rewind(&mut self, current: &mut T)
        ensures
            (*final(current), final(self)@) == command_effect(HistoryCommands::Rewind, *old(current), old(self)@),
    {
        match self.entries.pop() {
            Some(last) => {
                *current = last;
            },
            None => {},
        }
    }

    /// Restores the first recorded value into `current` and clears the history; nothing
    /// changes when the history is empty.
    pub fn reset(&mut self, current: &mut T)
        ensures
            (*final(current), final(self)@) == command_effect(HistoryCommands::Reset, *old(current), old(self)@),
    {
        if self.entries.len() > 0 {
            *current = self.entries[0];
            self.entries.clear();
            assert(self.entries@ =~= Seq::<T>::empty());
        }
    }

    /// Applies `command` to an entity whose current value is `current`.
    pub fn apply(&mut self, command: HistoryCommands, current: &mut T)
        ensures
            (*final(current), final(self)@) == command_effect(command, *old(current), old(self)@),
    {
        match command {
            HistoryCommands::Record => self.record(*current),
            HistoryCommands::Rewind => self.rewind(current),
            HistoryCommands::Reset => self.reset(current),
        }
    }
}

/// An entity whose value the history recorder tracks.
pub struct Rewindable<T> {
    pub current: T,
    pub history: History<T>,
}

/// Applies `command` to every entities entity.
pub fn apply_history_command<T: Copy>(command: HistoryCommands, entities: &mut Vec<Rewindable<T>>)
    ensures
        final(entities)@.len() == old(entities)@.len(),
        forall|i: int|
            0 <= i < old(entities)@.len() ==> (final(entities)@[i].current, final(entities)@[i].history@)
                == command_effect(command, old(entities)@[i].current, old(entities)@[i].history@),
{
    let ghost before = entities@;
    let mut i: usize = 0;
    while i < entities.len()
        invariant
            entities@.len() == before.len(),
            i <= before.len(),
            forall|k: int|
                0 <= k < i ==> (entities@[k].current, entities@[k].history@) == command_effect(command, before[k].current, before[k].history@),
            forall|k: int| i <= k < before.len() ==> entities@[k] == before[k],
        decreases before.len() - i,
    {
        let entry = &mut entities[i];
        entry.history.apply(command, &mut entry.current);
        i = i + 1;
    }
}

/// Recording a value and rewinding straight after gives back the value and history from
/// before the record.
pub proof fn lemma_record_then_rewind<T>(current: T, history: Seq<T>)
    ensures
        ({
            let (c, h) = command_effect(HistoryCommands::Record, current, history);
            command_effect(HistoryCommands::Rewind, c, h)
        }) == (current, history),
{
    assert(history.push(current).drop_last() =~= history);
}

/// Rewinding or resetting an entity with an empty history changes nothing.
pub proof fn lemma_empty_history_commands_are_no_ops<T>(current: T)
    ensures
        command_effect(HistoryCommands::Rewind, current, Seq::<T>::empty()) == (current, Seq::<T>::empty()),
        command_effect(HistoryCommands::Reset, current, Seq::<T>::empty()) == (current, Seq::<T>::empty()),
{
}

/// The value and history after turns that each record the current value and then move the
/// entity to the next value of `moves`.
pub open spec fn record_and_move<T>(current: T, history: Seq<T>, moves: Seq<T>) -> (T, Seq<T>)
    decreases moves.len(),
{
    if moves.len() == 0 {
        (current, history)
    } else {
        record_and_move(moves[0], history.push(current), moves.drop_first())
    }
}

/// However many turns were recorded, a reset restores the first recorded value (or the
/// value the entity started with, when nothing was recorded) and empties the history.
pub proof fn lemma_reset_after_records<T>(current: T, history: Seq<T>, moves: Seq<T>)
    ensures
        ({
            let (c, h) = record_and_move(current, history, moves);
            command_effect(HistoryCommands::Reset, c, h)
        }) == (if history.len() > 0 { history[0] } else { current }, Seq::<T>::empty()),
    decreases moves.len(),
{
    if moves.len() > 0 {
        lemma_reset_after_records(moves[0], history.push(current), moves.drop_first());
        lemma_record_and_move_len(moves[0], history.push(current), moves.drop_first());
        assert(history.push(current)[0] == (if history.len() > 0 { history[0] } else { current }));
    } else {
        if history.len() == 0 {
            assert(history =~= Seq::<T>::empty());
        }
    }
}

proof fn lemma_record_and_move_len<T>(current: T, history: Seq<T>, moves: Seq<T>)
    ensures
        record_and_move(current, history, moves).1.len() == history.len() + moves.len(),
        history.len() > 0 ==> record_and_move(current, history, moves).1[0] == history[0],
    decreases moves.len(),
{
    if moves.len() > 0 {
        lemma_record_and_move_len(moves[0], history.push(current), moves.drop_first());
    }
}

} // verus!
