//! What the sequencer guarantees, proved about the model of a tick.
//!
//! Some guarantees speak of a single tick, others of a run of ticks. A run
//! is a sequence of tick inputs, applied in order; an activation of a state
//! lasts for as long as no tick of the run selects a transition.

use crate::clock::Timestamp;
use crate::data_acquisition::DataWorkspace;
use crate::data_format::{Seconds, MAX_COMMANDS_PER_STATE};
use crate::graph::{graph_valid, Check, StateId, StateView};
use crate::model::{
    first_selected, lemma_first_selected_none, lemma_tick_wf, MachineView,
};
use vstd::prelude::*;

verus! {

/// What one tick is given: the instant the clock shows and the readings.
pub struct TickInput {
    pub now: Timestamp,
    pub data: DataWorkspace,
}

impl MachineView {
    /// The engine after the ticks `ticks`, applied in order.
    pub open spec fn run(self, ticks: Seq<TickInput>) -> MachineView
        decreases ticks.len(),
    {
        if ticks.len() == 0 {
            self
        } else {
            self.run(ticks.drop_last()).tick(ticks.last().now, ticks.last().data)
        }
    }

    /// Whether the engine stays in its state throughout `ticks`: none of
    /// the ticks selects a transition.
    pub open spec fn stays(self, ticks: Seq<TickInput>) -> bool {
        forall|k: int|
            0 <= k < ticks.len() ==> (#[trigger] self.run(ticks.take(k))).selected(
                ticks[k].now,
                ticks[k].data,
            ) is None
    }

    /// Whether, counted from the entry into the current state, `delay` had
    /// passed at one of the ticks `ticks`.
    pub open spec fn due_during(self, delay: Seconds, ticks: Seq<TickInput>) -> bool {
        exists|j: int|
            0 <= j < ticks.len() && self.elapsed((#[trigger] ticks[j]).now).reaches(delay)
    }

    /// Whether no check of the current state is satisfied by `data`.
    pub open spec fn no_check_satisfied(self, data: DataWorkspace) -> bool {
        forall|c: int|
            0 <= c < self.state().checks.len() ==> !(#[trigger] self.state().checks[c]).satisfied(
                data,
            )
    }
}

/// An engine that is started on a valid graph, in a state of that graph, is
/// well formed.
pub proof fn lemma_initial_wf(graph: Seq<StateView>, begin: StateId, now: Timestamp)
    requires
        graph_valid(graph),
        begin.0 < graph.len(),
    ensures
        MachineView::initial(graph, begin, now).wf(),
{
}

/// Whatever the ticks, a well-formed engine stays well formed and keeps its
/// graph and the instant at which it was started.
pub proof fn lemma_run_wf(m: MachineView, ticks: Seq<TickInput>)
    requires
        m.wf(),
    ensures
        m.run(ticks).wf(),
        m.run(ticks).graph == m.graph,
        m.run(ticks).start_time == m.start_time,
    decreases ticks.len(),
{
    if ticks.len() > 0 {
        lemma_run_wf(m, ticks.drop_last());
        lemma_tick_wf(m.run(ticks.drop_last()), ticks.last().now, ticks.last().data);
    }
}

/// The earliest check wins. If the check at `index` selects a transition
/// and no check declared before it does, that transition is the one found,
/// whatever the checks declared after it say.
pub proof fn lemma_earliest_check_wins(
    checks: Seq<Check>,
    data: DataWorkspace,
    from: int,
    index: int,
)
    requires
        0 <= from <= index < checks.len(),
        checks[index].selects(data),
        forall|j: int| from <= j < index ==> !(#[trigger] checks[j]).selects(data),
    ensures
        first_selected(checks, data, from) == checks[index].transition,
    decreases index - from,
{
    if from < index {
        lemma_earliest_check_wins(checks, data, from + 1, index);
    }
}

/// Of two checks of the current state that both select a transition, the
/// tick takes that of the one declared first, provided that no check
/// declared before it selects one: the later check, the timeout and the
/// clock have no say.
pub proof fn lemma_tick_takes_earliest_check(
    m: MachineView,
    now: Timestamp,
    data: DataWorkspace,
    first: int,
    second: int,
)
    requires
        m.wf(),
        0 <= first < second < m.state().checks.len(),
        m.state().checks[first].selects(data),
        m.state().checks[second].selects(data),
        forall|j: int| 0 <= j < first ==> !(#[trigger] m.state().checks[j]).selects(data),
    ensures
        m.selected(now, data) == m.state().checks[first].transition,
        m.tick(now, data).current_state == m.state().checks[first].transition->Some_0.destination(),
        m.tick(now, data).last_transition_time == now,
{
    lemma_earliest_check_wins(m.state().checks, data, 0, first);
}

/// A tick on which nothing is due is idle. If no check of the current state
/// is satisfied and its timeout, if it has one, has not run out, the tick
/// changes neither the state the engine is in nor the instant that state
/// was entered, and reports no event; all it does is dispatch.
pub proof fn lemma_idle_tick(m: MachineView, now: Timestamp, data: DataWorkspace)
    requires
        m.wf(),
        m.no_check_satisfied(data),
        m.timed_out(now) is None,
    ensures
        m.selected(now, data) is None,
        m.event(now, data) is None,
        m.tick(now, data) == m.after_dispatch(now),
        m.tick(now, data).current_state == m.current_state,
        m.tick(now, data).last_transition_time == m.last_transition_time,
{
    lemma_first_selected_none(m.state().checks, data, 0);
}

/// Within a tick, the command in a slot is dispatched exactly when it has
/// not been dispatched since the state was entered and its delay has
/// passed; once dispatched, it is marked.
pub proof fn lemma_command_dispatch(m: MachineView, now: Timestamp, index: int)
    requires
        m.wf(),
        0 <= index < m.state().commands.len(),
    ensures
        m.dispatched(now)[index] is Some <==> !m.was_executed[index] && m.elapsed(now).reaches(
            m.state().commands[index].delay,
        ),
        m.dispatched(now)[index] is Some ==> m.dispatched(now)[index] == Some(
            m.state().commands[index].object,
        ),
        m.dispatched(now)[index] is Some ==> m.after_dispatch(now).was_executed[index],
        m.was_executed[index] ==> m.after_dispatch(now).was_executed[index],
{
}

/// A run that stays in the state does so over each of its prefixes.
pub proof fn lemma_stays_prefix(m: MachineView, ticks: Seq<TickInput>, n: int)
    requires
        m.stays(ticks),
        0 <= n <= ticks.len(),
    ensures
        m.stays(ticks.take(n)),
{
    assert forall|k: int| 0 <= k < n implies (#[trigger] m.run(ticks.take(n).take(k))).selected(
        ticks.take(n)[k].now,
        ticks.take(n)[k].data,
    ) is None by {
        assert(ticks.take(n).take(k) =~= ticks.take(k));
    }
}

/// Throughout an activation the engine stays as it was but for its marks,
/// and the command in a slot is marked exactly if it was marked before or
/// its delay had passed at one of the ticks.
pub proof fn lemma_activation(m: MachineView, ticks: Seq<TickInput>)
    requires
        m.wf(),
        m.stays(ticks),
    ensures
        m.run(ticks).wf(),
        m.run(ticks).graph == m.graph,
        m.run(ticks).current_state == m.current_state,
        m.run(ticks).start_time == m.start_time,
        m.run(ticks).last_transition_time == m.last_transition_time,
        forall|i: int|
            0 <= i < m.state().commands.len() ==> #[trigger] m.run(ticks).was_executed[i] == (
            m.was_executed[i] || m.due_during(m.state().commands[i].delay, ticks)),
    decreases ticks.len(),
{
    if ticks.len() > 0 {
        let init = ticks.drop_last();
        let last = ticks.last();
        lemma_stays_prefix(m, ticks, ticks.len() - 1);
        lemma_activation(m, init);
        lemma_tick_wf(m.run(init), last.now, last.data);
        assert forall|i: int| 0 <= i < m.state().commands.len() implies #[trigger] m.run(
            ticks,
        ).was_executed[i] == (m.was_executed[i] || m.due_during(
            m.state().commands[i].delay,
            ticks,
        )) by {
            let delay = m.state().commands[i].delay;
            if m.due_during(delay, ticks) {
                let j = choose|j: int|
                    0 <= j < ticks.len() && m.elapsed((#[trigger] ticks[j]).now).reaches(delay);
                if j < init.len() {
                    assert(init[j] == ticks[j]);
                }
            }
        }
    }
}

/// A command fires on the first tick of the activation at which its delay
/// has passed, and on no other. Take an engine in which the command in slot
/// `index` has not been dispatched, and a run that stays in the state for
/// its first `k` ticks. Then tick `k` dispatches the command exactly if the
/// delay has passed at tick `k` and had not passed at any tick before.
pub proof fn lemma_command_fires_on_first_due_tick(
    m: MachineView,
    ticks: Seq<TickInput>,
    k: int,
    index: int,
)
    requires
        m.wf(),
        0 <= index < m.state().commands.len(),
        !m.was_executed[index],
        0 <= k < ticks.len(),
        m.stays(ticks.take(k)),
    ensures
        m.run(ticks.take(k)).fires(index, ticks[k].now) <==> (m.elapsed(ticks[k].now).reaches(
            m.state().commands[index].delay,
        ) && forall|j: int|
            0 <= j < k ==> !m.elapsed((#[trigger] ticks[j]).now).reaches(
                m.state().commands[index].delay,
            )),
{
    let delay = m.state().commands[index].delay;
    let prefix = ticks.take(k);
    lemma_activation(m, prefix);
    if !m.due_during(delay, prefix) {
        assert forall|j: int| 0 <= j < k implies !m.elapsed((#[trigger] ticks[j]).now).reaches(
            delay,
        ) by {
            assert(prefix[j] == ticks[j]);
        }
    }
}

/// A command fires at most once per activation: of two ticks of a run that
/// stays in the state, at most one dispatches the command in a given slot.
pub proof fn lemma_command_fires_at_most_once(
    m: MachineView,
    ticks: Seq<TickInput>,
    earlier: int,
    later: int,
    index: int,
)
    requires
        m.wf(),
        0 <= index < m.state().commands.len(),
        0 <= earlier < later < ticks.len(),
        m.stays(ticks.take(later)),
    ensures
        !(m.run(ticks.take(earlier)).fires(index, ticks[earlier].now) && m.run(
            ticks.take(later),
        ).fires(index, ticks[later].now)),
{
    let prefix = ticks.take(later);
    lemma_activation(m, prefix);
    lemma_stays_prefix(m, prefix, earlier);
    assert(prefix.take(earlier) =~= ticks.take(earlier));
    lemma_activation(m, ticks.take(earlier));
    if m.run(ticks.take(earlier)).fires(index, ticks[earlier].now) {
        assert(prefix[earlier] == ticks[earlier]);
    }
}

/// Entering a state makes its commands eligible again. Once a tick has
/// applied a transition, no command of the state entered counts as
/// dispatched, whether or not the engine had been in that state before, and
/// the next tick dispatches each of its commands whose delay has passed
/// since the entry.
pub proof fn lemma_entry_resets_commands(
    m: MachineView,
    now: Timestamp,
    data: DataWorkspace,
    next: Timestamp,
    index: int,
)
    requires
        m.wf(),
        m.selected(now, data) is Some,
        0 <= index < MAX_COMMANDS_PER_STATE,
    ensures
        m.tick(now, data).current_state == m.selected(now, data)->Some_0.destination(),
        m.tick(now, data).last_transition_time == now,
        !m.tick(now, data).was_executed[index],
        m.tick(now, data).fires(index, next) <==> (index < m.tick(
            now,
            data,
        ).state().commands.len() && now.until(next).reaches(
            m.tick(now, data).state().commands[index].delay,
        )),
{
}

/// The timeout is the fallback. If no check of the current state is
/// satisfied and the timeout has run out, the tick takes the timeout's
/// transition.
pub proof fn lemma_timeout_taken(m: MachineView, now: Timestamp, data: DataWorkspace)
    requires
        m.wf(),
        m.no_check_satisfied(data),
        m.state().timeout is Some,
        m.elapsed(now).reaches(m.state().timeout->Some_0.time),
    ensures
        m.selected(now, data) == Some(m.state().timeout->Some_0.transition),
        m.tick(now, data).current_state == m.state().timeout->Some_0.transition.destination(),
        m.tick(now, data).last_transition_time == now,
        m.event(now, data) == Some(
            m.state().timeout->Some_0.transition.event_from(m.current_state),
        ),
{
    lemma_first_selected_none(m.state().checks, data, 0);
}

/// While no check is satisfied and the timeout has not run out, the engine
/// stays in its state.
pub proof fn lemma_stays_until_timeout(m: MachineView, ticks: Seq<TickInput>)
    requires
        m.wf(),
        forall|j: int| 0 <= j < ticks.len() ==> m.no_check_satisfied((#[trigger] ticks[j]).data),
        forall|j: int| 0 <= j < ticks.len() ==> m.timed_out((#[trigger] ticks[j]).now) is None,
    ensures
        m.stays(ticks),
    decreases ticks.len(),
{
    if ticks.len() > 0 {
        let init = ticks.drop_last();
        lemma_stays_until_timeout(m, init);
        assert forall|k: int| 0 <= k < ticks.len() implies (#[trigger] m.run(
            ticks.take(k),
        )).selected(ticks[k].now, ticks[k].data) is None by {
            if k < init.len() {
                assert(ticks.take(k) =~= init.take(k));
            } else {
                lemma_activation(m, init);
                lemma_idle_tick(m.run(init), ticks[k].now, ticks[k].data);
            }
        }
    }
}

/// The timeout is taken on the first tick at or after its duration. Take a
/// run in which no check of the current state is satisfied up to and
/// including tick `k`, and in which the timeout has run out at tick `k` and
/// not before. Then the engine is still in its state when tick `k` begins,
/// and tick `k` takes the timeout's transition.
pub proof fn lemma_timeout_on_first_tick_after_duration(
    m: MachineView,
    ticks: Seq<TickInput>,
    k: int,
)
    requires
        m.wf(),
        m.state().timeout is Some,
        0 <= k < ticks.len(),
        forall|j: int| 0 <= j <= k ==> m.no_check_satisfied((#[trigger] ticks[j]).data),
        forall|j: int|
            0 <= j < k ==> !m.elapsed((#[trigger] ticks[j]).now).reaches(
                m.state().timeout->Some_0.time,
            ),
        m.elapsed(ticks[k].now).reaches(m.state().timeout->Some_0.time),
    ensures
        m.stays(ticks.take(k)),
        m.run(ticks.take(k)).current_state == m.current_state,
        m.run(ticks.take(k)).last_transition_time == m.last_transition_time,
        m.run(ticks.take(k + 1)).current_state
            == m.state().timeout->Some_0.transition.destination(),
        m.run(ticks.take(k + 1)).last_transition_time == ticks[k].now,
        m.run(ticks.take(k)).event(ticks[k].now, ticks[k].data) == Some(
            m.state().timeout->Some_0.transition.event_from(m.current_state),
        ),
{
    let prefix = ticks.take(k);
    lemma_stays_until_timeout(m, prefix);
    lemma_activation(m, prefix);
    lemma_timeout_taken(m.run(prefix), ticks[k].now, ticks[k].data);
    assert(ticks.take(k + 1).drop_last() =~= prefix);
}

} // verus!
