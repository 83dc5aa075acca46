//! What holds of the admission gate and of the registrations that share it,
//! whatever the order in which they advance.

use vstd::prelude::*;
use crate::gate::AdmissionGate;
use crate::pipeline::{username_constraint, Action, Event, Pipeline, PipelineOutcome};
use crate::text::is_blank;

verus! {

/// The number of slots that one registration holds: one or none.
pub open spec fn slots_of(pipeline: Pipeline) -> nat {
    if pipeline.holds_slot() {
        1
    } else {
        0
    }
}

/// The number of registrations among `pipelines` that are hashing.
pub open spec fn hashing_count(pipelines: Seq<Pipeline>) -> nat
    decreases pipelines.len(),
{
    if pipelines.len() == 0 {
        0
    } else {
        hashing_count(pipelines.drop_last()) + slots_of(pipelines.last())
    }
}

/// Some report of the driver takes `pipeline` to `next` and the admission gate
/// from `gate` to `gate_after`.
pub open spec fn can_step(
    pipeline: Pipeline,
    gate: AdmissionGate,
    next: Pipeline,
    gate_after: AdmissionGate,
) -> bool {
    exists|event: Event, action: Action|
        pipeline.expects(event) && #[trigger] pipeline.steps_to(
            event,
            &gate,
            next,
            action,
            &gate_after,
        )
}

/// `stages` are the stages that one registration runs through, and `gates`
/// the states of a gate that it alone uses, one for each stage.
pub open spec fn is_run(stages: Seq<Pipeline>, gates: Seq<AdmissionGate>) -> bool {
    &&& stages.len() >= 1
    &&& stages.len() == gates.len()
    &&& forall|k: int|
        0 <= k < stages.len() - 1 ==> can_step(
            #[trigger] stages[k],
            gates[k],
            stages[k + 1],
            gates[k + 1],
        )
}

proof fn lemma_count_update(pipelines: Seq<Pipeline>, i: int, next: Pipeline)
    requires
        0 <= i < pipelines.len(),
    ensures
        hashing_count(pipelines.update(i, next)) + slots_of(pipelines[i]) == hashing_count(
            pipelines,
        ) + slots_of(next),
    decreases pipelines.len(),
{
    if i == pipelines.len() - 1 {
        assert(pipelines.update(i, next).drop_last() =~= pipelines.drop_last());
    } else {
        lemma_count_update(pipelines.drop_last(), i, next);
        assert(pipelines.update(i, next).drop_last() =~= pipelines.drop_last().update(i, next));
    }
}

proof fn lemma_count_below_len(pipelines: Seq<Pipeline>)
    ensures
        hashing_count(pipelines) <= pipelines.len(),
    decreases pipelines.len(),
{
    if pipelines.len() > 0 {
        lemma_count_below_len(pipelines.drop_last());
    }
}

proof fn lemma_count_with_idle(pipelines: Seq<Pipeline>, i: int)
    requires
        0 <= i < pipelines.len(),
        !pipelines[i].holds_slot(),
    ensures
        hashing_count(pipelines) < pipelines.len(),
    decreases pipelines.len(),
{
    if i == pipelines.len() - 1 {
        lemma_count_below_len(pipelines.drop_last());
    } else {
        lemma_count_with_idle(pipelines.drop_last(), i);
    }
}

/// A request whose user name is blank is answered as invalid at its first
/// step, and the admission gate is left as it was: no slot is taken for it.
pub proof fn law_blank_username_takes_no_slot(
    pipeline: Pipeline,
    event: Event,
    gate: AdmissionGate,
    next: Pipeline,
    action: Action,
    gate_after: AdmissionGate,
)
    requires
        pipeline matches Pipeline::Validating { request, .. } && is_blank(request.username@),
        pipeline.steps_to(event, &gate, next, action, &gate_after),
    ensures
        action matches Action::Reply(outcome) && outcome is InvalidInput,
        next is Done,
        !next.holds_slot(),
        gate_after == gate,
{
}

/// One step changes the number of held slots by what the registration takes
/// or gives back, and by nothing else; a registration that is done holds none.
pub proof fn law_step_keeps_slot_balance(
    pipeline: Pipeline,
    event: Event,
    gate: AdmissionGate,
    next: Pipeline,
    action: Action,
    gate_after: AdmissionGate,
)
    requires
        pipeline.steps_to(event, &gate, next, action, &gate_after),
    ensures
        gate_after.spec_in_use() + slots_of(pipeline) == gate.spec_in_use() + slots_of(next),
        gate_after.spec_capacity() == gate.spec_capacity(),
        next is Done <==> action is Reply || action is Abandon,
        next is Done ==> slots_of(next) == 0,
{
}

/// While the held slots of the admission gate are those of the registrations
/// that are hashing, every step of any of them keeps it so: the number of
/// registrations that hash at one time never exceeds the admission gate's
/// capacity.
pub proof fn law_hashing_within_capacity(
    pipelines: Seq<Pipeline>,
    i: int,
    event: Event,
    gate: AdmissionGate,
    next: Pipeline,
    action: Action,
    gate_after: AdmissionGate,
)
    requires
        gate.wf(),
        hashing_count(pipelines) == gate.spec_in_use(),
        0 <= i < pipelines.len(),
        pipelines[i].steps_to(event, &gate, next, action, &gate_after),
    ensures
        gate_after.wf(),
        hashing_count(pipelines.update(i, next)) == gate_after.spec_in_use(),
        hashing_count(pipelines.update(i, next)) <= gate_after.spec_capacity(),
{
    lemma_count_update(pipelines, i, next);
    law_step_keeps_slot_balance(pipelines[i], event, gate, next, action, gate_after);
}

/// A registration that arrives changes nothing in the count of those that
/// hash.
pub proof fn law_arrival_keeps_count(pipelines: Seq<Pipeline>, arrival: Pipeline)
    requires
        arrival is Validating,
    ensures
        hashing_count(pipelines.push(arrival)) == hashing_count(pipelines),
        hashing_count(Seq::<Pipeline>::empty()) == 0,
{
    assert(pipelines.push(arrival).drop_last() =~= pipelines);
}

/// None of `pipelines` has found every slot held.
pub open spec fn none_has_waited(pipelines: Seq<Pipeline>) -> bool {
    forall|k: int|
        0 <= k < pipelines.len() ==> !(#[trigger] pipelines[k] matches Pipeline::AwaitingSlot {
            waited: true,
            ..
        })
}

/// Where no more registrations are in flight than the open admission gate
/// has slots, none of them is ever answered as overloaded: a registration
/// that tries for a slot is admitted at once, so none waits, and the timeout
/// of one that has not waited does not run out. Every step of any of them
/// keeps it so.
pub proof fn law_no_overload_within_capacity(
    pipelines: Seq<Pipeline>,
    i: int,
    event: Event,
    gate: AdmissionGate,
    next: Pipeline,
    action: Action,
    gate_after: AdmissionGate,
)
    requires
        gate.wf(),
        !gate.spec_closed(),
        hashing_count(pipelines) == gate.spec_in_use(),
        pipelines.len() <= gate.spec_capacity(),
        none_has_waited(pipelines),
        0 <= i < pipelines.len(),
        pipelines[i].expects(event),
        pipelines[i].steps_to(event, &gate, next, action, &gate_after),
    ensures
        action != Action::Reply(PipelineOutcome::Overloaded),
        pipelines[i] is AwaitingSlot && event is Attempt ==> next is Hashing && action is Hash,
        none_has_waited(pipelines.update(i, next)),
        !gate_after.spec_closed(),
        hashing_count(pipelines.update(i, next)) == gate_after.spec_in_use(),
        pipelines.update(i, next).len() <= gate_after.spec_capacity(),
{
    lemma_count_update(pipelines, i, next);
    if pipelines[i] is AwaitingSlot {
        lemma_count_with_idle(pipelines, i);
    }
    assert(pipelines[i] matches Pipeline::AwaitingSlot { waited, .. } ==> !waited);
    let after = pipelines.update(i, next);
    assert forall|k: int| 0 <= k < after.len() implies !(#[trigger] after[k] matches Pipeline::AwaitingSlot {
        waited: true,
        ..
    }) by {
        if k != i {
            assert(after[k] == pipelines[k]);
        }
    }
}

/// Two registrations of one name are both handed to the store, and the store
/// alone decides between them: the one whose insert it accepted is answered
/// as created, with the row that the store returned, and the one that ran
/// into the store's uniqueness constraint is answered as taken. Neither step
/// touches the slots.
pub proof fn law_store_decides_between_equal_names(
    accepted: Event,
    refused: Event,
    gate: AdmissionGate,
    first_next: Pipeline,
    first_action: Action,
    gate_between: AdmissionGate,
    second_next: Pipeline,
    second_action: Action,
    gate_after: AdmissionGate,
)
    requires
        accepted is Inserted,
        refused matches Event::StoreRejected { constraint: Some(name) } && name@
            == username_constraint(),
        Pipeline::Persisting.steps_to(accepted, &gate, first_next, first_action, &gate_between),
        Pipeline::Persisting.steps_to(
            refused,
            &gate_between,
            second_next,
            second_action,
            &gate_after,
        ),
    ensures
        first_action matches Action::Reply(PipelineOutcome::Created(record)) && record.id
            == accepted->id && record.username == accepted->username,
        second_action == Action::Reply(PipelineOutcome::UsernameTaken),
        first_next is Done,
        second_next is Done,
        gate_after == gate,
{
}

/// A registration arrives: it joins those in flight, and the slots are left
/// as they were.
pub open spec fn arrives(
    before: Seq<Pipeline>,
    gate: AdmissionGate,
    after: Seq<Pipeline>,
    gate_after: AdmissionGate,
) -> bool {
    &&& gate_after == gate
    &&& after.len() == before.len() + 1
    &&& after.last() is Validating
    &&& after.drop_last() == before
}

/// The admission gate is shut: those in flight and the held slots are left as
/// they were.
pub open spec fn shuts(
    before: Seq<Pipeline>,
    gate: AdmissionGate,
    after: Seq<Pipeline>,
    gate_after: AdmissionGate,
) -> bool {
    &&& after == before
    &&& gate_after.spec_closed()
    &&& gate_after.spec_capacity() == gate.spec_capacity()
    &&& gate_after.spec_in_use() == gate.spec_in_use()
}

/// The registration at `i` is told `event`, takes its step and asks for
/// `action`; the others are left as they were.
pub open spec fn advances(
    before: Seq<Pipeline>,
    gate: AdmissionGate,
    after: Seq<Pipeline>,
    gate_after: AdmissionGate,
    i: int,
    event: Event,
    action: Action,
) -> bool {
    &&& 0 <= i < before.len()
    &&& after.len() == before.len()
    &&& before[i].expects(event)
    &&& before[i].steps_to(event, &gate, after[i], action, &gate_after)
    &&& after == before.update(i, after[i])
}

/// One move of the service: a registration arrives, one of those in flight
/// takes a step, or the admission gate is shut.
pub open spec fn moves(
    before: Seq<Pipeline>,
    gate: AdmissionGate,
    after: Seq<Pipeline>,
    gate_after: AdmissionGate,
) -> bool {
    ||| arrives(before, gate, after, gate_after)
    ||| shuts(before, gate, after, gate_after)
    ||| exists|i: int, event: Event, action: Action| #[trigger]
        advances(before, gate, after, gate_after, i, event, action)
}

/// `sets` and `gates` are a history of the service: it starts with nobody in
/// flight and every slot free, and each moment follows from the one before by
/// one move. Registrations advance in any order; one that is done stays in
/// the set.
pub open spec fn is_history(sets: Seq<Seq<Pipeline>>, gates: Seq<AdmissionGate>) -> bool {
    &&& sets.len() >= 1
    &&& sets.len() == gates.len()
    &&& sets[0].len() == 0
    &&& gates[0].spec_in_use() == 0
    &&& forall|k: int|
        0 <= k < sets.len() - 1 ==> moves(#[trigger] sets[k], gates[k], sets[k + 1], gates[k + 1])
}

/// At every moment of every history the registrations that are hashing are
/// as many as the slots held, and never more than the admission gate has slots:
/// whatever the order of the steps, and whoever failed or went away.
pub proof fn law_history_hashing_within_capacity(
    sets: Seq<Seq<Pipeline>>,
    gates: Seq<AdmissionGate>,
    k: int,
)
    requires
        is_history(sets, gates),
        0 <= k < sets.len(),
    ensures
        hashing_count(sets[k]) == gates[k].spec_in_use(),
        hashing_count(sets[k]) <= gates[k].spec_capacity(),
        gates[k].spec_capacity() == gates[0].spec_capacity(),
    decreases k,
{
    if k > 0 {
        law_history_hashing_within_capacity(sets, gates, k - 1);
        let before = sets[k - 1];
        let after = sets[k];
        assert(moves(before, gates[k - 1], after, gates[k]));
        if arrives(before, gates[k - 1], after, gates[k]) {
            law_arrival_keeps_count(before, after.last());
            assert(after =~= before.push(after.last()));
        } else if shuts(before, gates[k - 1], after, gates[k]) {
        } else {
            let (i, event, action) = choose|i: int, event: Event, action: Action| #[trigger]
                advances(before, gates[k - 1], after, gates[k], i, event, action);
            law_hashing_within_capacity(before, i, event, gates[k - 1], after[i], action, gates[k]);
            law_step_keeps_slot_balance(before[i], event, gates[k - 1], after[i], action, gates[k]);
        }
    }
}

/// The history never holds more registrations than the admission gate has
/// slots, and the admission gate is never shut.
pub open spec fn stays_within_capacity(
    sets: Seq<Seq<Pipeline>>,
    gates: Seq<AdmissionGate>,
) -> bool {
    &&& forall|j: int| 0 <= j < sets.len() ==> (#[trigger] sets[j]).len() <= gates[0].spec_capacity()
    &&& forall|j: int| 0 <= j < gates.len() ==> !(#[trigger] gates[j]).spec_closed()
}

proof fn lemma_history_none_waited(sets: Seq<Seq<Pipeline>>, gates: Seq<AdmissionGate>, k: int)
    requires
        is_history(sets, gates),
        stays_within_capacity(sets, gates),
        0 <= k < sets.len(),
    ensures
        none_has_waited(sets[k]),
    decreases k,
{
    if k > 0 {
        lemma_history_none_waited(sets, gates, k - 1);
        law_history_hashing_within_capacity(sets, gates, k - 1);
        let before = sets[k - 1];
        let after = sets[k];
        assert(moves(before, gates[k - 1], after, gates[k]));
        assert(!gates[k - 1].spec_closed());
        assert(!gates[k].spec_closed());
        if arrives(before, gates[k - 1], after, gates[k]) {
            assert forall|j: int| 0 <= j < after.len() implies !(
            #[trigger] after[j] matches Pipeline::AwaitingSlot { waited: true, .. }) by {
                if j < before.len() {
                    assert(after[j] == after.drop_last()[j]);
                }
            }
        } else if shuts(before, gates[k - 1], after, gates[k]) {
        } else {
            let (i, event, action) = choose|i: int, event: Event, action: Action| #[trigger]
                advances(before, gates[k - 1], after, gates[k], i, event, action);
            law_no_overload_within_capacity(
                before,
                i,
                event,
                gates[k - 1],
                after[i],
                action,
                gates[k],
            );
        }
    }
}

/// In a history that never holds more registrations than the open admission
/// gate has slots, no step of any registration is answered as overloaded, and a
/// registration that tries for a slot gets it at once: whatever the order of
/// the steps.
pub proof fn law_history_no_overload(
    sets: Seq<Seq<Pipeline>>,
    gates: Seq<AdmissionGate>,
    k: int,
    i: int,
    event: Event,
    action: Action,
)
    requires
        is_history(sets, gates),
        stays_within_capacity(sets, gates),
        0 <= k < sets.len() - 1,
        advances(sets[k], gates[k], sets[k + 1], gates[k + 1], i, event, action),
    ensures
        action != Action::Reply(PipelineOutcome::Overloaded),
        action != Action::Wait || sets[k][i] is Hashing,
        sets[k][i] is AwaitingSlot && event is Attempt ==> sets[k + 1][i] is Hashing,
{
    lemma_history_none_waited(sets, gates, k);
    law_history_hashing_within_capacity(sets, gates, k);
    assert(!gates[k].spec_closed());
    law_no_overload_within_capacity(
        sets[k],
        i,
        event,
        gates[k],
        sets[k + 1][i],
        action,
        gates[k + 1],
    );
}

proof fn lemma_run_balance(stages: Seq<Pipeline>, gates: Seq<AdmissionGate>, k: int)
    requires
        is_run(stages, gates),
        0 <= k < stages.len(),
    ensures
        gates[k].spec_in_use() + slots_of(stages[0]) == gates[0].spec_in_use() + slots_of(
            stages[k],
        ),
        gates[k].spec_capacity() == gates[0].spec_capacity(),
    decreases k,
{
    if k > 0 {
        lemma_run_balance(stages, gates, k - 1);
        assert(can_step(stages[k - 1], gates[k - 1], stages[k], gates[k]));
        let (event, action) = choose|event: Event, action: Action|
            stages[k - 1].expects(event) && #[trigger] stages[k - 1].steps_to(
                event,
                &gates[k - 1],
                stages[k],
                action,
                &gates[k],
            );
        law_step_keeps_slot_balance(stages[k - 1], event, gates[k - 1], stages[k], action, gates[k]);
    }
}

/// A registration that has run from its arrival to its end, however it
/// ended, leaves as many slots held as it found: none leaks.
pub proof fn law_slot_returned(stages: Seq<Pipeline>, gates: Seq<AdmissionGate>)
    requires
        is_run(stages, gates),
        stages[0] is Validating,
        stages.last() is Done,
    ensures
        gates.last().spec_in_use() == gates[0].spec_in_use(),
        gates.last().spec_capacity() == gates[0].spec_capacity(),
{
    lemma_run_balance(stages, gates, stages.len() - 1);
}

} // verus!
