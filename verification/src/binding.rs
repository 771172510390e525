//! Binding the lights of a list to the program composed from them.

use crate::error::LightingError;
use crate::light::Light;
use crate::light_id::LightId;
use crate::program::Program;
use crate::program::ProgramView;
use vstd::prelude::*;

verus! {

/// Whether `id` is an id that the light at place `k` of the list may report.
pub open spec fn identifies<L: Light>(lights: Seq<L>, k: int, id: LightId) -> bool {
    lights[k].has_id(id)
}

/// Whether the light at place `k` of the list, called for slot `k`, may take
/// the program from `before` to `after` and answer `outcome`.
pub open spec fn binding<L: Light>(
    lights: Seq<L>,
    k: int,
    before: ProgramView,
    after: ProgramView,
    outcome: Result<(), LightingError>,
) -> bool {
    lights[k].binds(k as u32, before, after, outcome)
}

/// What is reported of one light: nothing where it bound its uniforms, its
/// error where it did not.
pub open spec fn reported(outcome: Result<(), LightingError>) -> Seq<LightingError> {
    match outcome {
        Ok(_) => Seq::empty(),
        Err(e) => seq![e],
    }
}

/// What is reported of a light that does not fit its slot of the program.
pub open spec fn mismatch(k: int) -> Seq<LightingError> {
    seq![LightingError::Binding { slot: k as u32 }]
}

/// One step of binding: the light at place `k` meets a program in state
/// `before`. Where the program has a slot `k` composed for the id that the
/// light reports, the light binds its uniforms for slot `k` and its failure,
/// if any, is reported. Otherwise the program is left as it is and a binding
/// error for slot `k` is reported.
pub open spec fn bind_step<L: Light>(
    lights: Seq<L>,
    k: int,
    before: ProgramView,
    after: ProgramView,
    report: Seq<LightingError>,
) -> bool {
    if k < before.light_ids.len() {
        exists|id: LightId|
            #![trigger identifies(lights, k, id)]
            identifies(lights, k, id) && if id == before.light_ids[k] {
                exists|outcome: Result<(), LightingError>|
                    #![trigger binding(lights, k, before, after, outcome)]
                    binding(lights, k, before, after, outcome) && report == reported(outcome)
            } else {
                after == before && report == mismatch(k)
            }
    } else {
        after == before && report == mismatch(k)
    }
}

/// Whether the first `states.len() - 1` lights of the list may have taken
/// the program through these states, one step each, with these reports.
pub open spec fn bind_steps<L: Light>(
    lights: Seq<L>,
    states: Seq<ProgramView>,
    reports: Seq<Seq<LightingError>>,
) -> bool {
    &&& states.len() == reports.len() + 1
    &&& reports.len() <= lights.len()
    &&& forall|k: int|
        #![trigger reports[k]]
        0 <= k < reports.len() ==> bind_step(lights, k, states[k], states[k + 1], reports[k])
}

/// Whether binding all lights of the list, in order and each for the slot of
/// its position, may take the program from `before` to `after` and report
/// `failures`: the reports of the steps, in order.
pub open spec fn binds_all<L: Light>(
    lights: Seq<L>,
    before: ProgramView,
    after: ProgramView,
    failures: Seq<LightingError>,
) -> bool {
    exists|states: Seq<ProgramView>, reports: Seq<Seq<LightingError>>|
        #![trigger bind_steps(lights, states, reports)]
        bind_steps(lights, states, reports) && reports.len() == lights.len() && states[0] == before
            && states[lights.len() as int] == after && failures == reports.flatten()
}

/// The ids of the lights, in list order: the lights' part of the key under
/// which a composed source and its program are cached.
pub fn light_ids<L: Light>(lights: &[L]) -> (ids: Vec<LightId>)
    ensures
        ids@.len() == lights@.len(),
        forall|k: int| 0 <= k < ids@.len() ==> identifies(lights@, k, #[trigger] ids@[k]),
{
    let mut ids: Vec<LightId> = Vec::new();
    let mut k: usize = 0;
    while k < lights.len()
        invariant
            k <= lights.len(),
            ids@.len() == k,
            forall|j: int| 0 <= j < ids@.len() ==> identifies(lights@, j, #[trigger] ids@[j]),
        decreases lights.len() - k,
    {
        let id = lights[k].id();
        ids.push(id);
        k += 1;
    }
    ids
}

/// Binds the uniforms of every light of the list to the program, in list
/// order, each light for the slot of its position. A light that does not fit
/// its slot of the program is passed over with a binding error, and the
/// error of a light that fails is taken down. Neither stops the lights behind
/// it from being bound; the failures are returned in list order.
pub fn use_lights_uniforms<L: Light>(lights: &[L], program: &mut Program) -> (failures: Vec<
    LightingError,
>)
    requires
        lights@.len() <= u32::MAX,
    ensures
        binds_all(lights@, old(program)@, final(program)@, failures@),
{
    let mut failures: Vec<LightingError> = Vec::new();
    let ghost start = program@;
    let ghost mut states: Seq<ProgramView> = seq![program@];
    let ghost mut reports: Seq<Seq<LightingError>> = Seq::empty();
    let mut k: usize = 0;
    while k < lights.len()
        invariant
            k <= lights.len(),
            lights@.len() <= u32::MAX,
            reports.len() == k,
            bind_steps(lights@, states, reports),
            states[0] == start,
            states[k as int] == program@,
            failures@ == reports.flatten(),
        decreases lights.len() - k,
    {
        let ghost before = program@;
        let ghost report: Seq<LightingError>;
        match program.light_id(k) {
            None => {
                failures.push(LightingError::Binding { slot: k as u32 });
                proof {
                    report = mismatch(k as int);
                }
            },
            Some(expected) => {
                let id = lights[k].id();
                assert(identifies(lights@, k as int, id));
                if id == expected {
                    let outcome = lights[k].use_uniforms(program, k as u32);
                    assert(binding(lights@, k as int, before, program@, outcome));
                    match outcome {
                        Ok(_) => {},
                        Err(e) => {
                            failures.push(e);
                        },
                    }
                    proof {
                        report = reported(outcome);
                    }
                } else {
                    failures.push(LightingError::Binding { slot: k as u32 });
                    proof {
                        report = mismatch(k as int);
                    }
                }
            },
        }
        proof {
            assert(bind_step(lights@, k as int, before, program@, report));
            let ghost earlier = reports;
            let ghost passed = states;
            earlier.lemma_flatten_push(report);
            reports = earlier.push(report);
            states = passed.push(program@);
            assert(failures@ =~= reports.flatten());
            assert forall|j: int| 0 <= j < reports.len() implies bind_step(
                lights@,
                j,
                states[j],
                states[j + 1],
                #[trigger] reports[j],
            ) by {
                if j < earlier.len() {
                    assert(bind_step(lights@, j, passed[j], passed[j + 1], earlier[j]));
                }
            }
        }
        k += 1;
    }
    failures
}

/// Binding no lights leaves the program as it is and reports nothing.
pub proof fn binding_no_lights_changes_nothing<L: Light>(
    lights: Seq<L>,
    before: ProgramView,
    after: ProgramView,
    failures: Seq<LightingError>,
)
    requires
        lights.len() == 0,
        binds_all(lights, before, after, failures),
    ensures
        after == before,
        failures == Seq::<LightingError>::empty(),
{
    let (states, reports) = choose|states: Seq<ProgramView>, reports: Seq<Seq<LightingError>>|
        #![trigger bind_steps(lights, states, reports)]
        bind_steps(lights, states, reports) && reports.len() == lights.len() && states[0] == before
            && states[lights.len() as int] == after && failures == reports.flatten();
    assert(reports =~= Seq::<Seq<LightingError>>::empty());
    assert(reports.flatten() =~= Seq::<LightingError>::empty());
}

/// Lights are bound in list order: binding a list is binding all lights but
/// the last and then taking one step with the last light, for the slot of
/// its position; the failures of the list are those of the earlier lights
/// followed by the report of the last.
pub proof fn binding_ends_with_the_last_light<L: Light>(
    lights: Seq<L>,
    before: ProgramView,
    after: ProgramView,
    failures: Seq<LightingError>,
)
    requires
        lights.len() > 0,
        binds_all(lights, before, after, failures),
    ensures
        exists|middle: ProgramView, earlier: Seq<LightingError>, last: Seq<LightingError>|
            #![trigger binds_all(lights.drop_last(), before, middle, earlier), bind_step(lights, lights.len() - 1, middle, after, last)]
            binds_all(lights.drop_last(), before, middle, earlier) && bind_step(
                lights,
                lights.len() - 1,
                middle,
                after,
                last,
            ) && failures == earlier + last,
{
    let (states, reports) = choose|states: Seq<ProgramView>, reports: Seq<Seq<LightingError>>|
        #![trigger bind_steps(lights, states, reports)]
        bind_steps(lights, states, reports) && reports.len() == lights.len() && states[0] == before
            && states[lights.len() as int] == after && failures == reports.flatten();
    let n = lights.len() - 1;
    let init = lights.drop_last();
    let middle = states[n];
    let last = reports[n];
    let states0 = states.drop_last();
    let reports0 = reports.drop_last();
    assert(bind_step(lights, n, middle, after, last));
    assert forall|k: int| 0 <= k < reports0.len() implies bind_step(
        init,
        k,
        states0[k],
        states0[k + 1],
        #[trigger] reports0[k],
    ) by {
        assert(bind_step(lights, k, states[k], states[k + 1], reports[k]));
        assert(init[k] == lights[k]);
        if k < states[k].light_ids.len() {
            let id = choose|id: LightId|
                #![trigger identifies(lights, k, id)]
                identifies(lights, k, id) && if id == states[k].light_ids[k] {
                    exists|outcome: Result<(), LightingError>|
                        #![trigger binding(lights, k, states[k], states[k + 1], outcome)]
                        binding(lights, k, states[k], states[k + 1], outcome) && reports[k]
                            == reported(outcome)
                } else {
                    states[k + 1] == states[k] && reports[k] == mismatch(k)
                };
            assert(identifies(init, k, id));
            if id == states[k].light_ids[k] {
                let outcome = choose|outcome: Result<(), LightingError>|
                    #![trigger binding(lights, k, states[k], states[k + 1], outcome)]
                    binding(lights, k, states[k], states[k + 1], outcome) && reports[k]
                        == reported(outcome);
                assert(binding(init, k, states[k], states[k + 1], outcome));
            }
        }
    }
    assert(bind_steps(init, states0, reports0));
    assert(reports =~= reports0.push(last));
    reports0.lemma_flatten_push(last);
    assert(binds_all(init, before, middle, reports0.flatten()));
}

} // verus!
