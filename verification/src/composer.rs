//! The shader composer: one lighting function out of a list of lights.

use crate::decimal::decimal;
use crate::decimal::decimal_is_injective;
use crate::decimal::push_decimal;
use crate::error::LightingError;
use crate::light::source_view;
use crate::light::Light;
use crate::source::DISPATCH_HEAD;
use crate::source::DISPATCH_TAIL;
use crate::source::LIGHT_SHARED_SOURCE;
use crate::source::SHARED_SOURCE;
use crate::source::STATEMENT_HEAD;
use crate::source::STATEMENT_TAIL;
use vstd::prelude::*;

verus! {

/// The statement that adds the contribution of the light in slot `i`.
pub open spec fn accumulation_statement(i: nat) -> Seq<char> {
    STATEMENT_HEAD@ + decimal(i) + STATEMENT_TAIL@
}

/// The accumulation statements of `n` lights, in slot order.
pub open spec fn accumulation_statements(n: nat) -> Seq<Seq<char>> {
    Seq::new(n, |i: int| accumulation_statement(i as nat))
}

/// The function `calculate_lighting` for `n` lights: it starts from a zero
/// colour, adds the contribution of each slot in order and returns the sum.
pub open spec fn dispatch_function(n: nat) -> Seq<char> {
    DISPATCH_HEAD@ + accumulation_statements(n).flatten() + DISPATCH_TAIL@
}

/// The complete source for the given fragments: the shared preamble, the
/// light interface, the fragments in order and the dispatch function.
pub open spec fn shader_text(fragments: Seq<Seq<char>>) -> Seq<char> {
    SHARED_SOURCE@ + LIGHT_SHARED_SOURCE@ + fragments.flatten() + dispatch_function(
        fragments.len(),
    )
}

/// The texts of a list of strings.
pub open spec fn texts(fragments: Seq<String>) -> Seq<Seq<char>> {
    fragments.map_values(|s: String| s@)
}

/// Whether `answer` is an answer that the light at place `k` of the list may
/// give when it is asked for slot `k`.
pub open spec fn answers<L: Light>(
    lights: Seq<L>,
    k: int,
    answer: Result<Seq<char>, LightingError>,
) -> bool {
    lights[k].emits(k as u32, answer)
}

/// Whether the first lights of the list may have answered with these
/// fragments, each asked for the slot of its position.
pub open spec fn gave_fragments<L: Light>(lights: Seq<L>, fragments: Seq<Seq<char>>) -> bool {
    &&& fragments.len() <= lights.len()
    &&& forall|k: int|
        #![trigger fragments[k]]
        0 <= k < fragments.len() ==> answers(lights, k, Ok(fragments[k]))
}

/// Whether `outcome` is a composition of the lights' answers: the source for
/// the fragments of all lights, or the failure of the first light that
/// failed, after every light before it gave its fragment.
pub open spec fn composes<L: Light>(lights: Seq<L>, outcome: Result<Seq<char>, LightingError>) -> bool {
    match outcome {
        Ok(text) => exists|fragments: Seq<Seq<char>>|
            #![trigger gave_fragments(lights, fragments)]
            fragments.len() == lights.len() && gave_fragments(lights, fragments) && text
                == shader_text(fragments),
        Err(e) => exists|fragments: Seq<Seq<char>>|
            #![trigger gave_fragments(lights, fragments)]
            fragments.len() < lights.len() && gave_fragments(lights, fragments) && answers(
                lights,
                fragments.len() as int,
                Err(e),
            ),
    }
}

/// Whether every light of the list has exactly one possible answer for the
/// slot of its position.
pub open spec fn fixed_sources<L: Light>(lights: Seq<L>) -> bool {
    forall|k: int, a: Result<Seq<char>, LightingError>, b: Result<Seq<char>, LightingError>|
        #![trigger answers(lights, k, a), answers(lights, k, b)]
        0 <= k < lights.len() && answers(lights, k, a) && answers(lights, k, b) ==> a == b
}

/// The source of the dispatch function for `n` lights.
pub fn dispatch_function_source(n: usize) -> (source: String)
    ensures
        source@ == dispatch_function(n as nat),
{
    let mut source = String::from_str(DISPATCH_HEAD);
    let mut i: usize = 0;
    while i < n
        invariant
            i <= n,
            source@ == DISPATCH_HEAD@ + accumulation_statements(i as nat).flatten(),
        decreases n - i,
    {
        let ghost before = source@;
        source.append(STATEMENT_HEAD);
        push_decimal(&mut source, i);
        source.append(STATEMENT_TAIL);
        proof {
            let done = accumulation_statements(i as nat);
            let next = accumulation_statement(i as nat);
            assert(accumulation_statements((i + 1) as nat) =~= done.push(next));
            done.lemma_flatten_push(next);
            assert(source@ =~= before + next);
            assert(source@ =~= DISPATCH_HEAD@ + done.push(next).flatten());
        }
        i += 1;
    }
    source.append(DISPATCH_TAIL);
    source
}

/// Composes the complete shader source from the fragments of the lights,
/// given in slot order.
pub fn compose_shader_source(fragments: &[String]) -> (source: String)
    ensures
        source@ == shader_text(texts(fragments@)),
{
    let mut source = String::from_str(SHARED_SOURCE);
    source.append(LIGHT_SHARED_SOURCE);
    let ghost all = texts(fragments@);
    let mut k: usize = 0;
    while k < fragments.len()
        invariant
            k <= fragments.len(),
            all == texts(fragments@),
            source@ == SHARED_SOURCE@ + LIGHT_SHARED_SOURCE@ + all.take(k as int).flatten(),
        decreases fragments.len() - k,
    {
        source.append(fragments[k].as_str());
        proof {
            let done = all.take(k as int);
            assert(all.take(k + 1) =~= done.push(all[k as int]));
            done.lemma_flatten_push(all[k as int]);
            assert(source@ =~= SHARED_SOURCE@ + LIGHT_SHARED_SOURCE@ + all.take(k + 1).flatten());
        }
        k += 1;
    }
    assert(all.take(k as int) =~= all);
    let dispatch = dispatch_function_source(fragments.len());
    source.append(dispatch.as_str());
    source
}

/// Returns the shader source with the function `calculate_lighting`, which
/// sums the contributions of the given lights:
///
/// ```text
/// vec3 calculate_lighting(vec3 camera_position, vec3 surface_color, vec3 position, vec3 normal, float metallic, float roughness, float occlusion)
/// ```
///
/// Each light is asked for its fragment with its position in the list as
/// slot number. The first failure of a light is handed on and nothing is
/// composed. Slot numbers are 32-bit, which bounds the length of the list.
/// A list of different kinds of lights is a list of `&dyn Light`.
pub fn lights_shader_source<L: Light>(lights: &[L]) -> (outcome: Result<String, LightingError>)
    requires
        lights@.len() <= u32::MAX,
    ensures
        composes(lights@, source_view(outcome)),
{
    let mut fragments: Vec<String> = Vec::new();
    let mut k: usize = 0;
    while k < lights.len()
        invariant
            k <= lights.len(),
            lights@.len() <= u32::MAX,
            fragments@.len() == k,
            gave_fragments(lights@, texts(fragments@)),
        decreases lights.len() - k,
    {
        match lights[k].shader_source(k as u32) {
            Ok(fragment) => {
                let ghost before = texts(fragments@);
                fragments.push(fragment);
                assert(texts(fragments@) =~= before.push(fragment@));
            },
            Err(e) => {
                assert(texts(fragments@).len() == k);
                return Err(e);
            },
        }
        k += 1;
    }
    let source = compose_shader_source(fragments.as_slice());
    assert(texts(fragments@).len() == lights@.len());
    Ok(source)
}

} // verus!

verus! {

/// The dispatch function of `n` lights holds exactly `n` accumulation
/// statements between its head and its tail. The statement at place `k` is
/// the one that calls `calculate_lighting` with the suffix `k`, and it
/// follows the statements of the slots below `k`.
pub proof fn dispatch_function_accumulates_in_order(n: nat)
    ensures
        accumulation_statements(n).len() == n,
        forall|k: int|
            0 <= k < n ==> #[trigger] accumulation_statements(n)[k] == STATEMENT_HEAD@ + decimal(
                k as nat,
            ) + STATEMENT_TAIL@,
        dispatch_function(n) == DISPATCH_HEAD@ + accumulation_statements(n).flatten()
            + DISPATCH_TAIL@,
        accumulation_statements(n + 1).flatten() == accumulation_statements(n).flatten()
            + accumulation_statement(n),
{
    let done = accumulation_statements(n);
    assert(accumulation_statements(n + 1) =~= done.push(accumulation_statement(n)));
    done.lemma_flatten_push(accumulation_statement(n));
}

/// The accumulation statements of different slots differ, so no two slots
/// call the same function.
pub proof fn accumulation_statements_are_distinct(i: nat, j: nat)
    requires
        i != j,
    ensures
        accumulation_statement(i) != accumulation_statement(j),
{
    if accumulation_statement(i) == accumulation_statement(j) {
        let head = STATEMENT_HEAD@;
        let tail = STATEMENT_TAIL@;
        let a = decimal(i);
        let b = decimal(j);
        let s = head + a + tail;
        let t = head + b + tail;
        assert(s.len() == head.len() + a.len() + tail.len());
        assert(t.len() == head.len() + b.len() + tail.len());
        assert(a.len() == b.len());
        assert forall|k: int| 0 <= k < a.len() implies a[k] == b[k] by {
            assert(s[head.len() + k] == a[k]);
            assert(t[head.len() + k] == b[k]);
        }
        assert(a =~= b);
        decimal_is_injective(i, j);
    }
}

/// With no lights the dispatch function holds no accumulation statement: it
/// returns the zero colour it starts from. The composed source is then the
/// preamble, the light interface and that function, and nothing can fail.
pub proof fn empty_list_is_unlit<L: Light>(lights: Seq<L>, outcome: Result<Seq<char>, LightingError>)
    requires
        lights.len() == 0,
        composes(lights, outcome),
    ensures
        dispatch_function(0) == DISPATCH_HEAD@ + DISPATCH_TAIL@,
        outcome == Ok::<Seq<char>, LightingError>(
            SHARED_SOURCE@ + LIGHT_SHARED_SOURCE@ + DISPATCH_HEAD@ + DISPATCH_TAIL@,
        ),
{
    assert(accumulation_statements(0) =~= Seq::<Seq<char>>::empty());
    assert(accumulation_statements(0).flatten() =~= Seq::<char>::empty());
    assert(dispatch_function(0) =~= DISPATCH_HEAD@ + DISPATCH_TAIL@);
    match outcome {
        Ok(text) => {
            let fragments = choose|fragments: Seq<Seq<char>>|
                #![trigger gave_fragments(lights, fragments)]
                fragments.len() == lights.len() && gave_fragments(lights, fragments) && text
                    == shader_text(fragments);
            assert(fragments =~= Seq::<Seq<char>>::empty());
            assert(fragments.flatten() =~= Seq::<char>::empty());
            assert(text =~= SHARED_SOURCE@ + LIGHT_SHARED_SOURCE@ + DISPATCH_HEAD@
                + DISPATCH_TAIL@);
        },
        Err(e) => {},
    }
}

/// Composition is deterministic: where every light has one possible answer
/// for its slot, the list has one possible composition.
pub proof fn composition_is_deterministic<L: Light>(
    lights: Seq<L>,
    first: Result<Seq<char>, LightingError>,
    second: Result<Seq<char>, LightingError>,
)
    requires
        fixed_sources(lights),
        composes(lights, first),
        composes(lights, second),
    ensures
        first == second,
{
    let f = witness(lights, first);
    let g = witness(lights, second);
    if f.len() <= g.len() {
        agree_up_to_failure(lights, first, f, second, g);
    } else {
        agree_up_to_failure(lights, second, g, first, f);
    }
}

/// The fragments that were given before `outcome` came about.
pub open spec fn witness<L: Light>(lights: Seq<L>, outcome: Result<Seq<char>, LightingError>) -> Seq<
    Seq<char>,
> {
    match outcome {
        Ok(text) => choose|fragments: Seq<Seq<char>>|
            #![trigger gave_fragments(lights, fragments)]
            fragments.len() == lights.len() && gave_fragments(lights, fragments) && text
                == shader_text(fragments),
        Err(e) => choose|fragments: Seq<Seq<char>>|
            #![trigger gave_fragments(lights, fragments)]
            fragments.len() < lights.len() && gave_fragments(lights, fragments) && answers(
                lights,
                fragments.len() as int,
                Err(e),
            ),
    }
}

/// Whether `fragments` are the fragments given before `outcome` came about.
pub open spec fn led_to<L: Light>(
    lights: Seq<L>,
    fragments: Seq<Seq<char>>,
    outcome: Result<Seq<char>, LightingError>,
) -> bool {
    &&& gave_fragments(lights, fragments)
    &&& match outcome {
        Ok(text) => fragments.len() == lights.len() && text == shader_text(fragments),
        Err(e) => fragments.len() < lights.len() && answers(lights, fragments.len() as int, Err(e)),
    }
}

/// Two compositions of a list with fixed sources agree, where the fragments
/// behind the first are no more than those behind the second.
proof fn agree_up_to_failure<L: Light>(
    lights: Seq<L>,
    short: Result<Seq<char>, LightingError>,
    f: Seq<Seq<char>>,
    long: Result<Seq<char>, LightingError>,
    g: Seq<Seq<char>>,
)
    requires
        fixed_sources(lights),
        composes(lights, short),
        composes(lights, long),
        f == witness(lights, short),
        g == witness(lights, long),
        f.len() <= g.len(),
    ensures
        short == long,
{
    assert(led_to(lights, f, short));
    assert(led_to(lights, g, long));
    assert forall|k: int| 0 <= k < f.len() implies f[k] == g[k] by {
        assert(answers(lights, k, Ok(f[k])));
        assert(answers(lights, k, Ok(g[k])));
    }
    if f.len() < g.len() {
        // The shorter run ended in a failure of a light that gave a
        // fragment in the longer run.
        let m = f.len() as int;
        assert(answers(lights, m, Ok(g[m])));
        match short {
            Ok(text) => {},
            Err(e) => {
                assert(answers(lights, m, Err(e)));
            },
        }
    } else {
        assert(f =~= g);
        match (short, long) {
            (Err(d), Err(e)) => {
                let m = f.len() as int;
                assert(answers(lights, m, Err(d)));
                assert(answers(lights, m, Err(e)));
            },
            _ => {},
        }
    }
}

/// The composition depends on the lights' answers alone: two lists of the
/// same length whose lights admit the same answers slot by slot have the
/// same compositions.
pub proof fn composition_depends_on_answers_alone<L: Light, M: Light>(
    lights: Seq<L>,
    others: Seq<M>,
    outcome: Result<Seq<char>, LightingError>,
)
    requires
        lights.len() == others.len(),
        forall|k: int, answer: Result<Seq<char>, LightingError>|
            0 <= k < lights.len() ==> (#[trigger] answers(lights, k, answer)) == answers(
                others,
                k,
                answer,
            ),
        composes(lights, outcome),
    ensures
        composes(others, outcome),
{
    let f = witness(lights, outcome);
    assert(led_to(lights, f, outcome));
    assert forall|k: int| 0 <= k < f.len() implies answers(others, k, Ok(f[k])) by {
        assert(answers(lights, k, Ok(f[k])));
    }
    assert(gave_fragments(others, f));
    match outcome {
        Ok(text) => {},
        Err(e) => {
            let m = f.len() as int;
            assert(answers(lights, m, Err(e)));
        },
    }
}

} // verus!

verus! {

/// Where every light has one known fragment, the composition is the source
/// for those fragments.
pub proof fn known_fragments_compose<L: Light>(
    lights: Seq<L>,
    fragments: Seq<Seq<char>>,
    outcome: Result<Seq<char>, LightingError>,
)
    requires
        fragments.len() == lights.len(),
        forall|k: int, answer: Result<Seq<char>, LightingError>|
            0 <= k < lights.len() && #[trigger] answers(lights, k, answer) ==> answer == Ok::<
                Seq<char>,
                LightingError,
            >(fragments[k]),
        composes(lights, outcome),
    ensures
        outcome == Ok::<Seq<char>, LightingError>(shader_text(fragments)),
{
    let f = witness(lights, outcome);
    assert(led_to(lights, f, outcome));
    match outcome {
        Ok(text) => {
            assert forall|k: int| 0 <= k < f.len() implies f[k] == fragments[k] by {
                assert(answers(lights, k, Ok(f[k])));
            }
            assert(f =~= fragments);
        },
        Err(e) => {
            assert(answers(lights, f.len() as int, Err(e)));
        },
    }
}

/// The first failure is handed on: where the light at place `m` can only
/// fail with `e` and no light before it can fail, the composition is that
/// failure, whatever the lights behind it would answer.
pub proof fn first_failure_is_handed_on<L: Light>(
    lights: Seq<L>,
    m: int,
    e: LightingError,
    outcome: Result<Seq<char>, LightingError>,
)
    requires
        0 <= m < lights.len(),
        forall|answer: Result<Seq<char>, LightingError>| #[trigger]
            answers(lights, m, answer) ==> answer == Err::<Seq<char>, LightingError>(e),
        forall|k: int, answer: Result<Seq<char>, LightingError>|
            0 <= k < m && #[trigger] answers(lights, k, answer) ==> answer is Ok,
        composes(lights, outcome),
    ensures
        outcome == Err::<Seq<char>, LightingError>(e),
{
    let f = witness(lights, outcome);
    assert(led_to(lights, f, outcome));
    if f.len() > m {
        assert(answers(lights, m, Ok(f[m])));
    } else {
        match outcome {
            Ok(text) => {},
            Err(d) => {
                assert(answers(lights, f.len() as int, Err(d)));
            },
        }
    }
}

} // verus!
