//! The block-state tracker: a three-state machine over the event stream that
//! recognizes the pattern "start of a `bob`-tagged fence, one text payload,
//! end of that fence" and substitutes the rendered markup, re-emitting every
//! other event unchanged and in order.

use vstd::prelude::*;
use crate::events::Event;
use crate::events::EvModel;
use crate::events::models;
use crate::render::Settings;
use crate::render::SettingsV;
use crate::render::render_of;
use crate::render::render_diagram;

verus! {

/// The tracker's state during one pass over a document.
#[derive(Debug, Clone, Copy, PartialEq, Eq, Structural)]
pub enum TrackerState {
    /// Outside any recognized block.
    Idle,
    /// Inside a recognized tagged fence, payload not yet seen.
    Open,
    /// Payload consumed, awaiting the end of the fence.
    Closing,
}

/// The fixed language tag that marks a fence as diagram source.
pub open spec fn bob_tag() -> Seq<char> {
    "bob"@
}

/// Whether an event starts a tagged diagram fence.
pub open spec fn is_bob_start(e: EvModel) -> bool {
    match e {
        EvModel::FenceStart(tag) => tag == bob_tag(),
        _ => false,
    }
}

/// The state after consuming one event.
pub open spec fn step_state(st: TrackerState, e: EvModel) -> TrackerState {
    match st {
        TrackerState::Idle => if is_bob_start(e) {
            TrackerState::Open
        } else {
            TrackerState::Idle
        },
        TrackerState::Open => match e {
            EvModel::Text(t) => TrackerState::Closing,
            _ => TrackerState::Open,
        },
        TrackerState::Closing => match e {
            EvModel::FenceEnd => TrackerState::Idle,
            _ => TrackerState::Closing,
        },
    }
}

/// The event emitted for one consumed event: the three recognized rules
/// substitute, every other pair passes the event through unchanged.
pub open spec fn step_emit(st: TrackerState, e: EvModel, s: SettingsV) -> EvModel {
    match st {
        TrackerState::Idle => if is_bob_start(e) {
            EvModel::ParaStart
        } else {
            e
        },
        TrackerState::Open => match e {
            EvModel::Text(t) => EvModel::Html(render_of(t, s)),
            _ => e,
        },
        TrackerState::Closing => match e {
            EvModel::FenceEnd => EvModel::ParaEnd,
            _ => e,
        },
    }
}

/// The whole pass from a given state: one event in, one event out.
pub open spec fn run_from(st: TrackerState, es: Seq<EvModel>, s: SettingsV) -> Seq<EvModel>
    decreases es.len(),
{
    if es.len() == 0 {
        Seq::empty()
    } else {
        seq![step_emit(st, es[0], s)] + run_from(step_state(st, es[0]), es.drop_first(), s)
    }
}

/// The state left after consuming a whole stream.
pub open spec fn state_after(st: TrackerState, es: Seq<EvModel>) -> TrackerState
    decreases es.len(),
{
    if es.len() == 0 {
        st
    } else {
        state_after(step_state(st, es[0]), es.drop_first())
    }
}

/// One pass over a document's stream, started in the initial state.
pub open spec fn run_events(es: Seq<EvModel>, s: SettingsV) -> Seq<EvModel> {
    run_from(TrackerState::Idle, es, s)
}

/// Consume one event: the three recognized (state, event) rules substitute,
/// any other pair re-emits the event unchanged and keeps the state.
pub fn step(st: TrackerState, e: Event, settings: &Settings) -> (r: (Event, TrackerState))
    ensures
        r.0@ == step_emit(st, e@, settings@),
        r.1 == step_state(st, e@),
{
    match (st, e) {
        (TrackerState::Idle, Event::FenceStart(tag)) => {
            let bob: String = "bob".to_owned();
            if tag == bob {
                (Event::ParaStart, TrackerState::Open)
            } else {
                (Event::FenceStart(tag), TrackerState::Idle)
            }
        },
        (TrackerState::Open, Event::Text(t)) => {
            let markup = render_diagram(t.as_str(), settings);
            (Event::Html(markup), TrackerState::Closing)
        },
        (TrackerState::Closing, Event::FenceEnd) => (Event::ParaEnd, TrackerState::Idle),
        (other_state, other_event) => (other_event, other_state),
    }
}

/// One pass over a whole stream, exactly as `run_events` describes it.
pub fn transform_events(events: Vec<Event>, settings: &Settings) -> (r: Vec<Event>)
    ensures
        models(r@) == run_events(models(events@), settings@),
{
    let ghost full: Seq<EvModel> = models(events@);
    let mut input = events;
    let mut out: Vec<Event> = Vec::new();
    let mut st = TrackerState::Idle;
    proof {
        assert(models(out@) + run_from(st, models(input@), settings@)
            =~= run_events(full, settings@));
    }
    while input.len() > 0
        invariant
            models(out@) + run_from(st, models(input@), settings@)
                == run_events(full, settings@),
        decreases input.len(),
    {
        let ghost es0: Seq<EvModel> = models(input@);
        let ghost out_before: Seq<Event> = out@;
        let e = input.remove(0);
        let stepped = step(st, e, settings);
        out.push(stepped.0);
        proof {
            assert(e@ == es0[0]);
            assert(models(input@) =~= es0.drop_first());
            assert(models(out@) =~= models(out_before).push(stepped.0@));
            assert(models(out_before).push(step_emit(st, es0[0], settings@))
                + run_from(step_state(st, es0[0]), es0.drop_first(), settings@)
                =~= models(out_before) + run_from(st, es0, settings@));
        }
        st = stepped.1;
    }
    proof {
        assert(models(input@) =~= Seq::<EvModel>::empty());
        assert(models(out@) + run_from(st, models(input@), settings@) =~= models(out@));
    }
    out
}

/// No event of the stream starts a tagged diagram fence.
pub open spec fn no_bob_start(es: Seq<EvModel>) -> bool {
    forall|i: int| 0 <= i < es.len() ==> !is_bob_start(#[trigger] es[i])
}

/// The tracker is a filter, never a reordering: one event out for each
/// event in, in the same order.
pub proof fn lemma_run_preserves_length(st: TrackerState, es: Seq<EvModel>, s: SettingsV)
    ensures
        run_from(st, es, s).len() == es.len(),
    decreases es.len(),
{
    if es.len() > 0 {
        lemma_run_preserves_length(step_state(st, es[0]), es.drop_first(), s);
    }
}

/// A pass distributes over concatenation: the second part runs from the
/// state the first part leaves behind.
pub proof fn lemma_run_append(st: TrackerState, a: Seq<EvModel>, b: Seq<EvModel>, s: SettingsV)
    ensures
        run_from(st, a + b, s) == run_from(st, a, s) + run_from(state_after(st, a), b, s),
        state_after(st, a + b) == state_after(state_after(st, a), b),
    decreases a.len(),
{
    if a.len() == 0 {
        assert(a + b =~= b);
        assert(run_from(st, a, s) + run_from(st, b, s) =~= run_from(st, b, s));
    } else {
        assert((a + b).drop_first() =~= a.drop_first() + b);
        assert((a + b)[0] == a[0]);
        lemma_run_append(step_state(st, a[0]), a.drop_first(), b, s);
        assert(seq![step_emit(st, a[0], s)] + (run_from(step_state(st, a[0]), a.drop_first(), s)
            + run_from(state_after(st, a), b, s)) =~= (seq![step_emit(st, a[0], s)] + run_from(
            step_state(st, a[0]),
            a.drop_first(),
            s,
        )) + run_from(state_after(st, a), b, s));
    }
}

/// A stream free of tagged fence starts passes through unchanged and leaves
/// the tracker idle.
pub proof fn lemma_idle_passes_untagged(es: Seq<EvModel>, s: SettingsV)
    requires
        no_bob_start(es),
    ensures
        run_from(TrackerState::Idle, es, s) == es,
        state_after(TrackerState::Idle, es) == TrackerState::Idle,
    decreases es.len(),
{
    if es.len() > 0 {
        assert(!is_bob_start(es[0]));
        assert(forall|i: int|
            0 <= i < es.drop_first().len() ==> !is_bob_start(#[trigger] es.drop_first()[i]));
        lemma_idle_passes_untagged(es.drop_first(), s);
        assert(seq![es[0]] + es.drop_first() =~= es);
    }
}

/// A document containing no tagged block is not touched: the whole pass
/// re-emits its stream unchanged.
pub proof fn lemma_untagged_stream_unchanged(es: Seq<EvModel>, s: SettingsV)
    requires
        no_bob_start(es),
    ensures
        run_events(es, s) == es,
{
    lemma_idle_passes_untagged(es, s);
}

/// The three events of a well-formed tagged block: its fence start, one
/// text payload, its fence end.
pub open spec fn bob_triple(t: Seq<char>) -> Seq<EvModel> {
    seq![EvModel::FenceStart(bob_tag()), EvModel::Text(t), EvModel::FenceEnd]
}

/// What such a block becomes: exactly one raw markup event wrapped in a
/// paragraph boundary pair, whatever the length of the payload.
pub open spec fn rendered_triple(t: Seq<char>, s: SettingsV) -> Seq<EvModel> {
    seq![EvModel::ParaStart, EvModel::Html(render_of(t, s)), EvModel::ParaEnd]
}

/// A document holding one well-formed tagged block between streams free of
/// tagged fence starts is transformed by replacing exactly that triple with
/// the rendered markup; every other event is re-emitted unchanged in order.
pub proof fn lemma_single_block_substituted(
    pre: Seq<EvModel>,
    t: Seq<char>,
    post: Seq<EvModel>,
    s: SettingsV,
)
    requires
        no_bob_start(pre),
        no_bob_start(post),
    ensures
        run_events(pre + bob_triple(t) + post, s) == pre + rendered_triple(t, s) + post,
{
    let tr = bob_triple(t);
    assert(pre + bob_triple(t) + post =~= pre + (tr + post));
    lemma_run_append(TrackerState::Idle, pre, tr + post, s);
    lemma_idle_passes_untagged(pre, s);
    lemma_run_append(TrackerState::Idle, tr, post, s);
    let mid = seq![EvModel::Text(t), EvModel::FenceEnd];
    let last = seq![EvModel::FenceEnd];
    assert(is_bob_start(tr[0]));
    assert(tr.drop_first() =~= mid);
    assert(mid.drop_first() =~= last);
    assert(last.drop_first() =~= Seq::<EvModel>::empty());
    assert(run_from(TrackerState::Closing, last, s) == seq![EvModel::ParaEnd] + run_from(
        TrackerState::Idle,
        Seq::<EvModel>::empty(),
        s,
    ));
    assert(run_from(TrackerState::Open, mid, s) == seq![EvModel::Html(render_of(t, s))]
        + run_from(TrackerState::Closing, last, s));
    assert(run_from(TrackerState::Idle, tr, s) =~= rendered_triple(t, s));
    assert(state_after(TrackerState::Idle, Seq::<EvModel>::empty()) == TrackerState::Idle);
    assert(state_after(TrackerState::Closing, last) == TrackerState::Idle);
    assert(state_after(TrackerState::Open, mid) == TrackerState::Idle);
    assert(state_after(TrackerState::Idle, tr) == TrackerState::Idle);
    lemma_idle_passes_untagged(post, s);
    assert(run_events(pre + bob_triple(t) + post, s) =~= pre + rendered_triple(t, s) + post);
}

/// Every tagged fence start is consumed in the idle state: the shape a
/// parser-produced stream has when no tagged block is malformed.
pub open spec fn tags_consumed_idle(es: Seq<EvModel>) -> bool {
    forall|i: int|
        0 <= i < es.len() && is_bob_start(#[trigger] es[i]) ==> state_after(
            TrackerState::Idle,
            es.take(i),
        ) == TrackerState::Idle
}

proof fn lemma_output_has_no_bob(st: TrackerState, es: Seq<EvModel>, s: SettingsV)
    requires
        forall|i: int|
            0 <= i < es.len() && is_bob_start(#[trigger] es[i]) ==> state_after(st, es.take(i))
                == TrackerState::Idle,
    ensures
        no_bob_start(run_from(st, es, s)),
    decreases es.len(),
{
    if es.len() > 0 {
        let e0 = es[0];
        let st2 = step_state(st, e0);
        let rest = es.drop_first();
        if is_bob_start(e0) {
            assert(es.take(0) =~= Seq::<EvModel>::empty());
            assert(state_after(st, es.take(0)) == st);
            assert(st == TrackerState::Idle);
        }
        assert(!is_bob_start(step_emit(st, e0, s)));
        assert forall|i: int| 0 <= i < rest.len() && is_bob_start(#[trigger] rest[i]) implies state_after(
            st2,
            rest.take(i),
        ) == TrackerState::Idle by {
            assert(rest[i] == es[i + 1]);
            assert(es.take(i + 1).drop_first() =~= rest.take(i));
            assert(es.take(i + 1)[0] == e0);
            assert(state_after(st, es.take(i + 1)) == state_after(st2, rest.take(i)));
        }
        lemma_output_has_no_bob(st2, rest, s);
        assert forall|j: int|
            0 <= j < run_from(st, es, s).len() implies !is_bob_start(
            #[trigger] run_from(st, es, s)[j],
        ) by {
            if j > 0 {
                assert(run_from(st, es, s)[j] == run_from(st2, rest, s)[j - 1]);
            }
        }
    }
}

/// Transforming twice is transforming once: after a pass over a stream
/// whose tagged fence starts are all consumed idle, no tagged fence start
/// remains, so a second pass re-emits everything unchanged.
pub proof fn lemma_transform_idempotent(es: Seq<EvModel>, s: SettingsV)
    requires
        tags_consumed_idle(es),
    ensures
        run_events(run_events(es, s), s) == run_events(es, s),
{
    lemma_output_has_no_bob(TrackerState::Idle, es, s);
    lemma_untagged_stream_unchanged(run_events(es, s), s);
}

/// Rendered markup only ever stands where a text payload (or markup
/// already) stood: a tagged block with no payload is never rendered.
pub proof fn lemma_markup_only_for_payload(st: TrackerState, es: Seq<EvModel>, s: SettingsV)
    ensures
        forall|j: int|
            (0 <= j < es.len() && (#[trigger] run_from(st, es, s)[j]) matches EvModel::Html(_))
                ==> (es[j] matches EvModel::Text(_) || es[j] matches EvModel::Html(_)),
    decreases es.len(),
{
    lemma_run_preserves_length(st, es, s);
    if es.len() > 0 {
        let st2 = step_state(st, es[0]);
        let rest = es.drop_first();
        lemma_markup_only_for_payload(st2, rest, s);
        lemma_run_preserves_length(st2, rest, s);
        assert forall|j: int|
            0 <= j < es.len() && (#[trigger] run_from(st, es, s)[j]) matches EvModel::Html(_) implies (
        es[j] matches EvModel::Text(_) || es[j] matches EvModel::Html(_)) by {
            if j > 0 {
                assert(run_from(st, es, s)[j] == run_from(st2, rest, s)[j - 1]);
                assert(es[j] == rest[j - 1]);
            }
        }
    }
}

} // verus!
