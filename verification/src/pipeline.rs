//! The per-document pipeline (parse, track, serialize) and the walker that
//! applies it to each document unit in order, isolating per-unit failures.

use vstd::prelude::*;
use crate::events::TransformError;
use crate::events::cmark_ok_of;
use crate::events::events_of;
use crate::events::cmark_of;
use crate::events::parse_events;
use crate::events::serialize_events;
use crate::render::Settings;
use crate::render::SettingsV;
use crate::tracker::run_events;
use crate::tracker::transform_events;

verus! {

/// The text a successful transformation of a document yields: parse it,
/// run the tracker over the stream, serialize the result.
pub open spec fn transformed(text: Seq<char>, s: SettingsV) -> Seq<char> {
    cmark_of(run_events(events_of(text), s))
}

/// A document whose stream holds no tagged fence start is not touched by
/// the pass: a successful transformation yields exactly what serializing
/// its own parse again would yield.
pub proof fn lemma_untagged_document_unchanged(text: Seq<char>, s: SettingsV)
    requires
        crate::tracker::no_bob_start(events_of(text)),
    ensures
        transformed(text, s) == cmark_of(events_of(text)),
{
    crate::tracker::lemma_untagged_stream_unchanged(events_of(text), s);
}

/// Transform one document: find `bob`-tagged fenced code blocks, render
/// their payloads, and splice the markup in their place. It succeeds
/// exactly when the serializer accepts the transformed stream, and then
/// the result is exactly the serialized transformed stream; the only
/// failure is the serializer's.
pub fn process_code_blocks(content: &str, settings: &Settings) -> (r: Result<
    String,
    TransformError,
>)
    ensures
        (r is Ok) == cmark_ok_of(run_events(events_of(content@), settings@)),
        r matches Ok(out) ==> out@ == transformed(content@, settings@),
        r matches Err(e) ==> e == TransformError::Serialize,
{
    let events = parse_events(content);
    let out_events = transform_events(events, settings);
    serialize_events(&out_events)
}

/// Commit one unit's outcome: a successful transformation replaces the
/// content, a failed one leaves the original untouched.
pub fn commit_unit(original: String, attempt: Result<String, TransformError>) -> (r: String)
    ensures
        attempt matches Ok(s) ==> r == s,
        attempt matches Err(_) ==> r == original,
{
    match attempt {
        Ok(s) => s,
        Err(_) => original,
    }
}

/// Walk the document units in order, transforming each in place; a unit
/// whose transformation fails keeps its original content, and never stops
/// the walk. The returned flags say exactly which units were replaced: a
/// unit is transformed exactly when its transformed stream serializes.
pub fn process_units(units: &mut Vec<String>, settings: &Settings) -> (done: Vec<bool>)
    ensures
        done@.len() == old(units)@.len(),
        final(units)@.len() == old(units)@.len(),
        forall|i: int|
            0 <= i < done@.len() ==> done@[i] == cmark_ok_of(
                run_events(events_of(old(units)@[i]@), settings@),
            ),
        forall|i: int|
            0 <= i < done@.len() && done@[i] ==> final(units)@[i]@ == transformed(
                old(units)@[i]@,
                settings@,
            ),
        forall|i: int|
            0 <= i < done@.len() && !done@[i] ==> final(units)@[i] == old(units)@[i],
{
    let mut done: Vec<bool> = Vec::new();
    let n = units.len();
    let mut idx: usize = 0;
    while idx < n
        invariant
            n == old(units)@.len(),
            units@.len() == n,
            done@.len() == idx,
            idx <= n,
            forall|i: int| idx <= i < n ==> units@[i] == old(units)@[i],
            forall|i: int|
                0 <= i < idx ==> done@[i] == cmark_ok_of(
                    run_events(events_of(old(units)@[i]@), settings@),
                ),
            forall|i: int|
                0 <= i < idx && done@[i] ==> units@[i]@ == transformed(
                    old(units)@[i]@,
                    settings@,
                ),
            forall|i: int| 0 <= i < idx && !done@[i] ==> units@[i] == old(units)@[i],
        decreases n - idx,
    {
        let attempt = process_code_blocks(units[idx].as_str(), settings);
        match attempt {
            Ok(s) => {
                units[idx] = s;
                done.push(true);
            },
            Err(_) => {
                done.push(false);
            },
        }
        idx = idx + 1;
    }
    done
}

} // verus!
