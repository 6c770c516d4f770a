//! Reading Cargo's message stream: the search for one binary target's
//! artifact, and the diagnostics kept in case the build fails.

use crate::error::{outcome_view, Failure, TestBinaryError};
use crate::event::{classify_line, line_event, strings_view, BuildEvent, EventView};
use vstd::prelude::*;

verus! {

/// The target kind of a binary.
pub open spec fn bin_kind() -> Seq<char> {
    seq!['b', 'i', 'n']
}

/// Whether `ev` is an artifact of the binary target named `name`. A name
/// alone does not do: a library or a test may share it.
pub open spec fn is_binary_artifact(ev: EventView, name: Seq<char>) -> bool {
    match ev {
        EventView::ArtifactProduced { target_name, target_kind, .. } => {
            target_name == name && target_kind.contains(bin_kind())
        },
        _ => false,
    }
}

/// Whether `ev` ends the search for the binary named `name`.
pub open spec fn is_decisive(ev: EventView, name: Seq<char>) -> bool {
    is_binary_artifact(ev, name) || ev is BuildFinished
}

/// The index of the first event of `evs` that ends the search, or the length
/// of `evs` where none does.
pub open spec fn decision_index(evs: Seq<EventView>, name: Seq<char>) -> nat
    decreases evs.len(),
{
    if evs.len() == 0 || is_decisive(evs[0], name) {
        0
    } else {
        1 + decision_index(evs.drop_first(), name)
    }
}

/// What `ev` adds to the diagnostics kept for a failed build: its text and a
/// line break, for a diagnostic or a line of free text.
pub open spec fn diagnostic_text(ev: EventView) -> Seq<char> {
    match ev {
        EventView::DiagnosticMessage { rendered } => rendered + seq!['\n'],
        EventView::FreeText { text } => text + seq!['\n'],
        _ => seq![],
    }
}

/// The diagnostics and free text of `evs`, in order, each followed by a line
/// break.
pub open spec fn diagnostics_of(evs: Seq<EventView>) -> Seq<char>
    decreases evs.len(),
{
    if evs.len() == 0 {
        seq![]
    } else {
        diagnostics_of(evs.drop_last()) + diagnostic_text(evs.last())
    }
}

/// The outcome that the event `ev`, which ends the search for the binary
/// `name`, decides, where `diagnostics` were kept before it. An event that
/// ends no search decides nothing, and the search never asks this of one.
pub open spec fn decided(ev: EventView, diagnostics: Seq<char>, name: Seq<char>) -> Result<
    Seq<char>,
    Failure,
> {
    match ev {
        EventView::ArtifactProduced { executable, .. } => match executable {
            Some(path) => Ok(path),
            None => Err(Failure::BinaryNotBuilt(name)),
        },
        EventView::BuildFinished { success } => {
            if success {
                Err(Failure::BinaryNotBuilt(name))
            } else {
                Err(Failure::BuildError(diagnostics))
            }
        },
        _ => Err(Failure::InconsistentOutcome),
    }
}

/// The outcome of the search for the binary `name` in the events `evs`: the
/// first event that ends the search decides it, and no event after it counts.
/// With no such event there is no outcome.
pub open spec fn scan_outcome(evs: Seq<EventView>, name: Seq<char>) -> Option<
    Result<Seq<char>, Failure>,
> {
    let i = decision_index(evs, name);
    if i < evs.len() {
        Some(decided(evs[i as int], diagnostics_of(evs.take(i as int)), name))
    } else {
        None
    }
}

/// The events that the lines `lines` hold.
pub open spec fn events_of_lines(lines: Seq<String>) -> Seq<EventView> {
    lines.map_values(|l: String| line_event(l@))
}

/// The mathematical form of a sequence of events.
pub open spec fn events_view(evs: Seq<BuildEvent>) -> Seq<EventView> {
    evs.map_values(|e: BuildEvent| e@)
}

proof fn lemma_decision_index(evs: Seq<EventView>, name: Seq<char>)
    ensures
        decision_index(evs, name) <= evs.len(),
        forall|j: int| 0 <= j < decision_index(evs, name) ==> !is_decisive(#[trigger] evs[j], name),
        decision_index(evs, name) < evs.len() ==> is_decisive(evs[decision_index(evs, name) as int], name),
    decreases evs.len(),
{
    if evs.len() > 0 && !is_decisive(evs[0], name) {
        lemma_decision_index(evs.drop_first(), name);
        assert forall|j: int| 0 <= j < decision_index(evs, name) implies !is_decisive(#[trigger] evs[j], name) by {
            if j > 0 {
                assert(evs[j] == evs.drop_first()[j - 1]);
            }
        }
    }
}

/// Where the first `i` events do not end the search, and the event at `i`
/// does or there is none, the search ends at `i`.
proof fn lemma_first_decisive(evs: Seq<EventView>, name: Seq<char>, i: int)
    requires
        0 <= i <= evs.len(),
        forall|j: int| 0 <= j < i ==> !is_decisive(#[trigger] evs[j], name),
        i < evs.len() ==> is_decisive(evs[i], name),
    ensures
        decision_index(evs, name) == i,
{
    lemma_decision_index(evs, name);
    let d = decision_index(evs, name) as int;
    if d < i {
        assert(!is_decisive(evs[d], name));
    } else if d > i {
        assert(!is_decisive(evs[i], name));
    }
}

proof fn lemma_diagnostics_step(evs: Seq<EventView>, i: int)
    requires
        0 <= i < evs.len(),
    ensures
        diagnostics_of(evs.take(i + 1)) == diagnostics_of(evs.take(i)) + diagnostic_text(evs[i]),
{
    assert(evs.take(i + 1).drop_last() =~= evs.take(i));
}

/// A search that meets the artifact of the binary target, with a path, before
/// any other event that ends a search, finds that path: the diagnostics, free
/// text and other messages before it and after it change nothing.
pub proof fn lemma_first_artifact_wins(evs: Seq<EventView>, name: Seq<char>, i: int, path: Seq<char>)
    requires
        0 <= i < evs.len(),
        is_binary_artifact(evs[i], name),
        evs[i] matches EventView::ArtifactProduced { executable: Some(p), .. } && p == path,
        forall|j: int| 0 <= j < i ==> !is_decisive(#[trigger] evs[j], name),
    ensures
        scan_outcome(evs, name) == Some(Ok::<Seq<char>, Failure>(path)),
{
    lemma_first_decisive(evs, name, i);
}

/// A stream that ends in a failed build, with nothing before it that ends a
/// search, fails with all diagnostics and free text before that mark, in
/// order, each followed by a line break.
pub proof fn lemma_failed_build_keeps_diagnostics(evs: Seq<EventView>, name: Seq<char>)
    requires
        evs.len() > 0,
        evs.last() == (EventView::BuildFinished { success: false }),
        forall|j: int| 0 <= j < evs.len() - 1 ==> !is_decisive(#[trigger] evs[j], name),
    ensures
        scan_outcome(evs, name) == Some(
            Err::<Seq<char>, Failure>(Failure::BuildError(diagnostics_of(evs.drop_last()))),
        ),
{
    lemma_first_decisive(evs, name, evs.len() - 1);
    assert(evs.take(evs.len() - 1) =~= evs.drop_last());
}

/// A build that finishes with success before the artifact of the binary
/// target appears has not built that binary.
pub proof fn lemma_finished_without_artifact(evs: Seq<EventView>, name: Seq<char>, i: int)
    requires
        0 <= i < evs.len(),
        evs[i] == (EventView::BuildFinished { success: true }),
        forall|j: int| 0 <= j < i ==> !is_decisive(#[trigger] evs[j], name),
    ensures
        scan_outcome(evs, name) == Some(Err::<Seq<char>, Failure>(Failure::BinaryNotBuilt(name))),
{
    lemma_first_decisive(evs, name, i);
}

/// An empty stream has no outcome.
pub proof fn lemma_empty_stream(name: Seq<char>)
    ensures
        scan_outcome(Seq::<EventView>::empty(), name) is None,
{
}

/// Once an event ends the search, the events after it change nothing.
pub proof fn lemma_later_events_ignored(evs: Seq<EventView>, more: Seq<EventView>, name: Seq<char>)
    requires
        decision_index(evs, name) < evs.len(),
    ensures
        scan_outcome(evs + more, name) == scan_outcome(evs, name),
{
    let all = evs + more;
    let i = decision_index(evs, name) as int;
    lemma_decision_index(evs, name);
    assert forall|j: int| 0 <= j < i implies !is_decisive(#[trigger] all[j], name) by {
        assert(all[j] == evs[j]);
    }
    assert(all[i] == evs[i]);
    lemma_first_decisive(all, name, i);
    assert(all.take(i) =~= evs.take(i));
}

/// Whether `kinds` holds the binary target kind.
fn has_bin_kind(kinds: &Vec<String>) -> (r: bool)
    ensures
        r == strings_view(kinds@).contains(bin_kind()),
{
    let bin = String::from_str("bin");
    proof {
        reveal_strlit("bin");
        assert(bin@ =~= bin_kind());
    }
    let mut i: usize = 0;
    while i < kinds.len()
        invariant
            i <= kinds.len(),
            bin@ == bin_kind(),
            forall|j: int| 0 <= j < i ==> kinds@[j]@ != bin_kind(),
        decreases kinds.len() - i,
    {
        if kinds[i] == bin {
            assert(strings_view(kinds@)[i as int] == bin_kind());
            return true;
        }
        i += 1;
    }
    proof {
        if strings_view(kinds@).contains(bin_kind()) {
            let k = choose|k: int| 0 <= k < kinds@.len() && strings_view(kinds@)[k] == bin_kind();
            assert(kinds@[k]@ == bin_kind());
        }
    }
    false
}

/// Takes one event into the search for the binary `name`: returns the outcome
/// where the event decides one, and otherwise keeps its diagnostic text.
pub fn scan_step(ev: &BuildEvent, name: &String, diagnostics: &mut String) -> (r: Option<
    Result<String, TestBinaryError>,
>)
    ensures
        is_decisive(ev@, name@) ==> outcome_view(r) == Some(decided(ev@, old(diagnostics)@, name@)),
        !is_decisive(ev@, name@) ==> r is None && final(diagnostics)@ == old(diagnostics)@
            + diagnostic_text(ev@),
{
    proof {
        reveal_strlit("\n");
    }
    match ev {
        BuildEvent::ArtifactProduced { target_name, target_kind, executable } => {
            if *target_name == *name && has_bin_kind(target_kind) {
                match executable {
                    Some(path) => Some(Ok(path.clone())),
                    None => Some(Err(TestBinaryError::BinaryNotBuilt(name.clone()))),
                }
            } else {
                None
            }
        },
        BuildEvent::DiagnosticMessage { rendered } => {
            diagnostics.append(rendered.as_str());
            diagnostics.append("\n");
            None
        },
        BuildEvent::FreeText { text } => {
            diagnostics.append(text.as_str());
            diagnostics.append("\n");
            None
        },
        BuildEvent::BuildFinished { success } => {
            if *success {
                Some(Err(TestBinaryError::BinaryNotBuilt(name.clone())))
            } else {
                Some(Err(TestBinaryError::BuildError(diagnostics.clone())))
            }
        },
        BuildEvent::Other => None,
    }
}

/// Searches the events `events` for the artifact of the binary target named
/// `binary_name`, keeping diagnostics in case the build failed.
pub fn scan_events(events: &Vec<BuildEvent>, binary_name: &str) -> (r: Option<
    Result<String, TestBinaryError>,
>)
    ensures
        outcome_view(r) == scan_outcome(events_view(events@), binary_name@),
{
    let ghost evs = events_view(events@);
    let name = String::from_str(binary_name);
    let mut diagnostics = String::new();
    let mut i: usize = 0;
    while i < events.len()
        invariant
            i <= events.len(),
            evs == events_view(events@),
            name@ == binary_name@,
            forall|j: int| 0 <= j < i ==> !is_decisive(#[trigger] evs[j], name@),
            diagnostics@ == diagnostics_of(evs.take(i as int)),
        decreases events.len() - i,
    {
        let step = scan_step(&events[i], &name, &mut diagnostics);
        if step.is_some() {
            proof {
                lemma_first_decisive(evs, name@, i as int);
            }
            return step;
        }
        proof {
            lemma_diagnostics_step(evs, i as int);
        }
        i += 1;
    }
    proof {
        lemma_first_decisive(evs, name@, i as int);
    }
    None
}

/// Process a stream of messages from Cargo's output, one line each, searching
/// for the binary name we want or gathering information for a useful error.
///
/// Each element of `lines` is one line, with or without its line break. An
/// element that holds a line break before its end, or nests JSON deeper than
/// [`crate::event::MAX_JSON_DEPTH`], is not read as a message: it is kept
/// whole as free text.
///
/// The first line that decides an outcome ends the search: no line after it
/// is read. Where the lines end without such a line there is no outcome.
pub fn process_messages(lines: &Vec<String>, binary_name: &str) -> (r: Option<
    Result<String, TestBinaryError>,
>)
    ensures
        outcome_view(r) == scan_outcome(events_of_lines(lines@), binary_name@),
{
    let ghost evs = events_of_lines(lines@);
    let name = String::from_str(binary_name);
    let mut diagnostics = String::new();
    let mut i: usize = 0;
    while i < lines.len()
        invariant
            i <= lines.len(),
            evs == events_of_lines(lines@),
            name@ == binary_name@,
            forall|j: int| 0 <= j < i ==> !is_decisive(#[trigger] evs[j], name@),
            diagnostics@ == diagnostics_of(evs.take(i as int)),
        decreases lines.len() - i,
    {
        let ev = classify_line(lines[i].as_str());
        let step = scan_step(&ev, &name, &mut diagnostics);
        if step.is_some() {
            proof {
                lemma_first_decisive(evs, name@, i as int);
            }
            return step;
        }
        proof {
            lemma_diagnostics_step(evs, i as int);
        }
        i += 1;
    }
    proof {
        lemma_first_decisive(evs, name@, i as int);
    }
    None
}

} // verus!
