//! The guarantees the dispatcher gives, proved once and for all over the
//! transition function [`step`].

use vstd::prelude::*;

use crate::content::ContentView;
use crate::content::EditActionView;
use crate::content::apply_edit;
use crate::document::DocView;
use crate::document::EffectView;
use crate::document::EventView;
use crate::document::shown_error_spec;
use crate::document::step;
use crate::error::Error;

verus! {

/// The document model is well-formed when its buffer is.
pub open spec fn inv(d: DocView) -> bool {
    d.content.wf()
}

/// The document reached by dispatching a sequence of events in order.
pub open spec fn run(d: DocView, events: Seq<EventView>) -> DocView
    decreases events.len(),
{
    if events.len() == 0 {
        d
    } else {
        run(step(d, events[0]).0, events.drop_first())
    }
}

/// Whether an event is an edit whose action mutates the buffer.
pub open spec fn is_mutating_edit(e: EventView) -> bool {
    e matches EventView::Edit(a) && a.is_edit_spec()
}

/// Every dispatch preserves the document's well-formedness.
pub proof fn lemma_step_preserves_inv(d: DocView, e: EventView)
    requires
        inv(d),
    ensures
        inv(step(d, e).0),
{
    match e {
        EventView::Edit(a) => {
            crate::content::lemma_apply_edit_wf(d.content, a);
        },
        _ => {},
    }
}

/// One edit leaves the document dirty exactly when it already was or the
/// action mutates the buffer.
pub proof fn lemma_edit_dirty(d: DocView, a: EditActionView)
    ensures
        step(d, EventView::Edit(a)).0.dirty == (d.dirty || a.is_edit_spec()),
{
}

/// A dirty document stays dirty under any event other than a successful
/// load or save: only those two completions mark the buffer as matching the
/// file again.
pub proof fn lemma_dirty_stable(d: DocView, e: EventView)
    requires
        d.dirty,
        !(e matches EventView::FileOpened(r) && r is Ok),
        !(e matches EventView::FileSaved(r) && r is Ok),
    ensures
        step(d, e).0.dirty,
{
}

/// A dirty document stays dirty under any sequence of edit events.
pub proof fn lemma_dirty_preserved_by_edits(d: DocView, events: Seq<EventView>)
    requires
        d.dirty,
        forall|i: int| 0 <= i < events.len() ==> #[trigger] events[i] is Edit,
    ensures
        run(d, events).dirty,
    decreases events.len(),
{
    if events.len() > 0 {
        lemma_dirty_preserved_by_edits(step(d, events[0]).0, events.drop_first());
    }
}

/// Dirty monotonicity: a sequence of edit events that contains at least one
/// mutating action leaves the document dirty, whatever it was before, and
/// it stays dirty until a successful load or save (see
/// [`lemma_dirty_stable`]).
pub proof fn lemma_dirty_monotonic(d: DocView, events: Seq<EventView>)
    requires
        forall|i: int| 0 <= i < events.len() ==> #[trigger] events[i] is Edit,
        exists|i: int| 0 <= i < events.len() && is_mutating_edit(#[trigger] events[i]),
    ensures
        run(d, events).dirty,
    decreases events.len(),
{
    let d1 = step(d, events[0]).0;
    if is_mutating_edit(events[0]) {
        lemma_dirty_preserved_by_edits(d1, events.drop_first());
    } else {
        let i = choose|i: int| 0 <= i < events.len() && is_mutating_edit(#[trigger] events[i]);
        assert(is_mutating_edit(events.drop_first()[i - 1]));
        lemma_dirty_monotonic(d1, events.drop_first());
    }
}

/// Error freshness: any edit leaves no recorded failure behind, whatever
/// was recorded before.
pub proof fn lemma_edit_clears_error(d: DocView, a: EditActionView)
    ensures
        step(d, EventView::Edit(a)).0.error is None,
{
}

/// Save snapshot correctness: a save request carries the text the document
/// held at dispatch time, and an edit dispatched while the save is still in
/// flight changes the document's buffer but not the text the effect
/// carries.
pub proof fn lemma_save_snapshot(d: DocView, a: EditActionView)
    ensures
        ({
            let (d1, eff) = step(d, EventView::RequestSave);
            let d2 = step(d1, EventView::Edit(a)).0;
            &&& eff == Some(EffectView::Save(d.path, d.content.text))
            &&& d2.content == apply_edit(d.content, a)
            &&& eff matches Some(EffectView::Save(p, text)) && text == d.content.text
        }),
{
}

/// Cancellation is not a displayed failure: a load that completes as a
/// closed dialog requests nothing further, leaves buffer and path exactly
/// as they were, and shows nothing in the status area — just like the idle
/// state.
pub proof fn lemma_cancel_is_silent(d: DocView)
    ensures
        ({
            let (d1, eff) = step(d, EventView::FileOpened(Err(Error::DialogClosed)));
            &&& eff is None
            &&& d1.content == d.content
            &&& d1.path == d.path
            &&& d1.dirty == d.dirty
            &&& shown_error_spec(d1) is None
        }),
{
}

/// Round trip: a save requested right after a successful load, with no
/// event in between, writes the loaded text back to the loaded path,
/// unchanged.
pub proof fn lemma_round_trip(d: DocView, path: Seq<char>, text: Seq<char>)
    ensures
        ({
            let d1 = step(d, EventView::FileOpened(Ok((path, text)))).0;
            let (d2, eff) = step(d1, EventView::RequestSave);
            &&& eff == Some(EffectView::Save(Some(path), text))
            &&& d2 == d1
        }),
{
}

/// The path is set only by a successful load, a successful save, or the
/// replacement of the document with a fresh one; no other event touches it.
pub proof fn lemma_path_provenance(d: DocView, e: EventView)
    ensures
        step(d, e).0.path != d.path ==> {
            ||| e matches EventView::FileOpened(r) && r is Ok
            ||| e matches EventView::FileSaved(r) && r is Ok
            ||| e is RequestNew
        },
{
}

/// A failure is recorded only by a failed load or save, and any edit clears
/// it; no other event changes what is recorded.
pub proof fn lemma_error_provenance(d: DocView, e: EventView)
    ensures
        step(d, e).0.error != d.error ==> {
            ||| e matches EventView::FileOpened(r) && r is Err
            ||| e matches EventView::FileSaved(r) && r is Err
            ||| e is Edit
        },
{
}

/// The document is clean immediately after a successful load or save.
pub proof fn lemma_clean_after_sync(d: DocView, e: EventView)
    requires
        (e matches EventView::FileOpened(r) && r is Ok) || (e matches EventView::FileSaved(r)
            && r is Ok),
    ensures
        !step(d, e).0.dirty,
{
}

} // verus!
