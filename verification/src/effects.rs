//! The decisions made at the effect boundary.
//!
//! Dialogs and filesystem access run outside this crate; what they hand
//! back — a picked path or nothing, a read or written file or a failure
//! kind — is converted here into exactly one typed completion event, so
//! that no failure ever bubbles past a dispatch and cancellation is kept
//! apart from a real fault.

use vstd::prelude::*;

use crate::document::Event;
use crate::document::EventView;
use crate::error::Error;
use crate::error::IoErrorKind;

verus! {

/// Resolves the path a save writes to: the document's own path when it has
/// one, else the freshly picked location; with neither, the save fails as a
/// closed dialog.
pub fn save_dialog_outcome(current: Option<Vec<char>>, picked: Option<Vec<char>>) -> (r: Result<
    Vec<char>,
    Error,
>)
    ensures
        current matches Some(p) ==> (r matches Ok(q) && q@ == p@),
        current is None ==> (match picked {
            Some(p) => r matches Ok(q) && q@ == p@,
            None => r == Err::<Vec<char>, Error>(Error::DialogClosed),
        }),
{
    match current {
        Some(p) => Ok(p),
        None => match picked {
            Some(p) => Ok(p),
            None => Err(Error::DialogClosed),
        },
    }
}

/// Returns the completion event of a load: the path with the text read on
/// success, or the filesystem failure, classified by its kind.
pub fn load_completed(path: Vec<char>, read: Result<Vec<char>, IoErrorKind>) -> (e: Event)
    ensures
        read matches Ok(text) ==> e@ == EventView::FileOpened(Ok((path@, text@))),
        read matches Err(kind) ==> e@ == EventView::FileOpened(
            Err(Error::IoFailed(kind)),
        ),
{
    match read {
        Ok(text) => Event::FileOpened(Ok((path, text))),
        Err(kind) => Event::FileOpened(Err(Error::IoFailed(kind))),
    }
}

/// Returns the completion event of an open dialog the user closed without
/// picking a file: a failure event, so a prior error can still be cleared
/// and the document stays as it is, but never a displayed fault.
pub fn open_cancelled() -> (e: Event)
    ensures
        e@ == EventView::FileOpened(Err(Error::DialogClosed)),
{
    Event::FileOpened(Err(Error::DialogClosed))
}

/// Returns the completion event of a save: the path written on success, or
/// the filesystem failure, classified by its kind.
pub fn save_completed(path: Vec<char>, write: Result<(), IoErrorKind>) -> (e: Event)
    ensures
        write matches Ok(u) ==> e@ == EventView::FileSaved(Ok(path@)),
        write matches Err(kind) ==> e@ == EventView::FileSaved(Err(Error::IoFailed(kind))),
{
    match write {
        Ok(_) => Event::FileSaved(Ok(path)),
        Err(kind) => Event::FileSaved(Err(Error::IoFailed(kind))),
    }
}

/// Returns the completion event of a save dialog the user closed without
/// choosing a location.
pub fn save_cancelled() -> (e: Event)
    ensures
        e@ == EventView::FileSaved(Err(Error::DialogClosed)),
{
    Event::FileSaved(Err(Error::DialogClosed))
}

} // verus!
