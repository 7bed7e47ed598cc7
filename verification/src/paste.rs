//! Pasting the most recent transcription.
//!
//! When a paste-last gesture completes, the host asks the history for its
//! most recent entries and hands over what came back. The decision made
//! here is final: a failed injection is reported by the host and not tried
//! again.

use vstd::prelude::*;

verus! {

/// How many entries the host asks the history for.
pub const PASTE_HISTORY_LIMIT: usize = 1;

/// A record of the history; only its text is read here.
#[derive(Clone, Debug, PartialEq, Eq)]
pub struct HistoryEntry {
    pub text: String,
}

/// What to do on a completed paste-last gesture.
#[derive(Clone, Debug, PartialEq, Eq)]
pub enum PasteDecision {
    /// Type this text at the input focus.
    Inject(String),
    /// The history is empty: nothing is typed, and nothing went wrong.
    NothingToPaste,
    /// The history could not be read: nothing is typed.
    HistoryUnavailable,
}

/// Decides what a completed paste-last gesture types, given the entries
/// fetched from the history, most recent first, or `None` where the history
/// could not be read. The text of the first entry is typed; without an
/// entry nothing is.
pub fn paste_last_transcription(fetched: &Option<Vec<HistoryEntry>>) -> (decision: PasteDecision)
    ensures
        match *fetched {
            None => decision is HistoryUnavailable,
            Some(entries) => if entries@.len() == 0 {
                decision is NothingToPaste
            } else {
                decision matches PasteDecision::Inject(text) && text@ == entries@[0].text@
            },
        },
{
    match fetched {
        None => PasteDecision::HistoryUnavailable,
        Some(entries) => {
            if entries.len() == 0 {
                PasteDecision::NothingToPaste
            } else {
                PasteDecision::Inject(entries[0].text.clone())
            }
        },
    }
}

} // verus!
