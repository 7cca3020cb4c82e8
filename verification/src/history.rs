//! The list of recent uploads shown to the user.

use vstd::prelude::*;

verus! {

/// One upload in the history.
#[derive(Debug, Clone)]
pub struct UploadHistoryItem {
    pub filename: String,
    pub photo_uuid: Option<String>,
    pub time: String,
}

/// How many uploads the history keeps.
pub const HISTORY_LIMIT: usize = 10;

/// The history after an upload: the new item first, then the previous items,
/// cut to the limit.
pub open spec fn history_after<T>(history: Seq<T>, item: T) -> Seq<T> {
    let full = seq![item] + history;
    if full.len() > 10 {
        full.take(10)
    } else {
        full
    }
}

/// Puts a new upload at the head of the history, keeping at most ten entries.
pub fn record_upload(history: &mut Vec<UploadHistoryItem>, item: UploadHistoryItem)
    ensures
        final(history)@ == history_after(old(history)@, item),
{
    let ghost before = history@;
    history.insert(0, item);
    assert(history@ =~= seq![item] + before);
    if history.len() > HISTORY_LIMIT {
        history.truncate(HISTORY_LIMIT);
        assert(history@ =~= (seq![item] + before).take(10));
    }
}

/// An entry as plain text: file name, the photo's id on the server, time.
pub open spec fn entry_view(e: UploadHistoryItem) -> (Seq<char>, Option<Seq<char>>, Seq<char>) {
    (
        e.filename@,
        match e.photo_uuid {
            Some(u) => Some(u@),
            None => None,
        },
        e.time@,
    )
}

/// The history as plain text.
pub open spec fn history_view(h: Seq<UploadHistoryItem>) -> Seq<
    (Seq<char>, Option<Seq<char>>, Seq<char>),
> {
    h.map_values(|e: UploadHistoryItem| entry_view(e))
}

/// Recording an upload commutes with taking the entries as plain text.
pub proof fn lemma_history_view_after(history: Seq<UploadHistoryItem>, item: UploadHistoryItem)
    ensures
        history_view(history_after(history, item)) == history_after(
            history_view(history),
            entry_view(item),
        ),
{
    let full = seq![item] + history;
    assert(history_view(full) =~= seq![entry_view(item)] + history_view(history));
    if full.len() > 10 {
        assert(history_view(full.take(10)) =~= history_view(full).take(10));
    }
}

/// The history never holds more than ten uploads, the newest first, and the
/// entries that stay keep their order.
pub proof fn lemma_history_bounded<T>(history: Seq<T>, item: T)
    ensures
        history_after(history, item).len() <= 10,
        history_after(history, item)[0] == item,
        forall|i: int|
            1 <= i < history_after(history, item).len() ==> #[trigger] history_after(
                history,
                item,
            )[i] == history[i - 1],
        history.len() < 10 ==> history_after(history, item).len() == history.len() + 1,
{
}

} // verus!
