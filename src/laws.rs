use vstd::prelude::*;
use crate::context::{Item, LogContextView};

verus! {

/// A context after the backend accepted each of `items`, in order, through
/// the append and list steps.
pub open spec fn appended_all(c: LogContextView, items: Seq<Item>) -> LogContextView
    decreases items.len(),
{
    if items.len() == 0 {
        c
    } else {
        appended_all(c.appended(items[0]), items.drop_first())
    }
}

/// After any sequence of accepted appends, the record holds what it held
/// before followed by exactly the appended entries, in call order, list
/// delimiters included; the buffer and the tag do not change.
pub proof fn lemma_appends_keep_order(c: LogContextView, items: Seq<Item>)
    ensures
        appended_all(c, items).record == c.record + items,
        appended_all(c, items).log_type == c.log_type,
        appended_all(c, items).tag == c.tag,
    decreases items.len(),
{
    if items.len() > 0 {
        lemma_appends_keep_order(c.appended(items[0]), items.drop_first());
        assert(c.record.push(items[0]) + items.drop_first() =~= c.record + items);
    }
}

/// A record built on a fresh context is determined by its buffer, its tag
/// and the appended entries alone: it holds exactly those entries. So two
/// contexts created with the same buffer and tag, given the same accepted
/// appends, hold identical records.
pub proof fn lemma_same_appends_same_record(log_type: u32, tag: u32, items: Seq<Item>)
    ensures
        appended_all(LogContextView::fresh(log_type, tag), items) == (LogContextView {
            log_type,
            tag,
            record: items,
        }),
{
    lemma_appends_keep_order(LogContextView::fresh(log_type, tag), items);
    assert(Seq::<Item>::empty() + items =~= items);
}

} // verus!
