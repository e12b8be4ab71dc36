//! Laws that relate the server's operations.
use vstd::prelude::*;
use crate::filter::{filter_selects, filter_text, no_filter_text, regex_valid};
use crate::server::{
    CommandView, Platform, ReplyView, ServerState, forwarded, step, with_sink, without_sink,
};

verus! {

/// A line goes to the sink exactly when a sink is active and the filter
/// selects the line; once the sink is retired, no line goes there.
pub proof fn lemma_forwarding(s: ServerState, line: Seq<char>)
    ensures
        forwarded(s, line) <==> (s.sink is Some && filter_selects(s.filter, line)),
        s.filter is None ==> !forwarded(s, line),
        !forwarded(without_sink(s), line),
{
}

/// Clearing a filter that is not set changes nothing, and a query after it
/// still answers the sentinel text.
pub proof fn lemma_clear_unset_filter(s: ServerState)
    requires
        s.filter is None,
    ensures
        step(s, CommandView::SetFilter(None)).0 == s,
        step(step(s, CommandView::SetFilter(None)).0, CommandView::QueryFilter).1
            == ReplyView::Respond(no_filter_text()),
{
}

/// Setting the filter to a pattern that compiles and then querying answers
/// that pattern; setting it to one that does not compile leaves the state as
/// it was, and the query answers the earlier pattern or the sentinel text.
pub proof fn lemma_set_then_query(s: ServerState, p: Seq<char>)
    ensures
        regex_valid(p) ==> step(
            step(s, CommandView::SetFilter(Some(p))).0,
            CommandView::QueryFilter,
        ).1 == ReplyView::Respond(p),
        !regex_valid(p) ==> step(s, CommandView::SetFilter(Some(p))).0 == s,
        !regex_valid(p) ==> step(
            step(s, CommandView::SetFilter(Some(p))).0,
            CommandView::QueryFilter,
        ).1 == ReplyView::Respond(filter_text(s.filter)),
{
}

/// Of two registrations in a row the second one holds: the sink is `id2`, and
/// the lines forwarded afterwards are those the filter selects.
pub proof fn lemma_second_registration_wins(s: ServerState, id1: Seq<char>, id2: Seq<char>)
    ensures
        with_sink(with_sink(s, id1), id2).sink == Some(id2),
        s.platform == Platform::Pipe ==> step(
            step(s, CommandView::RegisterSink(id1)).0,
            CommandView::RegisterSink(id2),
        ).0.sink == Some(id2),
        forall|line: Seq<char>|
            #![auto]
            forwarded(with_sink(with_sink(s, id1), id2), line) == filter_selects(s.filter, line),
{
}

} // verus!
