//! What the status record guarantees about the order of events.
//!
//! Producers share one channel. Events of one producer arrive in the order
//! in which it published them; how the streams of different producers
//! interleave is left open. The laws below say what the record shows
//! under every such interleaving.

use crate::event::InfoUpdateView;
use crate::status::{apply, apply_all, StatusInfoView};
use vstd::prelude::*;

verus! {

/// The four kinds of event, one for each part of the record.
pub enum EventKind {
    Addr,
    Button,
    Motion,
    Msg,
}

/// The kind of an event.
pub open spec fn kind_of(e: InfoUpdateView) -> EventKind {
    match e {
        InfoUpdateView::Addr(_) => EventKind::Addr,
        InfoUpdateView::Button(_) => EventKind::Button,
        InfoUpdateView::Motion(_) => EventKind::Motion,
        InfoUpdateView::Msg(_) => EventKind::Msg,
    }
}

/// Whether two records agree on the part that events of kind `k` write.
pub open spec fn same_part(k: EventKind, x: StatusInfoView, y: StatusInfoView) -> bool {
    match k {
        EventKind::Addr => x.address == y.address && x.ip_text == y.ip_text,
        EventKind::Button => x.button_state == y.button_state,
        EventKind::Motion => x.motion_state == y.motion_state,
        EventKind::Msg => x.message == y.message,
    }
}

/// Whether every event of the sequence has kind `k`.
pub open spec fn all_of_kind(k: EventKind, events: Seq<InfoUpdateView>) -> bool {
    forall|i: int| 0 <= i < events.len() ==> kind_of(#[trigger] events[i]) == k
}

/// Whether no event of the sequence has kind `k`.
pub open spec fn none_of_kind(k: EventKind, events: Seq<InfoUpdateView>) -> bool {
    forall|i: int| 0 <= i < events.len() ==> kind_of(#[trigger] events[i]) != k
}

/// Whether `merged` is an interleaving of `a` and `b`: it holds the events of
/// both, each stream in its own order.
pub open spec fn interleaves(
    merged: Seq<InfoUpdateView>,
    a: Seq<InfoUpdateView>,
    b: Seq<InfoUpdateView>,
) -> bool
    decreases merged.len(),
{
    if merged.len() == 0 {
        a.len() == 0 && b.len() == 0
    } else {
        ||| (a.len() > 0 && a.last() == merged.last() && interleaves(
            merged.drop_last(),
            a.drop_last(),
            b,
        ))
        ||| (b.len() > 0 && b.last() == merged.last() && interleaves(
            merged.drop_last(),
            a,
            b.drop_last(),
        ))
    }
}

/// An event leaves alone every part of the record but the one of its kind.
pub proof fn lemma_apply_other_kind(k: EventKind, s: StatusInfoView, e: InfoUpdateView)
    requires
        kind_of(e) != k,
    ensures
        same_part(k, apply(s, e), s),
{
}

/// What an event writes to the part of its kind does not depend on the
/// record so far.
pub proof fn lemma_apply_same_kind(
    k: EventKind,
    x: StatusInfoView,
    y: StatusInfoView,
    e: InfoUpdateView,
)
    requires
        kind_of(e) == k,
    ensures
        same_part(k, apply(x, e), apply(y, e)),
{
}

/// Events of other kinds never change the part of kind `k`.
pub proof fn law_other_kinds_leave_part(
    k: EventKind,
    s: StatusInfoView,
    events: Seq<InfoUpdateView>,
)
    requires
        none_of_kind(k, events),
    ensures
        same_part(k, apply_all(s, events), s),
    decreases events.len(),
{
    if events.len() > 0 {
        let rest = events.drop_last();
        assert forall|i: int| 0 <= i < rest.len() implies kind_of(#[trigger] rest[i]) != k by {
            assert(rest[i] == events[i]);
        }
        law_other_kinds_leave_part(k, s, rest);
        lemma_apply_other_kind(k, apply_all(s, rest), events.last());
    }
}

/// The last event of a kind wins: after a sequence in which `events[i]` is
/// the last event of its kind, the part of that kind is what `events[i]` wrote.
pub proof fn law_last_event_wins(s: StatusInfoView, events: Seq<InfoUpdateView>, i: int)
    requires
        0 <= i < events.len(),
        forall|j: int| i < j < events.len() ==> kind_of(#[trigger] events[j]) != kind_of(events[i]),
    ensures
        same_part(kind_of(events[i]), apply_all(s, events), apply(s, events[i])),
    decreases events.len(),
{
    let k = kind_of(events[i]);
    let rest = events.drop_last();
    if i == events.len() - 1 {
        lemma_apply_same_kind(k, apply_all(s, rest), s, events[i]);
    } else {
        assert(rest[i] == events[i]);
        assert forall|j: int| i < j < rest.len() implies kind_of(#[trigger] rest[j]) != kind_of(
            rest[i],
        ) by {
            assert(rest[j] == events[j]);
        }
        law_last_event_wins(s, rest, i);
        lemma_apply_other_kind(k, apply_all(s, rest), events.last());
    }
}

/// Per-producer order survives every interleaving: when one producer is the
/// only source of events of kind `k`, the part of kind `k` after the merged
/// stream is the same as after that producer's own stream, however the
/// other producer's events fall in between.
pub proof fn law_producer_order_preserved(
    k: EventKind,
    s: StatusInfoView,
    merged: Seq<InfoUpdateView>,
    a: Seq<InfoUpdateView>,
    b: Seq<InfoUpdateView>,
)
    requires
        interleaves(merged, a, b),
        all_of_kind(k, a),
        none_of_kind(k, b),
    ensures
        same_part(k, apply_all(s, merged), apply_all(s, a)),
    decreases merged.len(),
{
    if merged.len() > 0 {
        let rest = merged.drop_last();
        if a.len() > 0 && a.last() == merged.last() && interleaves(rest, a.drop_last(), b) {
            let a_rest = a.drop_last();
            assert forall|i: int| 0 <= i < a_rest.len() implies kind_of(#[trigger] a_rest[i])
                == k by {
                assert(a_rest[i] == a[i]);
            }
            law_producer_order_preserved(k, s, rest, a_rest, b);
            assert(kind_of(a[a.len() - 1]) == k);
            lemma_apply_same_kind(k, apply_all(s, rest), apply_all(s, a_rest), merged.last());
        } else {
            let b_rest = b.drop_last();
            assert forall|i: int| 0 <= i < b_rest.len() implies kind_of(#[trigger] b_rest[i])
                != k by {
                assert(b_rest[i] == b[i]);
            }
            law_producer_order_preserved(k, s, rest, a, b_rest);
            assert(kind_of(b[b.len() - 1]) != k);
            lemma_apply_other_kind(k, apply_all(s, rest), merged.last());
        }
    }
}

/// An interleaving loses and invents nothing: it is as long as both streams
/// together.
pub proof fn law_interleaving_keeps_every_event(
    merged: Seq<InfoUpdateView>,
    a: Seq<InfoUpdateView>,
    b: Seq<InfoUpdateView>,
)
    requires
        interleaves(merged, a, b),
    ensures
        merged.len() == a.len() + b.len(),
    decreases merged.len(),
{
    if merged.len() > 0 {
        let rest = merged.drop_last();
        if a.len() > 0 && a.last() == merged.last() && interleaves(rest, a.drop_last(), b) {
            law_interleaving_keeps_every_event(rest, a.drop_last(), b);
        } else {
            law_interleaving_keeps_every_event(rest, a, b.drop_last());
        }
    }
}

} // verus!
