//! What the supervisor lets the status panel know.
//!
//! Some steps of the supervisor are worth a line on the panel: the start of
//! an attempt to join, the leased address, a retry of the clock and the
//! rebuilding of the link. `supervise` takes the step and publishes the
//! notice that belongs to it.

use crate::channel::{publish, InfoSender, PublishError};
use crate::event::{InfoUpdate, InfoUpdateView};
use crate::supervisor::{step, valid, LinkAction, LinkActionView, LinkEvent, Supervisor};
use vstd::prelude::*;

verus! {

/// The notice that belongs to a step, given whether the event that was
/// reported is `Start` and the action it was answered with: a start that was
/// accepted says that the joining begins, a lease announces its address, and
/// a retry of the clock or a rebuilding of the link leave a message. No
/// other step is worth a notice, and a start that was ignored is not either.
pub open spec fn notice_for(was_start: bool, a: LinkActionView) -> Option<InfoUpdateView> {
    match a {
        LinkActionView::StartScan => if was_start {
            Some(InfoUpdateView::Msg("initial_wifi"@))
        } else {
            None
        },
        LinkActionView::Announce(address) => Some(InfoUpdateView::Addr(address)),
        LinkActionView::SyncClock => Some(InfoUpdateView::Msg("msg"@)),
        LinkActionView::DisconnectAndStop => Some(InfoUpdateView::Msg("msg"@)),
        _ => None,
    }
}

/// The view of a notice that may be absent.
pub open spec fn notice_view(notice: Option<InfoUpdate>) -> Option<InfoUpdateView> {
    match notice {
        Some(n) => Some(n@),
        None => None,
    }
}

/// The notice that belongs to a step, if any. `was_start` says whether the
/// event of the step was `Start`.
pub fn notice(was_start: bool, action: &LinkAction) -> (n: Option<InfoUpdate>)
    ensures
        notice_view(n) == notice_for(was_start, action@),
{
    match action {
        LinkAction::StartScan => if was_start {
            Some(InfoUpdate::message("initial_wifi"))
        } else {
            None
        },
        LinkAction::Announce(address) => Some(InfoUpdate::Addr(*address)),
        LinkAction::SyncClock => Some(InfoUpdate::message("msg")),
        LinkAction::DisconnectAndStop => Some(InfoUpdate::message("msg")),
        _ => None,
    }
}

/// Takes one step of the supervisor and publishes the notice that belongs
/// to it.
///
/// The step is taken whatever becomes of the notice. A step without a notice
/// publishes nothing and cannot fail. A notice that cannot be delivered,
/// because the consumer is gone, comes back in the error.
pub fn supervise(supervisor: &mut Supervisor, event: LinkEvent, tx: &InfoSender) -> (r: (
    LinkAction,
    Result<(), PublishError>,
))
    ensures
        (final(supervisor)@, r.0@) == step(old(supervisor)@, event@),
        valid(final(supervisor)@),
        notice_for(event@ is Start, r.0@) is None ==> r.1 is Ok,
        r.1 matches Err(e) ==> e matches PublishError::Disconnected(n) && Some(n@) == notice_for(
            event@ is Start,
            r.0@,
        ),
{
    let was_start = match event {
        LinkEvent::Start => true,
        _ => false,
    };
    let action = supervisor.step(event);
    let published = match notice(was_start, &action) {
        Some(n) => publish(tx, n),
        None => Ok(()),
    };
    (action, published)
}

} // verus!
