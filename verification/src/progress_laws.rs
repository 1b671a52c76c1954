//! What holds of every consumption of a progress handle.

use vstd::prelude::*;
use crate::progress::{consumed, notices_for, step_for, EventModel, NoticeModel, Step};

verus! {

/// What is shown for a sequence of events where every one of them is
/// reacted to: the notices of each event, in order.
pub open spec fn shown<T>(events: Seq<EventModel<T>>) -> Seq<NoticeModel>
    decreases events.len(),
{
    if events.len() == 0 {
        Seq::empty()
    } else {
        notices_for(events[0]) + shown(events.skip(1))
    }
}

/// Consumption ends at the first completion: what stands behind it is
/// never reacted to, everything up to it is shown, and there is an output
/// exactly where that completion is a success, namely its own.
pub proof fn law_consumption_ends_at_first_completion<T>(events: Seq<EventModel<T>>, at: int)
    requires
        0 <= at < events.len(),
        events[at] is Completed,
        forall|h: int| 0 <= h < at ==> !(#[trigger] events[h] is Completed),
    ensures
        consumed(events) == consumed(events.take(at + 1)),
        consumed(events).0 == shown(events.take(at + 1)),
        consumed(events).1 == if events[at]->Completed_success {
            Some(events[at]->Completed_output)
        } else {
            None
        },
    decreases at,
{
    let upto = events.take(at + 1);
    if at == 0 {
        assert(shown(upto.skip(1)) == Seq::<NoticeModel>::empty());
    } else {
        let rest = events.skip(1);
        law_consumption_ends_at_first_completion(rest, at - 1);
        assert(rest.take(at) == upto.skip(1));
    }
}

/// Without a completion every event is shown and there is no output:
/// errors of the stream, unexpected errors and events of unknown kind do
/// not end the consumption.
pub proof fn law_without_completion_everything_is_shown<T>(events: Seq<EventModel<T>>)
    requires
        forall|h: int| 0 <= h < events.len() ==> !(#[trigger] events[h] is Completed),
    ensures
        consumed(events).0 == shown(events),
        consumed(events).1 is None,
    decreases events.len(),
{
    if events.len() > 0 {
        let rest = events.skip(1);
        law_without_completion_everything_is_shown(rest);
    }
}

/// Only a completion ends the consumption, and it has an output only where
/// it is a success.
pub proof fn law_only_completion_ends<T>(event: EventModel<T>)
    ensures
        step_for(event) is Finished <==> event is Completed,
        step_for(event) matches Step::Finished(Some(output)) ==> event
            == (EventModel::Completed { output, success: true }),
{
}

} // verus!
