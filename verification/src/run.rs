//! Runs of the poll cycle controller: what holds of it over many events.

use vstd::prelude::*;
use crate::classify::{BodyView, STATUS_OK};
use crate::dispatch::{spec_delivery_failure, spec_notification, spec_processing_trace};
use crate::model::{QuestionView, ResponseView};
use crate::poller::{ActionView, EventView, PhaseView, PollerView, StepView};
use crate::query::spec_url;
use crate::report::ReportView;
use crate::window::TimeWindow;

verus! {

/// The poller after a run of events, and the steps that it asked for on the
/// way, one for each event.
pub open spec fn run(poller: PollerView, events: Seq<EventView>) -> (PollerView, Seq<StepView>)
    decreases events.len(),
{
    if events.len() == 0 {
        (poller, Seq::empty())
    } else {
        let (next, step) = poller.step(events.first());
        let (last, steps) = run(next, events.drop_first());
        (last, seq![step] + steps)
    }
}

/// Whether the event tells how a send went.
pub open spec fn is_send_result(event: EventView) -> bool {
    event is Sent || event is SendFailed
}

/// What is reported of a send of `item` that went as `result` says: the
/// failure if it failed, nothing if it did not.
pub open spec fn delivery_reports(item: QuestionView, result: EventView) -> Seq<ReportView> {
    match result {
        EventView::SendFailed { cause } => seq![spec_delivery_failure(item, cause)],
        _ => Seq::empty(),
    }
}

/// What is asked for once the send of the question at `k` went as `result`
/// says: the report of that send, and then the next question, whatever
/// `result` is; after the last question, the clock.
pub open spec fn step_after_send(items: Seq<QuestionView>, k: int, result: EventView) -> StepView {
    if k + 1 < items.len() {
        StepView {
            reports: delivery_reports(items[k], result).push(spec_processing_trace(items[k + 1])),
            action: ActionView::Send { message: spec_notification(items[k + 1]) },
        }
    } else {
        StepView { reports: delivery_reports(items[k], result), action: ActionView::ReadClock }
    }
}

/// No failed send stops a dispatch. A poller that is sending the question
/// at `next`, and hears how that send and each later one went, sends every
/// question that is left, in the batch's order, whether the sends before it
/// failed or not. Each failed send is reported once, naming its question;
/// a send that went through is not reported. With the last result the
/// iteration is over, and neither the watermark nor the setup has changed.
pub proof fn lemma_dispatch_isolated(
    poller: PollerView,
    items: Seq<QuestionView>,
    next: int,
    results: Seq<EventView>,
)
    requires
        poller.phase == (PhaseView::Dispatching { items, next }),
        0 <= next < items.len(),
        results.len() == items.len() - next,
        forall|j: int| 0 <= j < results.len() ==> is_send_result(#[trigger] results[j]),
    ensures
        run(poller, results).0 == poller.in_phase(PhaseView::Idle),
        run(poller, results).1.len() == results.len(),
        forall|j: int|
            0 <= j < results.len() ==> #[trigger] run(poller, results).1[j] == step_after_send(
                items,
                next + j,
                results[j],
            ),
    decreases results.len(),
{
    let first = results.first();
    let rest = results.drop_first();
    assert(is_send_result(first));
    let (after, step) = poller.step(first);
    assert(step == step_after_send(items, next, first)) by {
        assert(delivery_reports(items[next], first).len() <= 1);
    }
    if next + 1 < items.len() {
        assert(after.phase == (PhaseView::Dispatching { items, next: next + 1 }));
        assert forall|j: int| 0 <= j < rest.len() implies is_send_result(#[trigger] rest[j]) by {
            assert(rest[j] == results[j + 1]);
        }
        lemma_dispatch_isolated(after, items, next + 1, rest);
        assert(after.in_phase(PhaseView::Idle) == poller.in_phase(PhaseView::Idle));
        let steps = run(poller, results).1;
        let later = run(after, rest).1;
        assert(steps == seq![step] + later);
        assert forall|j: int| 0 <= j < results.len() implies #[trigger] steps[j]
            == step_after_send(items, next + j, results[j]) by {
            if j > 0 {
                assert(steps[j] == later[j - 1]);
                assert(rest[j - 1] == results[j]);
            }
        }
    } else {
        assert(rest.len() == 0);
        assert(after == poller.in_phase(PhaseView::Idle));
        let steps = run(poller, results).1;
        assert(steps == seq![step] + Seq::<StepView>::empty());
        assert(steps.len() == 1);
        assert(steps[0] == step);
    }
}

/// A batch is dispatched whole and in order. When the body of an answer
/// with status 200 decodes into `batch`, and the poller then hears how each
/// send went, it asks for one send for each question of the batch, in the
/// order in which the batch holds them: none twice, none left out, none
/// moved. Before each send it leaves the question's trace; after a failed
/// send it reports that failure, and goes on. Then it asks for the clock.
pub proof fn lemma_batch_dispatched_in_order(
    poller: PollerView,
    url: Seq<char>,
    batch: ResponseView,
    results: Seq<EventView>,
)
    requires
        poller.phase == (PhaseView::AwaitingBody { url, status: STATUS_OK }),
        results.len() == batch.items.len(),
        forall|j: int| 0 <= j < results.len() ==> is_send_result(#[trigger] results[j]),
    ensures
        ({
            let events = seq![EventView::Body(BodyView::Decoded(batch))] + results;
            let steps = run(poller, events).1;
            let n = batch.items.len() as int;
            &&& run(poller, events).0 == poller.in_phase(PhaseView::Idle)
            &&& steps.len() == n + 1
            &&& forall|j: int|
                0 <= j < n ==> (#[trigger] steps[j]).action == (ActionView::Send {
                    message: spec_notification(batch.items[j]),
                })
            &&& forall|j: int|
                0 <= j < n ==> (#[trigger] steps[j]).reports.last() == spec_processing_trace(
                    batch.items[j],
                )
            &&& steps[n].action == ActionView::ReadClock
            &&& steps[0].reports.len() == if n > 0 {
                1nat
            } else {
                0nat
            }
            &&& forall|j: int|
                0 <= j < n ==> #[trigger] steps[j + 1] == step_after_send(
                    batch.items,
                    j,
                    results[j],
                )
        }),
{
    let opening = EventView::Body(BodyView::Decoded(batch));
    let events = seq![opening] + results;
    let n = batch.items.len() as int;
    assert(events.first() == opening);
    assert(events.drop_first() == results);
    let (after, step) = poller.step(opening);
    let steps = run(poller, events).1;
    let later = run(after, results).1;
    assert(steps == seq![step] + later);
    if n > 0 {
        assert(after.phase == (PhaseView::Dispatching { items: batch.items, next: 0 }));
        lemma_dispatch_isolated(after, batch.items, 0, results);
        assert(after.in_phase(PhaseView::Idle) == poller.in_phase(PhaseView::Idle));
        assert forall|j: int| 0 <= j < n implies #[trigger] steps[j + 1] == step_after_send(
            batch.items,
            j,
            results[j],
        ) by {
            assert(steps[j + 1] == later[j]);
        }
        assert forall|j: int| 0 <= j < n implies (#[trigger] steps[j]).action == (ActionView::Send {
            message: spec_notification(batch.items[j]),
        }) && steps[j].reports.last() == spec_processing_trace(batch.items[j]) by {
            if j > 0 {
                assert(steps[(j - 1) + 1] == step_after_send(batch.items, j - 1, results[j - 1]));
            }
        }
        assert(steps[(n - 1) + 1] == step_after_send(batch.items, n - 1, results[n - 1]));
    } else {
        assert(results.len() == 0);
        assert(after == poller.in_phase(PhaseView::Idle));
    }
}

/// The watermark moves when an iteration begins, and at no other time:
/// a clock reading taken between iterations sets it to the end of the new
/// window and asks for the wait, with the query for that window kept for
/// the fetch; any other event leaves every part of the poll state as it
/// is, whatever the event tells of. So a failed fetch or send takes nothing
/// back, and the count of iterations only grows: by one with each
/// iteration that begins. The setup never changes.
pub proof fn lemma_watermark_moves_at_begin_only(poller: PollerView, event: EventView)
    ensures
        poller.step(event).0.config == poller.config,
        begins(poller, event) && poller.accepts(event) ==> poller.step(
            event,
        ).0.state.iteration_count == poller.state.iteration_count + 1,
        begins(poller, event) ==> ({
            let now = event->now;
            let window = poller.state.spec_window(now, poller.config.interval);
            let url = spec_url(
                window.from,
                window.to,
                poller.config.tag,
                poller.config.max_items,
                poller.config.key,
            );
            &&& poller.step(event).0.state.last_window_end == Some(window.to)
            &&& poller.step(event).0.phase == (PhaseView::Waiting { url })
            &&& poller.step(event).1.reports.len() == 1
            &&& poller.step(event).1.reports[0].message == url
            &&& poller.step(event).1.action == (ActionView::Sleep {
                seconds: poller.config.interval,
            })
        }),
        !begins(poller, event) ==> poller.step(event).0.state == poller.state,
{
}

/// An iteration that a run began: the clock reading that began it, and the
/// window that was made for it.
pub struct Begun {
    pub now: u64,
    pub window: TimeWindow,
}

/// Whether the event begins an iteration of the poller: a clock reading
/// that comes between iterations.
pub open spec fn begins(poller: PollerView, event: EventView) -> bool {
    poller.phase is Idle && event is Clock
}

/// The iterations that a run of events begins, in order.
pub open spec fn iterations_of_run(poller: PollerView, events: Seq<EventView>) -> Seq<Begun>
    decreases events.len(),
{
    if events.len() == 0 {
        Seq::empty()
    } else {
        let later = iterations_of_run(poller.step(events.first()).0, events.drop_first());
        if begins(poller, events.first()) {
            let now = events.first()->now;
            seq![Begun { now, window: poller.state.spec_window(now, poller.config.interval) }]
                + later
        } else {
            later
        }
    }
}

/// The windows of a run leave no gap and do not overlap. Whatever events a
/// poller hears, and whatever the fetches and sends in between come to,
/// each iteration's window starts where the window of the iteration before
/// it ended. The first window of a run starts at the poller's watermark; a
/// poller that has none yet starts it at the clock reading that began the
/// iteration.
pub proof fn lemma_run_windows_contiguous(poller: PollerView, events: Seq<EventView>)
    ensures
        forall|i: int|
            0 <= i && i + 1 < iterations_of_run(poller, events).len() ==> (
            #[trigger] iterations_of_run(poller, events)[i]).window.to == iterations_of_run(
                poller,
                events,
            )[i + 1].window.from,
        iterations_of_run(poller, events).len() > 0 ==> iterations_of_run(
            poller,
            events,
        )[0].window.from == match poller.state.last_window_end {
            Some(end) => end,
            None => iterations_of_run(poller, events)[0].now,
        },
        forall|i: int|
            0 <= i < iterations_of_run(poller, events).len() && (#[trigger] iterations_of_run(
                poller,
                events,
            )[i]).now + poller.config.interval <= u64::MAX ==> iterations_of_run(
                poller,
                events,
            )[i].window.to == iterations_of_run(poller, events)[i].now + poller.config.interval,
    decreases events.len(),
{
    if events.len() > 0 {
        let first = events.first();
        let after = poller.step(first).0;
        let later = iterations_of_run(after, events.drop_first());
        let all = iterations_of_run(poller, events);
        lemma_watermark_moves_at_begin_only(poller, first);
        lemma_run_windows_contiguous(after, events.drop_first());
        if begins(poller, first) {
            let now = first->now;
            let begun = Begun { now, window: poller.state.spec_window(now, poller.config.interval) };
            assert(all == seq![begun] + later);
            assert forall|i: int| 0 <= i && i + 1 < all.len() implies (#[trigger] all[i]).window.to
                == all[i + 1].window.from by {
                if i > 0 {
                    assert(all[i] == later[i - 1]);
                    assert(all[i + 1] == later[(i - 1) + 1]);
                } else {
                    assert(all[1] == later[0]);
                }
            }
            assert forall|i: int|
                0 <= i < all.len() && (#[trigger] all[i]).now + poller.config.interval
                    <= u64::MAX implies all[i].window.to == all[i].now
                + poller.config.interval by {
                if i > 0 {
                    assert(all[i] == later[i - 1]);
                }
            }
        } else {
            assert(all == later);
        }
    }
}

} // verus!
