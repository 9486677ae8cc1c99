//! What a whole history of presses and releases makes of a handler.

use crate::click::{
    handler_at_start, HandlerView, DOUBLE_CLICK_NANOS, RESET_NANOS, TRIPLE_CLICK_NANOS,
};
use crate::moment::{elapsed, Moment};
use vstd::prelude::*;

verus! {

/// A frame, as far as one button goes.
pub ghost struct PressFrame {
    pub pressed: bool,
    pub now: Moment,
}

/// The handler before frame `i`.
pub open spec fn handler_at(start: HandlerView, frames: Seq<PressFrame>, i: int) -> HandlerView
    decreases i,
{
    if i <= 0 {
        start
    } else {
        handler_at(start, frames, i - 1).after(frames[i - 1].pressed, frames[i - 1].now)
    }
}

/// What the handler answers in frame `i`.
pub open spec fn answer_at(start: HandlerView, frames: Seq<PressFrame>, i: int) -> bool {
    handler_at(start, frames, i).answer(frames[i].pressed, frames[i].now)
}

/// The button goes down in frame `i`.
pub open spec fn press_at(frames: Seq<PressFrame>, i: int) -> bool {
    0 <= i < frames.len() && frames[i].pressed && (i == 0 || !frames[i - 1].pressed)
}

/// Time does not run backwards, and starts late enough for a history to be moved back.
pub open spec fn in_order(frames: Seq<PressFrame>) -> bool {
    &&& forall|i: int, j: int|
        0 <= i <= j < frames.len() ==> (#[trigger] frames[i]).now.nanos <= (
        #[trigger] frames[j]).now.nanos
    &&& forall|i: int|
        0 <= i < frames.len() ==> (#[trigger] frames[i]).now.nanos - RESET_NANOS >= i64::MIN
}

/// The button goes down in frame `i`, at that moment.
pub open spec fn pressed_at(frames: Seq<PressFrame>, i: int, moment: Moment) -> bool {
    press_at(frames, i) && frames[i].now == moment
}

/// The moment was set by moving a history back in frame `i`.
spec fn moved_back_at(frames: Seq<PressFrame>, i: int, moment: Moment) -> bool {
    0 <= i < frames.len() && moment.nanos == frames[i].now.nanos - RESET_NANOS
}

/// The moment comes from the handler's creation, from a history that was moved back, or
/// from a press before frame `i`.
spec fn accounted(frames: Seq<PressFrame>, created: Moment, i: int, moment: Moment) -> bool {
    ||| moment == created
    ||| exists|r: int| 0 <= r < i && #[trigger] moved_back_at(frames, r, moment)
    ||| exists|a: int| 0 <= a < i && #[trigger] pressed_at(frames, a, moment)
}

/// The earlier of two moments comes from the creation or from a history that was moved
/// back, or the two come from two presses before frame `i`.
spec fn both_accounted(
    frames: Seq<PressFrame>,
    created: Moment,
    i: int,
    earlier: Moment,
    later: Moment,
) -> bool {
    ||| earlier == created
    ||| exists|r: int| 0 <= r < i && #[trigger] moved_back_at(frames, r, earlier)
    ||| exists|a: int, b: int|
        0 <= a < b < i && #[trigger] pressed_at(frames, a, earlier) && #[trigger] pressed_at(
            frames,
            b,
            later,
        )
}

/// What is known of a handler before frame `i`: whether it is held, and where its
/// history comes from.
proof fn lemma_handler_at(
    side: Seq<char>,
    count: nat,
    action: Seq<char>,
    created: Moment,
    frames: Seq<PressFrame>,
    i: int,
)
    requires
        1 <= count <= 2,
        in_order(frames),
        0 <= i <= frames.len(),
    ensures
        ({
            let h = handler_at(handler_at_start(side, count, action, created), frames, i);
            &&& h.well_formed()
            &&& h.previous.len() == count
            &&& h.idle() <==> i == 0 || !frames[i - 1].pressed
            &&& accounted(frames, created, i, h.previous[0])
            &&& count == 2 ==> both_accounted(
                frames,
                created,
                i,
                h.previous[1],
                h.previous[0],
            )
        }),
    decreases i,
{
    if i > 0 {
        lemma_handler_at(side, count, action, created, frames, i - 1);
        let start = handler_at_start(side, count, action, created);
        let g = handler_at(start, frames, i - 1);
        let h = handler_at(start, frames, i);
        let now = frames[i - 1].now;
        if frames[i - 1].pressed && g.idle() {
            if g.completes(now) {
                assert(moved_back_at(frames, i - 1, h.previous[0]));
                assert(count == 2 ==> moved_back_at(frames, i - 1, h.previous[1]));
            } else {
                assert(pressed_at(frames, i - 1, h.previous[0]));
                if count == 2 {
                    assert(h.previous[1] == g.previous[0]);
                }
            }
        } else {
            assert(h.previous == g.previous);
        }
    }
}

/// A double click takes two presses: where one is recognised, the button went down less
/// than half a second before. Only the handler's creation can stand for that press.
pub proof fn double_click_takes_two_presses(
    side: Seq<char>,
    action: Seq<char>,
    created: Moment,
    frames: Seq<PressFrame>,
    j: int,
)
    requires
        in_order(frames),
        press_at(frames, j),
        answer_at(handler_at_start(side, 1, action, created), frames, j),
    ensures
        elapsed(created, frames[j].now) < DOUBLE_CLICK_NANOS || exists|i: int|
            0 <= i < j && #[trigger] press_at(frames, i) && elapsed(frames[i].now, frames[j].now)
                < DOUBLE_CLICK_NANOS,
{
    lemma_handler_at(side, 1, action, created, frames, j);
    let h = handler_at(handler_at_start(side, 1, action, created), frames, j);
    let first = h.previous[0];
    assert(elapsed(first, frames[j].now) < DOUBLE_CLICK_NANOS);
    lemma_not_moved_back(frames, j, first);
    if first != created {
        let i = choose|a: int| 0 <= a < j && #[trigger] pressed_at(frames, a, first);
        assert(press_at(frames, i));
    }
}

/// A triple click takes three presses: where one is recognised, the button went down
/// twice less than three quarters of a second before. Only the handler's creation can
/// stand for these presses.
pub proof fn triple_click_takes_three_presses(
    side: Seq<char>,
    action: Seq<char>,
    created: Moment,
    frames: Seq<PressFrame>,
    j: int,
)
    requires
        in_order(frames),
        press_at(frames, j),
        answer_at(handler_at_start(side, 2, action, created), frames, j),
    ensures
        elapsed(created, frames[j].now) < TRIPLE_CLICK_NANOS || exists|a: int, b: int|
            0 <= a < b < j && #[trigger] press_at(frames, a) && #[trigger] press_at(frames, b)
                && elapsed(frames[a].now, frames[j].now) < TRIPLE_CLICK_NANOS && elapsed(
                frames[b].now,
                frames[j].now,
            ) < TRIPLE_CLICK_NANOS,
{
    lemma_handler_at(side, 2, action, created, frames, j);
    let h = handler_at(handler_at_start(side, 2, action, created), frames, j);
    let later = h.previous[0];
    let earlier = h.previous[1];
    assert(elapsed(later, frames[j].now) < TRIPLE_CLICK_NANOS);
    assert(elapsed(earlier, frames[j].now) < TRIPLE_CLICK_NANOS);
    lemma_not_moved_back(frames, j, earlier);
    if earlier != created {
        let (a, b) = choose|a: int, b: int|
            0 <= a < b < j && #[trigger] pressed_at(frames, a, earlier) && #[trigger] pressed_at(
                frames,
                b,
                later,
            );
        assert(press_at(frames, a));
        assert(press_at(frames, b));
    }
}

/// A history that was moved back is too old for any click.
proof fn lemma_not_moved_back(frames: Seq<PressFrame>, j: int, moment: Moment)
    requires
        in_order(frames),
        0 <= j < frames.len(),
        elapsed(moment, frames[j].now) < TRIPLE_CLICK_NANOS,
    ensures
        forall|r: int| 0 <= r < j ==> !#[trigger] moved_back_at(frames, r, moment),
{
    assert forall|r: int| 0 <= r < j implies !#[trigger] moved_back_at(frames, r, moment) by {
        assert(frames[r].now.nanos <= frames[j].now.nanos);
    }
}

/// However long the button is held, the answer stays as it was when it went down.
pub proof fn held_button_keeps_its_answer(
    start: HandlerView,
    frames: Seq<PressFrame>,
    i: int,
    j: int,
)
    requires
        start.well_formed(),
        0 <= i <= j < frames.len(),
        forall|k: int| i <= k <= j ==> (#[trigger] frames[k]).pressed,
    ensures
        answer_at(start, frames, j) == answer_at(start, frames, i),
    decreases j - i,
{
    lemma_well_formed_at(start, frames, i);
    if i < j {
        held_button_keeps_its_answer(start, frames, i, j - 1);
        lemma_well_formed_at(start, frames, j - 1);
        assert(frames[j - 1].pressed && frames[j].pressed);
    }
}

proof fn lemma_well_formed_at(start: HandlerView, frames: Seq<PressFrame>, i: int)
    requires
        start.well_formed(),
        0 <= i <= frames.len(),
    ensures
        handler_at(start, frames, i).well_formed(),
    decreases i,
{
    if i > 0 {
        lemma_well_formed_at(start, frames, i - 1);
    }
}

} // verus!
