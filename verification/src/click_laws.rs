//! What the operations on clicks promise, whatever is read and whatever came before.

use crate::click::{
    click_at_start, handler_at_start, ClickReads, ClickSensitivity, ClickView, CustomClickAction,
    HandlerReads, HandlerView, MultiClickHandler, ReadError,
};
use crate::float_bits::FloatBits;
use crate::moment::Moment;
use crate::names::{handler_name, value_name};
use crate::presses::{answer_at, handler_at, in_order, press_at, PressFrame};
use vstd::prelude::*;

verus! {

/// A boolean action that is active and on is a press by itself. Otherwise the numeric
/// action decides: it is a press exactly where it is active and its value is a number
/// not below the floor. A failed read is reported where it was needed, and only there.
pub proof fn press_comes_from_either_action(
    reads: &HandlerReads,
    floor: FloatBits,
    answer: Result<bool, ReadError>,
)
    requires
        call_ensures(HandlerReads::is_pressed, (reads, floor), answer),
    ensures
        reads.action_bool matches Err(e) ==> answer == Err::<bool, ReadError>(e),
        reads.action_bool matches Ok(button) && button.is_active && button.current_state
            ==> answer == Ok::<bool, ReadError>(true),
        reads.action_bool matches Ok(button) && !(button.is_active && button.current_state)
            && reads.action_f32 is Err ==> answer == Err::<bool, ReadError>(
            reads.action_f32->Err_0,
        ),
        reads.action_bool matches Ok(button) && !(button.is_active && button.current_state)
            && reads.action_f32 is Ok ==> {
            let trigger = reads.action_f32->Ok_0;
            &&& answer is Ok
            &&& answer->Ok_0 <==> trigger.is_active && !trigger.current_state.nan() && !floor.nan()
                && !trigger.current_state.lt(floor)
        },
        answer == reads.pressed(floor),
{
}

/// What is pressed at one value of the trigger is pressed at every greater one, and what
/// is pressed at one floor is pressed at every lower one.
pub proof fn pulling_further_keeps_the_press(
    reads: &HandlerReads,
    floor: FloatBits,
    further: &HandlerReads,
    lower: FloatBits,
    answer: Result<bool, ReadError>,
    next: Result<bool, ReadError>,
)
    requires
        call_ensures(HandlerReads::is_pressed, (reads, floor), answer),
        call_ensures(HandlerReads::is_pressed, (further, lower), next),
        further.action_bool == reads.action_bool,
        reads.action_f32 is Ok,
        further.action_f32 is Ok,
        further.action_f32->Ok_0.is_active == reads.action_f32->Ok_0.is_active,
        reads.action_f32->Ok_0.current_state.le(further.action_f32->Ok_0.current_state),
        lower.le(floor),
        answer == Ok::<bool, ReadError>(true),
    ensures
        next == Ok::<bool, ReadError>(true),
{
}

/// A new handler has the name of its side, count and action.
pub proof fn new_handler_has_its_name<const COUNT: usize>(
    action_name: &str,
    side: &str,
    now: Moment,
    handler: MultiClickHandler<COUNT>,
    name: &str,
    numeric: String,
)
    requires
        call_ensures(MultiClickHandler::<COUNT>::new, (action_name, side, now), handler),
    ensures
        handler@ == handler_at_start(side@, COUNT as nat, action_name@, now),
        handler@.name == side@ + "_"@ + crate::names::decimal(COUNT as nat) + "-"@ + action_name@,
        handler@.idle(),
        handler@.previous.len() == COUNT,
        forall|i: int| 0 <= i < COUNT ==> #[trigger] handler@.previous[i] == now,
        call_ensures(MultiClickHandler::<COUNT>::name, (&handler,), name) ==> name@
            == handler@.name,
        call_ensures(MultiClickHandler::<COUNT>::numeric_name, (&handler,), numeric) ==> numeric@
            == handler@.name + "_value"@,
{
}

/// A handler notes what it is told: it answers and changes as its view says, and never
/// changes its name.
pub proof fn noted_press_advances_the_handler<const COUNT: usize>(
    handler: &mut MultiClickHandler<COUNT>,
    pressed: bool,
    now: Moment,
    answer: bool,
)
    requires
        call_ensures(MultiClickHandler::<COUNT>::note, (handler, pressed, now), answer),
    ensures
        answer == old(handler)@.answer(pressed, now),
        final(handler)@ == old(handler)@.after(pressed, now),
        final(handler)@.name == old(handler)@.name,
        answer ==> pressed,
{
}

/// A handler that is handed a read notes whether it is a press; a read that failed is
/// handed back and changes nothing.
pub proof fn read_press_is_noted<const COUNT: usize>(
    handler: &mut MultiClickHandler<COUNT>,
    reads: &HandlerReads,
    floor: FloatBits,
    now: Moment,
    answer: Result<bool, ReadError>,
    press: Result<bool, ReadError>,
)
    requires
        call_ensures(MultiClickHandler::<COUNT>::check, (handler, reads, floor, now), answer),
        call_ensures(HandlerReads::is_pressed, (reads, floor), press),
    ensures
        press matches Err(e) ==> answer == Err::<bool, ReadError>(e) && final(handler)@
            == old(handler)@,
        press matches Ok(pressed) ==> answer == Ok::<bool, ReadError>(
            old(handler)@.answer(pressed, now),
        ) && final(handler)@ == old(handler)@.after(pressed, now),
{
}

/// The handler of a read: what it answers and becomes, as for the press that was read.
pub proof fn read_view_follows_the_press(
    handler: HandlerView,
    reads: HandlerReads,
    floor: FloatBits,
    now: Moment,
)
    ensures
        reads.pressed(floor) matches Err(e) ==> handler.read_answer(reads, floor, now) == Err::<
            bool,
            ReadError,
        >(e) && handler.after_read(reads, floor, now) == handler,
        reads.pressed(floor) matches Ok(pressed) ==> handler.read_answer(reads, floor, now)
            == Ok::<bool, ReadError>(handler.answer(pressed, now)) && handler.after_read(
            reads,
            floor,
            now,
        ) == handler.after(pressed, now),
{
}

/// A handler without a count follows the button in every frame.
pub proof fn single_clicks_are_the_presses(
    side: Seq<char>,
    action: Seq<char>,
    created: Moment,
    frames: Seq<PressFrame>,
    j: int,
)
    requires
        0 <= j < frames.len(),
    ensures
        answer_at(handler_at_start(side, 0, action, created), frames, j) == frames[j].pressed,
{
    lemma_single_at(side, action, created, frames, j);
}

proof fn lemma_single_at(
    side: Seq<char>,
    action: Seq<char>,
    created: Moment,
    frames: Seq<PressFrame>,
    j: int,
)
    requires
        0 <= j <= frames.len(),
    ensures
        handler_at(handler_at_start(side, 0, action, created), frames, j).well_formed(),
        handler_at(handler_at_start(side, 0, action, created), frames, j).previous.len() == 0,
    decreases j,
{
    if j > 0 {
        lemma_single_at(side, action, created, frames, j - 1);
    }
}

/// No handler is on in a frame in which the button is up.
pub proof fn released_button_is_off(start: HandlerView, frames: Seq<PressFrame>, j: int)
    requires
        0 <= j < frames.len(),
        !frames[j].pressed,
    ensures
        !answer_at(start, frames, j),
{
}

/// The button goes down in frame `i`, and not again before frame `j`.
pub open spec fn last_press_before(frames: Seq<PressFrame>, i: int, j: int) -> bool {
    &&& press_at(frames, i)
    &&& i < j <= frames.len()
    &&& forall|k: int| i < k < j ==> !#[trigger] press_at(frames, k)
}

/// The button does not go down before frame `j`.
pub open spec fn no_press_before(frames: Seq<PressFrame>, j: int) -> bool {
    &&& 0 <= j <= frames.len()
    &&& forall|k: int| 0 <= k < j ==> !#[trigger] press_at(frames, k)
}

/// Whether a handler is held, and how its history has changed since the last press.
proof fn lemma_since_last_press(
    start: HandlerView,
    frames: Seq<PressFrame>,
    i: int,
    j: int,
)
    requires
        start.well_formed(),
        start.idle(),
        last_press_before(frames, i, j),
    ensures
        handler_at(start, frames, j).previous == handler_at(start, frames, i).after(
            true,
            frames[i].now,
        ).previous,
    decreases j - i,
{
    if j > i + 1 {
        assert(last_press_before(frames, i, j - 1)) by {
            assert forall|k: int| i < k < j - 1 implies !#[trigger] press_at(frames, k) by {}
        }
        lemma_since_last_press(start, frames, i, j - 1);
        lemma_held(start, frames, j - 1);
        assert(!press_at(frames, j - 1));
    }
}

proof fn lemma_before_first_press(start: HandlerView, frames: Seq<PressFrame>, j: int)
    requires
        start.well_formed(),
        start.idle(),
        no_press_before(frames, j),
    ensures
        handler_at(start, frames, j).previous == start.previous,
    decreases j,
{
    if j > 0 {
        assert(no_press_before(frames, j - 1)) by {
            assert forall|k: int| 0 <= k < j - 1 implies !#[trigger] press_at(frames, k) by {}
        }
        lemma_before_first_press(start, frames, j - 1);
        lemma_held(start, frames, j - 1);
        assert(!press_at(frames, j - 1));
    }
}

/// A handler is held before a frame exactly where the button was down in the one before.
proof fn lemma_held(start: HandlerView, frames: Seq<PressFrame>, j: int)
    requires
        start.well_formed(),
        start.idle(),
        0 <= j <= frames.len(),
    ensures
        handler_at(start, frames, j).well_formed(),
        handler_at(start, frames, j).previous.len() == start.previous.len(),
        handler_at(start, frames, j).idle() <==> j == 0 || !frames[j - 1].pressed,
    decreases j,
{
    if j > 0 {
        lemma_held(start, frames, j - 1);
    }
}

/// A press is a double click exactly where the press before it was none and came less
/// than half a second earlier.
pub proof fn double_click_follows_a_recent_press(
    side: Seq<char>,
    action: Seq<char>,
    created: Moment,
    frames: Seq<PressFrame>,
    i: int,
    j: int,
)
    requires
        in_order(frames),
        press_at(frames, j),
        last_press_before(frames, i, j),
    ensures
        ({
            let start = handler_at_start(side, 1, action, created);
            answer_at(start, frames, j) <==> !answer_at(start, frames, i) && frames[j].now.nanos
                - frames[i].now.nanos < 500_000_000
        }),
{
    let start = handler_at_start(side, 1, action, created);
    lemma_held(start, frames, i);
    lemma_held(start, frames, j);
    lemma_since_last_press(start, frames, i, j);
    let h = handler_at(start, frames, j);
    let g = handler_at(start, frames, i);
    assert(frames[i].now.nanos <= frames[j].now.nanos);
    assert(h.completes(frames[j].now) <==> crate::moment::elapsed(h.previous[0], frames[j].now)
        < 500_000_000);
}

/// The first press is a double click exactly where the handler was made less than half a
/// second earlier.
pub proof fn first_double_click_follows_the_creation(
    side: Seq<char>,
    action: Seq<char>,
    created: Moment,
    frames: Seq<PressFrame>,
    j: int,
)
    requires
        press_at(frames, j),
        no_press_before(frames, j),
    ensures
        answer_at(handler_at_start(side, 1, action, created), frames, j) <==> frames[j].now.nanos
            - created.nanos < 500_000_000,
{
    let start = handler_at_start(side, 1, action, created);
    lemma_held(start, frames, j);
    lemma_before_first_press(start, frames, j);
    let h = handler_at(start, frames, j);
    assert(h.completes(frames[j].now) <==> crate::moment::elapsed(h.previous[0], frames[j].now)
        < 500_000_000);
}

proof fn lemma_triple_completes(h: HandlerView, now: Moment)
    requires
        h.previous.len() == 2,
    ensures
        h.completes(now) <==> crate::moment::elapsed(h.previous[0], now) < 750_000_000
            && crate::moment::elapsed(h.previous[1], now) < 750_000_000,
{
    if crate::moment::elapsed(h.previous[0], now) < 750_000_000 && crate::moment::elapsed(
        h.previous[1],
        now,
    ) < 750_000_000 {
        assert forall|i: int| 0 <= i < h.previous.len() implies crate::moment::elapsed(
            #[trigger] h.previous[i],
            now,
        ) < 750_000_000 by {
            assert(i == 0 || i == 1);
        }
    }
}

/// A press is a triple click exactly where neither of the two presses before it was one
/// and the earlier of them came less than three quarters of a second before.
pub proof fn triple_click_follows_two_recent_presses(
    side: Seq<char>,
    action: Seq<char>,
    created: Moment,
    frames: Seq<PressFrame>,
    first: int,
    second: int,
    j: int,
)
    requires
        in_order(frames),
        press_at(frames, j),
        last_press_before(frames, second, j),
        last_press_before(frames, first, second),
    ensures
        ({
            let start = handler_at_start(side, 2, action, created);
            answer_at(start, frames, j) <==> !answer_at(start, frames, first) && !answer_at(
                start,
                frames,
                second,
            ) && frames[j].now.nanos - frames[first].now.nanos < 750_000_000
        }),
{
    let start = handler_at_start(side, 2, action, created);
    lemma_held(start, frames, first);
    lemma_held(start, frames, second);
    lemma_held(start, frames, j);
    lemma_since_last_press(start, frames, first, second);
    lemma_since_last_press(start, frames, second, j);
    let f = handler_at(start, frames, first);
    let s = handler_at(start, frames, second);
    let h = handler_at(start, frames, j);
    assert(frames[first].now.nanos <= frames[second].now.nanos);
    assert(frames[second].now.nanos <= frames[j].now.nanos);
    assert(frames[first].now.nanos - crate::click::RESET_NANOS >= i64::MIN);
    assert(frames[second].now.nanos - crate::click::RESET_NANOS >= i64::MIN);
    lemma_triple_completes(f, frames[first].now);
    lemma_triple_completes(s, frames[second].now);
    lemma_triple_completes(h, frames[j].now);
    if !answer_at(start, frames, second) {
        assert(h.previous[0] == frames[second].now);
        assert(h.previous[1] == s.previous[0]);
    }
}

/// The second press is a triple click exactly where the first was none and the handler
/// was made less than three quarters of a second before.
pub proof fn second_triple_click_follows_the_creation(
    side: Seq<char>,
    action: Seq<char>,
    created: Moment,
    frames: Seq<PressFrame>,
    first: int,
    j: int,
)
    requires
        in_order(frames),
        press_at(frames, j),
        last_press_before(frames, first, j),
        no_press_before(frames, first),
    ensures
        ({
            let start = handler_at_start(side, 2, action, created);
            answer_at(start, frames, j) <==> !answer_at(start, frames, first)
                && frames[j].now.nanos - created.nanos < 750_000_000
        }),
{
    let start = handler_at_start(side, 2, action, created);
    lemma_held(start, frames, first);
    lemma_held(start, frames, j);
    lemma_before_first_press(start, frames, first);
    lemma_since_last_press(start, frames, first, j);
    let f = handler_at(start, frames, first);
    let h = handler_at(start, frames, j);
    assert(frames[first].now.nanos <= frames[j].now.nanos);
    assert(frames[first].now.nanos - crate::click::RESET_NANOS >= i64::MIN);
    lemma_triple_completes(f, frames[first].now);
    lemma_triple_completes(h, frames[j].now);
    if !answer_at(start, frames, first) {
        assert(h.previous[0] == frames[first].now);
        assert(h.previous[1] == created);
    }
}

/// The first press is a triple click exactly where the handler was made less than three
/// quarters of a second before.
pub proof fn first_triple_click_follows_the_creation(
    side: Seq<char>,
    action: Seq<char>,
    created: Moment,
    frames: Seq<PressFrame>,
    j: int,
)
    requires
        press_at(frames, j),
        no_press_before(frames, j),
    ensures
        answer_at(handler_at_start(side, 2, action, created), frames, j) <==> frames[j].now.nanos
            - created.nanos < 750_000_000,
{
    let start = handler_at_start(side, 2, action, created);
    lemma_held(start, frames, j);
    lemma_before_first_press(start, frames, j);
    lemma_triple_completes(handler_at(start, frames, j), frames[j].now);
}

/// While the button stays down the answer of a handler stays that of its press.
pub proof fn held_button_repeats_its_press(
    side: Seq<char>,
    count: nat,
    action: Seq<char>,
    created: Moment,
    frames: Seq<PressFrame>,
    j: int,
)
    requires
        count <= 2,
        0 < j < frames.len(),
        frames[j].pressed,
        frames[j - 1].pressed,
    ensures
        ({
            let start = handler_at_start(side, count, action, created);
            answer_at(start, frames, j) == answer_at(start, frames, j - 1)
        }),
{
    let start = handler_at_start(side, count, action, created);
    lemma_held(start, frames, j - 1);
    lemma_held(start, frames, j);
}

/// A new input has a handler each for single, double and triple clicks, all of its own
/// name and made now.
pub proof fn new_input_has_three_handlers(
    name: &str,
    side: &str,
    now: Moment,
    action: CustomClickAction,
    single: &MultiClickHandler<0>,
    double: &MultiClickHandler<1>,
    triple: &MultiClickHandler<2>,
)
    requires
        call_ensures(CustomClickAction::new, (name, side, now), action),
        call_ensures(CustomClickAction::single, (&action,), single),
        call_ensures(CustomClickAction::double, (&action,), double),
        call_ensures(CustomClickAction::triple, (&action,), triple),
    ensures
        single@ == handler_at_start(side@, 0, name@, now),
        double@ == handler_at_start(side@, 1, name@, now),
        triple@ == handler_at_start(side@, 2, name@, now),
        action@.single == single@,
        action@.double == double@,
        action@.triple == triple@,
        action@ == click_at_start(side@, name@, now),
{
}

/// The floor in force: that for staying on where the input was on before, and else that
/// for turning on.
pub open spec fn floor_in_force(sensitivity: ClickSensitivity, before: bool) -> FloatBits {
    if before {
        sensitivity.release
    } else {
        sensitivity.press
    }
}

/// The handlers are asked in turn, with the floor in force, until one is on or cannot be
/// read: what it says is the answer. A handler behind it does not notice the frame, and
/// the others take note of it.
pub proof fn handlers_are_asked_in_turn(
    action: &mut CustomClickAction,
    before: bool,
    reads: &ClickReads,
    sensitivity: ClickSensitivity,
    now: Moment,
    answer: Result<bool, ReadError>,
)
    requires
        call_ensures(CustomClickAction::state, (action, before, reads, sensitivity, now), answer),
    ensures
        ({
            let floor = floor_in_force(sensitivity, before);
            let off = Ok::<bool, ReadError>(false);
            let single = old(action)@.single.read_answer(reads.single, floor, now);
            let double = old(action)@.double.read_answer(reads.double, floor, now);
            let triple = old(action)@.triple.read_answer(reads.triple, floor, now);
            let after = final(action)@;
            &&& single != off ==> answer == single && after.double == old(action)@.double
                && after.triple == old(action)@.triple
            &&& single == off && double != off ==> answer == double && after.triple
                == old(action)@.triple
            &&& single == off && double == off ==> answer == triple
            &&& after.single == old(action)@.single.after_read(reads.single, floor, now)
            &&& single == off ==> after.double == old(action)@.double.after_read(
                reads.double,
                floor,
                now,
            )
            &&& single == off && double == off ==> after.triple
                == old(action)@.triple.after_read(reads.triple, floor, now)
            &&& answer == old(action)@.answer(*reads, floor, now)
            &&& after == old(action)@.after(*reads, floor, now)
        }),
{
}

/// The same of an input's view.
pub proof fn input_asks_its_handlers_in_turn(
    input: ClickView,
    reads: ClickReads,
    floor: FloatBits,
    now: Moment,
)
    ensures
        ({
            let off = Ok::<bool, ReadError>(false);
            let single = input.single.read_answer(reads.single, floor, now);
            let double = input.double.read_answer(reads.double, floor, now);
            let triple = input.triple.read_answer(reads.triple, floor, now);
            let answer = input.answer(reads, floor, now);
            let after = input.after(reads, floor, now);
            &&& single != off ==> answer == single && after.double == input.double && after.triple
                == input.triple
            &&& single == off && double != off ==> answer == double && after.triple
                == input.triple
            &&& single == off && double == off ==> answer == triple
            &&& after.single == input.single.after_read(reads.single, floor, now)
            &&& single == off ==> after.double == input.double.after_read(
                reads.double,
                floor,
                now,
            )
            &&& single == off && double == off ==> after.triple == input.triple.after_read(
                reads.triple,
                floor,
                now,
            )
        }),
{
}

/// The limits that an input is held to.
pub proof fn limits_follow_the_last_frame(sensitivity: ClickSensitivity)
    ensures
        sensitivity.floor(true) == sensitivity.release,
        sensitivity.floor(false) == sensitivity.press,
{
}

/// The names of a handler's two actions.
pub proof fn handler_names_its_actions(side: Seq<char>, count: nat, action: Seq<char>)
    ensures
        handler_name(side, count, action) == side + "_"@ + crate::names::decimal(count) + "-"@
            + action,
        value_name(handler_name(side, count, action)) == handler_name(side, count, action)
            + "_value"@,
{
}

/// How long ago a remembered press may be, by how many are remembered.
pub open spec fn longest_age(count: nat) -> int {
    if count == 1 {
        500_000_000
    } else {
        750_000_000
    }
}

/// A frame of a handler. With the button up nothing is held and nothing forgotten. With
/// the button held the handler stays as it is and repeats its answer. When the button goes
/// down the handler is on exactly where all presses that it remembers are recent enough;
/// then they are moved ten seconds back from now, and else this press is remembered first
/// and the oldest is forgotten.
pub proof fn handler_remembers_its_presses(h: HandlerView, pressed: bool, now: Moment)
    requires
        h.well_formed(),
        now.nanos - 10_000_000_000 >= i64::MIN,
    ensures
        ({
            let after = h.after(pressed, now);
            let answer = h.answer(pressed, now);
            let fresh = pressed && !h.held_active && !h.held_inactive;
            let recent = forall|k: int|
                0 <= k < h.previous.len() ==> now.nanos - (#[trigger] h.previous[k]).nanos
                    < longest_age(h.previous.len());
            &&& after.name == h.name
            &&& after.previous.len() == h.previous.len()
            &&& !pressed ==> !answer && !after.held_active && !after.held_inactive
                && after.previous == h.previous
            &&& pressed && !fresh ==> answer == h.held_active && after == h
            &&& fresh ==> (answer <==> recent)
            &&& fresh ==> after.held_active == answer && after.held_inactive == !answer
            &&& fresh && answer ==> forall|k: int|
                0 <= k < after.previous.len() ==> (#[trigger] after.previous[k]).nanos == now.nanos
                    - 10_000_000_000
            &&& fresh && !answer ==> after.previous[0] == now && forall|k: int|
                0 < k < after.previous.len() ==> #[trigger] after.previous[k] == h.previous[k - 1]
        }),
{
    let recent = forall|k: int|
        0 <= k < h.previous.len() ==> now.nanos - (#[trigger] h.previous[k]).nanos < longest_age(
            h.previous.len(),
        );
    if recent {
        assert forall|i: int| 0 <= i < h.previous.len() implies crate::moment::elapsed(
            #[trigger] h.previous[i],
            now,
        ) < crate::click::click_window(h.previous.len()) by {
            assert(now.nanos - h.previous[i].nanos < longest_age(h.previous.len()));
        }
    }
    if h.completes(now) {
        assert forall|k: int| 0 <= k < h.previous.len() implies now.nanos - (
        #[trigger] h.previous[k]).nanos < longest_age(h.previous.len()) by {
            assert(crate::moment::elapsed(h.previous[k], now) < crate::click::click_window(
                h.previous.len(),
            ));
        }
    }
}

/// An input shows its own three handlers, and a handler its own names.
pub proof fn handlers_are_shown<const COUNT: usize>(
    action: &CustomClickAction,
    single: &MultiClickHandler<0>,
    double: &MultiClickHandler<1>,
    triple: &MultiClickHandler<2>,
    handler: &MultiClickHandler<COUNT>,
    name: &str,
    numeric: String,
)
    ensures
        call_ensures(CustomClickAction::single, (action,), single) ==> single@ == action@.single,
        call_ensures(CustomClickAction::double, (action,), double) ==> double@ == action@.double,
        call_ensures(CustomClickAction::triple, (action,), triple) ==> triple@ == action@.triple,
        call_ensures(MultiClickHandler::<COUNT>::name, (handler,), name) ==> name@
            == handler@.name,
        call_ensures(MultiClickHandler::<COUNT>::numeric_name, (handler,), numeric) ==> numeric@
            == handler@.name + "_value"@,
{
}

/// Every read can be taken at every moment from which a history can be moved back.
pub proof fn every_read_can_be_taken<const COUNT: usize>(
    reads: &HandlerReads,
    floor: FloatBits,
    handler: &mut MultiClickHandler<COUNT>,
    pressed: bool,
    action: &mut CustomClickAction,
    before: bool,
    click_reads: &ClickReads,
    sensitivity: ClickSensitivity,
    now: Moment,
)
    requires
        COUNT <= 2,
        now.nanos - 10_000_000_000 >= i64::MIN,
    ensures
        call_requires(HandlerReads::is_pressed, (reads, floor)),
        call_requires(MultiClickHandler::<COUNT>::note, (handler, pressed, now)),
        call_requires(MultiClickHandler::<COUNT>::check, (handler, reads, floor, now)),
        call_requires(
            CustomClickAction::state,
            (action, before, click_reads, sensitivity, now),
        ),
{
}

} // verus!
