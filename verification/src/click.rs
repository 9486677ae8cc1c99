//! Single, double and triple clicks out of presses and releases.

use crate::float_bits::FloatBits;
use crate::moment::{elapsed, Moment};
use crate::names::{compose_handler_name, compose_value_name, handler_name, value_name};
use vstd::prelude::*;

verus! {

/// How far back the history is moved once a multi-click has been recognised.
pub const RESET_NANOS: i64 = 10_000_000_000;

/// The longest age that a remembered press may have reached when the press that
/// completes the multi-click comes, for one and for two remembered presses.
pub const DOUBLE_CLICK_NANOS: u64 = 500_000_000;

pub const TRIPLE_CLICK_NANOS: u64 = 750_000_000;

/// A failed read, by the number that the runtime gave for it.
#[derive(Clone, Copy, Debug, PartialEq, Eq, Structural)]
pub struct ReadError {
    pub code: i32,
}

/// What the runtime reports of a boolean action.
#[derive(Clone, Copy, Debug, PartialEq, Eq, Structural)]
pub struct BoolRead {
    pub is_active: bool,
    pub current_state: bool,
}

/// What the runtime reports of a numeric action.
#[derive(Clone, Copy, Debug, PartialEq, Eq, Structural)]
pub struct FloatRead {
    pub is_active: bool,
    pub current_state: FloatBits,
}

/// The two actions of one handler, as read in one frame.
#[derive(Clone, Copy, Debug)]
pub struct HandlerReads {
    pub action_bool: Result<BoolRead, ReadError>,
    pub action_f32: Result<FloatRead, ReadError>,
}

impl HandlerReads {
    /// Whether the input counts as pressed, the numeric action from `floor` on. The
    /// numeric action only matters where the boolean one is not pressed.
    pub open spec fn pressed(self, floor: FloatBits) -> Result<bool, ReadError> {
        match self.action_bool {
            Err(e) => Err(e),
            Ok(read) => if read.is_active && read.current_state {
                Ok(true)
            } else {
                match self.action_f32 {
                    Err(e) => Err(e),
                    Ok(value) => Ok(value.is_active && floor.le(value.current_state)),
                }
            },
        }
    }

    /// Decides whether the input is pressed.
    pub fn is_pressed(&self, floor: FloatBits) -> (answer: Result<bool, ReadError>)
        ensures
            answer == self.pressed(floor),
    {
        match self.action_bool {
            Err(e) => Err(e),
            Ok(read) => {
                if read.is_active && read.current_state {
                    return Ok(true);
                }
                match self.action_f32 {
                    Err(e) => Err(e),
                    Ok(value) => Ok(value.is_active && value.current_state.at_least(floor)),
                }
            },
        }
    }
}

/// What a handler knows.
#[verifier::ext_equal]
pub ghost struct HandlerView {
    pub name: Seq<char>,
    /// The presses that are remembered, the latest first.
    pub previous: Seq<Moment>,
    /// The button is held and the multi-click was recognised.
    pub held_active: bool,
    /// The button is held and the press did not complete a multi-click.
    pub held_inactive: bool,
}

/// The age limit for `count` remembered presses.
pub open spec fn click_window(count: nat) -> int {
    if count == 0 {
        0
    } else if count == 1 {
        DOUBLE_CLICK_NANOS as int
    } else {
        TRIPLE_CLICK_NANOS as int
    }
}

impl HandlerView {
    /// Whether a press at `now` completes the multi-click.
    pub open spec fn completes(self, now: Moment) -> bool {
        forall|i: int|
            0 <= i < self.previous.len() ==> elapsed(#[trigger] self.previous[i], now)
                < click_window(self.previous.len())
    }

    /// What the handler answers.
    pub open spec fn answer(self, pressed: bool, now: Moment) -> bool {
        pressed && (self.held_active || (!self.held_inactive && self.completes(now)))
    }

    /// What the handler knows afterwards.
    pub open spec fn after(self, pressed: bool, now: Moment) -> HandlerView {
        if !pressed {
            HandlerView { held_active: false, held_inactive: false, ..self }
        } else if self.held_active || self.held_inactive {
            self
        } else if self.completes(now) {
            let long_ago = Moment { nanos: (now.nanos - RESET_NANOS) as i64 };
            HandlerView {
                previous: Seq::new(self.previous.len(), |i: int| long_ago),
                held_active: true,
                ..self
            }
        } else {
            HandlerView {
                previous: seq![now] + self.previous.drop_last(),
                held_inactive: true,
                ..self
            }
        }
    }
}

impl HandlerView {
    /// The answer to what was read: the error of a failed read, if one was needed.
    pub open spec fn read_answer(self, reads: HandlerReads, floor: FloatBits, now: Moment) -> Result<
        bool,
        ReadError,
    > {
        match reads.pressed(floor) {
            Err(e) => Err(e),
            Ok(pressed) => Ok(self.answer(pressed, now)),
        }
    }

    /// What the handler knows after it was handed a read.
    pub open spec fn after_read(
        self,
        reads: HandlerReads,
        floor: FloatBits,
        now: Moment,
    ) -> HandlerView {
        match reads.pressed(floor) {
            Err(_) => self,
            Ok(pressed) => self.after(pressed, now),
        }
    }
}

/// What a new handler knows.
pub open spec fn handler_at_start(
    side: Seq<char>,
    count: nat,
    action: Seq<char>,
    now: Moment,
) -> HandlerView {
    HandlerView {
        name: handler_name(side, count, action),
        previous: Seq::new(count, |i: int| now),
        held_active: false,
        held_inactive: false,
    }
}

/// Recognises a press that follows `COUNT` earlier ones closely enough.
pub struct MultiClickHandler<const COUNT: usize> {
    name: String,
    previous: [Moment; COUNT],
    held_active: bool,
    held_inactive: bool,
}

impl<const COUNT: usize> View for MultiClickHandler<COUNT> {
    type V = HandlerView;

    closed spec fn view(&self) -> HandlerView {
        HandlerView {
            name: self.name@,
            previous: self.previous@,
            held_active: self.held_active,
            held_inactive: self.held_inactive,
        }
    }
}

impl<const COUNT: usize> MultiClickHandler<COUNT> {
    /// A handler for an action of one side. Its history says that it was pressed
    /// just now.
    pub fn new(action_name: &str, side: &str, now: Moment) -> (handler: Self)
        ensures
            handler@ == handler_at_start(side@, COUNT as nat, action_name@, now),
    {
        let handler: Self = MultiClickHandler {
            name: compose_handler_name(side, COUNT, action_name),
            previous: [now; COUNT],
            held_active: false,
            held_inactive: false,
        };
        assert(handler@ =~= handler_at_start(side@, COUNT as nat, action_name@, now));
        handler
    }

    /// The name of the boolean action.
    pub fn name(&self) -> (name: &str)
        ensures
            name@ == self@.name,
    {
        self.name.as_str()
    }

    /// The name of the numeric action.
    pub fn numeric_name(&self) -> (name: String)
        ensures
            name@ == value_name(self@.name),
    {
        compose_value_name(self.name.as_str())
    }

    fn all_recent(&self, now: Moment) -> (answer: bool)
        requires
            COUNT <= 2,
        ensures
            answer == self@.completes(now),
    {
        let window: u64 = if COUNT == 0 {
            0
        } else if COUNT == 1 {
            DOUBLE_CLICK_NANOS
        } else {
            TRIPLE_CLICK_NANOS
        };
        let mut i: usize = 0;
        while i < COUNT
            invariant
                i <= COUNT,
                COUNT <= 2,
                window == click_window(COUNT as nat),
                forall|j: int| 0 <= j < i ==> elapsed(#[trigger] self.previous@[j], now) < window,
            decreases COUNT - i,
        {
            if self.previous[i].elapsed_at(now) >= window {
                assert(self@.previous[i as int] == self.previous@[i as int]);
                return false;
            }
            i += 1;
        }
        true
    }

    /// Takes note of whether the button is pressed, and answers whether the
    /// multi-click is on.
    pub fn note(&mut self, pressed: bool, now: Moment) -> (answer: bool)
        requires
            COUNT <= 2,
            now.nanos - RESET_NANOS >= i64::MIN,
        ensures
            answer == old(self)@.answer(pressed, now),
            final(self)@ == old(self)@.after(pressed, now),
    {
        if !pressed {
            self.held_active = false;
            self.held_inactive = false;
            return false;
        }
        if self.held_active {
            return true;
        }
        if self.held_inactive {
            return false;
        }
        let passed: bool = self.all_recent(now);
        if passed {
            self.held_active = true;
            self.held_inactive = false;
            let long_ago: Moment = Moment::new(now.nanos - RESET_NANOS);
            self.previous = [long_ago; COUNT];
        } else {
            let ghost before: Seq<Moment> = self.previous@;
            let mut i: usize = COUNT - 1;
            while i > 0
                invariant
                    i < COUNT,
                    before.len() == COUNT,
                    self.previous@.len() == COUNT,
                    self.name == old(self).name,
                    self.held_active == old(self).held_active,
                    self.held_inactive == old(self).held_inactive,
                    forall|j: int| 0 <= j <= i ==> self.previous@[j] == before[j],
                    forall|j: int| i < j < COUNT ==> self.previous@[j] == before[j - 1],
                decreases i,
            {
                self.previous[i] = self.previous[i - 1];
                i -= 1;
            }
            self.previous[0] = now;
            self.held_inactive = true;
        }
        proof {
            assert(self@.previous =~= old(self)@.after(pressed, now).previous);
        }
        passed
    }

    /// Reads the handler's input and answers whether the multi-click is on. A failed
    /// read changes nothing.
    pub fn check(&mut self, reads: &HandlerReads, floor: FloatBits, now: Moment) -> (answer: Result<
        bool,
        ReadError,
    >)
        requires
            COUNT <= 2,
            now.nanos - RESET_NANOS >= i64::MIN,
        ensures
            answer == old(self)@.read_answer(*reads, floor, now),
            final(self)@ == old(self)@.after_read(*reads, floor, now),
    {
        match reads.is_pressed(floor) {
            Err(e) => Err(e),
            Ok(pressed) => Ok(self.note(pressed, now)),
        }
    }
}

/// The history of a handler has the length that its type says.
pub proof fn history_length<const COUNT: usize>(handler: MultiClickHandler<COUNT>)
    ensures
        handler@.previous.len() == COUNT,
{
}

/// The actions of the three handlers of one input, as read in one frame.
#[derive(Clone, Copy, Debug)]
pub struct ClickReads {
    pub single: HandlerReads,
    pub double: HandlerReads,
    pub triple: HandlerReads,
}

/// From where on a numeric input counts as pressed.
#[derive(Clone, Copy, Debug, PartialEq, Eq, Structural)]
pub struct ClickSensitivity {
    /// While the input was not on before.
    pub press: FloatBits,
    /// While it was on before.
    pub release: FloatBits,
}

impl ClickSensitivity {
    /// The limit that holds for an input that was on or off before.
    pub open spec fn floor(self, before: bool) -> FloatBits {
        if before {
            self.release
        } else {
            self.press
        }
    }
}

/// What a click action knows: its three handlers.
pub ghost struct ClickView {
    pub single: HandlerView,
    pub double: HandlerView,
    pub triple: HandlerView,
}

impl ClickView {
    /// Whether the input is on. The handlers are asked in turn; the first that is on,
    /// or that could not be read, ends the round.
    pub open spec fn answer(self, reads: ClickReads, floor: FloatBits, now: Moment) -> Result<
        bool,
        ReadError,
    > {
        if self.single.read_answer(reads.single, floor, now) != Ok::<bool, ReadError>(false) {
            self.single.read_answer(reads.single, floor, now)
        } else if self.double.read_answer(reads.double, floor, now) != Ok::<bool, ReadError>(
            false,
        ) {
            self.double.read_answer(reads.double, floor, now)
        } else {
            self.triple.read_answer(reads.triple, floor, now)
        }
    }

    /// What is known afterwards: a handler that was not asked stays as it was.
    pub open spec fn after(self, reads: ClickReads, floor: FloatBits, now: Moment) -> ClickView {
        let asked_double = self.single.read_answer(reads.single, floor, now) == Ok::<
            bool,
            ReadError,
        >(false);
        let asked_triple = asked_double && self.double.read_answer(reads.double, floor, now) == Ok::<
            bool,
            ReadError,
        >(false);
        ClickView {
            single: self.single.after_read(reads.single, floor, now),
            double: if asked_double {
                self.double.after_read(reads.double, floor, now)
            } else {
                self.double
            },
            triple: if asked_triple {
                self.triple.after_read(reads.triple, floor, now)
            } else {
                self.triple
            },
        }
    }
}

/// What a new click action knows.
pub open spec fn click_at_start(side: Seq<char>, action: Seq<char>, now: Moment) -> ClickView {
    ClickView {
        single: handler_at_start(side, 0, action, now),
        double: handler_at_start(side, 1, action, now),
        triple: handler_at_start(side, 2, action, now),
    }
}

/// An input that can be bound to single, double and triple clicks.
pub struct CustomClickAction {
    single: MultiClickHandler<0>,
    double: MultiClickHandler<1>,
    triple: MultiClickHandler<2>,
}

impl View for CustomClickAction {
    type V = ClickView;

    closed spec fn view(&self) -> ClickView {
        ClickView { single: self.single@, double: self.double@, triple: self.triple@ }
    }
}

impl CustomClickAction {
    /// The input `name` of one side.
    pub fn new(name: &str, side: &str, now: Moment) -> (action: Self)
        ensures
            action@ == click_at_start(side@, name@, now),
            action@.well_formed(),
    {
        CustomClickAction {
            single: MultiClickHandler::new(name, side, now),
            double: MultiClickHandler::new(name, side, now),
            triple: MultiClickHandler::new(name, side, now),
        }
    }

    /// The handler of single clicks.
    pub fn single(&self) -> (handler: &MultiClickHandler<0>)
        ensures
            handler@ == self@.single,
    {
        &self.single
    }

    /// The handler of double clicks.
    pub fn double(&self) -> (handler: &MultiClickHandler<1>)
        ensures
            handler@ == self@.double,
    {
        &self.double
    }

    /// The handler of triple clicks.
    pub fn triple(&self) -> (handler: &MultiClickHandler<2>)
        ensures
            handler@ == self@.triple,
    {
        &self.triple
    }

    /// Whether the input is on in this frame; `before` says whether it was on in the
    /// last one.
    pub fn state(
        &mut self,
        before: bool,
        reads: &ClickReads,
        sensitivity: ClickSensitivity,
        now: Moment,
    ) -> (answer: Result<bool, ReadError>)
        requires
            now.nanos - RESET_NANOS >= i64::MIN,
        ensures
            answer == old(self)@.answer(*reads, sensitivity.floor(before), now),
            final(self)@ == old(self)@.after(*reads, sensitivity.floor(before), now),
            old(self)@.well_formed() ==> final(self)@.well_formed(),
    {
        let floor: FloatBits = if before { sensitivity.release } else { sensitivity.press };
        let single: Result<bool, ReadError> = self.single.check(&reads.single, floor, now);
        match single {
            Err(e) => return Err(e),
            Ok(true) => return Ok(true),
            Ok(false) => {},
        }
        let double: Result<bool, ReadError> = self.double.check(&reads.double, floor, now);
        match double {
            Err(e) => return Err(e),
            Ok(true) => return Ok(true),
            Ok(false) => {},
        }
        self.triple.check(&reads.triple, floor, now)
    }
}

impl HandlerView {
    /// What holds of every handler at all times: it is held in one way at most, and
    /// one that needs no earlier press is never held without being on.
    pub open spec fn well_formed(self) -> bool {
        &&& self.previous.len() <= 2
        &&& !(self.held_active && self.held_inactive)
        &&& self.previous.len() == 0 ==> !self.held_inactive
    }

    /// The button is not held.
    pub open spec fn idle(self) -> bool {
        !self.held_active && !self.held_inactive
    }
}

/// A new handler is well-formed and idle.
pub proof fn handler_starts_well_formed(
    side: Seq<char>,
    count: nat,
    action: Seq<char>,
    now: Moment,
)
    requires
        count <= 2,
    ensures
        handler_at_start(side, count, action, now).well_formed(),
        handler_at_start(side, count, action, now).idle(),
{
}

/// A handler stays well-formed, and keeps its name and the length of its history.
pub proof fn handler_stays_well_formed(h: HandlerView, pressed: bool, now: Moment)
    requires
        h.well_formed(),
    ensures
        h.after(pressed, now).well_formed(),
        h.after(pressed, now).name == h.name,
        h.after(pressed, now).previous.len() == h.previous.len(),
{
}

/// A handler that needs no earlier press answers just what is pressed.
pub proof fn single_click_follows_the_button(h: HandlerView, pressed: bool, now: Moment)
    requires
        h.well_formed(),
        h.previous.len() == 0,
    ensures
        h.answer(pressed, now) == pressed,
{
}

/// A released button is never on, and nothing is held after it.
pub proof fn release_ends_every_click(h: HandlerView, now: Moment)
    ensures
        !h.answer(false, now),
        h.after(false, now).idle(),
        h.after(false, now).previous == h.previous,
{
}

/// As long as the button is held, the handler repeats its answer and learns nothing
/// new, whatever time passes.
pub proof fn holding_repeats_the_answer(h: HandlerView, now: Moment, later: Moment)
    requires
        h.well_formed(),
    ensures
        h.after(true, now).answer(true, later) == h.answer(true, now),
        h.after(true, now).after(true, later) == h.after(true, now),
{
}

/// A press, a release and a press are a double click if and only if the second press
/// comes less than half a second after the first, where the first was no double click.
pub proof fn second_press_in_time_is_a_double_click(
    h: HandlerView,
    first: Moment,
    released: Moment,
    second: Moment,
)
    requires
        h.well_formed(),
        h.previous.len() == 1,
        h.idle(),
        !h.completes(first),
    ensures
        !h.answer(true, first),
        h.after(true, first).after(false, released).answer(true, second) <==> elapsed(first, second)
            < DOUBLE_CLICK_NANOS,
{
    let g = h.after(true, first).after(false, released);
    assert(g.previous =~= seq![first]);
    assert(g.previous[0] == first);
}

/// Three presses are a triple click if and only if the first and the second are less
/// than three quarters of a second old when the third comes, where none of the first
/// two was a triple click.
pub proof fn third_press_in_time_is_a_triple_click(
    h: HandlerView,
    first: Moment,
    released: Moment,
    second: Moment,
    released_again: Moment,
    third: Moment,
)
    requires
        h.well_formed(),
        h.previous.len() == 2,
        h.idle(),
        !h.completes(first),
        !h.after(true, first).after(false, released).completes(second),
    ensures
        !h.answer(true, first),
        !h.after(true, first).after(false, released).answer(true, second),
        h.after(true, first).after(false, released).after(true, second).after(
            false,
            released_again,
        ).answer(true, third) <==> elapsed(first, third) < TRIPLE_CLICK_NANOS && elapsed(
            second,
            third,
        ) < TRIPLE_CLICK_NANOS,
{
    let g = h.after(true, first).after(false, released);
    assert(g.previous[0] == first);
    let k = g.after(true, second).after(false, released_again);
    assert(k.previous =~= seq![second, first]);
    assert(k.previous[0] == second);
    assert(k.previous[1] == first);
}

/// Once a multi-click was recognised, no earlier press counts any more: the next press
/// is not one again.
pub proof fn recognised_click_uses_up_the_presses(
    h: HandlerView,
    now: Moment,
    released: Moment,
    next: Moment,
)
    requires
        h.well_formed(),
        h.previous.len() > 0,
        h.idle(),
        h.completes(now),
        now.nanos - RESET_NANOS >= i64::MIN,
        now.nanos <= next.nanos,
    ensures
        h.answer(true, now),
        !h.after(true, now).after(false, released).answer(true, next),
{
    let g = h.after(true, now).after(false, released);
    assert(elapsed(g.previous[0], next) >= RESET_NANOS);
}

/// A triple click leaves so little behind that two more presses are none again.
pub proof fn recognised_triple_click_needs_three_new_presses(
    h: HandlerView,
    now: Moment,
    released: Moment,
    next: Moment,
    released_again: Moment,
    after_next: Moment,
)
    requires
        h.well_formed(),
        h.previous.len() == 2,
        h.idle(),
        h.completes(now),
        now.nanos - RESET_NANOS >= i64::MIN,
        now.nanos <= next.nanos <= after_next.nanos,
    ensures
        !h.after(true, now).after(false, released).answer(true, next),
        !h.after(true, now).after(false, released).after(true, next).after(
            false,
            released_again,
        ).answer(true, after_next),
{
    let g = h.after(true, now).after(false, released);
    assert(elapsed(g.previous[0], next) >= RESET_NANOS);
    let k = g.after(true, next).after(false, released_again);
    assert(k.previous[1] == g.previous[0]);
    assert(elapsed(k.previous[1], after_next) >= RESET_NANOS);
}

impl ClickView {
    /// The three handlers are well-formed and need 0, 1 and 2 earlier presses.
    pub open spec fn well_formed(self) -> bool {
        &&& self.single.well_formed() && self.single.previous.len() == 0
        &&& self.double.well_formed() && self.double.previous.len() == 1
        &&& self.triple.well_formed() && self.triple.previous.len() == 2
    }
}

/// A new click action is well-formed.
pub proof fn click_starts_well_formed(side: Seq<char>, action: Seq<char>, now: Moment)
    ensures
        click_at_start(side, action, now).well_formed(),
{
}

/// A click action stays well-formed.
pub proof fn click_stays_well_formed(
    c: ClickView,
    reads: ClickReads,
    floor: FloatBits,
    now: Moment,
)
    requires
        c.well_formed(),
    ensures
        c.after(reads, floor, now).well_formed(),
{
}

/// A pressed single-click input is on at once, and the other two handlers do not
/// notice the frame.
pub proof fn pressed_single_click_is_on(
    c: ClickView,
    reads: ClickReads,
    floor: FloatBits,
    now: Moment,
)
    requires
        c.well_formed(),
        reads.single.pressed(floor) == Ok::<bool, ReadError>(true),
    ensures
        c.answer(reads, floor, now) == Ok::<bool, ReadError>(true),
        c.after(reads, floor, now).double == c.double,
        c.after(reads, floor, now).triple == c.triple,
{
}

/// With everything released the input is off and nothing is held.
pub proof fn released_input_is_off(c: ClickView, reads: ClickReads, floor: FloatBits, now: Moment)
    requires
        reads.single.pressed(floor) == Ok::<bool, ReadError>(false),
        reads.double.pressed(floor) == Ok::<bool, ReadError>(false),
        reads.triple.pressed(floor) == Ok::<bool, ReadError>(false),
    ensures
        c.answer(reads, floor, now) == Ok::<bool, ReadError>(false),
        c.after(reads, floor, now).single.idle(),
        c.after(reads, floor, now).double.idle(),
        c.after(reads, floor, now).triple.idle(),
{
}

/// An input that is on is pressed on one of the three handlers.
pub proof fn input_is_on_only_where_pressed(
    c: ClickView,
    reads: ClickReads,
    floor: FloatBits,
    now: Moment,
)
    requires
        c.answer(reads, floor, now) == Ok::<bool, ReadError>(true),
    ensures
        reads.single.pressed(floor) == Ok::<bool, ReadError>(true) || reads.double.pressed(floor)
            == Ok::<bool, ReadError>(true) || reads.triple.pressed(floor) == Ok::<bool, ReadError>(
            true,
        ),
{
}

/// A lower limit never lets go of an input: what is pressed at a limit is pressed at any
/// lower one, so that an input which turns on stays on where its limit for staying on is
/// the lower one.
pub proof fn lower_limit_keeps_the_input_pressed(
    reads: HandlerReads,
    limit: FloatBits,
    lower: FloatBits,
)
    requires
        lower.le(limit),
        reads.pressed(limit) == Ok::<bool, ReadError>(true),
    ensures
        reads.pressed(lower) == Ok::<bool, ReadError>(true),
{
}

} // verus!
