//! What holds of the basic values: numbers, moments, located poses, pointer states and
//! names.

use crate::float_bits::FloatBits;
use crate::joints::{
    direction_or, hand_points_from_joints, joint_position, normalized_strength, palm_is_up,
    read_hand, HandJoint, HandPoints, HandReading, JointLocation, PALM_GRAB_LIMIT,
    SHORTEST_DIRECTION,
};
use crate::click::ReadError;
use crate::location::{follow_head, has_flags, Pose, Vec3};
use crate::moment::{elapsed, Moment};
use crate::names::{
    compose_handler_name, compose_value_name, decimal, decimal_text, slot_label, slot_text,
    ClickSlot,
};
use crate::pointer::PointerState;
use vstd::prelude::*;

verus! {

/// The bits of a pattern behind the sign.
pub open spec fn unsigned(bits: u32) -> int {
    bits as int % 0x8000_0000
}

/// The sign is set.
pub open spec fn negative(bits: u32) -> bool {
    bits >= 0x8000_0000
}

/// The pattern is that of a number.
pub open spec fn number(bits: u32) -> bool {
    unsigned(bits) <= 0x7f80_0000
}

/// Two numbers of one sign are ordered as their patterns are, the other way round where
/// they are negative. Between signs the negative one is the lesser, unless both are
/// zeros. With a pattern that is no number nothing is ordered.
pub proof fn numbers_are_ordered_by_their_bits(a: FloatBits, b: FloatBits)
    ensures
        a.nan() <==> !number(a.bits),
        !number(a.bits) || !number(b.bits) ==> !a.lt(b) && !a.le(b),
        number(a.bits) && number(b.bits) ==> {
            &&& !negative(a.bits) && !negative(b.bits) ==> (a.lt(b) <==> a.bits < b.bits)
            &&& negative(a.bits) && negative(b.bits) ==> (a.lt(b) <==> b.bits < a.bits)
            &&& negative(a.bits) && !negative(b.bits) ==> (a.lt(b) <==> unsigned(a.bits) > 0
                || unsigned(b.bits) > 0)
            &&& !negative(a.bits) && negative(b.bits) ==> !a.lt(b)
            &&& a.le(b) <==> !b.lt(a)
        },
{
}

/// The comparisons answer by that order.
pub proof fn comparisons_answer_by_the_order(a: FloatBits, b: FloatBits, answer: bool)
    ensures
        call_ensures(FloatBits::is_nan, (a,), answer) ==> (answer <==> !number(a.bits)),
        call_ensures(FloatBits::less, (a, b), answer) ==> (answer <==> a.lt(b)),
        call_ensures(FloatBits::at_least, (a, b), answer) ==> (answer <==> number(a.bits)
            && number(b.bits) && !a.lt(b)),
{
}

/// A number is made of the bits that are given.
pub proof fn made_number_has_its_bits(bits: u32, number: FloatBits)
    requires
        call_ensures(FloatBits::new, (bits,), number),
    ensures
        number.bits == bits,
{
}

/// In the total order every negative pattern is before every other one; the others are
/// ordered as their bits are, the negative ones the other way round.
pub proof fn total_order_follows_the_bits(
    a: FloatBits,
    b: FloatBits,
    place_a: i64,
    place_b: i64,
)
    requires
        call_ensures(FloatBits::total_order, (a,), place_a),
        call_ensures(FloatBits::total_order, (b,), place_b),
    ensures
        place_a == a.total_rank(),
        negative(a.bits) && !negative(b.bits) ==> place_a < place_b,
        !negative(a.bits) && !negative(b.bits) ==> (place_a < place_b <==> a.bits < b.bits),
        negative(a.bits) && negative(b.bits) ==> (place_a < place_b <==> b.bits < a.bits),
{
}

/// Clamping gives the nearer bound of a number outside, and leaves alone what lies
/// inside or is no number.
pub proof fn clamping_gives_the_nearer_bound(
    x: FloatBits,
    low: FloatBits,
    high: FloatBits,
    result: FloatBits,
)
    requires
        call_ensures(FloatBits::clamp_to, (x, low, high), result),
        low.le(high),
    ensures
        x.lt(low) ==> result == low,
        high.lt(x) ==> result == high,
        low.le(x) && x.le(high) ==> result == x,
        !number(x.bits) ==> result == x,
        result == x.clamped(low, high),
{
}

/// The time that has passed leads from the earlier moment to the later one, and none has
/// passed before the moment.
pub proof fn passed_time_leads_to_now(since: Moment, now: Moment, nanos: u64)
    requires
        call_ensures(Moment::elapsed_at, (since, now), nanos),
    ensures
        since.nanos <= now.nanos ==> since.nanos + nanos == now.nanos,
        since.nanos > now.nanos ==> nanos == 0,
        elapsed(since, now) == nanos,
{
}

/// A moment is made of the nanoseconds that are given.
pub proof fn made_moment_has_its_nanos(nanos: i64, moment: Moment)
    requires
        call_ensures(Moment::new, (nanos,), moment),
    ensures
        moment.nanos == nanos,
{
}

/// The lowest bit of the flags tells a valid orientation, the next one a valid position,
/// whatever the others are.
pub proof fn flags_are_told_bit_by_bit(flags: u64)
    ensures
        has_flags(flags, 1) <==> flags % 2 == 1,
        has_flags(flags, 2) <==> flags / 2 % 2 == 1,
{
    assert((flags & 1 == 1) <==> flags % 2 == 1) by (bit_vector);
    assert((flags & 2 == 2) <==> flags / 2 % 2 == 1) by (bit_vector);
}

/// The head turns exactly where its orientation is valid and moves exactly where its
/// position is, each without regard to the other.
pub proof fn head_follows_what_is_valid(hmd: &mut Pose, flags: u64, located: Pose, both: bool)
    requires
        call_ensures(follow_head, (hmd, flags, located), both),
    ensures
        flags % 2 == 1 ==> final(hmd).matrix3 == located.matrix3,
        flags % 2 == 0 ==> final(hmd).matrix3 == old(hmd).matrix3,
        flags / 2 % 2 == 1 ==> final(hmd).translation == located.translation,
        flags / 2 % 2 == 0 ==> final(hmd).translation == old(hmd).translation,
        both <==> flags % 2 == 1 && flags / 2 % 2 == 1,
{
    flags_are_told_bit_by_bit(flags);
}

/// A joint has a position exactly where the bit for positions is set, whatever the other
/// bits are, and it is the one located for that joint.
pub proof fn position_needs_only_its_bit(
    joints: &[JointLocation; 26],
    joint: HandJoint,
    index: usize,
    position: Option<Vec3>,
)
    requires
        call_ensures(HandJoint::index, (joint,), index),
        call_ensures(joint_position, (joints, joint), position),
    ensures
        index < 26,
        joints@[index as int].location_flags / 2 % 2 == 1 ==> position == Some(
            joints@[index as int].position,
        ),
        joints@[index as int].location_flags / 2 % 2 == 0 ==> position is None,
{
    flags_are_told_bit_by_bit(joints@[index as int].location_flags);
}

/// A hand has its points exactly where each of its nine joints has a position, and each
/// point is the position of its own joint.
pub proof fn points_are_the_joints_positions(
    joints: &[JointLocation; 26],
    points: Option<HandPoints>,
)
    requires
        call_ensures(hand_points_from_joints, (joints,), points),
    ensures
        points is Some <==> {
            &&& joints@[0].location_flags / 2 % 2 == 1
            &&& joints@[1].location_flags / 2 % 2 == 1
            &&& joints@[5].location_flags / 2 % 2 == 1
            &&& joints@[7].location_flags / 2 % 2 == 1
            &&& joints@[10].location_flags / 2 % 2 == 1
            &&& joints@[15].location_flags / 2 % 2 == 1
            &&& joints@[20].location_flags / 2 % 2 == 1
            &&& joints@[22].location_flags / 2 % 2 == 1
            &&& joints@[25].location_flags / 2 % 2 == 1
        },
        points matches Some(hand) ==> {
            &&& hand.palm == joints@[0].position
            &&& hand.wrist == joints@[1].position
            &&& hand.thumb_tip == joints@[5].position
            &&& hand.index_proximal == joints@[7].position
            &&& hand.index_tip == joints@[10].position
            &&& hand.middle_tip == joints@[15].position
            &&& hand.ring_tip == joints@[20].position
            &&& hand.little_proximal == joints@[22].position
            &&& hand.little_tip == joints@[25].position
        },
{
    flags_are_told_bit_by_bit(joints@[0].location_flags);
    flags_are_told_bit_by_bit(joints@[1].location_flags);
    flags_are_told_bit_by_bit(joints@[5].location_flags);
    flags_are_told_bit_by_bit(joints@[7].location_flags);
    flags_are_told_bit_by_bit(joints@[10].location_flags);
    flags_are_told_bit_by_bit(joints@[15].location_flags);
    flags_are_told_bit_by_bit(joints@[20].location_flags);
    flags_are_told_bit_by_bit(joints@[22].location_flags);
    flags_are_told_bit_by_bit(joints@[25].location_flags);
    assert(points is Some ==> {
        &&& crate::joints::position_of(joints@, HandJoint::Palm) is Some
        &&& crate::joints::position_of(joints@, HandJoint::Wrist) is Some
        &&& crate::joints::position_of(joints@, HandJoint::ThumbTip) is Some
        &&& crate::joints::position_of(joints@, HandJoint::IndexProximal) is Some
        &&& crate::joints::position_of(joints@, HandJoint::IndexTip) is Some
        &&& crate::joints::position_of(joints@, HandJoint::MiddleTip) is Some
        &&& crate::joints::position_of(joints@, HandJoint::RingTip) is Some
        &&& crate::joints::position_of(joints@, HandJoint::LittleProximal) is Some
        &&& crate::joints::position_of(joints@, HandJoint::LittleTip) is Some
    });
}

/// A located hand gives the points that its joints give; without joints, with too few or
/// after a failure the reading says just that.
pub proof fn reading_says_what_was_located(
    located: &Result<Option<[JointLocation; 26]>, ReadError>,
    reading: HandReading,
    points: Option<HandPoints>,
)
    requires
        call_ensures(read_hand, (located,), reading),
    ensures
        *located matches Err(e) ==> reading == HandReading::Failed(e),
        *located == Ok::<Option<[JointLocation; 26]>, ReadError>(None) ==> reading
            == HandReading::Missing,
        *located matches Ok(Some(joints)) && call_ensures(
            hand_points_from_joints,
            (&joints,),
            points,
        ) ==> reading == (match points {
            Some(hand) => HandReading::Points(hand),
            None => HandReading::Lacking,
        }),
{
}

/// A palm is up exactly where both rises are greater than needed and the hand is open.
pub proof fn palm_is_up_where_all_is_given(
    palm: FloatBits,
    palm_needed: FloatBits,
    tips: FloatBits,
    tips_needed: FloatBits,
    grab: FloatBits,
    answer: bool,
)
    requires
        call_ensures(palm_is_up, (palm, palm_needed, tips, tips_needed, grab), answer),
    ensures
        answer <==> palm_needed.lt(palm) && tips_needed.lt(tips) && grab.lt(
            FloatBits { bits: PALM_GRAB_LIMIT },
        ),
{
}

/// The strength of a gesture is the raw one between 0 and 1, the nearer of the two
/// outside, and 0 where the open distance is not above the closed one.
pub proof fn strength_is_the_raw_one_within_bounds(
    raw: FloatBits,
    closed: FloatBits,
    open: FloatBits,
    result: FloatBits,
)
    requires
        call_ensures(normalized_strength, (raw, closed, open), result),
    ensures
        open.le(closed) ==> result.bits == 0,
        !open.le(closed) ==> {
            &&& raw.lt((FloatBits { bits: 0 })) ==> result.bits == 0
            &&& (FloatBits { bits: 0x3f80_0000 }).lt(raw) ==> result.bits == 0x3f80_0000
            &&& !raw.lt((FloatBits { bits: 0 })) && !(FloatBits { bits: 0x3f80_0000 }).lt(raw)
                ==> result == raw
        },
{
}

/// A direction gives way to the fallback exactly where its squared length is less than
/// the least one.
pub proof fn direction_gives_way_where_it_is_short(
    direction: Vec3,
    length_squared: FloatBits,
    fallback: Vec3,
    chosen: Vec3,
)
    requires
        call_ensures(direction_or, (direction, length_squared, fallback), chosen),
    ensures
        length_squared.lt((FloatBits { bits: SHORTEST_DIRECTION })) ==> chosen == fallback,
        !length_squared.lt((FloatBits { bits: SHORTEST_DIRECTION })) ==> chosen == direction,
{
}

/// Each slot of a state is its own field.
pub proof fn slots_are_fields(state: PointerState)
    ensures
        state.on(ClickSlot::Click) == state.click,
        state.on(ClickSlot::Grab) == state.grab,
        state.on(ClickSlot::AltClick) == state.alt_click,
        state.on(ClickSlot::ShowHide) == state.show_hide,
        state.on(ClickSlot::ToggleDashboard) == state.toggle_dashboard,
        state.on(ClickSlot::SpaceDrag) == state.space_drag,
        state.on(ClickSlot::SpaceRotate) == state.space_rotate,
        state.on(ClickSlot::SpaceReset) == state.space_reset,
        state.on(ClickSlot::ModifierRight) == state.click_modifier_right,
        state.on(ClickSlot::ModifierMiddle) == state.click_modifier_middle,
        state.on(ClickSlot::MoveMouse) == state.move_mouse,
{
}

/// A slot can be asked for, and switching one sets it and leaves the others and the
/// scrolling alone.
pub proof fn switching_sets_one_slot(
    state: &mut PointerState,
    slot: ClickSlot,
    value: bool,
    other: ClickSlot,
    answer: bool,
)
    ensures
        call_ensures(PointerState::is_on, (&*old(state), slot), answer) ==> answer
            == old(state).on(slot),
        call_ensures(PointerState::switch, (state, slot, value), ()) ==> {
            &&& final(state).on(slot) == value
            &&& other != slot ==> final(state).on(other) == old(state).on(other)
            &&& final(state).scroll_x == old(state).scroll_x
            &&& final(state).scroll_y == old(state).scroll_y
        },
{
}

/// A resting state has no slot on and does not scroll.
pub proof fn resting_state_does_nothing(state: &mut PointerState, slot: ClickSlot)
    requires
        call_ensures(PointerState::rest, (state,), ()),
    ensures
        !final(state).on(slot),
        final(state).scroll_x.bits == 0,
        final(state).scroll_y.bits == 0,
{
}

/// The number that a text in decimal notation stands for.
pub open spec fn value_of(text: Seq<char>) -> int
    decreases text.len(),
{
    if text.len() == 0 {
        0
    } else {
        value_of(text.drop_last()) * 10 + (text.last() as int - '0' as int)
    }
}

/// The decimal notation of a number consists of digits, stands for that number, and does
/// not start with a zero unless it is one digit.
pub proof fn decimal_text_stands_for_its_number(n: usize, text: String)
    requires
        call_ensures(decimal_text, (n,), text),
    ensures
        forall|i: int| 0 <= i < text@.len() ==> '0' <= #[trigger] text@[i] <= '9',
        value_of(text@) == n,
        text@.len() > 0,
        text@.len() > 1 ==> text@[0] != '0',
{
    lemma_decimal(n as nat);
}

proof fn lemma_decimal(n: nat)
    ensures
        forall|i: int| 0 <= i < decimal(n).len() ==> '0' <= #[trigger] decimal(n)[i] <= '9',
        value_of(decimal(n)) == n,
        decimal(n).len() > 0,
        n > 0 ==> decimal(n)[0] != '0',
        decimal(n).len() > 1 ==> n > 0,
    decreases n,
{
    reveal_with_fuel(value_of, 2);
    if n < 10 {
        assert(decimal(n).drop_last() =~= seq![]);
    } else {
        lemma_decimal(n / 10);
        assert(decimal(n).drop_last() =~= decimal(n / 10));
        assert(decimal(n)[0] == decimal(n / 10)[0]);
    }
}

/// The name of a handler starts with the side, ends in the action, and has the count
/// between an underscore and a hyphen in the middle; the name for its numbers has an
/// ending more.
pub proof fn names_are_put_together(
    side: &str,
    count: usize,
    action: &str,
    name: String,
    text: String,
    base: &str,
    full: String,
)
    requires
        call_ensures(compose_handler_name, (side, count, action), name),
        call_ensures(decimal_text, (count,), text),
        call_ensures(compose_value_name, (base,), full),
    ensures
        name@.len() == side@.len() + text@.len() + action@.len() + 2,
        name@.take(side@.len() as int) == side@,
        name@[side@.len() as int] == '_',
        name@.subrange(side@.len() as int + 1, side@.len() as int + 1 + text@.len()) == text@,
        name@[side@.len() as int + 1 + text@.len()] == '-',
        name@.skip(name@.len() - action@.len()) == action@,
        full@ == base@ + "_value"@,
{
    reveal_strlit("_");
    reveal_strlit("-");
    assert(name@.take(side@.len() as int) =~= side@);
    assert(name@.subrange(side@.len() as int + 1, side@.len() as int + 1 + text@.len()) =~= text@);
    assert(name@.skip(name@.len() - action@.len()) =~= action@);
}

/// Each slot is labelled by the action that it is for.
pub proof fn slots_are_labelled(slot: ClickSlot, text: &'static str)
    requires
        call_ensures(slot_text, (slot,), text),
    ensures
        text@ == slot_label(slot),
        slot_label(slot) == (match slot {
            ClickSlot::Click => "click"@,
            ClickSlot::Grab => "grab"@,
            ClickSlot::AltClick => "alt_click"@,
            ClickSlot::ShowHide => "show_hide"@,
            ClickSlot::ToggleDashboard => "toggle_dashboard"@,
            ClickSlot::SpaceDrag => "space_drag"@,
            ClickSlot::SpaceRotate => "space_rotate"@,
            ClickSlot::SpaceReset => "space_reset"@,
            ClickSlot::ModifierRight => "click_modifier_right"@,
            ClickSlot::ModifierMiddle => "click_modifier_middle"@,
            ClickSlot::MoveMouse => "move_mouse"@,
        }),
{
}

/// Values can be compared, and hands read, whatever they are.
pub proof fn values_can_always_be_read(
    a: FloatBits,
    b: FloatBits,
    since: Moment,
    now: Moment,
    hmd: &mut Pose,
    flags: u64,
    located: Pose,
    joints: &[JointLocation; 26],
    joint: HandJoint,
    reading: &Result<Option<[JointLocation; 26]>, ReadError>,
    direction: Vec3,
    fallback: Vec3,
)
    ensures
        call_requires(FloatBits::less, (a, b)),
        call_requires(FloatBits::at_least, (a, b)),
        call_requires(FloatBits::total_order, (a,)),
        call_requires(Moment::elapsed_at, (since, now)),
        call_requires(follow_head, (hmd, flags, located)),
        call_requires(joint_position, (joints, joint)),
        call_requires(hand_points_from_joints, (joints,)),
        call_requires(read_hand, (reading,)),
        call_requires(palm_is_up, (a, b, a, b, a)),
        call_requires(normalized_strength, (a, b, a)),
        call_requires(direction_or, (direction, a, fallback)),
{
}

} // verus!
