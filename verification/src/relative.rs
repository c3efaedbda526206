//! Seats as seen from an observer: the distance from one seat to another,
//! counted upwards and modulo the number of seats.

use vstd::prelude::*;

verus! {

/// The distance from `observer` to `seat`, in `0..count`.
pub open spec fn relative_offset(observer: int, seat: int, count: int) -> int {
    (seat - observer) % count
}

/// The seat that lies `offset` places after `observer`.
pub open spec fn seat_at_offset(observer: int, offset: int, count: int) -> int {
    (observer + offset) % count
}

/// The seat `seat` after every seat has moved `shift` places upwards.
pub open spec fn rotated_seat(seat: int, shift: int, count: int) -> int {
    (seat + shift) % count
}

/// Both functions without the remainder, for seats and offsets below `count`.
pub proof fn lemma_offset_closed_form(observer: int, other: int, count: int)
    requires
        0 <= observer < count,
        0 <= other < count,
    ensures
        relative_offset(observer, other, count) == if other >= observer {
            other - observer
        } else {
            other - observer + count
        },
        seat_at_offset(observer, other, count) == if observer + other < count {
            observer + other
        } else {
            observer + other - count
        },
{
    if other >= observer {
        vstd::arithmetic::div_mod::lemma_small_mod((other - observer) as nat, count as nat);
    } else {
        vstd::arithmetic::div_mod::lemma_mod_add_multiples_vanish(other - observer, count);
        vstd::arithmetic::div_mod::lemma_small_mod((other - observer + count) as nat, count as nat);
    }
    if observer + other < count {
        vstd::arithmetic::div_mod::lemma_small_mod((observer + other) as nat, count as nat);
    } else {
        vstd::arithmetic::div_mod::lemma_mod_add_multiples_vanish(observer + other - count, count);
        vstd::arithmetic::div_mod::lemma_small_mod((observer + other - count) as nat, count as nat);
    }
}

/// Distance from `observer` to `seat` among `count` seats.
pub fn player_id_to_relative(observer: u8, seat: u8, count: u8) -> (offset: u8)
    requires
        observer < count,
        seat < count,
    ensures
        offset == relative_offset(observer as int, seat as int, count as int),
        offset < count,
{
    proof {
        lemma_offset_closed_form(observer as int, seat as int, count as int);
    }
    if seat >= observer {
        seat - observer
    } else {
        count - observer + seat
    }
}

/// The seat `offset` places after `observer` among `count` seats.
pub fn offset_to_player_id(observer: u8, offset: u8, count: u8) -> (seat: u8)
    requires
        observer < count,
        offset < count,
    ensures
        seat == seat_at_offset(observer as int, offset as int, count as int),
        seat < count,
{
    proof {
        lemma_offset_closed_form(observer as int, offset as int, count as int);
    }
    if offset < count - observer {
        observer + offset
    } else {
        offset - (count - observer)
    }
}

/// An offset lies below `count`, and it is zero for the observer alone.
pub proof fn lemma_offset_range(observer: int, seat: int, count: int)
    requires
        0 <= observer < count,
        0 <= seat < count,
    ensures
        0 <= relative_offset(observer, seat, count) < count,
        relative_offset(observer, seat, count) == 0 <==> seat == observer,
        0 <= seat_at_offset(observer, seat, count) < count,
{
    lemma_offset_closed_form(observer, seat, count);
}

/// Going `relative_offset` places on from the observer reaches the seat again,
/// and the seat at an offset lies at that offset.
pub proof fn lemma_offset_round_trip(observer: int, other: int, count: int)
    requires
        0 <= observer < count,
        0 <= other < count,
    ensures
        seat_at_offset(observer, relative_offset(observer, other, count), count) == other,
        relative_offset(observer, seat_at_offset(observer, other, count), count) == other,
{
    lemma_offset_closed_form(observer, other, count);
    lemma_offset_closed_form(observer, relative_offset(observer, other, count), count);
    lemma_offset_closed_form(observer, seat_at_offset(observer, other, count), count);
}

/// Moving the observer and the seat by the same number of places leaves the
/// offset between them unchanged.
pub proof fn lemma_offset_rotation(observer: int, seat: int, shift: int, count: int)
    requires
        0 < count,
    ensures
        relative_offset(
            rotated_seat(observer, shift, count),
            rotated_seat(seat, shift, count),
            count,
        ) == relative_offset(observer, seat, count),
{
    vstd::arithmetic::div_mod::lemma_sub_mod_noop(seat + shift, observer + shift, count);
}

/// Two observers see one seat at offsets that differ by the offset between the
/// observers.
pub proof fn lemma_offset_observer_shift(first: int, second: int, seat: int, count: int)
    requires
        0 < count,
    ensures
        relative_offset(second, seat, count) == (relative_offset(first, seat, count)
            + relative_offset(second, first, count)) % count,
{
    vstd::arithmetic::div_mod::lemma_add_mod_noop(seat - first, first - second, count);
}

} // verus!
