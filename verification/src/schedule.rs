//! The schedule of auction windows.
//!
//! The schedule of an escrow is a function of its genesis time, of its window
//! length and of the clock, and of nothing else. Window `i` covers the seconds
//! from `genesis + i * length` up to, and not including, `genesis + (i + 1) * length`.

use vstd::prelude::*;
use vstd::arithmetic::div_mod::{lemma_fundamental_div_mod, lemma_fundamental_div_mod_converse, lemma_mod_bound};
use crate::error::ErrorCode;

verus! {

/// The length of a window where nothing else is asked for: one day, in seconds.
pub const DEFAULT_WINDOW_LENGTH: u64 = 86_400;

/// The index of the window that holds the time `now`.
pub open spec fn spec_window_index(genesis: int, length: int, now: int) -> int {
    (now - genesis) / length
}

/// The first second of window `index`.
pub open spec fn spec_window_opens_at(genesis: int, length: int, index: int) -> int {
    genesis + index * length
}

/// The first second after window `index`.
pub open spec fn spec_window_closes_at(genesis: int, length: int, index: int) -> int {
    genesis + (index + 1) * length
}

/// The window that holds `now` has opened and has not closed.
pub proof fn lemma_current_window_is_open(genesis: int, length: int, now: int)
    requires
        length > 0,
    ensures
        spec_window_opens_at(genesis, length, spec_window_index(genesis, length, now)) <= now,
        now < spec_window_closes_at(genesis, length, spec_window_index(genesis, length, now)),
        now >= genesis ==> spec_window_index(genesis, length, now) >= 0,
{
    let d = now - genesis;
    let q = d / length;
    lemma_fundamental_div_mod(d, length);
    lemma_mod_bound(d, length);
    assert(length * q == q * length) by (nonlinear_arith);
    assert((q + 1) * length == q * length + length) by (nonlinear_arith);
    if now >= genesis && q < 0 {
        assert(q * length <= -length) by (nonlinear_arith)
            requires
                q <= -1,
                length > 0,
        ;
    }
}

/// Only one window holds a given time: a window that has opened and has not
/// closed at `now` is the window that the index formula gives.
pub proof fn lemma_open_window_is_current(genesis: int, length: int, now: int, index: int)
    requires
        length > 0,
        spec_window_opens_at(genesis, length, index) <= now,
        now < spec_window_closes_at(genesis, length, index),
    ensures
        spec_window_index(genesis, length, now) == index,
{
    let d = now - genesis;
    let r = d - index * length;
    assert((index + 1) * length == index * length + length) by (nonlinear_arith);
    lemma_fundamental_div_mod_converse(d, length, index, r);
}

/// The index of the window that holds `now`.
///
/// Refused with `InvalidParams` where the window length is zero, and with
/// `ClockSkew` where `now` lies before the genesis time.
pub fn window_index(genesis_time: i64, window_length: u64, now: i64) -> (r: Result<u64, ErrorCode>)
    ensures
        window_length == 0 ==> r == Err::<u64, ErrorCode>(ErrorCode::InvalidParams),
        window_length > 0 && now < genesis_time ==> r == Err::<u64, ErrorCode>(
            ErrorCode::ClockSkew,
        ),
        window_length > 0 && now >= genesis_time ==> r is Ok && r->Ok_0 as int
            == spec_window_index(genesis_time as int, window_length as int, now as int),
{
    if window_length == 0 {
        return Err(ErrorCode::InvalidParams);
    }
    if now < genesis_time {
        return Err(ErrorCode::ClockSkew);
    }
    let elapsed: u64 = (now as i128 - genesis_time as i128) as u64;
    Ok(elapsed / window_length)
}

/// The first second of window `index`.
///
/// Refused with `InvalidParams` where the window length is zero or the time
/// does not fit the clock's range.
pub fn window_opens_at(genesis_time: i64, window_length: u64, index: u64) -> (r: Result<
    i64,
    ErrorCode,
>)
    ensures
        r is Ok <==> window_length > 0 && spec_window_opens_at(
            genesis_time as int,
            window_length as int,
            index as int,
        ) <= i64::MAX,
        r matches Ok(t) ==> t as int == spec_window_opens_at(
            genesis_time as int,
            window_length as int,
            index as int,
        ),
        r matches Err(e) ==> e == ErrorCode::InvalidParams,
{
    if window_length == 0 {
        return Err(ErrorCode::InvalidParams);
    }
    offset_time(genesis_time, window_length, index as u128)
}

/// The first second after window `index`.
///
/// Refused with `InvalidParams` where the window length is zero or the time
/// does not fit the clock's range.
pub fn window_closes_at(genesis_time: i64, window_length: u64, index: u64) -> (r: Result<
    i64,
    ErrorCode,
>)
    ensures
        r is Ok <==> window_length > 0 && spec_window_closes_at(
            genesis_time as int,
            window_length as int,
            index as int,
        ) <= i64::MAX,
        r matches Ok(t) ==> t as int == spec_window_closes_at(
            genesis_time as int,
            window_length as int,
            index as int,
        ),
        r matches Err(e) ==> e == ErrorCode::InvalidParams,
{
    if window_length == 0 {
        return Err(ErrorCode::InvalidParams);
    }
    offset_time(genesis_time, window_length, index as u128 + 1)
}

/// The time `genesis_time + steps * window_length`, where it fits the clock's range.
fn offset_time(genesis_time: i64, window_length: u64, steps: u128) -> (r: Result<i64, ErrorCode>)
    requires
        window_length > 0,
        steps <= 0x1_0000_0000_0000_0000,
    ensures
        r is Ok <==> genesis_time + steps * window_length <= i64::MAX,
        r matches Ok(t) ==> t as int == genesis_time + steps * window_length,
        r matches Err(e) ==> e == ErrorCode::InvalidParams,
{
    assert(steps * window_length <= 0x1_0000_0000_0000_0000 * 0xffff_ffff_ffff_ffff) by (nonlinear_arith)
        requires
            steps <= 0x1_0000_0000_0000_0000,
            window_length <= 0xffff_ffff_ffff_ffff,
    ;
    assert(steps * window_length >= 0) by (nonlinear_arith)
        requires
            steps >= 0,
            window_length >= 0,
    ;
    let span: u128 = steps * (window_length as u128);
    let room: u128 = (i64::MAX as i128 - genesis_time as i128) as u128;
    if span > room {
        Err(ErrorCode::InvalidParams)
    } else {
        Ok((genesis_time as i128 + span as i128) as i64)
    }
}

} // verus!
