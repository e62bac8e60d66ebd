//! The two routes and what each answers.
//!
//! A handler copies the current value out of the slot, lets go of the slot,
//! and only then asks this module for the response, so the slot is never
//! held while a response is rendered or written to a socket.

use vstd::prelude::*;
use crate::polling::{lemma_failures_only_keep_slot, lemma_slot_holds_latest_success, slot_after_ticks};
use crate::reading::{Reading, SensorError};

verus! {

/// The port the listener binds to when none is configured.
pub const DEFAULT_PORT: u16 = 4000;

/// Status of every successful answer.
pub const STATUS_OK: u16 = 200;

/// Status of `/measurement` while no sample has succeeded yet. The body is
/// empty: no reading is made up.
pub const STATUS_NO_DATA: u16 = 503;

/// A route the server answers to `GET`.
#[derive(Clone, Copy, Debug, PartialEq, Eq, Structural)]
pub enum Route {
    /// `/alive`: the health check.
    Alive,
    /// `/measurement`: the latest reading.
    Measurement,
}

/// A status code and the bytes of the body, which are UTF-8 text.
#[derive(Debug)]
pub struct Response {
    pub status: u16,
    pub body: Vec<u8>,
}

/// The ASCII digit for `d`, which is below ten.
pub open spec fn digit(d: nat) -> u8 {
    (48 + d) as u8
}

/// `n` in decimal, without leading zeros; `0` is the single digit `0`.
pub open spec fn decimal(n: nat) -> Seq<u8>
    decreases n,
{
    if n < 10 {
        seq![digit(n)]
    } else {
        decimal(n / 10).push(digit(n % 10))
    }
}

/// A count of tenths as a decimal number: the whole part, then a point and
/// one digit unless that digit is zero. `215` is `21.5`, `400` is `40`.
pub open spec fn tenths(n: nat) -> Seq<u8> {
    if n % 10 == 0 {
        decimal(n / 10)
    } else {
        decimal(n / 10) + seq![46u8, digit(n % 10)]
    }
}

/// Like `tenths`, with a leading minus sign for a negative count.
pub open spec fn signed_tenths(t: int) -> Seq<u8> {
    if t < 0 {
        seq![45u8] + tenths((-t) as nat)
    } else {
        tenths(t as nat)
    }
}

/// The text `alive`.
pub open spec fn alive_text() -> Seq<u8> {
    seq![97u8, 108u8, 105u8, 118u8, 101u8]
}

/// The text that follows the temperature: the degree sign in UTF-8, then `C, `.
pub open spec fn after_temperature() -> Seq<u8> {
    seq![194u8, 176u8, 67u8, 44u8, 32u8]
}

/// The text that follows the humidity: `% RH`.
pub open spec fn after_humidity() -> Seq<u8> {
    seq![37u8, 32u8, 82u8, 72u8]
}

/// The body of `/measurement` for a reading: `<temperature>°C, <humidity>% RH`.
pub open spec fn measurement_text(r: Reading) -> Seq<u8> {
    signed_tenths(r.temperature_tenths as int) + after_temperature() + tenths(
        r.humidity_tenths as nat,
    ) + after_humidity()
}

/// The status a route answers with, given the slot's content.
pub open spec fn status_of(route: Route, current: Option<Reading>) -> u16 {
    match route {
        Route::Alive => STATUS_OK,
        Route::Measurement => if current.is_some() {
            STATUS_OK
        } else {
            STATUS_NO_DATA
        },
    }
}

/// The body a route answers with, given the slot's content.
pub open spec fn body_of(route: Route, current: Option<Reading>) -> Seq<u8> {
    match route {
        Route::Alive => alive_text(),
        Route::Measurement => match current {
            Some(r) => measurement_text(r),
            None => Seq::<u8>::empty(),
        },
    }
}

/// The path of each route.
pub open spec fn path_of(route: Route) -> Seq<char> {
    match route {
        Route::Alive => "/alive"@,
        Route::Measurement => "/measurement"@,
    }
}

impl Route {
    /// The path under which the route is registered.
    pub fn path(&self) -> (p: &'static str)
        ensures
            p@ == path_of(*self),
    {
        match self {
            Route::Alive => "/alive",
            Route::Measurement => "/measurement",
        }
    }
}

/// Appends `n` in decimal to `out`.
pub fn push_decimal(out: &mut Vec<u8>, n: u32)
    ensures
        final(out)@ == old(out)@ + decimal(n as nat),
    decreases n,
{
    if n >= 10 {
        push_decimal(out, n / 10);
    }
    let d: u8 = (n % 10) as u8;
    out.push(48u8 + d);
    proof {
        if n >= 10 {
            assert(out@ =~= old(out)@ + decimal((n / 10) as nat).push(digit((n % 10) as nat)));
        } else {
            assert(out@ =~= old(out)@ + seq![digit(n as nat)]);
        }
    }
}

/// Appends a count of tenths to `out` as a decimal number.
pub fn push_tenths(out: &mut Vec<u8>, n: u32)
    ensures
        final(out)@ == old(out)@ + tenths(n as nat),
{
    push_decimal(out, n / 10);
    let d: u8 = (n % 10) as u8;
    if d != 0 {
        out.push(46u8);
        out.push(48u8 + d);
        proof {
            assert(out@ =~= old(out)@ + (decimal((n / 10) as nat) + seq![
                46u8,
                digit((n % 10) as nat),
            ]));
        }
    }
}

/// Appends a signed count of tenths to `out` as a decimal number.
pub fn push_signed_tenths(out: &mut Vec<u8>, t: i32)
    ensures
        final(out)@ == old(out)@ + signed_tenths(t as int),
{
    if t < 0 {
        out.push(45u8);
        let magnitude: u32 = (-(t as i64)) as u32;
        push_tenths(out, magnitude);
        proof {
            assert(out@ =~= old(out)@ + (seq![45u8] + tenths((-t) as nat)));
        }
    } else {
        push_tenths(out, t as u32);
    }
}

/// The body of `/measurement` for a reading.
pub fn render_measurement(r: Reading) -> (body: Vec<u8>)
    ensures
        body@ == measurement_text(r),
{
    let mut body: Vec<u8> = Vec::new();
    push_signed_tenths(&mut body, r.temperature_tenths);
    body.push(194u8);
    body.push(176u8);
    body.push(67u8);
    body.push(44u8);
    body.push(32u8);
    let ghost mid = body@;
    push_tenths(&mut body, r.humidity_tenths);
    body.push(37u8);
    body.push(32u8);
    body.push(82u8);
    body.push(72u8);
    proof {
        assert(mid =~= signed_tenths(r.temperature_tenths as int) + after_temperature());
        assert(body@ =~= mid + tenths(r.humidity_tenths as nat) + after_humidity());
    }
    body
}

/// The body of `/alive`.
pub fn render_alive() -> (body: Vec<u8>)
    ensures
        body@ == alive_text(),
{
    let mut body: Vec<u8> = Vec::new();
    body.push(97u8);
    body.push(108u8);
    body.push(105u8);
    body.push(118u8);
    body.push(101u8);
    proof {
        assert(body@ =~= alive_text());
    }
    body
}

/// The answer of `route` to a `GET`, given a copy of the slot's content.
///
/// `/alive` is answered the same whatever the slot holds. `/measurement`
/// renders the reading if there is one, and otherwise reports that none is
/// available yet.
pub fn respond(route: Route, current: Option<Reading>) -> (response: Response)
    ensures
        response.status == status_of(route, current),
        response.body@ == body_of(route, current),
{
    match route {
        Route::Alive => Response { status: STATUS_OK, body: render_alive() },
        Route::Measurement => match current {
            Some(r) => Response { status: STATUS_OK, body: render_measurement(r) },
            None => Response { status: STATUS_NO_DATA, body: Vec::new() },
        },
    }
}

/// `/alive` answers `200` and `alive` whatever the slot holds, so it is the
/// same answer whether or not any sample has ever succeeded.
pub proof fn lemma_alive_is_independent(current: Option<Reading>)
    ensures
        status_of(Route::Alive, current) == STATUS_OK,
        body_of(Route::Alive, current) == alive_text(),
{
}

/// `/measurement` answers `200` exactly when the slot holds a reading, and
/// otherwise `503` with an empty body: it never renders a reading that was
/// not stored.
pub proof fn lemma_measurement_needs_a_reading(current: Option<Reading>)
    ensures
        status_of(Route::Measurement, current) == STATUS_OK <==> current.is_some(),
        current.is_none() ==> status_of(Route::Measurement, current) == STATUS_NO_DATA && body_of(
            Route::Measurement,
            current,
        ).len() == 0,
        current.is_some() ==> body_of(Route::Measurement, current).len() > 0,
{
    if let Some(r) = current {
        assert(measurement_text(r).len() > 0);
    }
}

/// As long as no sample has succeeded since startup, `/measurement` answers
/// `503` with an empty body: after any number of ticks that all failed,
/// starting from the empty slot, no reading is shown.
pub proof fn lemma_no_data_before_first_success(
    outcomes: Seq<Result<Reading, SensorError>>,
    n: nat,
)
    requires
        n <= outcomes.len(),
        forall|j: int| 0 <= j < n ==> outcomes[j].is_err(),
    ensures
        status_of(Route::Measurement, slot_after_ticks(None, outcomes, n)) == STATUS_NO_DATA,
        body_of(Route::Measurement, slot_after_ticks(None, outcomes, n)) == Seq::<u8>::empty(),
{
    lemma_failures_only_keep_slot(None, outcomes, n);
}

/// Once a sample has succeeded, `/measurement` answers `200` with the text
/// of the most recent success, however many failures came after it and
/// whatever the slot held before.
pub proof fn lemma_measurement_shows_latest_success(
    slot: Option<Reading>,
    outcomes: Seq<Result<Reading, SensorError>>,
    n: nat,
    last: nat,
)
    requires
        n <= outcomes.len(),
        last < n,
        outcomes[last as int].is_ok(),
        forall|j: int| last < j < n ==> outcomes[j].is_err(),
    ensures
        status_of(Route::Measurement, slot_after_ticks(slot, outcomes, n)) == STATUS_OK,
        body_of(Route::Measurement, slot_after_ticks(slot, outcomes, n)) == measurement_text(
            outcomes[last as int].unwrap(),
        ),
{
    lemma_slot_holds_latest_success(slot, outcomes, n, last);
}

} // verus!
