//! Capacity planning: how many serving units a declared number of concurrent
//! clients calls for, given the parallelism the hardware offers.

use vstd::prelude::*;

verus! {

/// No recommendation goes below this many serving units, unless the hardware
/// itself offers fewer.
pub const MIN_DEGREE: usize = 4;

/// The degree a client count asks for before any bound is applied.
///
/// Fewer than 20 clients get two units each; from 20 up to 49 one and a half
/// each, rounded down; from 50 up to 99 one and a fifth each, rounded down;
/// from 100 on, ten units more than there are clients.
pub open spec fn raw_degree(clients: int) -> int {
    if clients < 20 {
        clients * 2
    } else if clients < 50 {
        clients * 3 / 2
    } else if clients < 100 {
        clients * 6 / 5
    } else {
        clients + 10
    }
}

/// The recommended degree: the raw degree, raised to `MIN_DEGREE` where it
/// falls short, then capped at the available parallelism.
pub open spec fn recommended_degree(clients: int, available: int) -> int {
    let wanted: int = if raw_degree(clients) < MIN_DEGREE as int {
        MIN_DEGREE as int
    } else {
        raw_degree(clients)
    };
    if available < wanted {
        available
    } else {
        wanted
    }
}

/// Recommends a serving concurrency degree for `clients` concurrent clients
/// on hardware that runs `available` units in parallel.
///
/// Total: a client count so large that ten more would not fit the machine
/// word is capped at `available` like any other.
pub fn recommend(clients: usize, available: usize) -> (degree: usize)
    ensures
        degree as int == recommended_degree(clients as int, available as int),
        degree <= available,
        available >= MIN_DEGREE ==> degree >= MIN_DEGREE,
{
    let raw: usize = if clients < 20 {
        clients * 2
    } else if clients < 50 {
        clients * 3 / 2
    } else if clients < 100 {
        clients * 6 / 5
    } else {
        match clients.checked_add(10) {
            Some(sum) => sum,
            None => {
                return available;
            },
        }
    };
    let wanted: usize = if raw < MIN_DEGREE {
        MIN_DEGREE
    } else {
        raw
    };
    if available < wanted {
        available
    } else {
        wanted
    }
}

/// The serving degree a service starts with.
///
/// A declared client count decides by the recommendation. Without one, an
/// explicitly configured degree is taken as it is; without either, the
/// service runs one unit for each unit of available parallelism.
pub open spec fn startup_degree_of(
    declared: Option<usize>,
    configured: Option<usize>,
    available: usize,
) -> int {
    match declared {
        Some(clients) => recommended_degree(clients as int, available as int),
        None => match configured {
            Some(degree) => degree as int,
            None => available as int,
        },
    }
}

/// Chooses the serving degree at start, once: it is not resized afterwards.
pub fn startup_degree(declared: Option<usize>, configured: Option<usize>, available: usize) -> (degree:
    usize)
    ensures
        degree as int == startup_degree_of(declared, configured, available),
{
    match declared {
        Some(clients) => recommend(clients, available),
        None => match configured {
            Some(degree) => degree,
            None => available,
        },
    }
}

/// The decimal digit for a value from 0 to 9.
pub open spec fn decimal_digit(value: nat) -> char {
    if value == 0 {
        '0'
    } else if value == 1 {
        '1'
    } else if value == 2 {
        '2'
    } else if value == 3 {
        '3'
    } else if value == 4 {
        '4'
    } else if value == 5 {
        '5'
    } else if value == 6 {
        '6'
    } else if value == 7 {
        '7'
    } else if value == 8 {
        '8'
    } else {
        '9'
    }
}

/// A number in decimal: most significant digit first, no sign, no padding,
/// a single `0` for zero.
pub open spec fn decimal_text(value: nat) -> Seq<char>
    decreases value,
{
    if value < 10 {
        seq![decimal_digit(value)]
    } else {
        decimal_text(value / 10).push(decimal_digit(value % 10))
    }
}

/// The note that goes with an advice: the recommendation takes effect only
/// when the service is started again with it.
pub open spec fn restart_note_text(recommended: usize) -> Seq<char> {
    "Mining worker count registered. Note: Actix workers are set at startup and cannot be changed at runtime. Recommended: "@
        + decimal_text(recommended as nat) + " workers (restart server with WORKERS="@
        + decimal_text(recommended as nat) + " to apply)"@
}

/// `to_string` of std on a `usize`: the number in decimal, most significant
/// digit first, without sign or padding.
#[verifier::external_body]
fn decimal(value: usize) -> (text: String)
    ensures
        text@ == decimal_text(value as nat),
{
    value.to_string()
}

/// Writes the note that goes with a recommendation.
pub fn restart_note(recommended: usize) -> (note: String)
    ensures
        note@ == restart_note_text(recommended),
{
    let digits = decimal(recommended);
    let note = String::from_str(
        "Mining worker count registered. Note: Actix workers are set at startup and cannot be changed at runtime. Recommended: ",
    );
    let note = note.concat(digits.as_str());
    let note = note.concat(" workers (restart server with WORKERS=");
    let note = note.concat(digits.as_str());
    note.concat(" to apply)")
}

} // verus!
