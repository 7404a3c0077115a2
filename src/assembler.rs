use vstd::prelude::*;

use crate::codec::DecodedField;
use crate::error::Error;

verus! {

/// A complete reading: both required fields were observed.
#[derive(Debug, Clone, Copy, PartialEq, Eq, Structural)]
pub struct Reading {
    /// CO2 concentration, in ppm.
    pub co2: u16,
    /// Temperature in the sensor's raw unit, sixteenths of a kelvin.
    pub temperature: u16,
}

/// The fields collected so far while assembling one reading.
#[derive(Debug, Clone, Copy, PartialEq, Eq, Structural)]
pub struct Assembler {
    pub co2: Option<u16>,
    pub temperature: Option<u16>,
}

/// What the reading loop does after one single-frame read.
#[derive(Debug, Clone)]
pub enum Step {
    /// Read another frame.
    Continue,
    /// The reading is complete.
    Done(Reading),
    /// The reading is abandoned with this error.
    Fail(Error),
}

/// The collected fields after one more decoded field: a value of a kind
/// already held replaces the earlier one; unknown fields change nothing.
pub open spec fn fold(a: Assembler, f: DecodedField) -> Assembler {
    match f {
        DecodedField::Co2(v) => Assembler { co2: Some(v), ..a },
        DecodedField::Temperature(v) => Assembler { temperature: Some(v), ..a },
        DecodedField::Unknown => a,
    }
}

/// Whether `elapsed_ms` milliseconds exceed the overall timeout; a negative
/// timeout means no limit.
pub open spec fn expired(elapsed_ms: u128, timeout_ms: i32) -> bool {
    timeout_ms >= 0 && elapsed_ms >= timeout_ms as u128
}

/// One step of assembly, after a single-frame read that returned `outcome`
/// when `elapsed_ms` had passed since the reading began. Any error of the
/// read ends the reading at once, an expired single-frame read included:
/// it is not retried. Otherwise the deadline is checked after every frame
/// that leaves the reading incomplete, an unknown one included; a frame that
/// completes the reading wins over an expired deadline.
pub open spec fn step_spec(
    a: Assembler,
    outcome: Result<DecodedField, Error>,
    elapsed_ms: u128,
    timeout_ms: i32,
) -> (Assembler, Step) {
    match outcome {
        Err(e) => (a, Step::Fail(e)),
        Ok(f) => {
            let b = fold(a, f);
            if b.co2 is Some && b.temperature is Some {
                (b, Step::Done(Reading { co2: b.co2->0, temperature: b.temperature->0 }))
            } else if expired(elapsed_ms, timeout_ms) {
                (b, Step::Fail(Error::Timeout))
            } else {
                (b, Step::Continue)
            }
        },
    }
}

/// The outcome of a reading fed the single-frame outcomes of `events`, each
/// with the time elapsed when it came; `None` while still waiting.
pub open spec fn run(a: Assembler, events: Seq<(Result<DecodedField, Error>, u128)>, timeout_ms: i32) -> Option<Result<Reading, Error>>
    decreases events.len(),
{
    if events.len() == 0 {
        None
    } else {
        match step_spec(a, events[0].0, events[0].1, timeout_ms).1 {
            Step::Continue => run(
                step_spec(a, events[0].0, events[0].1, timeout_ms).0,
                events.drop_first(),
                timeout_ms,
            ),
            Step::Done(r) => Some(Ok(r)),
            Step::Fail(e) => Some(Err(e)),
        }
    }
}

/// Whether one of the single-frame reads in `events` delivered field `f`.
pub open spec fn delivered(events: Seq<(Result<DecodedField, Error>, u128)>, f: DecodedField) -> bool {
    exists|i: int| 0 <= i < events.len() && events[i].0 == Ok::<DecodedField, Error>(f)
}

proof fn lemma_reading_fields_seen(
    a: Assembler,
    events: Seq<(Result<DecodedField, Error>, u128)>,
    timeout_ms: i32,
    r: Reading,
)
    requires
        run(a, events, timeout_ms) == Some(Ok::<Reading, Error>(r)),
    ensures
        a.co2 == Some(r.co2) || delivered(events, DecodedField::Co2(r.co2)),
        a.temperature == Some(r.temperature) || delivered(events, DecodedField::Temperature(r.temperature)),
    decreases events.len(),
{
    let (b, st) = step_spec(a, events[0].0, events[0].1, timeout_ms);
    let rest = events.drop_first();
    if st is Continue {
        lemma_reading_fields_seen(b, rest, timeout_ms, r);
        if delivered(rest, DecodedField::Co2(r.co2)) {
            let i = choose|i: int| 0 <= i < rest.len() && rest[i].0 == Ok::<DecodedField, Error>(DecodedField::Co2(r.co2));
            assert(events[i + 1] == rest[i]);
        }
        if delivered(rest, DecodedField::Temperature(r.temperature)) {
            let i = choose|i: int| 0 <= i < rest.len() && rest[i].0 == Ok::<DecodedField, Error>(DecodedField::Temperature(r.temperature));
            assert(events[i + 1] == rest[i]);
        }
    }
}

/// Assembly never returns a partial reading: a reading that starts from no
/// fields and returns one carries a CO2 value and a temperature that its
/// single-frame reads delivered; otherwise it returns an error.
pub proof fn lemma_reading_complete(events: Seq<(Result<DecodedField, Error>, u128)>, timeout_ms: i32, r: Reading)
    requires
        run(Assembler { co2: None, temperature: None }, events, timeout_ms) == Some(Ok::<Reading, Error>(r)),
    ensures
        delivered(events, DecodedField::Co2(r.co2)),
        delivered(events, DecodedField::Temperature(r.temperature)),
{
    lemma_reading_fields_seen(Assembler { co2: None, temperature: None }, events, timeout_ms, r);
}

/// Whether `shorter` is a tighter overall timeout than `longer`: a finite
/// one no greater, or any finite one where `longer` sets no limit.
pub open spec fn tighter(shorter: i32, longer: i32) -> bool {
    0 <= shorter && (longer < 0 || shorter <= longer)
}

/// Shortening the overall timeout never saves a reading from timing out:
/// for the same single-frame outcomes arriving at the same times, a reading
/// that times out still times out under a tighter timeout.
pub proof fn lemma_timeout_monotone(
    a: Assembler,
    events: Seq<(Result<DecodedField, Error>, u128)>,
    longer: i32,
    shorter: i32,
)
    requires
        run(a, events, longer) == Some(Err::<Reading, Error>(Error::Timeout)),
        tighter(shorter, longer),
    ensures
        run(a, events, shorter) == Some(Err::<Reading, Error>(Error::Timeout)),
    decreases events.len(),
{
    let (b, st) = step_spec(a, events[0].0, events[0].1, longer);
    if st is Continue {
        if !expired(events[0].1, shorter) {
            lemma_timeout_monotone(b, events.drop_first(), longer, shorter);
        }
    }
}

impl Assembler {
    /// An assembler that holds no field yet.
    pub fn new() -> (r: Assembler)
        ensures
            r.co2 is None,
            r.temperature is None,
    {
        Assembler { co2: None, temperature: None }
    }

    /// Takes the outcome of one single-frame read, made when `elapsed_ms`
    /// had passed since the reading began, and says what to do next.
    pub fn step(&mut self, outcome: Result<DecodedField, Error>, elapsed_ms: u128, timeout_ms: i32) -> (r: Step)
        ensures
            (*final(self), r) == step_spec(*old(self), outcome, elapsed_ms, timeout_ms),
    {
        match outcome {
            Err(e) => Step::Fail(e),
            Ok(f) => {
                match f {
                    DecodedField::Co2(v) => self.co2 = Some(v),
                    DecodedField::Temperature(v) => self.temperature = Some(v),
                    DecodedField::Unknown => {},
                }
                match (self.co2, self.temperature) {
                    (Some(co2), Some(temperature)) => Step::Done(Reading { co2, temperature }),
                    _ => {
                        if timeout_ms >= 0 && elapsed_ms >= timeout_ms as u128 {
                            Step::Fail(Error::Timeout)
                        } else {
                            Step::Continue
                        }
                    },
                }
            },
        }
    }
}

} // verus!
