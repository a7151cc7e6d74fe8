use vstd::prelude::*;
use vstd::utf8::is_ascii_chars;

use crate::session::{other, Bound, ValidationError};

verus! {

/// What every UTC time stamp written as RFC 3339 looks like: ASCII, at least
/// `YYYY-MM-DDTHH:MM:SS+00:00` long, and ending in the `+00:00` offset.
pub open spec fn utc_timestamp_shape(text: Seq<char>) -> bool {
    &&& is_ascii_chars(text)
    &&& text.len() >= 25
    &&& text.subrange(text.len() - 6, text.len() as int) == "+00:00"@
}

#[verifier::external_type_specification]
#[verifier::external_body]
pub struct ExSystemTime(std::time::SystemTime);

/// `std::time::SystemTime::now`: the system clock's reading. Nothing is
/// stated of it.
#[verifier::external_body]
fn system_time_now() -> std::time::SystemTime {
    std::time::SystemTime::now()
}

/// `SystemTime::duration_since(UNIX_EPOCH)`, as whole seconds and the
/// nanoseconds past them; `None` when the reading is before the epoch. The
/// contract claims what `Duration::subsec_nanos` documents: the nanoseconds
/// are below one billion. The seconds come from the clock.
#[verifier::external_body]
fn since_unix_epoch(time: &std::time::SystemTime) -> (since: Option<(u64, u32)>)
    ensures
        since matches Some((_, nanos)) ==> nanos < 1_000_000_000,
{
    match time.duration_since(std::time::UNIX_EPOCH) {
        Ok(d) => Some((d.as_secs(), d.subsec_nanos())),
        Err(_) => None,
    }
}

/// The text chrono writes for the UTC time `secs` seconds and `nanos`
/// nanoseconds after the Unix epoch, as RFC 3339; `None` when chrono cannot
/// represent that time.
pub uninterp spec fn rfc3339_text(secs: i64, nanos: u32) -> Option<Seq<char>>;

/// Latest second after the epoch for which chrono surely has a date: about
/// the year 255 000, well inside chrono's range, which ends with the year
/// 262 142.
pub const REPRESENTABLE_SECS: i64 = 8_000_000_000_000;

/// `chrono::DateTime::from_timestamp(secs, nanos)` followed by
/// `DateTime::to_rfc3339`, whose result is named `rfc3339_text(secs, nanos)`.
/// The contract claims of it what chrono's source shows: a whole second from
/// the epoch up to `REPRESENTABLE_SECS` with fewer than a billion nanoseconds
/// has a date and a time of day, so `from_timestamp` gives `Some`; and the
/// text is the year (four digits, or a sign and more digits outside
/// 0..=9999), the date, `T`, the time with an optional fraction and the offset
/// `+00:00`, all in ASCII, while writing it to a `String` never fails.
#[verifier::external_body]
fn utc_rfc3339_at(secs: i64, nanos: u32) -> (stamp: Option<String>)
    ensures
        match stamp {
            Some(text) => rfc3339_text(secs, nanos) == Some(text@),
            None => rfc3339_text(secs, nanos) is None,
        },
        stamp matches Some(text) ==> utc_timestamp_shape(text@),
        0 <= secs <= REPRESENTABLE_SECS && nanos < 1_000_000_000 ==> stamp is Some,
{
    match chrono::DateTime::from_timestamp(secs, nanos) {
        Some(time) => Some(time.to_rfc3339()),
        None => None,
    }
}

/// Why the current time could not be written.
#[derive(Clone, Copy, Debug, PartialEq, Eq, Structural)]
pub enum ClockError {
    /// The system clock reads a time before 1970.
    BeforeEpoch,
    /// The system clock reads a time that chrono cannot represent.
    OutOfRange,
}

/// What a clock reading (seconds and nanoseconds after the epoch, or `None`
/// for a reading before it) is written as.
pub open spec fn stamp_of(reading: Option<(u64, u32)>) -> Result<Seq<char>, ClockError> {
    match reading {
        None => Err(ClockError::BeforeEpoch),
        Some((secs, nanos)) => if secs > i64::MAX {
            Err(ClockError::OutOfRange)
        } else {
            match rfc3339_text(secs as i64, nanos) {
                Some(text) => Ok(text),
                None => Err(ClockError::OutOfRange),
            }
        },
    }
}

/// Writes a clock reading as an RFC 3339 UTC time stamp.
pub fn stamp_from_reading(reading: Option<(u64, u32)>) -> (res: Result<String, ClockError>)
    ensures
        match res {
            Ok(text) => stamp_of(reading) == Ok::<Seq<char>, ClockError>(text@),
            Err(e) => stamp_of(reading) == Err::<Seq<char>, ClockError>(e),
        },
        res matches Ok(text) ==> utc_timestamp_shape(text@),
        reading matches Some((secs, nanos)) ==> (secs <= REPRESENTABLE_SECS && nanos
            < 1_000_000_000 ==> res is Ok),
{
    match reading {
        None => Err(ClockError::BeforeEpoch),
        Some((secs, nanos)) => {
            if secs > 0x7FFF_FFFF_FFFF_FFFF {
                return Err(ClockError::OutOfRange);
            }
            match utc_rfc3339_at(secs as i64, nanos) {
                None => Err(ClockError::OutOfRange),
                Some(text) => Ok(text),
            }
        },
    }
}

/// Whether `text` is what some clock reading is written as.
pub open spec fn written_reading(text: Seq<char>) -> bool {
    exists|reading: Option<(u64, u32)>| #[trigger]
        stamp_of(reading) == Ok::<Seq<char>, ClockError>(text)
}

/// The current time in UTC, written as RFC 3339: the system clock's reading
/// passed to `stamp_from_reading`. Which reading the clock gives is not known
/// here, so the text is stated as the writing of some reading.
pub fn now_rfc3339() -> (stamp: Result<String, ClockError>)
    ensures
        stamp matches Ok(text) ==> written_reading(text@) && utc_timestamp_shape(text@),
{
    let reading = since_unix_epoch(&system_time_now());
    let stamp = stamp_from_reading(reading);
    proof {
        if let Ok(text) = &stamp {
            assert(stamp_of(reading) == Ok::<Seq<char>, ClockError>(text@));
        }
    }
    stamp
}

/// Who opened the session, and when.
#[derive(Clone, Debug)]
pub struct Meta {
    pub tool_version: String,
    pub started_at: String,
}

/// A pass rate, held as the IEEE-754 binary64 encoding of the number. The
/// library stores and hands it on and never computes with it, nor checks its
/// range: the command line accepts only numbers in `[0, 1]`.
#[derive(Clone, Copy, Debug, PartialEq, Eq, Structural)]
pub struct PassRate {
    pub bits: u64,
}

/// 0.95, the pass rate assumed before the regression unless the user sets one.
pub const DEFAULT_OLD_PASS_RATE_BITS: u64 = 0x3FEE_6666_6666_6666;

/// 0.5, the pass rate assumed after the regression unless the user sets one.
pub const DEFAULT_NEW_PASS_RATE_BITS: u64 = 0x3FE0_0000_0000_0000;

pub open spec fn default_rate(bound: Bound) -> PassRate {
    match bound {
        Bound::Old => PassRate { bits: DEFAULT_OLD_PASS_RATE_BITS },
        Bound::New => PassRate { bits: DEFAULT_NEW_PASS_RATE_BITS },
    }
}

/// The pass rate that a bound gets when it is marked and none was set.
pub fn default_pass_rate(bound: Bound) -> (rate: PassRate)
    ensures
        rate == default_rate(bound),
{
    match bound {
        Bound::Old => PassRate { bits: DEFAULT_OLD_PASS_RATE_BITS },
        Bound::New => PassRate { bits: DEFAULT_NEW_PASS_RATE_BITS },
    }
}

/// The expected pass rates of the test before and after the regression.
#[derive(Clone, Copy, Debug)]
pub struct Priors {
    pub old_pass_rate: Option<PassRate>,
    pub new_pass_rate: Option<PassRate>,
}

/// One recorded run of the test.
#[derive(Clone, Debug)]
pub struct Sample {
    pub revision: String,
    pub outcome: bool,
    pub recorded_at: String,
    pub comment: Option<String>,
}

/// What setting `bound`'s pass rate to `rate` does to the session `pre`:
/// only that rate changes.
pub open spec fn prior_outcome(pre: State, bound: Bound, rate: PassRate, post: State) -> bool {
    &&& post.pass_rate(bound) == Some(rate)
    &&& post.pass_rate(other(bound)) == pre.pass_rate(other(bound))
    &&& post.meta == pre.meta
    &&& post.old_revisions == pre.old_revisions
    &&& post.new_revisions == pre.new_revisions
    &&& post.samples == pre.samples
}

/// Everything a search session remembers between commands.
#[derive(Clone, Debug)]
pub struct State {
    pub meta: Meta,
    pub priors: Priors,
    pub old_revisions: Vec<String>,
    pub new_revisions: Vec<String>,
    pub samples: Vec<Sample>,
}

impl State {
    /// The revisions marked for `bound`.
    pub open spec fn revisions(&self, bound: Bound) -> Seq<String> {
        match bound {
            Bound::Old => self.old_revisions@,
            Bound::New => self.new_revisions@,
        }
    }

    /// The pass rate set for `bound`, if any.
    pub open spec fn pass_rate(&self, bound: Bound) -> Option<PassRate> {
        match bound {
            Bound::Old => self.priors.old_pass_rate,
            Bound::New => self.priors.new_pass_rate,
        }
    }

    /// A bound holds at most one revision, and a marked bound has a pass rate.
    pub open spec fn bound_well_formed(&self, bound: Bound) -> bool {
        &&& self.revisions(bound).len() <= 1
        &&& self.revisions(bound).len() > 0 ==> self.pass_rate(bound) is Some
    }

    /// What every command of the session keeps.
    pub open spec fn well_formed(&self) -> bool {
        &&& self.bound_well_formed(Bound::Old)
        &&& self.bound_well_formed(Bound::New)
    }

    /// A fresh session started at `started_at`: no bound marked, no prior
    /// set, no sample.
    pub fn new_at(tool_version: String, started_at: String) -> (state: State)
        ensures
            state.meta.tool_version == tool_version,
            state.meta.started_at == started_at,
            state.priors.old_pass_rate is None,
            state.priors.new_pass_rate is None,
            state.old_revisions@.len() == 0,
            state.new_revisions@.len() == 0,
            state.samples@.len() == 0,
            state.well_formed(),
    {
        State {
            meta: Meta { tool_version, started_at },
            priors: Priors { old_pass_rate: None, new_pass_rate: None },
            old_revisions: Vec::new(),
            new_revisions: Vec::new(),
            samples: Vec::new(),
        }
    }

    /// A fresh session started now (`new_at` with the current time). Fails
    /// only when the system clock cannot be written as a UTC time.
    pub fn new(tool_version: String) -> (res: Result<State, ClockError>)
        ensures
            res matches Ok(state) ==> {
                &&& state.meta.tool_version == tool_version
                &&& written_reading(state.meta.started_at@)
                &&& utc_timestamp_shape(state.meta.started_at@)
                &&& state.priors.old_pass_rate is None
                &&& state.priors.new_pass_rate is None
                &&& state.old_revisions@.len() == 0
                &&& state.new_revisions@.len() == 0
                &&& state.samples@.len() == 0
                &&& state.well_formed()
            },
    {
        let started_at = now_rfc3339()?;
        Ok(State::new_at(tool_version, started_at))
    }

    /// Refuses to record an outcome before both bounds are marked,
    /// naming the old bound first.
    pub fn require_bounds(&self) -> (res: Result<(), ValidationError>)
        ensures
            self.old_revisions@.len() == 0 ==> res == Err::<(), ValidationError>(
                ValidationError::BoundNotMarked(Bound::Old),
            ),
            self.old_revisions@.len() > 0 && self.new_revisions@.len() == 0 ==> res == Err::<
                (),
                ValidationError,
            >(ValidationError::BoundNotMarked(Bound::New)),
            self.old_revisions@.len() > 0 && self.new_revisions@.len() > 0 ==> res is Ok,
    {
        if self.old_revisions.len() == 0 {
            return Err(ValidationError::BoundNotMarked(Bound::Old));
        }
        if self.new_revisions.len() == 0 {
            return Err(ValidationError::BoundNotMarked(Bound::New));
        }
        Ok(())
    }

    /// Appends the outcome of a test run on `head_sha`, stamped `recorded_at`.
    pub fn record_outcome_at(
        &mut self,
        head_sha: String,
        outcome: bool,
        comment: Option<String>,
        recorded_at: String,
    )
        ensures
            final(self).samples@ == old(self).samples@.push(
                Sample { revision: head_sha, outcome, recorded_at, comment },
            ),
            final(self).meta == old(self).meta,
            final(self).priors == old(self).priors,
            final(self).old_revisions == old(self).old_revisions,
            final(self).new_revisions == old(self).new_revisions,
            old(self).well_formed() ==> final(self).well_formed(),
    {
        self.samples.push(Sample { revision: head_sha, outcome, recorded_at, comment });
    }

    /// Appends the outcome of a test run on `head_sha`, stamped with the
    /// current time (`record_outcome_at` with the current time). When the
    /// clock cannot be written, nothing is recorded.
    pub fn record_outcome(&mut self, head_sha: String, outcome: bool, comment: Option<String>) -> (res:
        Result<(), ClockError>)
        ensures
            res is Err ==> *final(self) == *old(self),
            res is Ok ==> {
                &&& final(self).samples@ == old(self).samples@.push(final(self).samples@.last())
                &&& final(self).samples@.last().revision == head_sha
                &&& final(self).samples@.last().outcome == outcome
                &&& final(self).samples@.last().comment == comment
                &&& written_reading(final(self).samples@.last().recorded_at@)
                &&& utc_timestamp_shape(final(self).samples@.last().recorded_at@)
                &&& final(self).meta == old(self).meta
                &&& final(self).priors == old(self).priors
                &&& final(self).old_revisions == old(self).old_revisions
                &&& final(self).new_revisions == old(self).new_revisions
            },
            old(self).well_formed() ==> final(self).well_formed(),
    {
        let recorded_at = now_rfc3339()?;
        self.record_outcome_at(head_sha, outcome, comment, recorded_at);
        Ok(())
    }

    /// Sets the expected pass rate of the test on `bound`'s side of the regression.
    pub fn set_prior(&mut self, bound: Bound, rate: PassRate)
        ensures
            prior_outcome(*old(self), bound, rate, *final(self)),
            old(self).well_formed() ==> final(self).well_formed(),
    {
        match bound {
            Bound::Old => self.priors.old_pass_rate = Some(rate),
            Bound::New => self.priors.new_pass_rate = Some(rate),
        }
    }
}

} // verus!
