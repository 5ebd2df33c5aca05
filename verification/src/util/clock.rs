//! The current time as RFC 3339 text.
use vstd::prelude::*;

use crate::text::opt_str;

verus! {

/// The RFC 3339 text (UTC, with a `+00:00` offset) of the instant `secs`
/// seconds and `nanos` nanoseconds after the Unix epoch, as chrono writes
/// it; `None` where chrono cannot represent that instant.
pub uninterp spec fn rfc3339_text(secs: i64, nanos: u32) -> Option<Seq<char>>;

/// The text is what chrono writes for some instant after the Unix epoch.
pub open spec fn clock_text(t: Seq<char>) -> bool {
    exists|secs: i64, nanos: u32|
        0 <= secs && nanos < 1_000_000_000 && #[trigger] rfc3339_text(secs, nanos) == Some(t)
}

/// Reads the system clock: `SystemTime::now().duration_since(UNIX_EPOCH)`,
/// as whole seconds and the nanoseconds beyond them, or `None` when the clock
/// reads before the epoch. The reading depends on the clock; only std's
/// promise that `subsec_nanos` is below one billion is stated.
#[verifier::external_body]
fn clock_since_epoch() -> (r: Option<(u64, u32)>)
    ensures
        match r {
            Some(reading) => reading.1 < 1_000_000_000,
            None => true,
        },
{
    match std::time::SystemTime::now().duration_since(std::time::UNIX_EPOCH) {
        Ok(elapsed) => Some((elapsed.as_secs(), elapsed.subsec_nanos())),
        Err(_) => None,
    }
}

/// `chrono::DateTime::<Utc>::from_timestamp(secs, nanos)`, written with
/// `to_rfc3339`; `None` where `from_timestamp` gives `None` (an instant out
/// of chrono's range, or nanoseconds that are not a valid leap second).
/// Neither call panics on a `DateTime` that `from_timestamp` made. The
/// result is named by `rfc3339_text`; its form is not stated here.
#[verifier::external_body]
fn rfc3339_utc(secs: i64, nanos: u32) -> (r: Option<String>)
    ensures
        opt_str(r) == rfc3339_text(secs, nanos),
{
    match chrono::DateTime::from_timestamp(secs, nanos) {
        Some(instant) => Some(instant.to_rfc3339()),
        None => None,
    }
}

/// The current time in RFC 3339 form, or `None` when the clock reads before
/// the Unix epoch or at an instant that cannot be written.
pub fn current_rfc3339() -> (r: Option<String>)
    ensures
        match r {
            Some(t) => clock_text(t@),
            None => true,
        },
{
    match clock_since_epoch() {
        Some((secs, nanos)) => {
            if secs <= 0x7fff_ffff_ffff_ffffu64 {
                let s: i64 = secs as i64;
                let r = rfc3339_utc(s, nanos);
                proof {
                    if r is Some {
                        assert(rfc3339_text(s, nanos) == Some(r->0@));
                    }
                }
                r
            } else {
                None
            }
        },
        None => None,
    }
}

} // verus!
