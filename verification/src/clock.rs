//! Time stamps.

use vstd::prelude::*;
use crate::encoding;

verus! {

/// The text of a time stamp: the seconds since the Unix epoch in decimal, and a `Z`.
pub open spec fn stamp_text(seconds: nat) -> Seq<char> {
    encoding::decimal_text(seconds) + "Z"@
}

/// Calls `std::time::SystemTime::elapsed` on the Unix epoch and hands the duration out as its
/// whole seconds. It is `None` when the clock is set before the epoch. The value depends on the
/// clock: nothing is promised of it.
#[verifier::external_body]
fn seconds_since_epoch() -> (seconds: Option<u64>) {
    std::time::UNIX_EPOCH.elapsed().ok().map(|since| since.as_secs())
}

/// Writes a time as a time stamp.
pub fn stamp(seconds: u64) -> (text: String)
    ensures
        text@ == stamp_text(seconds as nat),
{
    let mut text = encoding::to_decimal(seconds);
    text.append("Z");
    text
}

/// The time stamp of now; `None` when the clock is set before the Unix epoch.
pub fn chrono_now() -> (now: Option<String>)
    ensures
        now matches Some(text) ==> exists|seconds: u64| text@ == #[trigger] stamp_text(
            seconds as nat,
        ),
{
    stamp_if_known(seconds_since_epoch())
}

/// Writes a time as a time stamp, if the time is known.
pub fn stamp_if_known(seconds: Option<u64>) -> (text: Option<String>)
    ensures
        text.deep_view() == match seconds {
            Some(seconds) => Some(stamp_text(seconds as nat)),
            None => None,
        },
{
    match seconds {
        Some(seconds) => Some(stamp(seconds)),
        None => None,
    }
}

/// A time stamp is the decimal of the seconds, and a `Z` behind it.
pub proof fn law_stamps_read_back(seconds: nat)
    ensures
        stamp_text(seconds).len() > 1,
        stamp_text(seconds).last() == 'Z',
        stamp_text(seconds).drop_last() == encoding::decimal_text(seconds),
        encoding::decimal_value(stamp_text(seconds).drop_last()) == seconds,
{
    reveal_strlit("Z");
    encoding::law_decimal_reads_back(seconds);
    assert(stamp_text(seconds).drop_last() =~= encoding::decimal_text(seconds));
}

} // verus!
