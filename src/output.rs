//! Where captures and recordings are written: one directory under the
//! application's data directory, one file per timestamp.
use vstd::prelude::*;
use crate::decimal::{append_decimal, decimal, lemma_decimal_injective};

verus! {

/// The directory, under the application's data directory, that holds every output file.
pub const CAPTURES_DIR: &'static str = "captures";

/// The file name of a still capture taken at `millis` milliseconds since the epoch.
pub open spec fn capture_name(millis: nat) -> Seq<char> {
    "capture_"@ + decimal(millis) + ".webp"@
}

/// The file name of a recording started at `millis` milliseconds since the epoch.
pub open spec fn recording_name(millis: nat) -> Seq<char> {
    "recording_"@ + decimal(millis) + ".mp4"@
}

fn stamped(prefix: &str, millis: u128, suffix: &str) -> (r: String)
    ensures
        r@ == prefix@ + decimal(millis as nat) + suffix@,
{
    let mut s = String::from_str(prefix);
    append_decimal(&mut s, millis);
    s.append(suffix);
    s
}

/// The file name of a still capture taken at `millis`.
pub fn capture_file_name(millis: u128) -> (r: String)
    ensures
        r@ == capture_name(millis as nat),
{
    stamped("capture_", millis, ".webp")
}

/// The file name of a recording started at `millis`.
pub fn recording_file_name(millis: u128) -> (r: String)
    ensures
        r@ == recording_name(millis as nat),
{
    stamped("recording_", millis, ".mp4")
}

/// Two still captures get the same file name exactly when they are taken in the
/// same millisecond; names are not made unique beyond that.
pub proof fn lemma_capture_name_collision(a: nat, b: nat)
    ensures
        capture_name(a) == capture_name(b) <==> a == b,
{
    reveal_strlit("capture_");
    reveal_strlit(".webp");
    if capture_name(a) == capture_name(b) {
        let na = capture_name(a);
        let nb = capture_name(b);
        assert(na.len() == nb.len());
        assert(na.subrange(8, na.len() - 5) == decimal(a));
        assert(nb.subrange(8, nb.len() - 5) == decimal(b));
        lemma_decimal_injective(a, b);
    }
}

/// Likewise for recordings: the same name exactly for the same millisecond.
pub proof fn lemma_recording_name_collision(a: nat, b: nat)
    ensures
        recording_name(a) == recording_name(b) <==> a == b,
{
    reveal_strlit("recording_");
    reveal_strlit(".mp4");
    if recording_name(a) == recording_name(b) {
        let na = recording_name(a);
        let nb = recording_name(b);
        assert(na.len() == nb.len());
        assert(na.subrange(10, na.len() - 4) == decimal(a));
        assert(nb.subrange(10, nb.len() - 4) == decimal(b));
        lemma_decimal_injective(a, b);
    }
}

} // verus!
