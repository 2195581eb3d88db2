use vstd::prelude::*;
use crate::text::{push_zero_padded, zero_padded};

verus! {

/// `H:MM:SS` for a whole number of seconds: hours without padding, minutes
/// and seconds as two digits.
pub open spec fn timecode_text(total: nat) -> Seq<char> {
    zero_padded(total / 3600, 1) + ":"@ + zero_padded((total % 3600) / 60, 2) + ":"@
        + zero_padded(total % 60, 2)
}

/// The timeline label for `total` whole seconds, e.g. `1:02:03`.
pub fn timecode_label(total: u64) -> (r: String)
    ensures
        r@ == timecode_text(total as nat),
{
    let h = total / 3600;
    let m = (total % 3600) / 60;
    let s = total % 60;
    let mut r = String::new();
    push_zero_padded(&mut r, h, 1);
    r.append(":");
    push_zero_padded(&mut r, m, 2);
    r.append(":");
    push_zero_padded(&mut r, s, 2);
    assert(r@ =~= timecode_text(total as nat));
    r
}

} // verus!
