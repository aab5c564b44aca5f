//! Human-readable renderings of durations and sizes.

use vstd::prelude::*;

use crate::text::{decimal, push_decimal, push_str};

verus! {

/// An uptime of `total` seconds as days, hours, minutes and seconds,
/// leaving out the leading units that are zero ("1d 1h 2m 5s", "2m 5s", "45s").
pub open spec fn uptime_text(total: nat) -> Seq<char> {
    let days = total / 86400;
    let hours = (total % 86400) / 3600;
    let mins = (total % 3600) / 60;
    let secs = total % 60;
    if days > 0 {
        decimal(days) + "d "@ + decimal(hours) + "h "@ + decimal(mins) + "m "@ + decimal(secs) + "s"@
    } else if hours > 0 {
        decimal(hours) + "h "@ + decimal(mins) + "m "@ + decimal(secs) + "s"@
    } else if mins > 0 {
        decimal(mins) + "m "@ + decimal(secs) + "s"@
    } else {
        decimal(secs) + "s"@
    }
}

/// Formats an uptime given in whole seconds.
pub fn format_uptime(total_secs: u64) -> (r: String)
    ensures
        r@ == uptime_text(total_secs as nat),
{
    let days = total_secs / 86400;
    let hours = (total_secs % 86400) / 3600;
    let mins = (total_secs % 3600) / 60;
    let secs = total_secs % 60;
    let mut s = String::new();
    if days > 0 {
        push_decimal(&mut s, days);
        push_str(&mut s, "d ");
        push_decimal(&mut s, hours);
        push_str(&mut s, "h ");
        push_decimal(&mut s, mins);
        push_str(&mut s, "m ");
    } else if hours > 0 {
        push_decimal(&mut s, hours);
        push_str(&mut s, "h ");
        push_decimal(&mut s, mins);
        push_str(&mut s, "m ");
    } else if mins > 0 {
        push_decimal(&mut s, mins);
        push_str(&mut s, "m ");
    }
    push_decimal(&mut s, secs);
    push_str(&mut s, "s");
    proof {
        let d = decimal(days as nat);
        let h = decimal(hours as nat);
        let m = decimal(mins as nat);
        let x = decimal(secs as nat);
        if days > 0 {
            assert(s@ =~= d + "d "@ + h + "h "@ + m + "m "@ + x + "s"@);
        } else if hours > 0 {
            assert(s@ =~= h + "h "@ + m + "m "@ + x + "s"@);
        } else if mins > 0 {
            assert(s@ =~= m + "m "@ + x + "s"@);
        } else {
            assert(s@ =~= x + "s"@);
        }
    }
    s
}

/// A size in bytes with one decimal in the largest binary unit it reaches
/// (KB, MB, GB), the decimal truncated; plain bytes below 1 KB.
pub open spec fn size_text(bytes: nat) -> Seq<char> {
    let kb: nat = 1024;
    let mb: nat = 1024 * 1024;
    let gb: nat = 1024 * 1024 * 1024;
    if bytes >= gb {
        decimal(bytes / gb) + "."@ + decimal((bytes % gb) * 10 / gb) + " GB"@
    } else if bytes >= mb {
        decimal(bytes / mb) + "."@ + decimal((bytes % mb) * 10 / mb) + " MB"@
    } else if bytes >= kb {
        decimal(bytes / kb) + "."@ + decimal((bytes % kb) * 10 / kb) + " KB"@
    } else {
        decimal(bytes) + " B"@
    }
}

/// Formats a size in bytes for display.
pub fn format_size(bytes: u64) -> (r: String)
    ensures
        r@ == size_text(bytes as nat),
{
    let kb: u64 = 1024;
    let mb: u64 = 1024 * 1024;
    let gb: u64 = 1024 * 1024 * 1024;
    let mut s = String::new();
    if bytes >= gb {
        let whole = bytes / gb;
        let frac = (bytes % gb) * 10 / gb;
        push_decimal(&mut s, whole);
        push_str(&mut s, ".");
        push_decimal(&mut s, frac);
        push_str(&mut s, " GB");
        proof {
            assert(s@ =~= decimal(whole as nat) + "."@ + decimal(frac as nat) + " GB"@);
        }
    } else if bytes >= mb {
        let whole = bytes / mb;
        let frac = (bytes % mb) * 10 / mb;
        push_decimal(&mut s, whole);
        push_str(&mut s, ".");
        push_decimal(&mut s, frac);
        push_str(&mut s, " MB");
        proof {
            assert(s@ =~= decimal(whole as nat) + "."@ + decimal(frac as nat) + " MB"@);
        }
    } else if bytes >= kb {
        let whole = bytes / kb;
        let frac = (bytes % kb) * 10 / kb;
        push_decimal(&mut s, whole);
        push_str(&mut s, ".");
        push_decimal(&mut s, frac);
        push_str(&mut s, " KB");
        proof {
            assert(s@ =~= decimal(whole as nat) + "."@ + decimal(frac as nat) + " KB"@);
        }
    } else {
        push_decimal(&mut s, bytes);
        push_str(&mut s, " B");
        proof {
            assert(s@ =~= decimal(bytes as nat) + " B"@);
        }
    }
    s
}

} // verus!
