//! Verified construction of the display strings the monitor surfaces:
//! decimal numbers, per-task rate labels, and the completion summary.

use vstd::prelude::*;
use vstd::string::StringExecFns;

verus! {

/// The character for one decimal digit.
pub open spec fn spec_digit_char(d: nat) -> char {
    if d == 0 { '0' }
    else if d == 1 { '1' }
    else if d == 2 { '2' }
    else if d == 3 { '3' }
    else if d == 4 { '4' }
    else if d == 5 { '5' }
    else if d == 6 { '6' }
    else if d == 7 { '7' }
    else if d == 8 { '8' }
    else { '9' }
}

/// The decimal representation of `n`, most significant digit first,
/// with no leading zeros (`0` itself is the single character `'0'`).
pub open spec fn spec_decimal(n: nat) -> Seq<char>
    decreases n,
{
    if n < 10 {
        seq![spec_digit_char(n)]
    } else {
        spec_decimal(n / 10) + seq![spec_digit_char(n % 10)]
    }
}

/// The rate label shown beside a task's progress bar: the smoothed
/// byte count scaled to MiB when it reaches one MiB, else to KiB.
pub open spec fn spec_rate_label(per: nat) -> Seq<char> {
    if per >= 1048576 {
        spec_decimal(per / 1048576) + " MiB/s"@
    } else {
        spec_decimal(per / 1024) + " KiB/s"@
    }
}

/// The completion summary: every device flashed, or a partial count.
pub open spec fn spec_summary(succeeded: nat, total: nat) -> Seq<char> {
    if succeeded == total {
        spec_decimal(total) + " devices successfully flashed"@
    } else {
        spec_decimal(succeeded) + " of "@ + spec_decimal(total)
            + " devices successfully flashed"@
    }
}

/// One decimal digit as a string slice.
fn digit_str(d: u64) -> (s: &'static str)
    requires
        d < 10,
    ensures
        s@ == seq![spec_digit_char(d as nat)],
{
    proof {
        reveal_strlit("0");
        reveal_strlit("1");
        reveal_strlit("2");
        reveal_strlit("3");
        reveal_strlit("4");
        reveal_strlit("5");
        reveal_strlit("6");
        reveal_strlit("7");
        reveal_strlit("8");
        reveal_strlit("9");
    }
    let s = if d == 0 { "0" }
    else if d == 1 { "1" }
    else if d == 2 { "2" }
    else if d == 3 { "3" }
    else if d == 4 { "4" }
    else if d == 5 { "5" }
    else if d == 6 { "6" }
    else if d == 7 { "7" }
    else if d == 8 { "8" }
    else { "9" };
    proof {
        assert(s@ =~= seq![spec_digit_char(d as nat)]);
    }
    s
}

/// Renders `n` in decimal.
pub fn u64_to_string(n: u64) -> (s: String)
    ensures
        s@ == spec_decimal(n as nat),
    decreases n,
{
    if n < 10 {
        String::from_str(digit_str(n))
    } else {
        let mut s = u64_to_string(n / 10);
        s.append(digit_str(n % 10));
        s
    }
}

/// Builds the rate label for one task.
pub fn rate_label(per: u64) -> (s: String)
    ensures
        s@ == spec_rate_label(per as nat),
{
    if per >= 1048576 {
        u64_to_string(per / 1048576).concat(" MiB/s")
    } else {
        u64_to_string(per / 1024).concat(" KiB/s")
    }
}

/// Builds the completion summary for `succeeded` of `total` devices.
pub fn summary_message(succeeded: u64, total: u64) -> (s: String)
    ensures
        s@ == spec_summary(succeeded as nat, total as nat),
{
    if succeeded == total {
        u64_to_string(total).concat(" devices successfully flashed")
    } else {
        let total_text = u64_to_string(total);
        u64_to_string(succeeded)
            .concat(" of ")
            .concat(total_text.as_str())
            .concat(" devices successfully flashed")
    }
}

} // verus!
