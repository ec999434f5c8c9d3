//! Drive classifier: the policy that decides whether a device-node name
//! denotes a candidate removable drive partition.
//!
//! A candidate is a SCSI/SATA block-device partition node: the name starts
//! with the literal prefix `sd` and ends in a decimal digit (`sda1`, `sdb2`).
//! Whole-disk nodes (`sda`) and non-SCSI nodes (`sr0`, `nvme0n1`) are
//! rejected.

use vstd::prelude::*;

verus! {

/// Whether `c` is a decimal digit.
pub open spec fn is_decimal_digit(c: char) -> bool {
    '0' <= c && c <= '9'
}

/// The partition policy: the name starts with `sd` and ends in a decimal
/// digit.
pub open spec fn is_candidate_name(s: Seq<char>) -> bool {
    &&& s.len() >= 3
    &&& s[0] == 's'
    &&& s[1] == 'd'
    &&& is_decimal_digit(s[s.len() - 1])
}

/// Decides whether `name` denotes a candidate removable drive partition.
pub fn is_candidate_partition(name: &str) -> (r: bool)
    ensures
        r == is_candidate_name(name@),
{
    let n = name.unicode_len();
    if n < 3 {
        return false;
    }
    let last = name.get_char(n - 1);
    name.get_char(0) == 's' && name.get_char(1) == 'd' && '0' <= last && last <= '9'
}

} // verus!
