//! Laws of the report.

use vstd::prelude::*;

use crate::report::decimal;

verus! {

/// The number that decimal digits stand for.
pub open spec fn number_of(digits: Seq<u8>) -> int
    decreases digits.len(),
{
    if digits.len() == 0 {
        0
    } else {
        10 * number_of(digits.drop_last()) + (digits.last() - 48)
    }
}

/// A number is written in digits alone, without leading zeros, and reads back as
/// itself.
pub proof fn written_numbers_read_back(n: int)
    requires
        0 <= n,
    ensures
        number_of(decimal(n)) == n,
        decimal(n).len() > 0,
        forall|i: int| 0 <= i < decimal(n).len() ==> 48 <= #[trigger] decimal(n)[i] <= 57,
        n > 0 ==> decimal(n)[0] != 48,
    decreases n,
{
    reveal_with_fuel(number_of, 2);
    if n < 10 {
        assert(decimal(n).drop_last() =~= Seq::empty());
    } else {
        written_numbers_read_back(n / 10);
        assert(decimal(n).drop_last() =~= decimal(n / 10));
    }
}

} // verus!
