//! What decimal notation is, told by reading it back.
use vstd::prelude::*;

use crate::text::{decimal, push_decimal};

verus! {

/// The number that a series of decimal digits stands for.
pub open spec fn read_back(digits: Seq<char>) -> int
    decreases digits.len(),
{
    if digits.len() == 0 {
        0
    } else {
        10 * read_back(digits.drop_last()) + (digits.last() as int - '0' as int)
    }
}

/// Law: the notation of a number consists of the digits from 0 to 9, starts with 0 only for
/// zero itself, and reads back as the number.
pub proof fn decimal_notation_reads_back(n: nat)
    ensures
        read_back(decimal(n)) == n,
        decimal(n).len() > 0,
        n > 0 ==> decimal(n)[0] != '0',
        n == 0 ==> decimal(n).len() == 1,
        forall|k: int|
            0 <= k < decimal(n).len() ==> '0' as int <= (#[trigger] decimal(n)[k]) as int
                && decimal(n)[k] as int <= '9' as int,
    decreases n,
{
    reveal_with_fuel(read_back, 2);
    if n < 10 {
        assert(decimal(n).drop_last() =~= Seq::empty());
    } else {
        decimal_notation_reads_back(n / 10);
        let last = crate::text::digit_char((n % 10) as int);
        assert(decimal(n) == decimal(n / 10).push(last));
        assert(decimal(n).drop_last() =~= decimal(n / 10));
    }
}

/// Law: a number is appended behind what a text holds, in digits that read back as it.
pub proof fn a_number_is_appended_in_digits(out: &mut String, n: u32)
    requires
        call_ensures(push_decimal, (out, n), ()),
    ensures
        final(out)@.len() > old(out)@.len(),
        final(out)@.take(old(out)@.len() as int) == old(out)@,
        read_back(final(out)@.skip(old(out)@.len() as int)) == n,
        n > 0 ==> final(out)@[old(out)@.len() as int] != '0',
        n == 0 ==> final(out)@.len() == old(out)@.len() + 1,
{
    decimal_notation_reads_back(n as nat);
    assert(final(out)@.take(old(out)@.len() as int) =~= old(out)@);
    assert(final(out)@.skip(old(out)@.len() as int) =~= decimal(n as nat));
}

} // verus!
