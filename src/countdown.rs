//! Remaining time in the fixed nine-character form `HHh:MMmin`.

use vstd::prelude::*;

verus! {

/// The ASCII code of the digit `0`.
pub const ASCII_ZERO: u8 = 48;

/// Number of decimal digits that `num_to_utf8slice` writes for `num`: none for zero.
pub open spec fn digit_count(num: nat) -> nat
    decreases num,
{
    if num == 0 {
        0
    } else {
        1 + digit_count(num / 10)
    }
}

/// `buf` with the decimal digits of `num` written right to left, the last one at `end - 1`.
/// Leading positions are left as they were, so zero writes nothing.
pub open spec fn write_digits(buf: Seq<u8>, num: nat, end: int) -> Seq<u8>
    decreases num,
{
    if num == 0 {
        buf
    } else {
        write_digits(buf.update(end - 1, digit_byte(num % 10)), num / 10, end - 1)
    }
}

/// The ASCII code of the decimal digit `d` (`d < 10`).
pub open spec fn digit_byte(d: nat) -> u8 {
    (ASCII_ZERO + d) as u8
}

/// The text `HHh:MMmin` for hours and minutes below 100, as ASCII bytes.
pub open spec fn countdown_text(hours: nat, mins: nat) -> Seq<u8> {
    seq![
        digit_byte(hours / 10),
        digit_byte(hours % 10),
        104u8,
        58u8,
        digit_byte(mins / 10),
        digit_byte(mins % 10),
        109u8,
        105u8,
        110u8,
    ]
}

/// The template that the countdown text is written into: `00h:00min`.
pub open spec fn countdown_template() -> Seq<u8> {
    seq![48u8, 48u8, 104u8, 58u8, 48u8, 48u8, 109u8, 105u8, 110u8]
}

/// A number below 100 has at most two digits.
pub proof fn lemma_digit_count_below_100(n: nat)
    requires
        n < 100,
    ensures
        digit_count(n) <= 2,
{
    reveal_with_fuel(digit_count, 3);
}

/// Writing a number below 100 into a two-place field of zeros gives it zero-padded.
pub proof fn lemma_write_two_digits(buf: Seq<u8>, n: nat, end: int)
    requires
        n < 100,
        2 <= end <= buf.len(),
        buf[end - 2] == ASCII_ZERO,
        buf[end - 1] == ASCII_ZERO,
    ensures
        write_digits(buf, n, end) == buf.update(end - 1, digit_byte(n % 10)).update(
            end - 2,
            digit_byte(n / 10),
        ),
{
    reveal_with_fuel(write_digits, 3);
    let want = buf.update(end - 1, digit_byte(n % 10)).update(end - 2, digit_byte(n / 10));
    assert(write_digits(buf, n, end) =~= want);
}

/// Hours and minutes left until the next measurement.
#[derive(Clone, Copy, Debug, PartialEq, Eq, Structural)]
pub struct CountDown {
    pub hours_left: u32,
    pub mins_left: u32,
}

/// The countdown does not fit the two-digit fields of the display text.
#[derive(Clone, Copy, Debug, PartialEq, Eq, Structural)]
pub struct CountdownOverflow;

impl CountDown {
    /// Splits a number of whole minutes into hours and the minutes beyond them.
    pub fn new(total_mins_left: u32) -> (r: CountDown)
        ensures
            r.hours_left == total_mins_left / 60,
            r.mins_left == total_mins_left % 60,
    {
        CountDown { hours_left: total_mins_left / 60, mins_left: total_mins_left % 60 }
    }
}


impl CountDown {
    /// Writes the decimal digits of `num` into `buffer`, right to left, the last digit at
    /// index `i - 1`. Positions before the leading digit are left as they were.
    pub fn num_to_utf8slice(num: u32, buffer: &mut [u8; 9], i: usize)
        requires
            digit_count(num as nat) <= i <= 9,
        ensures
            final(buffer)@ == write_digits(old(buffer)@, num as nat, i as int),
    {
        let mut x: u32 = num;
        let mut pos: usize = i;
        while x > 0
            invariant
                digit_count(x as nat) <= pos <= 9,
                write_digits(buffer@, x as nat, pos as int) == write_digits(
                    old(buffer)@,
                    num as nat,
                    i as int,
                ),
            decreases x,
        {
            pos = pos - 1;
            let rem: u32 = x % 10;
            buffer[pos] = rem as u8 + ASCII_ZERO;
            x = x / 10;
        }
        proof {
            assert(write_digits(buffer@, x as nat, pos as int) == buffer@);
        }
    }
}

impl CountDown {
    /// Writes the countdown as `HHh:MMmin` into `buffer`. Hours or minutes of 100 or more
    /// do not fit the two-digit fields: that is reported, and `buffer` is left as it was.
    pub fn to_str(self, buffer: &mut [u8; 9]) -> (r: Result<(), CountdownOverflow>)
        ensures
            r is Ok <==> self.hours_left < 100 && self.mins_left < 100,
            r is Ok ==> final(buffer)@ == countdown_text(
                self.hours_left as nat,
                self.mins_left as nat,
            ),
            r is Err ==> final(buffer)@ == old(buffer)@,
    {
        if self.hours_left < 100 && self.mins_left < 100 {
            *buffer = [48, 48, 104, 58, 48, 48, 109, 105, 110];
            assert(buffer@ =~= countdown_template());
            proof {
                lemma_digit_count_below_100(self.mins_left as nat);
                lemma_digit_count_below_100(self.hours_left as nat);
                lemma_write_two_digits(buffer@, self.mins_left as nat, 6);
            }
            let mut i: usize = 6;
            Self::num_to_utf8slice(self.mins_left, buffer, i);
            proof {
                lemma_write_two_digits(buffer@, self.hours_left as nat, 2);
            }
            i = 2;
            Self::num_to_utf8slice(self.hours_left, buffer, i);
            assert(buffer@ =~= countdown_text(self.hours_left as nat, self.mins_left as nat));
            Ok(())
        } else {
            Err(CountdownOverflow)
        }
    }
}

} // verus!
