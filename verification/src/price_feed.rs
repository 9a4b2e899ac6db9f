//! Keeping and printing the latest answer of a price feed.
//!
//! A feed reports its answers as integers, together with the number of
//! decimal places that the integer is to be read with.

use vstd::prelude::*;
use vstd::string::StringExecFns;

verus! {

/// A number with a fixed number of decimal places: `value` divided by ten
/// to the power of `decimals`.
#[derive(Clone, Copy, Debug, PartialEq, Eq, Structural)]
pub struct Decimal {
    /// The number, scaled by ten to the power of `decimals`.
    pub value: i128,
    /// How many of the digits of `value` follow the decimal point.
    pub decimals: u32,
}

/// The character of the decimal digit `d`.
pub open spec fn digit_char(d: nat) -> char
    recommends
        d < 10,
{
    if d == 0 {
        '0'
    } else if d == 1 {
        '1'
    } else if d == 2 {
        '2'
    } else if d == 3 {
        '3'
    } else if d == 4 {
        '4'
    } else if d == 5 {
        '5'
    } else if d == 6 {
        '6'
    } else if d == 7 {
        '7'
    } else if d == 8 {
        '8'
    } else {
        '9'
    }
}

/// The decimal digits of a positive number, the most significant first;
/// none for zero.
pub open spec fn significant_digits(n: nat) -> Seq<char>
    decreases n,
{
    if n == 0 {
        Seq::empty()
    } else {
        significant_digits(n / 10).push(digit_char(n % 10))
    }
}

/// The decimal numeral of `n`.
pub open spec fn numeral(n: nat) -> Seq<char> {
    if n == 0 {
        seq!['0']
    } else {
        significant_digits(n)
    }
}

/// The digit that the character `c` stands for.
pub open spec fn digit_value(c: char) -> nat {
    if c == '1' {
        1
    } else if c == '2' {
        2
    } else if c == '3' {
        3
    } else if c == '4' {
        4
    } else if c == '5' {
        5
    } else if c == '6' {
        6
    } else if c == '7' {
        7
    } else if c == '8' {
        8
    } else if c == '9' {
        9
    } else {
        0
    }
}

/// The number that a numeral denotes.
pub open spec fn denoted(digits: Seq<char>) -> nat
    decreases digits.len(),
{
    if digits.len() == 0 {
        0
    } else {
        10 * denoted(digits.drop_last()) + digit_value(digits.last())
    }
}

/// The numeral of a number denotes that number, and begins with a zero only
/// where the number is zero.
pub proof fn lemma_numeral_denotes(n: nat)
    ensures
        denoted(numeral(n)) == n,
        numeral(n).len() > 0,
        n > 0 ==> numeral(n)[0] != '0',
{
    if n == 0 {
        assert(numeral(0).drop_last() =~= Seq::<char>::empty());
        assert(denoted(numeral(0)) == 10 * denoted(Seq::<char>::empty()) + digit_value('0'));
    } else {
        lemma_significant_digits_denote(n);
    }
}

proof fn lemma_significant_digits_denote(n: nat)
    ensures
        denoted(significant_digits(n)) == n,
        n > 0 ==> significant_digits(n).len() > 0 && significant_digits(n)[0] != '0',
    decreases n,
{
    if n > 0 {
        lemma_significant_digits_denote(n / 10);
        let front = significant_digits(n / 10);
        let all = significant_digits(n);
        assert(all.drop_last() =~= front);
        if n / 10 > 0 {
        } else {
        }
    }
}

/// `n` zeros.
pub open spec fn zeros(n: nat) -> Seq<char> {
    Seq::new(n, |i: int| '0')
}

/// The numeral `digits` with a decimal point before its last `decimals`
/// digits. A numeral that is too short for that is filled up with zeros
/// after the point, behind a single zero before it. With no decimals there
/// is no point.
pub open spec fn pointed(digits: Seq<char>, decimals: nat) -> Seq<char> {
    if decimals == 0 {
        digits
    } else if digits.len() <= decimals {
        seq!['0', '.'] + zeros((decimals - digits.len()) as nat) + digits
    } else {
        digits.subrange(0, digits.len() - decimals).push('.') + digits.subrange(
            digits.len() - decimals,
            digits.len() as int,
        )
    }
}

/// The magnitude of `value`.
pub open spec fn magnitude(value: int) -> nat {
    if value < 0 {
        (-value) as nat
    } else {
        value as nat
    }
}

impl Decimal {
    /// The number `value` with `decimals` decimal places.
    pub fn new(value: i128, decimals: u32) -> (r: Decimal)
        ensures
            r == (Decimal { value, decimals }),
    {
        Decimal { value, decimals }
    }

    /// How the number is written: a minus sign where it is negative, then
    /// the numeral of its magnitude with the decimal point in its place.
    pub open spec fn rendering(self) -> Seq<char> {
        let body = pointed(numeral(magnitude(self.value as int)), self.decimals as nat);
        if self.value < 0 {
            seq!['-'] + body
        } else {
            body
        }
    }

    /// Writes the number out.
    pub fn to_string(&self) -> (r: String)
        ensures
            r@ == self.rendering(),
    {
        let digits = digits_of(magnitude_of(self.value));
        let mut text = String::new();
        if self.value < 0 {
            proof {
                reveal_strlit("-");
            }
            text.append("-");
        }
        let count = digits.len();
        if self.decimals == 0 {
            append_digits(&mut text, &digits, 0, count);
        } else if count <= self.decimals as usize {
            proof {
                reveal_strlit("0.");
            }
            text.append("0.");
            append_zeros(&mut text, self.decimals - count as u32);
            append_digits(&mut text, &digits, 0, count);
        } else {
            let split = count - self.decimals as usize;
            append_digits(&mut text, &digits, 0, split);
            proof {
                reveal_strlit(".");
            }
            text.append(".");
            append_digits(&mut text, &digits, split, count);
        }
        text
    }
}

/// The characters of a list of decimal digits.
pub open spec fn digit_chars(digits: Seq<u8>) -> Seq<char> {
    Seq::new(digits.len(), |i: int| digit_char(digits[i] as nat))
}

/// The magnitude of `value`. It fits for every `value`, the least included.
fn magnitude_of(value: i128) -> (r: u128)
    ensures
        r == magnitude(value as int),
{
    if value >= 0 {
        value as u128
    } else if value == i128::MIN {
        0x8000_0000_0000_0000_0000_0000_0000_0000u128
    } else {
        (-value) as u128
    }
}

/// The decimal digits of `n`, the most significant first, and the single
/// digit zero for zero.
fn digits_of(n: u128) -> (r: Vec<u8>)
    ensures
        digit_chars(r@) == numeral(n as nat),
        forall|i: int| 0 <= i < r@.len() ==> r@[i] < 10,
        0 < r@.len() <= 39,
{
    let mut reversed: Vec<u8> = Vec::new();
    let mut rest = n;
    proof {
        assert(pow10(0) == 1);
    }
    while rest > 0
        invariant
            significant_digits(n as nat) == significant_digits(rest as nat) + digit_chars(
                reversed@.reverse(),
            ),
            forall|i: int| 0 <= i < reversed@.len() ==> reversed@[i] < 10,
            reversed@.len() <= 39,
            rest as nat * pow10(reversed@.len()) <= n,
        decreases rest,
    {
        let digit = (rest % 10) as u8;
        proof {
            let before = reversed@;
            let after = before.push(digit);
            lemma_pow10_step(before.len());
            assert((rest / 10) as nat * pow10(after.len()) <= rest as nat * pow10(before.len()))
                by (nonlinear_arith)
                requires
                    pow10(after.len()) == 10 * pow10(before.len()),
                    (rest / 10) * 10 <= rest,
                    pow10(before.len()) > 0,
            ;
            if before.len() == 39 {
                lemma_pow10_39();
                assert(rest as nat * pow10(39) >= pow10(39)) by (nonlinear_arith)
                    requires
                        rest >= 1,
                        pow10(39) > 0,
                ;
            }
        }
        reversed.push(digit);
        rest = rest / 10;
    }
    if reversed.len() == 0 {
        reversed.push(0);
        return reversed;
    }
    let ghost target = reversed@.reverse();
    let mut r: Vec<u8> = Vec::new();
    let mut i = reversed.len();
    while i > 0
        invariant
            i <= reversed@.len(),
            target == reversed@.reverse(),
            r@ == target.subrange(0, reversed@.len() - i),
        decreases i,
    {
        i = i - 1;
        r.push(reversed[i]);
    }
    r
}

/// Ten to the power of `e`.
pub open spec fn pow10(e: nat) -> nat
    decreases e,
{
    if e == 0 {
        1
    } else {
        10 * pow10((e - 1) as nat)
    }
}

proof fn lemma_pow10_step(e: nat)
    ensures
        pow10(e + 1) == 10 * pow10(e),
        pow10(e) > 0,
    decreases e,
{
    if e > 0 {
        lemma_pow10_step((e - 1) as nat);
    }
}

proof fn lemma_pow10_39()
    ensures
        pow10(39) > u128::MAX,
{
    reveal_with_fuel(pow10, 40);
}

/// Appends the digits `digits[from..to]` to `text`.
fn append_digits(text: &mut String, digits: &Vec<u8>, from: usize, to: usize)
    requires
        from <= to <= digits@.len(),
        forall|i: int| 0 <= i < digits@.len() ==> digits@[i] < 10,
    ensures
        final(text)@ == old(text)@ + digit_chars(digits@.subrange(from as int, to as int)),
{
    let mut i = from;
    while i < to
        invariant
            from <= i <= to <= digits@.len(),
            forall|i: int| 0 <= i < digits@.len() ==> digits@[i] < 10,
            text@ == old(text)@ + digit_chars(digits@.subrange(from as int, i as int)),
        decreases to - i,
    {
        append_digit(text, digits[i]);
        i = i + 1;
    }
}

/// Appends `n` zeros to `text`.
fn append_zeros(text: &mut String, n: u32)
    ensures
        final(text)@ == old(text)@ + zeros(n as nat),
{
    let mut i: u32 = 0;
    while i < n
        invariant
            i <= n,
            text@ == old(text)@ + zeros(i as nat),
        decreases n - i,
    {
        append_digit(text, 0);
        i = i + 1;
    }
}

/// Appends the character of the digit `d` to `text`.
fn append_digit(text: &mut String, d: u8)
    requires
        d < 10,
    ensures
        final(text)@ == old(text)@.push(digit_char(d as nat)),
{
    proof {
        reveal_strlit("0");
        reveal_strlit("1");
        reveal_strlit("2");
        reveal_strlit("3");
        reveal_strlit("4");
        reveal_strlit("5");
        reveal_strlit("6");
        reveal_strlit("7");
        reveal_strlit("8");
        reveal_strlit("9");
    }
    let digit = if d == 0 {
        "0"
    } else if d == 1 {
        "1"
    } else if d == 2 {
        "2"
    } else if d == 3 {
        "3"
    } else if d == 4 {
        "4"
    } else if d == 5 {
        "5"
    } else if d == 6 {
        "6"
    } else if d == 7 {
        "7"
    } else if d == 8 {
        "8"
    } else {
        "9"
    };
    text.append(digit);
}

/// The account of the latest answer.
#[derive(Debug)]
pub struct Execute {
    /// The latest answer of the feed.
    pub decimal: Decimal,
}

/// The line that reports the price `price` of the feed `description`.
pub open spec fn price_line(description: Seq<char>, price: Decimal) -> Seq<char> {
    description + " price is "@ + price.rendering()
}

/// Takes in the latest round of a feed: keeps the answer, with the feed's
/// number of decimals, and returns the line that reports it.
pub fn execute(ctx: &mut Execute, answer: i128, description: &str, decimals: u8) -> (r: String)
    ensures
        final(ctx).decimal == (Decimal { value: answer, decimals: decimals as u32 }),
        r@ == price_line(description@, final(ctx).decimal),
{
    ctx.decimal.value = answer;
    ctx.decimal.decimals = decimals as u32;
    let price = Decimal::new(answer, decimals as u32);
    let mut line = String::from_str(description);
    line.append(" price is ");
    let written = price.to_string();
    line.append(written.as_str());
    line
}

} // verus!
