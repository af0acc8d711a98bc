//! Unsigned decimal numerals: reading them as `u128::from_str` and
//! `usize::from_str` do, and writing them as `u128`'s `Display` does.
use vstd::prelude::*;

verus! {

/// Why a numeral was refused; the three kinds `ParseIntError` reports for
/// unsigned integers.
#[derive(Debug, Clone, Copy, PartialEq, Eq, Structural)]
pub enum DecimalError {
    /// The text is empty.
    Empty,
    /// A character is not a decimal digit (a lone sign counts as one).
    InvalidDigit,
    /// The value is larger than the target type can hold.
    PosOverflow,
}

pub open spec fn is_digit(c: char) -> bool {
    '0' <= c && c <= '9'
}

pub open spec fn digit_value(c: char) -> nat {
    (c as int - '0' as int) as nat
}

pub open spec fn digit_char(d: nat) -> char {
    (d + 48) as char
}

/// The digits of `n`, most significant first, without leading zeros.
pub open spec fn decimal(n: nat) -> Seq<char>
    decreases n,
{
    if n < 10 {
        seq![digit_char(n)]
    } else {
        decimal(n / 10).push(digit_char(n % 10))
    }
}

/// Reads the digits of `s` left to right onto `acc`, stopping at the first
/// character that is no digit or at the first prefix whose value exceeds `max`.
pub open spec fn parse_digits(s: Seq<char>, acc: nat, max: nat) -> Result<nat, DecimalError>
    decreases s.len(),
{
    if s.len() == 0 {
        Ok(acc)
    } else if !is_digit(s[0]) {
        Err(DecimalError::InvalidDigit)
    } else if acc * 10 + digit_value(s[0]) > max {
        Err(DecimalError::PosOverflow)
    } else {
        parse_digits(s.drop_first(), acc * 10 + digit_value(s[0]), max)
    }
}

/// What `from_str` gives for an unsigned integer type whose largest value is `max`:
/// an optional leading `+`, then at least one digit.
pub open spec fn parse_unsigned(s: Seq<char>, max: nat) -> Result<nat, DecimalError> {
    if s.len() == 0 {
        Err(DecimalError::Empty)
    } else if s.len() == 1 && (s[0] == '+' || s[0] == '-') {
        Err(DecimalError::InvalidDigit)
    } else if s[0] == '+' {
        parse_digits(s.drop_first(), 0, max)
    } else {
        parse_digits(s, 0, max)
    }
}

/// The message `ParseIntError` displays for each kind.
pub open spec fn decimal_error_message(e: DecimalError) -> Seq<char> {
    match e {
        DecimalError::Empty => "cannot parse integer from empty string"@,
        DecimalError::InvalidDigit => "invalid digit found in string"@,
        DecimalError::PosOverflow => "number too large to fit in target type"@,
    }
}

/// The messages are those `ParseIntError` displays.
pub proof fn law_decimal_error_messages()
    ensures
        decimal_error_message(DecimalError::Empty) == "cannot parse integer from empty string"@,
        decimal_error_message(DecimalError::InvalidDigit) == "invalid digit found in string"@,
        decimal_error_message(DecimalError::PosOverflow) == "number too large to fit in target type"@,
{
}

/// The message `ParseIntError` displays for `e`.
pub fn decimal_error_text(e: DecimalError) -> (res: String)
    ensures
        res@ == decimal_error_message(e),
{
    match e {
        DecimalError::Empty => String::from_str("cannot parse integer from empty string"),
        DecimalError::InvalidDigit => String::from_str("invalid digit found in string"),
        DecimalError::PosOverflow => String::from_str("number too large to fit in target type"),
    }
}

/// Reads `s` as an unsigned numeral no larger than `max`.
pub fn parse_decimal(s: &Vec<char>, max: u128) -> (res: Result<u128, DecimalError>)
    ensures
        res matches Ok(v) ==> v <= max,
        match res {
            Ok(v) => parse_unsigned(s@, max as nat) == Ok::<nat, DecimalError>(v as nat),
            Err(e) => parse_unsigned(s@, max as nat) == Err::<nat, DecimalError>(e),
        },
{
    let n = s.len();
    if n == 0 {
        return Err(DecimalError::Empty);
    }
    if n == 1 && (s[0] == '+' || s[0] == '-') {
        return Err(DecimalError::InvalidDigit);
    }
    let mut i: usize = if s[0] == '+' { 1 } else { 0 };
    let mut acc: u128 = 0;
    assert(s@.skip(i as int) == if s@[0] == '+' { s@.drop_first() } else { s@ });
    while i < n
        invariant
            n == s@.len(),
            0 <= i <= n,
            acc <= max,
            parse_unsigned(s@, max as nat) == parse_digits(s@.skip(i as int), acc as nat, max as nat),
        decreases n - i,
    {
        let c = s[i];
        assert(s@.skip(i as int)[0] == c);
        if !('0' <= c && c <= '9') {
            return Err(DecimalError::InvalidDigit);
        }
        let d: u128 = ((c as u32) - ('0' as u32)) as u128;
        assert(s@.skip(i as int).drop_first() == s@.skip(i + 1));
        let next = match acc.checked_mul(10) {
            Some(m) => m.checked_add(d),
            None => None,
        };
        match next {
            Some(v) => {
                if v > max {
                    return Err(DecimalError::PosOverflow);
                }
                acc = v;
            },
            None => {
                return Err(DecimalError::PosOverflow);
            },
        }
        i = i + 1;
    }
    assert(s@.skip(n as int).len() == 0);
    Ok(acc)
}

/// Appending one digit to a numeral that reads without error.
proof fn lemma_parse_digits_push(s: Seq<char>, acc: nat, max: nat, c: char, v: nat)
    requires
        parse_digits(s, acc, max) == Ok::<nat, DecimalError>(v),
        is_digit(c),
    ensures
        parse_digits(s.push(c), acc, max) == (if v * 10 + digit_value(c) > max {
            Err::<nat, DecimalError>(DecimalError::PosOverflow)
        } else {
            Ok(v * 10 + digit_value(c))
        }),
    decreases s.len(),
{
    if s.len() == 0 {
        assert(s.push(c).drop_first() =~= Seq::<char>::empty());
        assert(parse_digits(Seq::<char>::empty(), acc * 10 + digit_value(c), max) == Ok::<
            nat,
            DecimalError,
        >(acc * 10 + digit_value(c)));
    } else {
        assert(s.push(c).drop_first() =~= s.drop_first().push(c));
        lemma_parse_digits_push(s.drop_first(), acc * 10 + digit_value(s[0]), max, c, v);
    }
}

/// Every digit of a numeral is a decimal digit, and it does not start with `+` or `-`.
pub proof fn lemma_decimal_digits(n: nat)
    ensures
        decimal(n).len() >= 1,
        forall|i: int| 0 <= i < decimal(n).len() ==> #[trigger] is_digit(decimal(n)[i]),
    decreases n,
{
    if n >= 10 {
        lemma_decimal_digits(n / 10);
    }
}

/// A numeral ends in the digit `n % 10`, is preceded by the numeral of `n / 10`
/// where `n` has more than one digit, and starts with `0` only for zero itself.
pub proof fn law_decimal_shape(n: nat)
    ensures
        decimal(n).len() >= 1,
        decimal(n).last() == digit_char(n % 10),
        n >= 10 ==> decimal(n).drop_last() == decimal(n / 10),
        n < 10 ==> decimal(n).len() == 1,
        decimal(n)[0] == '0' ==> n == 0,
    decreases n,
{
    if n >= 10 {
        law_decimal_shape(n / 10);
        assert(decimal(n).drop_last() =~= decimal(n / 10));
        assert(decimal(n)[0] == decimal(n / 10)[0]);
    } else {
        assert(n % 10 == n);
        assert(digit_char(n) as int == n + 48);
    }
}

/// Reading refuses empty text and a lone sign, skips one leading `+`, stops at
/// the first character that is no digit, and refuses a value above `max`.
pub proof fn law_parse_refusals(s: Seq<char>, max: nat)
    ensures
        s.len() == 0 ==> parse_unsigned(s, max) == Err::<nat, DecimalError>(DecimalError::Empty),
        s == seq!['+'] || s == seq!['-'] ==> parse_unsigned(s, max) == Err::<nat, DecimalError>(
            DecimalError::InvalidDigit,
        ),
        s.len() >= 2 && s[0] == '+' ==> parse_unsigned(s, max) == parse_digits(s.drop_first(), 0, max),
        s.len() >= 1 && s[0] != '+' && !is_digit(s[0]) ==> parse_unsigned(s, max) == Err::<nat, DecimalError>(
            DecimalError::InvalidDigit,
        ),
        s.len() >= 1 && is_digit(s[0]) && digit_value(s[0]) > max ==> parse_unsigned(s, max) == Err::<
            nat,
            DecimalError,
        >(DecimalError::PosOverflow),
{
}

/// Reading a written numeral gives back its value, whenever it fits.
pub proof fn lemma_parse_decimal_roundtrip(n: nat, max: nat)
    requires
        n <= max,
    ensures
        parse_digits(decimal(n), 0, max) == Ok::<nat, DecimalError>(n),
        parse_unsigned(decimal(n), max) == Ok::<nat, DecimalError>(n),
    decreases n,
{
    lemma_decimal_digits(n);
    if n < 10 {
        let s = decimal(n);
        assert(digit_char(n) as int == n + 48);
        assert(is_digit(s[0]));
        assert(digit_value(s[0]) == n);
        assert(s.drop_first() =~= Seq::<char>::empty());
        assert(parse_digits(s.drop_first(), n, max) == Ok::<nat, DecimalError>(n));
    } else {
        lemma_parse_decimal_roundtrip(n / 10, max);
        assert(digit_char(n % 10) as int == n % 10 + 48);
        assert(digit_value(digit_char(n % 10)) == n % 10);
        lemma_parse_digits_push(decimal(n / 10), 0, max, digit_char(n % 10), n / 10);
        assert((n / 10) * 10 + n % 10 == n);
    }
    assert(is_digit(decimal(n)[0]));
}

/// Writes `n` in decimal, as `u128`'s `Display` does.
pub fn write_decimal(n: u128) -> (res: Vec<char>)
    ensures
        res@ == decimal(n as nat),
{
    let mut out: Vec<char> = Vec::new();
    let mut m: u128 = n;
    while m >= 10
        invariant
            decimal(n as nat) == decimal(m as nat) + out@,
        decreases m,
    {
        let d = (m % 10) as u8;
        let c = (d + 48u8) as char;
        let ghost before = out@;
        out.insert(0, c);
        assert(decimal(m as nat) == decimal((m / 10) as nat).push(digit_char((m % 10) as nat)));
        assert(decimal(m as nat) + before =~= decimal((m / 10) as nat) + out@);
        m = m / 10;
    }
    let c = ((m as u8) + 48u8) as char;
    let ghost before = out@;
    out.insert(0, c);
    assert(decimal(m as nat) =~= seq![c]);
    assert(out@ =~= decimal(m as nat) + before);
    out
}

} // verus!
