//! Size texts: a run of decimal digits, then at most one unit letter.
//!
//! `"4k"` is 4096 bytes, `"2b"` is 1024, `"10"` is 10. A block size may also
//! be a range, two size texts with a `-` between them; it is never zero.

use crate::config::{ConfigError, ConfigFault, RandomDd};
use crate::text::{find_char, first_index_of, lowercased, to_lowercase, trim, trimmed};
use vstd::prelude::*;
use vstd::string::*;

verus! {

/// Why a size text was refused, as contracts speak of it.
pub enum SizeFault {
    /// The text does not start with a digit.
    NoDigits,
    /// The number, or the number times its unit, does not fit in 64 bits.
    TooLarge,
    /// What follows the digits is not a unit; it is held as written.
    UnknownSuffix(Seq<char>),
}

/// Why a size text was refused.
#[derive(Debug)]
pub enum SizeError {
    /// The text does not start with a digit.
    NoDigits,
    /// The number, or the number times its unit, does not fit in 64 bits.
    TooLarge,
    /// What follows the digits is not a unit; it is held as written.
    UnknownSuffix(String),
}

impl View for SizeError {
    type V = SizeFault;

    open spec fn view(&self) -> SizeFault {
        match self {
            SizeError::NoDigits => SizeFault::NoDigits,
            SizeError::TooLarge => SizeFault::TooLarge,
            SizeError::UnknownSuffix(suffix) => SizeFault::UnknownSuffix(suffix@),
        }
    }
}

impl SizeFault {
    /// The refusal in words.
    pub open spec fn message(self) -> Seq<char> {
        match self {
            SizeFault::NoDigits => "Invalid size: cannot parse integer from empty string"@,
            SizeFault::TooLarge => "Invalid size: number too large to fit in target type"@,
            SizeFault::UnknownSuffix(suffix) => "Unknown size suffix: "@ + suffix,
        }
    }
}

impl SizeError {
    /// The refusal in words.
    pub fn message(&self) -> (text: String)
        ensures
            text@ == self@.message(),
    {
        match self {
            SizeError::NoDigits => String::from_str(
                "Invalid size: cannot parse integer from empty string",
            ),
            SizeError::TooLarge => String::from_str(
                "Invalid size: number too large to fit in target type",
            ),
            SizeError::UnknownSuffix(suffix) => String::from_str("Unknown size suffix: ").concat(
                suffix.as_str(),
            ),
        }
    }
}

/// Whether `c` is one of `0` to `9`.
pub open spec fn is_digit(c: char) -> bool {
    '0' <= c && c <= '9'
}

/// The number that a digit stands for.
pub open spec fn digit_value(c: char) -> nat
    recommends
        is_digit(c),
{
    (c as u32 - '0' as u32) as nat
}

/// How many digits `text` starts with.
pub open spec fn digit_count(text: Seq<char>) -> nat
    decreases text.len(),
{
    if text.len() > 0 && is_digit(text[0]) {
        1 + digit_count(text.drop_first())
    } else {
        0
    }
}

/// The number that a run of digits writes in base ten; the empty run is zero.
pub open spec fn decimal_value(digits: Seq<char>) -> nat
    decreases digits.len(),
{
    if digits.len() == 0 {
        0
    } else {
        10 * decimal_value(digits.drop_last()) + digit_value(digits.last())
    }
}

/// The bytes in one unit: `b` is a disk block, `w` a word, `k` to `p` the
/// powers of 1024.
pub open spec fn unit_factor(unit: char) -> Option<nat> {
    if unit == 'b' {
        Some(512)
    } else if unit == 'k' {
        Some(1024)
    } else if unit == 'm' {
        Some(1024 * 1024)
    } else if unit == 'g' {
        Some(1024 * 1024 * 1024)
    } else if unit == 't' {
        Some(1024 * 1024 * 1024 * 1024)
    } else if unit == 'p' {
        Some(1024 * 1024 * 1024 * 1024 * 1024)
    } else if unit == 'w' {
        Some(4)
    } else {
        None
    }
}

/// The factor that a suffix stands for: one where there is none, the unit's
/// where it is a single unit letter, and none otherwise.
pub open spec fn suffix_factor(suffix: Seq<char>) -> Option<nat> {
    if suffix.len() == 0 {
        Some(1)
    } else if suffix.len() == 1 {
        unit_factor(suffix[0])
    } else {
        None
    }
}

/// The byte count that a size text stands for, or why it stands for none.
///
/// The text is read as written: no whitespace is skipped and the unit is a
/// lowercase letter. The digits are judged first, then the suffix, then the
/// product.
pub open spec fn size_of_text(text: Seq<char>) -> Result<u64, SizeFault> {
    let count = digit_count(text);
    let number = decimal_value(text.take(count as int));
    let suffix = text.skip(count as int);
    if count == 0 {
        Err(SizeFault::NoDigits)
    } else if number > u64::MAX {
        Err(SizeFault::TooLarge)
    } else {
        match suffix_factor(suffix) {
            None => Err(SizeFault::UnknownSuffix(suffix)),
            Some(factor) => if number * factor > u64::MAX {
                Err(SizeFault::TooLarge)
            } else {
                Ok((number * factor) as u64)
            },
        }
    }
}

/// The digits at the start of a text end where its first non-digit stands.
pub proof fn lemma_digit_count_is(text: Seq<char>, at: nat)
    requires
        at <= text.len(),
        forall|j: int| 0 <= j < at ==> is_digit(text[j]),
        at < text.len() ==> !is_digit(text[at as int]),
    ensures
        digit_count(text) == at,
    decreases text.len(),
{
    if at > 0 {
        let rest = text.drop_first();
        assert forall|j: int| 0 <= j < at - 1 implies is_digit(rest[j]) by {
            assert(rest[j] == text[j + 1]);
        }
        if at < text.len() {
            assert(rest[at - 1] == text[at as int]);
        }
        lemma_digit_count_is(rest, (at - 1) as nat);
    }
}

fn digit_of(c: char) -> (digit: Option<u64>)
    ensures
        digit is Some <==> is_digit(c),
        digit matches Some(d) ==> d == digit_value(c) && d < 10,
{
    let code = c as u32;
    if 48 <= code && code <= 57 {
        Some((code - 48) as u64)
    } else {
        None
    }
}

fn factor_of_unit(unit: char) -> (factor: Option<u64>)
    ensures
        match factor {
            Some(f) => unit_factor(unit) == Some(f as nat),
            None => unit_factor(unit) is None,
        },
{
    if unit == 'b' {
        Some(512)
    } else if unit == 'k' {
        Some(1024)
    } else if unit == 'm' {
        Some(1024 * 1024)
    } else if unit == 'g' {
        Some(1024 * 1024 * 1024)
    } else if unit == 't' {
        Some(1024 * 1024 * 1024 * 1024)
    } else if unit == 'p' {
        Some(1024 * 1024 * 1024 * 1024 * 1024)
    } else if unit == 'w' {
        Some(4)
    } else {
        None
    }
}

/// Reads a size text that is already trimmed and in lowercase.
pub fn parse_plain_size(text: &str) -> (size: Result<u64, SizeError>)
    ensures
        match size {
            Ok(bytes) => size_of_text(text@) == Ok::<u64, SizeFault>(bytes),
            Err(e) => size_of_text(text@) == Err::<u64, SizeFault>(e@),
        },
{
    let n = text.unicode_len();
    let mut count: usize = 0;
    let mut number: u64 = 0;
    let mut fits = true;
    while count < n
        invariant_except_break
            fits ==> number == decimal_value(text@.take(count as int)),
        invariant
            count <= n,
            n == text@.len(),
            forall|j: int| 0 <= j < count ==> is_digit(text@[j]),
            !fits ==> decimal_value(text@.take(count as int)) > u64::MAX,
        ensures
            count < n ==> !is_digit(text@[count as int]),
            fits ==> number == decimal_value(text@.take(count as int)),
        decreases n - count,
    {
        let digit = match digit_of(text.get_char(count)) {
            Some(d) => d,
            None => {
                break ;
            },
        };
        proof {
            let longer = text@.take(count + 1);
            assert(longer.drop_last() =~= text@.take(count as int));
            assert(longer.last() == text@[count as int]);
        }
        if fits {
            let next = match number.checked_mul(10) {
                Some(tens) => tens.checked_add(digit),
                None => None,
            };
            match next {
                Some(v) => {
                    number = v;
                },
                None => {
                    fits = false;
                },
            }
        }
        count += 1;
    }
    proof {
        lemma_digit_count_is(text@, count as nat);
    }
    if count == 0 {
        return Err(SizeError::NoDigits);
    }
    if !fits {
        return Err(SizeError::TooLarge);
    }
    let factor = if count == n {
        Some(1u64)
    } else if n - count == 1 {
        factor_of_unit(text.get_char(count))
    } else {
        None
    };
    match factor {
        None => {
            let suffix = text.substring_char(count, n);
            Err(SizeError::UnknownSuffix(String::from_str(suffix)))
        },
        Some(f) => match number.checked_mul(f) {
            Some(bytes) => Ok(bytes),
            None => Err(SizeError::TooLarge),
        },
    }
}

/// A text as it is read for its size: trimmed, then in lowercase.
pub open spec fn normal_form(text: Seq<char>) -> Seq<char> {
    lowercased(trimmed(text))
}

/// The block sizes that two sizes make: the first must not be above the
/// second, and none may be zero. The texts are those that the sizes were
/// read from; a refusal of the order holds them.
pub open spec fn block_range(
    low: u64,
    high: u64,
    low_text: Seq<char>,
    high_text: Seq<char>,
) -> Result<(u64, u64), ConfigFault> {
    if low > high {
        Err(ConfigFault::InvalidRange { min: low_text, max: high_text })
    } else if low == 0 {
        Err(ConfigFault::ZeroBlockSize)
    } else {
        Ok((low, high))
    }
}

/// The block sizes that a text stands for: where it holds a `-`, the sizes
/// before and after the first one; else one size, for both ends. The lower
/// end is read before the upper one, and both are read before
/// [`block_range`] judges them.
pub open spec fn block_range_of_text(text: Seq<char>) -> Result<(u64, u64), ConfigFault> {
    let at = first_index_of(text, '-') as int;
    if at < text.len() {
        let low_text = text.subrange(0, at);
        let high_text = text.subrange(at + 1, text.len() as int);
        match size_of_text(normal_form(low_text)) {
            Err(fault) => Err(ConfigFault::Size(fault)),
            Ok(low) => match size_of_text(normal_form(high_text)) {
                Err(fault) => Err(ConfigFault::Size(fault)),
                Ok(high) => block_range(low, high, low_text, high_text),
            },
        }
    } else {
        match size_of_text(normal_form(text)) {
            Err(fault) => Err(ConfigFault::Size(fault)),
            Ok(size) => block_range(size, size, text, text),
        }
    }
}

/// Block sizes that a text stands for are positive and in order.
pub proof fn lemma_block_range_is_positive(text: Seq<char>)
    ensures
        block_range_of_text(text) matches Ok(ends) ==> 0 < ends.0 <= ends.1,
{
}

/// Makes the block sizes of two sizes, or refuses them where the first is
/// above the second or where they are zero.
pub fn order_range(low: u64, high: u64, low_text: &str, high_text: &str) -> (range: Result<
    (u64, u64),
    ConfigError,
>)
    ensures
        match range {
            Ok(ends) => block_range(low, high, low_text@, high_text@) == Ok::<
                (u64, u64),
                ConfigFault,
            >(ends),
            Err(e) => block_range(low, high, low_text@, high_text@) == Err::<
                (u64, u64),
                ConfigFault,
            >(e@),
        },
{
    if low > high {
        Err(
            ConfigError::InvalidRange {
                min: String::from_str(low_text),
                max: String::from_str(high_text),
            },
        )
    } else if low == 0 {
        Err(ConfigError::ZeroBlockSize)
    } else {
        Ok((low, high))
    }
}

impl RandomDd {
    /// Reads a size text: whitespace around it is dropped and capital
    /// letters count as small ones, then [`parse_plain_size`] reads it.
    pub fn parse_size(s: &str) -> (size: Result<u64, SizeError>)
        ensures
            match size {
                Ok(bytes) => size_of_text(normal_form(s@)) == Ok::<u64, SizeFault>(bytes),
                Err(e) => size_of_text(normal_form(s@)) == Err::<u64, SizeFault>(e@),
            },
    {
        let text = to_lowercase(trim(s));
        parse_plain_size(text.as_str())
    }

    /// Reads a block size: one size text, or two with a `-` between them.
    /// A block size of zero is refused, and so is a range whose lower end is
    /// above its upper end.
    pub fn parse_bs_range(s: &str) -> (range: Result<(u64, u64), ConfigError>)
        ensures
            match range {
                Ok(ends) => block_range_of_text(s@) == Ok::<(u64, u64), ConfigFault>(ends),
                Err(e) => block_range_of_text(s@) == Err::<(u64, u64), ConfigFault>(e@),
            },
    {
        let n = s.unicode_len();
        let at = find_char(s, '-');
        if at < n {
            let low_text = s.substring_char(0, at);
            let high_text = s.substring_char(at + 1, n);
            let low = match RandomDd::parse_size(low_text) {
                Ok(low) => low,
                Err(e) => {
                    return Err(ConfigError::Size(e));
                },
            };
            let high = match RandomDd::parse_size(high_text) {
                Ok(high) => high,
                Err(e) => {
                    return Err(ConfigError::Size(e));
                },
            };
            order_range(low, high, low_text, high_text)
        } else {
            match RandomDd::parse_size(s) {
                Ok(size) => order_range(size, size, s, s),
                Err(e) => Err(ConfigError::Size(e)),
            }
        }
    }
}

} // verus!
