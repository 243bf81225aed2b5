//! Small pieces of text handling that the rest of the crate shares: what
//! `str::trim` and `str::to_lowercase` give, comparing two texts, finding a
//! character, and writing a number in decimal digits.

use vstd::prelude::*;
use vstd::string::*;

verus! {

/// The text that `str::trim` returns for `text`.
pub uninterp spec fn trimmed(text: Seq<char>) -> Seq<char>;

/// The text that `str::to_lowercase` returns for `text`.
pub uninterp spec fn lowercased(text: Seq<char>) -> Seq<char>;

/// Removes leading and trailing whitespace.
///
/// Calls `str::trim`. Which characters count as whitespace is decided by the
/// Unicode tables of the standard library; the contract only gives the
/// outcome its name, [`trimmed`].
#[verifier::external_body]
pub(crate) fn trim(text: &str) -> (out: &str)
    ensures
        out@ == trimmed(text@),
{
    text.trim()
}

/// Turns every character into its lowercase form.
///
/// Calls `str::to_lowercase`. The mapping is the Unicode one of the standard
/// library; the contract only gives the outcome its name, [`lowercased`].
#[verifier::external_body]
pub(crate) fn to_lowercase(text: &str) -> (out: String)
    ensures
        out@ == lowercased(text@),
{
    text.to_lowercase()
}

/// Whether two texts hold the same characters.
pub(crate) fn same_text(a: &str, b: &str) -> (same: bool)
    ensures
        same == (a@ == b@),
{
    let n = a.unicode_len();
    if b.unicode_len() != n {
        return false;
    }
    let mut i: usize = 0;
    while i < n
        invariant
            i <= n,
            n == a@.len(),
            n == b@.len(),
            forall|j: int| 0 <= j < i ==> a@[j] == b@[j],
        decreases n - i,
    {
        if a.get_char(i) != b.get_char(i) {
            return false;
        }
        i += 1;
    }
    assert(a@ =~= b@);
    true
}

/// The position of the first `needle` in `text`, or the length of `text`
/// where it holds none.
pub open spec fn first_index_of(text: Seq<char>, needle: char) -> nat
    decreases text.len(),
{
    if text.len() == 0 || text[0] == needle {
        0
    } else {
        1 + first_index_of(text.drop_first(), needle)
    }
}

/// `first_index_of` names the first occurrence: nothing before it is the
/// needle, and the needle stands at it unless the text has none.
pub proof fn lemma_first_index_of(text: Seq<char>, needle: char)
    ensures
        first_index_of(text, needle) <= text.len(),
        forall|j: int| 0 <= j < first_index_of(text, needle) ==> text[j] != needle,
        first_index_of(text, needle) < text.len() ==> text[first_index_of(text, needle) as int]
            == needle,
    decreases text.len(),
{
    if text.len() == 0 || text[0] == needle {
    } else {
        let rest = text.drop_first();
        lemma_first_index_of(rest, needle);
        let k = first_index_of(rest, needle);
        assert forall|j: int| 0 <= j < k + 1 implies text[j] != needle by {
            if j > 0 {
                assert(rest[j - 1] == text[j]);
            }
        }
        if k + 1 < text.len() {
            assert(rest[k as int] == text[k as int + 1]);
        }
    }
}

/// A position with the needle at it and none before it is the first one.
pub proof fn lemma_first_index_is(text: Seq<char>, needle: char, at: nat)
    requires
        at <= text.len(),
        forall|j: int| 0 <= j < at ==> text[j] != needle,
        at < text.len() ==> text[at as int] == needle,
    ensures
        first_index_of(text, needle) == at,
{
    lemma_first_index_of(text, needle);
}

/// Finds the first `needle` in `text`.
pub(crate) fn find_char(text: &str, needle: char) -> (at: usize)
    ensures
        at == first_index_of(text@, needle),
{
    let n = text.unicode_len();
    let mut i: usize = 0;
    while i < n
        invariant
            i <= n,
            n == text@.len(),
            forall|j: int| 0 <= j < i ==> text@[j] != needle,
        decreases n - i,
    {
        if text.get_char(i) == needle {
            proof {
                lemma_first_index_is(text@, needle, i as nat);
            }
            return i;
        }
        i += 1;
    }
    proof {
        lemma_first_index_is(text@, needle, n as nat);
    }
    n
}

/// The character that stands for a single decimal digit.
pub open spec fn digit_char(d: nat) -> char
    recommends
        d < 10,
{
    if d == 0 {
        '0'
    } else if d == 1 {
        '1'
    } else if d == 2 {
        '2'
    } else if d == 3 {
        '3'
    } else if d == 4 {
        '4'
    } else if d == 5 {
        '5'
    } else if d == 6 {
        '6'
    } else if d == 7 {
        '7'
    } else if d == 8 {
        '8'
    } else {
        '9'
    }
}

/// A number in decimal digits, without leading zeros; zero is `"0"`.
pub open spec fn decimal_digits(n: nat) -> Seq<char>
    decreases n,
{
    if n < 10 {
        seq![digit_char(n)]
    } else {
        decimal_digits(n / 10).push(digit_char(n % 10))
    }
}

/// The one-character text of a decimal digit.
fn digit_text(d: u64) -> (out: &'static str)
    requires
        d < 10,
    ensures
        out@ == seq![digit_char(d as nat)],
{
    proof {
        reveal_strlit("0");
        reveal_strlit("1");
        reveal_strlit("2");
        reveal_strlit("3");
        reveal_strlit("4");
        reveal_strlit("5");
        reveal_strlit("6");
        reveal_strlit("7");
        reveal_strlit("8");
        reveal_strlit("9");
    }
    let out = if d == 0 {
        "0"
    } else if d == 1 {
        "1"
    } else if d == 2 {
        "2"
    } else if d == 3 {
        "3"
    } else if d == 4 {
        "4"
    } else if d == 5 {
        "5"
    } else if d == 6 {
        "6"
    } else if d == 7 {
        "7"
    } else if d == 8 {
        "8"
    } else {
        "9"
    };
    assert(out@ =~= seq![digit_char(d as nat)]);
    out
}

/// Appends one decimal digit to `out`.
pub(crate) fn push_digit(out: &mut String, d: u64)
    requires
        d < 10,
    ensures
        final(out)@ == old(out)@.push(digit_char(d as nat)),
{
    out.append(digit_text(d));
    assert(out@ =~= old(out)@.push(digit_char(d as nat)));
}

/// Appends `n` in decimal digits to `out`.
pub(crate) fn push_decimal(out: &mut String, n: u64)
    ensures
        final(out)@ == old(out)@ + decimal_digits(n as nat),
    decreases n,
{
    if n >= 10 {
        push_decimal(out, n / 10);
    }
    push_digit(out, n % 10);
    assert(out@ =~= old(out)@ + decimal_digits(n as nat));
}

} // verus!
