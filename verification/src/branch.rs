//! Mirror branch names: the branch of the control repository that tracks one
//! pull request is named after the pull request's number alone.

use vstd::prelude::*;
use vstd::string::StringExecFns;

verus! {

/// What every mirror branch name starts with.
pub const MIRROR_BRANCH_PREFIX: &'static str = "automated-gutenberg-update/for-pr-";

/// The character that writes the digit `d`, for `d` below ten.
pub open spec fn digit_char(d: nat) -> char {
    if d == 0 {
        '0'
    } else if d == 1 {
        '1'
    } else if d == 2 {
        '2'
    } else if d == 3 {
        '3'
    } else if d == 4 {
        '4'
    } else if d == 5 {
        '5'
    } else if d == 6 {
        '6'
    } else if d == 7 {
        '7'
    } else if d == 8 {
        '8'
    } else {
        '9'
    }
}

/// The decimal notation of `n`: most significant digit first, no sign, no
/// leading zero, and `"0"` for zero.
pub open spec fn decimal_digits(n: nat) -> Seq<char>
    decreases n,
{
    if n < 10 {
        seq![digit_char(n)]
    } else {
        decimal_digits(n / 10).push(digit_char(n % 10))
    }
}

/// The name of the mirror branch for pull request `number`.
pub open spec fn mirror_branch_name(number: nat) -> Seq<char> {
    MIRROR_BRANCH_PREFIX@ + decimal_digits(number)
}

/// The digit that `c` writes; zero for any other character.
spec fn digit_value(c: char) -> nat {
    if c == '1' {
        1
    } else if c == '2' {
        2
    } else if c == '3' {
        3
    } else if c == '4' {
        4
    } else if c == '5' {
        5
    } else if c == '6' {
        6
    } else if c == '7' {
        7
    } else if c == '8' {
        8
    } else if c == '9' {
        9
    } else {
        0
    }
}

/// The number that a sequence of digits writes in decimal notation.
spec fn decimal_value(digits: Seq<char>) -> nat
    decreases digits.len(),
{
    if digits.len() == 0 {
        0
    } else {
        decimal_value(digits.drop_last()) * 10 + digit_value(digits.last())
    }
}

proof fn lemma_decimal_value_of_digits(n: nat)
    ensures
        decimal_value(decimal_digits(n)) == n,
    decreases n,
{
    if n < 10 {
        let digits = decimal_digits(n);
        assert(digits.drop_last() =~= Seq::<char>::empty());
        assert(decimal_value(digits.drop_last()) == 0);
    } else {
        let digits = decimal_digits(n);
        lemma_decimal_value_of_digits(n / 10);
        assert(digits.drop_last() =~= decimal_digits(n / 10));
        assert(digits.last() == digit_char(n % 10));
    }
}

/// Decimal notation tells numbers apart: two numbers are written alike only
/// if they are the same number.
pub proof fn lemma_decimal_digits_injective(a: nat, b: nat)
    ensures
        decimal_digits(a) == decimal_digits(b) <==> a == b,
{
    lemma_decimal_value_of_digits(a);
    lemma_decimal_value_of_digits(b);
}

/// Mirror branch names are a function of the pull request number, and
/// distinct pull requests get distinct mirror branches.
pub proof fn lemma_mirror_branch_name_injective(a: nat, b: nat)
    ensures
        mirror_branch_name(a) == mirror_branch_name(b) <==> a == b,
{
    let prefix = MIRROR_BRANCH_PREFIX@;
    if mirror_branch_name(a) == mirror_branch_name(b) {
        let name = mirror_branch_name(a);
        assert(name.subrange(prefix.len() as int, name.len() as int) =~= decimal_digits(a));
        assert(name.subrange(prefix.len() as int, name.len() as int) =~= decimal_digits(b));
        lemma_decimal_digits_injective(a, b);
    }
}

/// The characters that a mirror branch name is made of: lower-case letters,
/// digits, `-` and `/`. Each stands for itself in the query of a URI.
pub open spec fn is_query_safe(c: char) -> bool {
    ||| 'a' <= c <= 'z'
    ||| '0' <= c <= '9'
    ||| c == '-'
    ||| c == '/'
}

proof fn lemma_decimal_digits_are_digits(n: nat)
    ensures
        decimal_digits(n).len() >= 1,
        forall|i: int|
            0 <= i < decimal_digits(n).len() ==> '0' <= #[trigger] decimal_digits(n)[i] <= '9',
    decreases n,
{
    if n >= 10 {
        lemma_decimal_digits_are_digits(n / 10);
    }
}

/// A mirror branch name can be written into the query of a URI as it is.
pub proof fn lemma_mirror_branch_name_is_query_safe(number: nat)
    ensures
        forall|i: int|
            0 <= i < mirror_branch_name(number).len() ==> is_query_safe(
                #[trigger] mirror_branch_name(number)[i],
            ),
{
    reveal_strlit("automated-gutenberg-update/for-pr-");
    lemma_decimal_digits_are_digits(number);
    let prefix = MIRROR_BRANCH_PREFIX@;
    let name = mirror_branch_name(number);
    assert forall|i: int| 0 <= i < name.len() implies is_query_safe(#[trigger] name[i]) by {
        if i < prefix.len() {
            assert(name[i] == prefix[i]);
        } else {
            assert(name[i] == decimal_digits(number)[i - prefix.len()]);
        }
    }
}

/// The one-character text of the digit `d`.
fn digit_text(d: u64) -> (text: &'static str)
    requires
        d < 10,
    ensures
        text@ == seq![digit_char(d as nat)],
{
    proof {
        reveal_strlit("0");
        reveal_strlit("1");
        reveal_strlit("2");
        reveal_strlit("3");
        reveal_strlit("4");
        reveal_strlit("5");
        reveal_strlit("6");
        reveal_strlit("7");
        reveal_strlit("8");
        reveal_strlit("9");
    }
    let text = if d == 0 {
        "0"
    } else if d == 1 {
        "1"
    } else if d == 2 {
        "2"
    } else if d == 3 {
        "3"
    } else if d == 4 {
        "4"
    } else if d == 5 {
        "5"
    } else if d == 6 {
        "6"
    } else if d == 7 {
        "7"
    } else if d == 8 {
        "8"
    } else {
        "9"
    };
    assert(text@ =~= seq![digit_char(d as nat)]);
    text
}

/// Appends the decimal notation of `n` to `text`.
fn append_decimal(text: &mut String, n: u64)
    ensures
        final(text)@ == old(text)@ + decimal_digits(n as nat),
    decreases n,
{
    if n >= 10 {
        append_decimal(text, n / 10);
    }
    text.append(digit_text(n % 10));
    assert(text@ =~= old(text)@ + decimal_digits(n as nat));
}

/// Derives the mirror branch name for a pull request from its number.
pub fn automated_branch_name(gutenberg_pr_number: u64) -> (name: String)
    ensures
        name@ == mirror_branch_name(gutenberg_pr_number as nat),
{
    let mut name = MIRROR_BRANCH_PREFIX.to_owned();
    append_decimal(&mut name, gutenberg_pr_number);
    name
}

} // verus!
