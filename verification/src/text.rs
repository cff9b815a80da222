//! Decimal numbers as text.

use vstd::prelude::*;
use vstd::string::*;

verus! {

/// The character of a single decimal digit.
pub open spec fn digit(d: nat) -> char {
    (48 + d) as char
}

/// The decimal digits of `n`, without leading zeros.
pub open spec fn decimal(n: nat) -> Seq<char>
    decreases n,
{
    if n < 10 {
        seq![digit(n)]
    } else {
        decimal(n / 10).push(digit(n % 10))
    }
}

/// The decimal digits of each number, with a comma and a space between neighbours.
pub open spec fn decimal_list(numbers: Seq<usize>) -> Seq<char>
    decreases numbers.len(),
{
    if numbers.len() == 0 {
        seq![]
    } else if numbers.len() == 1 {
        decimal(numbers[0] as nat)
    } else {
        decimal_list(numbers.drop_last()) + ", "@ + decimal(numbers.last() as nat)
    }
}

/// The text of a single decimal digit.
fn digit_text(d: u64) -> (text: &'static str)
    requires
        d < 10,
    ensures
        text@ == seq![digit(d as nat)],
{
    proof {
        reveal_strlit("0");
        reveal_strlit("1");
        reveal_strlit("2");
        reveal_strlit("3");
        reveal_strlit("4");
        reveal_strlit("5");
        reveal_strlit("6");
        reveal_strlit("7");
        reveal_strlit("8");
        reveal_strlit("9");
    }
    match d {
        0 => "0",
        1 => "1",
        2 => "2",
        3 => "3",
        4 => "4",
        5 => "5",
        6 => "6",
        7 => "7",
        8 => "8",
        _ => "9",
    }
}

/// Appends the decimal digits of `n` to `out`.
pub fn push_decimal(out: &mut String, n: u64)
    ensures
        final(out)@ == old(out)@ + decimal(n as nat),
    decreases n,
{
    if n >= 10 {
        push_decimal(out, n / 10);
    }
    out.append(digit_text(n % 10));
}

/// Appends the numbers to `out`, separated by a comma and a space.
pub fn push_decimal_list(out: &mut String, numbers: &[usize])
    ensures
        final(out)@ == old(out)@ + decimal_list(numbers@),
{
    let mut i: usize = 0;
    while i < numbers.len()
        invariant
            i <= numbers@.len(),
            out@ == old(out)@ + decimal_list(numbers@.take(i as int)),
        decreases numbers@.len() - i,
    {
        assert(numbers@.take(i + 1).drop_last() =~= numbers@.take(i as int));
        if i > 0 {
            out.append(", ");
        }
        push_decimal(out, numbers[i] as u64);
        i = i + 1;
    }
    assert(numbers@.take(i as int) =~= numbers@);
}

/// The digits of a number are decimal digits without a leading zero, and read as a decimal
/// number they give the number back.
pub proof fn decimals_read_back(n: nat)
    ensures
        decimal(n).len() >= 1,
        n < 10 <==> decimal(n).len() == 1,
        n >= 10 ==> decimal(n)[0] != '0',
        forall|i: int| 0 <= i < decimal(n).len() ==> '0' <= #[trigger] decimal(n)[i] <= '9',
        decimal(n).fold_left(0int, |value: int, c: char| 10 * value + (c as int - '0' as int))
            == n,
    decreases n,
{
    let read = |value: int, c: char| 10 * value + (c as int - '0' as int);
    reveal_with_fuel(Seq::fold_left, 2);
    if n < 10 {
        assert(decimal(n).drop_last() =~= seq![]);
        assert(decimal(n).last() == digit(n));
    } else {
        decimals_read_back(n / 10);
        assert(decimal(n).drop_last() =~= decimal(n / 10));
        assert(decimal(n)[0] == decimal(n / 10)[0]);
        if n / 10 < 10 {
            assert(decimal(n)[0] == digit(n / 10));
        }
        assert forall|i: int| 0 <= i < decimal(n).len() implies '0' <= #[trigger] decimal(n)[i]
            <= '9' by {
            if i < decimal(n / 10).len() {
                assert(decimal(n)[i] == decimal(n / 10)[i]);
            }
        }
        assert(decimal(n).last() == digit(n % 10));
    }
}

/// The list of no number is empty, that of one is its digits, and each further number adds a
/// comma, a space and its digits at the end.
pub proof fn decimal_lists_grow_at_the_end(numbers: Seq<usize>, next: usize)
    ensures
        decimal_list(Seq::<usize>::empty()) == Seq::<char>::empty(),
        decimal_list(seq![next]) == decimal(next as nat),
        numbers.len() > 0 ==> decimal_list(numbers.push(next)) == decimal_list(numbers) + seq![
            ',',
            ' ',
        ] + decimal(next as nat),
{
    reveal_strlit(", ");
    assert(", "@ =~= seq![',', ' ']);
    assert(numbers.push(next).drop_last() =~= numbers);
}

} // verus!
