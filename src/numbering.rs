use vstd::prelude::*;

use crate::ambient::current_year_text;
use crate::text::{is_prefix, starts_with};

verus! {

/// The decimal digit for `d`, which is below ten.
pub open spec fn digit_char(d: nat) -> char {
    if d == 0 {
        '0'
    } else if d == 1 {
        '1'
    } else if d == 2 {
        '2'
    } else if d == 3 {
        '3'
    } else if d == 4 {
        '4'
    } else if d == 5 {
        '5'
    } else if d == 6 {
        '6'
    } else if d == 7 {
        '7'
    } else if d == 8 {
        '8'
    } else {
        '9'
    }
}

/// `n` written in decimal, without leading zeros.
pub open spec fn decimal(n: nat) -> Seq<char>
    decreases n,
{
    if n < 10 {
        seq![digit_char(n)]
    } else {
        decimal(n / 10).push(digit_char(n % 10))
    }
}

/// `s` with zeros put in front until it is at least `w` long.
pub open spec fn zero_padded(s: Seq<char>, w: nat) -> Seq<char> {
    if s.len() >= w {
        s
    } else {
        Seq::new((w - s.len()) as nat, |_i: int| '0') + s
    }
}

/// The part that all invoice numbers of a year share: `INV-{year}-`.
pub open spec fn number_prefix(year: Seq<char>) -> Seq<char> {
    "INV-"@ + year + "-"@
}

/// The invoice number of `year` with sequence number `seq`, written with at
/// least three digits.
pub open spec fn number_text(year: Seq<char>, seq: nat) -> Seq<char> {
    number_prefix(year) + zero_padded(decimal(seq), 3)
}

/// How many of `numbers` begin with `p`.
pub open spec fn count_with_prefix(numbers: Seq<String>, p: Seq<char>) -> nat
    decreases numbers.len(),
{
    if numbers.len() == 0 {
        0
    } else {
        count_with_prefix(numbers.drop_last(), p) + if is_prefix(p, numbers.last()@) {
            1nat
        } else {
            0nat
        }
    }
}

/// The next invoice number of `year`: one more than the number of existing
/// invoice numbers of that year.
pub open spec fn next_number(year: Seq<char>, numbers: Seq<String>) -> Seq<char> {
    number_text(year, count_with_prefix(numbers, number_prefix(year)) + 1)
}

proof fn lemma_decimal_len(n: nat)
    ensures
        n < 10 ==> decimal(n).len() == 1,
        10 <= n < 100 ==> decimal(n).len() == 2,
        100 <= n ==> decimal(n).len() >= 3,
    decreases n,
{
    if n >= 10 {
        lemma_decimal_len(n / 10);
    }
}

fn digit_str(d: u128) -> (r: &'static str)
    requires
        d < 10,
    ensures
        r@ == seq![digit_char(d as nat)],
{
    proof {
        reveal_strlit("0");
        reveal_strlit("1");
        reveal_strlit("2");
        reveal_strlit("3");
        reveal_strlit("4");
        reveal_strlit("5");
        reveal_strlit("6");
        reveal_strlit("7");
        reveal_strlit("8");
        reveal_strlit("9");
    }
    let r = if d == 0 {
        "0"
    } else if d == 1 {
        "1"
    } else if d == 2 {
        "2"
    } else if d == 3 {
        "3"
    } else if d == 4 {
        "4"
    } else if d == 5 {
        "5"
    } else if d == 6 {
        "6"
    } else if d == 7 {
        "7"
    } else if d == 8 {
        "8"
    } else {
        "9"
    };
    assert(r@ =~= seq![digit_char(d as nat)]);
    r
}

fn push_decimal(out: &mut String, n: u128)
    ensures
        final(out)@ == old(out)@ + decimal(n as nat),
    decreases n,
{
    if n >= 10 {
        push_decimal(out, n / 10);
    }
    out.append(digit_str(n % 10));
    proof {
        if n >= 10 {
            assert(old(out)@ + decimal((n / 10) as nat) + seq![digit_char((n % 10) as nat)]
                =~= old(out)@ + decimal(n as nat));
        } else {
            assert(old(out)@ + seq![digit_char((n % 10) as nat)] =~= old(out)@ + decimal(n as nat));
        }
    }
}

/// `n` in decimal with at least three digits, as in `007`.
pub fn sequence_text(n: u128) -> (r: String)
    ensures
        r@ == zero_padded(decimal(n as nat), 3),
{
    proof {
        lemma_decimal_len(n as nat);
        reveal_strlit("00");
        reveal_strlit("0");
    }
    let mut out = String::new();
    if n < 10 {
        out.append("00");
    } else if n < 100 {
        out.append("0");
    }
    push_decimal(&mut out, n);
    proof {
        let d = decimal(n as nat);
        if n < 10 {
            assert(out@ =~= zero_padded(d, 3));
        } else if n < 100 {
            assert(out@ =~= zero_padded(d, 3));
        } else {
            assert(out@ =~= zero_padded(d, 3));
        }
    }
    out
}

/// `n` hundredths written with two decimals, as money is shown: `1234`
/// becomes `12.34`.
pub open spec fn two_decimals(n: nat) -> Seq<char> {
    decimal(n / 100) + seq!['.'] + zero_padded(decimal(n % 100), 2)
}

/// `n` hundredths (cents of money, hundredths of a quantity) written with
/// two decimals.
pub fn format_two_decimals(n: u64) -> (r: String)
    ensures
        r@ == two_decimals(n as nat),
{
    proof {
        lemma_decimal_len((n % 100) as nat);
        reveal_strlit(".");
        reveal_strlit("0");
    }
    let mut out = String::new();
    push_decimal(&mut out, (n / 100) as u128);
    out.append(".");
    let cents = n % 100;
    if cents < 10 {
        out.append("0");
    }
    push_decimal(&mut out, cents as u128);
    proof {
        let d = decimal(cents as nat);
        assert(zero_padded(d, 2) =~= if cents < 10 { seq!['0'] + d } else { d });
        assert(out@ =~= two_decimals(n as nat));
    }
    out
}

/// The prefix that all invoice numbers of `year` share.
pub fn invoice_number_prefix(year: &str) -> (r: String)
    ensures
        r@ == number_prefix(year@),
{
    let mut out = String::new();
    out.append("INV-");
    out.append(year);
    out.append("-");
    proof {
        assert(out@ =~= number_prefix(year@));
    }
    out
}

/// How many of `numbers` begin with `prefix`.
pub fn count_numbers_with_prefix(numbers: &Vec<String>, prefix: &str) -> (r: usize)
    ensures
        r == count_with_prefix(numbers@, prefix@),
{
    let mut count: usize = 0;
    let mut i: usize = 0;
    while i < numbers.len()
        invariant
            i <= numbers@.len(),
            count == count_with_prefix(numbers@.take(i as int), prefix@),
            count <= i,
        decreases numbers@.len() - i,
    {
        proof {
            assert(numbers@.take(i + 1).drop_last() == numbers@.take(i as int));
        }
        if starts_with(numbers[i].as_str(), prefix) {
            count = count + 1;
        }
        i = i + 1;
    }
    assert(numbers@.take(i as int) == numbers@);
    count
}

/// The next invoice number of `year`, given the invoice numbers that exist:
/// `INV-{year}-{seq}` where `seq` is one more than the number of existing
/// numbers of that year, written with at least three digits.
pub fn invoice_number_for(year: &str, numbers: &Vec<String>) -> (r: String)
    ensures
        r@ == next_number(year@, numbers@),
{
    let prefix = invoice_number_prefix(year);
    let count = count_numbers_with_prefix(numbers, prefix.as_str());
    let seq = sequence_text(count as u128 + 1);
    let mut out = prefix;
    out.append(seq.as_str());
    out
}

proof fn lemma_prefix_of_number(year: Seq<char>, seq: nat)
    ensures
        is_prefix(number_prefix(year), number_text(year, seq)),
{
    let p = number_prefix(year);
    assert(number_text(year, seq).subrange(0, p.len() as int) =~= p);
}

/// Numbering counts the numbers of the year: with no number of year `y` yet
/// the next is `INV-{y}-001`; once that one exists the next is
/// `INV-{y}-002`; and a number of another year changes nothing.
pub proof fn lemma_numbering_sequence(
    year: Seq<char>,
    numbers: Seq<String>,
    first: String,
    other: String,
)
    requires
        count_with_prefix(numbers, number_prefix(year)) == 0,
        first@ == next_number(year, numbers),
    ensures
        next_number(year, numbers) == number_prefix(year) + seq!['0', '0', '1'],
        next_number(year, numbers.push(first)) == number_prefix(year) + seq!['0', '0', '2'],
        !is_prefix(number_prefix(year), other@) ==> next_number(year, numbers.push(other))
            == next_number(year, numbers),
{
    let p = number_prefix(year);
    assert(decimal(1) == seq!['1']);
    assert(decimal(2) == seq!['2']);
    assert(zero_padded(seq!['1'], 3) =~= seq!['0', '0', '1']);
    assert(zero_padded(seq!['2'], 3) =~= seq!['0', '0', '2']);
    lemma_prefix_of_number(year, 1);
    assert(numbers.push(first).drop_last() == numbers);
    assert(numbers.push(other).drop_last() == numbers);
}

/// The next invoice number of the current calendar year.
pub fn generate_invoice_number(numbers: &Vec<String>) -> (r: String)
    ensures
        exists|year: Seq<char>| r@ == #[trigger] next_number(year, numbers@),
{
    let year = current_year_text();
    invoice_number_for(year.as_str(), numbers)
}

} // verus!
