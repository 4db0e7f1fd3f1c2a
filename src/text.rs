//! Building SQL text: joined lists and decimal numerals.
use vstd::prelude::*;

verus! {

/// The items of `s`, in order, with `sep` between neighbours.
pub open spec fn join(s: Seq<Seq<char>>, sep: Seq<char>) -> Seq<char>
    decreases s.len(),
{
    if s.len() == 0 {
        Seq::empty()
    } else if s.len() == 1 {
        s[0]
    } else {
        join(s.drop_last(), sep) + sep + s.last()
    }
}

/// The views of a vector of strings.
pub open spec fn views(v: Seq<String>) -> Seq<Seq<char>> {
    v.map_values(|x: String| x@)
}

/// `n` placeholders separated by commas.
pub open spec fn placeholders(n: nat) -> Seq<char> {
    join(Seq::new(n, |i: int| "?"@), ", "@)
}

/// The numeral of one decimal digit.
pub open spec fn digit(d: nat) -> Seq<char> {
    if d == 0 {
        "0"@
    } else if d == 1 {
        "1"@
    } else if d == 2 {
        "2"@
    } else if d == 3 {
        "3"@
    } else if d == 4 {
        "4"@
    } else if d == 5 {
        "5"@
    } else if d == 6 {
        "6"@
    } else if d == 7 {
        "7"@
    } else if d == 8 {
        "8"@
    } else {
        "9"@
    }
}

/// The decimal numeral of `n`, without leading zeros.
pub open spec fn decimal(n: nat) -> Seq<char>
    decreases n,
{
    if n < 10 {
        digit(n)
    } else {
        decimal(n / 10) + digit(n % 10)
    }
}

/// The decimal numeral of `n`, with a minus sign when it is negative.
pub open spec fn signed_decimal(n: int) -> Seq<char> {
    if n < 0 {
        "-"@ + decimal((-n) as nat)
    } else {
        decimal(n as nat)
    }
}

fn digit_str(d: u64) -> (r: &'static str)
    requires
        d < 10,
    ensures
        r@ == digit(d as nat),
{
    if d == 0 {
        "0"
    } else if d == 1 {
        "1"
    } else if d == 2 {
        "2"
    } else if d == 3 {
        "3"
    } else if d == 4 {
        "4"
    } else if d == 5 {
        "5"
    } else if d == 6 {
        "6"
    } else if d == 7 {
        "7"
    } else if d == 8 {
        "8"
    } else {
        "9"
    }
}

/// Appends the decimal numeral of `n`.
pub fn push_unsigned(text: &mut String, n: u64)
    ensures
        final(text)@ == old(text)@ + decimal(n as nat),
{
    let mut m: u64 = n;
    let mut acc = String::new();
    while m >= 10
        invariant
            decimal(n as nat) == decimal(m as nat) + acc@,
        decreases m,
    {
        let tail = String::from_str(digit_str(m % 10));
        acc = tail.concat(acc.as_str());
        m = m / 10;
    }
    let head = String::from_str(digit_str(m));
    acc = head.concat(acc.as_str());
    assert(acc@ =~= decimal(n as nat));
    text.append(acc.as_str());
}

/// Appends the decimal numeral of `n`, signed.
pub fn push_signed(text: &mut String, n: i64)
    ensures
        final(text)@ == old(text)@ + signed_decimal(n as int),
{
    if n < 0 {
        text.append("-");
        let m: u64 = ((-(n + 1)) as u64) + 1;
        assert(m as int == -(n as int));
        push_unsigned(text, m);
        assert(final(text)@ =~= old(text)@ + signed_decimal(n as int));
    } else {
        push_unsigned(text, n as u64);
    }
}

/// Appends the strings of `items` with `sep` between neighbours.
pub fn push_joined(text: &mut String, items: &Vec<String>, sep: &str)
    ensures
        final(text)@ == old(text)@ + join(views(items@), sep@),
{
    let ghost start = text@;
    let mut i: usize = 0;
    while i < items.len()
        invariant
            0 <= i <= items@.len(),
            text@ == start + join(views(items@).take(i as int), sep@),
        decreases items@.len() - i,
    {
        assert(views(items@).take(i + 1).drop_last() =~= views(items@).take(i as int));
        if i > 0 {
            text.append(sep);
        }
        text.append(items[i].as_str());
        assert(text@ =~= start + join(views(items@).take(i + 1), sep@)) by {
            if i == 0 {
                assert(views(items@).take(i as int) =~= Seq::<Seq<char>>::empty());
            }
        }
        i = i + 1;
    }
    assert(views(items@).take(i as int) =~= views(items@));
}

/// Appends `n` placeholders separated by commas.
pub fn push_placeholders(text: &mut String, n: usize)
    ensures
        final(text)@ == old(text)@ + placeholders(n as nat),
{
    let ghost start = text@;
    let ghost all = Seq::new(n as nat, |i: int| "?"@);
    let mut i: usize = 0;
    while i < n
        invariant
            0 <= i <= n,
            all == Seq::new(n as nat, |i: int| "?"@),
            text@ == start + join(all.take(i as int), ", "@),
        decreases n - i,
    {
        assert(all.take(i + 1).drop_last() =~= all.take(i as int));
        if i > 0 {
            text.append(", ");
        }
        text.append("?");
        assert(text@ =~= start + join(all.take(i + 1), ", "@)) by {
            if i == 0 {
                assert(all.take(i as int) =~= Seq::<Seq<char>>::empty());
            }
        }
        i = i + 1;
    }
    assert(all.take(i as int) =~= all);
}

} // verus!
