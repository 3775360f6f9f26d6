//! Decimal spellings of unsigned integers, plain and zero-padded, as the
//! timestamps and refusal messages write them.
use vstd::prelude::*;

verus! {

/// The decimal digit characters.
pub open spec fn digit_chars() -> Seq<char> {
    seq!['0', '1', '2', '3', '4', '5', '6', '7', '8', '9']
}

/// The decimal spelling of `n`, without leading zeros.
pub open spec fn decimal(n: nat) -> Seq<char>
    decreases n,
{
    if n < 10 {
        seq![digit_chars()[n as int]]
    } else {
        decimal(n / 10).push(digit_chars()[(n % 10) as int])
    }
}

/// The decimal spelling of `n`, zero-padded on the left to at least `width`
/// characters.
pub open spec fn padded(n: nat, width: nat) -> Seq<char> {
    let k = if decimal(n).len() < width {
        (width - decimal(n).len()) as nat
    } else {
        0
    };
    Seq::new(k, |i: int| '0') + decimal(n)
}

/// The decimal text of a number has one digit below ten, two below a hundred,
/// three below a thousand, and at least four from there on.
pub proof fn lemma_decimal_len(n: nat)
    ensures
        n < 10 ==> decimal(n).len() == 1,
        10 <= n < 100 ==> decimal(n).len() == 2,
        100 <= n < 1000 ==> decimal(n).len() == 3,
        1000 <= n ==> decimal(n).len() >= 4,
    decreases n,
{
    if n >= 10 {
        lemma_decimal_len(n / 10);
    }
}

/// The value of a digit character.
pub open spec fn digit_value(c: char) -> nat {
    if '0' <= c <= '9' {
        (c as int - '0' as int) as nat
    } else {
        0
    }
}

/// The number a string of decimal digits reads as, most significant first.
pub open spec fn decimal_value(s: Seq<char>) -> nat
    decreases s.len(),
{
    if s.len() == 0 {
        0
    } else {
        decimal_value(s.drop_last()) * 10 + digit_value(s.last())
    }
}

/// Each digit character is worth its place in the digit table.
pub proof fn lemma_digit_values()
    ensures
        forall|k: int| 0 <= k < 10 ==> #[trigger] digit_value(digit_chars()[k]) == k,
{
    assert(digit_value('0') == 0);
    assert(digit_value('1') == 1);
    assert(digit_value('2') == 2);
    assert(digit_value('3') == 3);
    assert(digit_value('4') == 4);
    assert(digit_value('5') == 5);
    assert(digit_value('6') == 6);
    assert(digit_value('7') == 7);
    assert(digit_value('8') == 8);
    assert(digit_value('9') == 9);
}

/// A decimal spelling reads back as its number.
pub proof fn lemma_decimal_value(n: nat)
    ensures
        decimal_value(decimal(n)) == n,
    decreases n,
{
    lemma_digit_values();
    if n < 10 {
        let d = seq![digit_chars()[n as int]];
        assert(d.drop_last() =~= Seq::<char>::empty());
        assert(digit_value(d.last()) == n);
        assert(decimal_value(d) == decimal_value(d.drop_last()) * 10 + digit_value(d.last()));
        assert(decimal(n) == d);
    } else {
        lemma_decimal_value(n / 10);
        let d = decimal(n / 10).push(digit_chars()[(n % 10) as int]);
        assert(d.drop_last() =~= decimal(n / 10));
        assert(digit_value(d.last()) == n % 10);
        assert(decimal_value(d) == decimal_value(d.drop_last()) * 10 + digit_value(d.last()));
        assert(decimal(n) == d);
        assert((n / 10) * 10 + n % 10 == n);
    }
}

/// Leading zeros change nothing of the value.
pub proof fn lemma_leading_zeros_value(k: nat, t: Seq<char>)
    ensures
        decimal_value(Seq::new(k, |i: int| '0') + t) == decimal_value(t),
    decreases t.len(),
{
    let z = Seq::new(k, |i: int| '0');
    if t.len() == 0 {
        assert(z + t =~= z);
        lemma_zeros_value(k);
    } else {
        lemma_leading_zeros_value(k, t.drop_last());
        assert((z + t).drop_last() =~= z + t.drop_last());
        assert((z + t).last() == t.last());
    }
}

/// A run of zeros reads as zero.
pub proof fn lemma_zeros_value(k: nat)
    ensures
        decimal_value(Seq::new(k, |i: int| '0')) == 0,
    decreases k,
{
    if k > 0 {
        lemma_zeros_value((k - 1) as nat);
        assert(Seq::new(k, |i: int| '0').drop_last() =~= Seq::new((k - 1) as nat, |i: int| '0'));
    }
}

/// A zero-padded spelling reads back as its number, and is as wide as the
/// width when the number's spelling fits in it.
pub proof fn lemma_padded(n: nat, width: nat)
    ensures
        decimal_value(padded(n, width)) == n,
        decimal(n).len() <= width ==> padded(n, width).len() == width,
{
    let k = if decimal(n).len() < width {
        (width - decimal(n).len()) as nat
    } else {
        0
    };
    lemma_leading_zeros_value(k, decimal(n));
    lemma_decimal_value(n);
}

/// Four digits spell the numbers from a thousand below ten thousand.
pub proof fn lemma_decimal_len_four(n: nat)
    requires
        1000 <= n < 10000,
    ensures
        decimal(n).len() == 4,
{
    lemma_decimal_len(n / 10);
}

/// Append the decimal spelling of `n`.
pub fn push_decimal(s: &mut String, n: u64)
    ensures
        final(s)@ == old(s)@ + decimal(n as nat),
    decreases n,
{
    if n >= 10 {
        push_decimal(s, n / 10);
    }
    let digits = "0123456789";
    proof {
        reveal_strlit("0123456789");
        assert(digits@ =~= digit_chars());
    }
    let d = (n % 10) as usize;
    s.append(digits.substring_char(d, d + 1));
    proof {
        assert(digits@.subrange(d as int, d + 1) =~= seq![digit_chars()[d as int]]);
        if n >= 10 {
            assert(old(s)@ + decimal((n / 10) as nat) + seq![digit_chars()[d as int]] =~= old(s)@
                + decimal(n as nat));
        } else {
            assert(decimal(n as nat) == seq![digit_chars()[n as int]]);
        }
    }
}

/// Append `n` zero-padded to `width` characters (at most four).
pub fn push_padded(s: &mut String, n: u64, width: u64)
    requires
        1 <= width <= 4,
    ensures
        final(s)@ == old(s)@ + padded(n as nat, width as nat),
{
    proof {
        lemma_decimal_len(n as nat);
    }
    let len: u64 = if n < 10 {
        1
    } else if n < 100 {
        2
    } else if n < 1000 {
        3
    } else {
        4
    };
    let ghost before = s@;
    let mut k: u64 = 0;
    let zeros: u64 = if len < width {
        width - len
    } else {
        0
    };
    while k < zeros
        invariant
            k <= zeros,
            s@ == before + Seq::new(k as nat, |i: int| '0'),
        decreases zeros - k,
    {
        s.append("0");
        proof {
            reveal_strlit("0");
            assert(before + Seq::new(k as nat, |i: int| '0') + "0"@ =~= before + Seq::new(
                (k + 1) as nat,
                |i: int| '0',
            ));
        }
        k = k + 1;
    }
    push_decimal(s, n);
    proof {
        assert(before + Seq::new(zeros as nat, |i: int| '0') + decimal(n as nat) =~= before + padded(
            n as nat,
            width as nat,
        ));
    }
}

} // verus!
