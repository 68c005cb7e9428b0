//! Decimal text of unsigned numbers.
use vstd::prelude::*;

verus! {

/// The character of a decimal digit.
pub open spec fn digit_char(d: nat) -> char
    recommends
        d < 10,
{
    (48 + d) as char
}

/// The decimal text of `n`: its digits, most significant first, with no
/// leading zero (zero itself is "0").
pub open spec fn decimal_text(n: nat) -> Seq<char>
    decreases n,
{
    if n < 10 {
        seq![digit_char(n)]
    } else {
        decimal_text(n / 10).push(digit_char(n % 10))
    }
}

/// The number a text of decimal digits denotes, most significant first.
pub open spec fn decimal_value(text: Seq<char>) -> int
    decreases text.len(),
{
    if text.len() == 0 {
        0
    } else {
        decimal_value(text.drop_last()) * 10 + (text.last() as int - 48)
    }
}

/// The decimal text of `n` is made of the digits '0' to '9', denotes `n`,
/// and starts with '0' only when `n` is zero.
pub proof fn lemma_decimal_text_denotes(n: nat)
    ensures
        decimal_text(n).len() >= 1,
        forall|i: int|
            0 <= i < decimal_text(n).len() ==> '0' <= #[trigger] decimal_text(n)[i] <= '9',
        decimal_value(decimal_text(n)) == n,
        n > 0 ==> decimal_text(n)[0] != '0',
    decreases n,
{
    if n < 10 {
        let t = decimal_text(n);
        assert(t == seq![digit_char(n)]);
        assert(t.drop_last() == Seq::<char>::empty());
        assert(digit_char(n) as int == 48 + n);
        assert(decimal_value(t.drop_last()) == 0);
        assert(decimal_value(t) == decimal_value(t.drop_last()) * 10 + (t.last() as int - 48));
    } else {
        lemma_decimal_text_denotes(n / 10);
        let t = decimal_text(n);
        let prefix = decimal_text(n / 10);
        assert(t == prefix.push(digit_char(n % 10)));
        assert(t.drop_last() == prefix);
        assert(digit_char(n % 10) as int == 48 + n % 10);
        assert(n == (n / 10) * 10 + n % 10);
        assert(decimal_value(t) == decimal_value(t.drop_last()) * 10 + (t.last() as int - 48));
        assert forall|i: int| 0 <= i < t.len() implies '0' <= #[trigger] t[i] <= '9' by {
            if i < prefix.len() {
                assert(t[i] == prefix[i]);
            }
        }
        assert(t[0] == prefix[0]);
    }
}

/// The text of one decimal digit.
fn digit_str(d: u64) -> (s: &'static str)
    requires
        d < 10,
    ensures
        s@ == seq![digit_char(d as nat)],
{
    if d == 0 {
        proof {
            reveal_strlit("0");
        }
        "0"
    } else if d == 1 {
        proof {
            reveal_strlit("1");
        }
        "1"
    } else if d == 2 {
        proof {
            reveal_strlit("2");
        }
        "2"
    } else if d == 3 {
        proof {
            reveal_strlit("3");
        }
        "3"
    } else if d == 4 {
        proof {
            reveal_strlit("4");
        }
        "4"
    } else if d == 5 {
        proof {
            reveal_strlit("5");
        }
        "5"
    } else if d == 6 {
        proof {
            reveal_strlit("6");
        }
        "6"
    } else if d == 7 {
        proof {
            reveal_strlit("7");
        }
        "7"
    } else if d == 8 {
        proof {
            reveal_strlit("8");
        }
        "8"
    } else {
        proof {
            reveal_strlit("9");
        }
        "9"
    }
}

/// Appends the decimal text of `n` to `text`.
pub fn push_decimal(text: &mut String, n: u64)
    ensures
        final(text)@ == old(text)@ + decimal_text(n as nat),
    decreases n,
{
    if n >= 10 {
        push_decimal(text, n / 10);
    }
    let digit: &str = digit_str(n % 10);
    text.append(digit);
    assert(decimal_text(n as nat) == if n < 10 {
        seq![digit_char(n as nat)]
    } else {
        decimal_text((n / 10) as nat).push(digit_char((n % 10) as nat))
    });
}

} // verus!
