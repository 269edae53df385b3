//! Numbers as text: decimal, and upper-case hexadecimal padded with
//! zeros, as the CPU status dump writes them.

use vstd::prelude::*;

verus! {

/// The digit of `d < 16`: `0`-`9`, then upper-case `A`-`F`.
pub open spec fn digit_char(d: nat) -> char {
    if d < 10 {
        (48 + d) as char
    } else {
        (55 + d) as char
    }
}

/// `n` in base `base` (2 to 16), most significant digit first, without
/// leading zeros (`0` for zero).
pub open spec fn digits_text(n: nat, base: nat) -> Seq<char>
    recommends
        2 <= base <= 16,
    decreases n,
{
    if n < base || base < 2 {
        seq![digit_char(n % 16)]
    } else {
        proof {
            assert(n / base < n) by (nonlinear_arith)
                requires
                    n >= base,
                    base >= 2,
            ;
        }
        digits_text(n / base, base).push(digit_char(n % base))
    }
}

/// `s` padded on the left with `0` up to `width` characters.
pub open spec fn zero_padded(s: Seq<char>, width: nat) -> Seq<char> {
    if s.len() < width {
        Seq::new((width - s.len()) as nat, |i: int| '0') + s
    } else {
        s
    }
}

/// The digit of `d < 16` as text.
fn digit_str(d: u64) -> (s: &'static str)
    requires
        d < 16,
    ensures
        s@ == seq![digit_char(d as nat)],
{
    match d {
        0 => {
            proof {
                reveal_strlit("0");
            }
            "0"
        },
        1 => {
            proof {
                reveal_strlit("1");
            }
            "1"
        },
        2 => {
            proof {
                reveal_strlit("2");
            }
            "2"
        },
        3 => {
            proof {
                reveal_strlit("3");
            }
            "3"
        },
        4 => {
            proof {
                reveal_strlit("4");
            }
            "4"
        },
        5 => {
            proof {
                reveal_strlit("5");
            }
            "5"
        },
        6 => {
            proof {
                reveal_strlit("6");
            }
            "6"
        },
        7 => {
            proof {
                reveal_strlit("7");
            }
            "7"
        },
        8 => {
            proof {
                reveal_strlit("8");
            }
            "8"
        },
        9 => {
            proof {
                reveal_strlit("9");
            }
            "9"
        },
        10 => {
            proof {
                reveal_strlit("A");
            }
            "A"
        },
        11 => {
            proof {
                reveal_strlit("B");
            }
            "B"
        },
        12 => {
            proof {
                reveal_strlit("C");
            }
            "C"
        },
        13 => {
            proof {
                reveal_strlit("D");
            }
            "D"
        },
        14 => {
            proof {
                reveal_strlit("E");
            }
            "E"
        },
        _ => {
            proof {
                reveal_strlit("F");
            }
            "F"
        },
    }
}

/// Appends `n` in base `base` to `s`.
pub(crate) fn push_digits(s: &mut String, n: u64, base: u64)
    requires
        2 <= base <= 16,
    ensures
        final(s)@ == old(s)@ + digits_text(n as nat, base as nat),
    decreases n,
{
    if n < base {
        s.append(digit_str(n));
        assert(digits_text(n as nat, base as nat) == seq![digit_char((n % 16) as nat)]);
    } else {
        assert(n / base < n) by (nonlinear_arith)
            requires
                n >= base,
                base >= 2,
        ;
        push_digits(s, n / base, base);
        s.append(digit_str(n % base));
        assert(old(s)@ + digits_text(n as nat, base as nat) =~= old(s)@ + digits_text((n / base) as nat, base as nat)
            + seq![digit_char((n % base) as nat)]);
    }
}

/// Appends `n` in base `base` to `s`, padded on the left with `0` up to
/// `width` digits.
pub(crate) fn push_padded_digits(s: &mut String, n: u64, base: u64, width: usize)
    requires
        2 <= base <= 16,
    ensures
        final(s)@ == old(s)@ + zero_padded(digits_text(n as nat, base as nat), width as nat),
{
    let mut t = String::new();
    push_digits(&mut t, n, base);
    let len = t.as_str().unicode_len();
    let mut k: usize = 0;
    while k < width && len < width - k
        invariant
            2 <= base <= 16,
            t@ == digits_text(n as nat, base as nat),
            len == t@.len(),
            len >= width ==> k == 0,
            k <= width,
            len < width ==> k + len <= width,
            s@ == old(s)@ + Seq::new(k as nat, |i: int| '0'),
        decreases width - k,
    {
        proof {
            reveal_strlit("0");
        }
        s.append("0");
        k = k + 1;
        assert(s@ =~= old(s)@ + Seq::new(k as nat, |i: int| '0'));
    }
    s.append(t.as_str());
    if len < width {
        assert(k + len == width);
    } else {
        assert(k == 0);
    }
    assert(s@ =~= old(s)@ + zero_padded(digits_text(n as nat, base as nat), width as nat));
}

/// `n` in decimal.
pub fn decimal_string(n: u64) -> (s: String)
    ensures
        s@ == digits_text(n as nat, 10),
{
    let mut s = String::new();
    push_digits(&mut s, n, 10);
    s
}

/// The value of digit character `c` (`0`-`9`, `A`-`F`).
pub open spec fn char_value(c: char) -> int {
    if (c as int) < 65 {
        c as int - 48
    } else {
        c as int - 55
    }
}

/// The number that the digits `s` write in base `base`, most significant
/// first.
pub open spec fn digits_value(s: Seq<char>, base: nat) -> int
    decreases s.len(),
{
    if s.len() == 0 {
        0
    } else {
        digits_value(s.drop_last(), base) * base + char_value(s.last())
    }
}

/// A digit character reads back as its value.
proof fn lemma_digit_char(d: nat)
    requires
        d < 16,
    ensures
        char_value(digit_char(d)) == d,
        '0' <= digit_char(d) <= '9' || 'A' <= digit_char(d) <= 'F',
{
}

/// The digits of `n` in base `base` read back as `n`: each is a digit
/// below the base (`0`-`9`, then upper-case `A`-`F`), and the first is not
/// `0` unless `n` is zero.
pub proof fn lemma_digits_read_back(n: nat, base: nat)
    requires
        2 <= base <= 16,
    ensures
        digits_value(digits_text(n, base), base) == n,
        forall|i: int|
            0 <= i < digits_text(n, base).len() ==> {
                let c = #[trigger] digits_text(n, base)[i];
                &&& ('0' <= c <= '9' || 'A' <= c <= 'F')
                &&& 0 <= char_value(c) < base
            },
        n > 0 ==> digits_text(n, base)[0] != '0',
    decreases n,
{
    if n < base {
        lemma_digit_char(n);
        let t = digits_text(n, base);
        assert(t == seq![digit_char(n)]);
        assert(t.drop_last() =~= Seq::<char>::empty());
        assert(digits_value(t, base) == digits_value(t.drop_last(), base) * base + char_value(t.last()));
    } else {
        assert(n / base < n) by (nonlinear_arith)
            requires
                n >= base,
                base >= 2,
        ;
        lemma_digits_read_back(n / base, base);
        assert(n % base < base) by (nonlinear_arith)
            requires
                base > 0,
        ;
        lemma_digit_char(n % base);
        let t = digits_text(n, base);
        assert(t == digits_text(n / base, base).push(digit_char(n % base)));
        assert(t.drop_last() =~= digits_text(n / base, base));
        assert(t.last() == digit_char(n % base));
        assert(digits_value(t, base) == digits_value(t.drop_last(), base) * base + char_value(t.last()));
        assert(n == (n / base) * base + n % base) by (nonlinear_arith)
            requires
                base > 0,
        ;
        assert(n / base > 0) by (nonlinear_arith)
            requires
                n >= base,
                base > 0,
        ;
        assert forall|i: int| 0 <= i < t.len() implies {
            let c = #[trigger] t[i];
            &&& ('0' <= c <= '9' || 'A' <= c <= 'F')
            &&& 0 <= char_value(c) < base
        } by {
            if i < t.len() - 1 {
                assert(t[i] == digits_text(n / base, base)[i]);
            }
        }
    }
}

proof fn lemma_zeros_value(k: nat, base: nat)
    ensures
        digits_value(Seq::new(k, |i: int| '0'), base) == 0,
    decreases k,
{
    if k > 0 {
        assert(Seq::new(k, |i: int| '0').drop_last() =~= Seq::new((k - 1) as nat, |i: int| '0'));
        lemma_zeros_value((k - 1) as nat, base);
    }
}

proof fn lemma_leading_zeros_value(k: nat, s: Seq<char>, base: nat)
    ensures
        digits_value(Seq::new(k, |i: int| '0') + s, base) == digits_value(s, base),
    decreases s.len(),
{
    let z = Seq::new(k, |i: int| '0');
    if s.len() == 0 {
        assert(z + s =~= z);
        lemma_zeros_value(k, base);
    } else {
        assert((z + s).drop_last() =~= z + s.drop_last());
        assert((z + s).last() == s.last());
        lemma_leading_zeros_value(k, s.drop_last(), base);
    }
}

/// Padding with zeros keeps the number that the digits write and gives
/// at least `width` digits, the original digits last.
pub proof fn lemma_zero_padding(s: Seq<char>, width: nat, base: nat)
    ensures
        digits_value(zero_padded(s, width), base) == digits_value(s, base),
        zero_padded(s, width).len() == if s.len() < width {
            width
        } else {
            s.len()
        },
        zero_padded(s, width).subrange(zero_padded(s, width).len() - s.len(), zero_padded(s, width).len() as int)
            == s,
        forall|i: int| 0 <= i < zero_padded(s, width).len() - s.len() ==> #[trigger] zero_padded(s, width)[i] == '0',
{
    if s.len() < width {
        lemma_leading_zeros_value((width - s.len()) as nat, s, base);
        assert(zero_padded(s, width).subrange(width - s.len(), width as int) =~= s);
    } else {
        assert(s.subrange(0, s.len() as int) =~= s);
    }
}

} // verus!
