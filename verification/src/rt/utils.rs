//! Small parsing helpers.
use vstd::prelude::*;
use vstd::string::*;
use vstd::arithmetic::div_mod::lemma_fundamental_div_mod;

verus! {

/// The value of the ASCII hexadecimal digit `c`, of either case.
pub open spec fn hex_digit_value(c: u8) -> Option<int> {
    if 0x30 <= c <= 0x39 {
        Some(c - 0x30)
    } else if 0x61 <= c <= 0x66 {
        Some(c - 0x61 + 10)
    } else if 0x41 <= c <= 0x46 {
        Some(c - 0x41 + 10)
    } else {
        None
    }
}

/// Every byte of `bytes` is a hexadecimal digit.
pub open spec fn all_hex_digits(bytes: Seq<u8>) -> bool {
    forall|i: int| 0 <= i < bytes.len() ==> hex_digit_value(#[trigger] bytes[i]) is Some
}

/// The number that the hexadecimal digits `bytes` write, most significant
/// first (the empty sequence writes 0).
pub open spec fn hex_value(bytes: Seq<u8>) -> int
    decreases bytes.len(),
{
    if bytes.len() == 0 {
        0
    } else {
        hex_value(bytes.drop_last()) * 16 + match hex_digit_value(bytes.last()) {
            Some(d) => d,
            None => 0,
        }
    }
}

/// Appending hexadecimal digits never makes the number smaller.
proof fn lemma_hex_value_grows(bytes: Seq<u8>, k: int, j: int)
    requires
        0 <= k <= j <= bytes.len(),
        all_hex_digits(bytes.take(j)),
    ensures
        hex_value(bytes.take(k)) <= hex_value(bytes.take(j)),
        0 <= hex_value(bytes.take(k)),
    decreases j - k,
{
    if k < j {
        lemma_hex_value_grows(bytes, k, j - 1);
        assert(bytes.take(j).drop_last() =~= bytes.take(j - 1));
        assert(bytes.take(j)[j - 1] == bytes[j - 1]);
        assert(all_hex_digits(bytes.take(j - 1))) by {
            assert forall|i: int| 0 <= i < j - 1 implies hex_digit_value(
                #[trigger] bytes.take(j - 1)[i],
            ) is Some by {
                assert(bytes.take(j - 1)[i] == bytes.take(j)[i]);
            }
        }
        lemma_hex_value_grows(bytes, k, j - 1);
    } else {
        lemma_hex_value_nonneg(bytes.take(k));
    }
}

proof fn lemma_hex_value_nonneg(bytes: Seq<u8>)
    ensures
        0 <= hex_value(bytes),
    decreases bytes.len(),
{
    if bytes.len() > 0 {
        lemma_hex_value_nonneg(bytes.drop_last());
    }
}

/// `hex_digit_value` reads exactly the characters `0`-`9`, `a`-`f` and
/// `A`-`F`: the `k`-th character after `'0'` (below ten) is worth `k`, and
/// the `k`-th after `'a'` or `'A'` (below six) is worth `10 + k`; any other
/// byte `c` is no digit.
pub proof fn lemma_hex_digit_values(c: u8, k: int)
    ensures
        0 <= k < 10 ==> hex_digit_value((('0' as int) + k) as u8) == Some(k),
        0 <= k < 6 ==> hex_digit_value((('a' as int) + k) as u8) == Some(10 + k),
        0 <= k < 6 ==> hex_digit_value((('A' as int) + k) as u8) == Some(10 + k),
        hex_digit_value(c) is Some <==> {
            ||| ('0' as int) <= c <= ('9' as int)
            ||| ('a' as int) <= c <= ('f' as int)
            ||| ('A' as int) <= c <= ('F' as int)
        },
{
}

/// The lowercase hexadecimal digit of `d` (below 16), as an ASCII byte.
pub open spec fn hex_digit_byte(d: int) -> u8 {
    if d < 10 {
        (('0' as int) + d) as u8
    } else {
        (('a' as int) + d - 10) as u8
    }
}

/// The lowercase hexadecimal text of `n`, most significant digit first,
/// without leading zeros.
pub open spec fn hex_text(n: nat) -> Seq<u8>
    decreases n,
{
    if n < 16 {
        seq![hex_digit_byte(n as int)]
    } else {
        hex_text(n / 16) + seq![hex_digit_byte((n % 16) as int)]
    }
}

/// The hexadecimal text of any number is made of digits and reads back as
/// that number; so `parse_hex_u16` gives back every `u16` from its text.
pub proof fn lemma_hex_text_round_trip(n: nat)
    ensures
        all_hex_digits(hex_text(n)),
        hex_value(hex_text(n)) == n,
        n <= 0xFFFF ==> (if all_hex_digits(hex_text(n)) && hex_value(hex_text(n)) <= 0xFFFF {
            Some(hex_value(hex_text(n)) as u16)
        } else {
            None::<u16>
        }) == Some(n as u16),
    decreases n,
{
    let t = hex_text(n);
    if n < 16 {
        assert(t.drop_last() =~= Seq::<u8>::empty());
        assert(hex_digit_value(t[0]) == Some(n as int));
        assert(hex_value(t) == hex_value(t.drop_last()) * 16 + n);
        assert(all_hex_digits(t));
    } else {
        lemma_hex_text_round_trip(n / 16);
        let h = hex_text(n / 16);
        assert(t.drop_last() =~= h);
        assert(t.last() == hex_digit_byte((n % 16) as int));
        assert(hex_digit_value(t.last()) == Some((n % 16) as int));
        assert forall|i: int| 0 <= i < t.len() implies hex_digit_value(#[trigger] t[i]) is Some by {
            if i < h.len() {
                assert(t[i] == h[i]);
            }
        }
        assert(n == (n / 16) * 16 + n % 16) by {
            lemma_fundamental_div_mod(n as int, 16);
        }
        assert(hex_value(t) == hex_value(h) * 16 + (n % 16) as int);
    }
}

/// Parses a hexadecimal number of at most 16 bits, digits of either case,
/// no prefix and no sign. The empty string parses as 0; a string with any
/// other byte than a digit, or whose value does not fit in 16 bits, gives
/// `None`.
#[must_use]
pub fn parse_hex_u16(s: &str) -> (r: Option<u16>)
    ensures
        r == (if all_hex_digits(s.spec_bytes()) && hex_value(s.spec_bytes()) <= 0xFFFF {
            Some(hex_value(s.spec_bytes()) as u16)
        } else {
            None::<u16>
        }),
{
    let bytes = s.as_bytes();
    let ghost b = bytes@;
    let mut value: u16 = 0;
    let mut i: usize = 0;
    assert(b.take(0) =~= Seq::<u8>::empty());
    while i < bytes.len()
        invariant
            b == s.spec_bytes(),
            b == bytes@,
            0 <= i <= b.len(),
            all_hex_digits(b.take(i as int)),
            value == hex_value(b.take(i as int)),
        decreases b.len() - i,
    {
        let c = bytes[i];
        // '0'..='9' are 0x30..=0x39, 'a'..='f' 0x61..=0x66, 'A'..='F' 0x41..=0x46.
        let digit: u8 = if 0x30 <= c && c <= 0x39 {
            c - 0x30
        } else if 0x61 <= c && c <= 0x66 {
            c - 0x61 + 10
        } else if 0x41 <= c && c <= 0x46 {
            c - 0x41 + 10
        } else {
            assert(!all_hex_digits(b));
            return None;
        };
        proof {
            assert(b.take(i + 1).drop_last() =~= b.take(i as int));
            assert(b.take(i + 1)[i as int] == c);
            assert(all_hex_digits(b.take(i + 1))) by {
                assert forall|k: int| 0 <= k < i + 1 implies hex_digit_value(
                    #[trigger] b.take(i + 1)[k],
                ) is Some by {
                    if k < i {
                        assert(b.take(i + 1)[k] == b.take(i as int)[k]);
                    }
                }
            }
            assert(hex_value(b.take(i + 1)) == value * 16 + digit);
            if all_hex_digits(b) {
                assert(b.take(b.len() as int) =~= b);
                lemma_hex_value_grows(b, i + 1, b.len() as int);
            }
        }
        let shifted = match value.checked_mul(16) {
            Some(v) => v,
            None => {
                return None;
            },
        };
        value = match shifted.checked_add(digit as u16) {
            Some(v) => v,
            None => {
                return None;
            },
        };
        i = i + 1;
    }
    assert(b.take(b.len() as int) =~= b);
    Some(value)
}

} // verus!
