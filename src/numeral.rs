//! Integers written as text and read back from text, with the exact
//! spelling that the window inspector shows and accepts.
use vstd::prelude::*;

verus! {

/// The digits of bases up to sixteen, lowercase.
pub open spec fn digit_alphabet() -> Seq<char> {
    seq!['0', '1', '2', '3', '4', '5', '6', '7', '8', '9', 'a', 'b', 'c', 'd', 'e', 'f']
}

/// The digits of `n` in base `base`, most significant first, without leading zeros
/// (zero itself is one digit).
pub open spec fn digits_in_base(n: nat, base: nat) -> Seq<char>
    recommends
        2 <= base <= 16,
    decreases n,
    via digits_in_base_decreases
{
    if n < base || base < 2 {
        seq![digit_alphabet()[n as int]]
    } else {
        digits_in_base(n / base, base).push(digit_alphabet()[(n % base) as int])
    }
}

#[via_fn]
proof fn digits_in_base_decreases(n: nat, base: nat) {
    if !(n < base || base < 2) {
        assert(n / base < n) by (nonlinear_arith)
            requires
                base >= 2,
                n >= base,
        ;
    }
}

/// Decimal spelling of a signed integer: a `-` before the digits of a negative one.
pub open spec fn signed_decimal(v: int) -> Seq<char> {
    if v < 0 {
        seq!['-'] + digits_in_base((-v) as nat, 10)
    } else {
        digits_in_base(v as nat, 10)
    }
}

/// How an address is shown: `0x` and its lowercase hexadecimal digits.
pub open spec fn address_text(a: nat) -> Seq<char> {
    seq!['0', 'x'] + digits_in_base(a, 16)
}

/// Appends the digits of `n` in base `base` to `out`.
fn push_digits(out: &mut String, n: u64, base: u64)
    requires
        2 <= base <= 16,
    ensures
        final(out)@ == old(out)@ + digits_in_base(n as nat, base as nat),
    decreases n,
{
    if n >= base {
        assert(n / base < n) by (nonlinear_arith)
            requires
                base >= 2,
                n >= base,
        ;
        push_digits(out, n / base, base);
    }
    let d: usize = (n % base) as usize;
    let alphabet = "0123456789abcdef";
    proof {
        reveal_strlit("0123456789abcdef");
        assert(alphabet@ =~= digit_alphabet());
    }
    let digit = alphabet.substring_char(d, d + 1);
    proof {
        assert(digit@ =~= seq![digit_alphabet()[d as int]]);
    }
    out.append(digit);
    proof {
        if n >= base {
            assert(final(out)@ =~= old(out)@ + digits_in_base(n as nat, base as nat));
        }
    }
}

/// The decimal spelling of `v`, as `{}` writes an `i32`.
pub fn decimal_text(v: i32) -> (r: String)
    ensures
        r@ == signed_decimal(v as int),
{
    let mut out = String::new();
    if v < 0 {
        proof {
            reveal_strlit("-");
        }
        out.append("-");
        let magnitude: u64 = (-(v as i64)) as u64;
        push_digits(&mut out, magnitude, 10);
    } else {
        push_digits(&mut out, v as u64, 10);
    }
    proof {
        assert(out@ =~= signed_decimal(v as int));
    }
    out
}

/// The spelling of a handle's address, as `{:?}` writes a pointer.
pub fn address_hex(a: usize) -> (r: String)
    ensures
        r@ == address_text(a as nat),
{
    proof {
        reveal_strlit("0x");
    }
    let mut out = String::from_str("0x");
    push_digits(&mut out, a as u64, 16);
    proof {
        assert(out@ =~= address_text(a as nat));
    }
    out
}

pub open spec fn is_decimal_digit(c: char) -> bool {
    '0' <= c <= '9'
}

/// The value of the decimal digits `d`, most significant first.
pub open spec fn digits_value(d: Seq<char>) -> nat
    decreases d.len(),
{
    if d.len() == 0 {
        0
    } else {
        digits_value(d.drop_last()) * 10 + (d.last() as int - '0' as int) as nat
    }
}

/// What a `usize` written as `s` is: an optional `+`, then one or more decimal
/// digits, whose value fits in a `usize`; `None` for any other text.
pub open spec fn usize_from_text(s: Seq<char>) -> Option<nat> {
    let body = if s.len() > 0 && s[0] == '+' {
        s.drop_first()
    } else {
        s
    };
    if body.len() > 0 && (forall|i: int| 0 <= i < body.len() ==> is_decimal_digit(#[trigger] body[i]))
        && digits_value(body) <= usize::MAX {
        Some(digits_value(body))
    } else {
        None
    }
}

/// The sentence that says why `s` is not a `usize`.
pub uninterp spec fn usize_parse_error_text(s: Seq<char>) -> Seq<char>;

/// Relies on `str::parse::<usize>` (`usize::from_str`): it accepts exactly an
/// optional `+` followed by decimal digits whose value fits; the error is shown
/// through its `Display`.
#[verifier::external_body]
pub(crate) fn parse_usize(text: &str) -> (r: Result<usize, String>)
    ensures
        r is Ok <==> usize_from_text(text@) is Some,
        r is Ok ==> usize_from_text(text@) == Some(r->Ok_0 as nat),
        r is Err ==> r->Err_0@ == usize_parse_error_text(text@),
{
    text.parse::<usize>().map_err(|e| e.to_string())
}

} // verus!
