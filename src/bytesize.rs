//! Byte counts, and their presentation for people.

use vstd::prelude::*;

verus! {

/// A number of bytes.
#[derive(Clone, Copy, Debug, PartialEq, Eq, PartialOrd, Ord)]
pub struct ByteSize(u64);

/// Reading a value as a number of bytes.
pub trait ByteSizeExt {
    /// The number of bytes that the value stands for.
    spec fn byte_count(&self) -> u64;

    fn to_bytes(&self) -> (r: ByteSize)
        ensures
            r.bytes() == self.byte_count(),
    ;
}

impl ByteSizeExt for u64 {
    open spec fn byte_count(&self) -> u64 {
        *self
    }

    fn to_bytes(&self) -> (r: ByteSize) {
        ByteSize(*self)
    }
}

/// Bytes in one kibibyte.
pub const KIB: u64 = 1024;

impl ByteSize {
    pub closed spec fn bytes(self) -> u64 {
        self.0
    }

    /// The whole number of kibibytes, rounded down.
    pub fn as_kibibytes(&self) -> (r: u64)
        ensures
            r == self.bytes() / 1024,
    {
        self.0 / KIB
    }
}

/// `base` to the power `e`.
pub open spec fn power(base: nat, e: nat) -> nat
    decreases e,
{
    if e == 0 {
        1
    } else {
        base * power(base, (e - 1) as nat)
    }
}

/// The largest exponent from `e` up to 6 whose power of 1000 is at most `b`.
pub open spec fn unit_exp_from(b: nat, e: nat) -> nat
    decreases 6 - e,
{
    if e < 6 && power(1000, e + 1) <= b {
        unit_exp_from(b, e + 1)
    } else {
        e
    }
}

/// The unit of a size of at least one kibibyte: 1 for k, 2 for M, ... 6 for
/// E; the largest whose power of 1000 the size reaches.
pub open spec fn unit_exp(b: nat) -> nat {
    unit_exp_from(b, 1)
}

/// `b` in units of `1024^e`, in tenths, rounded to the nearest (half to even).
pub open spec fn rounded_tenths(b: nat, e: nat) -> nat {
    let d = power(1024, e);
    let q = b * 10 / d;
    let r = b * 10 % d;
    if 2 * r > d || (2 * r == d && q % 2 == 1) {
        q + 1
    } else {
        q
    }
}

/// The decimal digits of `n`.
pub open spec fn decimal(n: nat) -> Seq<char>
    decreases n,
{
    if n < 10 {
        seq![digit(n)]
    } else {
        decimal(n / 10).push(digit(n % 10))
    }
}

pub open spec fn digit(n: nat) -> char {
    (n + 48) as char
}

/// The letter of the unit `1024^e`.
pub open spec fn prefix(e: nat) -> char {
    if e == 1 {
        'k'
    } else if e == 2 {
        'M'
    } else if e == 3 {
        'G'
    } else if e == 4 {
        'T'
    } else if e == 5 {
        'P'
    } else {
        'E'
    }
}

/// How a size reads: whole bytes under one kibibyte ("512 B"), else one
/// decimal in the largest unit whose power of 1000 it reaches ("3.0 GB").
pub open spec fn display(b: nat) -> Seq<char> {
    if b < 1024 {
        decimal(b) + seq![' ', 'B']
    } else {
        let e = unit_exp(b);
        let t = rounded_tenths(b, e);
        decimal(t / 10) + seq!['.'] + decimal(t % 10) + seq![' ', prefix(e), 'B']
    }
}

/// Relies on `String`'s `FromIterator<char>`: the characters in order.
#[verifier::external_body]
fn string_of(chars: Vec<char>) -> (r: String)
    ensures
        r@ == chars@,
{
    chars.into_iter().collect()
}

proof fn lemma_power_1024(i: nat)
    requires
        i <= 6,
    ensures
        0 < power(1024, i) <= 0x1000_0000_0000_0000,
{
    reveal_with_fuel(power, 7);
}

fn push_decimal(out: &mut Vec<char>, n: u64)
    ensures
        final(out)@ == old(out)@ + decimal(n as nat),
    decreases n,
{
    if n >= 10 {
        push_decimal(out, n / 10);
    }
    let d = (n % 10) as u8;
    out.push((d + 48) as char);
    proof {
        assert(n as nat % 10 == (n % 10) as nat);
        if n >= 10 {
            assert(decimal(n as nat) == decimal((n / 10) as nat).push(digit((n % 10) as nat)));
        }
    }
    assert(final(out)@ =~= old(out)@ + decimal(n as nat));
}

impl ByteSize {
    /// How the size reads for people, as [`display`] gives it.
    pub fn to_string(&self) -> (r: String)
        ensures
            r@ == display(self.bytes() as nat),
    {
        let b = self.0;
        let mut out: Vec<char> = Vec::new();
        if b < KIB {
            push_decimal(&mut out, b);
            out.push(' ');
            out.push('B');
            assert(out@ =~= display(b as nat));
            return string_of(out);
        }
        let mut e: u64 = 1;
        let mut p: u64 = 1000;
        assert(power(1000, 1) == 1000) by {
            reveal_with_fuel(power, 2);
        }
        while e < 6 && p <= b / 1000
            invariant
                1 <= e <= 6,
                p == power(1000, e as nat),
                p <= b,
                unit_exp_from(b as nat, e as nat) == unit_exp(b as nat),
            decreases 6 - e,
        {
            p = p * 1000;
            e = e + 1;
        }
        let mut d: u128 = 1;
        let mut i: u64 = 0;
        while i < e
            invariant
                i <= e <= 6,
                d == power(1024, i as nat),
            decreases e - i,
        {
            proof {
                lemma_power_1024(i as nat + 1);
            }
            d = d * 1024;
            i = i + 1;
        }
        proof {
            lemma_power_1024(e as nat);
        }
        let scaled = b as u128 * 10;
        let q = scaled / d;
        let r = scaled % d;
        let t = if 2 * r > d || (2 * r == d && q % 2 == 1) {
            q + 1
        } else {
            q
        };
        let letter = if e == 1 {
            'k'
        } else if e == 2 {
            'M'
        } else if e == 3 {
            'G'
        } else if e == 4 {
            'T'
        } else if e == 5 {
            'P'
        } else {
            'E'
        };
        push_decimal(&mut out, (t / 10) as u64);
        out.push('.');
        push_decimal(&mut out, (t % 10) as u64);
        out.push(' ');
        out.push(letter);
        out.push('B');
        assert(out@ =~= display(b as nat));
        string_of(out)
    }
}

} // verus!
