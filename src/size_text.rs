use vstd::prelude::*;
use vstd::arithmetic::div_mod::lemma_fundamental_div_mod_converse;
use crate::digits::{decimal, two_digits, push_decimal, push_two_digits};

verus! {

pub const KIB: u64 = 1024;

pub const MIB: u64 = 1048576;

pub const GIB: u64 = 1073741824;

pub const TIB: u64 = 1099511627776;

/// `n / d` rounded to the nearest integer, a tie going to the even one.
pub open spec fn div_round_half_even(n: nat, d: nat) -> nat
    recommends
        d > 0,
{
    let q = n / d;
    let r = n % d;
    if 2 * r > d || (2 * r == d && q % 2 == 1) {
        q + 1
    } else {
        q
    }
}

/// `size / unit` written with two decimals, rounded half to even.
pub open spec fn scaled_text(size: nat, unit: nat) -> Seq<char> {
    let h = div_round_half_even(size * 100, unit);
    decimal(h / 100) + seq!['.'] + two_digits(h % 100)
}

/// The label of a file size: whole bytes below one KiB, else the size in
/// the largest binary unit (KiB, MiB, GiB, TiB) that it reaches.
pub open spec fn file_size_text(size: nat) -> Seq<char> {
    if size < KIB {
        decimal(size) + seq![' ', 'b', 'y', 't', 'e', 's']
    } else if size < MIB {
        scaled_text(size, KIB as nat) + seq![' ', 'K', 'i', 'B']
    } else if size < GIB {
        scaled_text(size, MIB as nat) + seq![' ', 'M', 'i', 'B']
    } else if size < TIB {
        scaled_text(size, GIB as nat) + seq![' ', 'G', 'i', 'B']
    } else {
        scaled_text(size, TIB as nat) + seq![' ', 'T', 'i', 'B']
    }
}

/// Appends `size / unit` with two decimals, rounded half to even.
fn push_scaled(s: &mut String, size: u64, unit: u64)
    requires
        unit == KIB || unit == MIB || unit == GIB || unit == TIB,
    ensures
        final(s)@ == old(s)@ + scaled_text(size as nat, unit as nat),
{
    let q: u64 = size / unit;
    let r: u64 = size % unit;
    assert(r * 100 < 0x1_0000_0000_0000) by (nonlinear_arith)
        requires
            r < unit,
            unit <= TIB,
    ;
    let t: u64 = r * 100;
    let h0: u64 = t / unit;
    let rem: u64 = t % unit;
    assert(h0 < 100) by (nonlinear_arith)
        requires
            h0 == t / unit,
            t == r * 100,
            r < unit,
            unit > 0,
    ;
    proof {
        let n = size as nat * 100;
        assert(size as int == q * unit + r) by (nonlinear_arith)
            requires
                q == size / unit,
                r == size % unit,
                unit > 0,
        ;
        assert(t as int == h0 * unit + rem) by (nonlinear_arith)
            requires
                h0 == t / unit,
                rem == t % unit,
                unit > 0,
        ;
        assert(n == (q * 100 + h0) * unit + rem) by (nonlinear_arith)
            requires
                n == size * 100,
                size == q * unit + r,
                t == r * 100,
                t == h0 * unit + rem,
        ;
        lemma_fundamental_div_mod_converse(n as int, unit as int, (q * 100 + h0) as int, rem as int);
        assert((q * 100 + h0) % 2 == h0 % 2) by (nonlinear_arith);
    }
    let round_up: bool = 2 * rem > unit || (2 * rem == unit && h0 % 2 == 1);
    let mut whole: u64 = q;
    let mut hundredths: u64 = h0;
    if round_up {
        if h0 == 99 {
            whole = q + 1;
            hundredths = 0;
        } else {
            hundredths = h0 + 1;
        }
    }
    proof {
        let h = div_round_half_even(size as nat * 100, unit as nat);
        assert(h == whole * 100 + hundredths);
        lemma_fundamental_div_mod_converse(h as int, 100, whole as int, hundredths as int);
    }
    push_decimal(s, whole);
    s.append(".");
    proof {
        reveal_strlit(".");
    }
    push_two_digits(s, hundredths);
}

/// The label of a file size, as the browser shows it in its size column.
pub fn format_file_size(size: u64) -> (r: String)
    ensures
        r@ == file_size_text(size as nat),
{
    let mut s = String::new();
    if size < KIB {
        push_decimal(&mut s, size);
        s.append(" bytes");
        proof {
            reveal_strlit(" bytes");
        }
    } else if size < MIB {
        push_scaled(&mut s, size, KIB);
        s.append(" KiB");
        proof {
            reveal_strlit(" KiB");
        }
    } else if size < GIB {
        push_scaled(&mut s, size, MIB);
        s.append(" MiB");
        proof {
            reveal_strlit(" MiB");
        }
    } else if size < TIB {
        push_scaled(&mut s, size, GIB);
        s.append(" GiB");
        proof {
            reveal_strlit(" GiB");
        }
    } else {
        push_scaled(&mut s, size, TIB);
        s.append(" TiB");
        proof {
            reveal_strlit(" TiB");
        }
    }
    s
}

} // verus!
