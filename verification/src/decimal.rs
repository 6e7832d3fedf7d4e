//! Decimal rendering of the integer block fields.
//!
//! The digest input concatenates every field in its canonical decimal/text
//! form, so the exact character sequence of each rendered integer matters.
//! `decimal_nat` and `decimal_i64` define that sequence; the executable
//! conversions are proved to produce it.

use vstd::prelude::*;
use vstd::string::StringExecFns;

verus! {

/// The character for one decimal digit.
pub open spec fn caracter_digito(d: nat) -> char {
    if d == 0 {
        '0'
    } else if d == 1 {
        '1'
    } else if d == 2 {
        '2'
    } else if d == 3 {
        '3'
    } else if d == 4 {
        '4'
    } else if d == 5 {
        '5'
    } else if d == 6 {
        '6'
    } else if d == 7 {
        '7'
    } else if d == 8 {
        '8'
    } else {
        '9'
    }
}

/// Decimal representation of a natural number, most significant digit first,
/// with no leading zeros (zero itself is the single character '0').
pub open spec fn decimal_nat(n: nat) -> Seq<char>
    decreases n,
{
    if n < 10 {
        seq![caracter_digito(n)]
    } else {
        decimal_nat(n / 10) + seq![caracter_digito(n % 10)]
    }
}

/// Decimal representation of a signed 64-bit value: a minus sign before the
/// magnitude when negative, the plain magnitude otherwise.
pub open spec fn decimal_i64(t: i64) -> Seq<char> {
    if t >= 0 {
        decimal_nat(t as nat)
    } else {
        seq!['-'] + decimal_nat((-(t as int)) as nat)
    }
}

/// The digit values of `ds`, least significant first, read back as the
/// characters of the number written most significant first.
pub open spec fn caracteres_invertidos(ds: Seq<u64>) -> Seq<char> {
    Seq::new(ds.len(), |i: int| caracter_digito(ds[ds.len() - 1 - i] as nat))
}

fn digito_str(d: u64) -> (r: &'static str)
    requires
        d < 10,
    ensures
        r@ == seq![caracter_digito(d as nat)],
{
    proof {
        reveal_strlit("0");
        reveal_strlit("1");
        reveal_strlit("2");
        reveal_strlit("3");
        reveal_strlit("4");
        reveal_strlit("5");
        reveal_strlit("6");
        reveal_strlit("7");
        reveal_strlit("8");
        reveal_strlit("9");
    }
    let r: &'static str = match d {
        0 => "0",
        1 => "1",
        2 => "2",
        3 => "3",
        4 => "4",
        5 => "5",
        6 => "6",
        7 => "7",
        8 => "8",
        _ => "9",
    };
    proof {
        assert(r@ =~= seq![caracter_digito(d as nat)]);
    }
    r
}

/// Renders `n` in decimal, exactly as `decimal_nat` describes it.
pub fn u64_a_decimal(n: u64) -> (s: String)
    ensures
        s@ == decimal_nat(n as nat),
{
    let mut digitos: Vec<u64> = Vec::new();
    digitos.push(n % 10);
    let mut m: u64 = n / 10;
    proof {
        assert(caracteres_invertidos(digitos@) =~= seq![caracter_digito((n % 10) as nat)]);
    }
    while m > 0
        invariant
            forall|j: int| 0 <= j < digitos@.len() ==> digitos@[j] < 10,
            digitos@.len() >= 1,
            m > 0 ==> decimal_nat(n as nat) == decimal_nat(m as nat) + caracteres_invertidos(
                digitos@,
            ),
            m == 0 ==> decimal_nat(n as nat) == caracteres_invertidos(digitos@),
        decreases m,
    {
        let ghost viejos: Seq<u64> = digitos@;
        let ghost m_viejo: u64 = m;
        let d: u64 = m % 10;
        digitos.push(d);
        m = m / 10;
        proof {
            assert(caracteres_invertidos(viejos.push(d)) =~= seq![
                caracter_digito(d as nat),
            ] + caracteres_invertidos(viejos));
            assert(decimal_nat(m_viejo as nat) + caracteres_invertidos(viejos) =~= (if m > 0 {
                decimal_nat(m as nat) + caracteres_invertidos(digitos@)
            } else {
                caracteres_invertidos(digitos@)
            }));
        }
    }
    let mut s: String = String::new();
    let mut i: usize = digitos.len();
    while i > 0
        invariant
            i <= digitos@.len(),
            forall|j: int| 0 <= j < digitos@.len() ==> digitos@[j] < 10,
            s@ == caracteres_invertidos(digitos@).take(digitos@.len() - i),
            decimal_nat(n as nat) == caracteres_invertidos(digitos@),
        decreases i,
    {
        i = i - 1;
        let d: u64 = digitos[i];
        s.append(digito_str(d));
        proof {
            assert(s@ =~= caracteres_invertidos(digitos@).take(digitos@.len() - i));
        }
    }
    proof {
        assert(caracteres_invertidos(digitos@).take(digitos@.len() - 0) =~= caracteres_invertidos(
            digitos@,
        ));
    }
    s
}

/// Renders `t` in decimal, exactly as `decimal_i64` describes it.
pub fn i64_a_decimal(t: i64) -> (s: String)
    ensures
        s@ == decimal_i64(t),
{
    if t >= 0 {
        let s: String = u64_a_decimal(t as u64);
        s
    } else {
        let magnitud: u64 = if t == i64::MIN {
            9223372036854775808u64
        } else {
            (-t) as u64
        };
        proof {
            assert(magnitud as int == -(t as int));
        }
        let mut s: String = String::from_str("-");
        let resto: String = u64_a_decimal(magnitud);
        s.append(resto.as_str());
        proof {
            reveal_strlit("-");
            assert("-"@ =~= seq!['-']);
            assert(s@ =~= decimal_i64(t));
        }
        s
    }
}

} // verus!
