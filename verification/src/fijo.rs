//! Núcleo de la aritmética de punto fijo: divisiones con signo de semántica
//! precisa, reducción de ángulos a `[0, TAU_FIJO)` y raíz cuadrada entera.
use vstd::prelude::*;
use vstd::arithmetic::div_mod::{
    lemma_div_nonincreasing, lemma_div_pos_is_pos, lemma_fundamental_div_mod,
    lemma_fundamental_div_mod_converse, lemma_mod_bound,
};
use crate::constants::TAU_FIJO;

verus! {

/// División truncada hacia cero, como la de las máquinas.
pub open spec fn div_trunca_espec(a: int, b: int) -> int {
    if a >= 0 {
        a / b
    } else {
        -((-a) / b)
    }
}

/// División redondeada lejos de cero: |resultado| * b >= |a|.
pub open spec fn div_alejada_espec(a: int, b: int) -> int {
    if a >= 0 {
        (a + b - 1) / b
    } else {
        -((-a + b - 1) / b)
    }
}

/// División entera de `u128` (en Verus, `/` sobre enteros sin signo ya es la
/// división euclidiana), aislada para dar nombre al resultado.
fn div_u128(a: u128, b: u128) -> (r: u128)
    requires
        b > 0,
    ensures
        r == a as int / b as int,
{
    a / b
}

/// División truncada hacia cero sobre `i128`.
pub fn div_trunca(a: i128, b: i128) -> (r: i128)
    requires
        b > 0,
        a > i128::MIN,
    ensures
        r == div_trunca_espec(a as int, b as int),
        a >= 0 ==> 0 <= r <= a,
        a < 0 ==> a <= r <= 0,
{
    if a >= 0 {
        let q = div_u128(a as u128, b as u128);
        proof {
            lemma_div_pos_is_pos(a as int, b as int);
            lemma_div_nonincreasing(a as int, b as int);
        }
        q as i128
    } else {
        let na = -a;
        let q = div_u128(na as u128, b as u128);
        proof {
            lemma_div_pos_is_pos(na as int, b as int);
            lemma_div_nonincreasing(na as int, b as int);
        }
        -(q as i128)
    }
}

/// División redondeada lejos de cero sobre `i128`.
pub fn div_alejada(a: i128, b: i128) -> (r: i128)
    requires
        0 < b,
        -0x40000000000000000000000000000000 < a < 0x40000000000000000000000000000000,
        b < 0x40000000000000000000000000000000,
    ensures
        r == div_alejada_espec(a as int, b as int),
        a >= 0 ==> 0 <= r <= a + b - 1,
        a < 0 ==> a - b + 1 <= r <= 0,
{
    if a >= 0 {
        let q = div_u128((a as u128) + (b as u128) - 1, b as u128);
        proof {
            lemma_div_pos_is_pos(a + b - 1, b as int);
            lemma_div_nonincreasing(a + b - 1, b as int);
        }
        q as i128
    } else {
        let na = -a;
        let q = div_u128((na as u128) + (b as u128) - 1, b as u128);
        proof {
            lemma_div_pos_is_pos(na + b - 1, b as int);
            lemma_div_nonincreasing(na + b - 1, b as int);
        }
        -(q as i128)
    }
}

/// El redondeo lejos de cero nunca acorta: |div_alejada(a, b)| * b >= |a|.
pub proof fn lema_div_alejada_no_acorta(a: int, b: int)
    requires
        b > 0,
    ensures
        a >= 0 ==> div_alejada_espec(a, b) * b >= a,
        a < 0 ==> div_alejada_espec(a, b) * b <= a,
{
    if a >= 0 {
        let m = a + b - 1;
        let q = m / b;
        lemma_fundamental_div_mod(m, b);
        lemma_mod_bound(m, b);
        assert(q * b == b * q) by (nonlinear_arith);
        assert(b * q == m - m % b);
    } else {
        let m = -a + b - 1;
        let q = m / b;
        lemma_fundamental_div_mod(m, b);
        lemma_mod_bound(m, b);
        assert((-q) * b == -(b * q)) by (nonlinear_arith);
        assert(b * q == m - m % b);
    }
}

/// El redondeo lejos de cero se pasa por menos de un divisor:
/// |div_alejada(a, b)| <= |a| / b + 1 en aritmética exacta.
pub proof fn lema_div_alejada_cota(a: int, b: int)
    requires
        b > 0,
        a >= 0,
    ensures
        div_alejada_espec(a, b) * b < a + b,
        0 <= div_alejada_espec(a, b),
{
    let m = a + b - 1;
    let q = m / b;
    lemma_fundamental_div_mod(m, b);
    lemma_mod_bound(m, b);
    assert(q * b == b * q) by (nonlinear_arith);
    assert(b * q == m - m % b);
    lemma_div_pos_is_pos(m, b);
}

/// Ángulo equivalente dentro de `[0, TAU_FIJO)`.
pub open spec fn envuelto_espec(a: int) -> int {
    a % (TAU_FIJO as int)
}

/// Reduce un ángulo en micro-radianes al representante de `[0, TAU_FIJO)`,
/// sin pasar nunca por un resto negativo.
pub fn envolver_angulo(a: i64) -> (r: i64)
    requires
        a > i64::MIN,
    ensures
        r == envuelto_espec(a as int),
        0 <= r < TAU_FIJO,
{
    if a >= 0 {
        let m = (a as u64) % (TAU_FIJO as u64);
        proof {
            lemma_mod_bound(a as int, TAU_FIJO as int);
        }
        m as i64
    } else {
        let m = ((-a) as u64) % (TAU_FIJO as u64);
        let r = if m == 0 {
            0i64
        } else {
            TAU_FIJO - (m as i64)
        };
        proof {
            lemma_mod_bound(-a as int, TAU_FIJO as int);
            lemma_fundamental_div_mod(-a as int, TAU_FIJO as int);
            let q = (-a as int) / (TAU_FIJO as int);
            if m == 0 {
                assert(a as int == (TAU_FIJO as int) * (-q) + 0) by (nonlinear_arith)
                    requires -a as int == (TAU_FIJO as int) * q;
                lemma_fundamental_div_mod_converse(a as int, TAU_FIJO as int, -q, 0);
            } else {
                assert(a as int == (TAU_FIJO as int) * (-q - 1) + (TAU_FIJO as int - m))
                    by (nonlinear_arith)
                    requires -a as int == (TAU_FIJO as int) * q + m as int;
                lemma_fundamental_div_mod_converse(
                    a as int,
                    TAU_FIJO as int,
                    -q - 1,
                    TAU_FIJO as int - m,
                );
            }
        }
        r
    }
}

/// Raíz cuadrada entera (redondeada hacia abajo), definida por recursión.
pub open spec fn raiz_espec(n: int) -> int
    decreases n,
{
    if n <= 0 {
        0
    } else {
        let p = raiz_espec(n - 1);
        if (p + 1) * (p + 1) <= n {
            p + 1
        } else {
            p
        }
    }
}

/// `raiz_espec(n)` es la única `r >= 0` con `r * r <= n < (r + 1) * (r + 1)`.
pub proof fn lema_raiz_caracterizacion(n: int)
    requires
        n >= 0,
    ensures
        0 <= raiz_espec(n),
        raiz_espec(n) * raiz_espec(n) <= n,
        n < (raiz_espec(n) + 1) * (raiz_espec(n) + 1),
    decreases n,
{
    if n == 0 {
        assert(raiz_espec(0) == 0);
    } else {
        lema_raiz_caracterizacion(n - 1);
        let p = raiz_espec(n - 1);
        if (p + 1) * (p + 1) <= n {
            assert(n - 1 < (p + 1) * (p + 1));
            assert(n < (p + 2) * (p + 2)) by (nonlinear_arith)
                requires n <= (p + 1) * (p + 1) && p >= 0;
        }
    }
}

/// Dos candidatos que cumplen la caracterización de la raíz coinciden.
pub proof fn lema_raiz_unica(n: int, r: int)
    requires
        n >= 0,
        r >= 0,
        r * r <= n,
        n < (r + 1) * (r + 1),
    ensures
        r == raiz_espec(n),
{
    lema_raiz_caracterizacion(n);
    let s = raiz_espec(n);
    assert(r == s) by (nonlinear_arith)
        requires
            r >= 0 && s >= 0 && r * r <= n && n < (r + 1) * (r + 1) && s * s <= n && n < (s + 1)
                * (s + 1);
}

/// Raíz cuadrada entera por bisección sobre `u128`.
pub fn raiz_entera(n: u128) -> (r: u64)
    requires
        n < 0x10000000000000000000000000000,  // 2^112
    ensures
        r == raiz_espec(n as int),
        r * r <= n < (r + 1) * (r + 1),
{
    let mut bajo: u128 = 0;
    let mut alto: u128 = 0x100000000000000;  // 2^56
    proof {
        assert((0x100000000000000 as int) * (0x100000000000000 as int) > n);
    }
    while alto - bajo > 1
        invariant
            0 <= bajo < alto <= 0x100000000000000,
            bajo * bajo <= n,
            n < alto * alto,
        decreases alto - bajo,
    {
        let medio = bajo + (alto - bajo) / 2;
        proof {
            lemma_div_pos_is_pos(alto - bajo, 2);
            vstd::arithmetic::div_mod::lemma_div_decreases(alto - bajo, 2);
            assert(medio * medio <= (0x100000000000000 as int) * (0x100000000000000 as int))
                by (nonlinear_arith)
                requires 0 <= medio <= 0x100000000000000;
        }
        if medio * medio <= n {
            bajo = medio;
        } else {
            alto = medio;
        }
    }
    proof {
        assert(alto == bajo + 1);
        lema_raiz_unica(n as int, bajo as int);
    }
    bajo as u64
}

} // verus!
