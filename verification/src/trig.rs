//! Trigonometría en punto fijo: seno y coseno por la aproximación racional de
//! Bhaskara I (exacta en los cuatro cuadrantes), y arcotangente / arcoseno /
//! arcocoseno por una aproximación polinómica (exacta sobre los ejes).
use vstd::prelude::*;
use vstd::arithmetic::div_mod::{
    lemma_div_is_ordered, lemma_div_multiples_vanish, lemma_div_pos_is_pos,
    lemma_small_mod,
};
use crate::constants::{ESCALA, LIMITE_FIJO, MEDIO_PI_FIJO, PI_FIJO, TAU_FIJO};
use crate::fijo::{envolver_angulo, envuelto_espec, lema_raiz_caracterizacion, raiz_entera, raiz_espec};

verus! {

/// Un cuarto de vuelta: exactamente PI_FIJO / 4.
pub const CUARTO_PI_FIJO: i64 = 785_398;

/// Coeficiente de la corrección cuadrática del arcotangente (0.273).
pub const AJUSTE_ATAN: i64 = 273_000;

/// Cota de los ángulos que aceptan `seno_fijo` y `coseno_fijo`.
pub const LIMITE_ANGULO: i64 = 4_000_000_000_000_000_000;

/// Seno sobre media vuelta, `x` en `[0, PI_FIJO]`: fórmula de Bhaskara I,
/// `16 x (pi - x) / (5 pi^2 - 4 x (pi - x))`, exacta en 0, pi/2 y pi.
pub open spec fn seno_medio_espec(x: int) -> int {
    let p = x * (PI_FIJO - x);
    (16 * p * ESCALA) / (5 * PI_FIJO * PI_FIJO - 4 * p)
}

/// Seno en punto fijo de un ángulo cualquiera en micro-radianes.
pub open spec fn seno_espec(a: int) -> int {
    let w = envuelto_espec(a);
    if w < PI_FIJO {
        seno_medio_espec(w)
    } else {
        -seno_medio_espec(w - PI_FIJO)
    }
}

/// Coseno como seno desplazado un cuarto de vuelta.
pub open spec fn coseno_espec(a: int) -> int {
    seno_espec(a + MEDIO_PI_FIJO)
}

/// El numerador y el denominador de Bhaskara quedan acotados sobre [0, PI].
proof fn lema_bhaskara_cotas(x: int)
    requires
        0 <= x <= PI_FIJO,
    ensures
        0 <= x * (PI_FIJO - x) <= MEDIO_PI_FIJO * MEDIO_PI_FIJO,
        5 * PI_FIJO * PI_FIJO - 4 * (x * (PI_FIJO - x)) >= 4 * PI_FIJO * PI_FIJO,
        0 <= seno_medio_espec(x) <= ESCALA,
{
    let p = x * (PI_FIJO - x);
    let m = MEDIO_PI_FIJO as int;
    assert(0 <= p && p <= m * m) by (nonlinear_arith)
        requires
            0 <= x <= PI_FIJO,
            PI_FIJO == 2 * m,
            p == x * (PI_FIJO - x);
    assert(4 * (m * m) == PI_FIJO * PI_FIJO) by (nonlinear_arith)
        requires PI_FIJO == 2 * m;
    let den = 5 * PI_FIJO * PI_FIJO - 4 * p;
    let num = 16 * p * ESCALA;
    assert(num <= den * ESCALA && num >= 0 && den > 0) by (nonlinear_arith)
        requires
            0 <= p <= m * m,
            4 * (m * m) == PI_FIJO * PI_FIJO,
            den == 5 * PI_FIJO * PI_FIJO - 4 * p,
            num == 16 * p * ESCALA,
            PI_FIJO > 0,
            ESCALA > 0;
    lemma_div_pos_is_pos(num, den);
    lemma_div_is_ordered(num, den * ESCALA, den);
    lemma_div_multiples_vanish(ESCALA as int, den);
}

/// Evaluación ejecutable de `seno_medio_espec`.
fn seno_medio(x: i64) -> (r: i64)
    requires
        0 <= x <= PI_FIJO,
    ensures
        r == seno_medio_espec(x as int),
        0 <= r <= ESCALA,
{
    proof {
        lema_bhaskara_cotas(x as int);
    }
    let xi = x as i128;
    let pi = PI_FIJO as i128;
    let p = xi * (pi - xi);
    let den = 5 * pi * pi - 4 * p;
    let num = 16 * p * (ESCALA as i128);
    let q = (num as u128) / (den as u128);
    q as i64
}

/// Seno en punto fijo; el resultado representa `sin(a / ESCALA) * ESCALA`.
pub fn seno_fijo(a: i64) -> (r: i64)
    requires
        -LIMITE_ANGULO <= a <= LIMITE_ANGULO,
    ensures
        r == seno_espec(a as int),
        -ESCALA <= r <= ESCALA,
{
    let w = envolver_angulo(a);
    if w < PI_FIJO {
        seno_medio(w)
    } else {
        proof {
            lema_bhaskara_cotas(w - PI_FIJO);
        }
        -seno_medio(w - PI_FIJO)
    }
}

/// Coseno en punto fijo.
pub fn coseno_fijo(a: i64) -> (r: i64)
    requires
        -LIMITE_ANGULO <= a <= LIMITE_ANGULO,
    ensures
        r == coseno_espec(a as int),
        -ESCALA <= r <= ESCALA,
{
    let w = envolver_angulo(a);
    proof {
        lemma_small_mod(MEDIO_PI_FIJO as nat, TAU_FIJO as nat);
        vstd::arithmetic::div_mod::lemma_add_mod_noop(
            a as int,
            MEDIO_PI_FIJO as int,
            TAU_FIJO as int,
        );
    }
    seno_fijo(w + MEDIO_PI_FIJO)
}

/// Valores exactos del seno y el coseno en los cuatro cuadrantes.
pub proof fn lema_cuadrantes_exactos()
    ensures
        seno_espec(0) == 0,
        seno_espec(MEDIO_PI_FIJO as int) == ESCALA,
        seno_espec(PI_FIJO as int) == 0,
        seno_espec(PI_FIJO + MEDIO_PI_FIJO) == -ESCALA,
        coseno_espec(0) == ESCALA,
        coseno_espec(MEDIO_PI_FIJO as int) == 0,
        coseno_espec(PI_FIJO as int) == -ESCALA,
        coseno_espec(PI_FIJO + MEDIO_PI_FIJO) == 0,
{
    let m = MEDIO_PI_FIJO as int;
    let tau = TAU_FIJO as int;
    lemma_small_mod(0nat, tau as nat);
    lemma_small_mod(m as nat, tau as nat);
    lemma_small_mod((2 * m) as nat, tau as nat);
    lemma_small_mod((3 * m) as nat, tau as nat);
    assert(tau % tau == 0) by {
        vstd::arithmetic::div_mod::lemma_mod_self_0(tau);
    }
    // seno_medio_espec(0) == 0: numerador nulo.
    assert(seno_medio_espec(0) == 0) by {
        lemma_div_pos_is_pos(0, 5 * PI_FIJO * PI_FIJO);
        lemma_div_is_ordered(0, 0, 5 * PI_FIJO * PI_FIJO);
        vstd::arithmetic::div_mod::lemma_div_of0(5 * PI_FIJO * PI_FIJO);
    }
    // seno_medio_espec(m) == ESCALA: numerador igual a denominador * ESCALA.
    assert(seno_medio_espec(m) == ESCALA) by {
        let p = m * (PI_FIJO - m);
        assert(p == m * m) by (nonlinear_arith)
            requires p == m * (PI_FIJO - m) && PI_FIJO == 2 * m;
        let den = 5 * PI_FIJO * PI_FIJO - 4 * p;
        assert(den == 16 * (m * m)) by (nonlinear_arith)
            requires p == m * m && PI_FIJO == 2 * m && den == 5 * PI_FIJO * PI_FIJO - 4 * p;
        let num = 16 * p * ESCALA;
        assert(num == den * ESCALA) by (nonlinear_arith)
            requires p == m * m && num == 16 * p * ESCALA && den == 16 * (m * m);
        lemma_div_multiples_vanish(ESCALA as int, den);
    }
    assert(seno_medio_espec(PI_FIJO as int) == 0) by {
        let p = (PI_FIJO as int) * (PI_FIJO - PI_FIJO as int);
        assert(p == 0) by (nonlinear_arith)
            requires p == (PI_FIJO as int) * (PI_FIJO - PI_FIJO as int);
        vstd::arithmetic::div_mod::lemma_div_of0(5 * PI_FIJO * PI_FIJO);
    }
    assert(envuelto_espec(0) == 0);
    assert(envuelto_espec(m) == m);
    assert(envuelto_espec(2 * m) == 2 * m);
    assert(envuelto_espec(3 * m) == 3 * m);
    assert(envuelto_espec(4 * m) == 0) by {
        assert(4 * m == tau);
    }
}

/// Arcotangente sobre el primer octante, `z` en `[0, ESCALA]` (razón `y/x`):
/// `z * (pi/4 + 0.273 * (1 - z))`, exacta en 0 y en ESCALA.
pub open spec fn atan_unidad_espec(z: int) -> int {
    (z * (CUARTO_PI_FIJO + (AJUSTE_ATAN * (ESCALA - z)) / (ESCALA as int))) / (ESCALA as int)
}

/// Evaluación ejecutable de `atan_unidad_espec`.
fn atan_unidad(z: i64) -> (r: i64)
    requires
        0 <= z <= ESCALA,
    ensures
        r == atan_unidad_espec(z as int),
        0 <= r <= CUARTO_PI_FIJO + AJUSTE_ATAN,
{
    let zi = z as i128;
    let e = ESCALA as i128;
    let t = ((AJUSTE_ATAN as i128) * (e - zi)) as u128 / (e as u128);
    proof {
        assert(AJUSTE_ATAN * (ESCALA - z as int) <= (ESCALA as int) * AJUSTE_ATAN)
            by (nonlinear_arith)
            requires 0 <= z as int <= ESCALA && AJUSTE_ATAN > 0;
        lemma_div_pos_is_pos(AJUSTE_ATAN * (ESCALA - z as int), ESCALA as int);
        lemma_div_is_ordered(
            AJUSTE_ATAN * (ESCALA - z as int),
            (ESCALA as int) * AJUSTE_ATAN,
            ESCALA as int,
        );
        lemma_div_multiples_vanish(AJUSTE_ATAN as int, ESCALA as int);
    }
    let c = (CUARTO_PI_FIJO as u128) + t;
    proof {
        assert(zi as int * c as int <= (ESCALA as int) * (CUARTO_PI_FIJO + AJUSTE_ATAN))
            by (nonlinear_arith)
            requires
                0 <= zi as int <= ESCALA,
                0 <= c as int <= CUARTO_PI_FIJO + AJUSTE_ATAN;
    }
    let num = (zi as u128) * c;
    proof {
        lemma_div_pos_is_pos(zi as int * c as int, ESCALA as int);
        lemma_div_is_ordered(
            zi as int * c as int,
            (ESCALA as int) * (CUARTO_PI_FIJO + AJUSTE_ATAN),
            ESCALA as int,
        );
        lemma_div_multiples_vanish(CUARTO_PI_FIJO + AJUSTE_ATAN, ESCALA as int);
    }
    let r = num / (e as u128);
    r as i64
}

/// Arcotangente de dos argumentos, resultado en `[-PI_FIJO, PI_FIJO]`, con el
/// convenio de signos habitual (cero sobre el eje X positivo).
pub open spec fn atan2_espec(y: int, x: int) -> int {
    let ay = if y >= 0 { y } else { -y };
    let ax = if x >= 0 { x } else { -x };
    let base = if ay <= ax {
        atan_unidad_espec((ay * ESCALA) / ax)
    } else {
        MEDIO_PI_FIJO - atan_unidad_espec((ax * ESCALA) / ay)
    };
    if x >= 0 {
        if y >= 0 { base } else { -base }
    } else {
        if y >= 0 { PI_FIJO - base } else { -(PI_FIJO - base) }
    }
}

/// Evaluación ejecutable de `atan2_espec`.
pub fn atan2_fijo(y: i64, x: i64) -> (r: i64)
    requires
        -LIMITE_FIJO <= y <= LIMITE_FIJO,
        -LIMITE_FIJO <= x <= LIMITE_FIJO,
        !(x == 0 && y == 0),
    ensures
        r == atan2_espec(y as int, x as int),
        -PI_FIJO <= r <= PI_FIJO,
        x > 0 && y == 0 ==> r == 0,
        x == 0 && y > 0 ==> r == MEDIO_PI_FIJO,
        x == 0 && y < 0 ==> r == -MEDIO_PI_FIJO,
{
    let ay = if y >= 0 { y } else { -y };
    let ax = if x >= 0 { x } else { -x };
    let base = if ay <= ax {
        let z = razon_unidad(ay, ax);
        atan_unidad(z)
    } else {
        let z = razon_unidad(ax, ay);
        MEDIO_PI_FIJO - atan_unidad(z)
    };
    proof {
        lema_atan2_ejes(y as int, x as int);
    }
    if x >= 0 {
        if y >= 0 { base } else { -base }
    } else {
        if y >= 0 { PI_FIJO - base } else { -(PI_FIJO - base) }
    }
}

/// Razón `a / b` llevada a punto fijo, para `0 <= a <= b`: queda en `[0, ESCALA]`.
fn razon_unidad(a: i64, b: i64) -> (r: i64)
    requires
        0 <= a <= b,
        b > 0,
        b <= LIMITE_FIJO,
    ensures
        r == (a as int * ESCALA) / b as int,
        0 <= r <= ESCALA,
{
    let num = (a as u128) * (ESCALA as u128);
    let q = num / (b as u128);
    proof {
        lemma_div_pos_is_pos(a as int * ESCALA, b as int);
        assert(a as int * ESCALA <= b as int * ESCALA) by (nonlinear_arith)
            requires 0 <= a as int <= b as int && ESCALA > 0;
        lemma_div_is_ordered(a as int * ESCALA, b as int * ESCALA, b as int);
        lemma_div_multiples_vanish(ESCALA as int, b as int);
    }
    q as i64
}

/// Arcoseno: `atan2(y, raiz(1 - y^2))`, resultado en `[-MEDIO_PI, MEDIO_PI]`.
pub open spec fn asin_espec(y: int) -> int {
    atan2_espec(y, raiz_espec(ESCALA * ESCALA - y * y))
}

/// Evaluación ejecutable de `asin_espec`.
pub fn asin_fijo(y: i64) -> (r: i64)
    requires
        -ESCALA <= y <= ESCALA,
    ensures
        r == asin_espec(y as int),
        -MEDIO_PI_FIJO <= r <= MEDIO_PI_FIJO,
{
    let yi = y as i128;
    let e = ESCALA as i128;
    proof {
        assert(0 <= yi as int * yi as int <= (ESCALA as int) * ESCALA) by (nonlinear_arith)
            requires -ESCALA <= yi as int <= ESCALA;
    }
    let resto = e * e - yi * yi;
    let cx = raiz_entera(resto as u128);
    proof {
        lema_raiz_caracterizacion(resto as int);
        assert(raiz_espec(resto as int) * raiz_espec(resto as int) <= (ESCALA as int) * ESCALA);
        assert(raiz_espec(resto as int) <= ESCALA) by (nonlinear_arith)
            requires
                raiz_espec(resto as int) >= 0,
                raiz_espec(resto as int) * raiz_espec(resto as int) <= (ESCALA as int) * ESCALA,
                ESCALA > 0;
        if y == 0 {
            assert((ESCALA as int) * ESCALA < (ESCALA + 1) * (ESCALA + 1)) by (nonlinear_arith)
                requires ESCALA > 0;
            crate::fijo::lema_raiz_unica((ESCALA as int) * ESCALA, ESCALA as int);
        }
    }
    let r = atan2_fijo(y, cx as i64);
    proof {
        lema_atan2_rango_derecho(y as int, cx as int);
    }
    r
}

/// Con `x >= 0`, `atan2` queda en `[-MEDIO_PI, MEDIO_PI]`.
proof fn lema_atan2_rango_derecho(y: int, x: int)
    requires
        x >= 0,
        !(x == 0 && y == 0),
    ensures
        -MEDIO_PI_FIJO <= atan2_espec(y, x) <= MEDIO_PI_FIJO,
{
    let ay = if y >= 0 { y } else { -y };
    if ay <= x {
        let z = (ay * ESCALA) / x;
        lemma_div_pos_is_pos(ay * ESCALA, x as int);
        assert(ay * ESCALA <= x * ESCALA) by (nonlinear_arith)
            requires 0 <= ay <= x && ESCALA > 0;
        lemma_div_is_ordered(ay * ESCALA, x * ESCALA, x as int);
        lemma_div_multiples_vanish(ESCALA as int, x as int);
        lema_atan_unidad_rango(z);
    } else {
        let z = (x * ESCALA) / ay;
        lemma_div_pos_is_pos(x * ESCALA, ay);
        assert(x * ESCALA <= ay * ESCALA) by (nonlinear_arith)
            requires 0 <= x <= ay && ESCALA > 0;
        lemma_div_is_ordered(x * ESCALA, ay * ESCALA, ay);
        lemma_div_multiples_vanish(ESCALA as int, ay);
        lema_atan_unidad_rango(z);
    }
}

/// Sobre `[0, ESCALA]`, `atan_unidad_espec` queda en `[0, CUARTO_PI + AJUSTE]`.
proof fn lema_atan_unidad_rango(z: int)
    requires
        0 <= z <= ESCALA,
    ensures
        0 <= atan_unidad_espec(z) <= CUARTO_PI_FIJO + AJUSTE_ATAN,
{
    let t = (AJUSTE_ATAN * (ESCALA - z)) / (ESCALA as int);
    lemma_div_pos_is_pos(AJUSTE_ATAN * (ESCALA - z), ESCALA as int);
    assert(0 <= AJUSTE_ATAN * (ESCALA - z) <= (ESCALA as int) * AJUSTE_ATAN)
        by (nonlinear_arith)
        requires 0 <= z <= ESCALA && AJUSTE_ATAN > 0;
    lemma_div_is_ordered(
        AJUSTE_ATAN * (ESCALA - z),
        (ESCALA as int) * AJUSTE_ATAN,
        ESCALA as int,
    );
    lemma_div_multiples_vanish(AJUSTE_ATAN as int, ESCALA as int);
    assert(0 <= z * (CUARTO_PI_FIJO + t) <= (ESCALA as int) * (CUARTO_PI_FIJO + AJUSTE_ATAN))
        by (nonlinear_arith)
        requires 0 <= z <= ESCALA && 0 <= t <= AJUSTE_ATAN;
    lemma_div_pos_is_pos(z * (CUARTO_PI_FIJO + t), ESCALA as int);
    lemma_div_is_ordered(
        z * (CUARTO_PI_FIJO + t),
        (ESCALA as int) * (CUARTO_PI_FIJO + AJUSTE_ATAN),
        ESCALA as int,
    );
    lemma_div_multiples_vanish(CUARTO_PI_FIJO + AJUSTE_ATAN, ESCALA as int);
}

/// `atan_unidad_espec(0) == 0`.
proof fn lema_atan_unidad_cero()
    ensures
        atan_unidad_espec(0) == 0,
{
    vstd::arithmetic::div_mod::lemma_div_of0(ESCALA as int);
}

/// Valores exactos de `atan2_espec` sobre los ejes.
pub proof fn lema_atan2_ejes(y: int, x: int)
    ensures
        x > 0 && y == 0 ==> atan2_espec(y, x) == 0,
        x == 0 && y > 0 ==> atan2_espec(y, x) == MEDIO_PI_FIJO,
        x == 0 && y < 0 ==> atan2_espec(y, x) == -MEDIO_PI_FIJO,
        x < 0 && y == 0 ==> atan2_espec(y, x) == PI_FIJO,
{
    lema_atan_unidad_cero();
    if x > 0 && y == 0 {
        vstd::arithmetic::div_mod::lemma_div_of0(x);
    }
    if x < 0 && y == 0 {
        vstd::arithmetic::div_mod::lemma_div_of0(-x);
    }
    if x == 0 && y != 0 {
        let ay = if y >= 0 { y } else { -y };
        vstd::arithmetic::div_mod::lemma_div_of0(ay);
    }
}

} // verus!
