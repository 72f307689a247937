//! Utilidades de interpolación y conversión de ángulos, en punto fijo.
use vstd::prelude::*;
use vstd::arithmetic::div_mod::{
    lemma_div_is_ordered, lemma_div_multiples_vanish, lemma_div_of0, lemma_div_pos_is_pos,
};
use crate::constants::{ESCALA, LIMITE_FIJO, MEDIO_PI_FIJO, PI_FIJO};
use crate::fijo::{div_trunca, div_trunca_espec};
use crate::trig::{asin_espec, asin_fijo};
use crate::vec3::{dentro_de, norma, norma_espec, producto_punto, producto_punto_espec, Vec3};

verus! {

/// Interpolación suave (ease-in-out cúbico): `t^2 (3 - 2 t)` sobre `[0, 1]`.
pub open spec fn suavizado_espec(t: int) -> int {
    (t * t * (3 * ESCALA - 2 * t)) / ((ESCALA as int) * (ESCALA as int))
}

/// Aceleración (ease-in): `t^2`.
pub open spec fn acelerado_espec(t: int) -> int {
    (t * t) / (ESCALA as int)
}

/// Desaceleración (ease-out): `t (2 - t)`.
pub open spec fn desacelerado_espec(t: int) -> int {
    (t * (2 * ESCALA - t)) / (ESCALA as int)
}

/// Cotas del numerador de `suavizado_espec` sobre `[0, ESCALA]`.
proof fn lema_suavizado_numerador(t: int)
    requires
        0 <= t <= ESCALA,
    ensures
        0 <= t * t * (3 * ESCALA - 2 * t) <= (ESCALA as int) * (ESCALA as int) * ESCALA,
        0 <= suavizado_espec(t) <= ESCALA,
{
    let e = ESCALA as int;
    let n = t * t * (3 * e - 2 * t);
    assert(0 <= n <= e * e * e) by (nonlinear_arith)
        requires 0 <= t <= e && n == t * t * (3 * e - 2 * t);
    assert(e * e * e == (e * e) * e) by (nonlinear_arith);
    lemma_div_pos_is_pos(n, e * e);
    lemma_div_is_ordered(n, (e * e) * e, e * e);
    lemma_div_multiples_vanish(e, e * e);
}

/// Interpolación suave entre 0 y ESCALA (ease-in-out).
pub fn smooth_step(t: i64) -> (r: i64)
    requires
        0 <= t <= ESCALA,
    ensures
        r == suavizado_espec(t as int),
        0 <= r <= ESCALA,
{
    proof {
        lema_suavizado_numerador(t as int);
        assert(0 <= t * t <= (ESCALA as int) * (ESCALA as int)) by (nonlinear_arith)
            requires 0 <= t <= ESCALA;
    }
    let ti = t as i128;
    let e = ESCALA as i128;
    let n = ti * ti * (3 * e - 2 * ti);
    let q = (n as u128) / ((e * e) as u128);
    q as i64
}

/// El suavizado es exacto en los extremos y en el punto medio.
pub proof fn lema_suavizado_extremos()
    ensures
        suavizado_espec(0) == 0,
        suavizado_espec(ESCALA as int) == ESCALA,
        suavizado_espec((ESCALA / 2) as int) == ESCALA / 2,
{
    let e = ESCALA as int;
    assert(suavizado_espec(0) == 0) by {
        lemma_div_of0(e * e);
    }
    assert(suavizado_espec(e) == e) by {
        assert(e * e * (3 * e - 2 * e) == (e * e) * e) by (nonlinear_arith);
        lemma_div_multiples_vanish(e, e * e);
    }
    assert(suavizado_espec(e / 2) == e / 2) by {
        let m = e / 2;
        assert(m == 500_000);
        assert(m * m * (3 * e - 2 * m) == (e * e) * m) by (nonlinear_arith)
            requires m == 500_000 && e == 1_000_000;
        lemma_div_multiples_vanish(m, e * e);
    }
}

/// El suavizado nunca decrece sobre `[0, ESCALA]`.
pub proof fn lema_suavizado_monotono(t1: int, t2: int)
    requires
        0 <= t1 <= t2 <= ESCALA,
    ensures
        suavizado_espec(t1) <= suavizado_espec(t2),
{
    let e = ESCALA as int;
    let n1 = t1 * t1 * (3 * e - 2 * t1);
    let n2 = t2 * t2 * (3 * e - 2 * t2);
    assert(n2 - n1 == (t2 - t1) * (3 * e * (t1 + t2) - 2 * (t2 * t2 + t1 * t2 + t1 * t1)))
        by (nonlinear_arith)
        requires
            n1 == t1 * t1 * (3 * e - 2 * t1),
            n2 == t2 * t2 * (3 * e - 2 * t2);
    assert((t2 - t1) * (3 * e * (t1 + t2) - 2 * (t2 * t2 + t1 * t2 + t1 * t1)) >= 0)
        by (nonlinear_arith)
        requires 0 <= t1 <= t2 <= e;
    lemma_div_is_ordered(n1, n2, e * e);
}

/// Interpolación con aceleración (ease-in).
pub fn ease_in(t: i64) -> (r: i64)
    requires
        0 <= t <= ESCALA,
    ensures
        r == acelerado_espec(t as int),
        0 <= r <= ESCALA,
{
    proof {
        let e = ESCALA as int;
        assert(0 <= t * t <= e * e) by (nonlinear_arith)
            requires 0 <= t <= e;
        lemma_div_pos_is_pos(t * t, e);
        lemma_div_is_ordered(t * t, e * e, e);
        lemma_div_multiples_vanish(e, e);
    }
    let q = ((t as u128) * (t as u128)) / (ESCALA as u128);
    q as i64
}

/// Interpolación con desaceleración (ease-out).
pub fn ease_out(t: i64) -> (r: i64)
    requires
        0 <= t <= ESCALA,
    ensures
        r == desacelerado_espec(t as int),
        0 <= r <= ESCALA,
{
    proof {
        let e = ESCALA as int;
        assert(0 <= t * (2 * e - t) <= e * e) by (nonlinear_arith)
            requires 0 <= t <= e;
        lemma_div_pos_is_pos(t * (2 * e - t), e);
        lemma_div_is_ordered(t * (2 * e - t), e * e, e);
        lemma_div_multiples_vanish(e, e);
    }
    let n = (t as u128) * ((2 * ESCALA - t) as u128);
    let q = n / (ESCALA as u128);
    q as i64
}

/// Conversión de micro-grados a micro-radianes.
pub open spec fn grados_a_radianes_espec(d: int) -> int {
    div_trunca_espec(d * PI_FIJO, 180 * (ESCALA as int))
}

/// Conversión de micro-radianes a micro-grados.
pub open spec fn radianes_a_grados_espec(r: int) -> int {
    div_trunca_espec(r * 180 * ESCALA, PI_FIJO as int)
}

/// Convertir grados a radianes (ambos en punto fijo).
pub fn deg_to_rad(degrees: i64) -> (r: i64)
    requires
        -LIMITE_FIJO <= degrees <= LIMITE_FIJO,
    ensures
        r == grados_a_radianes_espec(degrees as int),
        -LIMITE_FIJO <= r <= LIMITE_FIJO,
{
    let n = (degrees as i128) * (PI_FIJO as i128);
    let q = div_trunca(n, 180 * (ESCALA as i128));
    proof {
        lema_cociente_acotado(degrees as int * PI_FIJO, 180 * (ESCALA as int), PI_FIJO as int, LIMITE_FIJO as int);
    }
    q as i64
}

/// Convertir radianes a grados (ambos en punto fijo).
pub fn rad_to_deg(radians: i64) -> (r: i64)
    requires
        -10_000_000_000_000 <= radians <= 10_000_000_000_000,
    ensures
        r == radianes_a_grados_espec(radians as int),
{
    let n = (radians as i128) * 180_000_000;
    let q = div_trunca(n, PI_FIJO as i128);
    proof {
        let ni = radians as int * 180 * ESCALA;
        if ni >= 0 {
            lemma_div_is_ordered(ni, 1_800_000_000_000_000_000_000int, PI_FIJO as int);
        } else {
            lemma_div_is_ordered(-ni, 1_800_000_000_000_000_000_000int, PI_FIJO as int);
        }
    }
    q as i64
}

/// Si `|n| <= c * limite` y el divisor `b` cumple `b >= c`, el cociente
/// truncado queda en `[-limite, limite]`.
proof fn lema_cociente_acotado(n: int, b: int, c: int, limite: int)
    requires
        b >= c > 0,
        limite >= 0,
        -(c * limite) <= n <= c * limite,
    ensures
        -limite <= div_trunca_espec(n, b) <= limite,
{
    if n >= 0 {
        lemma_div_pos_is_pos(n, b);
        assert(n <= b * limite) by (nonlinear_arith)
            requires n <= c * limite && b >= c && limite >= 0;
        lemma_div_is_ordered(n, b * limite, b);
        lemma_div_multiples_vanish(limite, b);
    } else {
        lemma_div_pos_is_pos(-n, b);
        assert(-n <= b * limite) by (nonlinear_arith)
            requires -n <= c * limite && b >= c && limite >= 0;
        lemma_div_is_ordered(-n, b * limite, b);
        lemma_div_multiples_vanish(limite, b);
    }
}

/// Interpolación lineal escalar: `a + (b - a) * t`, con `t` en `[0, ESCALA]`.
pub open spec fn lerp_espec(a: int, b: int, t: int) -> int {
    a + div_trunca_espec((b - a) * t, ESCALA as int)
}

/// Interpolación lineal escalar en punto fijo; exacta en los extremos.
pub fn lerp_fijo(a: i64, b: i64, t: i64) -> (r: i64)
    requires
        -LIMITE_FIJO <= a <= LIMITE_FIJO,
        -LIMITE_FIJO <= b <= LIMITE_FIJO,
        0 <= t <= ESCALA,
    ensures
        r == lerp_espec(a as int, b as int, t as int),
        t == 0 ==> r == a,
        t == ESCALA ==> r == b,
        a <= b ==> a <= r <= b,
        b <= a ==> b <= r <= a,
{
    let d = (b as i128) - (a as i128);
    proof {
        assert(-(2 * LIMITE_FIJO) * ESCALA <= (b - a) * t <= (2 * LIMITE_FIJO) * ESCALA)
            by (nonlinear_arith)
            requires
                -(2 * LIMITE_FIJO) <= b - a <= 2 * LIMITE_FIJO,
                0 <= t <= ESCALA;
    }
    let q = div_trunca(d * (t as i128), ESCALA as i128);
    proof {
        let e = ESCALA as int;
        let di = b as int - a as int;
        if t == 0 {
            lemma_div_of0(e);
        }
        if di >= 0 {
            assert(0 <= di * t <= di * e) by (nonlinear_arith)
                requires 0 <= t <= e && di >= 0;
            lemma_div_pos_is_pos(di * t, e);
            lemma_div_is_ordered(di * t, di * e, e);
            assert(di * e == e * di) by (nonlinear_arith);
            lemma_div_multiples_vanish(di, e);
        } else {
            assert(0 <= (-di) * t <= (-di) * e) by (nonlinear_arith)
                requires 0 <= t <= e && di < 0;
            assert(-(di * t) == (-di) * t) by (nonlinear_arith);
            lemma_div_pos_is_pos((-di) * t, e);
            lemma_div_is_ordered((-di) * t, (-di) * e, e);
            assert((-di) * e == e * (-di)) by (nonlinear_arith);
            lemma_div_multiples_vanish(-di, e);
        }
    }
    a + (q as i64)
}

/// Interpolación lineal entre dos puntos, componente a componente.
pub fn lerp_vec3(a: &Vec3, b: &Vec3, t: i64) -> (r: Vec3)
    requires
        dentro_de(*a, LIMITE_FIJO as int),
        dentro_de(*b, LIMITE_FIJO as int),
        0 <= t <= ESCALA,
    ensures
        r.x == lerp_espec(a.x as int, b.x as int, t as int),
        r.y == lerp_espec(a.y as int, b.y as int, t as int),
        r.z == lerp_espec(a.z as int, b.z as int, t as int),
        t == 0 ==> r == *a,
        t == ESCALA ==> r == *b,
        dentro_de(r, LIMITE_FIJO as int),
{
    Vec3 {
        x: lerp_fijo(a.x, b.x, t),
        y: lerp_fijo(a.y, b.y, t),
        z: lerp_fijo(a.z, b.z, t),
    }
}

/// Ángulo entre dos vectores: `acos(dot / (|a| |b|))`, con el coseno recortado
/// a `[-1, 1]` antes del arcocoseno; cero si alguno de los dos es nulo.
pub open spec fn angulo_entre_espec(a: Vec3, b: Vec3) -> int {
    if norma_espec(a) == 0 || norma_espec(b) == 0 {
        0
    } else {
        let c = div_trunca_espec(
            producto_punto_espec(a, b) * ESCALA,
            norma_espec(a) * norma_espec(b),
        );
        let cc = if c > ESCALA {
            ESCALA as int
        } else if c < -ESCALA {
            -(ESCALA as int)
        } else {
            c
        };
        MEDIO_PI_FIJO - asin_espec(cc)
    }
}

/// Ángulo entre dos vectores, en micro-radianes dentro de `[0, PI_FIJO]`.
pub fn angle_between(a: &Vec3, b: &Vec3) -> (r: i64)
    requires
        dentro_de(*a, LIMITE_FIJO as int),
        dentro_de(*b, LIMITE_FIJO as int),
    ensures
        r == angulo_entre_espec(*a, *b),
        0 <= r <= PI_FIJO,
{
    let la = norma(*a);
    let lb = norma(*b);
    if la == 0 || lb == 0 {
        return 0;
    }
    let dot = producto_punto(*a, *b);
    proof {
        assert(la as int * lb as int >= 1 && la as int * lb as int <= (4 * LIMITE_FIJO) * (4
            * LIMITE_FIJO)) by (nonlinear_arith)
            requires
                1 <= la as int <= 4 * LIMITE_FIJO,
                1 <= lb as int <= 4 * LIMITE_FIJO;
    }
    let den = (la as i128) * (lb as i128);
    proof {
        assert(-3_000_000_000_000_000_000_000_000_000_000_000_000int <= dot as int * ESCALA
            <= 3_000_000_000_000_000_000_000_000_000_000_000_000int) by (nonlinear_arith)
            requires
                -(3 * (LIMITE_FIJO as int)) * LIMITE_FIJO <= dot as int <= (3 * (
                LIMITE_FIJO as int)) * LIMITE_FIJO,
                ESCALA == 1_000_000,
                LIMITE_FIJO == 1_000_000_000_000_000;
    }
    let c = div_trunca(dot * (ESCALA as i128), den);
    let cc: i64 = if c > ESCALA as i128 {
        ESCALA
    } else if c < -(ESCALA as i128) {
        -ESCALA
    } else {
        c as i64
    };
    let s = asin_fijo(cc);
    MEDIO_PI_FIJO - s
}

} // verus!
