//! Vectores 3D en punto fijo: suma, resta, escalado, distancia, producto
//! punto, producto cruz y normalización, con contratos exactos.
use vstd::prelude::*;
use vstd::arithmetic::div_mod::{
    lemma_div_is_ordered, lemma_div_multiples_vanish, lemma_div_pos_is_pos,
};
use crate::constants::{ESCALA, LIMITE_FIJO};
use crate::fijo::{
    div_trunca, div_trunca_espec, lema_raiz_caracterizacion, raiz_entera, raiz_espec,
};

verus! {

/// Punto o vector 3D; cada componente es un escalar en punto fijo.
#[derive(Debug, Clone, Copy, PartialEq, Eq, Structural)]
pub struct Vec3 {
    pub x: i64,
    pub y: i64,
    pub z: i64,
}

/// Valor absoluto.
pub open spec fn abs_espec(x: int) -> int {
    if x >= 0 {
        x
    } else {
        -x
    }
}

/// Cada componente de `b` dista de la de `a` a lo sumo `d`.
pub open spec fn desplazamiento_acotado(a: Vec3, b: Vec3, d: int) -> bool {
    &&& -d <= b.x - a.x <= d
    &&& -d <= b.y - a.y <= d
    &&& -d <= b.z - a.z <= d
}

/// Las tres componentes de `v` caen en `[-limite, limite]`.
pub open spec fn dentro_de(v: Vec3, limite: int) -> bool {
    &&& -limite <= v.x <= limite
    &&& -limite <= v.y <= limite
    &&& -limite <= v.z <= limite
}

/// Distancia euclidiana al cuadrado entre `a` y `b` (en micro-unidades al cuadrado).
pub open spec fn distancia_cuadrada_espec(a: Vec3, b: Vec3) -> int {
    (a.x - b.x) * (a.x - b.x) + (a.y - b.y) * (a.y - b.y) + (a.z - b.z) * (a.z - b.z)
}

/// Producto punto sin reescalar (queda en micro-unidades al cuadrado).
pub open spec fn producto_punto_espec(a: Vec3, b: Vec3) -> int {
    a.x * b.x + a.y * b.y + a.z * b.z
}

impl Vec3 {
    /// Construye el vector con las componentes dadas.
    pub fn nuevo(x: i64, y: i64, z: i64) -> (r: Vec3)
        ensures
            r.x == x && r.y == y && r.z == z,
    {
        Vec3 { x, y, z }
    }

    /// El vector nulo.
    pub fn zeros() -> (r: Vec3)
        ensures
            r.x == 0 && r.y == 0 && r.z == 0,
    {
        Vec3 { x: 0, y: 0, z: 0 }
    }

    /// Suma componente a componente.
    pub fn mas(self, otro: Vec3) -> (r: Vec3)
        requires
            dentro_de(self, 4 * LIMITE_FIJO),
            dentro_de(otro, 4 * LIMITE_FIJO),
        ensures
            r.x == self.x + otro.x,
            r.y == self.y + otro.y,
            r.z == self.z + otro.z,
    {
        Vec3 { x: self.x + otro.x, y: self.y + otro.y, z: self.z + otro.z }
    }

    /// Resta componente a componente.
    pub fn menos(self, otro: Vec3) -> (r: Vec3)
        requires
            dentro_de(self, 4 * LIMITE_FIJO),
            dentro_de(otro, 4 * LIMITE_FIJO),
        ensures
            r.x == self.x - otro.x,
            r.y == self.y - otro.y,
            r.z == self.z - otro.z,
    {
        Vec3 { x: self.x - otro.x, y: self.y - otro.y, z: self.z - otro.z }
    }

    /// Escala el vector por un factor en punto fijo (trunca hacia cero).
    pub fn escalado(self, factor: i64) -> (r: Vec3)
        requires
            dentro_de(self, 2 * (ESCALA as int)),
            -LIMITE_FIJO <= factor <= LIMITE_FIJO,
        ensures
            r.x == div_trunca_espec(self.x * factor, ESCALA as int),
            r.y == div_trunca_espec(self.y * factor, ESCALA as int),
            r.z == div_trunca_espec(self.z * factor, ESCALA as int),
            dentro_de(r, 2 * (LIMITE_FIJO as int)),
            dentro_de(self, ESCALA as int) ==> dentro_de(r, abs_espec(factor as int)),
    {
        Vec3 {
            x: componente_escalada(self.x, factor),
            y: componente_escalada(self.y, factor),
            z: componente_escalada(self.z, factor),
        }
    }
}

/// Una componente escalada por un factor en punto fijo.
fn componente_escalada(v: i64, factor: i64) -> (r: i64)
    requires
        -(2 * ESCALA) <= v <= 2 * ESCALA,
        -LIMITE_FIJO <= factor <= LIMITE_FIJO,
    ensures
        r == div_trunca_espec(v as int * factor, ESCALA as int),
        -(2 * LIMITE_FIJO) <= r <= 2 * LIMITE_FIJO,
        -ESCALA <= v <= ESCALA ==> -abs_espec(factor as int) <= r <= abs_espec(factor as int),
{
    proof {
        assert(-(2 * (ESCALA as int)) * LIMITE_FIJO <= v as int * factor <= (2 * (ESCALA as int))
            * LIMITE_FIJO) by (nonlinear_arith)
            requires
                -(2 * ESCALA) <= v as int <= 2 * ESCALA,
                -LIMITE_FIJO <= factor as int <= LIMITE_FIJO;
    }
    let q = div_trunca((v as i128) * (factor as i128), ESCALA as i128);
    proof {
        lema_cociente_en_i64(v as int * factor);
        if -ESCALA <= v <= ESCALA {
            let e = ESCALA as int;
            let af = abs_espec(factor as int);
            let n = v as int * factor;
            assert(-(e * af) <= n <= e * af) by (nonlinear_arith)
                requires
                    -e <= v as int <= e,
                    af == abs_espec(factor as int),
                    n == v as int * factor,
                    e > 0;
            if n >= 0 {
                lemma_div_pos_is_pos(n, e);
                lemma_div_is_ordered(n, e * af, e);
                lemma_div_multiples_vanish(af, e);
            } else {
                lemma_div_pos_is_pos(-n, e);
                lemma_div_is_ordered(-n, e * af, e);
                lemma_div_multiples_vanish(af, e);
            }
        }
    }
    q as i64
}

/// El cociente de un producto acotado entre ESCALA cabe en `i64`.
proof fn lema_cociente_en_i64(n: int)
    requires
        -(2 * (ESCALA as int)) * LIMITE_FIJO <= n <= (2 * (ESCALA as int)) * LIMITE_FIJO,
    ensures
        -(2 * (LIMITE_FIJO as int)) <= div_trunca_espec(n, ESCALA as int) <= 2 * (
        LIMITE_FIJO as int),
{
    let e = ESCALA as int;
    let tope = 2 * (LIMITE_FIJO as int);
    assert((2 * (ESCALA as int)) * LIMITE_FIJO <= e * tope) by (nonlinear_arith)
        requires
            tope == 2 * (LIMITE_FIJO as int),
            e == ESCALA as int;
    if n >= 0 {
        lemma_div_pos_is_pos(n, e);
        lemma_div_is_ordered(n, e * tope, e);
        lemma_div_multiples_vanish(tope, e);
    } else {
        lemma_div_pos_is_pos(-n, e);
        lemma_div_is_ordered(-n, e * tope, e);
        lemma_div_multiples_vanish(tope, e);
    }
}

/// Cuadrado de una diferencia de componentes acotadas.
proof fn lema_cuadrado_diferencia(a: int, b: int)
    requires
        -LIMITE_FIJO <= a <= LIMITE_FIJO,
        -LIMITE_FIJO <= b <= LIMITE_FIJO,
    ensures
        0 <= (a - b) * (a - b) <= (4 * LIMITE_FIJO) * LIMITE_FIJO,
{
    assert(0 <= (a - b) * (a - b) <= (4 * LIMITE_FIJO) * LIMITE_FIJO) by (nonlinear_arith)
        requires
            -LIMITE_FIJO <= a <= LIMITE_FIJO,
            -LIMITE_FIJO <= b <= LIMITE_FIJO;
}

/// Distancia euclidiana al cuadrado; exacta, sin raíces.
pub fn distancia_cuadrada(a: Vec3, b: Vec3) -> (r: i128)
    requires
        dentro_de(a, LIMITE_FIJO as int),
        dentro_de(b, LIMITE_FIJO as int),
    ensures
        r == distancia_cuadrada_espec(a, b),
        0 <= r <= (12 * LIMITE_FIJO) * LIMITE_FIJO,
{
    proof {
        lema_cuadrado_diferencia(a.x as int, b.x as int);
        lema_cuadrado_diferencia(a.y as int, b.y as int);
        lema_cuadrado_diferencia(a.z as int, b.z as int);
    }
    let dx = (a.x as i128) - (b.x as i128);
    let dy = (a.y as i128) - (b.y as i128);
    let dz = (a.z as i128) - (b.z as i128);
    dx * dx + dy * dy + dz * dz
}

/// Distancia euclidiana, redondeada hacia abajo (en micro-unidades).
pub fn distancia(a: Vec3, b: Vec3) -> (r: i64)
    requires
        dentro_de(a, LIMITE_FIJO as int),
        dentro_de(b, LIMITE_FIJO as int),
    ensures
        r == raiz_espec(distancia_cuadrada_espec(a, b)),
        0 <= r <= 4 * LIMITE_FIJO,
{
    let d2 = distancia_cuadrada(a, b);
    let r = raiz_entera(d2 as u128);
    proof {
        lema_raiz_caracterizacion(d2 as int);
        assert(raiz_espec(d2 as int) <= 4 * LIMITE_FIJO) by (nonlinear_arith)
            requires
                raiz_espec(d2 as int) >= 0,
                raiz_espec(d2 as int) * raiz_espec(d2 as int) <= d2 as int,
                d2 as int <= (12 * LIMITE_FIJO) * LIMITE_FIJO,
                LIMITE_FIJO > 0;
    }
    r as i64
}

/// Producto punto sin reescalar.
pub fn producto_punto(a: Vec3, b: Vec3) -> (r: i128)
    requires
        dentro_de(a, LIMITE_FIJO as int),
        dentro_de(b, LIMITE_FIJO as int),
    ensures
        r == producto_punto_espec(a, b),
        -(3 * LIMITE_FIJO) * LIMITE_FIJO <= r <= (3 * LIMITE_FIJO) * LIMITE_FIJO,
{
    proof {
        assert(-(LIMITE_FIJO as int) * LIMITE_FIJO <= a.x as int * b.x as int <= (
        LIMITE_FIJO as int) * LIMITE_FIJO) by (nonlinear_arith)
            requires
                -LIMITE_FIJO <= a.x as int <= LIMITE_FIJO,
                -LIMITE_FIJO <= b.x as int <= LIMITE_FIJO;
        assert(-(LIMITE_FIJO as int) * LIMITE_FIJO <= a.y as int * b.y as int <= (
        LIMITE_FIJO as int) * LIMITE_FIJO) by (nonlinear_arith)
            requires
                -LIMITE_FIJO <= a.y as int <= LIMITE_FIJO,
                -LIMITE_FIJO <= b.y as int <= LIMITE_FIJO;
        assert(-(LIMITE_FIJO as int) * LIMITE_FIJO <= a.z as int * b.z as int <= (
        LIMITE_FIJO as int) * LIMITE_FIJO) by (nonlinear_arith)
            requires
                -LIMITE_FIJO <= a.z as int <= LIMITE_FIJO,
                -LIMITE_FIJO <= b.z as int <= LIMITE_FIJO;
    }
    (a.x as i128) * (b.x as i128) + (a.y as i128) * (b.y as i128) + (a.z as i128) * (b.z as i128)
}

/// Norma euclidiana de `v`, redondeada hacia abajo.
pub open spec fn norma_espec(v: Vec3) -> int {
    raiz_espec(distancia_cuadrada_espec(v, Vec3 { x: 0, y: 0, z: 0 }))
}

/// Norma euclidiana (longitud) de un vector, en micro-unidades.
pub fn norma(v: Vec3) -> (r: i64)
    requires
        dentro_de(v, LIMITE_FIJO as int),
    ensures
        r == norma_espec(v),
        0 <= r <= 4 * LIMITE_FIJO,
{
    distancia(v, Vec3 { x: 0, y: 0, z: 0 })
}

/// Una componente del producto cruz reescalado: `(p - q) / ESCALA`.
pub open spec fn componente_cruz_espec(p: int, q: int) -> int {
    div_trunca_espec(p - q, ESCALA as int)
}

/// Producto cruz en punto fijo (cada componente se reescala por ESCALA).
/// Pensado para vectores de dirección, de componentes en `[-8, 8]` unidades.
pub fn producto_cruz(a: Vec3, b: Vec3) -> (r: Vec3)
    requires
        dentro_de(a, 8 * ESCALA),
        dentro_de(b, 8 * ESCALA),
    ensures
        r.x == componente_cruz_espec(a.y * b.z, a.z * b.y),
        r.y == componente_cruz_espec(a.z * b.x, a.x * b.z),
        r.z == componente_cruz_espec(a.x * b.y, a.y * b.x),
        dentro_de(r, 128 * ESCALA),
{
    let x = componente_cruz(a.y, b.z, a.z, b.y);
    let y = componente_cruz(a.z, b.x, a.x, b.z);
    let z = componente_cruz(a.x, b.y, a.y, b.x);
    Vec3 { x, y, z }
}

/// `(p1 * p2 - q1 * q2) / ESCALA` para componentes de dirección.
fn componente_cruz(p1: i64, p2: i64, q1: i64, q2: i64) -> (r: i64)
    requires
        -(8 * ESCALA) <= p1 <= 8 * ESCALA,
        -(8 * ESCALA) <= p2 <= 8 * ESCALA,
        -(8 * ESCALA) <= q1 <= 8 * ESCALA,
        -(8 * ESCALA) <= q2 <= 8 * ESCALA,
    ensures
        r == componente_cruz_espec(p1 * p2, q1 * q2),
        -(128 * ESCALA) <= r <= 128 * ESCALA,
{
    proof {
        let tope = (64 * ESCALA) * ESCALA;
        assert(-tope <= p1 as int * p2 as int <= tope && -tope <= q1 as int * q2 as int <= tope)
            by (nonlinear_arith)
            requires
                -(8 * ESCALA) <= p1 as int <= 8 * ESCALA,
                -(8 * ESCALA) <= p2 as int <= 8 * ESCALA,
                -(8 * ESCALA) <= q1 as int <= 8 * ESCALA,
                -(8 * ESCALA) <= q2 as int <= 8 * ESCALA,
                tope == (64 * ESCALA) * ESCALA;
    }
    let n = (p1 as i128) * (p2 as i128) - (q1 as i128) * (q2 as i128);
    let q = div_trunca(n, ESCALA as i128);
    proof {
        let e = ESCALA as int;
        let ni = p1 as int * p2 as int - q1 as int * q2 as int;
        let tope = 128 * e;
        assert((128 * e) * e == e * tope) by (nonlinear_arith)
            requires tope == 128 * e;
        if ni >= 0 {
            lemma_div_pos_is_pos(ni, e);
            lemma_div_is_ordered(ni, e * tope, e);
            lemma_div_multiples_vanish(tope, e);
        } else {
            lemma_div_pos_is_pos(-ni, e);
            lemma_div_is_ordered(-ni, e * tope, e);
            lemma_div_multiples_vanish(tope, e);
        }
    }
    q as i64
}

/// Versión normalizada de `v` en punto fijo: `v * ESCALA / |v|`, componente a
/// componente y truncando hacia cero; las componentes quedan en `[-1, 1]`.
pub open spec fn normalizado_espec(v: Vec3) -> Vec3 {
    let n = distancia_cuadrada_espec(v, Vec3 { x: 0, y: 0, z: 0 });
    let l = raiz_espec(n);
    Vec3 {
        x: div_trunca_espec(v.x * ESCALA, l) as i64,
        y: div_trunca_espec(v.y * ESCALA, l) as i64,
        z: div_trunca_espec(v.z * ESCALA, l) as i64,
    }
}

/// Normaliza un vector no nulo a longitud (aproximada) ESCALA.
pub fn normalizar(v: Vec3) -> (r: Vec3)
    requires
        dentro_de(v, LIMITE_FIJO as int),
        !(v.x == 0 && v.y == 0 && v.z == 0),
    ensures
        r == normalizado_espec(v),
        dentro_de(r, ESCALA as int),
{
    let cero = Vec3 { x: 0, y: 0, z: 0 };
    let n = distancia_cuadrada(v, cero);
    let l = raiz_entera(n as u128);
    proof {
        lema_raiz_caracterizacion(n as int);
        assert(v.x as int * v.x as int <= n && v.y as int * v.y as int <= n && v.z as int
            * v.z as int <= n && n >= 1) by (nonlinear_arith)
            requires
                n == v.x as int * v.x as int + v.y as int * v.y as int + v.z as int * v.z as int,
                !(v.x as int == 0 && v.y as int == 0 && v.z as int == 0);
        lema_componente_bajo_raiz(v.x as int, n as int);
        lema_componente_bajo_raiz(v.y as int, n as int);
        lema_componente_bajo_raiz(v.z as int, n as int);
        assert(raiz_espec(n as int) <= 4 * LIMITE_FIJO) by (nonlinear_arith)
            requires
                raiz_espec(n as int) >= 0,
                raiz_espec(n as int) * raiz_espec(n as int) <= n as int,
                n as int <= (12 * LIMITE_FIJO) * LIMITE_FIJO,
                LIMITE_FIJO > 0;
    }
    let x = componente_normalizada(v.x, l as i64);
    let y = componente_normalizada(v.y, l as i64);
    let z = componente_normalizada(v.z, l as i64);
    Vec3 { x, y, z }
}

/// Si `c` es una componente de un vector con norma cuadrada `n`, entonces
/// `|c| <= raiz_espec(n)`.
proof fn lema_componente_bajo_raiz(c: int, n: int)
    requires
        n >= 0,
        c * c <= n,
    ensures
        -raiz_espec(n) <= c <= raiz_espec(n),
{
    lema_raiz_caracterizacion(n);
    let l = raiz_espec(n);
    assert(-l <= c <= l) by (nonlinear_arith)
        requires
            l >= 0,
            c * c <= n,
            n < (l + 1) * (l + 1);
}

/// `c * ESCALA / l` para `|c| <= l`: queda en `[-ESCALA, ESCALA]`.
fn componente_normalizada(c: i64, l: i64) -> (r: i64)
    requires
        l > 0,
        -l <= c <= l,
        l <= 4 * LIMITE_FIJO,
    ensures
        r == div_trunca_espec(c as int * ESCALA, l as int),
        -ESCALA <= r <= ESCALA,
{
    proof {
        assert(-(4 * LIMITE_FIJO) * ESCALA <= c as int * ESCALA <= (4 * LIMITE_FIJO) * ESCALA)
            by (nonlinear_arith)
            requires
                -(4 * LIMITE_FIJO) <= c as int <= 4 * LIMITE_FIJO,
                ESCALA > 0;
    }
    let q = div_trunca((c as i128) * (ESCALA as i128), l as i128);
    proof {
        let li = l as int;
        let e = ESCALA as int;
        if c >= 0 {
            assert(c as int * e <= li * e) by (nonlinear_arith)
                requires 0 <= c as int <= li && e > 0;
            lemma_div_pos_is_pos(c as int * e, li);
            lemma_div_is_ordered(c as int * e, li * e, li);
            lemma_div_multiples_vanish(e, li);
        } else {
            assert(-(c as int) * e <= li * e) by (nonlinear_arith)
                requires 0 <= -(c as int) <= li && e > 0;
            assert(-(c as int * e) == -(c as int) * e) by (nonlinear_arith);
            lemma_div_pos_is_pos(-(c as int) * e, li);
            lemma_div_is_ordered(-(c as int) * e, li * e, li);
            lemma_div_multiples_vanish(e, li);
        }
    }
    q as i64
}

} // verus!
