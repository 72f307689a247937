//! Sistema de colisiones: consultas y correcciones geométricas, sin estado
//! propio, contra una instantánea del sistema orbital. Las comparaciones de
//! distancia se hacen sobre cuadrados exactos, de modo que el resultado es el
//! de la comparación real, sin error de redondeo.
use vstd::prelude::*;
use crate::celestial_body::{excursion_orbital, limites_cuerpo, CelestialBody};
use crate::constants::{ESCALA, LIMITE_FIJO, LIMITE_RADIO, MIN_DISTANCE_TO_BODY};
use crate::fijo::{
    div_alejada, div_alejada_espec, lema_div_alejada_cota, lema_div_alejada_no_acorta,
    lema_raiz_caracterizacion, raiz_entera, raiz_espec,
};
use crate::orbital_system::{cuerpos_bien_formados, OrbitalSystem};
use crate::vec3::{
    dentro_de, distancia_cuadrada, distancia_cuadrada_espec, normalizado_espec, normalizar, Vec3,
};

verus! {

/// Consultas y correcciones de colisión contra los cuerpos de un sistema.
pub struct CollisionSystem;

/// Holgura de seguridad total entre un punto de radio `radio` y un cuerpo.
pub open spec fn radio_minimo_espec(radio: int, cuerpo_radio: int) -> int {
    radio + cuerpo_radio + MIN_DISTANCE_TO_BODY
}

/// El punto (una esfera de radio `radio`) invade la esfera de seguridad del
/// cuerpo: distancia estrictamente menor que la holgura.
pub open spec fn colisiona_espec(posicion: Vec3, radio: int, c: CelestialBody) -> bool {
    distancia_cuadrada_espec(posicion, c.posicion) < radio_minimo_espec(radio, c.radio as int)
        * radio_minimo_espec(radio, c.radio as int)
}

/// Índice del primer cuerpo (en orden de iteración) en colisión, si existe.
pub open spec fn primera_colision(s: Seq<CelestialBody>, posicion: Vec3, radio: int) -> Option<
    int,
>
    decreases s.len(),
{
    if s.len() == 0 {
        Option::None
    } else if colisiona_espec(posicion, radio, s[0]) {
        Option::Some(0int)
    } else {
        match primera_colision(s.skip(1), posicion, radio) {
            Option::Some(i) => Option::Some(i + 1),
            Option::None => Option::None,
        }
    }
}

/// `primera_colision` devuelve el primer índice en colisión, o `None` si no
/// hay ninguno.
pub proof fn lema_primera_caracterizacion(s: Seq<CelestialBody>, posicion: Vec3, radio: int)
    ensures
        match primera_colision(s, posicion, radio) {
            Option::Some(i) => 0 <= i < s.len() && colisiona_espec(posicion, radio, s[i]) && (
            forall|j: int| 0 <= j < i ==> !colisiona_espec(posicion, radio, #[trigger] s[j])),
            Option::None => forall|j: int|
                0 <= j < s.len() ==> !colisiona_espec(posicion, radio, #[trigger] s[j]),
        },
    decreases s.len(),
{
    if s.len() > 0 && !colisiona_espec(posicion, radio, s[0]) {
        lema_primera_caracterizacion(s.skip(1), posicion, radio);
        match primera_colision(s, posicion, radio) {
            Option::Some(k) => {
                assert(s.skip(1)[k - 1] == s[k]);
                assert forall|j: int| 0 <= j < k implies !colisiona_espec(
                    posicion,
                    radio,
                    #[trigger] s[j],
                ) by {
                    if j >= 1 {
                        assert(s.skip(1)[j - 1] == s[j]);
                    }
                }
            },
            Option::None => {
                assert forall|j: int| 0 <= j < s.len() implies !colisiona_espec(
                    posicion,
                    radio,
                    #[trigger] s[j],
                ) by {
                    if j >= 1 {
                        assert(s.skip(1)[j - 1] == s[j]);
                    }
                }
            },
        }
    }
}

/// Si ningún cuerpo colisiona, `primera_colision` es `None`.
pub proof fn lema_primera_ninguna(s: Seq<CelestialBody>, posicion: Vec3, radio: int)
    requires
        forall|j: int| 0 <= j < s.len() ==> !colisiona_espec(posicion, radio, #[trigger] s[j]),
    ensures
        primera_colision(s, posicion, radio) is None,
    decreases s.len(),
{
    if s.len() > 0 {
        assert forall|j: int| 0 <= j < s.len() - 1 implies !colisiona_espec(
            posicion,
            radio,
            #[trigger] s.skip(1)[j],
        ) by {
            assert(s.skip(1)[j] == s[j + 1]);
        }
        lema_primera_ninguna(s.skip(1), posicion, radio);
    }
}

/// Si `i` colisiona y ningún índice anterior lo hace, `primera_colision` es `i`.
pub proof fn lema_primera_alguna(s: Seq<CelestialBody>, posicion: Vec3, radio: int, i: int)
    requires
        0 <= i < s.len(),
        colisiona_espec(posicion, radio, s[i]),
        forall|j: int| 0 <= j < i ==> !colisiona_espec(posicion, radio, #[trigger] s[j]),
    ensures
        primera_colision(s, posicion, radio) == Option::Some(i),
    decreases i,
{
    if i > 0 {
        assert(s.skip(1)[i - 1] == s[i]);
        assert forall|j: int| 0 <= j < i - 1 implies !colisiona_espec(
            posicion,
            radio,
            #[trigger] s.skip(1)[j],
        ) by {
            assert(s.skip(1)[j] == s[j + 1]);
        }
        lema_primera_alguna(s.skip(1), posicion, radio, i - 1);
    }
}

/// El punto al que la corrección empuja una posición que invadía al cuerpo
/// `c`: radialmente hacia fuera, sobre la superficie de la esfera de
/// seguridad, redondeando lejos del cuerpo. Si la posición coincide con el
/// centro, la dirección es indefinida y se usa el eje +X como respaldo
/// determinista.
pub open spec fn correccion_espec(posicion: Vec3, radio: int, c: CelestialBody) -> Vec3 {
    let seguro = radio_minimo_espec(radio, c.radio as int);
    if posicion == c.posicion {
        Vec3 {
            x: (c.posicion.x + seguro) as i64,
            y: c.posicion.y,
            z: c.posicion.z,
        }
    } else {
        let l = raiz_espec(distancia_cuadrada_espec(posicion, c.posicion));
        Vec3 {
            x: (c.posicion.x + div_alejada_espec((posicion.x - c.posicion.x) * seguro, l)) as i64,
            y: (c.posicion.y + div_alejada_espec((posicion.y - c.posicion.y) * seguro, l)) as i64,
            z: (c.posicion.z + div_alejada_espec((posicion.z - c.posicion.z) * seguro, l)) as i64,
        }
    }
}

/// Resultado completo de la corrección: la posición deseada si no invade a
/// nadie; si no, el empuje radial fuera del primer cuerpo invadido.
pub open spec fn correccion_total_espec(posicion: Vec3, radio: int, s: Seq<CelestialBody>) -> Vec3 {
    match primera_colision(s, posicion, radio) {
        Option::Some(i) => correccion_espec(posicion, radio, s[i]),
        Option::None => posicion,
    }
}

/// Cotas de una componente corregida: el empuje nunca supera la holgura.
proof fn lema_empuje_acotado(dj: int, seguro: int, l: int)
    requires
        1 <= l,
        0 < seguro,
        -l <= dj <= l,
    ensures
        -seguro <= div_alejada_espec(dj * seguro, l) <= seguro,
{
    let a = dj * seguro;
    assert(-(l * seguro) <= a <= l * seguro) by (nonlinear_arith)
        requires
            a == dj * seguro,
            -l <= dj <= l,
            0 < seguro;
    if a >= 0 {
        lema_div_alejada_cota(a, l);
        let q = div_alejada_espec(a, l);
        assert(q <= seguro) by (nonlinear_arith)
            requires
                q * l < a + l,
                a <= l * seguro,
                dj <= l,
                0 < seguro,
                1 <= l,
                a == dj * seguro,
                0 <= q;
    } else {
        lema_div_alejada_cota(-a, l);
        let q = div_alejada_espec(-a, l);
        assert(q <= seguro) by (nonlinear_arith)
            requires
                q * l < -a + l,
                -a <= l * seguro,
                -dj <= l,
                0 < seguro,
                1 <= l,
                a == dj * seguro,
                0 <= q;
        assert(div_alejada_espec(a, l) == -q);
    }
}

/// El punto corregido queda fuera de la esfera de seguridad del cuerpo que lo
/// expulsó: el redondeo lejos del centro nunca acorta el empuje.
pub proof fn lema_correccion_sale(posicion: Vec3, radio: int, c: CelestialBody)
    requires
        dentro_de(posicion, LIMITE_FIJO as int),
        dentro_de(c.posicion, LIMITE_FIJO as int),
        0 <= radio <= LIMITE_RADIO,
        0 <= c.radio <= LIMITE_RADIO,
    ensures
        !colisiona_espec(correccion_espec(posicion, radio, c), radio, c),
        dentro_de(correccion_espec(posicion, radio, c), 2 * (LIMITE_FIJO as int)),
{
    let seguro = radio_minimo_espec(radio, c.radio as int);
    let q = correccion_espec(posicion, radio, c);
    if posicion == c.posicion {
        assert(c.posicion.x + seguro <= 2 * (LIMITE_FIJO as int));
        assert(q.x == c.posicion.x + seguro && q.y == c.posicion.y && q.z == c.posicion.z);
        assert(distancia_cuadrada_espec(q, c.posicion) == seguro * seguro) by (nonlinear_arith)
            requires
                q.x == c.posicion.x + seguro && q.y == c.posicion.y && q.z == c.posicion.z,
                distancia_cuadrada_espec(q, c.posicion) == (q.x - c.posicion.x) * (q.x
                    - c.posicion.x) + (q.y - c.posicion.y) * (q.y - c.posicion.y) + (q.z
                    - c.posicion.z) * (q.z - c.posicion.z);
    } else {
        let dx = posicion.x - c.posicion.x;
        let dy = posicion.y - c.posicion.y;
        let dz = posicion.z - c.posicion.z;
        let d2 = distancia_cuadrada_espec(posicion, c.posicion);
        assert(d2 >= 1) by (nonlinear_arith)
            requires
                d2 == dx * dx + dy * dy + dz * dz,
                !(dx == 0 && dy == 0 && dz == 0);
        lema_raiz_caracterizacion(d2);
        let l = raiz_espec(d2);
        assert(l >= 1) by (nonlinear_arith)
            requires d2 >= 1 && l >= 0 && d2 < (l + 1) * (l + 1);
        assert(dx * dx <= d2 && dy * dy <= d2 && dz * dz <= d2) by (nonlinear_arith)
            requires d2 == dx * dx + dy * dy + dz * dz;
        assert(-l <= dx <= l && -l <= dy <= l && -l <= dz <= l) by (nonlinear_arith)
            requires
                dx * dx <= d2 && dy * dy <= d2 && dz * dz <= d2,
                d2 < (l + 1) * (l + 1),
                l >= 0;
        lema_empuje_acotado(dx, seguro, l);
        lema_empuje_acotado(dy, seguro, l);
        lema_empuje_acotado(dz, seguro, l);
        let qx = div_alejada_espec(dx * seguro, l);
        let qy = div_alejada_espec(dy * seguro, l);
        let qz = div_alejada_espec(dz * seguro, l);
        lema_div_alejada_no_acorta(dx * seguro, l);
        lema_div_alejada_no_acorta(dy * seguro, l);
        lema_div_alejada_no_acorta(dz * seguro, l);
        assert((qx * l) * (qx * l) >= (dx * seguro) * (dx * seguro)) by (nonlinear_arith)
            requires
                (dx * seguro >= 0 ==> qx * l >= dx * seguro) && (dx * seguro < 0 ==> qx * l <= dx
                    * seguro);
        assert((qy * l) * (qy * l) >= (dy * seguro) * (dy * seguro)) by (nonlinear_arith)
            requires
                (dy * seguro >= 0 ==> qy * l >= dy * seguro) && (dy * seguro < 0 ==> qy * l <= dy
                    * seguro);
        assert((qz * l) * (qz * l) >= (dz * seguro) * (dz * seguro)) by (nonlinear_arith)
            requires
                (dz * seguro >= 0 ==> qz * l >= dz * seguro) && (dz * seguro < 0 ==> qz * l <= dz
                    * seguro);
        assert(qx * qx * (l * l) >= dx * dx * (seguro * seguro)) by (nonlinear_arith)
            requires (qx * l) * (qx * l) >= (dx * seguro) * (dx * seguro);
        assert(qy * qy * (l * l) >= dy * dy * (seguro * seguro)) by (nonlinear_arith)
            requires (qy * l) * (qy * l) >= (dy * seguro) * (dy * seguro);
        assert(qz * qz * (l * l) >= dz * dz * (seguro * seguro)) by (nonlinear_arith)
            requires (qz * l) * (qz * l) >= (dz * seguro) * (dz * seguro);
        assert((qx * qx + qy * qy + qz * qz) * (l * l) == qx * qx * (l * l) + qy * qy * (l * l) + qz
            * qz * (l * l)) by (nonlinear_arith);
        assert((dx * dx + dy * dy + dz * dz) * (seguro * seguro) == dx * dx * (seguro * seguro) + dy
            * dy * (seguro * seguro) + dz * dz * (seguro * seguro)) by (nonlinear_arith);
        assert((dx * dx + dy * dy + dz * dz) * (seguro * seguro) >= (l * l) * (seguro * seguro))
            by (nonlinear_arith)
            requires
                dx * dx + dy * dy + dz * dz >= l * l,
                seguro > 0;
        assert(qx * qx + qy * qy + qz * qz >= seguro * seguro) by (nonlinear_arith)
            requires
                (qx * qx + qy * qy + qz * qz) * (l * l) >= (l * l) * (seguro * seguro),
                l >= 1;
        assert(distancia_cuadrada_espec(q, c.posicion) == qx * qx + qy * qy + qz * qz);
    }
}

/// La corrección es idempotente: un punto ya corregido queda fuera del cuerpo
/// que lo expulsó, y si además no invade a ningún otro cuerpo, corregirlo de
/// nuevo lo deja exactamente igual. (Con dos cuerpos solapados el empuje de
/// uno puede caer dentro del otro; esos casos quedan fuera por hipótesis.)
pub proof fn lema_correccion_idempotente(posicion: Vec3, radio: int, s: Seq<CelestialBody>)
    requires
        cuerpos_bien_formados(s),
        dentro_de(posicion, LIMITE_FIJO as int),
        0 <= radio <= LIMITE_RADIO,
        match primera_colision(s, posicion, radio) {
            Option::Some(i) => forall|j: int|
                0 <= j < s.len() && j != i ==> !colisiona_espec(
                    correccion_total_espec(posicion, radio, s),
                    radio,
                    #[trigger] s[j],
                ),
            Option::None => true,
        },
    ensures
        correccion_total_espec(correccion_total_espec(posicion, radio, s), radio, s)
            == correccion_total_espec(posicion, radio, s),
{
    let q = correccion_total_espec(posicion, radio, s);
    lema_primera_caracterizacion(s, posicion, radio);
    match primera_colision(s, posicion, radio) {
        Option::Some(i) => {
            assert(limites_cuerpo(s[i]));
            lema_correccion_sale(posicion, radio, s[i]);
            assert(forall|j: int|
                0 <= j < s.len() ==> !colisiona_espec(q, radio, #[trigger] s[j]));
            lema_primera_ninguna(s, q, radio);
        },
        Option::None => {
            lema_primera_ninguna(s, q, radio);
        },
    }
}

impl CollisionSystem {
    /// Índice del primer cuerpo cuya esfera de seguridad contiene a
    /// `posicion`; `None` si ninguno está invadido.
    pub fn verificar_colision(posicion: Vec3, radio: i64, sistema: &OrbitalSystem) -> (r: Option<
        usize,
    >)
        requires
            sistema.bien_formado(),
            dentro_de(posicion, LIMITE_FIJO as int),
            0 <= radio <= LIMITE_RADIO,
        ensures
            match r {
                Option::Some(i) => primera_colision(sistema.vista(), posicion, radio as int)
                    == Option::Some(i as int),
                Option::None => primera_colision(sistema.vista(), posicion, radio as int) is None,
            },
    {
        let n = sistema.num_cuerpos();
        let mut i: usize = 0;
        while i < n
            invariant
                sistema.bien_formado(),
                dentro_de(posicion, LIMITE_FIJO as int),
                0 <= radio <= LIMITE_RADIO,
                n == sistema.vista().len(),
                0 <= i <= n,
                forall|j: int|
                    0 <= j < i ==> !colisiona_espec(
                        posicion,
                        radio as int,
                        #[trigger] sistema.vista()[j],
                    ),
            decreases n - i,
        {
            let cuerpo = sistema.cuerpo(i);
            let d2 = distancia_cuadrada(posicion, cuerpo.posicion);
            let rmin = cuerpo.radio + radio + MIN_DISTANCE_TO_BODY;
            proof {
                assert(0 <= rmin as int * rmin <= 16_000_000_000_000_000_000_000_000int)
                    by (nonlinear_arith)
                    requires 0 <= rmin as int <= 4_000_000_000_000int;
            }
            if d2 < (rmin as i128) * (rmin as i128) {
                proof {
                    lema_primera_alguna(sistema.vista(), posicion, radio as int, i as int);
                }
                return Some(i);
            }
            i = i + 1;
        }
        proof {
            lema_primera_ninguna(sistema.vista(), posicion, radio as int);
        }
        None
    }

    /// Corrige una posición deseada: si invade a algún cuerpo, la empuja
    /// radialmente hacia fuera hasta la esfera de seguridad del primero
    /// invadido (con el eje +X como dirección de respaldo si la posición
    /// coincide con el centro); si no, la devuelve sin cambios.
    pub fn corregir_posicion(posicion_deseada: Vec3, radio: i64, sistema: &OrbitalSystem) -> (r:
        Vec3)
        requires
            sistema.bien_formado(),
            dentro_de(posicion_deseada, LIMITE_FIJO as int),
            0 <= radio <= LIMITE_RADIO,
        ensures
            r == correccion_total_espec(posicion_deseada, radio as int, sistema.vista()),
            primera_colision(sistema.vista(), posicion_deseada, radio as int) is None ==> r
                == posicion_deseada,
            dentro_de(r, 2 * (LIMITE_FIJO as int)),
            match primera_colision(sistema.vista(), posicion_deseada, radio as int) {
                Option::Some(i) => !colisiona_espec(r, radio as int, sistema.vista()[i])
                    && dentro_de(r, 15_000_000_000_000int),
                Option::None => true,
            },
    {
        match Self::verificar_colision(posicion_deseada, radio, sistema) {
            Option::None => posicion_deseada,
            Option::Some(idx) => {
                proof {
                    lema_primera_caracterizacion(sistema.vista(), posicion_deseada, radio as int);
                    lema_correccion_sale(
                        posicion_deseada,
                        radio as int,
                        sistema.vista()[idx as int],
                    );
                }
                let cuerpo = sistema.cuerpo(idx);
                let seguro = cuerpo.radio + radio + MIN_DISTANCE_TO_BODY;
                let dx = posicion_deseada.x - cuerpo.posicion.x;
                let dy = posicion_deseada.y - cuerpo.posicion.y;
                let dz = posicion_deseada.z - cuerpo.posicion.z;
                if dx == 0 && dy == 0 && dz == 0 {
                    Vec3 {
                        x: cuerpo.posicion.x + seguro,
                        y: cuerpo.posicion.y,
                        z: cuerpo.posicion.z,
                    }
                } else {
                    let d2 = distancia_cuadrada(posicion_deseada, cuerpo.posicion);
                    let l = raiz_entera(d2 as u128) as i64;
                    proof {
                        let d2i = d2 as int;
                        let li = raiz_espec(d2i);
                        lema_raiz_caracterizacion(d2i);
                        assert(d2i >= 1) by (nonlinear_arith)
                            requires
                                d2i == dx as int * dx + dy as int * dy + dz as int * dz,
                                !(dx as int == 0 && dy as int == 0 && dz as int == 0);
                        assert(li >= 1) by (nonlinear_arith)
                            requires d2i >= 1 && li >= 0 && d2i < (li + 1) * (li + 1);
                        assert(li <= 4 * (LIMITE_FIJO as int)) by (nonlinear_arith)
                            requires
                                li >= 0,
                                li * li <= d2i,
                                d2i <= (12 * (LIMITE_FIJO as int)) * LIMITE_FIJO,
                                LIMITE_FIJO > 0;
                        assert(dx as int * dx <= d2i && dy as int * dy <= d2i && dz as int * dz
                            <= d2i) by (nonlinear_arith)
                            requires d2i == dx as int * dx + dy as int * dy + dz as int * dz;
                        assert(-li <= dx as int <= li && -li <= dy as int <= li && -li <= dz as int
                            <= li) by (nonlinear_arith)
                            requires
                                dx as int * dx <= d2i && dy as int * dy <= d2i && dz as int * dz
                                    <= d2i,
                                d2i < (li + 1) * (li + 1),
                                li >= 0;
                    }
                    let qx = componente_empuje(dx, seguro, l);
                    let qy = componente_empuje(dy, seguro, l);
                    let qz = componente_empuje(dz, seguro, l);
                    Vec3 {
                        x: cuerpo.posicion.x + qx,
                        y: cuerpo.posicion.y + qy,
                        z: cuerpo.posicion.z + qz,
                    }
                }
            },
        }
    }

    /// Dos esferas se intersecan cuando la distancia entre centros es
    /// estrictamente menor que la suma de radios (tocarse no cuenta).
    pub fn colision_esferas(pos1: Vec3, radio1: i64, pos2: Vec3, radio2: i64) -> (r: bool)
        requires
            dentro_de(pos1, LIMITE_FIJO as int),
            dentro_de(pos2, LIMITE_FIJO as int),
            0 <= radio1 <= LIMITE_RADIO,
            0 <= radio2 <= LIMITE_RADIO,
        ensures
            r == esferas_intersecan_espec(pos1, radio1 as int, pos2, radio2 as int),
    {
        let d2 = distancia_cuadrada(pos1, pos2);
        let suma = radio1 + radio2;
        proof {
            assert(0 <= suma as int * suma <= 16_000_000_000_000_000_000_000_000int)
                by (nonlinear_arith)
                requires 0 <= suma as int <= 4_000_000_000_000int;
        }
        d2 < (suma as i128) * (suma as i128)
    }

    /// Cuerpo más cercano a una posición, con su distancia (redondeada hacia
    /// abajo); `None` si el sistema no tiene cuerpos. Los empates se resuelven
    /// a favor del primero encontrado.
    pub fn get_cuerpo_mas_cercano(posicion: Vec3, sistema: &OrbitalSystem) -> (r: Option<(
        usize,
        i64,
    )>)
        requires
            sistema.bien_formado(),
            dentro_de(posicion, LIMITE_FIJO as int),
        ensures
            r is Some <==> sistema.vista().len() > 0,
            match r {
                Option::Some((i, d)) => 0 <= i < sistema.vista().len() && d == raiz_espec(
                    distancia_cuadrada_espec(sistema.vista()[i as int].posicion, posicion),
                ) && (forall|j: int|
                    0 <= j < sistema.vista().len() ==> distancia_cuadrada_espec(
                        (#[trigger] sistema.vista()[j]).posicion,
                        posicion,
                    ) >= distancia_cuadrada_espec(sistema.vista()[i as int].posicion, posicion)) && (
                forall|j: int|
                    0 <= j < i ==> distancia_cuadrada_espec(
                        (#[trigger] sistema.vista()[j]).posicion,
                        posicion,
                    ) > distancia_cuadrada_espec(sistema.vista()[i as int].posicion, posicion)),
                Option::None => true,
            },
    {
        match sistema.get_cuerpo_mas_cercano(posicion) {
            Option::None => None,
            Option::Some(i) => {
                let cuerpo = sistema.cuerpo(i);
                let d = crate::vec3::distancia(cuerpo.posicion, posicion);
                Some((i, d))
            },
        }
    }

    /// La posición guarda al menos `margen` de holgura sobre la superficie
    /// del cuerpo.
    pub fn esta_en_radio_seguro(
        posicion: Vec3,
        cuerpo_pos: Vec3,
        cuerpo_radio: i64,
        margen: i64,
    ) -> (r: bool)
        requires
            dentro_de(posicion, LIMITE_FIJO as int),
            dentro_de(cuerpo_pos, LIMITE_FIJO as int),
            0 <= cuerpo_radio <= LIMITE_RADIO,
            0 <= margen <= LIMITE_RADIO,
        ensures
            r == !esferas_intersecan_espec(posicion, 0, cuerpo_pos, cuerpo_radio + margen),
    {
        let d2 = distancia_cuadrada(posicion, cuerpo_pos);
        let limite = cuerpo_radio + margen;
        proof {
            assert(0 <= limite as int * limite <= 16_000_000_000_000_000_000_000_000int)
                by (nonlinear_arith)
                requires 0 <= limite as int <= 4_000_000_000_000int;
        }
        d2 >= (limite as i128) * (limite as i128)
    }

    /// Punto a `cuerpo_radio + margen` del centro del cuerpo, en la dirección
    /// preferida normalizada; si la dirección es nula, se usa el eje +X como
    /// respaldo determinista.
    pub fn calcular_punto_seguro(
        cuerpo_pos: Vec3,
        cuerpo_radio: i64,
        direccion_preferida: Vec3,
        margen: i64,
    ) -> (r: Vec3)
        requires
            dentro_de(cuerpo_pos, LIMITE_FIJO as int),
            dentro_de(direccion_preferida, LIMITE_FIJO as int),
            0 <= cuerpo_radio <= LIMITE_RADIO,
            0 <= margen <= LIMITE_RADIO,
        ensures
            r == punto_seguro_espec(
                cuerpo_pos,
                cuerpo_radio as int,
                direccion_preferida,
                margen as int,
            ),
            dentro_de(r, 2 * (LIMITE_FIJO as int)),
    {
        let distancia_segura = cuerpo_radio + margen;
        let d = direccion_preferida;
        let unidad = if d.x == 0 && d.y == 0 && d.z == 0 {
            Vec3 { x: ESCALA, y: 0, z: 0 }
        } else {
            normalizar(d)
        };
        let ox = excursion_orbital(distancia_segura, unidad.x);
        let oy = excursion_orbital(distancia_segura, unidad.y);
        let oz = excursion_orbital(distancia_segura, unidad.z);
        Vec3 { x: cuerpo_pos.x + ox, y: cuerpo_pos.y + oy, z: cuerpo_pos.z + oz }
    }
}

/// Las dos esferas se solapan estrictamente.
pub open spec fn esferas_intersecan_espec(p1: Vec3, r1: int, p2: Vec3, r2: int) -> bool {
    distancia_cuadrada_espec(p1, p2) < (r1 + r2) * (r1 + r2)
}

/// Esferas concéntricas de radio positivo siempre se intersecan.
pub proof fn lema_esferas_centros_coincidentes(p: Vec3, r: int)
    requires
        r > 0,
    ensures
        esferas_intersecan_espec(p, r, p, r),
{
    assert(distancia_cuadrada_espec(p, p) == 0);
    assert(0 < (r + r) * (r + r)) by (nonlinear_arith)
        requires r > 0;
}

/// Tocarse exactamente (distancia igual a la suma de radios) no cuenta como
/// intersección: el borde queda excluido.
pub proof fn lema_esferas_borde_excluido(p1: Vec3, r1: int, p2: Vec3, r2: int)
    requires
        distancia_cuadrada_espec(p1, p2) == (r1 + r2) * (r1 + r2),
    ensures
        !esferas_intersecan_espec(p1, r1, p2, r2),
{
}

/// El punto seguro alrededor de un cuerpo, como lo construye
/// `calcular_punto_seguro`.
pub open spec fn punto_seguro_espec(
    cuerpo_pos: Vec3,
    cuerpo_radio: int,
    direccion: Vec3,
    margen: int,
) -> Vec3 {
    let dist = cuerpo_radio + margen;
    let unidad = if direccion == (Vec3 { x: 0, y: 0, z: 0 }) {
        Vec3 { x: ESCALA, y: 0, z: 0 }
    } else {
        normalizado_espec(direccion)
    };
    Vec3 {
        x: (cuerpo_pos.x + crate::fijo::div_trunca_espec(dist * unidad.x, ESCALA as int)) as i64,
        y: (cuerpo_pos.y + crate::fijo::div_trunca_espec(dist * unidad.y, ESCALA as int)) as i64,
        z: (cuerpo_pos.z + crate::fijo::div_trunca_espec(dist * unidad.z, ESCALA as int)) as i64,
    }
}

/// Una componente del empuje radial: `dj * seguro / l`, lejos de cero.
fn componente_empuje(dj: i64, seguro: i64, l: i64) -> (r: i64)
    requires
        1 <= l <= 4 * LIMITE_FIJO,
        0 < seguro <= 3 * LIMITE_RADIO,
        -l <= dj <= l,
    ensures
        r == div_alejada_espec(dj as int * seguro, l as int),
        -seguro <= r <= seguro,
{
    proof {
        assert(-((l as int) * seguro) <= dj as int * seguro <= (l as int) * seguro)
            by (nonlinear_arith)
            requires
                -l <= dj as int <= l,
                0 < seguro;
        assert((l as int) * seguro < 0x40000000000000000000000000000000int) by (nonlinear_arith)
            requires
                0 < l <= 4 * (LIMITE_FIJO as int),
                0 < seguro <= 3 * (LIMITE_RADIO as int),
                LIMITE_FIJO == 1_000_000_000_000_000,
                LIMITE_RADIO == 1_000_000_000_000;
        lema_empuje_acotado(dj as int, seguro as int, l as int);
    }
    let q = div_alejada((dj as i128) * (seguro as i128), l as i128);
    q as i64
}

} // verus!
