//! Sistema orbital: la colección ordenada de cuerpos celestes, con la
//! jerarquía de dos niveles (los planetas orbitan el origen; cada luna orbita
//! la posición *actual* de su planeta padre) y los mandos de escala temporal.
use vstd::prelude::*;
use vstd::arithmetic::div_mod::{lemma_div_is_ordered, lemma_div_pos_is_pos};
use vstd::string::StringExecFns;
use crate::celestial_body::{
    cuerpo_avanzado_espec, limites_cuerpo, CelestialBody,
};
use crate::constants::{
    ESCALA, LIMITE_DT, LIMITE_DT_ESCALADO, LIMITE_FIJO, MEDIO_PI_FIJO, PI_FIJO,
};
use crate::trig::CUARTO_PI_FIJO;
use crate::fijo::div_trunca;
use crate::vec3::{dentro_de, distancia_cuadrada, distancia_cuadrada_espec, Vec3};
use crate::CelestialBodyType;

verus! {

/// Escala temporal mínima (un octavo de la velocidad normal).
pub const VELOCIDAD_TIEMPO_MIN: i64 = 125_000;

/// Escala temporal máxima (dieciséis veces la velocidad normal).
pub const VELOCIDAD_TIEMPO_MAX: i64 = 16_000_000;

/// Índice del planeta padre de una luna.
pub open spec fn indice_padre(c: CelestialBody) -> int {
    c.planeta_padre->0 as int
}

/// Toda luna apunta a un cuerpo existente que no es luna (jerarquía de
/// profundidad dos, sin ciclos).
pub open spec fn jerarquia_valida(s: Seq<CelestialBody>) -> bool {
    forall|i: int|
        0 <= i < s.len() && s[i].es_luna ==> {
            let p = (#[trigger] s[i].planeta_padre)->0 as int;
            0 <= p < s.len() && !s[p].es_luna
        }
}

/// Todos los cuerpos cumplen su invariante individual.
pub open spec fn cuerpos_bien_formados(s: Seq<CelestialBody>) -> bool {
    forall|i: int| 0 <= i < s.len() ==> limites_cuerpo(#[trigger] s[i])
}

/// El mismo cuerpo con otro centro de órbita.
pub open spec fn con_centro(c: CelestialBody, nuevo: Vec3) -> CelestialBody {
    CelestialBody { orbita_centro: nuevo, ..c }
}

/// Relación entre el sistema antes y después de un tick de `sdt` segundos
/// (ya escalados): los cuerpos que no son lunas avanzan tal cual; cada luna
/// avanza tras tomar como centro la posición *ya actualizada* de su padre.
pub open spec fn sistema_avanzado_espec(
    s: Seq<CelestialBody>,
    t: Seq<CelestialBody>,
    sdt: int,
) -> bool {
    &&& t.len() == s.len()
    &&& forall|i: int|
        0 <= i < s.len() && !(#[trigger] s[i]).es_luna ==> cuerpo_avanzado_espec(s[i], t[i], sdt)
    &&& forall|i: int|
        0 <= i < s.len() && (#[trigger] s[i]).es_luna ==> cuerpo_avanzado_espec(
            con_centro(s[i], t[indice_padre(s[i])].posicion),
            t[i],
            sdt,
        )
}

/// Tras un tick completo, el centro de órbita de cada luna es exactamente la
/// posición de su planeta padre *después* de ese mismo tick.
pub proof fn lema_luna_consistente_con_padre(
    s: Seq<CelestialBody>,
    t: Seq<CelestialBody>,
    sdt: int,
    i: int,
)
    requires
        jerarquia_valida(s),
        sistema_avanzado_espec(s, t, sdt),
        0 <= i < s.len(),
        s[i].es_luna,
    ensures
        t[i].orbita_centro == t[indice_padre(s[i])].posicion,
        t[i].planeta_padre == s[i].planeta_padre,
{
}

pub struct OrbitalSystem {
    cuerpos: Vec<CelestialBody>,
    tiempo_total: i64,
    velocidad_tiempo: i64,
}

impl OrbitalSystem {
    /// La sucesión de cuerpos del sistema, en orden de inserción.
    pub closed spec fn vista(&self) -> Seq<CelestialBody> {
        self.cuerpos@
    }

    /// Tiempo simulado acumulado (ya escalado), en micro-segundos.
    pub closed spec fn tiempo_total_espec(&self) -> int {
        self.tiempo_total as int
    }

    /// Multiplicador de la velocidad del tiempo, en punto fijo.
    pub closed spec fn velocidad_tiempo_espec(&self) -> int {
        self.velocidad_tiempo as int
    }

    /// Invariante del sistema: cuerpos bien formados, jerarquía válida y
    /// escala temporal dentro de `[1/8, 16]`.
    pub open spec fn bien_formado(&self) -> bool {
        &&& cuerpos_bien_formados(self.vista())
        &&& jerarquia_valida(self.vista())
        &&& VELOCIDAD_TIEMPO_MIN <= self.velocidad_tiempo_espec() <= VELOCIDAD_TIEMPO_MAX
        &&& 0 <= self.tiempo_total_espec()
    }

    /// Sistema vacío, con la velocidad del tiempo normal.
    pub fn new() -> (r: Self)
        ensures
            r.bien_formado(),
            r.vista() == Seq::<CelestialBody>::empty(),
            r.tiempo_total_espec() == 0,
            r.velocidad_tiempo_espec() == ESCALA,
    {
        let r = OrbitalSystem { cuerpos: Vec::new(), tiempo_total: 0, velocidad_tiempo: ESCALA };
        proof {
            assert(r.cuerpos@ =~= Seq::<CelestialBody>::empty());
        }
        r
    }

    /// Número de cuerpos del sistema.
    pub fn num_cuerpos(&self) -> (n: usize)
        ensures
            n == self.vista().len(),
    {
        self.cuerpos.len()
    }

    /// El cuerpo con índice `i`.
    pub fn cuerpo(&self, i: usize) -> (c: &CelestialBody)
        requires
            i < self.vista().len(),
        ensures
            *c == self.vista()[i as int],
    {
        &self.cuerpos[i]
    }

    /// Tiempo simulado acumulado.
    pub fn tiempo_total(&self) -> (t: i64)
        ensures
            t == self.tiempo_total_espec(),
    {
        self.tiempo_total
    }

    /// Multiplicador actual de la velocidad del tiempo.
    pub fn velocidad_tiempo(&self) -> (v: i64)
        ensures
            v == self.velocidad_tiempo_espec(),
    {
        self.velocidad_tiempo
    }

    /// Añade un cuerpo al final de la lista. Una luna cuyo índice de padre
    /// queda fuera de rango, o apunta a otra luna, se rechaza: la jerarquía
    /// se valida al construir, no en cada tick.
    pub fn agregar_cuerpo(&mut self, cuerpo: CelestialBody) -> (exito: bool)
        requires
            old(self).bien_formado(),
            limites_cuerpo(cuerpo),
        ensures
            final(self).bien_formado(),
            exito == (cuerpo.es_luna ==> (0 <= indice_padre(cuerpo) < old(self).vista().len()
                && !old(self).vista()[indice_padre(cuerpo)].es_luna)),
            exito ==> final(self).vista() == old(self).vista().push(cuerpo),
            !exito ==> final(self).vista() == old(self).vista(),
            final(self).tiempo_total_espec() == old(self).tiempo_total_espec(),
            final(self).velocidad_tiempo_espec() == old(self).velocidad_tiempo_espec(),
    {
        if cuerpo.es_luna {
            let padre = cuerpo.planeta_padre.unwrap();
            if padre >= self.cuerpos.len() {
                return false;
            }
            if self.cuerpos[padre].es_luna {
                return false;
            }
        }
        self.cuerpos.push(cuerpo);
        proof {
            let s = old(self).vista();
            let t = self.vista();
            assert(forall|i: int| 0 <= i < s.len() ==> t[i] == s[i]);
        }
        true
    }

    /// El catálogo de referencia: un sol, seis planetas y una luna de la
    /// Tierra, con los índices estables que usan el warp y la interfaz.
    pub fn crear_sistema_solar() -> (r: Self)
        ensures
            r.bien_formado(),
            r.vista().len() == 8,
            r.tiempo_total_espec() == 0,
            r.velocidad_tiempo_espec() == ESCALA,
            r.vista()[0].tipo == CelestialBodyType::Sol,
            r.vista()[0].posicion == (Vec3 { x: 0, y: 0, z: 0 }),
            r.vista()[0].radio == 2 * ESCALA,
            !r.vista()[0].es_luna,
            r.vista()[1].orbita_radio == 5 * ESCALA,
            r.vista()[1].orbita_velocidad == 800_000,
            r.vista()[1].angulo_orbital == 0,
            r.vista()[1].radio == 400_000,
            !r.vista()[1].es_luna,
            r.vista()[2].orbita_radio == 8 * ESCALA,
            r.vista()[2].angulo_orbital == CUARTO_PI_FIJO,
            r.vista()[3].orbita_radio == 11 * ESCALA,
            r.vista()[3].angulo_orbital == MEDIO_PI_FIJO,
            !r.vista()[3].es_luna,
            r.vista()[4].es_luna,
            r.vista()[4].planeta_padre == Some(3usize),
            r.vista()[4].orbita_radio == 1_500_000,
            r.vista()[4].orbita_velocidad == 2 * ESCALA,
            r.vista()[5].orbita_radio == 15 * ESCALA,
            r.vista()[5].angulo_orbital == PI_FIJO,
            r.vista()[6].orbita_radio == 20 * ESCALA,
            r.vista()[6].angulo_orbital == PI_FIJO + MEDIO_PI_FIJO,
            r.vista()[7].orbita_radio == 26 * ESCALA,
            r.vista()[7].angulo_orbital == 500_000,
            r.vista()[0].nombre@ == "Sol"@,
            r.vista()[1].nombre@ == "Mercurio"@,
            r.vista()[2].nombre@ == "Venus"@,
            r.vista()[3].nombre@ == "Tierra"@,
            r.vista()[4].nombre@ == "Luna"@,
            r.vista()[5].nombre@ == "Marte"@,
            r.vista()[6].nombre@ == "Jupiter"@,
            r.vista()[7].nombre@ == "Saturno"@,
    {
        let mut sistema = Self::new();
        // Sol (índice 0)
        sistema.cuerpos.push(CelestialBody::new_sol("Sol", Vec3 { x: 0, y: 0, z: 0 }, 2 * ESCALA));
        // Mercurio (índice 1)
        sistema.cuerpos.push(CelestialBody::new_planeta(
            "Mercurio",
            CelestialBodyType::PlanetaRocoso,
            5 * ESCALA,
            800_000,
            400_000,
            0,
        ));
        // Venus (índice 2)
        sistema.cuerpos.push(CelestialBody::new_planeta(
            "Venus",
            CelestialBodyType::PlanetaVolcanico,
            8 * ESCALA,
            600_000,
            600_000,
            CUARTO_PI_FIJO,
        ));
        // Tierra (índice 3)
        sistema.cuerpos.push(CelestialBody::new_planeta(
            "Tierra",
            CelestialBodyType::PlanetaGaseoso,
            11 * ESCALA,
            500_000,
            650_000,
            MEDIO_PI_FIJO,
        ));
        // Luna de la Tierra (índice 4)
        sistema.cuerpos.push(CelestialBody::new_luna("Luna", 3, 1_500_000, 2 * ESCALA, 200_000));
        // Marte (índice 5)
        sistema.cuerpos.push(CelestialBody::new_planeta(
            "Marte",
            CelestialBodyType::PlanetaRocoso,
            15 * ESCALA,
            400_000,
            500_000,
            PI_FIJO,
        ));
        // Júpiter (índice 6)
        sistema.cuerpos.push(CelestialBody::new_planeta(
            "Jupiter",
            CelestialBodyType::PlanetaGaseoso,
            20 * ESCALA,
            300_000,
            1_500_000,
            PI_FIJO + MEDIO_PI_FIJO,
        ));
        // Saturno (índice 7)
        sistema.cuerpos.push(CelestialBody::new_planeta(
            "Saturno",
            CelestialBodyType::PlanetaAnillos,
            26 * ESCALA,
            250_000,
            1_300_000,
            500_000,
        ));
        sistema
    }

    /// Avanza todos los cuerpos `delta_time` segundos (escalados por la
    /// velocidad del tiempo), en dos pasadas: primero todos los que no son
    /// lunas, después las lunas, que toman el centro ya actualizado de su
    /// padre. El orden es un invariante de corrección, no una optimización.
    /// El tiempo total acumulado se satura en el máximo representable.
    pub fn actualizar(&mut self, delta_time: i64)
        requires
            old(self).bien_formado(),
            0 <= delta_time <= LIMITE_DT,
        ensures
            final(self).bien_formado(),
            sistema_avanzado_espec(
                old(self).vista(),
                final(self).vista(),
                dt_escalado_espec(delta_time as int, old(self).velocidad_tiempo_espec()),
            ),
            final(self).velocidad_tiempo_espec() == old(self).velocidad_tiempo_espec(),
            final(self).tiempo_total_espec() == saturado(
                old(self).tiempo_total_espec() + dt_escalado_espec(
                    delta_time as int,
                    old(self).velocidad_tiempo_espec(),
                ),
            ),
    {
        let dt = escala_tiempo(delta_time, self.velocidad_tiempo);
        self.tiempo_total = if self.tiempo_total <= i64::MAX - dt {
            self.tiempo_total + dt
        } else {
            i64::MAX
        };
        let ghost s0 = self.cuerpos@;
        avanzar_no_lunas(&mut self.cuerpos, dt);
        let ghost s1 = self.cuerpos@;
        avanzar_lunas(&mut self.cuerpos, dt);
        proof {
            let t = self.cuerpos@;
            assert(forall|j: int|
                0 <= j < s0.len() && (#[trigger] s0[j]).es_luna ==> t[indice_padre(s0[j])] == s1[
                    indice_padre(s0[j])
                ]);
        }
    }

    /// Posición del primer cuerpo con el nombre dado, si existe.
    pub fn get_posicion_por_nombre(&self, nombre: &str) -> (r: Option<Vec3>)
        ensures
            match r {
                Some(p) => exists|i: int|
                    0 <= i < self.vista().len() && (#[trigger] self.vista()[i]).nombre@ == nombre@
                        && p == self.vista()[i].posicion && (forall|j: int|
                        0 <= j < i ==> (#[trigger] self.vista()[j]).nombre@ != nombre@),
                None => forall|j: int|
                    0 <= j < self.vista().len() ==> (#[trigger] self.vista()[j]).nombre@
                        != nombre@,
            },
    {
        match self.get_indice_por_nombre(nombre) {
            Some(i) => Some(self.cuerpos[i].posicion),
            None => None,
        }
    }

    /// Índice del primer cuerpo con el nombre dado (comparación exacta).
    pub fn get_indice_por_nombre(&self, nombre: &str) -> (r: Option<usize>)
        ensures
            match r {
                Some(i) => 0 <= i < self.vista().len() && self.vista()[i as int].nombre@ == nombre@
                    && (forall|j: int|
                    0 <= j < i ==> (#[trigger] self.vista()[j]).nombre@ != nombre@),
                None => forall|j: int|
                    0 <= j < self.vista().len() ==> (#[trigger] self.vista()[j]).nombre@
                        != nombre@,
            },
    {
        let objetivo = String::from_str(nombre);
        let n = self.cuerpos.len();
        let mut i: usize = 0;
        while i < n
            invariant
                n == self.vista().len(),
                0 <= i <= n,
                objetivo@ == nombre@,
                forall|j: int| 0 <= j < i ==> (#[trigger] self.vista()[j]).nombre@ != nombre@,
            decreases n - i,
        {
            if self.cuerpos[i].nombre == objetivo {
                return Some(i);
            }
            i = i + 1;
        }
        None
    }

    /// Índice del cuerpo más cercano a `posicion`; `None` si el sistema está
    /// vacío. Los empates se resuelven a favor del primero encontrado.
    pub fn get_cuerpo_mas_cercano(&self, posicion: Vec3) -> (r: Option<usize>)
        requires
            self.bien_formado(),
            dentro_de(posicion, LIMITE_FIJO as int),
        ensures
            r is Some <==> self.vista().len() > 0,
            match r {
                Some(i) => 0 <= i < self.vista().len() && (forall|j: int|
                    0 <= j < self.vista().len() ==> distancia_cuadrada_espec(
                        (#[trigger] self.vista()[j]).posicion,
                        posicion,
                    ) >= distancia_cuadrada_espec(self.vista()[i as int].posicion, posicion))
                    && (forall|j: int|
                    0 <= j < i ==> distancia_cuadrada_espec(
                        (#[trigger] self.vista()[j]).posicion,
                        posicion,
                    ) > distancia_cuadrada_espec(self.vista()[i as int].posicion, posicion)),
                None => true,
            },
    {
        let n = self.cuerpos.len();
        if n == 0 {
            return None;
        }
        let mut mejor: usize = 0;
        let mut mejor_d2 = distancia_cuadrada(self.cuerpos[0].posicion, posicion);
        let mut i: usize = 1;
        while i < n
            invariant
                self.bien_formado(),
                dentro_de(posicion, LIMITE_FIJO as int),
                n == self.vista().len(),
                0 < n,
                1 <= i <= n,
                0 <= mejor < i,
                mejor_d2 == distancia_cuadrada_espec(self.vista()[mejor as int].posicion, posicion),
                forall|j: int|
                    0 <= j < i ==> distancia_cuadrada_espec(
                        (#[trigger] self.vista()[j]).posicion,
                        posicion,
                    ) >= mejor_d2,
                forall|j: int|
                    0 <= j < mejor ==> distancia_cuadrada_espec(
                        (#[trigger] self.vista()[j]).posicion,
                        posicion,
                    ) > mejor_d2,
            decreases n - i,
        {
            let d2 = distancia_cuadrada(self.cuerpos[i].posicion, posicion);
            if d2 < mejor_d2 {
                mejor = i;
                mejor_d2 = d2;
            }
            i = i + 1;
        }
        Some(mejor)
    }

    /// Duplica la velocidad del tiempo, con tope en 16.
    pub fn acelerar_tiempo(&mut self)
        requires
            old(self).bien_formado(),
        ensures
            final(self).bien_formado(),
            final(self).velocidad_tiempo_espec() == (if 2 * old(self).velocidad_tiempo_espec()
                > VELOCIDAD_TIEMPO_MAX {
                VELOCIDAD_TIEMPO_MAX as int
            } else {
                2 * old(self).velocidad_tiempo_espec()
            }),
            final(self).vista() == old(self).vista(),
            final(self).tiempo_total_espec() == old(self).tiempo_total_espec(),
    {
        let doble = self.velocidad_tiempo * 2;
        self.velocidad_tiempo = if doble > VELOCIDAD_TIEMPO_MAX {
            VELOCIDAD_TIEMPO_MAX
        } else {
            doble
        };
    }

    /// Divide la velocidad del tiempo entre dos, con suelo en 1/8.
    pub fn desacelerar_tiempo(&mut self)
        requires
            old(self).bien_formado(),
        ensures
            final(self).bien_formado(),
            final(self).velocidad_tiempo_espec() == (if old(self).velocidad_tiempo_espec() / 2
                < VELOCIDAD_TIEMPO_MIN {
                VELOCIDAD_TIEMPO_MIN as int
            } else {
                old(self).velocidad_tiempo_espec() / 2
            }),
            final(self).vista() == old(self).vista(),
            final(self).tiempo_total_espec() == old(self).tiempo_total_espec(),
    {
        let mitad = ((self.velocidad_tiempo as u64) / 2) as i64;
        self.velocidad_tiempo = if mitad < VELOCIDAD_TIEMPO_MIN {
            VELOCIDAD_TIEMPO_MIN
        } else {
            mitad
        };
    }

    /// Devuelve la velocidad del tiempo a la normal.
    pub fn velocidad_tiempo_normal(&mut self)
        requires
            old(self).bien_formado(),
        ensures
            final(self).bien_formado(),
            final(self).velocidad_tiempo_espec() == ESCALA,
            final(self).vista() == old(self).vista(),
            final(self).tiempo_total_espec() == old(self).tiempo_total_espec(),
    {
        self.velocidad_tiempo = ESCALA;
    }
}


/// Primera pasada del tick: avanza los cuerpos que no son lunas y deja las
/// lunas intactas.
fn avanzar_no_lunas(cuerpos: &mut Vec<CelestialBody>, dt: i64)
    requires
        cuerpos_bien_formados(old(cuerpos)@),
        0 <= dt <= LIMITE_DT_ESCALADO,
    ensures
        final(cuerpos)@.len() == old(cuerpos)@.len(),
        forall|j: int|
            0 <= j < old(cuerpos)@.len() && !old(cuerpos)@[j].es_luna ==> cuerpo_avanzado_espec(
                old(cuerpos)@[j],
                #[trigger] final(cuerpos)@[j],
                dt as int,
            ) && limites_cuerpo(final(cuerpos)@[j]),
        forall|j: int|
            0 <= j < old(cuerpos)@.len() && old(cuerpos)@[j].es_luna
                ==> #[trigger] final(cuerpos)@[j] == old(cuerpos)@[j],
{
    let ghost s0 = cuerpos@;
    let n = cuerpos.len();
    let mut i: usize = 0;
    while i < n
        invariant
            n == cuerpos@.len(),
            s0.len() == n,
            0 <= i <= n,
            cuerpos_bien_formados(s0),
            0 <= dt <= LIMITE_DT_ESCALADO,
            forall|j: int|
                0 <= j < i && !s0[j].es_luna ==> cuerpo_avanzado_espec(
                    s0[j],
                    #[trigger] cuerpos@[j],
                    dt as int,
                ) && limites_cuerpo(cuerpos@[j]),
            forall|j: int|
                0 <= j < n && (j >= i || s0[j].es_luna) ==> #[trigger] cuerpos@[j] == s0[j],
        decreases n - i,
    {
        if !cuerpos[i].es_luna {
            let mut c = cuerpos[i].clone();
            c.actualizar(dt);
            cuerpos[i] = c;
        }
        i = i + 1;
    }
}

/// Segunda pasada del tick: cada luna toma como centro la posición ya
/// actualizada de su padre y avanza; los demás cuerpos quedan intactos.
fn avanzar_lunas(cuerpos: &mut Vec<CelestialBody>, dt: i64)
    requires
        jerarquia_valida(old(cuerpos)@),
        cuerpos_bien_formados(old(cuerpos)@),
        0 <= dt <= LIMITE_DT_ESCALADO,
    ensures
        final(cuerpos)@.len() == old(cuerpos)@.len(),
        forall|j: int|
            0 <= j < old(cuerpos)@.len() && !old(cuerpos)@[j].es_luna
                ==> #[trigger] final(cuerpos)@[j] == old(cuerpos)@[j],
        forall|j: int|
            0 <= j < old(cuerpos)@.len() && old(cuerpos)@[j].es_luna ==> cuerpo_avanzado_espec(
                con_centro(old(cuerpos)@[j], old(cuerpos)@[indice_padre(old(cuerpos)@[j])].posicion),
                #[trigger] final(cuerpos)@[j],
                dt as int,
            ) && limites_cuerpo(final(cuerpos)@[j]),
{
    let ghost s1 = cuerpos@;
    let n = cuerpos.len();
    let mut i: usize = 0;
    while i < n
        invariant
            n == cuerpos@.len(),
            s1.len() == n,
            0 <= i <= n,
            jerarquia_valida(s1),
            cuerpos_bien_formados(s1),
            0 <= dt <= LIMITE_DT_ESCALADO,
            forall|j: int|
                0 <= j < n && (j >= i || !s1[j].es_luna) ==> #[trigger] cuerpos@[j] == s1[j],
            forall|j: int|
                0 <= j < i && s1[j].es_luna ==> cuerpo_avanzado_espec(
                    con_centro(s1[j], s1[indice_padre(s1[j])].posicion),
                    #[trigger] cuerpos@[j],
                    dt as int,
                ) && limites_cuerpo(cuerpos@[j]),
        decreases n - i,
    {
        if cuerpos[i].es_luna {
            proof {
                assert(s1[i as int].es_luna);
                assert(s1[i as int].planeta_padre == cuerpos@[i as int].planeta_padre);
            }
            let padre_idx = cuerpos[i].planeta_padre.unwrap();
            let pos_padre = cuerpos[padre_idx].posicion;
            let mut c = cuerpos[i].clone();
            c.actualizar_centro_orbita(pos_padre);
            proof {
                assert(limites_cuerpo(s1[padre_idx as int]));
                assert(limites_cuerpo(c));
            }
            c.actualizar(dt);
            cuerpos[i] = c;
        }
        i = i + 1;
    }
}

impl Default for OrbitalSystem {
    /// El sistema por defecto es el sistema vacío.
    fn default() -> (r: Self)
        ensures
            r.bien_formado(),
            r.vista() == Seq::<CelestialBody>::empty(),
            r.tiempo_total_espec() == 0,
            r.velocidad_tiempo_espec() == ESCALA,
    {
        Self::new()
    }
}

/// Suma saturada en el máximo de `i64`.
pub open spec fn saturado(n: int) -> int {
    if n > i64::MAX {
        i64::MAX as int
    } else {
        n
    }
}

/// `dt * velocidad_tiempo`, reescalado.
pub open spec fn dt_escalado_espec(dt: int, velocidad_tiempo: int) -> int {
    crate::fijo::div_trunca_espec(dt * velocidad_tiempo, ESCALA as int)
}

/// Evaluación ejecutable de `dt_escalado_espec`.
fn escala_tiempo(dt: i64, velocidad: i64) -> (r: i64)
    requires
        0 <= dt <= LIMITE_DT,
        VELOCIDAD_TIEMPO_MIN <= velocidad <= VELOCIDAD_TIEMPO_MAX,
    ensures
        r == dt_escalado_espec(dt as int, velocidad as int),
        0 <= r <= LIMITE_DT_ESCALADO,
{
    proof {
        assert(0 <= dt * velocidad <= 16_000_000_000_000_000int) by (nonlinear_arith)
            requires
                0 <= dt <= LIMITE_DT,
                0 <= velocidad <= VELOCIDAD_TIEMPO_MAX,
                LIMITE_DT == 1_000_000_000,
                VELOCIDAD_TIEMPO_MAX == 16_000_000;
    }
    let q = div_trunca((dt as i128) * (velocidad as i128), ESCALA as i128);
    proof {
        lemma_div_pos_is_pos(dt * velocidad, ESCALA as int);
        lemma_div_is_ordered(dt * velocidad, 16_000_000_000_000_000int, ESCALA as int);
    }
    q as i64
}

} // verus!
