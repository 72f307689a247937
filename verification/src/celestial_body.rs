//! Cuerpo celeste: soles, planetas y lunas. Cada cuerpo avanza su propia fase
//! orbital y su rotación; la posición se recalcula a partir de la fase.
use vstd::prelude::*;
use vstd::arithmetic::div_mod::{
    lemma_div_is_ordered, lemma_div_multiples_vanish, lemma_div_pos_is_pos,
};
use vstd::string::StringExecFns;
use crate::constants::{
    ESCALA, LIMITE_CENTRO, LIMITE_DT_ESCALADO, LIMITE_RADIO, LIMITE_VELOCIDAD, TAU_FIJO,
};
use crate::fijo::{div_trunca, div_trunca_espec, envolver_angulo, envuelto_espec};
use crate::trig::{coseno_espec, coseno_fijo, seno_espec, seno_fijo, LIMITE_ANGULO};
use crate::vec3::{dentro_de, Vec3};
use crate::CelestialBodyType;

verus! {

/// Un cuerpo celeste con sus parámetros orbitales y su transformación actual.
/// Las longitudes están en micro-unidades, los ángulos en micro-radianes y
/// las velocidades en micro-radianes por segundo.
#[derive(Debug)]
pub struct CelestialBody {
    pub nombre: String,
    pub tipo: CelestialBodyType,
    pub posicion: Vec3,
    pub radio: i64,
    pub escala_visual: i64,
    pub tipo_shader: u32,
    pub orbita_centro: Vec3,
    pub orbita_radio: i64,
    pub orbita_velocidad: i64,
    pub orbita_inclinacion: i64,
    pub angulo_orbital: i64,
    pub rotacion_velocidad: i64,
    pub angulo_rotacion: i64,
    pub es_luna: bool,
    pub planeta_padre: Option<usize>,
}

/// Cota del centro de órbita: una luna toma como centro la posición de su
/// planeta padre, que puede alejarse un radio de órbita más del origen.
pub open spec fn limite_centro(c: CelestialBody) -> int {
    if c.es_luna {
        LIMITE_CENTRO + LIMITE_RADIO
    } else {
        LIMITE_CENTRO as int
    }
}

/// Invariante de un cuerpo: parámetros dentro de las bandas de trabajo y
/// ángulos siempre envueltos en `[0, TAU_FIJO)`.
pub open spec fn limites_cuerpo(c: CelestialBody) -> bool {
    &&& 0 <= c.radio <= LIMITE_RADIO
    &&& 0 <= c.escala_visual <= LIMITE_RADIO
    &&& 0 <= c.orbita_radio <= LIMITE_RADIO
    &&& -LIMITE_VELOCIDAD <= c.orbita_velocidad <= LIMITE_VELOCIDAD
    &&& -ESCALA <= c.orbita_inclinacion <= ESCALA
    &&& 0 <= c.angulo_orbital < TAU_FIJO
    &&& -LIMITE_VELOCIDAD <= c.rotacion_velocidad <= LIMITE_VELOCIDAD
    &&& 0 <= c.angulo_rotacion < TAU_FIJO
    &&& dentro_de(c.orbita_centro, limite_centro(c))
    &&& dentro_de(c.posicion, limite_centro(c) + LIMITE_RADIO)
    &&& (c.es_luna <==> c.planeta_padre is Some)
}

/// Fase resultante de avanzar `dt` segundos a `velocidad`, envuelta.
#[verifier::opaque]
pub open spec fn angulo_avanzado_espec(angulo: int, velocidad: int, dt: int) -> int {
    envuelto_espec(angulo + div_trunca_espec(velocidad * dt, ESCALA as int))
}

/// Coordenada X de la posición orbital: `centro.x + radio * cos(angulo)`.
#[verifier::opaque]
pub open spec fn orbita_x_espec(centro: Vec3, radio: int, angulo: int) -> int {
    centro.x + div_trunca_espec(radio * coseno_espec(angulo), ESCALA as int)
}

/// Coordenada Z de la posición orbital: `centro.z + radio * sin(angulo)`.
#[verifier::opaque]
pub open spec fn orbita_z_espec(centro: Vec3, radio: int, angulo: int) -> int {
    centro.z + div_trunca_espec(radio * seno_espec(angulo), ESCALA as int)
}

/// Coordenada Y: la inclinación se modela como excursión vertical sinusoidal,
/// `centro.y + radio * inclinacion * sin(angulo)`, no como giro del plano.
#[verifier::opaque]
pub open spec fn orbita_y_espec(centro: Vec3, radio: int, inclinacion: int, angulo: int) -> int {
    centro.y + div_trunca_espec(
        radio * inclinacion * seno_espec(angulo),
        (ESCALA as int) * ESCALA,
    )
}

/// Relación entre un cuerpo y su versión avanzada `dt` segundos: fase y
/// rotación envueltas, posición recalculada y todo lo demás intacto.
pub open spec fn cuerpo_avanzado_espec(c: CelestialBody, d: CelestialBody, dt: int) -> bool {
    let ang = angulo_avanzado_espec(c.angulo_orbital as int, c.orbita_velocidad as int, dt);
    &&& d.angulo_orbital == ang
    &&& d.angulo_rotacion == angulo_avanzado_espec(
        c.angulo_rotacion as int,
        c.rotacion_velocidad as int,
        dt,
    )
    &&& d.posicion.x == orbita_x_espec(c.orbita_centro, c.orbita_radio as int, ang)
    &&& d.posicion.y == orbita_y_espec(
        c.orbita_centro,
        c.orbita_radio as int,
        c.orbita_inclinacion as int,
        ang,
    )
    &&& d.posicion.z == orbita_z_espec(c.orbita_centro, c.orbita_radio as int, ang)
    &&& d.nombre == c.nombre
    &&& d.tipo == c.tipo
    &&& d.radio == c.radio
    &&& d.escala_visual == c.escala_visual
    &&& d.tipo_shader == c.tipo_shader
    &&& d.orbita_centro == c.orbita_centro
    &&& d.orbita_radio == c.orbita_radio
    &&& d.orbita_velocidad == c.orbita_velocidad
    &&& d.orbita_inclinacion == c.orbita_inclinacion
    &&& d.rotacion_velocidad == c.rotacion_velocidad
    &&& d.es_luna == c.es_luna
    &&& d.planeta_padre == c.planeta_padre
}

/// Incremento de fase `velocidad * dt`, reescalado y truncado.
fn incremento_angular(velocidad: i64, dt: i64) -> (r: i64)
    requires
        -LIMITE_VELOCIDAD <= velocidad <= LIMITE_VELOCIDAD,
        0 <= dt <= LIMITE_DT_ESCALADO,
    ensures
        r == div_trunca_espec(velocidad as int * dt, ESCALA as int),
        -16_000_000_000_000 <= r <= 16_000_000_000_000,
{
    proof {
        assert(-16_000_000_000_000_000_000int <= velocidad as int * dt
            <= 16_000_000_000_000_000_000int) by (nonlinear_arith)
            requires
                -LIMITE_VELOCIDAD <= velocidad as int <= LIMITE_VELOCIDAD,
                0 <= dt <= LIMITE_DT_ESCALADO,
                LIMITE_VELOCIDAD == 1_000_000_000,
                LIMITE_DT_ESCALADO == 16_000_000_000;
    }
    let q = div_trunca((velocidad as i128) * (dt as i128), ESCALA as i128);
    proof {
        let n = velocidad as int * dt;
        if n >= 0 {
            lemma_div_is_ordered(n, 16_000_000_000_000_000_000int, ESCALA as int);
        } else {
            lemma_div_is_ordered(-n, 16_000_000_000_000_000_000int, ESCALA as int);
        }
    }
    q as i64
}

/// `radio * factor / ESCALA` con `|factor| <= ESCALA`: el resultado queda
/// acotado por el propio radio.
pub(crate) fn excursion_orbital(radio: i64, factor: i64) -> (r: i64)
    requires
        0 <= radio <= 4 * LIMITE_RADIO,
        -ESCALA <= factor <= ESCALA,
    ensures
        r == div_trunca_espec(radio as int * factor, ESCALA as int),
        -radio <= r <= radio,
{
    proof {
        assert(-(radio as int) * ESCALA <= radio as int * factor <= (radio as int) * ESCALA)
            by (nonlinear_arith)
            requires
                0 <= radio as int,
                -ESCALA <= factor as int <= ESCALA;
    }
    let q = div_trunca((radio as i128) * (factor as i128), ESCALA as i128);
    proof {
        let n = radio as int * factor;
        let e = ESCALA as int;
        assert((radio as int) * e == e * (radio as int)) by (nonlinear_arith);
        assert((-(radio as int)) * e == -(e * (radio as int))) by (nonlinear_arith);
        if n >= 0 {
            lemma_div_pos_is_pos(n, e);
            lemma_div_is_ordered(n, e * (radio as int), e);
            lemma_div_multiples_vanish(radio as int, e);
        } else {
            lemma_div_pos_is_pos(-n, e);
            lemma_div_is_ordered(-n, e * (radio as int), e);
            lemma_div_multiples_vanish(radio as int, e);
        }
    }
    q as i64
}

/// `radio * inclinacion * seno / ESCALA^2`: la excursión vertical, acotada
/// también por el radio.
fn excursion_vertical(radio: i64, inclinacion: i64, seno: i64) -> (r: i64)
    requires
        0 <= radio <= LIMITE_RADIO,
        -ESCALA <= inclinacion <= ESCALA,
        -ESCALA <= seno <= ESCALA,
    ensures
        r == div_trunca_espec(radio as int * inclinacion * seno, (ESCALA as int) * ESCALA),
        -radio <= r <= radio,
{
    proof {
        assert(-(radio as int) * ESCALA <= radio as int * inclinacion <= (radio as int) * ESCALA)
            by (nonlinear_arith)
            requires
                0 <= radio as int,
                -ESCALA <= inclinacion as int <= ESCALA;
        assert(-(radio as int) * ((ESCALA as int) * ESCALA) <= radio as int * inclinacion * seno
            <= (radio as int) * ((ESCALA as int) * ESCALA)) by (nonlinear_arith)
            requires
                0 <= radio as int,
                -ESCALA <= inclinacion as int <= ESCALA,
                -ESCALA <= seno as int <= ESCALA;
        assert(-1_000_000_000_000_000_000_000_000int <= radio as int * inclinacion * seno
            <= 1_000_000_000_000_000_000_000_000int) by (nonlinear_arith)
            requires
                0 <= radio as int <= 1_000_000_000_000,
                -(radio as int) * ((ESCALA as int) * ESCALA) <= radio as int * inclinacion * seno
                    <= (radio as int) * ((ESCALA as int) * ESCALA),
                ESCALA == 1_000_000;
    }
    let q = div_trunca(
        (radio as i128) * (inclinacion as i128) * (seno as i128),
        (ESCALA as i128) * (ESCALA as i128),
    );
    proof {
        let n = radio as int * inclinacion * seno;
        let e2 = (ESCALA as int) * ESCALA;
        assert(e2 == 1_000_000_000_000int) by (nonlinear_arith)
            requires ESCALA == 1_000_000 && e2 == (ESCALA as int) * ESCALA;
        assert((radio as int) * e2 == e2 * (radio as int)) by (nonlinear_arith);
        assert((-(radio as int)) * e2 == -(e2 * (radio as int))) by (nonlinear_arith);
        if n >= 0 {
            lemma_div_pos_is_pos(n, e2);
            lemma_div_is_ordered(n, e2 * (radio as int), e2);
            lemma_div_multiples_vanish(radio as int, e2);
        } else {
            lemma_div_pos_is_pos(-n, e2);
            lemma_div_is_ordered(-n, e2 * (radio as int), e2);
            lemma_div_multiples_vanish(radio as int, e2);
        }
    }
    q as i64
}

impl Clone for CelestialBody {
    /// Copia campo a campo; el clon es igual al original.
    fn clone(&self) -> (r: Self)
        ensures
            r == *self,
    {
        CelestialBody {
            nombre: self.nombre.clone(),
            tipo: self.tipo,
            posicion: self.posicion,
            radio: self.radio,
            escala_visual: self.escala_visual,
            tipo_shader: self.tipo_shader,
            orbita_centro: self.orbita_centro,
            orbita_radio: self.orbita_radio,
            orbita_velocidad: self.orbita_velocidad,
            orbita_inclinacion: self.orbita_inclinacion,
            angulo_orbital: self.angulo_orbital,
            rotacion_velocidad: self.rotacion_velocidad,
            angulo_rotacion: self.angulo_rotacion,
            es_luna: self.es_luna,
            planeta_padre: self.planeta_padre,
        }
    }
}

impl CelestialBody {
    /// Crear un sol: sin órbita, fijo en `posicion`.
    pub fn new_sol(nombre: &str, posicion: Vec3, radio: i64) -> (r: Self)
        requires
            0 < radio <= LIMITE_RADIO,
            dentro_de(posicion, LIMITE_CENTRO as int),
        ensures
            limites_cuerpo(r),
            r.nombre@ == nombre@,
            r.tipo == CelestialBodyType::Sol,
            r.posicion == posicion,
            r.radio == radio,
            r.escala_visual == radio,
            r.orbita_radio == 0,
            r.orbita_velocidad == 0,
            r.angulo_orbital == 0,
            r.es_luna == false,
            r.planeta_padre == Option::<usize>::None,
    {
        CelestialBody {
            nombre: String::from_str(nombre),
            tipo: CelestialBodyType::Sol,
            posicion,
            radio,
            escala_visual: radio,
            tipo_shader: 1,
            orbita_centro: Vec3 { x: 0, y: 0, z: 0 },
            orbita_radio: 0,
            orbita_velocidad: 0,
            orbita_inclinacion: 0,
            angulo_orbital: 0,
            rotacion_velocidad: 200_000,
            angulo_rotacion: 0,
            es_luna: false,
            planeta_padre: None,
        }
    }

    /// Crear un planeta que orbita el origen.
    pub fn new_planeta(
        nombre: &str,
        tipo: CelestialBodyType,
        orbita_radio: i64,
        orbita_velocidad: i64,
        radio: i64,
        angulo_inicial: i64,
    ) -> (r: Self)
        requires
            0 < radio <= LIMITE_RADIO,
            0 <= orbita_radio <= LIMITE_RADIO,
            -LIMITE_VELOCIDAD <= orbita_velocidad <= LIMITE_VELOCIDAD,
            0 <= angulo_inicial < TAU_FIJO,
        ensures
            limites_cuerpo(r),
            r.nombre@ == nombre@,
            r.tipo == tipo,
            r.orbita_centro == (Vec3 { x: 0, y: 0, z: 0 }),
            r.orbita_radio == orbita_radio,
            r.orbita_velocidad == orbita_velocidad,
            r.orbita_inclinacion == 0,
            r.angulo_orbital == angulo_inicial,
            r.radio == radio,
            r.escala_visual == radio,
            r.es_luna == false,
            r.planeta_padre == Option::<usize>::None,
    {
        CelestialBody {
            nombre: String::from_str(nombre),
            tipo,
            posicion: Vec3 { x: 0, y: 0, z: 0 },
            radio,
            escala_visual: radio,
            tipo_shader: tipo.to_shader_id(),
            orbita_centro: Vec3 { x: 0, y: 0, z: 0 },
            orbita_radio,
            orbita_velocidad,
            orbita_inclinacion: 0,
            angulo_orbital: angulo_inicial,
            rotacion_velocidad: 500_000,
            angulo_rotacion: 0,
            es_luna: false,
            planeta_padre: None,
        }
    }

    /// Crear una luna que orbita el planeta con índice `planeta_padre_idx`.
    pub fn new_luna(
        nombre: &str,
        planeta_padre_idx: usize,
        orbita_radio: i64,
        orbita_velocidad: i64,
        radio: i64,
    ) -> (r: Self)
        requires
            0 < radio <= LIMITE_RADIO,
            0 <= orbita_radio <= LIMITE_RADIO,
            -LIMITE_VELOCIDAD <= orbita_velocidad <= LIMITE_VELOCIDAD,
        ensures
            limites_cuerpo(r),
            r.nombre@ == nombre@,
            r.tipo == CelestialBodyType::Luna,
            r.orbita_radio == orbita_radio,
            r.orbita_velocidad == orbita_velocidad,
            r.orbita_inclinacion == 100_000,
            r.angulo_orbital == 0,
            r.radio == radio,
            r.es_luna == true,
            r.planeta_padre == Some(planeta_padre_idx),
    {
        CelestialBody {
            nombre: String::from_str(nombre),
            tipo: CelestialBodyType::Luna,
            posicion: Vec3 { x: 0, y: 0, z: 0 },
            radio,
            escala_visual: radio,
            tipo_shader: 6,
            orbita_centro: Vec3 { x: 0, y: 0, z: 0 },
            orbita_radio,
            orbita_velocidad,
            orbita_inclinacion: 100_000,
            angulo_orbital: 0,
            rotacion_velocidad: 1_000_000,
            angulo_rotacion: 0,
            es_luna: true,
            planeta_padre: Some(planeta_padre_idx),
        }
    }

    /// Avanza la fase orbital y la rotación `delta_time` segundos y recalcula
    /// la posición sobre la órbita. Las fases quedan siempre en `[0, TAU_FIJO)`.
    pub fn actualizar(&mut self, delta_time: i64)
        requires
            limites_cuerpo(*old(self)),
            0 <= delta_time <= LIMITE_DT_ESCALADO,
        ensures
            cuerpo_avanzado_espec(*old(self), *final(self), delta_time as int),
            limites_cuerpo(*final(self)),
    {
        proof {
            reveal(angulo_avanzado_espec);
            reveal(orbita_x_espec);
            reveal(orbita_y_espec);
            reveal(orbita_z_espec);
        }
        let inc = incremento_angular(self.orbita_velocidad, delta_time);
        let ang = envolver_angulo(self.angulo_orbital + inc);
        self.angulo_orbital = ang;

        let cos = coseno_fijo(ang);
        let sen = seno_fijo(ang);
        let x = self.orbita_centro.x + excursion_orbital(self.orbita_radio, cos);
        let z = self.orbita_centro.z + excursion_orbital(self.orbita_radio, sen);
        let y = self.orbita_centro.y
            + excursion_vertical(self.orbita_radio, self.orbita_inclinacion, sen);
        self.posicion = Vec3 { x, y, z };

        let inc_rot = incremento_angular(self.rotacion_velocidad, delta_time);
        self.angulo_rotacion = envolver_angulo(self.angulo_rotacion + inc_rot);
    }

    /// Actualizar el centro de órbita (el sistema lo usa para las lunas).
    pub fn actualizar_centro_orbita(&mut self, nuevo_centro: Vec3)
        ensures
            *final(self) == (CelestialBody { orbita_centro: nuevo_centro, ..*old(self) }),
    {
        self.orbita_centro = nuevo_centro;
    }

    /// Puntos de la órbita actual para dibujarla: `segmentos + 1` posiciones
    /// sobre la circunferencia, empezando y terminando en fase 0.
    pub fn generar_puntos_orbita(&self, segmentos: usize) -> (puntos: Vec<Vec3>)
        requires
            limites_cuerpo(*self),
            0 < segmentos <= 100_000,
        ensures
            puntos.len() == segmentos + 1,
            forall|i: int| 0 <= i < puntos.len() ==> #[trigger] puntos[i] == (Vec3 {
                x: orbita_x_espec(
                    self.orbita_centro,
                    self.orbita_radio as int,
                    fase_segmento(i, segmentos as int),
                ) as i64,
                y: orbita_y_espec(
                    self.orbita_centro,
                    self.orbita_radio as int,
                    self.orbita_inclinacion as int,
                    fase_segmento(i, segmentos as int),
                ) as i64,
                z: orbita_z_espec(
                    self.orbita_centro,
                    self.orbita_radio as int,
                    fase_segmento(i, segmentos as int),
                ) as i64,
            }),
    {
        let mut puntos: Vec<Vec3> = Vec::new();
        let mut i: usize = 0;
        while i <= segmentos
            invariant
                limites_cuerpo(*self),
                0 < segmentos <= 100_000,
                0 <= i <= segmentos + 1,
                puntos.len() == i,
                forall|j: int| 0 <= j < i ==> #[trigger] puntos[j] == (Vec3 {
                    x: orbita_x_espec(
                        self.orbita_centro,
                        self.orbita_radio as int,
                        fase_segmento(j, segmentos as int),
                    ) as i64,
                    y: orbita_y_espec(
                        self.orbita_centro,
                        self.orbita_radio as int,
                        self.orbita_inclinacion as int,
                        fase_segmento(j, segmentos as int),
                    ) as i64,
                    z: orbita_z_espec(
                        self.orbita_centro,
                        self.orbita_radio as int,
                        fase_segmento(j, segmentos as int),
                    ) as i64,
                }),
            decreases segmentos + 1 - i,
        {
            proof {
                reveal(orbita_x_espec);
                reveal(orbita_y_espec);
                reveal(orbita_z_espec);
            }
            let angulo = fase_de_segmento(i, segmentos);
            let cos = coseno_fijo(angulo);
            let sen = seno_fijo(angulo);
            let x = self.orbita_centro.x + excursion_orbital(self.orbita_radio, cos);
            let z = self.orbita_centro.z + excursion_orbital(self.orbita_radio, sen);
            let y = self.orbita_centro.y
                + excursion_vertical(self.orbita_radio, self.orbita_inclinacion, sen);
            puntos.push(Vec3 { x, y, z });
            i = i + 1;
        }
        puntos
    }
}

/// Tras cualquier avance con `dt >= 0`, la fase orbital y el ángulo de
/// rotación de un cuerpo quedan envueltos en `[0, TAU_FIJO)`.
pub proof fn lema_fases_envueltas(c: CelestialBody, d: CelestialBody, dt: int)
    requires
        cuerpo_avanzado_espec(c, d, dt),
    ensures
        0 <= d.angulo_orbital < TAU_FIJO,
        0 <= d.angulo_rotacion < TAU_FIJO,
{
    reveal(angulo_avanzado_espec);
    vstd::arithmetic::div_mod::lemma_mod_bound(
        c.angulo_orbital + div_trunca_espec(c.orbita_velocidad as int * dt, ESCALA as int),
        TAU_FIJO as int,
    );
    vstd::arithmetic::div_mod::lemma_mod_bound(
        c.angulo_rotacion + div_trunca_espec(c.rotacion_velocidad as int * dt, ESCALA as int),
        TAU_FIJO as int,
    );
}

/// Fase del punto `i` de `segmentos`: la fracción `i / segmentos` de una vuelta.
pub open spec fn fase_segmento(i: int, segmentos: int) -> int {
    (i * TAU_FIJO) / segmentos
}

/// Evaluación ejecutable de `fase_segmento`.
fn fase_de_segmento(i: usize, segmentos: usize) -> (r: i64)
    requires
        0 < segmentos <= 100_000,
        i <= segmentos,
    ensures
        r == fase_segmento(i as int, segmentos as int),
        0 <= r <= TAU_FIJO,
{
    proof {
        let ni = i as int * TAU_FIJO;
        assert(0 <= ni <= segmentos as int * TAU_FIJO) by (nonlinear_arith)
            requires
                0 <= i as int <= segmentos as int,
                TAU_FIJO > 0,
                ni == i as int * TAU_FIJO;
    }
    let n = (i as u64) * (TAU_FIJO as u64);
    let q = n / (segmentos as u64);
    proof {
        let ni = i as int * TAU_FIJO;
        lemma_div_pos_is_pos(ni, segmentos as int);
        lemma_div_is_ordered(ni, segmentos as int * TAU_FIJO, segmentos as int);
        assert(segmentos as int * TAU_FIJO == TAU_FIJO * segmentos) by (nonlinear_arith);
        vstd::arithmetic::div_mod::lemma_div_by_multiple(TAU_FIJO as int, segmentos as int);
    }
    q as i64
}

} // verus!
