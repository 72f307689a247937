//! Cámara 3D libre: posición, orientación por yaw/pitch, primitivas de
//! movimiento, matrices de vista y proyección, y teletransporte con
//! recuperación de ángulos a partir de una dirección.
//!
//! Invariante central: `direccion` es siempre el vector reconstruido desde
//! `(yaw, pitch)`; ningún camino escribe la dirección por separado.
use vstd::prelude::*;
use vstd::arithmetic::div_mod::{
    lemma_div_is_ordered, lemma_div_multiples_vanish, lemma_div_of0, lemma_div_pos_is_pos,
};
use crate::constants::{
    CAMERA_SPEED, ESCALA, FAR_PLANE, FOV, LIMITE_FIJO, MEDIO_PI_FIJO, MOUSE_SENSITIVITY,
    NEAR_PLANE, PI_FIJO, TAU_FIJO,
};
use crate::fijo::{div_trunca, div_trunca_espec, envolver_angulo, envuelto_espec};
use crate::trig::{
    asin_espec, asin_fijo, atan2_espec, atan2_fijo, coseno_espec, coseno_fijo, seno_espec,
    seno_fijo,
};
use crate::vec3::{
    abs_espec, componente_cruz_espec, dentro_de, desplazamiento_acotado, normalizado_espec,
    normalizar, producto_cruz, producto_punto, producto_punto_espec, Vec3,
};

verus! {

/// Tope del cabeceo: 89 grados en micro-radianes.
pub const LIMITE_PITCH: i64 = 1_553_342;

/// Matriz 4x4 en punto fijo; `mFC` es la entrada de la fila F y columna C de
/// la matriz matemática.
#[derive(Debug, Clone, Copy, PartialEq, Eq, Structural)]
pub struct Mat4 {
    pub m00: i64,
    pub m01: i64,
    pub m02: i64,
    pub m03: i64,
    pub m10: i64,
    pub m11: i64,
    pub m12: i64,
    pub m13: i64,
    pub m20: i64,
    pub m21: i64,
    pub m22: i64,
    pub m23: i64,
    pub m30: i64,
    pub m31: i64,
    pub m32: i64,
    pub m33: i64,
}

/// La matriz identidad (con ESCALA en la diagonal).
pub open spec fn identidad_espec() -> Mat4 {
    Mat4 {
        m00: ESCALA,
        m01: 0,
        m02: 0,
        m03: 0,
        m10: 0,
        m11: ESCALA,
        m12: 0,
        m13: 0,
        m20: 0,
        m21: 0,
        m22: ESCALA,
        m23: 0,
        m30: 0,
        m31: 0,
        m32: 0,
        m33: ESCALA,
    }
}

/// Dirección unitaria reconstruida desde yaw y pitch por coordenadas
/// esféricas: `(cos(yaw) cos(pitch), sin(pitch), sin(yaw) cos(pitch))`.
pub open spec fn direccion_de_angulos(yaw: int, pitch: int) -> Vec3 {
    Vec3 {
        x: div_trunca_espec(coseno_espec(yaw) * coseno_espec(pitch), ESCALA as int) as i64,
        y: seno_espec(pitch) as i64,
        z: div_trunca_espec(seno_espec(yaw) * coseno_espec(pitch), ESCALA as int) as i64,
    }
}

/// Producto cruz en punto fijo, como lo calcula `producto_cruz`.
pub open spec fn cruz_espec(a: Vec3, b: Vec3) -> Vec3 {
    Vec3 {
        x: componente_cruz_espec(a.y * b.z, a.z * b.y) as i64,
        y: componente_cruz_espec(a.z * b.x, a.x * b.z) as i64,
        z: componente_cruz_espec(a.x * b.y, a.y * b.x) as i64,
    }
}

/// Producto punto reescalado a punto fijo.
pub open spec fn punto_fijo_espec(a: Vec3, b: Vec3) -> int {
    div_trunca_espec(producto_punto_espec(a, b), ESCALA as int)
}

pub struct Camera3D {
    pub posicion: Vec3,
    pub direccion: Vec3,
    pub up: Vec3,
    pub yaw: i64,
    pub pitch: i64,
    pub fov: i64,
    pub aspect_ratio: i64,
    pub near: i64,
    pub far: i64,
    pub velocidad_movimiento: i64,
    pub velocidad_rotacion: i64,
}

/// Invariante de la cámara: dirección derivada de los ángulos, cabeceo dentro
/// de media vuelta, `up` fijo en +Y y parámetros de proyección sanos.
pub open spec fn camara_bien_formada(c: Camera3D) -> bool {
    &&& c.direccion == direccion_de_angulos(c.yaw as int, c.pitch as int)
    &&& dentro_de(c.direccion, ESCALA as int)
    &&& -TAU_FIJO <= c.yaw <= TAU_FIJO
    &&& -MEDIO_PI_FIJO <= c.pitch <= MEDIO_PI_FIJO
    &&& c.up == (Vec3 { x: 0, y: ESCALA, z: 0 })
    &&& 2 <= c.fov <= 3_000_000
    &&& 0 < c.aspect_ratio <= 1_000 * ESCALA
    &&& 0 < c.near && 2 * c.near <= c.far <= LIMITE_FIJO
    &&& 0 <= c.velocidad_movimiento <= 1_000_000_000
    &&& 0 <= c.velocidad_rotacion <= ESCALA
}

/// `direccion_de_angulos(-pi/2, 0) == (0, 0, -1)`: la orientación inicial
/// mira hacia -Z.
pub proof fn lema_direccion_inicial()
    ensures
        direccion_de_angulos(-MEDIO_PI_FIJO as int, 0) == (Vec3 { x: 0, y: 0, z: (-ESCALA) as i64 }),
{
    crate::trig::lema_cuadrantes_exactos();
    let m = MEDIO_PI_FIJO as int;
    let tau = TAU_FIJO as int;
    assert(envuelto_espec(-m) == 3 * m) by {
        vstd::arithmetic::div_mod::lemma_fundamental_div_mod_converse(-m, tau, -1, 3 * m);
    }
    assert(envuelto_espec(3 * m) == 3 * m) by {
        vstd::arithmetic::div_mod::lemma_small_mod((3 * m) as nat, tau as nat);
    }
    assert(seno_espec(-m) == seno_espec(PI_FIJO + MEDIO_PI_FIJO));
    assert(coseno_espec(-m) == seno_espec(-m + m));
    assert(seno_espec(0) == 0 && seno_espec(-m) == -ESCALA && coseno_espec(0) == ESCALA);
    assert(div_trunca_espec(0 * (ESCALA as int), ESCALA as int) == 0) by {
        lemma_div_of0(ESCALA as int);
    }
    assert(div_trunca_espec((-ESCALA as int) * ESCALA, ESCALA as int) == -ESCALA as int) by {
        assert((-ESCALA as int) * ESCALA == -((ESCALA as int) * ESCALA)) by (nonlinear_arith);
        assert((ESCALA as int) * ESCALA == 1_000_000_000_000int) by (nonlinear_arith)
            requires ESCALA == 1_000_000;
    }
}

/// `a * b / ESCALA` para dos factores unitarios: queda en `[-1, 1]`.
fn producto_unitario(a: i64, b: i64) -> (r: i64)
    requires
        -ESCALA <= a <= ESCALA,
        -ESCALA <= b <= ESCALA,
    ensures
        r == div_trunca_espec(a as int * b, ESCALA as int),
        -ESCALA <= r <= ESCALA,
{
    proof {
        assert(-((ESCALA as int) * ESCALA) <= a as int * b <= (ESCALA as int) * ESCALA)
            by (nonlinear_arith)
            requires
                -ESCALA <= a as int <= ESCALA,
                -ESCALA <= b as int <= ESCALA;
    }
    let q = div_trunca((a as i128) * (b as i128), ESCALA as i128);
    proof {
        let e = ESCALA as int;
        let n = a as int * b;
        if n >= 0 {
            lemma_div_pos_is_pos(n, e);
            lemma_div_is_ordered(n, e * e, e);
            lemma_div_multiples_vanish(e, e);
        } else {
            lemma_div_pos_is_pos(-n, e);
            lemma_div_is_ordered(-n, e * e, e);
            lemma_div_multiples_vanish(e, e);
        }
    }
    q as i64
}

impl Camera3D {
    /// Cámara en `posicion`, mirando hacia -Z, con los parámetros por defecto.
    pub fn new(posicion: Vec3, aspect_ratio: i64) -> (r: Self)
        requires
            dentro_de(posicion, LIMITE_FIJO as int),
            0 < aspect_ratio <= 1_000 * ESCALA,
        ensures
            camara_bien_formada(r),
            r.posicion == posicion,
            r.direccion == (Vec3 { x: 0, y: 0, z: (-ESCALA) as i64 }),
            r.yaw == -MEDIO_PI_FIJO,
            r.pitch == 0,
            r.aspect_ratio == aspect_ratio,
            r.velocidad_movimiento == CAMERA_SPEED,
            r.velocidad_rotacion == MOUSE_SENSITIVITY,
            r.near == NEAR_PLANE,
            r.far == FAR_PLANE,
            r.fov == 1_047_197,
    {
        proof {
            lema_direccion_inicial();
        }
        // Campo de visión de 60 grados, pasado a micro-radianes.
        let fov = crate::utils::deg_to_rad(FOV);
        proof {
            assert(fov == 1_047_197);
        }
        Camera3D {
            posicion,
            direccion: Vec3 { x: 0, y: 0, z: -ESCALA },
            up: Vec3 { x: 0, y: ESCALA, z: 0 },
            yaw: -MEDIO_PI_FIJO,
            pitch: 0,
            fov,
            aspect_ratio,
            near: NEAR_PLANE,
            far: FAR_PLANE,
            velocidad_movimiento: CAMERA_SPEED,
            velocidad_rotacion: MOUSE_SENSITIVITY,
        }
    }

    /// Recalcula `direccion` desde `(yaw, pitch)`; se llama tras cada cambio
    /// de ángulo. El vector esférico ya es unitario, así que no se vuelve a
    /// normalizar.
    pub fn actualizar_vectores(&mut self)
        requires
            -TAU_FIJO <= old(self).yaw <= TAU_FIJO,
            -MEDIO_PI_FIJO <= old(self).pitch <= MEDIO_PI_FIJO,
        ensures
            *final(self) == (Camera3D {
                direccion: direccion_de_angulos(old(self).yaw as int, old(self).pitch as int),
                ..*old(self)
            }),
            dentro_de(final(self).direccion, ESCALA as int),
    {
        let cos_yaw = coseno_fijo(self.yaw);
        let sen_yaw = seno_fijo(self.yaw);
        let cos_pitch = coseno_fijo(self.pitch);
        let sen_pitch = seno_fijo(self.pitch);
        let x = producto_unitario(cos_yaw, cos_pitch);
        let z = producto_unitario(sen_yaw, cos_pitch);
        self.direccion = Vec3 { x, y: sen_pitch, z };
    }

    /// Desplaza la cámara a lo largo de su dirección; una distancia negativa
    /// retrocede.
    pub fn mover_adelante(&mut self, distancia: i64)
        requires
            camara_bien_formada(*old(self)),
            dentro_de(old(self).posicion, LIMITE_FIJO as int),
            -LIMITE_FIJO <= distancia <= LIMITE_FIJO,
        ensures
            *final(self) == (Camera3D {
                posicion: posicion_desplazada(
                    old(self).posicion,
                    old(self).direccion,
                    distancia as int,
                ),
                ..*old(self)
            }),
            desplazamiento_acotado(
                old(self).posicion,
                final(self).posicion,
                abs_espec(distancia as int),
            ),
            camara_bien_formada(*final(self)),
    {
        let paso = self.direccion.escalado(distancia);
        self.posicion = self.posicion.mas(paso);
    }

    /// Desplaza la cámara a su derecha (el normalizado del producto cruz de
    /// la dirección con `up`); si la dirección es paralela a `up`, el lado no
    /// está definido y la posición no cambia.
    pub fn mover_derecha(&mut self, distancia: i64)
        requires
            camara_bien_formada(*old(self)),
            dentro_de(old(self).posicion, LIMITE_FIJO as int),
            -LIMITE_FIJO <= distancia <= LIMITE_FIJO,
        ensures
            *final(self) == (Camera3D {
                posicion: (if lado_derecho_definido(old(self).direccion) {
                    posicion_desplazada(
                        old(self).posicion,
                        normalizado_espec(cruz_espec(old(self).direccion, old(self).up)),
                        distancia as int,
                    )
                } else {
                    old(self).posicion
                }),
                ..*old(self)
            }),
            desplazamiento_acotado(
                old(self).posicion,
                final(self).posicion,
                abs_espec(distancia as int),
            ),
            camara_bien_formada(*final(self)),
    {
        let cr = producto_cruz(self.direccion, self.up);
        if cr.x == 0 && cr.y == 0 && cr.z == 0 {
            return;
        }
        let derecha = normalizar(cr);
        let paso = derecha.escalado(distancia);
        self.posicion = self.posicion.mas(paso);
    }

    /// Desplaza la cámara a lo largo de `up` (exacto: `up` es el eje +Y).
    pub fn mover_arriba(&mut self, distancia: i64)
        requires
            camara_bien_formada(*old(self)),
            dentro_de(old(self).posicion, LIMITE_FIJO as int),
            -LIMITE_FIJO <= distancia <= LIMITE_FIJO,
        ensures
            *final(self) == (Camera3D {
                posicion: (Vec3 {
                    x: old(self).posicion.x,
                    y: (old(self).posicion.y + distancia) as i64,
                    z: old(self).posicion.z,
                }),
                ..*old(self)
            }),
            camara_bien_formada(*final(self)),
    {
        let paso = self.up.escalado(distancia);
        proof {
            let e = ESCALA as int;
            let d = distancia as int;
            lemma_div_of0(e);
            if d >= 0 {
                lemma_div_multiples_vanish(d, e);
            } else {
                assert(-(e * d) == e * (-d)) by (nonlinear_arith);
                lemma_div_multiples_vanish(-d, e);
            }
        }
        self.posicion = self.posicion.mas(paso);
    }

    /// Rota la cámara con el desplazamiento del mouse: el yaw gira (envuelto
    /// a una vuelta), el pitch se invierte y queda recortado a ±89 grados, y
    /// la dirección se recalcula.
    pub fn rotar(&mut self, delta_x: i64, delta_y: i64)
        requires
            camara_bien_formada(*old(self)),
            -LIMITE_FIJO <= delta_x <= LIMITE_FIJO,
            -LIMITE_FIJO <= delta_y <= LIMITE_FIJO,
        ensures
            final(self).yaw == envuelto_espec(
                old(self).yaw + div_trunca_espec(
                    delta_x as int * old(self).velocidad_rotacion,
                    ESCALA as int,
                ),
            ),
            final(self).pitch == pitch_recortado(
                old(self).pitch - div_trunca_espec(
                    delta_y as int * old(self).velocidad_rotacion,
                    ESCALA as int,
                ),
            ),
            -LIMITE_PITCH <= final(self).pitch <= LIMITE_PITCH,
            final(self).direccion == direccion_de_angulos(
                final(self).yaw as int,
                final(self).pitch as int,
            ),
            final(self).posicion == old(self).posicion,
            final(self).up == old(self).up,
            final(self).fov == old(self).fov,
            final(self).aspect_ratio == old(self).aspect_ratio,
            final(self).near == old(self).near,
            final(self).far == old(self).far,
            final(self).velocidad_movimiento == old(self).velocidad_movimiento,
            final(self).velocidad_rotacion == old(self).velocidad_rotacion,
            camara_bien_formada(*final(self)),
    {
        let giro_x = producto_sensibilidad(delta_x, self.velocidad_rotacion);
        let giro_y = producto_sensibilidad(delta_y, self.velocidad_rotacion);
        self.yaw = envolver_angulo(self.yaw + giro_x);
        let pitch_crudo = self.pitch - giro_y;
        self.pitch = if pitch_crudo < -LIMITE_PITCH {
            -LIMITE_PITCH
        } else if pitch_crudo > LIMITE_PITCH {
            LIMITE_PITCH
        } else {
            pitch_crudo
        };
        self.actualizar_vectores();
    }

    /// Matriz de vista (look-at) desde la posición hacia
    /// `posicion + direccion`, con `up` como referencia vertical. En los
    /// casos degenerados (dirección nula o paralela a `up`) devuelve la
    /// identidad.
    pub fn get_view_matrix(&self) -> (r: Mat4)
        requires
            camara_bien_formada(*self),
            dentro_de(self.posicion, LIMITE_FIJO as int),
        ensures
            r == matriz_vista_espec(*self),
    {
        let d = self.direccion;
        if d.x == 0 && d.y == 0 && d.z == 0 {
            return Mat4 {
                m00: ESCALA, m01: 0, m02: 0, m03: 0,
                m10: 0, m11: ESCALA, m12: 0, m13: 0,
                m20: 0, m21: 0, m22: ESCALA, m23: 0,
                m30: 0, m31: 0, m32: 0, m33: ESCALA,
            };
        }
        let f = normalizar(d);
        let cr = producto_cruz(f, self.up);
        if cr.x == 0 && cr.y == 0 && cr.z == 0 {
            return Mat4 {
                m00: ESCALA, m01: 0, m02: 0, m03: 0,
                m10: 0, m11: ESCALA, m12: 0, m13: 0,
                m20: 0, m21: 0, m22: ESCALA, m23: 0,
                m30: 0, m31: 0, m32: 0, m33: ESCALA,
            };
        }
        let s = normalizar(cr);
        let u = producto_cruz(s, f);
        let ps = punto_reescalado(s, self.posicion);
        let pu = punto_reescalado(u, self.posicion);
        let pf = punto_reescalado(f, self.posicion);
        Mat4 {
            m00: s.x,
            m01: s.y,
            m02: s.z,
            m03: -ps,
            m10: u.x,
            m11: u.y,
            m12: u.z,
            m13: -pu,
            m20: -f.x,
            m21: -f.y,
            m22: -f.z,
            m23: pf,
            m30: 0,
            m31: 0,
            m32: 0,
            m33: ESCALA,
        }
    }

    /// Matriz de proyección en perspectiva (mano derecha, profundidad en
    /// `[-1, 1]`).
    pub fn get_projection_matrix(&self) -> (r: Mat4)
        requires
            camara_bien_formada(*self),
        ensures
            r == matriz_proyeccion_espec(*self),
    {
        let medio_fov = ((self.fov as u64) / 2) as i64;
        let sen = seno_fijo(medio_fov);
        let cos = coseno_fijo(medio_fov);
        let tan_medio = tangente_media(sen, cos);
        let m00 = inversa_producto(self.aspect_ratio, tan_medio);
        let m11 = inversa_escala(tan_medio);
        let (m22, m23v) = coeficientes_profundidad(self.near, self.far);
        Mat4 {
            m00,
            m01: 0,
            m02: 0,
            m03: 0,
            m10: 0,
            m11,
            m12: 0,
            m13: 0,
            m20: 0,
            m21: 0,
            m22,
            m23: m23v,
            m30: 0,
            m31: 0,
            m32: -ESCALA,
            m33: 0,
        }
    }

    /// Teletransporta la cámara a `destino` mirando hacia `mirar_hacia`:
    /// resuelve yaw y pitch desde la dirección normalizada y recalcula la
    /// dirección. Si ambos puntos coinciden, la dirección es indefinida y se
    /// conserva la orientación inicial (yaw -pi/2, pitch 0); si la mirada es
    /// exactamente vertical, el yaw queda en 0, como el atan2 de (0, 0).
    #[verifier::rlimit(50)]
    pub fn teleport_to(&mut self, destino: Vec3, mirar_hacia: Vec3)
        requires
            camara_bien_formada(*old(self)),
            dentro_de(destino, 500_000_000_000_000int),
            dentro_de(mirar_hacia, 500_000_000_000_000int),
        ensures
            final(self).posicion == destino,
            final(self).yaw == angulos_de_mirada(destino, mirar_hacia).0,
            final(self).pitch == angulos_de_mirada(destino, mirar_hacia).1,
            final(self).direccion == direccion_de_angulos(
                final(self).yaw as int,
                final(self).pitch as int,
            ),
            final(self).up == old(self).up,
            final(self).fov == old(self).fov,
            final(self).aspect_ratio == old(self).aspect_ratio,
            final(self).near == old(self).near,
            final(self).far == old(self).far,
            final(self).velocidad_movimiento == old(self).velocidad_movimiento,
            final(self).velocidad_rotacion == old(self).velocidad_rotacion,
            camara_bien_formada(*final(self)),
    {
        self.posicion = destino;
        let d = mirar_hacia.menos(destino);
        if d.x == 0 && d.y == 0 && d.z == 0 {
            self.yaw = -MEDIO_PI_FIJO;
            self.pitch = 0;
        } else {
            let n = normalizar(d);
            if n.x == 0 && n.z == 0 {
                self.yaw = 0;
            } else {
                self.yaw = atan2_fijo(n.z, n.x);
            }
            self.pitch = asin_fijo(n.y);
        }
        self.actualizar_vectores();
    }

    /// Cambia la relación de aspecto (al redimensionar la ventana).
    pub fn set_aspect_ratio(&mut self, aspect: i64)
        requires
            camara_bien_formada(*old(self)),
            0 < aspect <= 1_000 * ESCALA,
        ensures
            *final(self) == (Camera3D { aspect_ratio: aspect, ..*old(self) }),
            camara_bien_formada(*final(self)),
    {
        self.aspect_ratio = aspect;
    }
}

/// Posición desplazada `distancia` a lo largo de una dirección unitaria.
pub open spec fn posicion_desplazada(pos: Vec3, dir: Vec3, distancia: int) -> Vec3 {
    Vec3 {
        x: (pos.x + div_trunca_espec(dir.x * distancia, ESCALA as int)) as i64,
        y: (pos.y + div_trunca_espec(dir.y * distancia, ESCALA as int)) as i64,
        z: (pos.z + div_trunca_espec(dir.z * distancia, ESCALA as int)) as i64,
    }
}

/// El lado derecho existe cuando la dirección no es paralela a `up`.
pub open spec fn lado_derecho_definido(dir: Vec3) -> bool {
    cruz_espec(dir, Vec3 { x: 0, y: ESCALA, z: 0 }) != (Vec3 { x: 0, y: 0, z: 0 })
}

/// Pitch recortado a ±89 grados.
pub open spec fn pitch_recortado(p: int) -> int {
    if p < -LIMITE_PITCH {
        -LIMITE_PITCH as int
    } else if p > LIMITE_PITCH {
        LIMITE_PITCH as int
    } else {
        p
    }
}

/// El recorte del cabeceo es incondicional: venga de donde venga el valor
/// crudo, tras cualquier giro el cabeceo queda en [-89, 89] grados.
pub proof fn lema_pitch_siempre_recortado(p: int)
    ensures
        -LIMITE_PITCH <= pitch_recortado(p) <= LIMITE_PITCH,
{
}

/// Los ángulos (yaw, pitch) que el teletransporte resuelve para mirar de
/// `destino` hacia `objetivo`.
pub open spec fn angulos_de_mirada(destino: Vec3, objetivo: Vec3) -> (int, int) {
    let d = Vec3 {
        x: (objetivo.x - destino.x) as i64,
        y: (objetivo.y - destino.y) as i64,
        z: (objetivo.z - destino.z) as i64,
    };
    if d == (Vec3 { x: 0, y: 0, z: 0 }) {
        (-MEDIO_PI_FIJO as int, 0int)
    } else {
        let n = normalizado_espec(d);
        let yaw = if n.x == 0 && n.z == 0 {
            0int
        } else {
            atan2_espec(n.z as int, n.x as int)
        };
        (yaw, asin_espec(n.y as int))
    }
}

/// La matriz de vista, tal y como la construye `get_view_matrix`.
pub open spec fn matriz_vista_espec(c: Camera3D) -> Mat4 {
    if c.direccion == (Vec3 { x: 0, y: 0, z: 0 }) {
        identidad_espec()
    } else {
        let f = normalizado_espec(c.direccion);
        let cr = cruz_espec(f, c.up);
        if cr == (Vec3 { x: 0, y: 0, z: 0 }) {
            identidad_espec()
        } else {
            let s = normalizado_espec(cr);
            let u = cruz_espec(s, f);
            Mat4 {
                m00: s.x,
                m01: s.y,
                m02: s.z,
                m03: -punto_fijo_espec(s, c.posicion) as i64,
                m10: u.x,
                m11: u.y,
                m12: u.z,
                m13: -punto_fijo_espec(u, c.posicion) as i64,
                m20: (-f.x) as i64,
                m21: (-f.y) as i64,
                m22: (-f.z) as i64,
                m23: punto_fijo_espec(f, c.posicion) as i64,
                m30: 0,
                m31: 0,
                m32: 0,
                m33: ESCALA,
            }
        }
    }
}

/// La matriz de proyección, tal y como la construye `get_projection_matrix`.
pub open spec fn matriz_proyeccion_espec(c: Camera3D) -> Mat4 {
    let sen = seno_espec(c.fov as int / 2);
    let cos = coseno_espec(c.fov as int / 2);
    let tan_medio = div_trunca_espec(sen * ESCALA, if cos < 1 { 1int } else { cos });
    let tan_pos = if tan_medio < 1 { 1int } else { tan_medio };
    Mat4 {
        m00: div_trunca_espec(
            (ESCALA as int) * ESCALA * ESCALA,
            c.aspect_ratio * tan_pos,
        ) as i64,
        m01: 0,
        m02: 0,
        m03: 0,
        m10: 0,
        m11: div_trunca_espec((ESCALA as int) * ESCALA, tan_pos) as i64,
        m12: 0,
        m13: 0,
        m20: 0,
        m21: 0,
        m22: -div_trunca_espec((c.far + c.near) * ESCALA, c.far - c.near) as i64,
        m23: -div_trunca_espec(2 * c.far * c.near, c.far - c.near) as i64,
        m30: 0,
        m31: 0,
        m32: (-ESCALA) as i64,
        m33: 0,
    }
}

/// `delta * sensibilidad / ESCALA`: el giro que produce un arrastre del mouse.
fn producto_sensibilidad(delta: i64, sensibilidad: i64) -> (r: i64)
    requires
        -LIMITE_FIJO <= delta <= LIMITE_FIJO,
        0 <= sensibilidad <= ESCALA,
    ensures
        r == div_trunca_espec(delta as int * sensibilidad, ESCALA as int),
        -LIMITE_FIJO <= r <= LIMITE_FIJO,
{
    proof {
        assert(-((LIMITE_FIJO as int) * ESCALA) <= delta as int * sensibilidad <= (
        LIMITE_FIJO as int) * ESCALA) by (nonlinear_arith)
            requires
                -LIMITE_FIJO <= delta as int <= LIMITE_FIJO,
                0 <= sensibilidad as int <= ESCALA;
    }
    let q = div_trunca((delta as i128) * (sensibilidad as i128), ESCALA as i128);
    proof {
        let e = ESCALA as int;
        let n = delta as int * sensibilidad;
        assert((LIMITE_FIJO as int) * e == e * (LIMITE_FIJO as int)) by (nonlinear_arith);
        if n >= 0 {
            lemma_div_pos_is_pos(n, e);
            lemma_div_is_ordered(n, e * (LIMITE_FIJO as int), e);
            lemma_div_multiples_vanish(LIMITE_FIJO as int, e);
        } else {
            lemma_div_pos_is_pos(-n, e);
            lemma_div_is_ordered(-n, e * (LIMITE_FIJO as int), e);
            lemma_div_multiples_vanish(LIMITE_FIJO as int, e);
        }
    }
    q as i64
}

/// `dot(a, b) / ESCALA` para `a` unitario y `b` una posición.
fn punto_reescalado(a: Vec3, b: Vec3) -> (r: i64)
    requires
        dentro_de(a, 128 * (ESCALA as int)),
        dentro_de(b, LIMITE_FIJO as int),
    ensures
        r == punto_fijo_espec(a, b),
        -(384 * (LIMITE_FIJO as int)) <= r <= 384 * (LIMITE_FIJO as int),
{
    proof {
        assert(-(384 * (ESCALA as int) * LIMITE_FIJO) <= producto_punto_espec(a, b) <= 384 * (
        ESCALA as int) * LIMITE_FIJO) by (nonlinear_arith)
            requires
                dentro_de(a, 128 * (ESCALA as int)),
                dentro_de(b, LIMITE_FIJO as int),
                producto_punto_espec(a, b) == a.x * b.x + a.y * b.y + a.z * b.z,
                ESCALA > 0,
                LIMITE_FIJO > 0;
    }
    let dot = producto_punto(a, b);
    let q = div_trunca(dot * 1, ESCALA as i128);
    proof {
        let e = ESCALA as int;
        let n = producto_punto_espec(a, b);
        assert((384 * (ESCALA as int) * LIMITE_FIJO) == e * (384 * (LIMITE_FIJO as int)))
            by (nonlinear_arith)
            requires e == ESCALA as int;
        if n >= 0 {
            lemma_div_pos_is_pos(n, e);
            lemma_div_is_ordered(n, e * (384 * (LIMITE_FIJO as int)), e);
            lemma_div_multiples_vanish(384 * (LIMITE_FIJO as int), e);
        } else {
            lemma_div_pos_is_pos(-n, e);
            lemma_div_is_ordered(-n, e * (384 * (LIMITE_FIJO as int)), e);
            lemma_div_multiples_vanish(384 * (LIMITE_FIJO as int), e);
        }
    }
    q as i64
}

/// `sen * ESCALA / cos`, con el coseno forzado a ser al menos 1.
fn tangente_media(sen: i64, cos: i64) -> (r: i64)
    requires
        -ESCALA <= sen <= ESCALA,
        -ESCALA <= cos <= ESCALA,
    ensures
        r == div_trunca_espec(sen as int * ESCALA, if cos < 1 { 1int } else { cos as int }),
        -1_000_000_000_000 <= r <= 1_000_000_000_000,
{
    let divisor = if cos < 1 {
        1
    } else {
        cos
    };
    proof {
        assert(-((ESCALA as int) * ESCALA) <= sen as int * ESCALA <= (ESCALA as int) * ESCALA)
            by (nonlinear_arith)
            requires -ESCALA <= sen as int <= ESCALA;
        assert((ESCALA as int) * ESCALA == 1_000_000_000_000int) by (nonlinear_arith)
            requires ESCALA == 1_000_000;
    }
    let q = div_trunca((sen as i128) * (ESCALA as i128), divisor as i128);
    proof {
        let n = sen as int * ESCALA;
        let b = divisor as int;
        if n >= 0 {
            lemma_div_pos_is_pos(n, b);
            vstd::arithmetic::div_mod::lemma_div_nonincreasing(n, b);
        } else {
            lemma_div_pos_is_pos(-n, b);
            vstd::arithmetic::div_mod::lemma_div_nonincreasing(-n, b);
        }
    }
    q as i64
}

/// `ESCALA^3 / (aspecto * tan)`: la entrada (0,0) de la proyección.
fn inversa_producto(aspecto: i64, tan_medio: i64) -> (r: i64)
    requires
        0 < aspecto <= 1_000 * ESCALA,
        -2_000_000_000_000 <= tan_medio <= 2_000_000_000_000,
    ensures
        r == div_trunca_espec(
            (ESCALA as int) * ESCALA * ESCALA,
            aspecto as int * (if tan_medio < 1 { 1int } else { tan_medio as int }),
        ) as i64,
{
    let tan_pos = if tan_medio < 1 {
        1
    } else {
        tan_medio
    };
    proof {
        assert(0 < aspecto as int * tan_pos <= 2_000_000_000_000_000_000_000int)
            by (nonlinear_arith)
            requires
                0 < aspecto as int <= 1_000 * (ESCALA as int),
                0 < tan_pos as int <= 2_000_000_000_000,
                ESCALA == 1_000_000;
    }
    let den = (aspecto as i128) * (tan_pos as i128);
    let q = div_trunca((ESCALA as i128) * (ESCALA as i128) * (ESCALA as i128), den);
    proof {
        lemma_div_pos_is_pos((ESCALA as int) * ESCALA * ESCALA, aspecto as int * tan_pos as int);
        vstd::arithmetic::div_mod::lemma_div_nonincreasing(
            (ESCALA as int) * ESCALA * ESCALA,
            aspecto as int * tan_pos as int,
        );
        assert((ESCALA as int) * ESCALA * ESCALA == 1_000_000_000_000_000_000int)
            by (nonlinear_arith)
            requires ESCALA == 1_000_000;
    }
    q as i64
}

/// `ESCALA^2 / tan`: la entrada (1,1) de la proyección.
fn inversa_escala(tan_medio: i64) -> (r: i64)
    requires
        -2_000_000_000_000 <= tan_medio <= 2_000_000_000_000,
    ensures
        r == div_trunca_espec(
            (ESCALA as int) * ESCALA,
            if tan_medio < 1 { 1int } else { tan_medio as int },
        ) as i64,
{
    let tan_pos = if tan_medio < 1 {
        1
    } else {
        tan_medio
    };
    let q = div_trunca((ESCALA as i128) * (ESCALA as i128), tan_pos as i128);
    proof {
        lemma_div_pos_is_pos((ESCALA as int) * ESCALA, tan_pos as int);
        vstd::arithmetic::div_mod::lemma_div_nonincreasing(
            (ESCALA as int) * ESCALA,
            tan_pos as int,
        );
        assert((ESCALA as int) * ESCALA == 1_000_000_000_000int) by (nonlinear_arith)
            requires ESCALA == 1_000_000;
    }
    q as i64
}

/// Los coeficientes de profundidad de la proyección:
/// `-(far + near) / (far - near)` y `-2 far near / (far - near)`.
fn coeficientes_profundidad(near: i64, far: i64) -> (r: (i64, i64))
    requires
        0 < near,
        2 * near <= far <= LIMITE_FIJO,
    ensures
        r.0 == -div_trunca_espec((far + near) * ESCALA, far - near as int) as i64,
        r.1 == -div_trunca_espec(2 * (far as int) * near, far - near as int) as i64,
{
    let dif = far - near;
    proof {
        assert(0 <= (far + near) as int * ESCALA <= 2_000_000_000_000_000_000_000int)
            by (nonlinear_arith)
            requires
                0 < far + near <= 2 * (LIMITE_FIJO as int),
                ESCALA == 1_000_000,
                LIMITE_FIJO == 1_000_000_000_000_000;
        assert(0 <= 2 * (far as int) * near <= 2_000_000_000_000_000_000_000_000_000_000int)
            by (nonlinear_arith)
            requires
                0 < near as int <= LIMITE_FIJO,
                0 < far as int <= LIMITE_FIJO,
                LIMITE_FIJO == 1_000_000_000_000_000;
    }
    let q22 = div_trunca(((far as i128) + (near as i128)) * (ESCALA as i128), dif as i128);
    let q32 = div_trunca(2 * (far as i128) * (near as i128), dif as i128);
    proof {
        let b = dif as int;
        lemma_div_pos_is_pos((far + near) as int * ESCALA, b);
        assert((far + near) as int * ESCALA <= b * (3 * (ESCALA as int))) by (nonlinear_arith)
            requires
                0 < near as int,
                2 * near as int <= far as int,
                b == far - near as int,
                ESCALA > 0;
        lemma_div_is_ordered((far + near) as int * ESCALA, b * (3 * (ESCALA as int)), b);
        assert(b * (3 * (ESCALA as int)) == (3 * (ESCALA as int)) * b) by (nonlinear_arith);
        vstd::arithmetic::div_mod::lemma_div_by_multiple(3 * (ESCALA as int), b);
        lemma_div_pos_is_pos(2 * (far as int) * near, b);
        assert(2 * (far as int) * near <= b * (4 * (near as int))) by (nonlinear_arith)
            requires
                0 < near as int,
                2 * near as int <= far as int,
                b == far - near as int;
        lemma_div_is_ordered(2 * (far as int) * near, b * (4 * (near as int)), b);
        assert(b * (4 * (near as int)) == (4 * (near as int)) * b) by (nonlinear_arith);
        vstd::arithmetic::div_mod::lemma_div_by_multiple(4 * (near as int), b);
    }
    (-(q22 as i64), -(q32 as i64))
}

} // verus!
