//! Controlador de warp: una máquina de estados efímera que traslada la cámara
//! entre dos puntos capturados, con interpolación suavizada, y que al terminar
//! deja la posición exactamente en el destino (el exceso de tiempo se recorta,
//! nunca se extrapola).
use vstd::prelude::*;
use vstd::arithmetic::div_mod::{lemma_div_is_ordered, lemma_div_pos_is_pos};
use crate::camera::{camara_bien_formada, Camera3D};
use crate::celestial_body::{limites_cuerpo, CelestialBody};
use crate::constants::{ESCALA, LIMITE_DT, LIMITE_FIJO};
use crate::fijo::{div_trunca, div_trunca_espec};
use crate::utils::{lerp_espec, lerp_vec3, smooth_step, suavizado_espec};
use crate::vec3::{dentro_de, normalizado_espec, normalizar, Vec3};

verus! {

/// Estado del warp: inactivo, o en curso con los dos puntos capturados, la
/// fracción transcurrida (en punto fijo, sobre `[0, ESCALA)`) y la duración
/// en segundos. Mientras está en curso, el warp tiene el control exclusivo de
/// la posición de la cámara; el paso de entrada ignora mientras tanto todo el
/// resto de la entrada, rotación incluida.
#[derive(Debug, Clone, Copy, PartialEq, Eq, Structural)]
pub enum WarpTransition {
    Inactivo,
    EnCurso { origen: Vec3, destino: Vec3, tiempo: i64, duracion: i64 },
}

/// Invariante del warp: mientras está en curso, la fracción no ha llegado a 1,
/// la duración es positiva y los dos puntos están dentro de la banda de
/// trabajo.
pub open spec fn warp_bien_formado(w: WarpTransition) -> bool {
    match w {
        WarpTransition::Inactivo => true,
        WarpTransition::EnCurso { origen, destino, tiempo, duracion } => {
            &&& 0 <= tiempo < ESCALA
            &&& 0 < duracion <= LIMITE_FIJO
            &&& dentro_de(origen, LIMITE_FIJO as int)
            &&& dentro_de(destino, LIMITE_FIJO as int)
        },
    }
}

/// Punto de llegada de un warp al cuerpo `c`: a `3 radios + 5` unidades del
/// centro, en la dirección fija `(1, 0.5, 1)` normalizada.
pub open spec fn destino_warp_espec(c: CelestialBody) -> Vec3 {
    let dist = 3 * c.radio + 5 * ESCALA;
    let unidad = normalizado_espec(Vec3 { x: ESCALA, y: 500_000, z: ESCALA });
    Vec3 {
        x: (c.posicion.x + div_trunca_espec(dist * unidad.x, ESCALA as int)) as i64,
        y: (c.posicion.y + div_trunca_espec(dist * unidad.y, ESCALA as int)) as i64,
        z: (c.posicion.z + div_trunca_espec(dist * unidad.z, ESCALA as int)) as i64,
    }
}

/// La fracción transcurrida tras sumar `dt / duracion`.
pub open spec fn fraccion_avanzada_espec(tiempo: int, dt: int, duracion: int) -> int {
    tiempo + div_trunca_espec(dt * ESCALA, duracion)
}

impl WarpTransition {
    /// Ningún warp en curso.
    pub fn nuevo() -> (r: Self)
        ensures
            r == WarpTransition::Inactivo,
    {
        WarpTransition::Inactivo
    }

    /// ¿Hay un warp en curso?
    pub fn activo(&self) -> (r: bool)
        ensures
            r == (*self is EnCurso),
    {
        match self {
            WarpTransition::Inactivo => false,
            WarpTransition::EnCurso { .. } => true,
        }
    }

    /// Arranca un warp desde `origen` hacia el punto seguro alrededor de
    /// `cuerpo`. Un warp ya en curso se sobrescribe sin más.
    pub fn iniciar_warp(&mut self, origen: Vec3, cuerpo: &CelestialBody, duracion: i64)
        requires
            limites_cuerpo(*cuerpo),
            dentro_de(origen, LIMITE_FIJO as int),
            0 < duracion <= LIMITE_FIJO,
        ensures
            *final(self) == (WarpTransition::EnCurso {
                origen,
                destino: destino_warp_espec(*cuerpo),
                tiempo: 0,
                duracion,
            }),
            warp_bien_formado(*final(self)),
    {
        let dist = 3 * cuerpo.radio + 5 * ESCALA;
        let unidad = normalizar(Vec3 { x: ESCALA, y: 500_000, z: ESCALA });
        let sx = crate::celestial_body::excursion_orbital(dist, unidad.x);
        let sy = crate::celestial_body::excursion_orbital(dist, unidad.y);
        let sz = crate::celestial_body::excursion_orbital(dist, unidad.z);
        let destino = Vec3 {
            x: cuerpo.posicion.x + sx,
            y: cuerpo.posicion.y + sy,
            z: cuerpo.posicion.z + sz,
        };
        *self = WarpTransition::EnCurso { origen, destino, tiempo: 0, duracion };
    }

    /// Avanza el warp `dt` segundos. Si la fracción llega o supera 1, la
    /// cámara salta exactamente al destino y el warp termina; si no, la
    /// posición se interpola entre origen y destino con el suavizado cúbico.
    pub fn avanzar(&mut self, dt: i64, camara: &mut Camera3D)
        requires
            warp_bien_formado(*old(self)),
            camara_bien_formada(*old(camara)),
            0 <= dt <= LIMITE_DT,
        ensures
            warp_bien_formado(*final(self)),
            camara_bien_formada(*final(camara)),
            match *old(self) {
                WarpTransition::Inactivo => *final(self) == WarpTransition::Inactivo
                    && *final(camara) == *old(camara),
                WarpTransition::EnCurso { origen, destino, tiempo, duracion } => {
                    let avance = fraccion_avanzada_espec(tiempo as int, dt as int, duracion as int);
                    if avance >= ESCALA {
                        &&& *final(self) == WarpTransition::Inactivo
                        &&& *final(camara) == (Camera3D { posicion: destino, ..*old(camara) })
                    } else {
                        &&& *final(self) == (WarpTransition::EnCurso {
                            origen,
                            destino,
                            tiempo: avance as i64,
                            duracion,
                        })
                        &&& *final(camara) == (Camera3D {
                            posicion: (Vec3 {
                                x: lerp_espec(
                                    origen.x as int,
                                    destino.x as int,
                                    suavizado_espec(avance),
                                ) as i64,
                                y: lerp_espec(
                                    origen.y as int,
                                    destino.y as int,
                                    suavizado_espec(avance),
                                ) as i64,
                                z: lerp_espec(
                                    origen.z as int,
                                    destino.z as int,
                                    suavizado_espec(avance),
                                ) as i64,
                            }),
                            ..*old(camara)
                        })
                    }
                },
            },
    {
        let (origen, destino, tiempo, duracion) = match *self {
            WarpTransition::Inactivo => {
                return;
            },
            WarpTransition::EnCurso { origen, destino, tiempo, duracion } => (
                origen,
                destino,
                tiempo,
                duracion,
            ),
        };
        proof {
            assert(0 <= dt as int * ESCALA <= 1_000_000_000_000_000int) by (nonlinear_arith)
                requires
                    0 <= dt <= LIMITE_DT,
                    LIMITE_DT == 1_000_000_000,
                    ESCALA == 1_000_000;
        }
        let inc = div_trunca((dt as i128) * (ESCALA as i128), duracion as i128);
        proof {
            lemma_div_pos_is_pos(dt as int * ESCALA, duracion as int);
            lemma_div_is_ordered(dt as int * ESCALA, 1_000_000_000_000_000int, duracion as int);
        }
        let avance = tiempo + (inc as i64);
        if avance >= ESCALA {
            camara.posicion = destino;
            *self = WarpTransition::Inactivo;
        } else {
            let t = smooth_step(avance);
            camara.posicion = lerp_vec3(&origen, &destino, t);
            *self = WarpTransition::EnCurso { origen, destino, tiempo: avance, duracion };
        }
    }
}

} // verus!
