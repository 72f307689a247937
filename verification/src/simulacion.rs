//! Paso de simulación por fotograma: traduce una instantánea normalizada de
//! la entrada (teclas mantenidas, arrastre del mouse, selección de warp) en
//! movimientos de cámara corregidos por colisión y en arranques de warp.
//! El bucle de ventana y la captura cruda de eventos quedan fuera; aquí solo
//! llegan valores planos.
use vstd::prelude::*;
use vstd::arithmetic::div_mod::{lemma_div_is_ordered, lemma_div_pos_is_pos};
use crate::camera::{
    camara_bien_formada, cruz_espec, direccion_de_angulos, lado_derecho_definido, pitch_recortado,
    posicion_desplazada, Camera3D,
};
use crate::celestial_body::CelestialBody;
use crate::collision::{correccion_total_espec, CollisionSystem};
use crate::constants::{ESCALA, LIMITE_DT, LIMITE_FIJO};
use crate::fijo::{div_trunca, div_trunca_espec, envuelto_espec};
use crate::orbital_system::OrbitalSystem;
use crate::vec3::{dentro_de, normalizado_espec, Vec3};
use crate::warp::{destino_warp_espec, warp_bien_formado, WarpTransition};

verus! {

/// Radio de colisión de la cámara (0.5 unidades).
pub const RADIO_CAMARA: i64 = 500_000;

/// Duración fija de un warp (1 segundo).
pub const DURACION_WARP: i64 = 1_000_000;

/// Cota de la posición de la cámara que el paso de entrada acepta: deja
/// holgura para los seis desplazamientos y la corrección de colisión.
pub const LIMITE_POSICION_CAMARA: i64 = 400_000_000_000_000;

/// Instantánea normalizada de la entrada de un fotograma: qué teclas de
/// movimiento están mantenidas, el arrastre del mouse con su botón, y el
/// índice de cuerpo elegido para el warp, si se pulsó uno.
#[derive(Debug, Clone, Copy, PartialEq, Eq, Structural)]
pub struct EstadoEntrada {
    pub adelante: bool,
    pub atras: bool,
    pub izquierda: bool,
    pub derecha: bool,
    pub bajar: bool,
    pub subir: bool,
    pub mouse_presionado: bool,
    pub delta_x: i64,
    pub delta_y: i64,
    pub warp_solicitado: Option<usize>,
}

/// La misma cámara con otra posición.
pub open spec fn con_posicion(c: Camera3D, p: Vec3) -> Camera3D {
    Camera3D { posicion: p, ..c }
}

/// Avance a lo largo de la dirección, con corrección de colisión.
pub open spec fn avance_corregido(
    c: Camera3D,
    s: Seq<CelestialBody>,
    distancia: int,
) -> Camera3D {
    con_posicion(
        c,
        correccion_total_espec(
            posicion_desplazada(c.posicion, c.direccion, distancia),
            RADIO_CAMARA as int,
            s,
        ),
    )
}

/// Desplazamiento lateral (sin corrección, como en el original).
pub open spec fn camara_movida_derecha(c: Camera3D, distancia: int) -> Camera3D {
    con_posicion(
        c,
        if lado_derecho_definido(c.direccion) {
            posicion_desplazada(
                c.posicion,
                normalizado_espec(cruz_espec(c.direccion, c.up)),
                distancia,
            )
        } else {
            c.posicion
        },
    )
}

/// Desplazamiento vertical a lo largo de `up`.
pub open spec fn camara_movida_arriba(c: Camera3D, distancia: int) -> Camera3D {
    con_posicion(
        c,
        Vec3 { x: c.posicion.x, y: (c.posicion.y + distancia) as i64, z: c.posicion.z },
    )
}

/// El giro que produce un arrastre del mouse.
pub open spec fn camara_rotada(c: Camera3D, dx: int, dy: int) -> Camera3D {
    let yaw2 = envuelto_espec(
        c.yaw + div_trunca_espec(dx * c.velocidad_rotacion, ESCALA as int),
    );
    let pitch2 = pitch_recortado(
        c.pitch - div_trunca_espec(dy * c.velocidad_rotacion, ESCALA as int),
    );
    Camera3D {
        yaw: yaw2 as i64,
        pitch: pitch2 as i64,
        direccion: direccion_de_angulos(yaw2, pitch2),
        ..c
    }
}

/// La cámara tras procesar la entrada de un fotograma, en el orden fijo
/// adelante, atrás, izquierda, derecha, bajar, subir y por último el mouse.
pub open spec fn camara_tras_entrada(
    c: Camera3D,
    s: Seq<CelestialBody>,
    e: EstadoEntrada,
    v: int,
) -> Camera3D {
    let c1 = if e.adelante { avance_corregido(c, s, v) } else { c };
    let c2 = if e.atras { avance_corregido(c1, s, -v) } else { c1 };
    let c3 = if e.izquierda { camara_movida_derecha(c2, -v) } else { c2 };
    let c4 = if e.derecha { camara_movida_derecha(c3, v) } else { c3 };
    let c5 = if e.bajar { camara_movida_arriba(c4, -v) } else { c4 };
    let c6 = if e.subir { camara_movida_arriba(c5, v) } else { c5 };
    if e.mouse_presionado {
        camara_rotada(c6, e.delta_x as int, e.delta_y as int)
    } else {
        c6
    }
}

/// Distancia recorrida en un fotograma: `velocidad * delta`.
pub open spec fn velocidad_fotograma_espec(velocidad: int, delta: int) -> int {
    div_trunca_espec(velocidad * delta, ESCALA as int)
}

/// `velocidad * delta / ESCALA`, acotado por una unidad de trabajo.
fn velocidad_fotograma(velocidad: i64, delta: i64) -> (r: i64)
    requires
        0 <= velocidad <= 1_000_000_000,
        0 <= delta <= LIMITE_DT,
    ensures
        r == velocidad_fotograma_espec(velocidad as int, delta as int),
        0 <= r <= 1_000_000_000_000,
{
    proof {
        assert(0 <= velocidad as int * delta <= 1_000_000_000_000_000_000int)
            by (nonlinear_arith)
            requires
                0 <= velocidad as int <= 1_000_000_000,
                0 <= delta <= LIMITE_DT,
                LIMITE_DT == 1_000_000_000;
    }
    let q = div_trunca((velocidad as i128) * (delta as i128), ESCALA as i128);
    proof {
        lemma_div_pos_is_pos(velocidad as int * delta, ESCALA as int);
        lemma_div_is_ordered(
            velocidad as int * delta,
            1_000_000_000_000_000_000int,
            ESCALA as int,
        );
    }
    q as i64
}

/// Procesa la entrada de un fotograma: mueve la cámara (con corrección de
/// colisión en el eje adelante/atrás, como el original), la rota con el
/// arrastre del mouse, y arranca un warp si se eligió un índice válido.
/// Mientras hay un warp en curso, toda la entrada se ignora.
#[verifier::rlimit(100)]
pub fn procesar_entrada(
    camara: &mut Camera3D,
    warp: &mut WarpTransition,
    sistema: &OrbitalSystem,
    entrada: &EstadoEntrada,
    delta: i64,
)
    requires
        camara_bien_formada(*old(camara)),
        warp_bien_formado(*old(warp)),
        sistema.bien_formado(),
        dentro_de(old(camara).posicion, LIMITE_POSICION_CAMARA as int),
        0 <= delta <= LIMITE_DT,
        -LIMITE_FIJO <= entrada.delta_x <= LIMITE_FIJO,
        -LIMITE_FIJO <= entrada.delta_y <= LIMITE_FIJO,
    ensures
        camara_bien_formada(*final(camara)),
        warp_bien_formado(*final(warp)),
        *old(warp) is EnCurso ==> *final(camara) == *old(camara) && *final(warp) == *old(warp),
        *old(warp) is Inactivo ==> *final(camara) == camara_tras_entrada(
            *old(camara),
            sistema.vista(),
            *entrada,
            velocidad_fotograma_espec(old(camara).velocidad_movimiento as int, delta as int),
        ),
        *old(warp) is Inactivo ==> match entrada.warp_solicitado {
            Some(n) => {
                if (n as int) < sistema.vista().len() {
                    *final(warp) == (WarpTransition::EnCurso {
                        origen: final(camara).posicion,
                        destino: destino_warp_espec(sistema.vista()[n as int]),
                        tiempo: 0,
                        duracion: DURACION_WARP,
                    })
                } else {
                    *final(warp) == *old(warp)
                }
            },
            None => *final(warp) == *old(warp),
        },
{
    if warp.activo() {
        return;
    }
    let velocidad = velocidad_fotograma(camara.velocidad_movimiento, delta);
    let ghost s = sistema.vista();
    let ghost v = velocidad as int;
    let ghost c0 = *camara;

    if entrada.adelante {
        let paso = camara.direccion.escalado(velocidad);
        let nueva = camara.posicion.mas(paso);
        let corregida = CollisionSystem::corregir_posicion(nueva, RADIO_CAMARA, sistema);
        camara.posicion = corregida;
    }
    proof {
        assert(*camara == (if entrada.adelante {
            avance_corregido(c0, s, v)
        } else {
            c0
        }));
        assert(dentro_de(camara.posicion, 401_000_000_000_000int));
    }
    let ghost c1 = *camara;
    if entrada.atras {
        let paso = camara.direccion.escalado(-velocidad);
        let nueva = camara.posicion.mas(paso);
        let corregida = CollisionSystem::corregir_posicion(nueva, RADIO_CAMARA, sistema);
        camara.posicion = corregida;
    }
    proof {
        assert(*camara == (if entrada.atras {
            avance_corregido(c1, s, -v)
        } else {
            c1
        }));
        assert(dentro_de(camara.posicion, 402_000_000_000_000int));
    }
    let ghost c2 = *camara;
    if entrada.izquierda {
        camara.mover_derecha(-velocidad);
    }
    proof {
        assert(*camara == (if entrada.izquierda {
            camara_movida_derecha(c2, -v)
        } else {
            c2
        }));
        assert(dentro_de(camara.posicion, 403_000_000_000_000int));
    }
    let ghost c3 = *camara;
    if entrada.derecha {
        camara.mover_derecha(velocidad);
    }
    proof {
        assert(*camara == (if entrada.derecha {
            camara_movida_derecha(c3, v)
        } else {
            c3
        }));
        assert(dentro_de(camara.posicion, 404_000_000_000_000int));
    }
    let ghost c4 = *camara;
    if entrada.bajar {
        camara.mover_arriba(-velocidad);
    }
    proof {
        assert(*camara == (if entrada.bajar {
            camara_movida_arriba(c4, -v)
        } else {
            c4
        }));
    }
    let ghost c5 = *camara;
    if entrada.subir {
        camara.mover_arriba(velocidad);
    }
    proof {
        assert(*camara == (if entrada.subir {
            camara_movida_arriba(c5, v)
        } else {
            c5
        }));
        assert(dentro_de(camara.posicion, 406_000_000_000_000int));
    }
    let ghost c6 = *camara;
    if entrada.mouse_presionado {
        camara.rotar(entrada.delta_x, entrada.delta_y);
    }
    proof {
        assert(*camara == (if entrada.mouse_presionado {
            camara_rotada(c6, entrada.delta_x as int, entrada.delta_y as int)
        } else {
            c6
        }));
        assert(*camara == camara_tras_entrada(c0, s, *entrada, v));
    }
    match entrada.warp_solicitado {
        Some(n) => {
            if n < sistema.num_cuerpos() {
                warp.iniciar_warp(camara.posicion, sistema.cuerpo(n), DURACION_WARP);
            }
        },
        None => {},
    }
}

} // verus!
