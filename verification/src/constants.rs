//! Constantes globales del sistema, en punto fijo (micro-unidades).
use vstd::prelude::*;

verus! {

/// Factor de escala del punto fijo: un valor `v` representa `v / ESCALA`.
pub const ESCALA: i64 = 1_000_000;

/// Aproximación de pi en micro-radianes (par, para que TAU_FIJO = 2 * PI_FIJO).
pub const PI_FIJO: i64 = 3_141_592;

/// Una vuelta completa en micro-radianes: exactamente 2 * PI_FIJO.
pub const TAU_FIJO: i64 = 6_283_184;

/// Un cuarto de vuelta en micro-radianes: exactamente PI_FIJO / 2.
pub const MEDIO_PI_FIJO: i64 = 1_570_796;

/// Velocidad base de la cámara (10 unidades por segundo).
pub const CAMERA_SPEED: i64 = 10_000_000;

/// Sensibilidad del mouse (0.005 radianes por unidad de desplazamiento).
pub const MOUSE_SENSITIVITY: i64 = 5_000;

/// Distancia mínima de seguridad frente a un cuerpo (0.5 unidades).
pub const MIN_DISTANCE_TO_BODY: i64 = 500_000;

/// Escala del sistema (1 unidad).
pub const SYSTEM_SCALE: i64 = 1_000_000;

/// Campo de visión de la cámara, en micro-grados (60 grados).
pub const FOV: i64 = 60_000_000;

/// Plano de recorte cercano (0.1 unidades).
pub const NEAR_PLANE: i64 = 100_000;

/// Plano de recorte lejano (1000 unidades).
pub const FAR_PLANE: i64 = 1_000_000_000;

/// Cota general de trabajo para coordenadas y escalares sueltos: las
/// operaciones públicas exigen entradas dentro de esta banda para que las
/// sumas quepan holgadamente en `i64` y los productos en `i128`.
pub const LIMITE_FIJO: i64 = 1_000_000_000_000_000;

/// Cota para el centro de la órbita de un cuerpo que no es luna.
pub const LIMITE_CENTRO: i64 = 10_000_000_000_000;

/// Cota para radios de cuerpos y de órbitas.
pub const LIMITE_RADIO: i64 = 1_000_000_000_000;

/// Cota para velocidades angulares (1000 radianes por segundo).
pub const LIMITE_VELOCIDAD: i64 = 1_000_000_000;

/// Cota para el paso de tiempo ya escalado que recibe un cuerpo.
pub const LIMITE_DT_ESCALADO: i64 = 16_000_000_000;

/// Cota para el paso de tiempo de un fotograma (1000 segundos).
pub const LIMITE_DT: i64 = 1_000_000_000;

} // verus!
