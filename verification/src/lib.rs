//! Simulación de un sistema solar interactivo: cuerpos celestes en órbitas
//! circulares jerárquicas (sol → planetas → lunas), una cámara libre con
//! corrección de colisiones y un controlador de "warp" con interpolación
//! suavizada.
//!
//! Toda la aritmética es de punto fijo sobre enteros: un valor `v` representa
//! el número real `v / ESCALA`, con `ESCALA = 1_000_000` (micro-unidades).
//! Los ángulos se miden en micro-radianes y se mantienen en `[0, TAU_FIJO)`.
use vstd::prelude::*;

pub mod constants;
pub mod fijo;
pub mod trig;
pub mod utils;
pub mod vec3;
pub mod celestial_body;
pub mod orbital_system;
pub mod collision;
pub mod camera;
pub mod warp;
pub mod simulacion;

verus! {

/// Tipos de cuerpos celestes; determinan únicamente el selector de shader.
#[derive(Debug, Clone, Copy, PartialEq, Eq, Structural)]
pub enum CelestialBodyType {
    Sol,
    PlanetaRocoso,
    PlanetaGaseoso,
    PlanetaAnillos,
    PlanetaVolcanico,
    Luna,
}

impl CelestialBodyType {
    /// Identificador numérico del shader que dibuja este tipo de cuerpo.
    pub fn to_shader_id(&self) -> (r: u32)
        ensures
            r == self.shader_id_espec(),
            1 <= r <= 6,
    {
        match self {
            Self::Sol => 1,
            Self::PlanetaRocoso => 2,
            Self::PlanetaGaseoso => 3,
            Self::PlanetaAnillos => 4,
            Self::PlanetaVolcanico => 5,
            Self::Luna => 6,
        }
    }

    /// Valor que `to_shader_id` devuelve para cada variante.
    pub open spec fn shader_id_espec(&self) -> u32 {
        match self {
            Self::Sol => 1u32,
            Self::PlanetaRocoso => 2u32,
            Self::PlanetaGaseoso => 3u32,
            Self::PlanetaAnillos => 4u32,
            Self::PlanetaVolcanico => 5u32,
            Self::Luna => 6u32,
        }
    }
}

} // verus!
