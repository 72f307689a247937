//! Pruebas del sistema de colisiones: intersección de esferas, detección,
//! corrección radial e idempotencia, y puntos seguros.
use sistema_solar::collision::CollisionSystem;
use sistema_solar::celestial_body::CelestialBody;
use sistema_solar::orbital_system::OrbitalSystem;
use sistema_solar::vec3::Vec3;

fn sistema_con_sol() -> OrbitalSystem {
    let mut sistema = OrbitalSystem::new();
    let sol = CelestialBody::new_sol(
        "Sol",
        Vec3 { x: 0, y: 0, z: 0 },
        2_000_000,
    );
    assert!(sistema.agregar_cuerpo(sol));
    sistema
}

#[test]
fn test_colision_esferas() {
    let pos1 = Vec3 { x: 0, y: 0, z: 0 };
    let pos2 = Vec3 { x: 3_000_000, y: 0, z: 0 };

    assert!(CollisionSystem::colision_esferas(pos1, 2_000_000, pos2, 2_000_000));
    assert!(!CollisionSystem::colision_esferas(pos1, 1_000_000, pos2, 1_000_000));
}

#[test]
fn test_punto_seguro() {
    let cuerpo_pos = Vec3 { x: 0, y: 0, z: 0 };
    let direccion = Vec3 { x: 1_000_000, y: 0, z: 0 };

    let punto = CollisionSystem::calcular_punto_seguro(cuerpo_pos, 5_000_000, direccion, 2_000_000);

    assert!((punto.x - 7_000_000).abs() < 1_000);
}

#[test]
fn esferas_concentricas_se_intersecan() {
    let p = Vec3 { x: 123, y: -456, z: 789 };
    assert!(CollisionSystem::colision_esferas(p, 1, p, 1));
}

#[test]
fn esferas_que_se_tocan_no_se_intersecan() {
    // Distancia exactamente igual a la suma de radios: el borde queda fuera.
    let p1 = Vec3 { x: 0, y: 0, z: 0 };
    let p2 = Vec3 { x: 4_000_000, y: 0, z: 0 };
    assert!(!CollisionSystem::colision_esferas(p1, 2_000_000, p2, 2_000_000));
}

#[test]
fn deteccion_encuentra_el_primer_cuerpo() {
    let sistema = sistema_con_sol();
    // A 1 unidad del centro del sol (radio 2, margen 0.5): en colisión.
    let dentro = Vec3 { x: 1_000_000, y: 0, z: 0 };
    assert_eq!(CollisionSystem::verificar_colision(dentro, 500_000, &sistema), Some(0));
    // Lejos del sol: sin colisión.
    let fuera = Vec3 { x: 50_000_000, y: 0, z: 0 };
    assert_eq!(CollisionSystem::verificar_colision(fuera, 500_000, &sistema), None);
}

#[test]
fn correccion_empuja_a_la_esfera_de_seguridad() {
    let sistema = sistema_con_sol();
    let deseada = Vec3 { x: 1_000_000, y: 0, z: 0 };
    // Holgura total: 2 + 0.5 + 0.5 = 3 unidades, empujada sobre el eje X.
    let corregida = CollisionSystem::corregir_posicion(deseada, 500_000, &sistema);
    assert_eq!(corregida, Vec3 { x: 3_000_000, y: 0, z: 0 });
}

#[test]
fn correccion_es_idempotente() {
    let sistema = sistema_con_sol();
    let deseada = Vec3 { x: 1_000_000, y: 250_000, z: -333_333 };
    let una = CollisionSystem::corregir_posicion(deseada, 500_000, &sistema);
    let dos = CollisionSystem::corregir_posicion(una, 500_000, &sistema);
    assert_eq!(una, dos);
}

#[test]
fn correccion_con_centros_coincidentes_usa_el_eje_x() {
    let sistema = sistema_con_sol();
    let deseada = Vec3 { x: 0, y: 0, z: 0 };
    let corregida = CollisionSystem::corregir_posicion(deseada, 500_000, &sistema);
    assert_eq!(corregida, Vec3 { x: 3_000_000, y: 0, z: 0 });
}

#[test]
fn correccion_sin_colision_no_cambia_nada() {
    let sistema = sistema_con_sol();
    let deseada = Vec3 { x: 10_000_000, y: 5_000_000, z: 0 };
    let corregida = CollisionSystem::corregir_posicion(deseada, 500_000, &sistema);
    assert_eq!(corregida, deseada);
}

#[test]
fn cuerpo_mas_cercano_con_distancia() {
    let sistema = sistema_con_sol();
    let r = CollisionSystem::get_cuerpo_mas_cercano(Vec3 { x: 5_000_000, y: 0, z: 0 }, &sistema);
    assert_eq!(r, Some((0, 5_000_000)));
}

#[test]
fn cuerpo_mas_cercano_en_sistema_vacio() {
    let sistema = OrbitalSystem::new();
    let r = CollisionSystem::get_cuerpo_mas_cercano(Vec3 { x: 0, y: 0, z: 0 }, &sistema);
    assert_eq!(r, None);
}

#[test]
fn deteccion_devuelve_el_primero_de_varios() {
    // Dos cuerpos solapados: la detección responde con el de índice menor.
    let mut sistema = OrbitalSystem::new();
    let sol_a = CelestialBody::new_sol("Alfa", Vec3 { x: 0, y: 0, z: 0 }, 2_000_000);
    let sol_b = CelestialBody::new_sol("Beta", Vec3 { x: 1_000_000, y: 0, z: 0 }, 2_000_000);
    assert!(sistema.agregar_cuerpo(sol_a));
    assert!(sistema.agregar_cuerpo(sol_b));
    let punto = Vec3 { x: 500_000, y: 0, z: 0 };
    assert_eq!(CollisionSystem::verificar_colision(punto, 500_000, &sistema), Some(0));
}

#[test]
fn radio_seguro_excluye_el_borde() {
    let origen = Vec3 { x: 0, y: 0, z: 0 };
    let cerca = Vec3 { x: 2_999_999, y: 0, z: 0 };
    let justo = Vec3 { x: 3_000_000, y: 0, z: 0 };
    assert!(!CollisionSystem::esta_en_radio_seguro(cerca, origen, 2_000_000, 1_000_000));
    assert!(CollisionSystem::esta_en_radio_seguro(justo, origen, 2_000_000, 1_000_000));
}

#[test]
fn punto_seguro_con_direccion_nula_usa_el_eje_x() {
    let punto = CollisionSystem::calcular_punto_seguro(
        Vec3 { x: 100, y: 200, z: 300 },
        1_000_000,
        Vec3 { x: 0, y: 0, z: 0 },
        500_000,
    );
    assert_eq!(punto, Vec3 { x: 1_500_100, y: 200, z: 300 });
}
