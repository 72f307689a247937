//! Pruebas del sistema orbital: catálogo de referencia, avance en dos
//! pasadas, envoltura de fases, consistencia luna-padre y búsquedas.
use sistema_solar::celestial_body::CelestialBody;
use sistema_solar::orbital_system::OrbitalSystem;
use sistema_solar::vec3::Vec3;
use sistema_solar::CelestialBodyType;

#[test]
fn catalogo_de_referencia() {
    let sistema = OrbitalSystem::crear_sistema_solar();
    assert_eq!(sistema.num_cuerpos(), 8);
    assert_eq!(sistema.cuerpo(0).tipo, CelestialBodyType::Sol);
    assert_eq!(sistema.cuerpo(0).radio, 2_000_000);
    assert!(sistema.cuerpo(4).es_luna);
    assert_eq!(sistema.cuerpo(4).planeta_padre, Some(3));
    assert_eq!(sistema.velocidad_tiempo(), 1_000_000);
    assert_eq!(sistema.tiempo_total(), 0);
}

#[test]
fn planeta_inicial_sobre_el_eje_x() {
    // Sol en el origen (radio 2) y planeta con órbita de radio 5, velocidad
    // 0.8 y fase inicial 0: tras avanzar con dt = 0 queda en (5, 0, 0).
    let mut sistema = OrbitalSystem::crear_sistema_solar();
    sistema.actualizar(0);
    assert_eq!(sistema.cuerpo(1).posicion, Vec3 { x: 5_000_000, y: 0, z: 0 });
}

#[test]
fn planeta_tras_media_revolucion() {
    // dt = pi / 0.8 segundos: la fase llega exactamente a pi y el planeta
    // queda en (-5, 0, 0).
    let mut sistema = OrbitalSystem::crear_sistema_solar();
    sistema.actualizar(3_926_990);
    assert_eq!(sistema.cuerpo(1).angulo_orbital, 3_141_592);
    assert_eq!(sistema.cuerpo(1).posicion, Vec3 { x: -5_000_000, y: 0, z: 0 });
}

#[test]
fn fases_quedan_envueltas() {
    // Fase inicial cerca de una vuelta completa: tras el avance queda de
    // nuevo dentro de [0, 2 pi).
    let mut planeta = CelestialBody::new_planeta(
        "Veloz",
        CelestialBodyType::PlanetaRocoso,
        5_000_000,
        800_000,
        400_000,
        6_000_000,
    );
    planeta.actualizar(1_000_000);
    assert_eq!(planeta.angulo_orbital, 516_816);
    assert_eq!(planeta.angulo_rotacion, 500_000);
    assert!(0 <= planeta.angulo_orbital && planeta.angulo_orbital < 6_283_184);
    assert!(0 <= planeta.angulo_rotacion && planeta.angulo_rotacion < 6_283_184);
}

#[test]
fn luna_usa_la_posicion_actualizada_del_padre() {
    let mut sistema = OrbitalSystem::crear_sistema_solar();
    sistema.actualizar(250_000);
    sistema.actualizar(750_000);
    let padre = sistema.cuerpo(4).planeta_padre.unwrap();
    assert_eq!(sistema.cuerpo(4).orbita_centro, sistema.cuerpo(padre).posicion);
}

#[test]
fn busqueda_por_nombre() {
    let sistema = OrbitalSystem::crear_sistema_solar();
    assert_eq!(sistema.get_indice_por_nombre("Tierra"), Some(3));
    assert_eq!(sistema.get_indice_por_nombre("Mercurio"), Some(1));
    assert_eq!(sistema.get_indice_por_nombre("Pluton"), None);
    assert_eq!(sistema.get_posicion_por_nombre("Vulcano"), None);
    assert_eq!(
        sistema.get_posicion_por_nombre("Sol"),
        Some(Vec3 { x: 0, y: 0, z: 0 }),
    );
}

#[test]
fn cuerpo_mas_cercano_del_sistema() {
    let mut sistema = OrbitalSystem::crear_sistema_solar();
    sistema.actualizar(0);
    // Muy cerca de la posición inicial de Mercurio (5, 0, 0).
    let r = sistema.get_cuerpo_mas_cercano(Vec3 { x: 4_900_000, y: 0, z: 0 });
    assert_eq!(r, Some(1));
    let vacio = OrbitalSystem::new();
    assert_eq!(vacio.get_cuerpo_mas_cercano(Vec3 { x: 0, y: 0, z: 0 }), None);
}

#[test]
fn escala_de_tiempo_con_topes() {
    let mut sistema = OrbitalSystem::crear_sistema_solar();
    for _ in 0..5 {
        sistema.acelerar_tiempo();
    }
    assert_eq!(sistema.velocidad_tiempo(), 16_000_000);
    sistema.acelerar_tiempo();
    assert_eq!(sistema.velocidad_tiempo(), 16_000_000);
    sistema.velocidad_tiempo_normal();
    assert_eq!(sistema.velocidad_tiempo(), 1_000_000);
    for _ in 0..4 {
        sistema.desacelerar_tiempo();
    }
    assert_eq!(sistema.velocidad_tiempo(), 125_000);
    sistema.desacelerar_tiempo();
    assert_eq!(sistema.velocidad_tiempo(), 125_000);
}

#[test]
fn agregar_cuerpo_valida_la_jerarquia() {
    let mut sistema = OrbitalSystem::new();
    // Una luna cuyo padre no existe se rechaza.
    let perdida = CelestialBody::new_luna("Perdida", 5, 1_000_000, 1_000_000, 200_000);
    assert!(!sistema.agregar_cuerpo(perdida));
    assert_eq!(sistema.num_cuerpos(), 0);

    let sol = CelestialBody::new_sol("Sol", Vec3 { x: 0, y: 0, z: 0 }, 2_000_000);
    assert!(sistema.agregar_cuerpo(sol));
    let luna = CelestialBody::new_luna("Luna", 0, 1_000_000, 1_000_000, 200_000);
    assert!(sistema.agregar_cuerpo(luna));

    // Una luna de otra luna también se rechaza: la jerarquía es de dos niveles.
    let subluna = CelestialBody::new_luna("Subluna", 1, 500_000, 1_000_000, 100_000);
    assert!(!sistema.agregar_cuerpo(subluna));
    assert_eq!(sistema.num_cuerpos(), 2);
}

#[test]
fn puntos_de_orbita() {
    let planeta = CelestialBody::new_planeta(
        "Redondo",
        CelestialBodyType::PlanetaGaseoso,
        5_000_000,
        800_000,
        400_000,
        0,
    );
    let puntos = planeta.generar_puntos_orbita(4);
    assert_eq!(puntos.len(), 5);
    // El primer punto está en fase 0: (5, 0, 0).
    assert_eq!(puntos[0], Vec3 { x: 5_000_000, y: 0, z: 0 });
    // El último cierra la vuelta completa en el mismo punto.
    assert_eq!(puntos[4], puntos[0]);
}

#[test]
fn orbita_de_luna_con_inclinacion() {
    // La inclinación es una excursión vertical sinusoidal: en el cuarto de
    // vuelta, y = radio * inclinacion.
    let luna = CelestialBody::new_luna("Io", 0, 1_500_000, 2_000_000, 200_000);
    let puntos = luna.generar_puntos_orbita(4);
    assert_eq!(puntos[1], Vec3 { x: 0, y: 150_000, z: 1_500_000 });
}

#[test]
fn identificadores_de_shader() {
    assert_eq!(CelestialBodyType::Sol.to_shader_id(), 1);
    assert_eq!(CelestialBodyType::PlanetaRocoso.to_shader_id(), 2);
    assert_eq!(CelestialBodyType::PlanetaGaseoso.to_shader_id(), 3);
    assert_eq!(CelestialBodyType::PlanetaAnillos.to_shader_id(), 4);
    assert_eq!(CelestialBodyType::PlanetaVolcanico.to_shader_id(), 5);
    assert_eq!(CelestialBodyType::Luna.to_shader_id(), 6);
}
