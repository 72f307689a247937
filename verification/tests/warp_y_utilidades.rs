//! Pruebas del warp y de las utilidades de interpolación y conversión.
use sistema_solar::camera::Camera3D;
use sistema_solar::orbital_system::OrbitalSystem;
use sistema_solar::simulacion::{procesar_entrada, EstadoEntrada};
use sistema_solar::utils;
use sistema_solar::vec3::Vec3;
use sistema_solar::warp::WarpTransition;

fn entrada_vacia() -> EstadoEntrada {
    EstadoEntrada {
        adelante: false,
        atras: false,
        izquierda: false,
        derecha: false,
        bajar: false,
        subir: false,
        mouse_presionado: false,
        delta_x: 0,
        delta_y: 0,
        warp_solicitado: None,
    }
}

#[test]
fn warp_con_exceso_de_tiempo_salta_al_destino() {
    // Warp de duración 1 s: un único avance de 1.5 s recorta el exceso y deja
    // la cámara exactamente en el destino, con el warp inactivo.
    let sistema = OrbitalSystem::crear_sistema_solar();
    let mut camara = Camera3D::new(Vec3 { x: 0, y: 0, z: 0 }, 1_000_000);
    let mut warp = WarpTransition::nuevo();
    warp.iniciar_warp(camara.posicion, sistema.cuerpo(1), 1_000_000);
    assert!(warp.activo());

    warp.avanzar(1_500_000, &mut camara);

    assert!(!warp.activo());
    // Destino: posición del cuerpo (0,0,0) más (3 radios + 5) unidades en la
    // dirección (1, 0.5, 1) normalizada.
    assert_eq!(camara.posicion, Vec3 { x: 4_133_329, y: 2_066_664, z: 4_133_329 });
}

#[test]
fn warp_interpola_suavemente_a_mitad_de_camino() {
    let mut camara = Camera3D::new(Vec3 { x: 0, y: 0, z: 0 }, 1_000_000);
    let mut warp = WarpTransition::nuevo();
    let sistema = OrbitalSystem::crear_sistema_solar();
    warp.iniciar_warp(Vec3 { x: 0, y: 0, z: 0 }, sistema.cuerpo(0), 1_000_000);

    // Medio segundo de un segundo: el suavizado en 0.5 vale exactamente 0.5.
    warp.avanzar(500_000, &mut camara);
    assert!(warp.activo());
    let destino = Vec3 { x: 7_333_326, y: 3_666_663, z: 7_333_326 };
    assert_eq!(
        camara.posicion,
        Vec3 { x: destino.x / 2, y: destino.y / 2, z: destino.z / 2 },
    );
}

#[test]
fn warp_inactivo_no_toca_la_camara() {
    let mut camara = Camera3D::new(Vec3 { x: 7, y: 8, z: 9 }, 1_000_000);
    let mut warp = WarpTransition::nuevo();
    warp.avanzar(1_000_000, &mut camara);
    assert_eq!(camara.posicion, Vec3 { x: 7, y: 8, z: 9 });
    assert!(!warp.activo());
}

#[test]
fn suavizado_en_los_extremos_y_el_medio() {
    assert_eq!(utils::smooth_step(0), 0);
    assert_eq!(utils::smooth_step(1_000_000), 1_000_000);
    assert_eq!(utils::smooth_step(500_000), 500_000);
    // Valores intermedios exactos de t^2 (3 - 2 t).
    assert_eq!(utils::smooth_step(300_000), 216_000);
    assert_eq!(utils::smooth_step(700_000), 784_000);
    // Nunca decrece.
    let mut anterior = 0;
    let mut t = 0;
    while t <= 1_000_000 {
        let v = utils::smooth_step(t);
        assert!(v >= anterior);
        anterior = v;
        t += 50_000;
    }
}

#[test]
fn aceleraciones_de_interpolacion() {
    assert_eq!(utils::ease_in(500_000), 250_000);
    assert_eq!(utils::ease_out(500_000), 750_000);
    assert_eq!(utils::ease_in(1_000_000), 1_000_000);
    assert_eq!(utils::ease_out(1_000_000), 1_000_000);
}

#[test]
fn interpolacion_lineal_exacta_en_los_extremos() {
    let a = Vec3 { x: -3_000_000, y: 1, z: 7 };
    let b = Vec3 { x: 5_000_000, y: -9, z: 7 };
    assert_eq!(utils::lerp_vec3(&a, &b, 0), a);
    assert_eq!(utils::lerp_vec3(&a, &b, 1_000_000), b);
    let medio = utils::lerp_vec3(&a, &b, 500_000);
    assert_eq!(medio.x, 1_000_000);
}

#[test]
fn conversiones_de_angulos() {
    assert_eq!(utils::deg_to_rad(180_000_000), 3_141_592);
    assert_eq!(utils::deg_to_rad(90_000_000), 1_570_796);
    assert_eq!(utils::rad_to_deg(3_141_592), 180_000_000);
    assert_eq!(utils::deg_to_rad(0), 0);
}

#[test]
fn angulo_entre_vectores() {
    let x = Vec3 { x: 1_000_000, y: 0, z: 0 };
    let y = Vec3 { x: 0, y: 1_000_000, z: 0 };
    let cero = Vec3 { x: 0, y: 0, z: 0 };
    // Perpendiculares: pi/2. Paralelos: 0. Con el vector nulo: 0.
    assert_eq!(utils::angle_between(&x, &y), 1_570_796);
    assert_eq!(utils::angle_between(&x, &x), 0);
    let opuesto = Vec3 { x: -1_000_000, y: 0, z: 0 };
    assert_eq!(utils::angle_between(&x, &opuesto), 3_141_592);
    assert_eq!(utils::angle_between(&x, &cero), 0);
}

#[test]
fn la_entrada_se_ignora_durante_un_warp() {
    let sistema = OrbitalSystem::crear_sistema_solar();
    let mut camara = Camera3D::new(Vec3 { x: 0, y: 0, z: 50_000_000 }, 1_000_000);
    let mut warp = WarpTransition::nuevo();
    warp.iniciar_warp(camara.posicion, sistema.cuerpo(1), 1_000_000);

    let mut entrada = entrada_vacia();
    entrada.adelante = true;
    entrada.mouse_presionado = true;
    entrada.delta_x = 1_000_000;
    procesar_entrada(&mut camara, &mut warp, &sistema, &entrada, 16_000);

    assert_eq!(camara.posicion, Vec3 { x: 0, y: 0, z: 50_000_000 });
    assert_eq!(camara.yaw, -1_570_796);
}

#[test]
fn la_entrada_mueve_y_puede_arrancar_un_warp() {
    let sistema = OrbitalSystem::crear_sistema_solar();
    let mut camara = Camera3D::new(Vec3 { x: 0, y: 0, z: 50_000_000 }, 1_000_000);
    let mut warp = WarpTransition::nuevo();

    let mut entrada = entrada_vacia();
    entrada.adelante = true;
    entrada.warp_solicitado = Some(3);
    // Un fotograma de 0.1 s a 10 unidades/s: avanza 1 unidad hacia -Z.
    procesar_entrada(&mut camara, &mut warp, &sistema, &entrada, 100_000);

    assert_eq!(camara.posicion, Vec3 { x: 0, y: 0, z: 49_000_000 });
    assert!(warp.activo());

    // Un índice fuera de rango no arranca nada.
    let mut warp2 = WarpTransition::nuevo();
    let mut entrada2 = entrada_vacia();
    entrada2.warp_solicitado = Some(99);
    procesar_entrada(&mut camara, &mut warp2, &sistema, &entrada2, 100_000);
    assert!(!warp2.activo());
}
