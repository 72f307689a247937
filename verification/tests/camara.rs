//! Pruebas de la cámara: movimiento, rotación con recorte de cabeceo,
//! teletransporte y matrices.
use sistema_solar::camera::Camera3D;
use sistema_solar::vec3::Vec3;

#[test]
fn camara_inicial_mira_hacia_menos_z() {
    let camara = Camera3D::new(Vec3 { x: 0, y: 0, z: 5_000_000 }, 1_000_000);
    assert_eq!(camara.direccion, Vec3 { x: 0, y: 0, z: -1_000_000 });
    assert_eq!(camara.yaw, -1_570_796);
    assert_eq!(camara.pitch, 0);
}

#[test]
fn mover_adelante_negativo_retrocede() {
    // Cámara en (0, 0, 5) mirando hacia (0, 0, -1): avanzar -5 la lleva
    // a (0, 0, 10).
    let mut camara = Camera3D::new(Vec3 { x: 0, y: 0, z: 5_000_000 }, 1_000_000);
    camara.mover_adelante(-5_000_000);
    assert_eq!(camara.posicion, Vec3 { x: 0, y: 0, z: 10_000_000 });
}

#[test]
fn mover_derecha_y_arriba() {
    let mut camara = Camera3D::new(Vec3 { x: 0, y: 0, z: 0 }, 1_000_000);
    // Mirando hacia -Z, la derecha es +X.
    camara.mover_derecha(2_000_000);
    assert_eq!(camara.posicion, Vec3 { x: 2_000_000, y: 0, z: 0 });
    camara.mover_arriba(3_000_000);
    assert_eq!(camara.posicion, Vec3 { x: 2_000_000, y: 3_000_000, z: 0 });
}

#[test]
fn el_cabeceo_queda_recortado() {
    let mut camara = Camera3D::new(Vec3 { x: 0, y: 0, z: 0 }, 1_000_000);
    // Un arrastre enorme hacia abajo del mouse sube el cabeceo hasta el tope.
    camara.rotar(0, -1_000_000_000);
    assert_eq!(camara.pitch, 1_553_342);
    // Y por mucho que se insista, nunca pasa de 89 grados.
    camara.rotar(0, -1_000_000_000);
    assert_eq!(camara.pitch, 1_553_342);
    camara.rotar(0, 1_000_000_000);
    assert_eq!(camara.pitch, -1_553_342);
    assert!(camara.pitch >= -1_553_342 && camara.pitch <= 1_553_342);
}

#[test]
fn rotar_gira_el_yaw() {
    let mut camara = Camera3D::new(Vec3 { x: 0, y: 0, z: 0 }, 1_000_000);
    // 100 unidades de arrastre a sensibilidad 0.005: medio radián.
    camara.rotar(100_000_000, 0);
    // yaw = -pi/2 + 0.5, envuelto a [0, 2 pi).
    assert_eq!(camara.yaw, -1_570_796 + 500_000 + 6_283_184);
}

#[test]
fn teleport_resuelve_los_angulos() {
    let mut camara = Camera3D::new(Vec3 { x: 0, y: 0, z: 0 }, 1_000_000);
    camara.teleport_to(Vec3 { x: 0, y: 0, z: 0 }, Vec3 { x: 7_000_000, y: 0, z: 0 });
    assert_eq!(camara.yaw, 0);
    assert_eq!(camara.pitch, 0);
    assert_eq!(camara.direccion, Vec3 { x: 1_000_000, y: 0, z: 0 });
}

#[test]
fn teleport_vertical_fija_el_cabeceo() {
    let mut camara = Camera3D::new(Vec3 { x: 0, y: 0, z: 0 }, 1_000_000);
    camara.teleport_to(Vec3 { x: 0, y: 0, z: 0 }, Vec3 { x: 0, y: 9_000_000, z: 0 });
    assert_eq!(camara.yaw, 0);
    assert_eq!(camara.pitch, 1_570_796);
}

#[test]
fn teleport_degenerado_conserva_orientacion_inicial() {
    let mut camara = Camera3D::new(Vec3 { x: 0, y: 0, z: 0 }, 1_000_000);
    let destino = Vec3 { x: 1_000_000, y: 2_000_000, z: 3_000_000 };
    camara.teleport_to(destino, destino);
    assert_eq!(camara.posicion, destino);
    assert_eq!(camara.yaw, -1_570_796);
    assert_eq!(camara.pitch, 0);
}

#[test]
fn matriz_de_vista_en_el_origen() {
    let camara = Camera3D::new(Vec3 { x: 0, y: 0, z: 0 }, 1_000_000);
    let m = camara.get_view_matrix();
    // Mirando hacia -Z: derecha = +X, arriba = +Y, y -f = +Z.
    assert_eq!(m.m00, 1_000_000);
    assert_eq!(m.m11, 1_000_000);
    assert_eq!(m.m22, 1_000_000);
    assert_eq!(m.m03, 0);
    assert_eq!(m.m13, 0);
    assert_eq!(m.m23, 0);
    assert_eq!(m.m33, 1_000_000);
}

#[test]
fn matriz_de_proyeccion_tiene_la_forma_esperada() {
    let camara = Camera3D::new(Vec3 { x: 0, y: 0, z: 0 }, 2_000_000);
    let m = camara.get_projection_matrix();
    // Entradas estructurales de la proyección en perspectiva.
    assert_eq!(m.m32, -1_000_000);
    assert_eq!(m.m33, 0);
    assert_eq!(m.m01, 0);
    assert_eq!(m.m30, 0);
    // Con aspecto 2:1, la entrada (0,0) es la mitad de la (1,1).
    assert!(m.m00 > 0 && m.m11 > 0);
    assert!((m.m11 - 2 * m.m00).abs() <= 2);
    // La profundidad se comprime hacia -1: m22 cerca de -1, m23 pequeño.
    assert!(m.m22 <= -1_000_000);
}

#[test]
fn aspect_ratio_se_actualiza() {
    let mut camara = Camera3D::new(Vec3 { x: 0, y: 0, z: 0 }, 1_000_000);
    camara.set_aspect_ratio(1_777_777);
    assert_eq!(camara.aspect_ratio, 1_777_777);
}
