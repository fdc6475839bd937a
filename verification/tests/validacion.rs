use budodb::application::dto::{DatosAbono, DatosAlumno, DatosPago, DatosRepresentante};
use budodb::application::error::ErrorAplicacion;
use budodb::application::validation::{
    contacto_valido, es_fecha_valida, es_fecha_valida_form, monto_valido, nombre_valido,
    representante_valido, validar_datos_abono, validar_datos_alumno, validar_datos_pago,
    validar_datos_representante,
};

fn mensaje(r: Result<(), ErrorAplicacion>) -> String {
    match r {
        Err(ErrorAplicacion::Validacion(m)) => m,
        otro => panic!("se esperaba error de validación, obtuve {otro:?}"),
    }
}

#[test]
fn fechas_validas_solo_en_formato_iso() {
    assert!(es_fecha_valida("2026-08-24"));
    assert!(!es_fecha_valida("24-08-2026"));
    assert!(!es_fecha_valida("2026/08/24"));
    assert!(!es_fecha_valida(""));
}

#[test]
fn formulario_exige_fecha_no_vacia() {
    assert!(es_fecha_valida_form("2026-08-24"));
    assert!(!es_fecha_valida_form(""));
}

#[test]
fn contacto_respeta_el_largo_minimo_historico() {
    assert!(!contacto_valido(""));
    assert!(!contacto_valido("0412-00000"));
    assert!(contacto_valido("0412-0000000"));
}

#[test]
fn el_largo_del_contacto_se_mide_en_bytes() {
    // 11 caracteres, 12 bytes: la ñ ocupa dos.
    assert!(contacto_valido("ñ412-000000"));
}

#[test]
fn nombre_y_representante_son_obligatorios() {
    assert!(!nombre_valido(""));
    assert!(nombre_valido("Juan"));
    assert!(!representante_valido(""));
    assert!(representante_valido("Pedro"));
}

#[test]
fn validacion_completa_acepta_datos_buenos() {
    let datos = DatosAlumno {
        nombre: "Juan".to_string(),
        fecha_de_nacimiento: "2010-01-15".to_string(),
        rango: 6,
        representante_id: 1,
        rallita: false,
    };
    assert!(validar_datos_alumno(&datos).is_ok());
}

#[test]
fn validacion_completa_reporta_error_de_formato() {
    let mut datos = DatosAlumno {
        nombre: "Juan".to_string(),
        fecha_de_nacimiento: "31/12/2010".to_string(),
        rango: 6,
        representante_id: 1,
        rallita: false,
    };
    match validar_datos_alumno(&datos) {
        Err(ErrorAplicacion::Validacion(_)) => {}
        otro => panic!("se esperaba error de validación, obtuve {otro:?}"),
    }

    // El contacto se valida con los datos del representante.
    datos.fecha_de_nacimiento = "2010-12-31".to_string();
    assert!(validar_datos_alumno(&datos).is_ok());
    let representante = DatosRepresentante {
        nombre: "Pedro".to_string(),
        numero_contacto: "0412-00".to_string(),
    };
    match validar_datos_representante(&representante) {
        Err(ErrorAplicacion::Validacion(_)) => {}
        otro => panic!("se esperaba error de validación, obtuve {otro:?}"),
    }
}

#[test]
fn cada_error_de_alumno_tiene_su_mensaje() {
    let bueno = DatosAlumno {
        nombre: "Juan".to_string(),
        fecha_de_nacimiento: "2010-01-15".to_string(),
        rango: 6,
        representante_id: 1,
        rallita: false,
    };
    let mut d = bueno.clone();
    d.nombre = String::new();
    assert_eq!(mensaje(validar_datos_alumno(&d)), "El nombre no puede estar vacío.");
    let mut d = bueno.clone();
    d.fecha_de_nacimiento = String::new();
    assert_eq!(mensaje(validar_datos_alumno(&d)), "La fecha de nacimiento no es válida.");
    let mut d = bueno;
    d.representante_id = 0;
    assert_eq!(mensaje(validar_datos_alumno(&d)), "El representante no puede estar vacío.");
}

#[test]
fn cada_error_de_representante_pago_y_abono_tiene_su_mensaje() {
    let r = DatosRepresentante { nombre: String::new(), numero_contacto: "0412-0000000".to_string() };
    assert_eq!(
        mensaje(validar_datos_representante(&r)),
        "El nombre del representante no puede estar vacío."
    );
    let r = DatosRepresentante { nombre: "Pedro".to_string(), numero_contacto: String::new() };
    assert_eq!(mensaje(validar_datos_representante(&r)), "El teléfono de contacto no es válido.");

    let p = DatosPago { representante_id: 0, monto_recibido: 100, metodo_id: 1, fecha_pago: "2026-08-24".to_string() };
    assert_eq!(mensaje(validar_datos_pago(&p)), "Seleccione un representante.");
    let p = DatosPago { representante_id: 1, monto_recibido: 0, metodo_id: 1, fecha_pago: "2026-08-24".to_string() };
    assert_eq!(mensaje(validar_datos_pago(&p)), "El monto debe ser un número positivo.");

    let a = DatosAbono { deuda_id: 0, monto: 100, fecha: "2026-08-24".to_string(), observacion: String::new() };
    assert_eq!(mensaje(validar_datos_abono(&a)), "Seleccione una deuda.");
    let a = DatosAbono { deuda_id: 1, monto: -1, fecha: "2026-08-24".to_string(), observacion: String::new() };
    assert_eq!(mensaje(validar_datos_abono(&a)), "El monto debe ser un número positivo.");

    assert!(monto_valido(1));
    assert!(!monto_valido(0));
}
