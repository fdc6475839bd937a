use budodb::application::dto::{AlumnoVista, DeudaVista, HistorialPagoVista};
use budodb::domain::alumno::Alumno;
use budodb::domain::catalogos::{EstadoDeuda, MetodoPago};
use budodb::domain::deuda::Deuda;
use budodb::domain::fecha::Fecha;
use budodb::domain::historial_pago::HistorialPago;
use budodb::presentation::consultas::{
    alumnos_activos_de, buscar_alumnos, contiene_texto, representantes_sin_alumnos_activos, filtrar_lista, filtrar_lista_en, get_alumno_by_id,
    interpretar_id, monto_de_formulario, reps_parciales, reps_pagados, reps_pendientes,
    total_abonado_periodo, total_deudas_periodo, Columnas,
};
use budodb::presentation::etiquetas::{
    badge_estado_deuda, badge_estado_representante, clase_barra, es_adelanto, get_border_class,
    metodo_label,
    tipo_historial_clase, tipo_historial_label,
};
use budodb::presentation::seleccion::{interpretar_contexto, Contexto, Selecciones};
use budodb::models;
use budodb::domain::representante::Representante;

fn vista(id: usize, nombre: &str, rango: i32, rallita: bool, nacimiento: &str, rep: &str, tel: &str) -> AlumnoVista {
    AlumnoVista {
        alumno: Alumno {
            id,
            nombre: nombre.to_string(),
            rango,
            fecha_de_nacimiento: nacimiento.to_string(),
            representante_id: 1,
            rallita,
            estado_id: 1,
        },
        nombre_representante: rep.to_string(),
        telefono_representante: tel.to_string(),
    }
}

fn lista() -> Vec<AlumnoVista> {
    vec![
        vista(1, "Ana Pérez", 5, false, "2010-01-15", "María Gómez", "0412-1111111"),
        vista(2, "LUIS Díaz", 4, true, "2012-03-01", "Pedro Pérez", "0414-2222222"),
        vista(3, "Carla", 6, false, "2010-08-24", "María Gómez", "0412-3333333"),
    ]
}

fn ids(v: &[AlumnoVista]) -> Vec<usize> {
    v.iter().map(|a| a.alumno.id).collect()
}

#[test]
fn buscar_sin_consulta_devuelve_todos() {
    assert_eq!(ids(&buscar_alumnos(&lista(), Columnas::Nombre, "")), vec![1, 2, 3]);
}

#[test]
fn buscar_por_nombre_no_distingue_mayusculas() {
    assert_eq!(ids(&buscar_alumnos(&lista(), Columnas::Nombre, "luis")), vec![2]);
    assert_eq!(ids(&buscar_alumnos(&lista(), Columnas::Nombre, "A")), vec![1, 2, 3]);
    assert_eq!(ids(&buscar_alumnos(&lista(), Columnas::Representante, "GÓMEZ")), vec![1, 3]);
    assert_eq!(ids(&buscar_alumnos(&lista(), Columnas::Telefono, "0414")), vec![2]);
    assert_eq!(ids(&buscar_alumnos(&lista(), Columnas::Cinta, "lo que sea")), vec![1, 2, 3]);
}

#[test]
fn buscar_por_id_es_exacto() {
    assert_eq!(ids(&buscar_alumnos(&lista(), Columnas::Id, " 2 ")), vec![2]);
    assert_eq!(ids(&buscar_alumnos(&lista(), Columnas::Id, "+3")), vec![3]);
    assert!(buscar_alumnos(&lista(), Columnas::Id, "dos").is_empty());
    assert!(buscar_alumnos(&lista(), Columnas::Id, "99").is_empty());
}

#[test]
fn interpretar_id_rechaza_lo_que_no_es_un_numero() {
    assert_eq!(interpretar_id("  42\n"), Some(42));
    assert_eq!(interpretar_id(""), None);
    assert_eq!(interpretar_id("+"), None);
    assert_eq!(interpretar_id("-1"), None);
    assert_eq!(interpretar_id("99999999999999999999999"), None);
}

#[test]
fn contiene_texto_busca_subcadenas() {
    assert!(contiene_texto("abcdef", "cde"));
    assert!(contiene_texto("abc", ""));
    assert!(!contiene_texto("abc", "abcd"));
    assert!(!contiene_texto("abc", "ac"));
}

#[test]
fn filtrar_por_cinta_agrupa_y_exige_la_rallita() {
    let hoy = Fecha { anio: 2026, mes: 8, dia: 24 };
    let azules = filtrar_lista_en(lista(), Columnas::Cinta, "Azul (todos)".to_string(), false, hoy);
    assert_eq!(ids(&azules), vec![1]);
    let azules_con_rallita = filtrar_lista_en(lista(), Columnas::Cinta, "Azul (todos)".to_string(), true, hoy);
    assert_eq!(ids(&azules_con_rallita), vec![2]);
    let verdes = filtrar_lista_en(lista(), Columnas::Cinta, "Verde".to_string(), false, hoy);
    assert_eq!(ids(&verdes), vec![3]);
    let azul1 = filtrar_lista_en(lista(), Columnas::Cinta, "Azul 1".to_string(), false, hoy);
    assert_eq!(ids(&azul1), vec![1]);
}

#[test]
fn filtrar_por_edad_compara_el_texto_de_la_edad() {
    let hoy = Fecha { anio: 2026, mes: 8, dia: 24 };
    let de16 = filtrar_lista_en(lista(), Columnas::Edad, "16 años".to_string(), false, hoy);
    assert_eq!(ids(&de16), vec![1, 3]);
    let sin_filtro = filtrar_lista(lista(), Columnas::Edad, String::new(), false);
    assert_eq!(ids(&sin_filtro), vec![1, 2, 3]);
    let otra_columna = filtrar_lista_en(lista(), Columnas::Nombre, "x".to_string(), false, hoy);
    assert_eq!(ids(&otra_columna), vec![1, 2, 3]);
}

#[test]
fn get_alumno_by_id_devuelve_el_primero() {
    assert_eq!(get_alumno_by_id(&lista(), 3).nombre, "Carla");
}

#[test]
fn la_seleccion_se_conmuta_por_contexto() {
    let mut s = Selecciones::nuevo();
    s.toggle_seleccion_ctx(5, "alumnos");
    s.toggle_seleccion_ctx(6, "alumnos");
    s.toggle_seleccion_ctx(7, "consulta");
    s.toggle_seleccion_ctx(8, "otro");
    assert_eq!(s.seleccion_get("alumnos").len(), 2);
    assert_eq!(s.seleccion_get("consulta").len(), 1);
    assert!(s.seleccion_get("xyz").contains(&8));
    s.toggle_seleccion_ctx(5, "alumnos");
    assert!(!s.seleccion_get("alumnos").contains(&5));
    s.toggle_single_seleccion_ctx(9, "alumnos");
    assert_eq!(s.seleccion_get("alumnos").len(), 1);
    assert!(s.seleccion_get("alumnos").contains(&9));
    assert_eq!(interpretar_contexto("representantes"), Contexto::Representantes);
}

#[test]
fn conmutar_dos_veces_deja_la_seleccion_igual() {
    let mut s = Selecciones::nuevo();
    s.toggle_seleccion(3);
    s.toggle_seleccion(4);
    s.toggle_seleccion(4);
    assert_eq!(s.seleccionados.len(), 1);
    assert!(s.seleccionados.contains(&3));
    s.toggle_single_seleccion(1);
    assert_eq!(s.seleccionados.len(), 1);
    assert!(s.seleccionados.contains(&1));
    s.toggle_single_seleccion(1);
    assert!(s.seleccionados.is_empty());
}

#[test]
fn marcar_todos_agrega_o_quita_los_visibles() {
    let mut s = Selecciones::nuevo();
    s.toggle_seleccion_ctx(1, "alumnos");
    s.toggle_seleccion_ctx(99, "alumnos");
    s.toggle_all(lista());
    assert_eq!(s.seleccion_alumnos.len(), 4);
    s.toggle_all(lista());
    assert_eq!(s.seleccion_alumnos.len(), 1);
    assert!(s.seleccion_alumnos.contains(&99));
}

fn deuda_vista(total: i64, pendiente: i64, estado: EstadoDeuda) -> DeudaVista {
    DeudaVista {
        deuda: Deuda {
            id: 1,
            representante_id: 1,
            monto_total: total,
            monto_pendiente: pendiente,
            periodo: "2026-08".to_string(),
            fecha_vencimiento: "2026-08-10".to_string(),
            estado_id: estado.id(),
            alumno_id: None,
        },
        nombre_representante: String::new(),
        telefono_representante: String::new(),
        estado,
    }
}

#[test]
fn las_cifras_del_panel_cuentan_y_suman() {
    let deudas = vec![
        deuda_vista(150000, 0, EstadoDeuda::Pagada),
        deuda_vista(150000, 50000, EstadoDeuda::Parcial),
        deuda_vista(300000, 300000, EstadoDeuda::Pendiente),
        deuda_vista(100000, 120000, EstadoDeuda::Pendiente),
    ];
    assert_eq!(reps_pagados(&deudas), 1);
    assert_eq!(reps_parciales(&deudas), 1);
    assert_eq!(reps_pendientes(&deudas), 2);
    assert_eq!(total_deudas_periodo(&deudas), 700000);
    assert_eq!(total_abonado_periodo(&deudas), 250000);
}

#[test]
fn el_monto_del_formulario_acepta_coma_y_rechaza_texto() {
    assert_eq!(monto_de_formulario(" 1500,5 ").unwrap(), 150050);
    assert!(monto_de_formulario("mil").is_err());
}

#[test]
fn las_etiquetas_corresponden_a_cada_estado() {
    assert_eq!(badge_estado_deuda(&EstadoDeuda::Pagada), ("Pagado", "bg-emerald-900 text-emerald-300"));
    assert_eq!(clase_barra(&EstadoDeuda::Parcial), "bg-amber-500");
    assert_eq!(metodo_label(&MetodoPago::Cheque), "Cheque");
    assert_eq!(tipo_historial_label(5), "Anulación");
    assert_eq!(tipo_historial_label(42), "Otro");
    assert_eq!(tipo_historial_clase(2), "bg-emerald-900 text-emerald-300");
    assert_eq!(badge_estado_representante(2), ("Inactivo", "bg-gray-700 text-gray-400"));
}

#[test]
fn un_adelanto_se_reconoce_por_tipo_y_observacion() {
    let mut v = HistorialPagoVista {
        historial: HistorialPago {
            id: 1,
            representante_id: 1,
            tipo_id: 1,
            monto: 150000,
            periodo: "2026-09".to_string(),
            fecha: "2026-08-24".to_string(),
            observacion: "Adelanto: deuda #7 cubierta".to_string(),
        },
        nombre_representante: String::new(),
    };
    assert!(es_adelanto(&v));
    v.historial.tipo_id = 2;
    assert!(!es_adelanto(&v));
    v.historial.tipo_id = 1;
    v.historial.observacion = "Adelant".to_string();
    assert!(!es_adelanto(&v));
}

#[test]
fn la_ficha_del_esquema_anterior_incluye_representante_y_contacto() {
    let a = models::Alumno {
        id: 2,
        nombre: "Luis".to_string(),
        rango: 0,
        fecha_de_nacimiento: "2010-01-15".to_string(),
        representante: "Pedro".to_string(),
        numero_contacto: "0412-0000000".to_string(),
        rallita: false,
    };
    assert_eq!(a.cinta(), "Negra");
    assert_eq!(a.rango(), "1 Dan");
    assert_eq!(a.edad_en(Fecha { anio: 2026, mes: 8, dia: 24 }), "16 años");
    let ficha = a.ficha_tecnica_en(Fecha { anio: 2026, mes: 8, dia: 24 });
    assert!(ficha.contains("\nRepresentante:  Pedro\nContacto:       0412-0000000\n"));
    assert!(ficha.contains("Con Rallita:    No"));
    assert_eq!(models::Cintas::from_rango(3), models::Cintas::Marron1);
}

#[test]
fn la_cascada_desactiva_a_los_representantes_sin_alumnos_activos() {
    let reps: Vec<Representante> = vec![
        Representante { id: 1, nombre: "A".to_string(), numero_contacto: String::new(), estado_id: 1 },
        Representante { id: 2, nombre: "B".to_string(), numero_contacto: String::new(), estado_id: 1 },
        Representante { id: 3, nombre: "C".to_string(), numero_contacto: String::new(), estado_id: 2 },
    ];
    let mut alumnos = lista();
    alumnos[1].alumno.representante_id = 2;
    alumnos[1].alumno.estado_id = 2;
    assert_eq!(representantes_sin_alumnos_activos(&reps, &alumnos), vec![2]);
    assert_eq!(alumnos_activos_de(&alumnos, 1), vec![1, 3]);
    assert!(alumnos_activos_de(&alumnos, 2).is_empty());
}

#[test]
fn el_borde_se_pinta_de_rojo_solo_tras_intentar_con_un_campo_invalido() {
    let normal = "border border-gray-700 focus:ring-2 focus:ring-blue-500/50";
    assert_eq!(get_border_class(false, false), normal);
    assert_eq!(get_border_class(true, true), normal);
    assert_eq!(get_border_class(false, true), "border border-red-500 ring-2 ring-red-500/30 focus:ring-red-500/50");
}
