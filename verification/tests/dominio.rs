use budodb::domain::abono::Abono;
use budodb::domain::alumno::{Alumno, FORMATO_FECHA};
use budodb::domain::catalogos::{EstadoDeuda, EstadoPago, MetodoPago, TipoEvento, EstadoAlumno};
use budodb::domain::cintas::Cintas;
use budodb::domain::deuda::Deuda;
use budodb::domain::fecha::{fecha_de_texto, Fecha};
use budodb::domain::pago::etiqueta_de_periodo;
use budodb::domain::representante::Representante;

fn pesos(x: f64) -> i64 {
    (x * 100.0).round() as i64
}

fn alumno(rango: i32, rallita: bool) -> Alumno {
    Alumno {
        id: 1,
        nombre: "Test".to_string(),
        rango,
        fecha_de_nacimiento: "2010-01-15".to_string(),
        representante_id: 1,
        rallita,
        estado_id: 1,
    }
}

fn hoy_fijo() -> Fecha {
    Fecha { anio: 2026, mes: 8, dia: 24 }
}

#[test]
fn cinta_sin_rallita_muestra_solo_su_color() {
    assert_eq!(alumno(6, false).cinta(), "Verde");
    assert_eq!(alumno(10, false).cinta(), "Blanca");
    assert_eq!(alumno(0, false).cinta(), "Negra");
}

#[test]
fn cinta_con_rallita_agrega_la_cinta_anterior() {
    assert_eq!(alumno(6, true).cinta(), "Verde ralla Azul");
    assert_eq!(alumno(10, true).cinta(), "Blanca ralla Celeste");
}

#[test]
fn edad_respeta_si_el_cumpleanos_ya_paso() {
    let hoy = hoy_fijo();
    assert_eq!(alumno(6, false).edad(hoy), "16 años");
}

#[test]
fn edad_no_cuenta_el_cumpleanos_del_dia_siguiente() {
    let hoy = hoy_fijo();
    let casi = Alumno { fecha_de_nacimiento: "2010-08-25".to_string(), ..alumno(6, false) };
    assert_eq!(casi.edad(hoy), "15 años");
}

#[test]
fn el_cumpleanos_de_hoy_cuenta_como_cumplido() {
    let hoy = hoy_fijo();
    let justo = Alumno { fecha_de_nacimiento: "2010-08-24".to_string(), ..alumno(6, false) };
    assert_eq!(justo.edad(hoy), "16 años");
}

#[test]
fn fecha_invalida_muestra_interrogantes() {
    let mut a = alumno(6, false);
    a.fecha_de_nacimiento = "15/01/2010".to_string();
    let hoy = hoy_fijo();
    assert_eq!(a.edad(hoy), "?? años");
}

#[test]
fn rango_formatea_kyu_dan_y_rallita() {
    assert_eq!(alumno(10, false).rango(), "10 kyu");
    assert_eq!(alumno(3, true).rango(), "3 kyu B");
    assert_eq!(alumno(0, false).rango(), "1 Dan");
    assert_eq!(alumno(-9, false).rango(), "10 Dan");
}

#[test]
fn los_dan_nunca_llevan_rallita() {
    assert!(!Alumno::aplica_rallita(0, true));
    assert!(!Alumno::aplica_rallita(-5, true));
    assert!(Alumno::aplica_rallita(6, true));
    assert!(!Alumno::aplica_rallita(6, false));
}

#[test]
fn la_ficha_del_alumno_reune_sus_datos() {
    let ficha = alumno(6, true).ficha_tecnica_en(hoy_fijo());
    assert_eq!(
        ficha,
        "Ficha Técnica del Alumno\n==========================\nID:                 1\nNombre:             Test\nFecha de Nac.:      2010-01-15\nEdad:               16 años años\nGrado (Kyu):        6\nCinta/Nivel:        Verde ralla Azul\nRepresentante ID:   1\nCon Rallita:        Sí\n========================="
    );
    assert!(alumno(6, false).ficha_tecnica().starts_with("Ficha Técnica del Alumno"));
}

#[test]
fn from_rango_mapea_todo_el_arco_kyu() {
    assert_eq!(Cintas::from_rango(10), Cintas::Blanca);
    assert_eq!(Cintas::from_rango(9), Cintas::Celeste);
    assert_eq!(Cintas::from_rango(8), Cintas::Amarilla);
    assert_eq!(Cintas::from_rango(7), Cintas::Naranja);
    assert_eq!(Cintas::from_rango(6), Cintas::Verde);
    assert_eq!(Cintas::from_rango(5), Cintas::Azul1);
    assert_eq!(Cintas::from_rango(4), Cintas::Azul2);
    assert_eq!(Cintas::from_rango(3), Cintas::Marron1);
    assert_eq!(Cintas::from_rango(2), Cintas::Marron2);
    assert_eq!(Cintas::from_rango(1), Cintas::Marron3);
}

#[test]
fn grados_dan_y_desconocidos_son_negra() {
    assert_eq!(Cintas::from_rango(0), Cintas::Negra);
    assert_eq!(Cintas::from_rango(-7), Cintas::Negra);
    assert_eq!(Cintas::from_rango(99), Cintas::Negra);
}

#[test]
fn label_es_lo_que_ve_el_usuario() {
    assert_eq!(Cintas::Blanca.label(), "Blanca");
    assert_eq!(Cintas::Azul2.label(), "Azul 2");
    assert_eq!(Cintas::Marron3.label(), "Marrón 3");
    assert_eq!(Cintas::Negra.label(), "Negra");
}

#[test]
fn nombre_agrupa_azules_y_marrones() {
    assert_eq!(Cintas::Azul1.nombre(), "Azul");
    assert_eq!(Cintas::Azul2.nombre(), "Azul");
    assert_eq!(Cintas::Marron1.nombre(), "Marrón");
    assert_eq!(Cintas::Marron3.nombre(), "Marrón");
    assert_eq!(Cintas::Verde.nombre(), "Verde");
}

#[test]
fn valor_y_from_rango_son_inversos_salvo_negra() {
    for cinta in Cintas::all_variants() {
        if *cinta == Cintas::Negra {
            continue;
        }
        assert_eq!(Cintas::from_rango(cinta.valor() as i32), *cinta);
    }
    assert_eq!(Cintas::all_variants().len(), 11);
}

#[test]
fn conversion_dan_usa_la_formula_historica() {
    assert_eq!(Cintas::rango_desde_dan(1), 0);
    assert_eq!(Cintas::rango_desde_dan(10), -9);
    assert_eq!(Cintas::from_rango(Cintas::rango_desde_dan(1)), Cintas::Negra);
}

fn deuda(monto_total: f64, monto_pendiente: f64) -> Deuda {
    Deuda {
        id: 1,
        representante_id: 3,
        monto_total: pesos(monto_total),
        monto_pendiente: pesos(monto_pendiente),
        periodo: "2026-08".to_string(),
        fecha_vencimiento: "2026-08-10".to_string(),
        estado_id: EstadoDeuda::Pendiente.id(),
        alumno_id: None,
    }
}

#[test]
fn saldo_es_monto_pendiente() {
    let d = deuda(1500.0, 500.0);
    assert_eq!(d.saldo(), pesos(500.0));
}

#[test]
fn total_abonado_es_la_diferencia() {
    let d = deuda(1500.0, 500.0);
    assert_eq!(d.total_abonado(), pesos(1000.0));
}

#[test]
fn total_abonado_nunca_es_negativo() {
    let d = deuda(1000.0, 1500.0);
    assert_eq!(d.total_abonado(), 0);
}

#[test]
fn estado_desde_id() {
    assert_eq!(EstadoDeuda::from_id(1), Some(EstadoDeuda::Pendiente));
    assert_eq!(EstadoDeuda::from_id(3), Some(EstadoDeuda::Pagada));
    assert_eq!(EstadoDeuda::from_id(99), None);
}

#[test]
fn estado_terminal_no_es_cobrable() {
    assert!(!EstadoDeuda::Pagada.es_cobrable());
    assert!(!EstadoDeuda::Anulada.es_cobrable());
    assert!(EstadoDeuda::Pendiente.es_cobrable());
    assert!(EstadoDeuda::Parcial.es_cobrable());
}

#[test]
fn un_estado_desconocido_de_deuda_se_lee_como_pendiente() {
    let mut d = deuda(1500.0, 500.0);
    d.estado_id = 42;
    assert_eq!(d.estado(), EstadoDeuda::Pendiente);
    d.estado_id = 4;
    assert_eq!(d.estado(), EstadoDeuda::Anticipada);
}

#[test]
fn los_catalogos_van_y_vuelven_por_su_identificador() {
    for m in MetodoPago::todos() {
        assert_eq!(MetodoPago::from_id(m.id()), Some(*m));
    }
    for t in TipoEvento::todos() {
        assert_eq!(TipoEvento::from_id(t.id()), Some(*t));
    }
    assert!(EstadoAlumno::Activo.genera_deudas());
    assert!(!EstadoAlumno::Retirado.genera_deudas());
    assert_eq!(EstadoDeuda::Anticipada.label(), "Anticipada");
}

#[test]
fn la_etiqueta_del_periodo_es_legible() {
    assert_eq!(etiqueta_de_periodo("2026-08"), "Agosto 2026");
    assert_eq!(etiqueta_de_periodo("2025-01"), "Enero 2025");
}

#[test]
fn un_periodo_mal_formateado_no_rompe_la_etiqueta() {
    assert_eq!(etiqueta_de_periodo("basura"), "basura");
    assert_eq!(etiqueta_de_periodo("2026-13"), "2026-13");
}

#[test]
fn estado_pago_desde_id() {
    assert_eq!(EstadoPago::from_id(1), Some(EstadoPago::Completado));
    assert_eq!(EstadoPago::from_id(2), Some(EstadoPago::Reversado));
    assert_eq!(EstadoPago::from_id(3), Some(EstadoPago::PendienteConfirmar));
}

#[test]
fn metodo_pago_desde_id() {
    assert_eq!(MetodoPago::from_id(1), Some(MetodoPago::Efectivo));
    assert_eq!(MetodoPago::from_id(2), Some(MetodoPago::Transferencia));
    assert_eq!(MetodoPago::from_id(3), Some(MetodoPago::Tarjeta));
    assert_eq!(MetodoPago::from_id(4), Some(MetodoPago::Cheque));
}

#[test]
fn la_fecha_de_registro_usa_el_formato_canonico() {
    let a = Abono {
        id: 1,
        deuda_id: 5,
        monto: pesos(500.0),
        fecha: "2026-08-24".to_string(),
        observacion: String::new(),
    };
    assert_eq!(FORMATO_FECHA, "%Y-%m-%d");
    assert!(fecha_de_texto(&a.fecha).is_some());
}

#[test]
fn fecha_de_texto_lee_anio_mes_y_dia() {
    assert_eq!(fecha_de_texto("2026-08-24"), Some(Fecha { anio: 2026, mes: 8, dia: 24 }));
    assert_eq!(fecha_de_texto("2026-02-30"), None);
    assert_eq!(fecha_de_texto("24/08/2026"), None);
}

#[test]
fn la_entidad_se_clona_y_compara_por_valor() {
    let a = Representante {
        id: 1,
        nombre: "Pedro Pérez".to_string(),
        numero_contacto: "0412-0000000".to_string(),
        estado_id: 1,
    };
    let b = a.clone();
    assert_eq!(a, b);
}
