use budodb::application::motor_fifo::{
    aplicar_a_deudas, deuda_de_adelanto, periodo_en_texto, planificar_adelantos, restaurar_saldo,
    Adelanto,
};
use budodb::domain::catalogos::EstadoDeuda;
use budodb::domain::deuda::Deuda;
use budodb::domain::fecha::Fecha;
use budodb::domain::pago::etiqueta_de_periodo;

fn deuda(id: usize, periodo: &str, total: i64, pendiente: i64) -> Deuda {
    Deuda {
        id,
        representante_id: 1,
        monto_total: total,
        monto_pendiente: pendiente,
        periodo: periodo.to_string(),
        fecha_vencimiento: format!("{periodo}-10"),
        estado_id: EstadoDeuda::Pendiente.id(),
        alumno_id: None,
    }
}

#[test]
fn el_reparto_cubre_en_orden_y_devuelve_el_sobrante() {
    let deudas = vec![deuda(1, "2026-05", 1000, 1000), deuda(2, "2026-06", 1000, 1000)];
    let (aps, resto) = aplicar_a_deudas(1500, &deudas);
    assert_eq!(aps.len(), 2);
    assert_eq!((aps[0].deuda_id, aps[0].monto, aps[0].nuevo_pendiente), (1, 1000, 0));
    assert_eq!(aps[0].nuevo_estado, EstadoDeuda::Pagada.id());
    assert_eq!((aps[1].deuda_id, aps[1].monto, aps[1].nuevo_pendiente), (2, 500, 500));
    assert_eq!(aps[1].nuevo_estado, EstadoDeuda::Parcial.id());
    assert_eq!(resto, 0);

    let (aps, resto) = aplicar_a_deudas(2500, &deudas);
    assert_eq!(aps.len(), 2);
    assert_eq!(resto, 500);
}

#[test]
fn las_deudas_sin_saldo_se_saltan() {
    let deudas = vec![deuda(1, "2026-05", 1000, 0), deuda(2, "2026-06", 1000, 300)];
    let (aps, resto) = aplicar_a_deudas(1000, &deudas);
    assert_eq!(aps.len(), 1);
    assert_eq!(aps[0].deuda_id, 2);
    assert_eq!(resto, 700);
    let (aps, resto) = aplicar_a_deudas(0, &deudas);
    assert!(aps.is_empty());
    assert_eq!(resto, 0);
}

#[test]
fn el_periodo_se_escribe_con_ceros() {
    assert_eq!(periodo_en_texto(2026, 8), "2026-08");
    assert_eq!(periodo_en_texto(2026, 12), "2026-12");
    assert_eq!(periodo_en_texto(987, 1), "0987-01");
    assert_eq!(periodo_en_texto(-5, 3), "-005-03");
    assert_eq!(periodo_en_texto(12345, 10), "12345-10");
}

#[test]
fn los_adelantos_empiezan_el_mes_siguiente_y_saltan_los_existentes() {
    let hoy = Fecha { anio: 2026, mes: 11, dia: 5 };
    let existentes = vec!["2027-01".to_string()];
    let (plan, resto) = planificar_adelantos(hoy, 3500, 1500, &existentes);
    let periodos: Vec<&str> = plan.iter().map(|a| a.periodo.as_str()).collect();
    assert_eq!(periodos, vec!["2026-12", "2027-02", "2027-03"]);
    let aplicados: Vec<i64> = plan.iter().map(|a| a.aplicado).collect();
    assert_eq!(aplicados, vec![1500, 1500, 500]);
    assert!(plan.iter().all(|a| a.monto_deuda == 1500));
    assert_eq!(resto, 0);
}

#[test]
fn los_adelantos_son_a_lo_sumo_doce() {
    let hoy = Fecha { anio: 2026, mes: 1, dia: 1 };
    let (plan, resto) = planificar_adelantos(hoy, 100_000, 1000, &[]);
    assert_eq!(plan.len(), 12);
    assert_eq!(plan[11].periodo, "2027-01");
    assert_eq!(resto, 100_000 - 12 * 1000);
}

#[test]
fn la_deuda_adelantada_vence_el_primer_dia() {
    let a = Adelanto { periodo: "2026-09".to_string(), monto_deuda: 1500, aplicado: 500 };
    let d = deuda_de_adelanto(7, &a);
    assert_eq!(d.representante_id, 7);
    assert_eq!(d.monto_total, 1500);
    assert_eq!(d.monto_pendiente, 1000);
    assert_eq!(d.fecha_vencimiento, "2026-09-01");
    assert_eq!(d.estado_id, EstadoDeuda::Anticipada.id());
    let completa = Adelanto { periodo: "2026-10".to_string(), monto_deuda: 1500, aplicado: 1500 };
    assert_eq!(deuda_de_adelanto(7, &completa).estado_id, EstadoDeuda::Pagada.id());
}

#[test]
fn restaurar_devuelve_el_saldo_sin_superar_el_total() {
    assert_eq!(restaurar_saldo(0, 1500, 1500), (1500, EstadoDeuda::Pendiente.id()));
    assert_eq!(restaurar_saldo(500, 500, 1500), (1000, EstadoDeuda::Parcial.id()));
    assert_eq!(restaurar_saldo(1000, 900, 1500), (1500, EstadoDeuda::Pendiente.id()));
    assert_eq!(restaurar_saldo(-100, 100, 1500), (0, EstadoDeuda::Pagada.id()));
}

#[test]
fn reversar_tras_aplicar_recupera_cada_saldo() {
    let deudas = vec![deuda(1, "2026-05", 1000, 1000), deuda(2, "2026-06", 1000, 700)];
    let (aps, _) = aplicar_a_deudas(1200, &deudas);
    for (ap, d) in aps.iter().zip(deudas.iter()) {
        let (saldo, _) = restaurar_saldo(ap.nuevo_pendiente, ap.monto, d.monto_total);
        assert_eq!(saldo, d.monto_pendiente);
    }
}

#[test]
fn el_periodo_generado_se_etiqueta_con_el_mes() {
    assert_eq!(etiqueta_de_periodo(&periodo_en_texto(2026, 8)), "Agosto 2026");
    assert_eq!(etiqueta_de_periodo(&periodo_en_texto(987, 12)), "Diciembre 0987");
}
