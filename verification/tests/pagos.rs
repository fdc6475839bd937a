use budodb::application::dto::DatosPago;
use budodb::application::error::ErrorAplicacion;
use budodb::application::ports::{
    AplicacionPagoRepository, ConfiguracionAppRepository, DeudaRepository, ErrorRepositorio,
    HistorialPagoRepository, Logger, PagoRepository,
};
use budodb::application::service_pagos::{
    aplicacion_nueva, restauracion_de_aplicacion, exige_mensualidad, filtrar_morosos, mensualidad_de_ajuste, pago_nuevo,
    planear_pago, registro_de_historial, LecturaAdelantos, ServicioPagos, MENSAJE_SIN_MENSUALIDAD,
};
use budodb::domain::aplicacion_pago::AplicacionPago;
use budodb::domain::catalogos::{EstadoDeuda, EstadoPago, MetodoPago, TipoHistorial};
use budodb::domain::fecha::Fecha;
use budodb::domain::deuda::Deuda;
use budodb::domain::historial_pago::HistorialPago;
use budodb::domain::pago::Pago;
use budodb::domain::representante::Representante;
use std::collections::{HashMap, HashSet};
use std::sync::{Arc, Mutex};

fn pesos(x: f64) -> i64 {
    (x * 100.0).round() as i64
}

struct LoggerMock;
impl Logger for LoggerMock {
    fn debug(&self, _: &str) {}
    fn info(&self, _: &str) {}
    fn error(&self, _: &str) {}
}

struct RepoPagosMock {
    pagos: Mutex<Vec<Pago>>,
    proximo_id: Mutex<usize>,
    estados: Mutex<Vec<(usize, i32)>>,
    borrados: Mutex<Vec<HashSet<usize>>>,
}

impl RepoPagosMock {
    fn nuevo() -> Self {
        Self {
            pagos: Mutex::new(Vec::new()),
            proximo_id: Mutex::new(1),
            estados: Mutex::new(Vec::new()),
            borrados: Mutex::new(Vec::new()),
        }
    }
}

impl PagoRepository for RepoPagosMock {
    fn save(&self, p: &Pago) -> Result<usize, ErrorRepositorio> {
        let mut p = p.clone();
        p.id = *self.proximo_id.lock().unwrap();
        *self.proximo_id.lock().unwrap() += 1;
        self.pagos.lock().unwrap().push(p.clone());
        Ok(p.id)
    }
    fn fetch_por_periodo(&self, _: &str) -> Result<Vec<Pago>, ErrorRepositorio> {
        Ok(self.pagos.lock().unwrap().clone())
    }
    fn fetch_por_representante(&self, _: usize) -> Result<Vec<Pago>, ErrorRepositorio> {
        Ok(self.pagos.lock().unwrap().clone())
    }
    fn fetch_all(&self) -> Result<Vec<Pago>, ErrorRepositorio> {
        Ok(self.pagos.lock().unwrap().clone())
    }
    fn update_estado(&self, id: usize, estado_id: i32) -> Result<(), ErrorRepositorio> {
        self.estados.lock().unwrap().push((id, estado_id));
        Ok(())
    }
    fn delete(&self, ids: HashSet<usize>) -> Result<(), ErrorRepositorio> {
        self.borrados.lock().unwrap().push(ids);
        Ok(())
    }
}

struct RepoDeudasMock {
    cobrables: Mutex<Vec<Deuda>>,
    saldos: Mutex<Vec<(usize, i64, i32)>>,
    guardadas: Mutex<Vec<Deuda>>,
    periodos_rep: Mutex<Vec<String>>,
    todas: Mutex<Vec<Deuda>>,
    falla_actualizar: bool,
}

impl RepoDeudasMock {
    fn nuevo() -> Self {
        Self {
            cobrables: Mutex::new(Vec::new()),
            saldos: Mutex::new(Vec::new()),
            guardadas: Mutex::new(Vec::new()),
            periodos_rep: Mutex::new(Vec::new()),
            todas: Mutex::new(Vec::new()),
            falla_actualizar: false,
        }
    }

    fn con_cobrables(vec: Vec<Deuda>) -> Self {
        let repo = Self::nuevo();
        *repo.cobrables.lock().unwrap() = vec;
        repo
    }
}

impl DeudaRepository for RepoDeudasMock {
    fn save(&self, d: &Deuda) -> Result<(), ErrorRepositorio> {
        let mut d = d.clone();
        d.id = 100 + self.guardadas.lock().unwrap().len();
        self.guardadas.lock().unwrap().push(d.clone());
        self.todas.lock().unwrap().push(d);
        Ok(())
    }
    fn fetch_por_periodo(&self, periodo: &str) -> Result<Vec<Deuda>, ErrorRepositorio> {
        Ok(self.todas.lock().unwrap().iter().filter(|d| d.periodo == periodo).cloned().collect())
    }
    fn fetch_cobrables_por_representante(&self, _: usize) -> Result<Vec<Deuda>, ErrorRepositorio> {
        Ok(self.cobrables.lock().unwrap().clone())
    }
    fn fetch_todos_periodos_por_representante(&self, _: usize) -> Result<Vec<String>, ErrorRepositorio> {
        Ok(self.periodos_rep.lock().unwrap().clone())
    }
    fn fetch_all(&self) -> Result<Vec<Deuda>, ErrorRepositorio> {
        Ok(self.todas.lock().unwrap().clone())
    }
    fn update_estado(&self, id: usize, monto_pendiente: i64, estado_id: i32) -> Result<(), ErrorRepositorio> {
        if self.falla_actualizar {
            return Err(ErrorRepositorio::Consulta("fallo simulado".to_string()));
        }
        self.saldos.lock().unwrap().push((id, monto_pendiente, estado_id));
        Ok(())
    }
    fn delete(&self, _: HashSet<usize>) -> Result<(), ErrorRepositorio> {
        Ok(())
    }
}

struct RepoAplicacionesMock {
    aplicaciones: Mutex<Vec<AplicacionPago>>,
    borradas_por_pago: Mutex<Vec<usize>>,
}

impl RepoAplicacionesMock {
    fn nuevo() -> Self {
        Self { aplicaciones: Mutex::new(Vec::new()), borradas_por_pago: Mutex::new(Vec::new()) }
    }
}

impl AplicacionPagoRepository for RepoAplicacionesMock {
    fn save(&self, a: &AplicacionPago) -> Result<(), ErrorRepositorio> {
        self.aplicaciones.lock().unwrap().push(a.clone());
        Ok(())
    }
    fn fetch_por_pago(&self, pago_id: usize) -> Result<Vec<AplicacionPago>, ErrorRepositorio> {
        Ok(self.aplicaciones.lock().unwrap().iter().filter(|a| a.pago_id == pago_id).cloned().collect())
    }
    fn fetch_por_deuda(&self, _: usize) -> Result<Vec<AplicacionPago>, ErrorRepositorio> {
        Ok(Vec::new())
    }
    fn delete_por_pago(&self, pago_id: usize) -> Result<(), ErrorRepositorio> {
        self.borradas_por_pago.lock().unwrap().push(pago_id);
        Ok(())
    }
}

struct RepoAjustesMock {
    valores: Mutex<HashMap<String, String>>,
}

impl RepoAjustesMock {
    fn nuevo() -> Self {
        Self { valores: Mutex::new(HashMap::new()) }
    }
    fn con_mensualidad(monto: f64) -> Self {
        let repo = Self::nuevo();
        repo.valores.lock().unwrap().insert("monto_mensualidad".to_string(), monto.to_string());
        repo
    }
}

impl ConfiguracionAppRepository for RepoAjustesMock {
    fn obtener(&self, clave: &str) -> Result<Option<String>, ErrorRepositorio> {
        Ok(self.valores.lock().unwrap().get(clave).cloned())
    }
    fn guardar(&self, clave: &str, valor: &str) -> Result<(), ErrorRepositorio> {
        self.valores.lock().unwrap().insert(clave.to_string(), valor.to_string());
        Ok(())
    }
}

struct RepoHistorialMock {
    registros: Mutex<Vec<HistorialPago>>,
}

impl HistorialPagoRepository for RepoHistorialMock {
    fn save(&self, r: &HistorialPago) -> Result<(), ErrorRepositorio> {
        self.registros.lock().unwrap().push(r.clone());
        Ok(())
    }
    fn fetch_por_representante(&self, _: usize) -> Result<Vec<HistorialPago>, ErrorRepositorio> {
        Ok(Vec::new())
    }
    fn fetch_por_periodo(&self, _: &str) -> Result<Vec<HistorialPago>, ErrorRepositorio> {
        Ok(Vec::new())
    }
    fn fetch_all(&self) -> Result<Vec<HistorialPago>, ErrorRepositorio> {
        Ok(Vec::new())
    }
    fn delete(&self, _: HashSet<usize>) -> Result<(), ErrorRepositorio> {
        Ok(())
    }
}

type Servicio = ServicioPagos<
    RepoPagosMock,
    RepoAplicacionesMock,
    RepoDeudasMock,
    RepoHistorialMock,
    RepoAjustesMock,
    LoggerMock,
>;

struct Mocks {
    pagos: Arc<RepoPagosMock>,
    deudas: Arc<RepoDeudasMock>,
    aplicaciones: Arc<RepoAplicacionesMock>,
    historial: Arc<RepoHistorialMock>,
}

fn construir(repo_deudas: RepoDeudasMock, repo_ajustes: RepoAjustesMock) -> (Servicio, Mocks) {
    let pagos = Arc::new(RepoPagosMock::nuevo());
    let deudas = Arc::new(repo_deudas);
    let aplicaciones = Arc::new(RepoAplicacionesMock::nuevo());
    let historial = Arc::new(RepoHistorialMock { registros: Mutex::new(Vec::new()) });
    let servicio = ServicioPagos::nuevo(
        pagos.clone(),
        aplicaciones.clone(),
        deudas.clone(),
        historial.clone(),
        Arc::new(repo_ajustes),
        Arc::new(LoggerMock),
    );
    (servicio, Mocks { pagos, deudas, aplicaciones, historial })
}

fn deuda(id: usize, periodo: &str, monto_total: f64, monto_pendiente: f64, estado: EstadoDeuda) -> Deuda {
    Deuda {
        id,
        representante_id: 1,
        monto_total: pesos(monto_total),
        monto_pendiente: pesos(monto_pendiente),
        periodo: periodo.to_string(),
        fecha_vencimiento: format!("{periodo}-10"),
        estado_id: estado.id(),
        alumno_id: None,
    }
}

fn datos_pago(monto: f64) -> DatosPago {
    DatosPago {
        representante_id: 1,
        monto_recibido: pesos(monto),
        metodo_id: MetodoPago::Efectivo.id(),
        fecha_pago: "2026-08-24".to_string(),
    }
}

#[test]
fn rechaza_pagos_invalidos_sin_crear_pago() {
    let (s, m) = construir(RepoDeudasMock::nuevo(), RepoAjustesMock::con_mensualidad(1500.0));

    let mut p = datos_pago(1500.0);
    p.representante_id = 0;
    assert!(matches!(s.registrar_pago(p), Err(ErrorAplicacion::Validacion(_))));

    let p = datos_pago(-1.0);
    assert!(matches!(s.registrar_pago(p), Err(ErrorAplicacion::Validacion(_))));

    assert!(m.pagos.pagos.lock().unwrap().is_empty());
}

#[test]
fn pago_total_a_una_deuda_la_deja_pagada() {
    let repo = RepoDeudasMock::con_cobrables(vec![deuda(1, "2026-08", 1500.0, 1500.0, EstadoDeuda::Pendiente)]);
    let (s, m) = construir(repo, RepoAjustesMock::con_mensualidad(1500.0));

    let res = s.registrar_pago(datos_pago(1500.0)).unwrap();

    assert_eq!(res, vec![(1, pesos(1500.0))]);
    let saldos = m.deudas.saldos.lock().unwrap();
    assert_eq!(saldos[0].0, 1);
    assert_eq!(saldos[0].1, 0);
    assert_eq!(saldos[0].2, EstadoDeuda::Pagada.id());
    assert_eq!(m.aplicaciones.aplicaciones.lock().unwrap().len(), 1);
}

#[test]
fn pago_parcial_deja_la_deuda_parcial() {
    let repo = RepoDeudasMock::con_cobrables(vec![deuda(1, "2026-08", 1500.0, 1500.0, EstadoDeuda::Pendiente)]);
    let (s, m) = construir(repo, RepoAjustesMock::con_mensualidad(1500.0));

    let res = s.registrar_pago(datos_pago(500.0)).unwrap();

    assert_eq!(res, vec![(1, pesos(500.0))]);
    let saldos = m.deudas.saldos.lock().unwrap();
    assert_eq!(saldos[0].0, 1);
    assert_eq!(saldos[0].1, pesos(1000.0));
    assert_eq!(saldos[0].2, EstadoDeuda::Parcial.id());
}

#[test]
fn fifo_aplica_primero_a_la_deuda_mas_antigua() {
    let repo = RepoDeudasMock::con_cobrables(vec![
        deuda(1, "2026-05", 1000.0, 1000.0, EstadoDeuda::Pendiente),
        deuda(2, "2026-06", 1000.0, 1000.0, EstadoDeuda::Pendiente),
    ]);
    let (s, m) = construir(repo, RepoAjustesMock::con_mensualidad(1500.0));

    let res = s.registrar_pago(datos_pago(1500.0)).unwrap();

    assert_eq!(res, vec![(1, pesos(1000.0)), (2, pesos(500.0))]);
    let saldos = m.deudas.saldos.lock().unwrap();
    assert_eq!(saldos[0].1, 0);
    assert_eq!(saldos[0].2, EstadoDeuda::Pagada.id());
    assert_eq!(saldos[1].1, pesos(500.0));
    assert_eq!(saldos[1].2, EstadoDeuda::Parcial.id());
}

#[test]
fn pago_exacto_no_genera_adelanto() {
    let repo = RepoDeudasMock::con_cobrables(vec![deuda(1, "2026-07", 1000.0, 1000.0, EstadoDeuda::Pendiente)]);
    let (s, m) = construir(repo, RepoAjustesMock::con_mensualidad(1500.0));

    let res = s.registrar_pago(datos_pago(1000.0)).unwrap();

    assert_eq!(res, vec![(1, pesos(1000.0))]);
    assert!(m.deudas.guardadas.lock().unwrap().is_empty());
}

#[test]
fn excedente_genera_adelanto_para_el_siguiente_mes() {
    let repo = RepoDeudasMock::con_cobrables(vec![deuda(1, "2026-07", 1000.0, 1000.0, EstadoDeuda::Pendiente)]);
    let (s, m) = construir(repo, RepoAjustesMock::con_mensualidad(1500.0));

    s.registrar_pago(datos_pago(1000.0)).unwrap();
    assert!(m.deudas.guardadas.lock().unwrap().is_empty());

    let repo = RepoDeudasMock::con_cobrables(vec![deuda(1, "2026-07", 1000.0, 1000.0, EstadoDeuda::Pendiente)]);
    let (s, m) = construir(repo, RepoAjustesMock::con_mensualidad(1500.0));

    let res = s.registrar_pago(datos_pago(2500.0)).unwrap();

    assert_eq!(res.len(), 2);
    assert_eq!(res[0], (1, pesos(1000.0)));
    let adelanto = res[1];
    assert_eq!(adelanto.1, pesos(1500.0));
    assert_eq!(m.deudas.guardadas.lock().unwrap().len(), 1);
}

#[test]
fn sin_deudas_sin_configuracion_de_mensualidad_falla_al_faltar_mensualidad() {
    let (s, m) = construir(RepoDeudasMock::nuevo(), RepoAjustesMock::nuevo());

    let res = s.registrar_pago(datos_pago(1500.0));
    assert!(matches!(res, Err(ErrorAplicacion::Validacion(msg)) if msg.contains("monto de mensualidad")));
    assert!(m.pagos.pagos.lock().unwrap().is_empty());
}

#[test]
fn sin_deudas_con_mensualidad_crea_adelanto() {
    let (s, m) = construir(RepoDeudasMock::nuevo(), RepoAjustesMock::con_mensualidad(1500.0));

    let res = s.registrar_pago(datos_pago(1500.0)).unwrap();

    assert_eq!(res.len(), 1);
    assert_eq!(res[0].1, pesos(1500.0));
    let guardadas = m.deudas.guardadas.lock().unwrap();
    assert_eq!(guardadas.len(), 1);
    assert_eq!(guardadas[0].estado_id, EstadoDeuda::Pagada.id());
    assert!(guardadas[0].fecha_vencimiento.ends_with("-01"));
}

#[test]
fn reversar_restaura_el_saldo_de_la_deuda() {
    let repo = RepoDeudasMock::con_cobrables(vec![deuda(1, "2026-08", 1500.0, 1500.0, EstadoDeuda::Pendiente)]);
    let (s, m) = construir(repo, RepoAjustesMock::con_mensualidad(1500.0));

    s.registrar_pago(datos_pago(1500.0)).unwrap();

    m.deudas.saldos.lock().unwrap().clear();
    *m.deudas.todas.lock().unwrap() = vec![deuda(1, "2026-08", 1500.0, 0.0, EstadoDeuda::Pagada)];
    let mut deuda_guardada = deuda(1, "2026-08", 1500.0, 0.0, EstadoDeuda::Pagada);
    deuda_guardada.id = 1;
    *m.deudas.guardadas.lock().unwrap() = vec![deuda_guardada];

    s.reversar_pago(1).unwrap();

    let saldos = m.deudas.saldos.lock().unwrap();
    assert_eq!(saldos[0].0, 1);
    assert_eq!(saldos[0].1, pesos(1500.0));
    assert_eq!(saldos[0].2, EstadoDeuda::Pendiente.id());
    assert_eq!(*m.aplicaciones.borradas_por_pago.lock().unwrap(), vec![1]);
    assert_eq!(*m.pagos.estados.lock().unwrap(), vec![(1, EstadoPago::Reversado.id())]);
}

#[test]
fn un_fallo_en_el_reparto_elimina_el_pago_huerfano() {
    let mut repo = RepoDeudasMock::con_cobrables(vec![deuda(1, "2026-08", 1500.0, 1500.0, EstadoDeuda::Pendiente)]);
    repo.falla_actualizar = true;
    let (s, m) = construir(repo, RepoAjustesMock::con_mensualidad(1500.0));

    let res = s.registrar_pago(datos_pago(500.0));
    assert!(matches!(res, Err(ErrorAplicacion::Repositorio(_))));
    assert_eq!(*m.pagos.borrados.lock().unwrap(), vec![HashSet::from([1])]);
}

#[test]
fn el_pago_deja_constancia_en_el_historial() {
    let repo = RepoDeudasMock::con_cobrables(vec![deuda(1, "2026-08", 1500.0, 1500.0, EstadoDeuda::Pendiente)]);
    let (s, m) = construir(repo, RepoAjustesMock::con_mensualidad(1500.0));
    s.registrar_pago(datos_pago(500.0)).unwrap();
    let registros = m.historial.registros.lock().unwrap();
    assert_eq!(registros.len(), 2);
    assert_eq!(registros[0].observacion, "Pago #1 → deuda #1");
    assert_eq!(registros[0].periodo, "2026-08");
    assert_eq!(registros[1].monto, pesos(500.0));
    assert_eq!(registros[1].observacion, "Pago de 500 aplicado a 1 deuda(s)");
}

#[test]
fn el_listado_ordena_del_pago_mas_reciente_al_mas_antiguo() {
    let (s, m) = construir(RepoDeudasMock::nuevo(), RepoAjustesMock::nuevo());
    for (id, fecha) in [(1, "2026-08-02"), (2, "2026-08-20"), (3, "2026-08-10")] {
        m.pagos.pagos.lock().unwrap().push(Pago {
            id,
            representante_id: 9,
            monto_recibido: pesos(100.0),
            estado_id: EstadoPago::Completado.id(),
            metodo_id: 2,
            fecha_pago: fecha.to_string(),
        });
    }
    let reps = vec![Representante { id: 9, nombre: "Ana".to_string(), numero_contacto: String::new(), estado_id: 1 }];
    let vistas = s.listar_del_periodo("2026-08", &reps).unwrap();
    let ids: Vec<usize> = vistas.iter().map(|v| v.pago.id).collect();
    assert_eq!(ids, vec![2, 3, 1]);
    assert_eq!(vistas[0].nombre_representante, "Ana");
    assert_eq!(vistas[0].metodo, MetodoPago::Transferencia);
    assert_eq!(s.total_del_periodo("2026-08", &reps).unwrap(), pesos(300.0) as i128);
    let vistas = s.listar_del_periodo("2026-08", &[]).unwrap();
    assert_eq!(vistas[0].nombre_representante, "ID 9");
}

#[test]
fn morosos_son_los_que_no_tienen_pago_completado() {
    let pagos = vec![
        Pago { id: 1, representante_id: 1, monto_recibido: 100, estado_id: EstadoPago::Completado.id(), metodo_id: 1, fecha_pago: "2026-08-01".to_string() },
        Pago { id: 2, representante_id: 2, monto_recibido: 100, estado_id: EstadoPago::Reversado.id(), metodo_id: 1, fecha_pago: "2026-08-02".to_string() },
    ];
    let reps: Vec<Representante> = (1..=3)
        .map(|id| Representante { id, nombre: format!("Rep {id}"), numero_contacto: String::new(), estado_id: 1 })
        .collect();
    let morosos = filtrar_morosos(&pagos, &reps);
    let ids: Vec<usize> = morosos.iter().map(|r| r.id).collect();
    assert_eq!(ids, vec![2, 3]);
}

#[test]
fn eliminar_sin_ids_no_llama_al_repositorio() {
    let (s, m) = construir(RepoDeudasMock::nuevo(), RepoAjustesMock::nuevo());
    s.eliminar(HashSet::new()).unwrap();
    assert!(m.pagos.borrados.lock().unwrap().is_empty());
    s.eliminar(HashSet::from([4])).unwrap();
    assert_eq!(m.pagos.borrados.lock().unwrap().len(), 1);
}

#[test]
fn el_listado_muestra_cada_pago_una_vez() {
    let (s, m) = construir(RepoDeudasMock::nuevo(), RepoAjustesMock::nuevo());
    for (id, fecha) in [(1, "2026-08-05"), (2, "2026-08-05"), (3, "2026-08-01"), (4, "2026-08-30")] {
        m.pagos.pagos.lock().unwrap().push(Pago {
            id,
            representante_id: 9,
            monto_recibido: pesos(50.0),
            estado_id: EstadoPago::Completado.id(),
            metodo_id: 1,
            fecha_pago: fecha.to_string(),
        });
    }
    let vistas = s.listar_del_periodo("2026-08", &[]).unwrap();
    let ids: Vec<usize> = vistas.iter().map(|v| v.pago.id).collect();
    assert_eq!(ids, vec![4, 1, 2, 3]);
}

#[test]
fn los_registros_que_se_guardan_llevan_los_datos_dados() {
    let datos = datos_pago(1500.0);
    let pago = pago_nuevo(&datos);
    assert_eq!(pago.id, 0);
    assert_eq!(pago.representante_id, datos.representante_id);
    assert_eq!(pago.monto_recibido, pesos(1500.0));
    assert_eq!(pago.estado_id, EstadoPago::Completado.id());
    assert_eq!(pago.metodo_id, datos.metodo_id);
    assert_eq!(pago.fecha_pago, datos.fecha_pago);

    let a = aplicacion_nueva(7, 3, 250, "2026-08-15");
    assert_eq!((a.id, a.pago_id, a.deuda_id, a.monto_aplicado), (0, 7, 3, 250));
    assert_eq!(a.fecha, "2026-08-15");

    let h = registro_de_historial(4, TipoHistorial::AbonoAplicado, 250, "2026-08".to_string(), "2026-08-15", "Pago #7".to_string());
    assert_eq!((h.id, h.representante_id, h.tipo_id, h.monto), (0, 4, TipoHistorial::AbonoAplicado.id(), 250));
    assert_eq!(h.periodo, "2026-08");
    assert_eq!(h.fecha, "2026-08-15");
    assert_eq!(h.observacion, "Pago #7");
}

#[test]
fn la_mensualidad_se_lee_del_ajuste() {
    assert_eq!(mensualidad_de_ajuste(Ok(Some("1500".to_string()))).unwrap(), pesos(1500.0));
    for leido in [Ok(None), Ok(Some("0".to_string())), Ok(Some("abc".to_string())), Ok(Some("1e3".to_string()))] {
        match mensualidad_de_ajuste(leido) {
            Err(ErrorAplicacion::Validacion(m)) => assert_eq!(m, MENSAJE_SIN_MENSUALIDAD),
            otro => panic!("se esperaba el aviso de configurar la mensualidad: {otro:?}"),
        }
    }
    assert!(matches!(
        mensualidad_de_ajuste(Err(ErrorRepositorio::Conexion("caída".to_string()))),
        Err(ErrorAplicacion::Repositorio(_))
    ));
}

#[test]
fn se_exige_mensualidad_cuando_el_pago_supera_lo_pendiente() {
    let deudas = vec![deuda(1, "2026-07", 1500.0, 1000.0, EstadoDeuda::Parcial)];
    assert!(!exige_mensualidad(pesos(1000.0), &deudas));
    assert!(exige_mensualidad(pesos(1000.01), &deudas));
    assert!(exige_mensualidad(1, &[]));
}

#[test]
fn el_plan_del_pago_reparte_y_adelanta() {
    let deudas = vec![
        deuda(1, "2026-06", 1500.0, 1500.0, EstadoDeuda::Pendiente),
        deuda(2, "2026-07", 1500.0, 500.0, EstadoDeuda::Parcial),
    ];
    let sin_sobrante = planear_pago(pesos(1800.0), &deudas, None).unwrap();
    let repartido: Vec<(usize, i64)> = sin_sobrante.aplicaciones.iter().map(|a| (a.deuda_id, a.monto)).collect();
    assert_eq!(repartido, vec![(1, pesos(1500.0)), (2, pesos(300.0))]);
    assert!(sin_sobrante.adelantos.is_empty());

    let lectura = LecturaAdelantos {
        ajuste: Ok(Some("1500".to_string())),
        hoy: Fecha { anio: 2026, mes: 12, dia: 3 },
        periodos_existentes: vec!["2027-01".to_string()],
    };
    let con_sobrante = planear_pago(pesos(4300.0), &deudas, Some(lectura)).unwrap();
    assert_eq!(con_sobrante.aplicaciones.len(), 2);
    let adelantos: Vec<(String, i64, i64)> =
        con_sobrante.adelantos.iter().map(|a| (a.periodo.clone(), a.monto_deuda, a.aplicado)).collect();
    assert_eq!(
        adelantos,
        vec![("2027-02".to_string(), pesos(1500.0), pesos(1500.0)), ("2027-03".to_string(), pesos(1500.0), pesos(800.0))]
    );

    let sin_ajuste = LecturaAdelantos {
        ajuste: Ok(None),
        hoy: Fecha { anio: 2026, mes: 12, dia: 3 },
        periodos_existentes: Vec::new(),
    };
    match planear_pago(pesos(3500.0), &deudas, Some(sin_ajuste)) {
        Err(ErrorAplicacion::Validacion(m)) => assert_eq!(m, MENSAJE_SIN_MENSUALIDAD),
        _ => panic!("se esperaba el aviso de configurar la mensualidad"),
    }
}

#[test]
fn reversar_una_aplicacion_devuelve_el_monto_a_su_deuda() {
    let deudas = vec![
        deuda(1, "2026-07", 1500.0, 0.0, EstadoDeuda::Pagada),
        deuda(2, "2026-08", 1500.0, 1000.0, EstadoDeuda::Parcial),
    ];
    let aplicacion = |deuda_id: usize, monto: f64| AplicacionPago {
        id: 5,
        pago_id: 3,
        deuda_id,
        monto_aplicado: pesos(monto),
        fecha: "2026-08-24".to_string(),
    };
    assert_eq!(
        restauracion_de_aplicacion(&aplicacion(1, 1500.0), &deudas),
        Some((1, pesos(1500.0), EstadoDeuda::Pendiente.id()))
    );
    assert_eq!(
        restauracion_de_aplicacion(&aplicacion(1, 400.0), &deudas),
        Some((1, pesos(400.0), EstadoDeuda::Parcial.id()))
    );
    assert_eq!(
        restauracion_de_aplicacion(&aplicacion(2, 800.0), &deudas),
        Some((2, pesos(1500.0), EstadoDeuda::Pendiente.id()))
    );
    assert_eq!(restauracion_de_aplicacion(&aplicacion(9, 100.0), &deudas), None);
}
