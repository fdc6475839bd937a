use budodb::application::dto::{DatosAbono, DatosAlumno, DatosHistorialPago, DatosRepresentante};
use budodb::application::error::ErrorAplicacion;
use budodb::application::ports::{
    AbonoRepository, AlumnoRepository, ConfiguracionAppRepository, DeudaRepository,
    ErrorRepositorio, HistorialPagoRepository, Logger, RepresentanteRepository,
};
use budodb::application::service::{armar_vistas_alumnos, construir_alumno_editado, construir_alumno_nuevo, ServicioAlumnos};
use budodb::application::service_representantes::construir_representante;
use budodb::application::service_abonos::ServicioAbonos;
use budodb::application::service_ajustes::{mensualidad_configurada, ServicioAjustes, CLAVE_MONTO_MENSUALIDAD};
use budodb::application::service_deudas::{monto_propio_leido, planear_deudas_del_mes, ServicioDeudas};
use budodb::application::service_historial::ServicioHistorialPagos;
use budodb::application::service_representantes::ServicioRepresentantes;
use budodb::domain::abono::Abono;
use budodb::domain::alumno::Alumno;
use budodb::domain::catalogos::{EstadoDeuda, TipoHistorial};
use budodb::domain::deuda::Deuda;
use budodb::domain::historial_pago::HistorialPago;
use budodb::domain::representante::Representante;
use std::collections::{HashMap, HashSet};
use std::sync::{Arc, Mutex};

fn pesos(x: f64) -> i64 {
    (x * 100.0).round() as i64
}

struct LoggerMock;
impl Logger for LoggerMock {
    fn debug(&self, _: &str) {}
    fn info(&self, _: &str) {}
    fn error(&self, _: &str) {}
}

// ── Alumnos ──

struct RepoAlumnosMock {
    alumnos: Mutex<Vec<Alumno>>,
    guardados: Mutex<usize>,
    desactivados: Mutex<Option<HashSet<usize>>>,
    activados: Mutex<Option<HashSet<usize>>>,
    rangos: Mutex<Option<(HashSet<usize>, i32, bool)>>,
    eliminados: Mutex<Option<HashSet<usize>>>,
}

impl RepoAlumnosMock {
    fn nuevo() -> Self {
        Self {
            alumnos: Mutex::new(Vec::new()),
            guardados: Mutex::new(0),
            desactivados: Mutex::new(None),
            activados: Mutex::new(None),
            rangos: Mutex::new(None),
            eliminados: Mutex::new(None),
        }
    }
}

impl AlumnoRepository for RepoAlumnosMock {
    fn save(&self, a: &Alumno) -> Result<(), ErrorRepositorio> {
        *self.guardados.lock().unwrap() += 1;
        self.alumnos.lock().unwrap().push(a.clone());
        Ok(())
    }
    fn fetch_all(&self) -> Result<Vec<Alumno>, ErrorRepositorio> {
        Ok(self.alumnos.lock().unwrap().clone())
    }
    fn update(&self, a: &Alumno) -> Result<(), ErrorRepositorio> {
        let mut lista = self.alumnos.lock().unwrap();
        if let Some(slot) = lista.iter_mut().find(|x| x.id == a.id) {
            *slot = a.clone();
        } else {
            lista.push(a.clone());
        }
        Ok(())
    }
    fn update_rangos(&self, ids: HashSet<usize>, rango: i32, rallita: bool) -> Result<(), ErrorRepositorio> {
        *self.rangos.lock().unwrap() = Some((ids, rango, rallita));
        Ok(())
    }
    fn delete(&self, ids: HashSet<usize>) -> Result<(), ErrorRepositorio> {
        *self.eliminados.lock().unwrap() = Some(ids);
        Ok(())
    }
    fn desactivar(&self, ids: HashSet<usize>) -> Result<(), ErrorRepositorio> {
        *self.desactivados.lock().unwrap() = Some(ids);
        Ok(())
    }
    fn activar(&self, ids: HashSet<usize>) -> Result<(), ErrorRepositorio> {
        *self.activados.lock().unwrap() = Some(ids);
        Ok(())
    }
}

fn servicio_alumnos() -> (ServicioAlumnos<RepoAlumnosMock, LoggerMock>, Arc<RepoAlumnosMock>) {
    let repo = Arc::new(RepoAlumnosMock::nuevo());
    (ServicioAlumnos::nuevo(repo.clone(), Arc::new(LoggerMock)), repo)
}

fn datos_alumno_ok() -> DatosAlumno {
    DatosAlumno {
        nombre: "Juan".to_string(),
        fecha_de_nacimiento: "2010-01-15".to_string(),
        rango: 6,
        representante_id: 1,
        rallita: false,
    }
}

fn alumno(id: usize, representante_id: usize, estado_id: i32) -> Alumno {
    Alumno {
        id,
        nombre: "Test".to_string(),
        rango: 6,
        fecha_de_nacimiento: "2010-01-15".to_string(),
        representante_id,
        rallita: false,
        estado_id,
    }
}

#[test]
fn agregar_valida_antes_de_persistir() {
    let (s, repo) = servicio_alumnos();

    s.agregar(datos_alumno_ok()).expect("debería agregar");
    assert_eq!(*repo.guardados.lock().unwrap(), 1);
    assert_eq!(repo.alumnos.lock().unwrap()[0].estado_id, 1);

    let mut malo = datos_alumno_ok();
    malo.nombre = "".to_string();
    assert!(matches!(s.agregar(malo.clone()), Err(ErrorAplicacion::Validacion(_))));

    let mut malo = datos_alumno_ok();
    malo.fecha_de_nacimiento = "31/12/2010".to_string();
    assert!(matches!(s.agregar(malo.clone()), Err(ErrorAplicacion::Validacion(_))));

    let mut malo = datos_alumno_ok();
    malo.representante_id = 0;
    assert!(matches!(s.agregar(malo), Err(ErrorAplicacion::Validacion(_))));

    assert_eq!(*repo.guardados.lock().unwrap(), 1);
}

#[test]
fn agregar_quita_la_rallita_si_el_alumno_es_dan() {
    let (s, repo) = servicio_alumnos();
    let mut datos = datos_alumno_ok();
    datos.rango = 0;
    datos.rallita = true;

    s.agregar(datos).expect("debería agregar");
    assert!(!repo.alumnos.lock().unwrap()[0].rallita);
}

#[test]
fn actualizar_conserva_el_id_y_deja_activo() {
    let (s, repo) = servicio_alumnos();
    s.actualizar(7, datos_alumno_ok()).expect("debería actualizar");
    let lista = repo.alumnos.lock().unwrap();
    assert_eq!(lista[0].id, 7);
    assert_eq!(lista[0].estado_id, 1);
}

#[test]
fn actualizar_quita_la_rallita_si_el_alumno_es_dan() {
    let (s, repo) = servicio_alumnos();
    let mut datos = datos_alumno_ok();
    datos.rango = 0;
    datos.rallita = true;
    s.actualizar(3, datos).expect("debería actualizar");
    let lista = repo.alumnos.lock().unwrap();
    assert_eq!(lista[0].id, 3);
    assert!(!lista[0].rallita);
}

#[test]
fn desactivar_y_activar_con_ids_no_vacios_delegan_al_repo() {
    let (s, repo) = servicio_alumnos();

    s.desactivar(HashSet::from([1, 2])).unwrap();
    assert_eq!(*repo.desactivados.lock().unwrap(), Some(HashSet::from([1, 2])));

    s.activar(HashSet::from([3])).unwrap();
    assert_eq!(*repo.activados.lock().unwrap(), Some(HashSet::from([3])));
}

#[test]
fn desactivar_activar_promover_con_ids_vacios_es_noop() {
    let (s, repo) = servicio_alumnos();

    s.desactivar(HashSet::new()).unwrap();
    s.activar(HashSet::new()).unwrap();
    s.promover(HashSet::new(), 5, false).unwrap();
    s.eliminar(HashSet::new()).unwrap();

    assert!(repo.desactivados.lock().unwrap().is_none());
    assert!(repo.activados.lock().unwrap().is_none());
    assert!(repo.rangos.lock().unwrap().is_none());
    assert!(repo.eliminados.lock().unwrap().is_none());
}

#[test]
fn promover_delega_rango_y_rallita() {
    let (s, repo) = servicio_alumnos();
    s.promover(HashSet::from([7]), 4, true).unwrap();
    assert_eq!(*repo.rangos.lock().unwrap(), Some((HashSet::from([7]), 4, true)));
}

#[test]
fn armar_vistas_resuelve_nombre_y_telefono_del_representante() {
    let rep = Representante {
        id: 5,
        nombre: "María Gómez".to_string(),
        numero_contacto: "0412-1234567".to_string(),
        estado_id: 1,
    };
    let a = alumno(1, 5, 1);
    let sin_rep = alumno(2, 999, 1);

    let vistas = armar_vistas_alumnos(&[a, sin_rep], &[rep]);

    assert_eq!(vistas[0].nombre_representante, "María Gómez");
    assert_eq!(vistas[0].telefono_representante, "0412-1234567");
    assert_eq!(vistas[1].nombre_representante, "Sin representante");
    assert_eq!(vistas[1].telefono_representante, "");
}

// ── Abonos ──

struct RepoAbonosMock {
    guardados: Mutex<Vec<Abono>>,
}

impl AbonoRepository for RepoAbonosMock {
    fn save(&self, a: &Abono) -> Result<(), ErrorRepositorio> {
        self.guardados.lock().unwrap().push(a.clone());
        Ok(())
    }
    fn fetch_por_deuda(&self, id: usize) -> Result<Vec<Abono>, ErrorRepositorio> {
        Ok(self.guardados.lock().unwrap().iter().filter(|a| a.deuda_id == id).cloned().collect())
    }
    fn fetch_por_periodo(&self, _: &str) -> Result<Vec<Abono>, ErrorRepositorio> {
        Ok(Vec::new())
    }
    fn delete(&self, _: HashSet<usize>) -> Result<(), ErrorRepositorio> {
        Ok(())
    }
}

#[test]
fn registrar_abono_valida_antes_de_persistir() {
    let repo = Arc::new(RepoAbonosMock { guardados: Mutex::new(Vec::new()) });
    let s = ServicioAbonos::nuevo(repo.clone(), Arc::new(LoggerMock));

    let mut datos = DatosAbono {
        deuda_id: 0,
        monto: pesos(500.0),
        fecha: "2026-08-24".to_string(),
        observacion: String::new(),
    };
    assert!(s.registrar(datos.clone()).is_err());
    assert!(repo.guardados.lock().unwrap().is_empty());

    datos.deuda_id = 1;
    datos.monto = pesos(-10.0);
    assert!(s.registrar(datos.clone()).is_err());
    assert!(repo.guardados.lock().unwrap().is_empty());

    datos.monto = pesos(500.0);
    s.registrar(datos).expect("debería registrar");
    assert_eq!(repo.guardados.lock().unwrap().len(), 1);
}

#[test]
fn el_total_por_deuda_suma_sus_abonos() {
    let repo = Arc::new(RepoAbonosMock { guardados: Mutex::new(Vec::new()) });
    let s = ServicioAbonos::nuevo(repo.clone(), Arc::new(LoggerMock));
    for (deuda_id, monto) in [(1, 500.0), (1, 250.5), (2, 100.0)] {
        s.registrar(DatosAbono {
            deuda_id,
            monto: pesos(monto),
            fecha: "2026-08-24".to_string(),
            observacion: String::new(),
        })
        .unwrap();
    }
    assert_eq!(s.total_por_deuda(1).unwrap(), pesos(750.5) as i128);
    assert_eq!(s.total_por_deuda(3).unwrap(), 0);
}

// ── Ajustes ──

struct RepoAjustesMock {
    valores: Mutex<HashMap<String, String>>,
    fallo: bool,
}

impl RepoAjustesMock {
    fn nuevo() -> Self {
        Self { valores: Mutex::new(HashMap::new()), fallo: false }
    }
    fn con_valor(clave: &str, valor: &str) -> Self {
        let repo = Self::nuevo();
        repo.valores.lock().unwrap().insert(clave.to_string(), valor.to_string());
        repo
    }
}

impl ConfiguracionAppRepository for RepoAjustesMock {
    fn obtener(&self, clave: &str) -> Result<Option<String>, ErrorRepositorio> {
        if self.fallo {
            return Err(ErrorRepositorio::Consulta("fallo simulado".to_string()));
        }
        Ok(self.valores.lock().unwrap().get(clave).cloned())
    }
    fn guardar(&self, clave: &str, valor: &str) -> Result<(), ErrorRepositorio> {
        if self.fallo {
            return Err(ErrorRepositorio::Consulta("fallo simulado".to_string()));
        }
        self.valores.lock().unwrap().insert(clave.to_string(), valor.to_string());
        Ok(())
    }
}

fn servicio_ajustes(repo: RepoAjustesMock) -> (ServicioAjustes<RepoAjustesMock, LoggerMock>, Arc<RepoAjustesMock>) {
    let repo = Arc::new(repo);
    (ServicioAjustes::nuevo(repo.clone(), Arc::new(LoggerMock)), repo)
}

#[test]
fn sin_configurar_devuelve_none() {
    let (s, _) = servicio_ajustes(RepoAjustesMock::nuevo());
    assert_eq!(s.monto_mensualidad().unwrap(), None);
}

#[test]
fn guarda_y_recupera_el_monto() {
    let (s, repo) = servicio_ajustes(RepoAjustesMock::nuevo());

    s.fijar_monto_mensualidad(pesos(1500.5)).expect("debería fijar");

    assert_eq!(s.monto_mensualidad().unwrap(), Some(pesos(1500.5)));
    assert_eq!(repo.valores.lock().unwrap().get(CLAVE_MONTO_MENSUALIDAD), Some(&"1500.5".to_string()));
}

#[test]
fn rechaza_montos_invalidos_sin_persistir() {
    let (s, repo) = servicio_ajustes(RepoAjustesMock::nuevo());

    assert!(matches!(s.fijar_monto_mensualidad(pesos(0.0)), Err(ErrorAplicacion::Validacion(_))));
    assert!(s.fijar_monto_mensualidad(pesos(-10.0)).is_err());
    assert!(repo.valores.lock().unwrap().is_empty());
}

#[test]
fn un_valor_almacenado_corrupto_se_reporta_como_no_configurado() {
    let (s, _) = servicio_ajustes(RepoAjustesMock::con_valor(CLAVE_MONTO_MENSUALIDAD, "mucho dinero"));
    assert_eq!(s.monto_mensualidad().unwrap(), None);
}

#[test]
fn el_ajuste_acepta_coma_decimal_y_espacios() {
    let (s, _) = servicio_ajustes(RepoAjustesMock::con_valor(CLAVE_MONTO_MENSUALIDAD, "  1500,25 "));
    assert_eq!(s.monto_mensualidad().unwrap(), Some(pesos(1500.25)));
}

#[test]
fn un_fallo_del_puerto_de_ajustes_se_propaga() {
    let mut repo = RepoAjustesMock::nuevo();
    repo.fallo = true;
    let (s, _) = servicio_ajustes(repo);
    assert!(matches!(s.monto_mensualidad(), Err(ErrorAplicacion::Repositorio(_))));
    assert!(matches!(s.fijar_monto_mensualidad(100), Err(ErrorAplicacion::Repositorio(_))));
}

// ── Deudas ──

struct RepoDeudasMock {
    guardadas: Mutex<Vec<Deuda>>,
    por_periodo: Mutex<Vec<Deuda>>,
    todas: Mutex<Vec<Deuda>>,
}

impl RepoDeudasMock {
    fn nuevo() -> Self {
        Self { guardadas: Mutex::new(Vec::new()), por_periodo: Mutex::new(Vec::new()), todas: Mutex::new(Vec::new()) }
    }
    fn con_existente(deuda: Deuda) -> Self {
        let repo = Self::nuevo();
        repo.por_periodo.lock().unwrap().push(deuda.clone());
        repo.todas.lock().unwrap().push(deuda);
        repo
    }
}

impl DeudaRepository for RepoDeudasMock {
    fn save(&self, d: &Deuda) -> Result<(), ErrorRepositorio> {
        let mut d = d.clone();
        d.id = self.guardadas.lock().unwrap().len() + 1;
        self.guardadas.lock().unwrap().push(d.clone());
        self.todas.lock().unwrap().push(d);
        Ok(())
    }
    fn fetch_por_periodo(&self, _: &str) -> Result<Vec<Deuda>, ErrorRepositorio> {
        Ok(self.por_periodo.lock().unwrap().clone())
    }
    fn fetch_cobrables_por_representante(&self, _: usize) -> Result<Vec<Deuda>, ErrorRepositorio> {
        Ok(Vec::new())
    }
    fn fetch_todos_periodos_por_representante(&self, _: usize) -> Result<Vec<String>, ErrorRepositorio> {
        Ok(Vec::new())
    }
    fn fetch_all(&self) -> Result<Vec<Deuda>, ErrorRepositorio> {
        Ok(self.todas.lock().unwrap().clone())
    }
    fn update_estado(&self, _: usize, _: i64, _: i32) -> Result<(), ErrorRepositorio> {
        Ok(())
    }
    fn delete(&self, _: HashSet<usize>) -> Result<(), ErrorRepositorio> {
        Ok(())
    }
}

fn servicio_deudas(
    repo_deudas: RepoDeudasMock,
    repo_ajustes: RepoAjustesMock,
) -> (ServicioDeudas<RepoDeudasMock, RepoAjustesMock, LoggerMock>, Arc<RepoDeudasMock>) {
    let repo = Arc::new(repo_deudas);
    let abonos = Arc::new(RepoAbonosMock { guardados: Mutex::new(Vec::new()) });
    (ServicioDeudas::nuevo(repo.clone(), Arc::new(repo_ajustes), abonos, Arc::new(LoggerMock)), repo)
}

fn rep(id: usize) -> Representante {
    Representante { id, nombre: format!("Rep {id}"), numero_contacto: "0412-0000000".to_string(), estado_id: 1 }
}

fn alumno_de(id: usize, representante_id: usize) -> Alumno {
    alumno(id, representante_id, 1)
}

#[test]
fn crea_una_deuda_por_representante_con_monto_base_por_alumno() {
    let (s, repo) = servicio_deudas(RepoDeudasMock::nuevo(), RepoAjustesMock::nuevo());
    let reps = vec![rep(1)];
    let alumnos = vec![alumno_de(1, 1), alumno_de(2, 1)];

    let creadas = s.crear_deudas_del_mes("2026-08", pesos(1500.0), "2026-08-10", &reps, &alumnos).unwrap();

    assert_eq!(creadas, 1);
    let guardadas = repo.guardadas.lock().unwrap();
    assert_eq!(guardadas.len(), 1);
    assert_eq!(guardadas[0].representante_id, 1);
    assert_eq!(guardadas[0].monto_total, pesos(3000.0));
    assert_eq!(guardadas[0].monto_pendiente, pesos(3000.0));
    assert_eq!(guardadas[0].estado_id, EstadoDeuda::Pendiente.id());
    assert_eq!(guardadas[0].periodo, "2026-08");
}

#[test]
fn respeta_el_override_de_mensualidad_por_representante() {
    let ajustes = RepoAjustesMock::con_valor("mensualidad_override_1", "5000");
    let (s, repo) = servicio_deudas(RepoDeudasMock::nuevo(), ajustes);
    let reps = vec![rep(1)];
    let alumnos = vec![alumno_de(1, 1), alumno_de(2, 1)];

    s.crear_deudas_del_mes("2026-08", pesos(1500.0), "2026-08-10", &reps, &alumnos).unwrap();

    let guardadas = repo.guardadas.lock().unwrap();
    assert_eq!(guardadas[0].monto_total, pesos(5000.0));
}

#[test]
fn no_crea_deuda_si_no_hay_alumnos_activos() {
    let (s, repo) = servicio_deudas(RepoDeudasMock::nuevo(), RepoAjustesMock::nuevo());
    let reps = vec![rep(1)];
    let alumnos = vec![alumno(1, 1, 2), alumno(2, 1, 3)];
    let creadas = s.crear_deudas_del_mes("2026-08", pesos(1500.0), "2026-08-10", &reps, &alumnos).unwrap();

    assert_eq!(creadas, 0);
    assert!(repo.guardadas.lock().unwrap().is_empty());
}

#[test]
fn no_duplica_deuda_si_el_representante_ya_tiene_una_en_el_periodo() {
    let existente = Deuda {
        id: 99,
        representante_id: 1,
        monto_total: pesos(3000.0),
        monto_pendiente: pesos(3000.0),
        periodo: "2026-08".to_string(),
        fecha_vencimiento: "2026-08-10".to_string(),
        estado_id: EstadoDeuda::Pendiente.id(),
        alumno_id: None,
    };
    let (s, repo) = servicio_deudas(RepoDeudasMock::con_existente(existente), RepoAjustesMock::nuevo());
    let reps = vec![rep(1)];
    let alumnos = vec![alumno_de(1, 1), alumno_de(2, 1)];

    let creadas = s.crear_deudas_del_mes("2026-08", pesos(1500.0), "2026-08-10", &reps, &alumnos).unwrap();

    assert_eq!(creadas, 0);
    assert!(repo.guardadas.lock().unwrap().is_empty());
}

#[test]
fn sin_alumnos_activos_no_genera_deuda() {
    let (s, repo) = servicio_deudas(RepoDeudasMock::nuevo(), RepoAjustesMock::nuevo());
    let rep_sin_alumnos = rep(2);
    let alumnos_del_1 = vec![alumno_de(1, 1)];

    let creadas = s
        .crear_deudas_del_mes("2026-08", pesos(1500.0), "2026-08-10", &[rep_sin_alumnos], &alumnos_del_1)
        .unwrap();
    assert_eq!(creadas, 0);
    assert!(repo.guardadas.lock().unwrap().is_empty());
}

#[test]
fn rechaza_un_monto_base_no_positivo() {
    let (s, _) = servicio_deudas(RepoDeudasMock::nuevo(), RepoAjustesMock::nuevo());
    let reps = vec![rep(1)];
    assert!(s.crear_deudas_del_mes("2026-08", pesos(0.0), "2026-08-10", &reps, &[]).is_err());
    assert!(s.crear_deudas_del_mes("2026-08", pesos(-10.0), "2026-08-10", &reps, &[]).is_err());
}

#[test]
fn un_representante_inactivo_no_recibe_deuda() {
    let (s, repo) = servicio_deudas(RepoDeudasMock::nuevo(), RepoAjustesMock::nuevo());
    let mut inactivo = rep(2);
    inactivo.estado_id = 2;
    let reps = vec![rep(1), inactivo];
    let alumnos = vec![alumno_de(1, 1), alumno_de(2, 2)];

    let creadas = s.crear_deudas_del_mes("2026-08", pesos(1500.0), "2026-08-10", &reps, &alumnos).unwrap();

    assert_eq!(creadas, 1);
    let guardadas = repo.guardadas.lock().unwrap();
    assert_eq!(guardadas.len(), 1);
    assert_eq!(guardadas[0].representante_id, 1);
}

#[test]
fn el_plan_del_mes_da_una_deuda_a_quien_la_recibe() {
    let existente = Deuda {
        id: 9,
        representante_id: 3,
        monto_total: 100,
        monto_pendiente: 100,
        periodo: "2026-08".to_string(),
        fecha_vencimiento: "2026-08-10".to_string(),
        estado_id: EstadoDeuda::Pendiente.id(),
        alumno_id: None,
    };
    let mut inactivo = rep(4);
    inactivo.estado_id = 2;
    let reps = vec![rep(1), rep(2), rep(3), inactivo, rep(5)];
    let alumnos = vec![
        alumno_de(1, 1),
        alumno_de(2, 1),
        alumno_de(3, 2),
        alumno_de(4, 3),
        alumno_de(5, 4),
        alumno(6, 5, 2),
    ];
    let propios = vec![None, Some(7000), None, None, None];

    let plan = planear_deudas_del_mes(&[existente.clone()], &reps, &alumnos, &propios, 1500, "2026-08", "2026-08-10")
        .unwrap();

    assert_eq!(plan.len(), 2);
    assert_eq!(plan[0].representante_id, 1);
    assert_eq!(plan[0].monto_total, 3000);
    assert_eq!(plan[0].monto_pendiente, 3000);
    assert_eq!(plan[1].representante_id, 2);
    assert_eq!(plan[1].monto_total, 7000);
    assert_eq!(plan[1].periodo, "2026-08");
    assert_eq!(plan[1].fecha_vencimiento, "2026-08-10");
    assert_eq!(plan[1].estado_id, EstadoDeuda::Pendiente.id());

    let mut todas = vec![existente];
    todas.extend(plan.iter().cloned());
    let otra_vez = planear_deudas_del_mes(&todas, &reps, &alumnos, &propios, 1500, "2026-08", "2026-08-10").unwrap();
    assert!(otra_vez.is_empty());
}

#[test]
fn el_plan_del_mes_rechaza_base_no_positiva_y_montos_que_no_caben() {
    let reps = vec![rep(1)];
    let alumnos = vec![alumno_de(1, 1), alumno_de(2, 1)];
    match planear_deudas_del_mes(&[], &reps, &alumnos, &[None], 0, "2026-08", "2026-08-10") {
        Err(ErrorAplicacion::Validacion(m)) => assert_eq!(m, "El monto base de mensualidad debe ser mayor a cero."),
        otro => panic!("se esperaba error de validación: {otro:?}"),
    }
    match planear_deudas_del_mes(&[], &reps, &alumnos, &[None], i64::MAX, "2026-08", "2026-08-10") {
        Err(ErrorAplicacion::Validacion(m)) => assert_eq!(m, "La mensualidad calculada excede el monto máximo."),
        otro => panic!("se esperaba error de validación: {otro:?}"),
    }
}

#[test]
fn listar_deudas_del_periodo_resuelve_el_representante() {
    let existente = Deuda {
        id: 99,
        representante_id: 1,
        monto_total: pesos(3000.0),
        monto_pendiente: pesos(1000.0),
        periodo: "2026-08".to_string(),
        fecha_vencimiento: "2026-08-10".to_string(),
        estado_id: EstadoDeuda::Parcial.id(),
        alumno_id: None,
    };
    let (s, _) = servicio_deudas(RepoDeudasMock::con_existente(existente), RepoAjustesMock::nuevo());
    let vistas = s.listar_del_periodo("2026-08", &[rep(1)]).unwrap();
    assert_eq!(vistas.len(), 1);
    assert_eq!(vistas[0].nombre_representante, "Rep 1");
    assert_eq!(vistas[0].telefono_representante, "0412-0000000");
    assert_eq!(vistas[0].estado, EstadoDeuda::Parcial);
    let vistas = s.listar_del_periodo("2026-08", &[]).unwrap();
    assert_eq!(vistas[0].nombre_representante, "ID 1");
}

// ── Historial ──

struct RepoHistorialMock {
    registros: Mutex<Vec<HistorialPago>>,
}

impl HistorialPagoRepository for RepoHistorialMock {
    fn save(&self, r: &HistorialPago) -> Result<(), ErrorRepositorio> {
        self.registros.lock().unwrap().push(r.clone());
        Ok(())
    }
    fn fetch_por_representante(&self, id: usize) -> Result<Vec<HistorialPago>, ErrorRepositorio> {
        Ok(self.registros.lock().unwrap().iter().filter(|r| r.representante_id == id).cloned().collect())
    }
    fn fetch_por_periodo(&self, periodo: &str) -> Result<Vec<HistorialPago>, ErrorRepositorio> {
        Ok(self.registros.lock().unwrap().iter().filter(|r| r.periodo == periodo).cloned().collect())
    }
    fn fetch_all(&self) -> Result<Vec<HistorialPago>, ErrorRepositorio> {
        Ok(self.registros.lock().unwrap().clone())
    }
    fn delete(&self, _: HashSet<usize>) -> Result<(), ErrorRepositorio> {
        Ok(())
    }
}

fn servicio_historial(registros: Vec<HistorialPago>) -> (ServicioHistorialPagos<RepoHistorialMock, LoggerMock>, Arc<RepoHistorialMock>) {
    let repo = Arc::new(RepoHistorialMock { registros: Mutex::new(registros) });
    (ServicioHistorialPagos::nuevo(repo.clone(), Arc::new(LoggerMock)), repo)
}

fn registro(representante_id: usize, tipo_id: i32, monto: f64, periodo: &str) -> HistorialPago {
    HistorialPago {
        id: 0,
        representante_id,
        tipo_id,
        monto: pesos(monto),
        periodo: periodo.to_string(),
        fecha: "2026-08-24".to_string(),
        observacion: String::new(),
    }
}

#[test]
fn registrar_rechaza_monto_no_positivo_sin_persistir() {
    let (s, repo) = servicio_historial(Vec::new());

    let mut datos = DatosHistorialPago {
        representante_id: 1,
        tipo_id: TipoHistorial::PagoRegistrado.id(),
        monto: pesos(0.0),
        periodo: "2026-08".to_string(),
        fecha: "2026-08-24".to_string(),
        observacion: String::new(),
    };
    assert!(matches!(s.registrar(datos.clone()), Err(ErrorAplicacion::Validacion(_))));

    datos.monto = pesos(-5.0);
    assert!(matches!(s.registrar(datos.clone()), Err(ErrorAplicacion::Validacion(_))));

    assert!(repo.registros.lock().unwrap().is_empty());

    datos.monto = pesos(1500.0);
    s.registrar(datos).unwrap();
    assert_eq!(repo.registros.lock().unwrap().len(), 1);
}

#[test]
fn listar_todos_resuelve_el_nombre_del_representante() {
    let (s, _) = servicio_historial(vec![registro(1, TipoHistorial::PagoRegistrado.id(), 1500.0, "2026-08")]);

    let vistas = s.listar_todos(&[rep(1)]).unwrap();
    assert_eq!(vistas.len(), 1);
    assert_eq!(vistas[0].nombre_representante, "Rep 1");
    assert_eq!(vistas[0].historial.monto, pesos(1500.0));

    let vistas = s.listar_todos(&[]).unwrap();
    assert_eq!(vistas[0].nombre_representante, "Desconocido");
}

#[test]
fn listar_por_representante_filtra() {
    let (s, _) = servicio_historial(vec![
        registro(1, TipoHistorial::PagoRegistrado.id(), 1500.0, "2026-08"),
        registro(2, TipoHistorial::DeudaCreada.id(), 3000.0, "2026-08"),
    ]);

    let vistas = s.listar_por_representante(2, &[rep(1), rep(2)]).unwrap();
    assert_eq!(vistas.len(), 1);
    assert_eq!(vistas[0].historial.representante_id, 2);
}

#[test]
fn listar_por_periodo_filtra() {
    let (s, _) = servicio_historial(vec![
        registro(1, TipoHistorial::PagoRegistrado.id(), 1500.0, "2026-08"),
        registro(2, TipoHistorial::DeudaCreada.id(), 3000.0, "2026-07"),
    ]);
    let vistas = s.listar_por_periodo("2026-07", &[rep(1), rep(2)]).unwrap();
    assert_eq!(vistas.len(), 1);
    assert_eq!(vistas[0].nombre_representante, "Rep 2");
}

// ── Representantes ──

struct RepoRepMock {
    representantes: Mutex<Vec<Representante>>,
    guardados: Mutex<Vec<Representante>>,
    eliminados: Mutex<Option<HashSet<usize>>>,
    fallo_listado: bool,
}

impl RepoRepMock {
    fn nuevo() -> Self {
        Self {
            representantes: Mutex::new(Vec::new()),
            guardados: Mutex::new(Vec::new()),
            eliminados: Mutex::new(None),
            fallo_listado: false,
        }
    }
}

impl RepresentanteRepository for RepoRepMock {
    fn save(&self, r: &Representante) -> Result<(), ErrorRepositorio> {
        self.guardados.lock().unwrap().push(r.clone());
        Ok(())
    }
    fn fetch_all(&self) -> Result<Vec<Representante>, ErrorRepositorio> {
        if self.fallo_listado {
            return Err(ErrorRepositorio::Consulta("fallo simulado".to_string()));
        }
        Ok(self.representantes.lock().unwrap().clone())
    }
    fn update(&self, r: &Representante) -> Result<(), ErrorRepositorio> {
        let mut lista = self.representantes.lock().unwrap();
        match lista.iter_mut().find(|x| x.id == r.id) {
            Some(slot) => *slot = r.clone(),
            None => lista.push(r.clone()),
        }
        Ok(())
    }
    fn delete(&self, ids: HashSet<usize>) -> Result<(), ErrorRepositorio> {
        *self.eliminados.lock().unwrap() = Some(ids);
        Ok(())
    }
    fn desactivar(&self, _: HashSet<usize>) -> Result<(), ErrorRepositorio> {
        Ok(())
    }
    fn activar(&self, _: HashSet<usize>) -> Result<(), ErrorRepositorio> {
        Ok(())
    }
}

fn servicio_reps(repo: RepoRepMock) -> (ServicioRepresentantes<RepoRepMock, LoggerMock>, Arc<RepoRepMock>) {
    let repo = Arc::new(repo);
    (ServicioRepresentantes::nuevo(repo.clone(), Arc::new(LoggerMock)), repo)
}

fn datos_rep() -> DatosRepresentante {
    DatosRepresentante { nombre: "Pedro Pérez".to_string(), numero_contacto: "0412-0000000".to_string() }
}

#[test]
fn agrega_validando_el_formato() {
    let (servicio, repo) = servicio_reps(RepoRepMock::nuevo());

    servicio.agregar(datos_rep()).expect("debería agregar");

    assert_eq!(repo.guardados.lock().unwrap().len(), 1);

    let mut malo = datos_rep();
    malo.numero_contacto = "0412-00".to_string();
    assert!(servicio.agregar(malo).is_err());
    assert_eq!(repo.guardados.lock().unwrap().len(), 1);
}

#[test]
fn listar_traduce_errores_del_puerto() {
    let mut repo = RepoRepMock::nuevo();
    repo.fallo_listado = true;
    let (servicio, _) = servicio_reps(repo);
    assert!(matches!(servicio.obtener_todos(), Err(ErrorAplicacion::Repositorio(_))));
}

#[test]
fn eliminar_sin_ids_es_noop() {
    let (servicio, repo) = servicio_reps(RepoRepMock::nuevo());
    servicio.eliminar(HashSet::new()).unwrap();
    assert!(repo.eliminados.lock().unwrap().is_none());
}

#[test]
fn actualizar_representante_conserva_el_id() {
    let (servicio, repo) = servicio_reps(RepoRepMock::nuevo());
    servicio.actualizar(4, datos_rep()).unwrap();
    let lista = repo.representantes.lock().unwrap();
    assert_eq!(lista[0].id, 4);
    assert_eq!(lista[0].nombre, "Pedro Pérez");
}

#[test]
fn los_errores_se_describen_en_texto() {
    let e = ErrorAplicacion::Repositorio(ErrorRepositorio::Consulta("x".to_string()));
    assert_eq!(e.descripcion(), "persistencia: error de consulta: x");
    let e = ErrorAplicacion::Validacion("dato".to_string());
    assert_eq!(e.descripcion(), "validación: dato");
}

#[test]
fn la_mensualidad_configurada_se_interpreta_de_lo_leido() {
    assert_eq!(mensualidad_configurada(Ok(None)).unwrap(), None);
    assert_eq!(mensualidad_configurada(Ok(Some(" 1500,5 ".to_string()))).unwrap(), Some(pesos(1500.5)));
    assert_eq!(mensualidad_configurada(Ok(Some("-3".to_string()))).unwrap(), None);
    assert_eq!(mensualidad_configurada(Ok(Some("0".to_string()))).unwrap(), None);
    assert!(matches!(
        mensualidad_configurada(Err(ErrorRepositorio::Consulta("x".to_string()))),
        Err(ErrorAplicacion::Repositorio(_))
    ));
}

#[test]
fn el_monto_propio_se_interpreta_de_lo_leido() {
    assert_eq!(monto_propio_leido(Ok(Some("5000".to_string()))), Some(pesos(5000.0)));
    assert_eq!(monto_propio_leido(Ok(Some("0".to_string()))), None);
    assert_eq!(monto_propio_leido(Ok(Some("abc".to_string()))), None);
    assert_eq!(monto_propio_leido(Ok(None)), None);
    assert_eq!(monto_propio_leido(Err(ErrorRepositorio::Conexion("x".to_string()))), None);
}

#[test]
fn los_registros_de_alumnos_y_representantes_se_construyen_activos() {
    let mut datos = datos_alumno_ok();
    datos.rango = -1;
    datos.rallita = true;
    let nuevo = construir_alumno_nuevo(datos.clone());
    assert_eq!((nuevo.id, nuevo.estado_id, nuevo.rallita, nuevo.rango), (0, 1, false, -1));
    let editado = construir_alumno_editado(4, datos);
    assert_eq!((editado.id, editado.estado_id, editado.rallita), (4, 1, false));
    let rep = construir_representante(
        3,
        DatosRepresentante { nombre: "Ana".to_string(), numero_contacto: "0412".to_string() },
    );
    assert_eq!((rep.id, rep.estado_id), (3, 1));
    assert_eq!(rep.nombre, "Ana");
}

#[test]
fn el_monto_se_guarda_como_texto_corto() {
    let (s, repo) = servicio_ajustes(RepoAjustesMock::nuevo());
    for (monto, texto) in [(pesos(1500.0), "1500"), (pesos(1500.05), "1500.05"), (pesos(0.5), "0.5"), (pesos(1500.55), "1500.55")] {
        s.fijar_monto_mensualidad(monto).expect("debería fijar");
        assert_eq!(repo.valores.lock().unwrap().get(CLAVE_MONTO_MENSUALIDAD), Some(&texto.to_string()));
        assert_eq!(s.monto_mensualidad().unwrap(), Some(monto));
    }
}
