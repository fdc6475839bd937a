# BudoDB

Biblioteca de gestión de una escuela de artes marciales: alumnos y sus
grados (cintas), representantes que pagan las mensualidades, deudas
mensuales, pagos repartidos por orden de antigüedad (FIFO) con adelantos a
meses futuros, abonos e historial de movimientos.

- `src/domain`: entidades y reglas puras (cintas, grados, edades, montos en
  centavos, fechas, etiquetas de periodo).
- `src/application`: validaciones, casos de uso sobre puertos de
  persistencia y el motor de aplicación de pagos (`motor_fifo`), con sus
  leyes: el reparto conserva el dinero, solo la última deuda tocada queda
  parcial, los adelantos no repiten periodos y reversar restaura los saldos.
  Las deudas del mes y cada pago se planean primero con funciones puras
  sobre lo leído (`planear_deudas_del_mes`, `planear_pago`) y después se
  guardan; el plan del mes da una sola deuda por representante y periodo.
- `src/presentation`: selección de filas, búsqueda, filtros y cifras del
  panel.
- `src/models`: ficha de alumno con el representante como texto libre.
- `app/`: programa de consola con el adaptador SQLite, el registro en consola
  y la configuración por variables de entorno.

Los montos se manejan en centavos (`i64`); la base SQLite los guarda como
números reales.
