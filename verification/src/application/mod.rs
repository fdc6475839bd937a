//! Capa de aplicación: casos de uso, validaciones y puertos hacia el exterior.

pub mod error;
pub mod ports;
pub mod dto;
pub mod validation;
pub mod service;
pub mod service_abonos;
pub mod service_representantes;
pub mod service_ajustes;
pub mod service_historial;
pub mod service_deudas;
pub mod motor_fifo;
pub mod service_pagos;
