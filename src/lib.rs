//! Shared-resource reservation engine of a hospital simulation: capacity-bounded
//! pools of doctors, surgery rooms, beds and exam equipment, the acquire/release
//! protocol that patient workflows run against them, the usage ledger, and the
//! deadlock detection and preemption pass.

pub mod nomes;
pub mod pool;
pub mod recursos;
pub mod leis;
pub mod paciente;
pub mod estatisticas;
pub mod hospital;
pub mod monitor;
