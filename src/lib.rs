//! Supervisor for the MiniCars desktop backend: finds the backend's source
//! tree, picks an interpreter, describes the launch, polls readiness and
//! drives a clean shutdown. Every decision is a verified function of plain
//! values; the caller performs the I/O that each decision asks for.

pub mod path;
pub mod error;
pub mod resolver;
pub mod interpreter;
pub mod launch;
pub mod health;
pub mod supervisor;
