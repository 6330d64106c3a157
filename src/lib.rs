//! Steady-state heat conduction in a rectangular solid by Jacobi relaxation.
//!
//! The grid has `n` nodes along each axis. Every node belongs to one of 27
//! classes (`grid`): the interior, six faces, twelve edges and eight corners.
//! Each class has an update rule (`classes`, dispatched by `setup`): a
//! Dirichlet face fixes the temperature, otherwise the new temperature follows
//! from an energy balance over the node's control volume (`formula`), whose
//! weights this library computes exactly and whose arithmetic the caller
//! supplies for its number type. `sweep` computes a new field from the
//! previous one only; `solver` keeps the state of a run between sweeps, and
//! `norm` measures the change between two fields.

pub mod classes;
pub mod conditions;
pub mod formula;
pub mod grid;
pub mod norm;
pub mod setup;
pub mod solver;
pub mod sweep;
