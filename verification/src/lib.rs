//! Demagnetizing-tensor kernel support: the integer geometry of the
//! Newell finite-difference stencil (index wrapping, corner enumeration,
//! corner signs, the component table, and tensor-shape validation).

pub mod assembly;
pub mod bits;
pub mod grid;
pub mod plan;
pub mod stencil;
