use vstd::prelude::*;

pub mod classify;
pub mod laws;
pub mod model;
pub mod scan;
pub mod text;

pub use classify::{parse_apt_output, parse_apt_simulation};
pub use model::{PackageUpdate, Simulation, Summary};
