//! Arithmetic drill generator: a validated configuration, randomly drawn
//! equations with exactly one blank, and answer checking.
pub mod equation;
pub mod random;
pub mod settings;
pub mod sign;
pub mod text;

pub use equation::{Blank, Equation};
pub use settings::Settings;
pub use sign::MathSign;
