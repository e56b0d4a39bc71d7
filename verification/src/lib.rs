//! Control logic for a single-car elevator: a finite-state controller that
//! advances one discrete step at a time, driven by external requests.

pub mod laws;
pub mod machine;
