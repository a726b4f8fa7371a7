//! Small non-cryptographic pseudo-random bit generators.
//!
//! Each engine expands a fixed-size seed into a reproducible stream of words
//! and bytes. Every state transition and output function is stated as a spec
//! function, and the executable code is proved to compute exactly that.

pub mod bits;
pub mod generator;
pub mod words;
pub mod msws;
pub mod pcg;
pub mod xsm;

pub use generator::{BitGenerator, Call};
pub use msws::MswsRng;
pub use pcg::{MwpRng, PcgXsh64LcgRng, PcgXsl128McgRng, PcgXsl64LcgRng};
pub use xsm::{Xsm32Rng, Xsm64Rng};

