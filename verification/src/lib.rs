//! A small numeric library: a generic arithmetic capability for coefficient
//! types, complex numbers, dense polynomials, a recursive Cooley-Tukey fast
//! Fourier transform, together with a few container and sorting exercises.
pub mod misc;
pub mod num;
pub mod complex;
pub mod poly;
pub mod fft;
pub mod sorting;
pub mod insertion;
pub mod merge;
pub mod search;
pub mod single;
pub mod queue;
pub mod double;
pub mod persistent;
