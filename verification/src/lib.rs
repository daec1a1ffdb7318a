pub mod boundary;
pub mod fib;
pub mod handoff;

pub use boundary::{fib_seq_results, fib_threaded, fib_threaded_results};
pub use fib::{fib_fits, fib_many, fib_slow};
pub use handoff::{drop_vec, VectorU32};
