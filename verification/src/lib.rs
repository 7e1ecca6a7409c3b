//! A model of a binding layer between manually reference-counted native
//! object handles and automatic lifetime management on the host side.
//!
//! Every module mirrors one native class or C surface: object factories
//! return an absence value on documented-invalid inputs, boolean-returning
//! operations carry an error out-parameter, range mutations outside a
//! container's bounds surface as caught failures, and asynchronous
//! completions resolve a single-assignment future exactly once.

pub mod arc;
pub mod at;
pub mod av;
pub mod blocks;
pub mod cf;
pub mod ci;
pub mod cg;
pub mod cm;
pub mod cv;
pub mod dispatch;
pub mod io;
pub mod mlc;
pub mod mtl;
pub mod ns;
pub mod sc;
