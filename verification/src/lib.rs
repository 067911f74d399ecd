//! Verified core of the H# toolchain: call-graph reachability, expression type
//! inference, `.hlib` export summaries and the decisions of the `h#` command line.

pub mod archive_laws;
pub mod ast;
pub mod call_laws;
pub mod calls;
pub mod checker;
pub mod cli;
pub mod command_laws;
pub mod console;
pub mod export;
pub mod export_laws;
pub mod hlib;
pub mod hlib_cmd;
pub mod htype;
pub mod infer;
pub mod inference_laws;
pub mod names;
pub mod reachability;
pub mod runtime;
pub mod session_laws;
pub mod text;
pub mod text_laws;
pub mod typing_laws;
