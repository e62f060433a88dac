pub mod ast;
pub mod cli;
pub mod cst;
pub mod decls;
pub mod errors;
pub mod eval;
pub mod info;
pub mod matrix;
pub mod nf;
pub mod outside;
pub mod parse;
pub mod printer;
pub mod span;
pub mod strings;
pub mod val;
pub mod xfunc;
