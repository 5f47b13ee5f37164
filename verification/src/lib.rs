//! A toolchain for a small, statically typed, stack-oriented language.
//!
//! A program is a sequence of operations on an operand stack. The text of a program
//! is lexed and parsed into operations. The type checker infers a stack effect for
//! every operation and unifies the type variables of generic operations. The lowerer
//! turns the typed operations into bytecode, which the stack machine executes and
//! the emitter writes as assembly. An evaluator walks the parsed operations directly.
//!
//! Each stage comes with a mathematical model that its contracts are stated over:
//! the functions of the stage are proved to compute what the model says.

pub mod bytecode;
pub mod bytecode_interpreter;
pub mod checker_laws;
pub mod checker_model;
pub mod diagnostic;
pub mod driver;
pub mod emitter;
pub mod erasure;
pub mod erasure_laws;
pub mod evaluation_model;
pub mod flat_code;
pub mod flat_programs;
pub mod interpreter;
pub mod lexer;
pub mod lexer_laws;
pub mod lexer_model;
pub mod lowerer;
pub mod lowering_laws;
pub mod lowering_model;
pub mod machine_laws;
pub mod machine_model;
pub mod ops;
pub mod parser;
pub mod parser_laws;
pub mod parser_model;
pub mod scope_laws;
pub mod session;
pub mod span;
pub mod straight_line;
pub mod text;
pub mod typechecker;
pub mod typed_op;
pub mod types;
