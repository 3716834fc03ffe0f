//! The transitions of the tokenizer, one family of states per module: each
//! state as a function of the model, and the code that carries it out.

pub mod attribute;
pub mod cdata;
pub mod comment;
pub mod doctype;
pub mod raw;
pub mod reference;
pub mod script;
pub mod tag;
pub mod text;
