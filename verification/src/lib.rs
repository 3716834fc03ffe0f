//! An HTML tokenizer: the character-driven state machine of the HTML living
//! standard, with its character-reference resolution, stated as a
//! mathematical model and implemented against it.
//!
//! [`tokenizer::tokenize`] turns a text into its tokens. [`parser::Parser`]
//! is the same machine driven step by step, for a caller that builds a tree
//! while the text is read and reports its current node back.
//!
//! The model is [`model::Machine`]; [`step::step`] is one step of it,
//! [`run::run`] a whole run, and [`run::tokens_of`] the tokens of an input.
//! The modules under [`states`] hold one family of lexical states each: what
//! each state does, as a function of the model, and the code that does it.
//! [`laws`], [`roundtrip`] and [`reading`] state what holds of every run.

pub mod chars;
pub mod cursor;
pub mod entities;
pub mod fragment;
pub mod invariants;
pub mod laws;
pub mod lexer;
pub mod model;
pub mod parser;
pub mod reading;
pub mod reference;
pub mod roundtrip;
pub mod run;
pub mod scraper;
pub mod states;
pub mod step;
pub mod tokenizer;
