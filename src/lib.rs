//! The object model of a small dynamically typed language: classes with
//! single inheritance, methods bound to an instance, and construction with an
//! optional initializer.
pub mod callable;
pub mod class;
pub mod function;
pub mod interpreter;
pub mod table;
pub mod value;
