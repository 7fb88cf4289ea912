//! Trait declarations and their implementations.

use super::functions::Function;
use super::types::Type;
use super::variables::Variable;
use vstd::prelude::*;

verus! {

/// A declared trait.
#[derive(Debug)]
pub struct Trait {
    pub public: bool,
    pub name: String,
    pub functions: Vec<Function>,
    pub variables: Vec<Variable>,
}

/// An implementation of a trait for a class.
#[derive(Debug)]
pub struct TraitImpl {
    pub trait_type: Type,
    pub class_type: Type,
    pub functions: Vec<Function>,
    pub variables: Vec<Variable>,
}

} // verus!
