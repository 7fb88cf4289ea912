//! Class and object declarations.

use super::functions::Function;
use super::traits::TraitImpl;
use super::variables::Variable;
use vstd::prelude::*;

verus! {

/// A declared class.
#[derive(Debug)]
pub struct Class {
    pub name: String,
    pub children: Vec<Variable>,
    pub global_variables: Vec<Variable>,
    pub local_variables: Vec<Variable>,
    pub functions: Vec<Function>,
    pub trait_impls: Vec<TraitImpl>,
}

/// A declared object.
#[derive(Debug)]
pub struct Object {
    pub name: String,
    pub variables: Vec<Variable>,
}

} // verus!
