//! Variable declarations.

use super::types::Type;
use vstd::prelude::*;

verus! {

/// A declared variable.
#[derive(Debug)]
pub struct Variable {
    pub public: bool,
    pub mutable: bool,
    pub global: bool,
    pub name: String,
    pub ty: Type,
}

} // verus!
