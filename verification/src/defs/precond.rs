//! Preconditions attached to checked functions.

use super::path::Path;
use super::types::{Type, TypeView};
use vstd::prelude::*;

verus! {

/// A precondition of a checked function: the function it is associated
/// with, and whether that function is a method.
#[derive(Debug)]
pub struct Precondition {
    /// Fully-qualified name of the associated function.
    pub name: Path,
    /// The owning type of the associated function, if it has one.
    pub impl_type: Option<Type>,
    /// The associated function takes a receiver.
    pub is_method: bool,
}

/// The mathematical value of a [`Precondition`].
pub struct PreconditionView {
    pub name: Seq<Seq<char>>,
    pub impl_type: Option<TypeView>,
    pub is_method: bool,
}

impl PreconditionView {
    /// The local identifier: the last segment of the name, empty where the
    /// name has no segment.
    pub open spec fn ident(self) -> Seq<char> {
        if self.name.len() == 0 {
            Seq::empty()
        } else {
            self.name.last()
        }
    }
}

impl View for Precondition {
    type V = PreconditionView;

    open spec fn view(&self) -> PreconditionView {
        PreconditionView {
            name: self.name@,
            impl_type: crate::model::view_of(self.impl_type),
            is_method: self.is_method,
        }
    }
}

impl Clone for Precondition {
    fn clone(&self) -> (out: Precondition)
        ensures
            out@ == self@,
    {
        let impl_type = match &self.impl_type {
            Some(ty) => Some(ty.clone()),
            None => None,
        };
        Precondition { name: self.name.clone(), impl_type, is_method: self.is_method }
    }
}

impl Precondition {
    /// A precondition from its parts.
    pub fn new(name: Path, impl_type: Option<Type>, is_method: bool) -> (out: Precondition)
        ensures
            out.name == name,
            out.impl_type == impl_type,
            out.is_method == is_method,
    {
        Precondition { name, impl_type, is_method }
    }

    /// Get the local identifier of the associated function.
    pub fn ident(&self) -> (out: String)
        ensures
            out@ == self@.ident(),
    {
        if self.name.0.len() == 0 {
            String::new()
        } else {
            self.name.0[self.name.0.len() - 1].clone()
        }
    }
}

} // verus!
