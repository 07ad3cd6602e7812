//! Why a compilation stops.

use vstd::prelude::*;

use crate::ident::Ident;

verus! {

/// Which handler of a contract.
#[derive(Clone, Copy, Debug, PartialEq, Eq, Structural)]
pub enum Site {
    /// The initializer.
    OnDeploy,
    /// The message at this position of the declaration.
    Message(usize),
}

/// A handler does not begin with a self-reference.
#[derive(Debug)]
pub struct MalformedHandlerError {
    /// Where the handler stands.
    pub site: Site,
    /// The name of the handler.
    pub name: Ident,
}

/// The name of a message, put in capitalized-word casing, is no identifier,
/// so the message cannot be entered in the registry.
#[derive(Debug)]
pub struct RegistryNameError {
    /// The position of the message.
    pub index: usize,
    /// The name of the message.
    pub name: Ident,
}

/// The names of two messages, put in capitalized-word casing, are equal, so
/// the registry would hold one name twice.
#[derive(Debug)]
pub struct RegistryCollisionError {
    /// The position of the earlier message.
    pub first: usize,
    /// The position of the later message.
    pub second: usize,
    /// The name of the later message.
    pub name: Ident,
}

/// Why a contract has no registry.
#[derive(Debug)]
pub enum RegistryError {
    /// A message has no registry name.
    Name(RegistryNameError),
    /// Two messages have the same registry name.
    Collision(RegistryCollisionError),
}

impl RegistryError {
    /// The name that the error carries: that of the message it tells of.
    pub open spec fn named(&self) -> Ident {
        match self {
            RegistryError::Name(error) => error.name,
            RegistryError::Collision(error) => error.name,
        }
    }

    /// The name of the message that the error tells of: the one without a
    /// registry name, or the later of the two that collide.
    pub fn name(&self) -> (name: &Ident)
        ensures
            *name == self.named(),
    {
        match self {
            RegistryError::Name(error) => &error.name,
            RegistryError::Collision(error) => &error.name,
        }
    }
}

/// Why a declaration was not compiled.
#[derive(Debug)]
pub enum Error {
    /// Lowering found a handler without a leading self-reference.
    MalformedHandler(MalformedHandlerError),
    /// Emission found that the messages cannot be entered in the registry.
    Registry(RegistryError),
}

impl Error {
    /// The name that the error carries: that of the handler it tells of.
    pub open spec fn named(&self) -> Ident {
        match self {
            Error::MalformedHandler(error) => error.name,
            Error::Registry(error) => error.named(),
        }
    }

    /// The name of the handler that the error tells of.
    pub fn name(&self) -> (name: &Ident)
        ensures
            *name == self.named(),
    {
        match self {
            Error::MalformedHandler(error) => &error.name,
            Error::Registry(error) => error.name(),
        }
    }
}

} // verus!
