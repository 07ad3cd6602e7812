//! A small compiler for declarative smart-contract descriptions.
//!
//! A contract is declared as a piece of persistent state, one initializer and
//! a list of callable messages. Compiling it is a straight line:
//!
//! 1. the declaration ([`ast::Contract`]) is *lowered* into a validated
//!    contract ([`hir::Contract`]), in which every handler is known to start
//!    with a self-reference;
//! 2. the contract is *emitted* as five token fragments in a fixed order: the
//!    state declaration, the message registry, the method implementations,
//!    the wiring function and the two entry points. Each message is entered
//!    in the registry under its position and under its name in
//!    capitalized-word casing, which no other message may share.
//!
//! The contracts are stated over the token sequence that a stream holds
//! ([`tokens::stream_tokens`]). The shape of each fragment is spelled out in
//! [`fragments`], and what holds of the compiler as a whole in [`laws`].
//!
//! Tokens are built by `proc_macro2` and `syn`, names are cased by `heck`.
//! Each call into them is declared once, in [`tokens`] or in [`ident`], with
//! what is believed of it; everything else is proved.

use proc_macro2::TokenStream;
use vstd::prelude::*;

pub mod ast;
pub mod emit;
pub mod error;
pub mod fragments;
pub mod hir;
pub mod ident;
pub mod laws;
pub mod tokens;

use crate::error::{Error, RegistryError};
use crate::fragments::{
    all_distinct, all_named, cased_names, first_collision, first_unnamed, program,
};
use crate::hir::{all_well_formed, first_malformed, ident_at, lowered, name_at};
use crate::ident::Ident;
use crate::tokens::{stream_tokens, Token};

verus! {

/// Whether a declaration compiles: every handler begins with a
/// self-reference, every message has a registry name, and no two messages
/// have the same.
pub open spec fn compiles(declaration: ast::ContractView) -> bool {
    &&& all_well_formed(declaration)
    &&& all_named(lowered(declaration))
    &&& all_distinct(cased_names(lowered(declaration)))
}

/// The tokens that a declaration compiles to.
pub open spec fn compiled(declaration: ast::ContractView) -> Seq<Token> {
    program(lowered(declaration), cased_names(lowered(declaration)))
}

/// Whether `result` is how compiling a declaration ends: with the tokens
/// that it compiles to; or with the first handler that does not begin with a
/// self-reference; or, every handler beginning with one, with the first
/// message that has no registry name; or, every message having one, with the
/// first two messages whose registry names collide.
pub open spec fn is_outcome(
    declaration: ast::ContractView,
    result: Result<TokenStream, Error>,
) -> bool {
    match result {
        Ok(tokens) => {
            &&& compiles(declaration)
            &&& stream_tokens(tokens) == compiled(declaration)
        },
        Err(Error::MalformedHandler(error)) => {
            &&& first_malformed(declaration, error.site)
            &&& error.name@ == name_at(declaration, error.site)
        },
        Err(Error::Registry(RegistryError::Name(error))) => {
            &&& all_well_formed(declaration)
            &&& first_unnamed(lowered(declaration), error.index as int)
            &&& error.name@ == lowered(declaration).messages[error.index as int].name
        },
        Err(Error::Registry(RegistryError::Collision(error))) => {
            &&& all_well_formed(declaration)
            &&& all_named(lowered(declaration))
            &&& first_collision(
                cased_names(lowered(declaration)),
                error.first as int,
                error.second as int,
            )
            &&& error.name@ == lowered(declaration).messages[error.second as int].name
        },
    }
}

/// The name of the handler that an error tells of, as it was written in the
/// declaration.
pub open spec fn offender(declaration: ast::Contract, error: Error) -> Ident {
    match error {
        Error::MalformedHandler(error) => ident_at(declaration, error.site),
        Error::Registry(RegistryError::Name(error)) => {
            declaration.messages@[error.index as int].name
        },
        Error::Registry(RegistryError::Collision(error)) => {
            declaration.messages@[error.second as int].name
        },
    }
}

/// Compiles a declaration: lowers it, and emits the five fragments of the
/// validated contract.
///
/// It fails, without output, at the first violation: a handler that does not
/// begin with a self-reference, the initializer coming before the messages;
/// or else a message whose name in capitalized-word casing is no identifier;
/// or else two messages whose names in that casing are equal. The error
/// carries the name of the offending handler as it was written.
pub fn compile(declaration: &ast::Contract) -> (result: Result<TokenStream, Error>)
    ensures
        result is Ok <==> compiles(declaration@),
        is_outcome(declaration@, result),
        result matches Err(error) ==> error.named() == offender(*declaration, error),
{
    let contract = match hir::lower(declaration) {
        Ok(contract) => contract,
        Err(error) => {
            return Err(Error::MalformedHandler(error));
        },
    };
    match emit::codegen(&contract) {
        Ok(tokens) => Ok(tokens),
        Err(error) => Err(Error::Registry(error)),
    }
}

} // verus!
