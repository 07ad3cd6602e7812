//! The declaration model: a contract as it was written, not yet validated.
//!
//! What the compiler never looks into (attributes, patterns, types, field
//! lists, bodies) is held as token streams and copied through.

use proc_macro2::TokenStream;
use vstd::prelude::*;

use crate::ident::Ident;
use crate::tokens::{clone_streams, stream_clone, stream_tokens, streams_view, Token};

verus! {

/// A parameter that binds a value: a pattern and its type.
#[derive(Debug)]
pub struct ArgCaptured {
    /// The pattern, such as `amount`.
    pub pat: TokenStream,
    /// The type, such as `u32`.
    pub ty: TokenStream,
}

/// What an [`ArgCaptured`] holds.
pub struct ArgCapturedView {
    pub pat: Seq<Token>,
    pub ty: Seq<Token>,
}

impl View for ArgCaptured {
    type V = ArgCapturedView;

    open spec fn view(&self) -> ArgCapturedView {
        ArgCapturedView { pat: stream_tokens(self.pat), ty: stream_tokens(self.ty) }
    }
}

impl Clone for ArgCaptured {
    fn clone(&self) -> (copy: Self)
        ensures
            copy@ == self@,
    {
        ArgCaptured { pat: stream_clone(&self.pat), ty: stream_clone(&self.ty) }
    }
}

/// One parameter of a handler.
#[derive(Debug)]
pub enum FnArg {
    /// The shared self-reference `&self`.
    SelfShared {
        /// The lifetime of the reference, such as `'a`, or nothing.
        lifetime: TokenStream,
    },
    /// The exclusive self-reference `&mut self`.
    SelfExclusive {
        /// The lifetime of the reference, such as `'a`, or nothing.
        lifetime: TokenStream,
    },
    /// A parameter that binds a value.
    Captured(ArgCaptured),
}

/// What an [`FnArg`] holds.
pub enum FnArgView {
    SelfShared { lifetime: Seq<Token> },
    SelfExclusive { lifetime: Seq<Token> },
    Captured(ArgCapturedView),
}

impl View for FnArg {
    type V = FnArgView;

    open spec fn view(&self) -> FnArgView {
        match self {
            FnArg::SelfShared { lifetime } => FnArgView::SelfShared {
                lifetime: stream_tokens(*lifetime),
            },
            FnArg::SelfExclusive { lifetime } => FnArgView::SelfExclusive {
                lifetime: stream_tokens(*lifetime),
            },
            FnArg::Captured(captured) => FnArgView::Captured(captured@),
        }
    }
}

impl Clone for FnArg {
    fn clone(&self) -> (copy: Self)
        ensures
            copy@ == self@,
    {
        match self {
            FnArg::SelfShared { lifetime } => FnArg::SelfShared { lifetime: stream_clone(lifetime) },
            FnArg::SelfExclusive { lifetime } => FnArg::SelfExclusive {
                lifetime: stream_clone(lifetime),
            },
            FnArg::Captured(captured) => FnArg::Captured(captured.clone()),
        }
    }
}

/// What a list of parameters holds.
pub open spec fn args_view(args: Seq<FnArg>) -> Seq<FnArgView> {
    Seq::new(args.len(), |i: int| args[i]@)
}

/// A copy of the parameters from position `from` on.
pub(crate) fn clone_args(args: &Vec<FnArg>, from: usize) -> (copy: Vec<FnArg>)
    requires
        from <= args.len(),
    ensures
        args_view(copy@) == args_view(args@).subrange(from as int, args.len() as int),
{
    let mut copy: Vec<FnArg> = Vec::new();
    let mut i: usize = from;
    while i < args.len()
        invariant
            from <= i <= args.len(),
            copy@.len() == i - from,
            forall|j: int| 0 <= j < copy@.len() ==> copy@[j]@ == args@[from + j]@,
        decreases args.len() - i,
    {
        copy.push(args[i].clone());
        i += 1;
    }
    copy
}

/// A handler as it was written: the initializer or a message.
#[derive(Debug)]
pub struct Handler {
    /// The attributes, each with its `#` and brackets.
    pub attrs: Vec<TokenStream>,
    /// The name.
    pub name: Ident,
    /// The parameters, in order.
    pub inputs: Vec<FnArg>,
    /// The return type with its arrow, or nothing.
    pub output: TokenStream,
    /// The body, with its braces.
    pub body: TokenStream,
}

/// What a [`Handler`] holds.
pub struct HandlerView {
    pub attrs: Seq<Seq<Token>>,
    pub name: Seq<char>,
    pub inputs: Seq<FnArgView>,
    pub output: Seq<Token>,
    pub body: Seq<Token>,
}

impl View for Handler {
    type V = HandlerView;

    open spec fn view(&self) -> HandlerView {
        HandlerView {
            attrs: streams_view(self.attrs@),
            name: self.name@,
            inputs: args_view(self.inputs@),
            output: stream_tokens(self.output),
            body: stream_tokens(self.body),
        }
    }
}

/// The persistent state of a contract.
#[derive(Debug)]
pub struct State {
    /// The attributes, each with its `#` and brackets.
    pub attrs: Vec<TokenStream>,
    /// The field list, with its braces.
    pub fields: TokenStream,
}

/// What a [`State`] holds.
pub struct StateView {
    pub attrs: Seq<Seq<Token>>,
    pub fields: Seq<Token>,
}

impl View for State {
    type V = StateView;

    open spec fn view(&self) -> StateView {
        StateView { attrs: streams_view(self.attrs@), fields: stream_tokens(self.fields) }
    }
}

impl Clone for State {
    fn clone(&self) -> (copy: Self)
        ensures
            copy@ == self@,
    {
        State { attrs: clone_streams(&self.attrs), fields: stream_clone(&self.fields) }
    }
}

/// What a list of handlers holds.
pub open spec fn handlers_view(handlers: Seq<Handler>) -> Seq<HandlerView> {
    Seq::new(handlers.len(), |i: int| handlers[i]@)
}

/// A contract as it was written.
#[derive(Debug)]
pub struct Contract {
    /// The name of the state type.
    pub name: Ident,
    /// The state.
    pub state: State,
    /// The initializer.
    pub on_deploy: Handler,
    /// The messages, in the order of their declaration.
    pub messages: Vec<Handler>,
}

/// What a [`Contract`] holds.
pub struct ContractView {
    pub name: Seq<char>,
    pub state: StateView,
    pub on_deploy: HandlerView,
    pub messages: Seq<HandlerView>,
}

impl View for Contract {
    type V = ContractView;

    open spec fn view(&self) -> ContractView {
        ContractView {
            name: self.name@,
            state: self.state@,
            on_deploy: self.on_deploy@,
            messages: handlers_view(self.messages@),
        }
    }
}

} // verus!
