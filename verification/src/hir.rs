//! The intermediate form of a contract, and the lowering that produces it.
//!
//! In the intermediate form every handler has its self-reference apart from
//! its other parameters, so the emitter never meets a handler without one.
//! Lowering is the one place where a declaration is rejected.

use proc_macro2::TokenStream;
use vstd::prelude::*;

use crate::ast;
use crate::ast::{args_view, clone_args, FnArg, FnArgView, HandlerView, State, StateView};
use crate::error::{MalformedHandlerError, Site};
use crate::ident::Ident;
use crate::tokens::{clone_streams, stream_clone, stream_tokens, streams_view, Token};

verus! {

/// The self-reference that a handler begins with.
#[derive(Clone, Copy, Debug, PartialEq, Eq, Structural)]
pub enum Receiver {
    /// `&self`: the handler reads the state.
    Shared,
    /// `&mut self`: the handler may change the state.
    Exclusive,
}

/// A validated handler: the initializer or a message.
#[derive(Debug)]
pub struct Message {
    /// The attributes, each with its `#` and brackets.
    pub attrs: Vec<TokenStream>,
    /// The name.
    pub name: Ident,
    /// The self-reference that the handler was declared with.
    pub receiver: Receiver,
    /// The lifetime of the self-reference, such as `'a`, or nothing.
    pub lifetime: TokenStream,
    /// The parameters behind the self-reference, in order.
    pub params: Vec<FnArg>,
    /// The return type with its arrow, or nothing.
    pub output: TokenStream,
    /// The body, with its braces.
    pub body: TokenStream,
}

/// What a [`Message`] holds.
pub struct MessageView {
    pub attrs: Seq<Seq<Token>>,
    pub name: Seq<char>,
    pub receiver: Receiver,
    pub lifetime: Seq<Token>,
    pub params: Seq<FnArgView>,
    pub output: Seq<Token>,
    pub body: Seq<Token>,
}

impl View for Message {
    type V = MessageView;

    open spec fn view(&self) -> MessageView {
        MessageView {
            attrs: streams_view(self.attrs@),
            name: self.name@,
            receiver: self.receiver,
            lifetime: stream_tokens(self.lifetime),
            params: args_view(self.params@),
            output: stream_tokens(self.output),
            body: stream_tokens(self.body),
        }
    }
}

/// What a list of messages holds.
pub open spec fn messages_view(messages: Seq<Message>) -> Seq<MessageView> {
    Seq::new(messages.len(), |i: int| messages[i]@)
}

/// A validated contract.
#[derive(Debug)]
pub struct Contract {
    /// The name of the state type.
    pub name: Ident,
    /// The state.
    pub state: State,
    /// The initializer. It is implemented first and never dispatched.
    pub on_deploy: Message,
    /// The messages, in the order of their declaration.
    pub messages: Vec<Message>,
}

/// What a [`Contract`] holds.
pub struct ContractView {
    pub name: Seq<char>,
    pub state: StateView,
    pub on_deploy: MessageView,
    pub messages: Seq<MessageView>,
}

impl View for Contract {
    type V = ContractView;

    open spec fn view(&self) -> ContractView {
        ContractView {
            name: self.name@,
            state: self.state@,
            on_deploy: self.on_deploy@,
            messages: messages_view(self.messages@),
        }
    }
}

/// The self-reference that a handler begins with, if it begins with one.
pub open spec fn receiver_of(handler: HandlerView) -> Option<Receiver> {
    if handler.inputs.len() == 0 {
        None
    } else {
        match handler.inputs[0] {
            FnArgView::SelfShared { .. } => Some(Receiver::Shared),
            FnArgView::SelfExclusive { .. } => Some(Receiver::Exclusive),
            FnArgView::Captured(_) => None,
        }
    }
}

/// The lifetime of the self-reference that a handler begins with, or
/// nothing.
pub open spec fn lifetime_of(handler: HandlerView) -> Seq<Token> {
    if handler.inputs.len() == 0 {
        Seq::empty()
    } else {
        match handler.inputs[0] {
            FnArgView::SelfShared { lifetime } => lifetime,
            FnArgView::SelfExclusive { lifetime } => lifetime,
            FnArgView::Captured(_) => Seq::empty(),
        }
    }
}

/// Whether a handler begins with a self-reference.
pub open spec fn is_well_formed(handler: HandlerView) -> bool {
    receiver_of(handler) is Some
}

/// A well-formed handler in its intermediate form: the self-reference is
/// taken off the parameters and kept apart with its lifetime, everything
/// else is kept as it is.
pub open spec fn lowered_handler(handler: HandlerView) -> MessageView {
    MessageView {
        attrs: handler.attrs,
        name: handler.name,
        receiver: receiver_of(handler)->0,
        lifetime: lifetime_of(handler),
        params: handler.inputs.subrange(1, handler.inputs.len() as int),
        output: handler.output,
        body: handler.body,
    }
}

/// Whether every handler of a declaration begins with a self-reference.
pub open spec fn all_well_formed(declaration: ast::ContractView) -> bool {
    &&& is_well_formed(declaration.on_deploy)
    &&& forall|i: int|
        0 <= i < declaration.messages.len() ==> is_well_formed(#[trigger] declaration.messages[i])
}

/// A well-formed declaration in its intermediate form.
pub open spec fn lowered(declaration: ast::ContractView) -> ContractView {
    ContractView {
        name: declaration.name,
        state: declaration.state,
        on_deploy: lowered_handler(declaration.on_deploy),
        messages: Seq::new(
            declaration.messages.len(),
            |i: int| lowered_handler(declaration.messages[i]),
        ),
    }
}

/// Whether the handler at `site` is the first malformed one, the initializer
/// coming before the messages.
pub open spec fn first_malformed(declaration: ast::ContractView, site: Site) -> bool {
    match site {
        Site::OnDeploy => !is_well_formed(declaration.on_deploy),
        Site::Message(index) => {
            &&& is_well_formed(declaration.on_deploy)
            &&& index < declaration.messages.len()
            &&& !is_well_formed(declaration.messages[index as int])
            &&& forall|i: int| 0 <= i < index ==> is_well_formed(#[trigger] declaration.messages[i])
        },
    }
}

/// The name of the handler at `site`.
pub open spec fn name_at(declaration: ast::ContractView, site: Site) -> Seq<char> {
    match site {
        Site::OnDeploy => declaration.on_deploy.name,
        Site::Message(index) => declaration.messages[index as int].name,
    }
}

/// The name of the handler at `site` as it was written, with its place.
pub open spec fn ident_at(declaration: ast::Contract, site: Site) -> Ident {
    match site {
        Site::OnDeploy => declaration.on_deploy.name,
        Site::Message(index) => declaration.messages@[index as int].name,
    }
}

/// The intermediate form of one handler, or nothing if it does not begin with
/// a self-reference. The name keeps its place.
pub fn lower_handler(handler: &ast::Handler) -> (message: Option<Message>)
    ensures
        message is Some <==> is_well_formed(handler@),
        message matches Some(m) ==> m@ == lowered_handler(handler@) && m.name == handler.name,
{
    if handler.inputs.len() == 0 {
        return None;
    }
    let (receiver, lifetime) = match &handler.inputs[0] {
        FnArg::SelfShared { lifetime } => (Receiver::Shared, stream_clone(lifetime)),
        FnArg::SelfExclusive { lifetime } => (Receiver::Exclusive, stream_clone(lifetime)),
        FnArg::Captured(_) => {
            return None;
        },
    };
    Some(
        Message {
            attrs: clone_streams(&handler.attrs),
            name: handler.name.clone(),
            receiver,
            lifetime,
            params: clone_args(&handler.inputs, 1),
            output: stream_clone(&handler.output),
            body: stream_clone(&handler.body),
        },
    )
}

/// Whether the names of a contract are those of a declaration, each at its
/// place.
pub open spec fn same_names(contract: Contract, declaration: ast::Contract) -> bool {
    &&& contract.name == declaration.name
    &&& contract.on_deploy.name == declaration.on_deploy.name
    &&& contract.messages@.len() == declaration.messages@.len()
    &&& forall|i: int|
        0 <= i < contract.messages@.len() ==> (#[trigger] contract.messages@[i]).name
            == declaration.messages@[i].name
}

/// Validates a declaration and puts it in its intermediate form.
///
/// The declaration is accepted if and only if the initializer and every
/// message begin with a self-reference. Otherwise the error names the first
/// handler that does not, the initializer coming before the messages, by its
/// position and by its name as it was written.
pub fn lower(declaration: &ast::Contract) -> (result: Result<Contract, MalformedHandlerError>)
    ensures
        result is Ok <==> all_well_formed(declaration@),
        result matches Ok(contract) ==> {
            &&& contract@ == lowered(declaration@)
            &&& same_names(contract, *declaration)
        },
        result matches Err(error) ==> {
            &&& first_malformed(declaration@, error.site)
            &&& error.name@ == name_at(declaration@, error.site)
            &&& error.name == ident_at(*declaration, error.site)
        },
{
    let on_deploy = match lower_handler(&declaration.on_deploy) {
        Some(message) => message,
        None => {
            return Err(
                MalformedHandlerError {
                    site: Site::OnDeploy,
                    name: declaration.on_deploy.name.clone(),
                },
            );
        },
    };
    let mut messages: Vec<Message> = Vec::new();
    let mut i: usize = 0;
    while i < declaration.messages.len()
        invariant
            i <= declaration.messages.len(),
            messages@.len() == i,
            is_well_formed(declaration@.on_deploy),
            forall|j: int| 0 <= j < i ==> is_well_formed(#[trigger] declaration@.messages[j]),
            forall|j: int|
                0 <= j < i ==> (#[trigger] messages@[j])@ == lowered_handler(
                    declaration@.messages[j],
                ),
            forall|j: int|
                0 <= j < i ==> (#[trigger] messages@[j]).name == declaration.messages@[j].name,
        decreases declaration.messages.len() - i,
    {
        assert(declaration@.messages[i as int] == declaration.messages[i as int]@);
        match lower_handler(&declaration.messages[i]) {
            Some(message) => {
                messages.push(message);
            },
            None => {
                return Err(
                    MalformedHandlerError {
                        site: Site::Message(i),
                        name: declaration.messages[i].name.clone(),
                    },
                );
            },
        }
        i += 1;
    }
    let contract = Contract {
        name: declaration.name.clone(),
        state: declaration.state.clone(),
        on_deploy,
        messages,
    };
    assert(contract@.messages =~= lowered(declaration@).messages);
    Ok(contract)
}

} // verus!
