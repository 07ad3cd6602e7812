//! What the emitter produces, as mathematics.
//!
//! Each of the five fragments is described twice: as a structure that says
//! which declared item lands where (the registry entries, the implemented
//! methods, the wiring), and as the token sequence in which that structure
//! is written down. The emitter is proved against the token sequences, the
//! laws of the compiler are stated over the structures.

use vstd::prelude::*;

use crate::ast::{ArgCapturedView, FnArgView};
use crate::hir::{ContractView, MessageView, Receiver};
use crate::ident::{camel_case, is_ident_text};
use crate::tokens::{alone, concat, fat_arrow, path_sep, thin_arrow, word, Delim, Token};

verus! {

/// The first `n` of `items`, with a comma between each two.
pub open spec fn separated_upto(items: Seq<Seq<Token>>, n: nat) -> Seq<Token>
    decreases n,
{
    if n == 0 {
        Seq::empty()
    } else if n == 1 {
        items[0]
    } else {
        separated_upto(items, (n - 1) as nat) + seq![alone(',')] + items[n - 1]
    }
}

/// All of `items`, with a comma between each two and none at the end.
pub open spec fn separated(items: Seq<Seq<Token>>) -> Seq<Token> {
    separated_upto(items, items.len())
}

/// The self-reference as a parameter, with its lifetime.
pub open spec fn receiver_arg(receiver: Receiver, lifetime: Seq<Token>) -> FnArgView {
    match receiver {
        Receiver::Shared => FnArgView::SelfShared { lifetime },
        Receiver::Exclusive => FnArgView::SelfExclusive { lifetime },
    }
}

/// One parameter, written down: `& lifetime self`, `& lifetime mut self`,
/// or `pat : ty`.
pub open spec fn arg_tokens(arg: FnArgView) -> Seq<Token> {
    match arg {
        FnArgView::SelfShared { lifetime } => seq![alone('&')] + lifetime + seq![word("self"@)],
        FnArgView::SelfExclusive { lifetime } => seq![alone('&')] + lifetime + seq![
            word("mut"@),
            word("self"@),
        ],
        FnArgView::Captured(captured) => captured.pat + seq![alone(':')] + captured.ty,
    }
}

/// Each parameter of a list, written down.
pub open spec fn args_items(args: Seq<FnArgView>) -> Seq<Seq<Token>> {
    Seq::new(args.len(), |i: int| arg_tokens(args[i]))
}

/// A parameter list, written down: the parameters with a comma between each
/// two.
pub open spec fn args_tokens(args: Seq<FnArgView>) -> Seq<Token> {
    separated(args_items(args))
}

/// The type of the environment handle, `pdsl_model::EnvHandler`.
pub open spec fn env_handler_type() -> Seq<Token> {
    seq![word("pdsl_model"@)] + path_sep() + seq![word("EnvHandler"@)]
}

/// The environment handle that a handler receives: `env`, by shared
/// reference for a shared self-reference and by exclusive reference for an
/// exclusive one. The lifetime of the self-reference is not handed on to
/// it.
pub open spec fn env_handle(receiver: Receiver) -> ArgCapturedView {
    ArgCapturedView {
        pat: seq![word("env"@)],
        ty: match receiver {
            Receiver::Shared => seq![alone('&')] + env_handler_type(),
            Receiver::Exclusive => seq![alone('&'), word("mut"@)] + env_handler_type(),
        },
    }
}

/// The state fragment: the state type, with its attributes and its field
/// list as they were declared, inside the runtime's state declaration.
pub open spec fn state_fragment(contract: ContractView) -> Seq<Token> {
    seq![word("pdsl_model"@)] + path_sep() + seq![
        word("state"@),
        alone('!'),
        Token::Group(
            Delim::Brace,
            concat(contract.state.attrs) + seq![word("struct"@), word(contract.name)]
                + contract.state.fields,
        ),
    ]
}

/// One entry of the message registry.
pub struct RegistryEntry {
    /// The attributes of the message.
    pub attrs: Seq<Seq<Token>>,
    /// The identifier under which the message is dispatched.
    pub index: nat,
    /// The name of the entry.
    pub name: Seq<char>,
    /// The parameters that a caller passes.
    pub inputs: Seq<FnArgView>,
    /// The return type with its arrow, or nothing.
    pub output: Seq<Token>,
}

/// The registry entry of the message that stands at position `index` and
/// gets the registry name `name`: it describes the callable shape, so the
/// self-reference is not among its parameters.
pub open spec fn registry_entry(
    index: nat,
    message: MessageView,
    name: Seq<char>,
) -> RegistryEntry {
    RegistryEntry {
        attrs: message.attrs,
        index,
        name,
        inputs: message.params,
        output: message.output,
    }
}

/// The message registry: one entry for each message, in the order of the
/// declaration, the entry of the message at position `i` under the
/// identifier `i` and the name `names[i]`.
pub open spec fn registry(contract: ContractView, names: Seq<Seq<char>>) -> Seq<RegistryEntry> {
    Seq::new(
        contract.messages.len(),
        |i: int| registry_entry(i as nat, contract.messages[i], names[i]),
    )
}

/// The registry names of the messages: the name of each message in
/// capitalized-word casing.
pub open spec fn cased_names(contract: ContractView) -> Seq<Seq<char>> {
    Seq::new(contract.messages.len(), |i: int| camel_case(contract.messages[i].name))
}

/// Whether the message at `index` has a registry name: its name in
/// capitalized-word casing is an identifier.
pub open spec fn is_named(contract: ContractView, index: int) -> bool {
    is_ident_text(camel_case(contract.messages[index].name))
}

/// Whether every message has a registry name.
pub open spec fn all_named(contract: ContractView) -> bool {
    forall|i: int| 0 <= i < contract.messages.len() ==> is_named(contract, i)
}

/// Whether the message at `index` is the first without a registry name.
pub open spec fn first_unnamed(contract: ContractView, index: int) -> bool {
    &&& 0 <= index < contract.messages.len()
    &&& !is_named(contract, index)
    &&& forall|i: int| 0 <= i < index ==> is_named(contract, i)
}

/// Whether no two of `names` are equal. The registry needs that of its
/// names; the casing may map two names of messages to one.
pub open spec fn all_distinct(names: Seq<Seq<char>>) -> bool {
    forall|i: int, j: int| 0 <= i < j < names.len() ==> names[i] != names[j]
}

/// Whether the names at `first` and `second` are the first two that
/// collide: they are equal, no name before `second` equals an earlier one,
/// and no name before `first` equals the one at `second`.
pub open spec fn first_collision(names: Seq<Seq<char>>, first: int, second: int) -> bool {
    &&& 0 <= first < second < names.len()
    &&& names[first] == names[second]
    &&& forall|i: int| 0 <= i < first ==> names[i] != names[second]
    &&& forall|i: int, j: int| 0 <= i < j < second ==> names[i] != names[j]
}

/// One registry entry, written down: `index => Name(inputs) output;`.
pub open spec fn registry_entry_tokens(entry: RegistryEntry) -> Seq<Token> {
    concat(entry.attrs) + seq![Token::Integer(entry.index)] + fat_arrow() + seq![
        word(entry.name),
        Token::Group(Delim::Parenthesis, args_tokens(entry.inputs)),
    ] + entry.output + seq![alone(';')]
}

/// Each registry entry, written down.
pub open spec fn registry_items(entries: Seq<RegistryEntry>) -> Seq<Seq<Token>> {
    Seq::new(entries.len(), |i: int| registry_entry_tokens(entries[i]))
}

/// The registry fragment: the import of the runtime's registry construct,
/// and the construct around the entries.
pub open spec fn registry_fragment(contract: ContractView, names: Seq<Seq<char>>) -> Seq<Token> {
    seq![word("use"@), word("pdsl_model"@)] + path_sep() + seq![
        word("messages"@),
        alone(';'),
        word("pdsl_model"@),
    ] + path_sep() + seq![
        word("messages"@),
        alone('!'),
        Token::Group(Delim::Brace, concat(registry_items(registry(contract, names)))),
    ]
}

/// One implemented method.
pub struct Method {
    /// The attributes of the handler.
    pub attrs: Seq<Seq<Token>>,
    /// The name of the handler.
    pub name: Seq<char>,
    /// The parameters of the implementation.
    pub inputs: Seq<FnArgView>,
    /// The return type with its arrow, or nothing.
    pub output: Seq<Token>,
    /// The body of the handler.
    pub body: Seq<Token>,
}

/// The implementation of a handler: its signature with the environment
/// handle put in right behind the self-reference, and its body unchanged.
pub open spec fn method(message: MessageView) -> Method {
    Method {
        attrs: message.attrs,
        name: message.name,
        inputs: seq![
            receiver_arg(message.receiver, message.lifetime),
            FnArgView::Captured(env_handle(message.receiver)),
        ] + message.params,
        output: message.output,
        body: message.body,
    }
}

/// The implemented methods: the initializer first, then each message in the
/// order of the declaration.
pub open spec fn methods(contract: ContractView) -> Seq<Method> {
    Seq::new(
        contract.messages.len() + 1,
        |i: int|
            if i == 0 {
                method(contract.on_deploy)
            } else {
                method(contract.messages[i - 1])
            },
    )
}

/// One implemented method, written down: `pub fn name(inputs) output body`.
pub open spec fn method_tokens(method: Method) -> Seq<Token> {
    concat(method.attrs) + seq![
        word("pub"@),
        word("fn"@),
        word(method.name),
        Token::Group(Delim::Parenthesis, args_tokens(method.inputs)),
    ] + method.output + method.body
}

/// Each implemented method, written down.
pub open spec fn method_items(methods: Seq<Method>) -> Seq<Seq<Token>> {
    Seq::new(methods.len(), |i: int| method_tokens(methods[i]))
}

/// The method-implementation fragment: the methods inside an `impl` block of
/// the state type.
pub open spec fn methods_fragment(contract: ContractView) -> Seq<Token> {
    seq![
        word("impl"@),
        word(contract.name),
        Token::Group(Delim::Brace, concat(method_items(methods(contract)))),
    ]
}

/// The patterns of the first `n` parameters that bind a value.
pub open spec fn forwarded_upto(params: Seq<FnArgView>, n: nat) -> Seq<Seq<Token>>
    decreases n,
{
    if n == 0 {
        Seq::empty()
    } else {
        let before = forwarded_upto(params, (n - 1) as nat);
        match params[n - 1] {
            FnArgView::Captured(captured) => before.push(captured.pat),
            _ => before,
        }
    }
}

/// The patterns of the parameters that bind a value, in order: what a caller
/// of the handler hands on, position by position.
pub open spec fn forwarded(params: Seq<FnArgView>) -> Seq<Seq<Token>> {
    forwarded_upto(params, params.len())
}

/// The wiring of a contract.
pub struct Wiring {
    /// The type that is declared as the state of the contract.
    pub state: Seq<char>,
    /// The name of the handler that is attached as deploy handler.
    pub handler: Seq<char>,
    /// The parameters that the deploy handler takes behind the environment.
    pub inputs: Seq<FnArgView>,
    /// The arguments that are handed on to the handler behind the
    /// environment handle.
    pub forwarded: Seq<Seq<Token>>,
}

/// The wiring of a contract: its state type, and its initializer as deploy
/// handler with the parameters that it declares behind the self-reference.
/// No message is attached.
pub open spec fn wiring(contract: ContractView) -> Wiring {
    Wiring {
        state: contract.name,
        handler: contract.on_deploy.name,
        inputs: contract.on_deploy.params,
        forwarded: forwarded(contract.on_deploy.params),
    }
}

/// An empty pair of parentheses.
pub open spec fn unit() -> Token {
    Token::Group(Delim::Parenthesis, Seq::empty())
}

/// The body of the deploy handler: it splits the environment into handle and
/// state and calls the initializer on the state.
pub open spec fn deploy_body(wiring: Wiring) -> Seq<Token> {
    seq![
        word("let"@),
        Token::Group(Delim::Parenthesis, seq![word("handler"@), alone(','), word("state"@)]),
        alone('='),
        word("env"@),
        alone('.'),
        word("split_mut"@),
        unit(),
        alone(';'),
        word("state"@),
        alone('.'),
        word(wiring.handler),
        Token::Group(
            Delim::Parenthesis,
            seq![word("handler"@), alone(',')] + separated(wiring.forwarded),
        ),
    ]
}

/// The deploy handler: a closure over the environment and the parameters of
/// the initializer.
pub open spec fn deploy_closure(wiring: Wiring) -> Seq<Token> {
    seq![alone('|'), word("env"@), alone(',')] + args_tokens(wiring.inputs) + seq![
        alone('|'),
        Token::Group(Delim::Brace, deploy_body(wiring)),
    ]
}

/// The body of the wiring function: the declaration of the state type, the
/// deploy handler, and the assembly.
pub open spec fn wiring_body(wiring: Wiring) -> Seq<Token> {
    seq![word("pdsl_model"@)] + path_sep() + seq![word("ContractDecl"@)] + path_sep() + seq![
        word("using"@),
    ] + path_sep() + seq![
        alone('<'),
        word(wiring.state),
        alone('>'),
        unit(),
        alone('.'),
        word("on_deploy"@),
        Token::Group(Delim::Parenthesis, deploy_closure(wiring)),
        alone('.'),
        word("instantiate"@),
        unit(),
    ]
}

/// The wiring fragment: the function `instantiate`, which takes nothing and
/// returns the assembled contract.
pub open spec fn wiring_fragment(contract: ContractView) -> Seq<Token> {
    seq![word("fn"@), word("instantiate"@), unit()] + thin_arrow() + seq![
        word("impl"@),
        word("pdsl_model"@),
    ] + path_sep() + seq![
        word("Contract"@),
        Token::Group(Delim::Brace, wiring_body(wiring(contract))),
    ]
}

/// One entry point: an unmangled function `name` without parameters that
/// assembles the contract and calls `action` on it.
pub open spec fn entry_point(name: Seq<char>, action: Seq<char>) -> Seq<Token> {
    seq![
        alone('#'),
        Token::Group(Delim::Bracket, seq![word("no_mangle"@)]),
        word("fn"@),
        word(name),
        unit(),
        Token::Group(
            Delim::Brace,
            seq![word("instantiate"@), unit(), alone('.'), word(action), unit()],
        ),
    ]
}

/// The entry-points fragment: `deploy`, which deploys the contract, and
/// `call`, which dispatches an incoming call.
pub open spec fn entry_points_fragment() -> Seq<Token> {
    entry_point("deploy"@, "deploy"@) + entry_point("call"@, "dispatch"@)
}

/// The emitted program: the five fragments in their fixed order.
pub open spec fn program(contract: ContractView, names: Seq<Seq<char>>) -> Seq<Token> {
    state_fragment(contract) + registry_fragment(contract, names) + methods_fragment(contract)
        + wiring_fragment(contract) + entry_points_fragment()
}

} // verus!
