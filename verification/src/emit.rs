//! The emitter: from a validated contract to its five fragments.

use proc_macro2::TokenStream;
use vstd::prelude::*;

use crate::ast::{args_view, ArgCaptured, ArgCapturedView, FnArg, FnArgView};
use crate::error::{RegistryCollisionError, RegistryError, RegistryNameError};
use crate::fragments::{
    all_distinct, all_named, arg_tokens, args_items, args_tokens, cased_names, deploy_body,
    deploy_closure, entry_point, entry_points_fragment, env_handle, first_collision,
    first_unnamed, forwarded, forwarded_upto, is_named, method, method_items, method_tokens,
    methods, methods_fragment, program, receiver_arg, registry, registry_entry,
    registry_entry_tokens,
    registry_fragment, registry_items, separated, separated_upto, state_fragment, unit, wiring,
    wiring_body, wiring_fragment,
};
use crate::hir::{Contract, Message, Receiver};
use crate::ident::{idents_view, is_ident_text, Ident};
use crate::tokens::{
    alone, concat, concat_upto, push_alone, push_group, push_ident, push_integer, push_pair,
    push_stream, push_streams, push_word, stream_clone, stream_new, stream_tokens, streams_view,
    word, Delim,
};

verus! {

/// Emits a contract: its five fragments in their fixed order, each message
/// entered in the registry under its name in capitalized-word casing.
///
/// It fails, without output, if the cased name of a message is no
/// identifier, and names the first such message; or else if the cased names
/// of two messages are equal, and names the first two such messages.
pub fn codegen(contract: &Contract) -> (result: Result<TokenStream, RegistryError>)
    ensures
        result is Ok <==> all_named(contract@) && all_distinct(cased_names(contract@)),
        result matches Ok(tokens) ==> stream_tokens(tokens) == program(
            contract@,
            cased_names(contract@),
        ),
        result matches Err(RegistryError::Name(error)) ==> is_first_unnamed(error, *contract),
        result matches Err(RegistryError::Collision(error)) ==> {
            &&& all_named(contract@)
            &&& is_first_collision(error, *contract)
        },
{
    let names = match registry_names(contract) {
        Ok(names) => names,
        Err(error) => {
            return Err(RegistryError::Name(error));
        },
    };
    match find_collision(&names) {
        None => Ok(emit(contract, &names)),
        Some((first, second)) => Err(
            RegistryError::Collision(
                RegistryCollisionError {
                    first,
                    second,
                    name: contract.messages[second].name.clone(),
                },
            ),
        ),
    }
}

/// Emits a contract whose messages go under the given registry names: the
/// state fragment, the registry fragment, the method implementations, the
/// wiring fragment and the entry points, in this order.
///
/// The registry takes each name once: the names are to be distinct, which
/// [`find_collision`] tells.
pub fn emit(contract: &Contract, names: &Vec<Ident>) -> (tokens: TokenStream)
    requires
        names.len() == contract.messages.len(),
        all_distinct(idents_view(names@)),
    ensures
        stream_tokens(tokens) == program(contract@, idents_view(names@)),
{
    let mut tokens = stream_new();
    codegen_for_state(&mut tokens, contract);
    codegen_for_messages(&mut tokens, contract, names);
    codegen_for_methods(&mut tokens, contract);
    codegen_for_instantiate(&mut tokens, contract);
    codegen_for_entry_points(&mut tokens);
    tokens
}

/// Whether `names` are the registry names of the messages of `contract`:
/// one for each message, with the name of the message in capitalized-word
/// casing as its text, at the place of the name of the message.
pub open spec fn are_registry_names(names: Seq<Ident>, contract: Contract) -> bool {
    &&& names.len() == contract.messages@.len()
    &&& idents_view(names) == cased_names(contract@)
    &&& forall|i: int|
        0 <= i < names.len() ==> (#[trigger] names[i]).place() == contract.messages@[i].name.place()
}

/// Whether `error` tells of the first message of `contract` without a
/// registry name, by its position and by its name as it was written.
pub open spec fn is_first_unnamed(error: RegistryNameError, contract: Contract) -> bool {
    &&& first_unnamed(contract@, error.index as int)
    &&& error.name == contract.messages@[error.index as int].name
}

/// Whether `error` tells of the first two messages of `contract` whose
/// registry names collide, by their positions and by the name of the later
/// one as it was written.
pub open spec fn is_first_collision(error: RegistryCollisionError, contract: Contract) -> bool {
    &&& first_collision(cased_names(contract@), error.first as int, error.second as int)
    &&& error.name == contract.messages@[error.second as int].name
}

/// The registry names of the messages of a contract: the name of each in
/// capitalized-word casing. It fails at the first message whose cased name
/// is no identifier.
pub fn registry_names(contract: &Contract) -> (result: Result<Vec<Ident>, RegistryNameError>)
    ensures
        result is Ok <==> all_named(contract@),
        result matches Ok(names) ==> are_registry_names(names@, *contract),
        result matches Err(error) ==> is_first_unnamed(error, *contract),
{
    let mut names: Vec<Ident> = Vec::new();
    let mut i: usize = 0;
    while i < contract.messages.len()
        invariant
            i <= contract.messages.len(),
            names@.len() == i,
            forall|j: int| 0 <= j < i ==> is_named(contract@, j),
            forall|j: int|
                0 <= j < i ==> (#[trigger] names@[j])@ == cased_names(contract@)[j]
                    && names@[j].place() == contract.messages@[j].name.place(),
        decreases contract.messages.len() - i,
    {
        assert(contract@.messages[i as int] == contract.messages[i as int]@);
        match contract.messages[i].name.to_camel_case() {
            Some(name) => {
                names.push(name);
            },
            None => {
                assert(!is_named(contract@, i as int));
                return Err(
                    RegistryNameError { index: i, name: contract.messages[i].name.clone() },
                );
            },
        }
        i += 1;
    }
    assert(idents_view(names@) =~= cased_names(contract@));
    Ok(names)
}

/// The first two of `names` that collide, if any two do.
pub fn find_collision(names: &Vec<Ident>) -> (found: Option<(usize, usize)>)
    ensures
        found is None <==> all_distinct(idents_view(names@)),
        found matches Some((first, second)) ==> first_collision(
            idents_view(names@),
            first as int,
            second as int,
        ),
{
    let mut second: usize = 0;
    while second < names.len()
        invariant
            second <= names.len(),
            forall|i: int, j: int|
                0 <= i < j < second ==> idents_view(names@)[i] != idents_view(names@)[j],
        decreases names.len() - second,
    {
        let mut first: usize = 0;
        while first < second
            invariant
                first <= second < names.len(),
                forall|i: int, j: int|
                    0 <= i < j < second ==> idents_view(names@)[i] != idents_view(names@)[j],
                forall|i: int|
                    0 <= i < first ==> idents_view(names@)[i] != idents_view(names@)[second as int],
            decreases second - first,
        {
            if names[first] == names[second] {
                assert(idents_view(names@)[first as int] == idents_view(names@)[second as int]);
                return Some((first, second));
            }
            first += 1;
        }
        second += 1;
    }
    None
}

/// Appends the state fragment: the state type with its attributes and its
/// field list, inside the runtime's state declaration.
pub fn codegen_for_state(tokens: &mut TokenStream, contract: &Contract)
    ensures
        stream_tokens(*final(tokens)) == stream_tokens(*old(tokens)) + state_fragment(contract@),
{
    proof {
        reveal_strlit("pdsl_model");
        reveal_strlit("state");
        reveal_strlit("struct");
    }
    let mut content = stream_new();
    push_streams(&mut content, &contract.state.attrs);
    push_word(&mut content, "struct");
    push_ident(&mut content, &contract.name);
    push_stream(&mut content, &contract.state.fields);
    assert(stream_tokens(content) =~= concat(contract@.state.attrs) + seq![
        word("struct"@),
        word(contract@.name),
    ] + contract@.state.fields);
    push_word(tokens, "pdsl_model");
    push_pair(tokens, ':', ':');
    push_word(tokens, "state");
    push_alone(tokens, '!');
    push_group(tokens, Delim::Brace, content);
}

/// Appends the registry fragment: for each message, in the order of the
/// declaration, an entry under its position, with the given registry name
/// and with the parameters and the return type that it declares behind its
/// self-reference.
///
/// The registry takes each name once: the names are to be distinct, which
/// [`find_collision`] tells.
pub fn codegen_for_messages(tokens: &mut TokenStream, contract: &Contract, names: &Vec<Ident>)
    requires
        names.len() == contract.messages.len(),
        all_distinct(idents_view(names@)),
    ensures
        stream_tokens(*final(tokens)) == stream_tokens(*old(tokens)) + registry_fragment(
            contract@,
            idents_view(names@),
        ),
{
    let mut content = stream_new();
    let mut n: usize = 0;
    while n < contract.messages.len()
        invariant
            n <= contract.messages.len(),
            names.len() == contract.messages.len(),
            stream_tokens(content) == concat_upto(
                registry_items(registry(contract@, idents_view(names@))),
                n as nat,
            ),
        decreases contract.messages.len() - n,
    {
        codegen_for_message(&mut content, n, &contract.messages[n], &names[n]);
        n += 1;
    }
    proof {
        reveal_strlit("use");
        reveal_strlit("pdsl_model");
        reveal_strlit("messages");
    }
    push_word(tokens, "use");
    push_word(tokens, "pdsl_model");
    push_pair(tokens, ':', ':');
    push_word(tokens, "messages");
    push_alone(tokens, ';');
    push_word(tokens, "pdsl_model");
    push_pair(tokens, ':', ':');
    push_word(tokens, "messages");
    push_alone(tokens, '!');
    push_group(tokens, Delim::Brace, content);
}

/// Appends one registry entry.
fn codegen_for_message(tokens: &mut TokenStream, index: usize, message: &Message, name: &Ident)
    ensures
        stream_tokens(*final(tokens)) == stream_tokens(*old(tokens)) + registry_entry_tokens(
            registry_entry(index as nat, message@, name@),
        ),
{
    push_streams(tokens, &message.attrs);
    push_integer(tokens, index as u64);
    push_pair(tokens, '=', '>');
    push_ident(tokens, name);
    let mut inner = stream_new();
    push_args(&mut inner, &message.params);
    push_group(tokens, Delim::Parenthesis, inner);
    push_stream(tokens, &message.output);
    push_alone(tokens, ';');
}

/// Appends the method-implementation fragment: the initializer and then
/// every message, each with the environment handle behind its
/// self-reference, inside an `impl` block of the state type.
pub fn codegen_for_methods(tokens: &mut TokenStream, contract: &Contract)
    ensures
        stream_tokens(*final(tokens)) == stream_tokens(*old(tokens)) + methods_fragment(
            contract@,
        ),
{
    let mut content = stream_new();
    codegen_for_method(&mut content, &contract.on_deploy);
    assert(stream_tokens(content) =~= concat_upto(method_items(methods(contract@)), 1)) by {
        reveal_with_fuel(concat_upto, 2);
    }
    let mut i: usize = 0;
    while i < contract.messages.len()
        invariant
            i <= contract.messages.len(),
            stream_tokens(content) == concat_upto(
                method_items(methods(contract@)),
                (i + 1) as nat,
            ),
        decreases contract.messages.len() - i,
    {
        codegen_for_method(&mut content, &contract.messages[i]);
        i += 1;
    }
    proof {
        reveal_strlit("impl");
    }
    push_word(tokens, "impl");
    push_ident(tokens, &contract.name);
    push_group(tokens, Delim::Brace, content);
}

/// Appends the implementation of one handler.
fn codegen_for_method(tokens: &mut TokenStream, message: &Message)
    ensures
        stream_tokens(*final(tokens)) == stream_tokens(*old(tokens)) + method_tokens(
            method(message@),
        ),
{
    proof {
        reveal_strlit("pub");
        reveal_strlit("fn");
    }
    push_streams(tokens, &message.attrs);
    push_word(tokens, "pub");
    push_word(tokens, "fn");
    push_ident(tokens, &message.name);
    let inputs = inputs_with_env(message);
    let mut inner = stream_new();
    push_args(&mut inner, &inputs);
    push_group(tokens, Delim::Parenthesis, inner);
    push_stream(tokens, &message.output);
    push_stream(tokens, &message.body);
}

/// The parameters of the implementation of a handler: the self-reference,
/// the environment handle that goes with it, and the declared parameters.
fn inputs_with_env(message: &Message) -> (inputs: Vec<FnArg>)
    ensures
        args_view(inputs@) == method(message@).inputs,
{
    let mut inputs: Vec<FnArg> = Vec::new();
    let self_arg = match message.receiver {
        Receiver::Shared => FnArg::SelfShared { lifetime: stream_clone(&message.lifetime) },
        Receiver::Exclusive => FnArg::SelfExclusive { lifetime: stream_clone(&message.lifetime) },
    };
    inputs.push(self_arg);
    let custom_arg_captured = CustomArgCaptured::env_handle(message.receiver);
    inputs.push(FnArg::Captured(custom_arg_captured.into_arg_captured()));
    let mut i: usize = 0;
    while i < message.params.len()
        invariant
            i <= message.params.len(),
            inputs@.len() == i + 2,
            inputs@[0]@ == receiver_arg(message.receiver, message@.lifetime),
            inputs@[1]@ == FnArgView::Captured(env_handle(message.receiver)),
            forall|j: int| 0 <= j < i ==> inputs@[j + 2]@ == message.params@[j]@,
        decreases message.params.len() - i,
    {
        inputs.push(message.params[i].clone());
        i += 1;
    }
    assert forall|j: int| 0 <= j < inputs@.len() implies args_view(inputs@)[j] == method(
        message@,
    ).inputs[j] by {
        if j >= 2 {
            assert(inputs@[(j - 2) + 2]@ == message.params@[j - 2]@);
        }
    }
    assert(args_view(inputs@) =~= method(message@).inputs);
    inputs
}

/// A parameter that the emitter adds to a signature: a pattern and its type.
#[derive(Debug)]
pub struct CustomArgCaptured {
    /// The pattern.
    pub pat: TokenStream,
    /// The type.
    pub ty: TokenStream,
}

impl View for CustomArgCaptured {
    type V = ArgCapturedView;

    open spec fn view(&self) -> ArgCapturedView {
        ArgCapturedView { pat: stream_tokens(self.pat), ty: stream_tokens(self.ty) }
    }
}

impl CustomArgCaptured {
    /// The environment handle for a handler with the given self-reference:
    /// `env: &pdsl_model::EnvHandler` for a shared one,
    /// `env: &mut pdsl_model::EnvHandler` for an exclusive one.
    pub fn env_handle(receiver: Receiver) -> (arg: CustomArgCaptured)
        ensures
            arg@ == env_handle(receiver),
    {
        proof {
            reveal_strlit("env");
            reveal_strlit("mut");
            reveal_strlit("pdsl_model");
            reveal_strlit("EnvHandler");
        }
        let mut pat = stream_new();
        push_word(&mut pat, "env");
        let mut ty = stream_new();
        push_alone(&mut ty, '&');
        match receiver {
            Receiver::Shared => {},
            Receiver::Exclusive => {
                push_word(&mut ty, "mut");
            },
        }
        push_word(&mut ty, "pdsl_model");
        push_pair(&mut ty, ':', ':');
        push_word(&mut ty, "EnvHandler");
        let arg = CustomArgCaptured { pat, ty };
        assert(arg@.pat =~= env_handle(receiver).pat);
        assert(arg@.ty =~= env_handle(receiver).ty);
        arg
    }

    /// The same parameter as a parameter of a handler.
    pub fn into_arg_captured(self) -> (arg: ArgCaptured)
        ensures
            arg@ == self@,
    {
        ArgCaptured { pat: self.pat, ty: self.ty }
    }
}

/// Appends the wiring fragment: the function `instantiate`, which declares
/// the state type as the state of the contract, attaches the initializer as
/// deploy handler and returns the assembled contract. No message is
/// attached.
pub fn codegen_for_instantiate(tokens: &mut TokenStream, contract: &Contract)
    ensures
        stream_tokens(*final(tokens)) == stream_tokens(*old(tokens)) + wiring_fragment(
            contract@,
        ),
{
    proof {
        reveal_strlit("pdsl_model");
        reveal_strlit("ContractDecl");
        reveal_strlit("using");
        reveal_strlit("on_deploy");
        reveal_strlit("instantiate");
        reveal_strlit("fn");
        reveal_strlit("impl");
        reveal_strlit("Contract");
    }
    let deploy_handler_toks = deploy_handler(contract);
    let mut body = stream_new();
    push_word(&mut body, "pdsl_model");
    push_pair(&mut body, ':', ':');
    push_word(&mut body, "ContractDecl");
    push_pair(&mut body, ':', ':');
    push_word(&mut body, "using");
    push_pair(&mut body, ':', ':');
    push_alone(&mut body, '<');
    push_ident(&mut body, &contract.name);
    push_alone(&mut body, '>');
    push_unit(&mut body);
    push_alone(&mut body, '.');
    push_word(&mut body, "on_deploy");
    push_group(&mut body, Delim::Parenthesis, deploy_handler_toks);
    push_alone(&mut body, '.');
    push_word(&mut body, "instantiate");
    push_unit(&mut body);
    assert(stream_tokens(body) =~= wiring_body(wiring(contract@)));

    push_word(tokens, "fn");
    push_word(tokens, "instantiate");
    push_unit(tokens);
    push_pair(tokens, '-', '>');
    push_word(tokens, "impl");
    push_word(tokens, "pdsl_model");
    push_pair(tokens, ':', ':');
    push_word(tokens, "Contract");
    push_group(tokens, Delim::Brace, body);
}

/// The deploy handler: a closure over the environment and the parameters of
/// the initializer, which calls the initializer on the state.
fn deploy_handler(contract: &Contract) -> (closure: TokenStream)
    ensures
        stream_tokens(closure) == deploy_closure(wiring(contract@)),
{
    proof {
        reveal_strlit("let");
        reveal_strlit("handler");
        reveal_strlit("state");
        reveal_strlit("env");
        reveal_strlit("split_mut");
    }
    let deploy_call_args = forwarded_patterns(&contract.on_deploy.params);
    let mut call = stream_new();
    push_word(&mut call, "handler");
    push_alone(&mut call, ',');
    push_separated(&mut call, &deploy_call_args);
    assert(stream_tokens(call) =~= seq![word("handler"@), alone(',')] + separated(
        wiring(contract@).forwarded,
    ));

    let mut pair = stream_new();
    push_word(&mut pair, "handler");
    push_alone(&mut pair, ',');
    push_word(&mut pair, "state");
    assert(stream_tokens(pair) =~= seq![word("handler"@), alone(','), word("state"@)]);

    let mut body = stream_new();
    push_word(&mut body, "let");
    push_group(&mut body, Delim::Parenthesis, pair);
    push_alone(&mut body, '=');
    push_word(&mut body, "env");
    push_alone(&mut body, '.');
    push_word(&mut body, "split_mut");
    push_unit(&mut body);
    push_alone(&mut body, ';');
    push_word(&mut body, "state");
    push_alone(&mut body, '.');
    push_ident(&mut body, &contract.on_deploy.name);
    push_group(&mut body, Delim::Parenthesis, call);
    assert(stream_tokens(body) =~= deploy_body(wiring(contract@)));

    let mut closure = stream_new();
    push_alone(&mut closure, '|');
    push_word(&mut closure, "env");
    push_alone(&mut closure, ',');
    push_args(&mut closure, &contract.on_deploy.params);
    push_alone(&mut closure, '|');
    push_group(&mut closure, Delim::Brace, body);
    closure
}

/// The patterns of the parameters that bind a value, in order.
fn forwarded_patterns(params: &Vec<FnArg>) -> (patterns: Vec<TokenStream>)
    ensures
        streams_view(patterns@) == forwarded(args_view(params@)),
{
    let mut patterns: Vec<TokenStream> = Vec::new();
    let mut i: usize = 0;
    while i < params.len()
        invariant
            i <= params.len(),
            streams_view(patterns@) == forwarded_upto(args_view(params@), i as nat),
        decreases params.len() - i,
    {
        let ghost before = patterns@;
        match &params[i] {
            FnArg::Captured(captured) => {
                let pat = stream_clone(&captured.pat);
                patterns.push(pat);
                assert(streams_view(patterns@) =~= streams_view(before).push(stream_tokens(pat)));
            },
            _ => {},
        }
        i += 1;
    }
    patterns
}

/// Appends the entry-points fragment: the functions `deploy` and `call`.
/// Neither takes a parameter; each assembles the contract, the first to
/// deploy it and the second to dispatch an incoming call.
pub fn codegen_for_entry_points(tokens: &mut TokenStream)
    ensures
        stream_tokens(*final(tokens)) == stream_tokens(*old(tokens)) + entry_points_fragment(),
{
    proof {
        reveal_strlit("deploy");
        reveal_strlit("call");
        reveal_strlit("dispatch");
    }
    codegen_for_entry_point(tokens, "deploy", "deploy");
    codegen_for_entry_point(tokens, "call", "dispatch");
}

/// Appends one entry point.
fn codegen_for_entry_point(tokens: &mut TokenStream, name: &str, action: &str)
    requires
        is_ident_text(name@),
        is_ident_text(action@),
    ensures
        stream_tokens(*final(tokens)) == stream_tokens(*old(tokens)) + entry_point(
            name@,
            action@,
        ),
{
    proof {
        reveal_strlit("no_mangle");
        reveal_strlit("fn");
        reveal_strlit("instantiate");
    }
    let mut attr = stream_new();
    push_word(&mut attr, "no_mangle");
    assert(stream_tokens(attr) =~= seq![word("no_mangle"@)]);
    let mut body = stream_new();
    push_word(&mut body, "instantiate");
    push_unit(&mut body);
    push_alone(&mut body, '.');
    push_word(&mut body, action);
    push_unit(&mut body);
    assert(stream_tokens(body) =~= seq![
        word("instantiate"@),
        unit(),
        alone('.'),
        word(action@),
        unit(),
    ]);
    push_alone(tokens, '#');
    push_group(tokens, Delim::Bracket, attr);
    push_word(tokens, "fn");
    push_word(tokens, name);
    push_unit(tokens);
    push_group(tokens, Delim::Brace, body);
}

/// Appends a parameter list: the parameters with a comma between each two.
///
/// A parameter of this model is no syntax tree that a punctuated list of
/// the parser could print, so the list is written here, item by item.
fn push_args(tokens: &mut TokenStream, args: &Vec<FnArg>)
    ensures
        stream_tokens(*final(tokens)) == stream_tokens(*old(tokens)) + args_tokens(
            args_view(args@),
        ),
{
    let mut i: usize = 0;
    while i < args.len()
        invariant
            i <= args.len(),
            stream_tokens(*tokens) == stream_tokens(*old(tokens)) + separated_upto(
                args_items(args_view(args@)),
                i as nat,
            ),
        decreases args.len() - i,
    {
        if i > 0 {
            push_alone(tokens, ',');
        }
        push_arg(tokens, &args[i]);
        i += 1;
    }
}

/// Appends one parameter.
fn push_arg(tokens: &mut TokenStream, arg: &FnArg)
    ensures
        stream_tokens(*final(tokens)) == stream_tokens(*old(tokens)) + arg_tokens(arg@),
{
    proof {
        reveal_strlit("self");
        reveal_strlit("mut");
    }
    match arg {
        FnArg::SelfShared { lifetime } => {
            push_alone(tokens, '&');
            push_stream(tokens, lifetime);
            push_word(tokens, "self");
        },
        FnArg::SelfExclusive { lifetime } => {
            push_alone(tokens, '&');
            push_stream(tokens, lifetime);
            push_word(tokens, "mut");
            push_word(tokens, "self");
        },
        FnArg::Captured(captured) => {
            push_stream(tokens, &captured.pat);
            push_alone(tokens, ':');
            push_stream(tokens, &captured.ty);
        },
    }
}

/// Appends `items` with a comma between each two.
fn push_separated(tokens: &mut TokenStream, items: &Vec<TokenStream>)
    ensures
        stream_tokens(*final(tokens)) == stream_tokens(*old(tokens)) + separated(
            streams_view(items@),
        ),
{
    let mut i: usize = 0;
    while i < items.len()
        invariant
            i <= items.len(),
            stream_tokens(*tokens) == stream_tokens(*old(tokens)) + separated_upto(
                streams_view(items@),
                i as nat,
            ),
        decreases items.len() - i,
    {
        if i > 0 {
            push_alone(tokens, ',');
        }
        push_stream(tokens, &items[i]);
        i += 1;
    }
}

/// Appends an empty pair of parentheses.
fn push_unit(tokens: &mut TokenStream)
    ensures
        stream_tokens(*final(tokens)) == stream_tokens(*old(tokens)).push(unit()),
{
    let inner = stream_new();
    push_group(tokens, Delim::Parenthesis, inner);
}

} // verus!
