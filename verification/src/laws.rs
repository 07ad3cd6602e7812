//! What holds of the compiler as a whole.

use proc_macro2::TokenStream;
use vstd::prelude::*;

use crate::ast;
use crate::ast::FnArgView;
use crate::error::{Error, RegistryError};
use crate::fragments::{
    arg_tokens, args_items, args_tokens, cased_names, env_handle, env_handler_type, method,
    methods, receiver_arg, registry, registry_entry, registry_entry_tokens, separated_upto,
    RegistryEntry,
};
use crate::hir::{
    all_well_formed, is_well_formed, lowered, lowered_handler, receiver_of, ContractView,
    MessageView, Receiver,
};
use crate::ident::camel_case;
use crate::tokens::{alone, concat, joint, stream_tokens, word, Token};
use crate::{compiles, is_outcome};

verus! {

/// Whether two runs of the compiler ended alike: with streams that hold the
/// same tokens, or with the same error at the same handler.
pub open spec fn same_outcome(
    first: Result<TokenStream, Error>,
    second: Result<TokenStream, Error>,
) -> bool {
    match (first, second) {
        (Ok(a), Ok(b)) => stream_tokens(a) == stream_tokens(b),
        (Err(Error::MalformedHandler(a)), Err(Error::MalformedHandler(b))) => {
            &&& a.site == b.site
            &&& a.name@ == b.name@
        },
        (
            Err(Error::Registry(RegistryError::Name(a))),
            Err(Error::Registry(RegistryError::Name(b))),
        ) => {
            &&& a.index == b.index
            &&& a.name@ == b.name@
        },
        (
            Err(Error::Registry(RegistryError::Collision(a))),
            Err(Error::Registry(RegistryError::Collision(b))),
        ) => {
            &&& a.first == b.first
            &&& a.second == b.second
            &&& a.name@ == b.name@
        },
        _ => false,
    }
}

/// Compiling is deterministic: two runs on one declaration end alike. If
/// the declaration compiles, both put out the same tokens; if it does not,
/// both fail with the same error at the same handler.
pub proof fn law_determinism(
    declaration: ast::ContractView,
    first: Result<TokenStream, Error>,
    second: Result<TokenStream, Error>,
)
    requires
        is_outcome(declaration, first),
        is_outcome(declaration, second),
    ensures
        same_outcome(first, second),
        first is Ok <==> compiles(declaration),
{
}

/// The registry takes each name once: where a declaration compiles, no two
/// entries of its registry have the same name. Where the names of two
/// messages are equal in capitalized-word casing, compiling ends with an
/// error, and so without a registry.
pub proof fn law_registry_names_distinct(
    declaration: ast::ContractView,
    result: Result<TokenStream, Error>,
    i: int,
    j: int,
)
    requires
        is_outcome(declaration, result),
        0 <= i < j < declaration.messages.len(),
    ensures
        result is Ok ==> registry(lowered(declaration), cased_names(lowered(declaration)))[i].name
            != registry(lowered(declaration), cased_names(lowered(declaration)))[j].name,
        all_well_formed(declaration) && camel_case(declaration.messages[i].name) == camel_case(
            declaration.messages[j].name,
        ) ==> result is Err,
{
    let names = cased_names(lowered(declaration));
    if all_well_formed(declaration) {
        assert(names[i] == camel_case(declaration.messages[i].name));
        assert(names[j] == camel_case(declaration.messages[j].name));
    }
}

/// A malformed handler stops the compilation: if the initializer or any
/// message does not begin with a self-reference, compiling ends with the
/// malformed-handler error, whatever else the declaration holds, and so
/// without tokens.
pub proof fn law_rejection(declaration: ast::ContractView, result: Result<TokenStream, Error>)
    requires
        is_outcome(declaration, result),
        !all_well_formed(declaration),
    ensures
        result matches Err(Error::MalformedHandler(_)),
{
}

/// The registry follows the declaration: it has one entry for each message,
/// and the entry at position `i` is that of the message declared at position
/// `i`, under the identifier `i` and under that message's name in
/// capitalized-word casing.
pub proof fn law_registry_order(contract: ContractView, i: int)
    requires
        0 <= i < contract.messages.len(),
    ensures
        registry(contract, cased_names(contract)).len() == contract.messages.len(),
        registry(contract, cased_names(contract))[i] == registry_entry(
            i as nat,
            contract.messages[i],
            camel_case(contract.messages[i].name),
        ),
        registry(contract, cased_names(contract))[i].index == i,
        ({
            let entry = registry(contract, cased_names(contract))[i];
            let written = registry_entry_tokens(entry);
            let attrs = concat(entry.attrs).len() as int;
            &&& attrs + 4 <= written.len()
            &&& written[attrs] == Token::Integer(i as nat)
            &&& written[attrs + 1] == joint('=')
            &&& written[attrs + 2] == alone('>')
            &&& written[attrs + 3] == word(camel_case(contract.messages[i].name))
        }),
{
}

/// The identifiers follow the declared order: if the messages of `permuted`
/// are those of `contract` in another order, the message at position `i` of
/// `permuted` being the one at position `order[i]` of `contract`, then the
/// entry of each message is what it was, but for its identifier, which is
/// the new position.
pub proof fn law_registry_permutation(
    contract: ContractView,
    permuted: ContractView,
    order: Seq<int>,
    i: int,
)
    requires
        order.len() == permuted.messages.len(),
        forall|k: int|
            0 <= k < order.len() ==> 0 <= #[trigger] order[k] < contract.messages.len()
                && permuted.messages[k] == contract.messages[order[k]],
        0 <= i < permuted.messages.len(),
    ensures
        registry(permuted, cased_names(permuted))[i] == (RegistryEntry {
            index: i as nat,
            ..registry(contract, cased_names(contract))[order[i]]
        }),
{
    assert(permuted.messages[i] == contract.messages[order[i]]);
}

/// The environment handle follows the self-reference: the implementation of
/// a handler takes the self-reference that the handler was declared with,
/// right behind it the environment handle, exclusive for an exclusive
/// self-reference and shared for a shared one, and then the other declared
/// parameters.
pub proof fn law_env_handle(handler: ast::HandlerView)
    requires
        is_well_formed(handler),
    ensures
        method(lowered_handler(handler)).inputs.len() == handler.inputs.len() + 1,
        method(lowered_handler(handler)).inputs[0] == handler.inputs[0],
        method(lowered_handler(handler)).inputs[1] == FnArgView::Captured(
            env_handle(receiver_of(handler)->0),
        ),
        forall|j: int|
            1 <= j < handler.inputs.len() ==> method(lowered_handler(handler)).inputs[j + 1]
                == handler.inputs[j],
        handler.inputs[0] is SelfExclusive ==> env_handle(receiver_of(handler)->0).ty
            == seq![alone('&'), word("mut"@)] + env_handler_type(),
        handler.inputs[0] is SelfShared ==> env_handle(receiver_of(handler)->0).ty
            == seq![alone('&')] + env_handler_type(),
{
}

/// From two items on, a separated list begins with the first item, a comma
/// and the second item.
proof fn lemma_separated_begins(items: Seq<Seq<Token>>, n: nat)
    requires
        2 <= n <= items.len(),
    ensures
        items[0].len() + 1 + items[1].len() <= separated_upto(items, n).len(),
        separated_upto(items, n).subrange(0, items[0].len() + 1 + items[1].len() as int)
            == items[0] + seq![alone(',')] + items[1],
    decreases n,
{
    let head = items[0] + seq![alone(',')] + items[1];
    if n == 2 {
        reveal_with_fuel(separated_upto, 3);
        assert(separated_upto(items, 2) =~= head);
        assert(head.subrange(0, head.len() as int) =~= head);
    } else {
        lemma_separated_begins(items, (n - 1) as nat);
        let before = separated_upto(items, (n - 1) as nat);
        assert(separated_upto(items, n) == before + seq![alone(',')] + items[n - 1]);
        assert(separated_upto(items, n).subrange(0, head.len() as int) =~= before.subrange(
            0,
            head.len() as int,
        ));
    }
}

/// The environment handle is written where it belongs: the parameter list
/// of the implementation of a handler begins with the self-reference, a
/// comma, and `env` with a reference to the environment handler, exclusive
/// for an exclusive self-reference and shared for a shared one.
pub proof fn law_env_handle_written(message: MessageView)
    ensures
        ({
            let written = args_tokens(method(message).inputs);
            let begin = arg_tokens(receiver_arg(message.receiver, message.lifetime)) + seq![
                alone(','),
            ] + arg_tokens(
                FnArgView::Captured(env_handle(message.receiver)),
            );
            &&& begin.len() <= written.len()
            &&& written.subrange(0, begin.len() as int) == begin
        }),
        arg_tokens(FnArgView::Captured(env_handle(Receiver::Exclusive))) == seq![
            word("env"@),
            alone(':'),
            alone('&'),
            word("mut"@),
            word("pdsl_model"@),
            joint(':'),
            alone(':'),
            word("EnvHandler"@),
        ],
        arg_tokens(FnArgView::Captured(env_handle(Receiver::Shared))) == seq![
            word("env"@),
            alone(':'),
            alone('&'),
            word("pdsl_model"@),
            joint(':'),
            alone(':'),
            word("EnvHandler"@),
        ],
{
    let items = args_items(method(message).inputs);
    lemma_separated_begins(items, items.len());
}

/// The registry describes the callable shape: the entry of a handler takes
/// the parameters that were declared behind the self-reference, and nothing
/// else.
pub proof fn law_registry_inputs(handler: ast::HandlerView, index: nat, name: Seq<char>)
    requires
        is_well_formed(handler),
    ensures
        registry_entry(index, lowered_handler(handler), name).inputs.len() + 1
            == handler.inputs.len(),
        forall|j: int|
            1 <= j < handler.inputs.len() ==> registry_entry(
                index,
                lowered_handler(handler),
                name,
            ).inputs[j - 1] == handler.inputs[j],
{
}

/// Whether a parameter is a self-reference or an environment handle.
pub open spec fn is_self_or_env(arg: FnArgView) -> bool {
    ||| arg is SelfShared
    ||| arg is SelfExclusive
    ||| arg == FnArgView::Captured(env_handle(Receiver::Shared))
    ||| arg == FnArgView::Captured(env_handle(Receiver::Exclusive))
}

/// The registry holds neither self-reference nor environment handle, as
/// long as the handler declares none behind its leading self-reference.
pub proof fn law_registry_without_self_and_env(
    handler: ast::HandlerView,
    index: nat,
    name: Seq<char>,
    j: int,
)
    requires
        is_well_formed(handler),
        forall|k: int|
            1 <= k < handler.inputs.len() ==> !is_self_or_env(#[trigger] handler.inputs[k]),
        0 <= j < registry_entry(index, lowered_handler(handler), name).inputs.len(),
    ensures
        !is_self_or_env(registry_entry(index, lowered_handler(handler), name).inputs[j]),
{
    assert(registry_entry(index, lowered_handler(handler), name).inputs[j] == handler.inputs[j
        + 1]);
}

/// The initializer is implemented first and is not dispatched: the first
/// implemented method is the initializer, the others are the messages in
/// their order, and the registry has entries for the messages alone.
pub proof fn law_initializer_apart(contract: ContractView, i: int)
    requires
        0 <= i < contract.messages.len(),
    ensures
        methods(contract).len() == contract.messages.len() + 1,
        methods(contract)[0] == method(contract.on_deploy),
        methods(contract)[i + 1] == method(contract.messages[i]),
        registry(contract, cased_names(contract)).len() == contract.messages.len(),
{
}

} // verus!
