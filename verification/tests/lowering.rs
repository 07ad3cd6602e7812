use pdsl_lang::ast::{ArgCaptured, Contract, FnArg, Handler, State};
use pdsl_lang::error::Site;
use pdsl_lang::hir::{lower, lower_handler, Receiver};
use pdsl_lang::ident::Ident;
use proc_macro2::{Span, TokenStream};

fn ts(text: &str) -> TokenStream {
    text.parse().unwrap()
}

fn shared() -> FnArg {
    FnArg::SelfShared { lifetime: TokenStream::new() }
}

fn exclusive() -> FnArg {
    FnArg::SelfExclusive { lifetime: TokenStream::new() }
}

fn captured(pat: &str, ty: &str) -> FnArg {
    FnArg::Captured(ArgCaptured { pat: ts(pat), ty: ts(ty) })
}

fn handler(name: &str, inputs: Vec<FnArg>) -> Handler {
    Handler {
        attrs: vec![ts("#[inline]")],
        name: Ident::new(name, Span::call_site()).unwrap(),
        inputs,
        output: ts("-> bool"),
        body: ts("{ true }"),
    }
}

fn contract(on_deploy: Handler, messages: Vec<Handler>) -> Contract {
    Contract {
        name: Ident::new("Flipper", Span::call_site()).unwrap(),
        state: State { attrs: vec![ts("#[derive(Debug)]")], fields: ts("{ value: bool }") },
        on_deploy,
        messages,
    }
}

fn shown(args: &[FnArg]) -> Vec<String> {
    args.iter()
        .map(|arg| match arg {
            FnArg::SelfShared { lifetime } => format!("&{} self", lifetime),
            FnArg::SelfExclusive { lifetime } => format!("&{} mut self", lifetime),
            FnArg::Captured(c) => format!("{} : {}", c.pat, c.ty),
        })
        .collect()
}

#[test]
fn lowering_takes_the_shared_self_reference_off() {
    let h = handler("get", vec![shared(), captured("at", "u32")]);
    let m = lower_handler(&h).unwrap();
    assert_eq!(m.receiver, Receiver::Shared);
    assert_eq!(shown(&m.params), vec!["at : u32"]);
}

#[test]
fn lowering_takes_the_exclusive_self_reference_off() {
    let h = handler("set", vec![exclusive(), captured("a", "u8"), captured("b", "u16")]);
    let m = lower_handler(&h).unwrap();
    assert_eq!(m.receiver, Receiver::Exclusive);
    assert_eq!(shown(&m.params), vec!["a : u8", "b : u16"]);
}

#[test]
fn lowering_keeps_the_lifetime_of_the_self_reference() {
    let h = handler("get", vec![FnArg::SelfShared { lifetime: ts("'a") }, captured("at", "u32")]);
    let m = lower_handler(&h).unwrap();
    assert_eq!(m.receiver, Receiver::Shared);
    assert_eq!(m.lifetime.to_string(), "'a");
    let h = handler("set", vec![FnArg::SelfExclusive { lifetime: ts("'b") }]);
    let m = lower_handler(&h).unwrap();
    assert_eq!(m.receiver, Receiver::Exclusive);
    assert_eq!(m.lifetime.to_string(), "'b");
    let m = lower_handler(&handler("get", vec![shared()])).unwrap();
    assert!(m.lifetime.is_empty());
}

#[test]
fn lowering_keeps_everything_else() {
    let h = handler("get", vec![shared()]);
    let m = lower_handler(&h).unwrap();
    assert_eq!(m.name.as_str(), "get");
    assert_eq!(m.attrs.len(), 1);
    assert_eq!(m.attrs[0].to_string(), "# [ inline ]");
    assert!(m.params.is_empty());
    assert_eq!(m.output.to_string(), "-> bool");
    assert_eq!(m.body.to_string(), "{ true }");
}

#[test]
fn lowering_keeps_a_later_self_reference_as_a_parameter() {
    let h = handler("odd", vec![shared(), exclusive(), captured("x", "u8")]);
    let m = lower_handler(&h).unwrap();
    assert_eq!(m.receiver, Receiver::Shared);
    assert_eq!(shown(&m.params), vec!["& mut self", "x : u8"]);
}

#[test]
fn lowering_rejects_a_handler_without_parameters() {
    assert!(lower_handler(&handler("get", vec![])).is_none());
}

#[test]
fn lowering_rejects_a_leading_value_parameter() {
    assert!(lower_handler(&handler("get", vec![captured("x", "u32")])).is_none());
    let late = handler("get", vec![captured("x", "u32"), shared()]);
    assert!(lower_handler(&late).is_none());
}

#[test]
fn lowering_accepts_a_well_formed_declaration() {
    let d = contract(
        handler("init", vec![exclusive(), captured("start", "bool")]),
        vec![
            handler("flip", vec![exclusive()]),
            handler("get", vec![shared()]),
        ],
    );
    let c = lower(&d).unwrap();
    assert_eq!(c.name.as_str(), "Flipper");
    assert_eq!(c.state.attrs.len(), 1);
    assert_eq!(c.state.attrs[0].to_string(), "# [ derive ( Debug ) ]");
    assert_eq!(c.state.fields.to_string(), "{ value : bool }");
    assert_eq!(c.on_deploy.name.as_str(), "init");
    assert_eq!(c.on_deploy.receiver, Receiver::Exclusive);
    assert_eq!(shown(&c.on_deploy.params), vec!["start : bool"]);
    assert_eq!(c.messages.len(), 2);
    assert_eq!(c.messages[0].name.as_str(), "flip");
    assert_eq!(c.messages[0].receiver, Receiver::Exclusive);
    assert_eq!(c.messages[1].name.as_str(), "get");
    assert_eq!(c.messages[1].receiver, Receiver::Shared);
}

#[test]
fn lowering_accepts_a_declaration_without_messages() {
    let d = contract(handler("init", vec![exclusive()]), vec![]);
    let c = lower(&d).unwrap();
    assert!(c.messages.is_empty());
}

#[test]
fn lowering_names_the_malformed_initializer() {
    let d = contract(
        handler("init", vec![captured("start", "bool")]),
        vec![handler("get", vec![shared()])],
    );
    let e = lower(&d).unwrap_err();
    assert_eq!(e.site, Site::OnDeploy);
    assert_eq!(e.name.as_str(), "init");
}

#[test]
fn lowering_names_the_malformed_message() {
    let d = contract(
        handler("init", vec![exclusive()]),
        vec![
            handler("flip", vec![exclusive()]),
            handler("get", vec![captured("this", "Flipper")]),
        ],
    );
    let e = lower(&d).unwrap_err();
    assert_eq!(e.site, Site::Message(1));
    assert_eq!(e.name.as_str(), "get");
}

#[test]
fn lowering_stops_at_the_first_violation() {
    let d = contract(
        handler("init", vec![]),
        vec![handler("flip", vec![]), handler("get", vec![])],
    );
    let e = lower(&d).unwrap_err();
    assert_eq!(e.site, Site::OnDeploy);

    let d = contract(
        handler("init", vec![exclusive()]),
        vec![
            handler("a", vec![shared()]),
            handler("b", vec![]),
            handler("c", vec![captured("x", "u8")]),
        ],
    );
    let e = lower(&d).unwrap_err();
    assert_eq!(e.site, Site::Message(1));
    assert_eq!(e.name.as_str(), "b");
}
