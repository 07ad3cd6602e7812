use pdsl_lang::ast::{ArgCaptured, Contract, FnArg, Handler, State};
use pdsl_lang::compile;
use pdsl_lang::error::{Error, RegistryError, Site};
use pdsl_lang::ident::Ident;
use proc_macro2::{Span, TokenStream};

fn ts(text: &str) -> TokenStream {
    text.parse().unwrap()
}

fn shared() -> FnArg {
    FnArg::SelfShared { lifetime: TokenStream::new() }
}

fn exclusive() -> FnArg {
    FnArg::SelfExclusive { lifetime: TokenStream::new() }
}

fn captured(pat: &str, ty: &str) -> FnArg {
    FnArg::Captured(ArgCaptured { pat: ts(pat), ty: ts(ty) })
}

fn handler(name: &str, inputs: Vec<FnArg>, output: &str, body: &str) -> Handler {
    Handler {
        attrs: vec![],
        name: Ident::new(name, Span::call_site()).unwrap(),
        inputs,
        output: ts(output),
        body: ts(body),
    }
}

fn storage() -> Contract {
    Contract {
        name: Ident::new("Storage", Span::call_site()).unwrap(),
        state: State { attrs: vec![], fields: ts("{ value: Integer }") },
        on_deploy: handler(
            "init",
            vec![exclusive(), captured("start", "Integer")],
            "",
            "{ self.value = start; }",
        ),
        messages: vec![handler("get", vec![shared()], "-> Integer", "{ self.value }")],
    }
}

#[test]
fn end_to_end_storage_contract() {
    let tokens = compile(&storage()).unwrap();
    let expected = [
        // the state fragment declares `value: Integer`
        "pdsl_model :: state ! { struct Storage { value : Integer } }",
        // the registry has one entry: identifier 0, name `Get`, no argument, return `Integer`
        "use pdsl_model :: messages ; pdsl_model :: messages ! { 0 => Get ( ) -> Integer ; }",
        // two methods: `init` with an exclusive handle and `start`, `get` with a shared handle
        "impl Storage { \
         pub fn init ( & mut self , env : & mut pdsl_model :: EnvHandler , start : Integer ) \
         { self . value = start ; } \
         pub fn get ( & self , env : & pdsl_model :: EnvHandler ) -> Integer { self . value } }",
        // the wiring attaches `init` as deploy handler
        "fn instantiate ( ) -> impl pdsl_model :: Contract { \
         pdsl_model :: ContractDecl :: using :: < Storage > ( ) \
         . on_deploy ( | env , start : Integer | { \
         let ( handler , state ) = env . split_mut ( ) ; \
         state . init ( handler , start ) } ) \
         . instantiate ( ) }",
        // the two entry points
        "# [ no_mangle ] fn deploy ( ) { instantiate ( ) . deploy ( ) }",
        "# [ no_mangle ] fn call ( ) { instantiate ( ) . dispatch ( ) }",
    ];
    assert_eq!(tokens.to_string(), expected.join(" "));
}

#[test]
fn compile_keeps_the_lifetime_of_the_self_reference() {
    let mut declaration = storage();
    declaration.messages[0].inputs = vec![FnArg::SelfShared { lifetime: ts("'a") }];
    let tokens = compile(&declaration).unwrap().to_string();
    assert!(tokens.contains(
        "pub fn get ( & 'a self , env : & pdsl_model :: EnvHandler ) -> Integer"
    ));
    assert!(tokens.contains("0 => Get ( ) -> Integer ;"));
}

#[test]
fn compile_twice_gives_the_same_tokens() {
    let first = compile(&storage()).unwrap().to_string();
    let second = compile(&storage()).unwrap().to_string();
    assert_eq!(first, second);
}

#[test]
fn compile_leaves_the_declaration_as_it_was() {
    let declaration = storage();
    let _ = compile(&declaration).unwrap();
    assert_eq!(declaration.on_deploy.inputs.len(), 2);
    assert_eq!(declaration.on_deploy.body.to_string(), "{ self . value = start ; }");
    assert_eq!(declaration.messages.len(), 1);
    assert_eq!(declaration.messages[0].name.as_str(), "get");
}

#[test]
fn compile_rejects_a_leading_value_parameter() {
    let mut declaration = storage();
    declaration.messages[0].inputs = vec![captured("this", "Storage")];
    match compile(&declaration) {
        Err(Error::MalformedHandler(error)) => {
            assert_eq!(error.site, Site::Message(0));
            assert_eq!(error.name.as_str(), "get");
        }
        other => panic!("{:?}", other),
    }
}

#[test]
fn compile_rejects_a_malformed_initializer() {
    let mut declaration = storage();
    declaration.on_deploy.inputs.remove(0);
    match compile(&declaration) {
        Err(Error::MalformedHandler(error)) => {
            assert_eq!(error.site, Site::OnDeploy);
            assert_eq!(error.name.as_str(), "init");
        }
        other => panic!("{:?}", other),
    }
}

#[test]
fn compile_rejects_a_message_without_registry_name() {
    let mut declaration = storage();
    declaration.messages.push(handler("_", vec![shared()], "", "{}"));
    match compile(&declaration) {
        Err(Error::Registry(RegistryError::Name(error))) => {
            assert_eq!(error.index, 1);
            assert_eq!(error.name.as_str(), "_");
        }
        other => panic!("{:?}", other),
    }
}

#[test]
fn compile_rejects_messages_with_one_registry_name() {
    let mut declaration = storage();
    declaration.messages = vec![
        handler("get_value", vec![shared()], "-> Integer", "{ self.value }"),
        handler("set", vec![exclusive(), captured("v", "Integer")], "", "{}"),
        handler("getValue", vec![shared()], "-> Integer", "{ self.value }"),
    ];
    match compile(&declaration) {
        Err(Error::Registry(RegistryError::Collision(error))) => {
            assert_eq!(error.first, 0);
            assert_eq!(error.second, 2);
            assert_eq!(error.name.as_str(), "getValue");
        }
        other => panic!("{:?}", other),
    }
    declaration.messages[2].name = Ident::new("get_values", Span::call_site()).unwrap();
    let tokens = compile(&declaration).unwrap().to_string();
    assert!(tokens.contains("0 => GetValue ( ) -> Integer ;"));
    assert!(tokens.contains("2 => GetValues ( ) -> Integer ;"));
}

#[test]
fn compile_rejects_a_message_declared_twice() {
    let mut declaration = storage();
    declaration.messages.push(handler("get", vec![shared()], "", "{}"));
    match compile(&declaration) {
        Err(Error::Registry(RegistryError::Collision(error))) => {
            assert_eq!((error.first, error.second), (0, 1));
            assert_eq!(error.name.as_str(), "get");
        }
        other => panic!("{:?}", other),
    }
}

#[test]
fn compile_reports_a_malformed_handler_before_a_collision() {
    let mut declaration = storage();
    declaration.messages.push(handler("Get", vec![shared()], "", "{}"));
    declaration.messages.push(handler("late", vec![captured("x", "u8")], "", "{}"));
    match compile(&declaration) {
        Err(Error::MalformedHandler(error)) => assert_eq!(error.site, Site::Message(2)),
        other => panic!("{:?}", other),
    }
}

#[test]
fn error_names_the_handler_it_tells_of() {
    let mut declaration = storage();
    declaration.messages.push(handler("_", vec![shared()], "", "{}"));
    assert_eq!(compile(&declaration).unwrap_err().name().as_str(), "_");
    declaration.on_deploy.inputs.clear();
    assert_eq!(compile(&declaration).unwrap_err().name().as_str(), "init");

    let mut declaration = storage();
    declaration.messages.push(handler("GET", vec![shared()], "", "{}"));
    assert_eq!(compile(&declaration).unwrap_err().name().as_str(), "GET");
}

#[test]
fn compile_reports_a_malformed_handler_before_a_missing_registry_name() {
    let mut declaration = storage();
    declaration.messages.insert(0, handler("_", vec![shared()], "", "{}"));
    declaration.messages.push(handler("late", vec![], "", "{}"));
    match compile(&declaration) {
        Err(Error::MalformedHandler(error)) => {
            assert_eq!(error.site, Site::Message(2));
            assert_eq!(error.name.as_str(), "late");
        }
        other => panic!("{:?}", other),
    }
}
