use irpc::derive::args::MacroArgs;
use irpc::derive::legacy;
use irpc::derive::lex::{print, Attribute, FieldKind, Lexeme, MacroError};
use irpc::derive::plan::{
    plan_variant, read_variant, take_attr, FieldPlan, Plan, VariantPlan, VariantRead,
    DEFAULT_RX_TYPE, DEFAULT_TX_TYPE,
};
use irpc::derive::variant_args::{NamedTypeArgs, WrapArgs};
use proc_macro2::TokenStream;

const STORE: &str = "
    #[derive(Debug, Serialize, Deserialize)]
    pub(crate) enum StoreProtocol {
        /// Doc comment.
        #[rpc(tx = oneshot::Sender<Option<String>>)]
        #[wrap(GetRequest, derive(Clone))]
        Get(String),
        #[rpc(tx=oneshot::Sender<()>, rx=mpsc::Receiver<(u8, Vec<u8>)>)]
        #[wrap(pub SetRequest)]
        Set { key: String, value: String },
        #[rpc]
        Plain(Plain),
    }";

fn stream(text: &str) -> TokenStream {
    text.parse().unwrap()
}

fn rpc_requests(attr: &str, item: &str) -> Result<Plan<String>, MacroError<String>> {
    irpc::derive::plan::rpc_requests(stream(attr), stream(item))
}

fn ident(s: &str) -> Lexeme {
    Lexeme::Ident(s.to_string())
}

fn string(s: &str) -> Lexeme {
    Lexeme::Str(s.to_string())
}

fn args(tokens: Vec<Lexeme>) -> Result<MacroArgs<String>, MacroError<String>> {
    MacroArgs::parse(&tokens)
}

fn field(name: Option<&str>, ty: &str) -> FieldPlan<String> {
    FieldPlan { attrs: Vec::new(), name: name.map(|n| n.to_string()), ty: ty.to_string() }
}

fn store() -> String {
    STORE.replace("#[rpc]\n", "#[rpc()]\n")
}

#[test]
fn plan_of_a_protocol() {
    let plan = rpc_requests("message = StoreMessage, alias = \"Msg\"", &store()).unwrap();
    assert_eq!(plan.enum_name, "StoreProtocol");
    assert_eq!(plan.vis, "pub (crate)");
    assert_eq!(plan.variants.len(), 3);
    assert_eq!(plan.aliases, Some(vec!["GetMsg".to_string(), "SetMsg".to_string(), "PlainMsg".to_string()]));
    assert_eq!(plan.with_channels, vec![0, 1, 2]);
    let get = &plan.variants[0];
    assert_eq!(get.name, "Get");
    assert_eq!(get.request_type, "GetRequest");
    let wrapper = get.wrapper.as_ref().unwrap();
    assert_eq!(
        wrapper.derives,
        ["::std::fmt::Debug", "::serde::Serialize", "::serde::Deserialize", "Clone"]
    );
    assert_eq!(wrapper.vis, "pub (crate)");
    assert_eq!((wrapper.kind, wrapper.field_vis.as_str()), (FieldKind::Unnamed, "pub"));
    assert_eq!(wrapper.fields, [field(None, "String")]);
    assert_eq!(get.attrs, ["# [doc = \" Doc comment.\"]"]);
    let channels = get.channels.as_ref().unwrap();
    assert_eq!(channels.tx, "oneshot :: Sender < Option < String > >");
    assert_eq!(channels.rx, DEFAULT_RX_TYPE);
    let set = &plan.variants[1];
    let wrapper = set.wrapper.as_ref().unwrap();
    assert_eq!((wrapper.vis.as_str(), wrapper.derives.len()), ("pub", 3));
    assert_eq!(wrapper.kind, FieldKind::Named);
    assert_eq!(wrapper.fields, [field(Some("key"), "String"), field(Some("value"), "String")]);
    assert!(set.attrs.is_empty());
    assert_eq!(set.channels.as_ref().unwrap().rx, "mpsc :: Receiver < (u8 , Vec < u8 >) >");
    let plain = &plan.variants[2];
    assert_eq!(plain.request_type, "Plain");
    assert!(plain.wrapper.is_none());
    assert_eq!(plain.channels.as_ref().unwrap().tx, DEFAULT_TX_TYPE);
    let message = plan.message.unwrap();
    assert_eq!(message.name, "StoreMessage");
    assert!(message.remote && message.parent_span && !message.span_propagation);
    assert_eq!(message.rpc_feature, None);
}

#[test]
fn macro_options() {
    let plan = rpc_requests("message = M, rpc_feature = \"rpc\", no_spans, span_propagation", &store()).unwrap();
    let message = plan.message.unwrap();
    assert_eq!(message.rpc_feature.as_deref(), Some("rpc"));
    assert!(message.remote && !message.parent_span && message.span_propagation);
    let plan = rpc_requests("message = M, no_rpc", &store()).unwrap();
    assert!(!plan.message.unwrap().remote);
    let plan = rpc_requests("", &store()).unwrap();
    assert!(plan.message.is_none() && plan.aliases.is_none());
}

#[test]
fn macro_errors() {
    let text = |attr: &str, item: &str| rpc_requests(attr, item).err().unwrap().text();
    assert_eq!(
        text("message = M", "struct Foo;"),
        "The rpc_requests macro can only be applied to enums"
    );
    assert_eq!(text("Service, Msg", "enum E { A(u8) }"), "Unknown parameter: Service");
    assert_eq!(
        text("message = M", "enum E { #[rpc(tx = A, fnord = Foo, extra = B)] A(u8) }"),
        "Unknown arguments provided: [\"extra\", \"fnord\"]"
    );
    assert_eq!(
        text("message = M", "enum E { #[rpc(tx = A)] A(u8), #[rpc(tx = A)] B(u8) }"),
        "Each variant must have a unique request type"
    );
    assert_eq!(
        text("message = M", "enum E { #[rpc(tx = A)] A(u8, u8) }"),
        "Each variant must either have exactly one unnamed field, or use the `wrap` argument in the `rpc` attribute."
    );
    assert_eq!(
        text("message = M", "enum E { #[rpc(tx = A)] #[rpc(tx = B)] A(u8) }"),
        "Each variant can only have one rpc attribute"
    );
    assert_eq!(text("no_rpc, rpc_feature = \"x\"", "enum E {}"), "rpc_feature is incompatible with no_rpc");
    assert_eq!(text("rpc_feature = \"x\", no_rpc", "enum E {}"), "rpc_feature is incompatible with no_rpc");
    assert_eq!(text("message = M,", "enum E {}"), "expected identifier");
    assert_eq!(text("message M", "enum E {}"), "expected `=`");
    assert_eq!(text("alias = M", "enum E {}"), "expected string literal");
    assert_eq!(text("message = struct", "enum E {}"), "expected identifier");
    assert_eq!(text("no_rpc no_spans", "enum E {}"), "unexpected token");
    assert_eq!(text("", "enum E { #[rpc] A(u8) }"), "expected attribute arguments in parentheses");
    assert_eq!(text("", "enum E { #[rpc(tx = =)] A(u8) }"), "expected a type");
    assert!(matches!(rpc_requests("", "enum E"), Err(MacroError::Parser(_))));
    assert_eq!(text("alias = c\"x\"", "enum E {}"), "expected string literal");
    assert_eq!(text("", "enum E { #[rpc = 1] A(u8) }"), "expected attribute arguments in parentheses");
    assert_eq!(text("", "enum E { #[rpc = ()] A(u8) }"), "expected attribute arguments in parentheses");
    assert_eq!(text("", "enum E { #[rpc = f()] A(u8) }"), "expected attribute arguments in parentheses");
    assert!(rpc_requests("", "enum E { #[rpc(tx = [u8; c\"x\"])] A(Foo<c\"x\">), }").is_ok());
    assert!(!text("", "enum E").is_empty());
}

#[test]
fn wrap_argument_of_the_rpc_attribute() {
    let plan = rpc_requests("", "enum E { #[rpc(wrap, tx = A)] First(u8, u8), #[rpc(wrap = Second)] B }").unwrap();
    assert_eq!(plan.variants[0].request_type, "First");
    assert_eq!(plan.variants[1].request_type, "Second");
    assert_eq!(plan.variants[0].wrapper.as_ref().unwrap().vis, "pub");
    assert_eq!(plan.variants[1].wrapper.as_ref().unwrap().vis, "pub");
}

#[test]
fn macro_args_from_tokens() {
    let eq = || Lexeme::Punct('=');
    let comma = || Lexeme::Punct(',');
    let a = args(vec![ident("message"), eq(), ident("M"), comma(), ident("alias"), eq(), string("Msg")]).unwrap();
    assert_eq!(a.message_enum_name.as_deref(), Some("M"));
    assert_eq!(a.alias_suffix.as_deref(), Some("Msg"));
    assert!(!a.no_rpc && !a.no_spans && !a.span_propagation);
    assert_eq!(
        args(vec![ident("no_rpc"), comma(), ident("rpc_feature"), eq(), string("x")]),
        Err(MacroError::RpcFeatureWithoutRpc)
    );
    assert_eq!(args(vec![Lexeme::Keyword("fn".to_string())]), Err(MacroError::ExpectedIdent));
}

#[test]
fn named_types_last_one_wins() {
    let tokens = vec![
        ident("tx"), Lexeme::Punct('='), ident("A"), Lexeme::Punct(','),
        ident("tx"), Lexeme::Punct('='), ident("B"), Lexeme::Punct(','),
    ];
    let types = vec![None, None, Some((3, "A".to_string())), None, None, None, Some((7, "B".to_string())), None];
    let mut parsed = NamedTypeArgs::parse(&tokens, &types, true).ok().unwrap();
    assert_eq!(parsed.remove("tx").as_deref(), Some("B"));
    assert!(parsed.check_empty().is_ok());
    assert_eq!(parsed.get("rx").err(), Some(MacroError::MissingType("rx".to_string())));
}

fn attribute(name: &str, args: Option<&str>) -> Attribute {
    Attribute {
        name: Some(name.to_string()),
        args: args.map(stream),
        tokens: stream(&format!("#[{}({})]", name, args.unwrap_or(""))),
    }
}

fn names(attrs: &[Attribute]) -> Vec<&str> {
    attrs.iter().map(|a| a.name.as_deref().unwrap()).collect()
}

#[test]
fn attributes_are_taken() {
    let mut attrs = vec![attribute("doc", None), attribute("rpc", None), attribute("serde", None)];
    let taken = take_attr(&mut attrs, "rpc").ok().unwrap().unwrap();
    assert_eq!(taken.name.as_deref(), Some("rpc"));
    assert_eq!(names(&attrs), ["doc", "serde"]);
    assert!(take_attr(&mut attrs, "rpc").ok().unwrap().is_none());
    assert_eq!(names(&attrs), ["doc", "serde"]);
    let mut attrs = vec![attribute("rpc", Some("a")), attribute("doc", None), attribute("rpc", Some("b"))];
    let e = take_attr(&mut attrs, "rpc").err().unwrap();
    assert_eq!(e.text(), "Each variant can only have one rpc attribute");
    assert_eq!(names(&attrs), ["doc", "rpc"]);
}

#[test]
fn rpc_attribute_is_handed_back() {
    let mut attrs = vec![attribute("doc", None), attribute("rpc", Some("tx = A")), attribute("cfg", None)];
    let (mut args, attr) = NamedTypeArgs::from_attrs(&mut attrs, true).ok().unwrap().unwrap();
    assert_eq!(args.remove("tx").as_deref(), Some("A"));
    assert_eq!(print(&attr.tokens), "# [rpc (tx = A)]");
    assert_eq!(names(&attrs), ["doc", "cfg"]);
    assert!(NamedTypeArgs::from_attrs(&mut attrs, true).ok().unwrap().is_none());
    assert_eq!(names(&attrs), ["doc", "cfg"]);
}

#[test]
fn tokens_are_printed() {
    assert_eq!(print(&stream("a::b<'x, [u8; 2]> {} (-1)")), "a :: b <'x , [u8 ; 2] > {} (- 1)");
    assert_eq!(print(&stream("")), "");
}

#[test]
fn variants_from_parts() {
    let mut plans: Vec<VariantPlan<String>> = Vec::new();
    let read = |name: &str, ty: &str| VariantRead {
        name: name.to_string(),
        attrs: Vec::new(),
        kind: FieldKind::Unnamed,
        fields: vec![field(None, ty)],
        rpc: None,
        wrap: None,
    };
    plan_variant(&mut plans, "", read("A", "u8")).unwrap();
    assert_eq!(plan_variant(&mut plans, "", read("B", "u8")), Err(MacroError::DuplicateRequestType));
    plan_variant(&mut plans, "", read("B", "u16")).unwrap();
    assert_eq!(plans.len(), 2);
    assert!(plans[0].channels.is_none());
    let wrapped = VariantRead {
        name: "C".to_string(),
        attrs: Vec::new(),
        kind: FieldKind::Unit,
        fields: Vec::new(),
        rpc: None,
        wrap: Some(WrapArgs { name: "Wrapped".to_string(), vis: None, derives: None }),
    };
    plan_variant(&mut plans, "pub", wrapped).unwrap();
    assert_eq!(plans[2].request_type, "Wrapped");
    assert_eq!(plans[2].wrapper.as_ref().unwrap().vis, "pub");
}

#[test]
fn wrapped_variant_with_two_fields() {
    let item = "enum P { #[rpc(tx = oneshot::Sender<i64>)] #[wrap(Multiply)] #[serde(skip)] Multiply(i64, i64) }";
    let plan = rpc_requests("message = M", item).unwrap();
    let variant = &plan.variants[0];
    assert_eq!(variant.request_type, "Multiply");
    assert_eq!(variant.attrs, ["# [serde (skip)]"]);
    let wrapper = variant.wrapper.as_ref().unwrap();
    assert_eq!((wrapper.name.as_str(), wrapper.vis.as_str()), ("Multiply", ""));
    assert_eq!(wrapper.fields, [field(None, "i64"), field(None, "i64")]);
    assert_eq!(wrapper.derives, ["::std::fmt::Debug", "::serde::Serialize", "::serde::Deserialize"]);
    assert_eq!(plan.with_channels, [0]);
}

#[test]
fn wrap_attribute_forms() {
    let wrap = |attr: &str| read_variant(&stream(&format!("{attr} A"))).map(|v| v.wrap.unwrap());
    let w = wrap("#[wrap(pub(crate) Name, derive(Clone, Copy))]").ok().unwrap();
    assert_eq!(w.name, "Name");
    assert_eq!(w.vis.as_deref(), Some("pub(crate)"));
    assert_eq!(w.derives.as_deref(), Some("Clone , Copy"));
    assert_eq!(wrap("#[wrap(Name, other)]").err(), Some(MacroError::UnexpectedToken));
    assert_eq!(wrap("#[wrap(Name Name)]").err(), Some(MacroError::UnexpectedToken));
    assert_eq!(wrap("#[wrap()]").err(), Some(MacroError::ExpectedIdent));
}

#[test]
fn first_form_of_the_macro() {
    let item = "enum E { #[cfg(x)] #[rpc(tx = mpsc::Sender<u8>, rx = R)] A(proto::Sum), B(Other<u8>) }";
    let legacy_requests = |attr: &str, item: &str| legacy::rpc_requests(stream(attr), stream(item));
    let plan = legacy_requests("Service, Msg", item).ok().unwrap();
    assert_eq!(plan.service_name, "Service");
    assert_eq!(plan.message_enum_name, "Msg");
    assert_eq!(plan.variants[0].attrs, ["# [cfg (x)]"]);
    assert_eq!(plan.variants[0].inner_type.as_deref(), Some("Sum"));
    assert_eq!(plan.variants[0].channels.as_ref().unwrap().rx, "R");
    assert_eq!(plan.variants[1].inner_type.as_deref(), Some("Other"));
    assert!(plan.variants[1].channels.is_none());
    let text = |attr: &str, item: &str| legacy::error_text(&legacy_requests(attr, item).err().unwrap());
    assert_eq!(text("Service, Msg", "struct Foo;"), "RpcRequests can only be applied to enums");
    assert_eq!(text("Service", item), "expected `,`");
    assert_eq!(text("Service, Msg", "enum E { #[rpc(rx = R)] A(u8) }"), "rpc requires a tx type");
    assert_eq!(
        text("Service, Msg", "enum E { #[rpc(tx = T, fnord = Foo)] A(u8) }"),
        "Unknown arguments provided: [\"fnord\"]"
    );
    assert_eq!(text("Service, Msg", "enum E { A }"), "Each variant must have exactly one unnamed field");
    assert_eq!(text("Service, Msg", "enum E { A(u8), B(u8) }"), "Each variant must have a unique request type");
}
