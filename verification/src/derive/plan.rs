//! What is generated for a protocol enum.
use crate::derive::args::{macro_args_spec, MacroArgs};
use crate::derive::lex::{
    attributes_of, classify, deep_result, is_text, item_parts, lexemes_of, parse_item,
    parse_variant, print, print_all, read_attributes, stream_trees, streams_trees, tokens_of, trees_text, trees_texts, variant_parts,
    Attribute, AttributeSpec, Field, FieldKind, FieldSpec, MacroError, MacroErrorSpec, Tree,
};
use crate::derive::variant_args::{
    find_types, key_index, keys_of, law_read_names_differ, lemma_key_index, ordered_keys, named_types_spec, no_named_types, types_spec, wrap_args_spec,
    NamedTypeArgs, NamedTypeArgsSpec, WrapArgs,
};
use proc_macro2::TokenStream;
use vstd::prelude::*;

verus! {

/// The attribute with the channels of a variant.
pub const ATTR_NAME: &'static str = "rpc";

/// The attribute with the wrapper type of a variant.
pub const WRAP_ATTR_NAME: &'static str = "wrap";

/// The name of the type of the channel for responses.
pub const TX_ATTR: &'static str = "tx";

/// The name of the type of the channel for updates.
pub const RX_ATTR: &'static str = "rx";

/// The type of the channel for responses, if none is given.
pub const DEFAULT_TX_TYPE: &'static str = "::irpc::channel::none::NoSender";

/// The type of the channel for updates, if none is given.
pub const DEFAULT_RX_TYPE: &'static str = "::irpc::channel::none::NoReceiver";

/// What every wrapper type derives.
pub const WRAPPER_DERIVES: (&'static str, &'static str, &'static str) = (
    "::std::fmt::Debug",
    "::serde::Serialize",
    "::serde::Deserialize",
);

/// The visibility of a wrapper type that the `wrap` argument of the `rpc` attribute asks for.
pub const ARGUMENT_VIS: &'static str = "pub";

/// The visibility of the fields of a wrapper type.
pub const FIELD_VIS: &'static str = "pub";

/// A field, by its texts.
#[derive(Debug, Clone, PartialEq, Eq)]
pub struct FieldPlan<S> {
    pub attrs: Vec<S>,
    pub name: Option<S>,
    pub ty: S,
}

/// A [`FieldPlan`] with its texts as sequences.
#[verifier::ext_equal]
pub struct FieldPlanSpec {
    pub attrs: Seq<Seq<char>>,
    pub name: Option<Seq<char>>,
    pub ty: Seq<char>,
}

impl DeepView for FieldPlan<String> {
    type V = FieldPlanSpec;

    open spec fn deep_view(&self) -> FieldPlanSpec {
        FieldPlanSpec {
            attrs: self.attrs.deep_view(),
            name: self.name.deep_view(),
            ty: self.ty@,
        }
    }
}

/// A variant of a protocol enum, with its attributes read.
pub struct VariantRead<S> {
    pub name: S,
    /// The attributes that stay on the variant, in their order.
    pub attrs: Vec<S>,
    pub kind: FieldKind,
    pub fields: Vec<FieldPlan<S>>,
    pub rpc: Option<NamedTypeArgs<S>>,
    pub wrap: Option<WrapArgs<S>>,
}

/// A [`VariantRead`] with its texts as sequences.
#[verifier::ext_equal]
pub struct VariantReadSpec {
    pub name: Seq<char>,
    pub attrs: Seq<Seq<char>>,
    pub kind: FieldKind,
    pub fields: Seq<FieldPlanSpec>,
    pub rpc: Option<NamedTypeArgsSpec>,
    pub wrap: Option<WrapArgs<Seq<char>>>,
}

impl DeepView for VariantRead<String> {
    type V = VariantReadSpec;

    open spec fn deep_view(&self) -> VariantReadSpec {
        VariantReadSpec {
            name: self.name@,
            attrs: self.attrs.deep_view(),
            kind: self.kind,
            fields: self.fields.deep_view(),
            rpc: self.rpc.deep_view(),
            wrap: self.wrap.deep_view(),
        }
    }
}

/// A wrapper type that is generated from the fields of a variant.
#[derive(Debug, Clone, PartialEq, Eq)]
pub struct WrapperPlan<S> {
    pub name: S,
    /// Its visibility. A `wrap` attribute gives it, or leaves it at that of the protocol enum. Without
    /// that attribute it is public.
    pub vis: S,
    /// What it derives, one list after another.
    pub derives: Vec<S>,
    pub kind: FieldKind,
    /// The visibility of its fields.
    pub field_vis: S,
    /// Its fields, which are those of the variant.
    pub fields: Vec<FieldPlan<S>>,
}

/// A [`WrapperPlan`] with its texts as sequences.
#[verifier::ext_equal]
pub struct WrapperPlanSpec {
    pub name: Seq<char>,
    pub vis: Seq<char>,
    pub derives: Seq<Seq<char>>,
    pub kind: FieldKind,
    pub field_vis: Seq<char>,
    pub fields: Seq<FieldPlanSpec>,
}

impl DeepView for WrapperPlan<String> {
    type V = WrapperPlanSpec;

    open spec fn deep_view(&self) -> WrapperPlanSpec {
        WrapperPlanSpec {
            name: self.name@,
            vis: self.vis@,
            derives: self.derives.deep_view(),
            kind: self.kind,
            field_vis: self.field_vis@,
            fields: self.fields.deep_view(),
        }
    }
}

/// The types of the channels of a request.
#[derive(Debug, Clone, PartialEq, Eq)]
pub struct ChannelTypes<S> {
    pub tx: S,
    pub rx: S,
}

impl DeepView for ChannelTypes<String> {
    type V = ChannelTypes<Seq<char>>;

    open spec fn deep_view(&self) -> ChannelTypes<Seq<char>> {
        ChannelTypes { tx: self.tx@, rx: self.rx@ }
    }
}

/// What is generated for a variant.
pub struct VariantPlan<S> {
    pub name: S,
    /// The attributes that stay on the variant, in their order: neither `rpc` nor `wrap`.
    pub attrs: Vec<S>,
    /// The type of the only field of the variant.
    pub request_type: S,
    /// The wrapper type that is generated from the fields of the variant, if there is one. It is
    /// the request type then.
    pub wrapper: Option<WrapperPlan<S>>,
    /// The channels of the request. Without them the request can not be sent by itself.
    pub channels: Option<ChannelTypes<S>>,
}

/// A [`VariantPlan`] with its texts as sequences.
#[verifier::ext_equal]
pub struct VariantPlanSpec {
    pub name: Seq<char>,
    pub attrs: Seq<Seq<char>>,
    pub request_type: Seq<char>,
    pub wrapper: Option<WrapperPlanSpec>,
    pub channels: Option<ChannelTypes<Seq<char>>>,
}

impl DeepView for VariantPlan<String> {
    type V = VariantPlanSpec;

    open spec fn deep_view(&self) -> VariantPlanSpec {
        VariantPlanSpec {
            name: self.name@,
            attrs: self.attrs.deep_view(),
            request_type: self.request_type@,
            wrapper: self.wrapper.deep_view(),
            channels: self.channels.deep_view(),
        }
    }
}

/// What is generated for the message enum.
#[derive(Debug, Clone, PartialEq, Eq)]
pub struct MessagePlan<S> {
    pub name: S,
    /// Whether there is an implementation for remote services.
    pub remote: bool,
    /// The feature that the implementation for remote services depends on.
    pub rpc_feature: Option<S>,
    /// Whether there is a method for the parent span of a message.
    pub parent_span: bool,
    /// Whether span contexts go over the wire.
    pub span_propagation: bool,
}

impl DeepView for MessagePlan<String> {
    type V = MessagePlan<Seq<char>>;

    open spec fn deep_view(&self) -> MessagePlan<Seq<char>> {
        MessagePlan {
            name: self.name@,
            remote: self.remote,
            rpc_feature: self.rpc_feature.deep_view(),
            parent_span: self.parent_span,
            span_propagation: self.span_propagation,
        }
    }
}

/// What is generated for a protocol enum.
pub struct Plan<S> {
    pub enum_name: S,
    /// The visibility of the protocol enum, which is that of the message enum too.
    pub vis: S,
    /// What is generated for each variant, in their order.
    pub variants: Vec<VariantPlan<S>>,
    /// The variants with channels, by their positions. They get conversions to the protocol enum
    /// and to the message enum.
    pub with_channels: Vec<usize>,
    /// The names of the type aliases for the variants, if there are any.
    pub aliases: Option<Vec<S>>,
    pub message: Option<MessagePlan<S>>,
}

/// A [`Plan`] with its texts as sequences.
#[verifier::ext_equal]
pub struct PlanSpec {
    pub enum_name: Seq<char>,
    pub vis: Seq<char>,
    pub variants: Seq<VariantPlanSpec>,
    pub with_channels: Seq<usize>,
    pub aliases: Option<Seq<Seq<char>>>,
    pub message: Option<MessagePlan<Seq<char>>>,
}

impl DeepView for Plan<String> {
    type V = PlanSpec;

    open spec fn deep_view(&self) -> PlanSpec {
        PlanSpec {
            enum_name: self.enum_name@,
            vis: self.vis@,
            variants: self.variants.deep_view(),
            with_channels: self.with_channels@,
            aliases: self.aliases.deep_view(),
            message: self.message.deep_view(),
        }
    }
}

/// The first attribute of a name, from position `i` on.
pub open spec fn attr_from(attrs: Seq<AttributeSpec>, name: Seq<char>, i: int) -> Option<int>
    decreases attrs.len() - i,
{
    if i < 0 || i >= attrs.len() {
        None
    } else if attrs[i].name == Some(name) {
        Some(i)
    } else {
        attr_from(attrs, name, i + 1)
    }
}

/// The only attribute of a name, if there is one.
pub open spec fn only_attr(attrs: Seq<AttributeSpec>, name: Seq<char>) -> Result<
    Option<AttributeSpec>,
    MacroErrorSpec,
> {
    match attr_from(attrs, name, 0) {
        None => Ok(None),
        Some(i) => if attr_from(attrs, name, i + 1) is Some {
            Err(MacroErrorSpec::DuplicateAttribute(name))
        } else {
            Ok(Some(attrs[i]))
        },
    }
}

/// The attributes without the first one of a name.
pub open spec fn without_attr(attrs: Seq<AttributeSpec>, name: Seq<char>) -> Seq<AttributeSpec> {
    match attr_from(attrs, name, 0) {
        None => attrs,
        Some(i) => attrs.remove(i),
    }
}

/// What taking the only attribute of a name out of `before` comes to. The attribute that is taken
/// out is the first one of that name, also if it is not the only one.
pub open spec fn attr_taken(
    before: Seq<Attribute>,
    after: Seq<Attribute>,
    name: Seq<char>,
    r: Result<Option<Attribute>, MacroError<String>>,
) -> bool {
    let attrs = Seq::new(before.len(), |i: int| before[i].deep_view());
    match attr_from(attrs, name, 0) {
        None => r == Ok::<Option<Attribute>, MacroError<String>>(None) && after == before,
        Some(i) => {
            &&& after == before.remove(i)
            &&& if attr_from(attrs, name, i + 1) is Some {
                r matches Err(e) && e.deep_view() == MacroErrorSpec::DuplicateAttribute(name)
            } else {
                r == Ok::<_, MacroError<String>>(Some(before[i]))
            }
        },
    }
}

/// Takes the only attribute of the name `name` out of the list. The others stay, in their order.
pub fn take_attr(attrs: &mut Vec<Attribute>, name: &str) -> (r: Result<
    Option<Attribute>,
    MacroError<String>,
>)
    ensures
        attr_taken(old(attrs)@, final(attrs)@, name@, r),
        deep_result(r) == only_attr(old(attrs).deep_view(), name@),
        final(attrs).deep_view() == without_attr(old(attrs).deep_view(), name@),
{
    let ghost all = attrs.deep_view();
    let ghost before = attrs@;
    assert(Seq::new(before.len(), |i: int| before[i].deep_view()) =~= all);
    let mut found: Option<usize> = None;
    let mut twice = false;
    let mut i: usize = 0;
    while i < attrs.len() && !twice
        invariant
            i <= attrs.len(),
            attrs@ == before,
            all == attrs.deep_view(),
            match found {
                None => !twice && attr_from(all, name@, i as int) == attr_from(all, name@, 0),
                Some(k) => {
                    &&& k < i
                    &&& attr_from(all, name@, 0) == Some(k as int)
                    &&& if twice {
                        attr_from(all, name@, k + 1) is Some
                    } else {
                        attr_from(all, name@, i as int) == attr_from(all, name@, k + 1)
                    }
                },
            },
        decreases attrs.len() - i,
    {
        assert(all[i as int] == attrs[i as int].deep_view());
        let same = match &attrs[i].name {
            Some(s) => is_text(s, name),
            None => false,
        };
        if same {
            match found {
                Some(_) => {
                    twice = true;
                },
                None => {
                    found = Some(i);
                },
            }
        }
        i = i + 1;
    }
    match found {
        None => Ok(None),
        Some(k) => {
            let attr = attrs.remove(k);
            proof {
                assert(all[k as int] == before[k as int].deep_view());
                assert(attrs.deep_view() =~= all.remove(k as int));
            }
            if twice {
                Err(MacroError::DuplicateAttribute(name.to_owned()))
            } else {
                Ok(Some(attr))
            }
        },
    }
}

/// The tokens between the delimiters of the arguments of an attribute.
pub open spec fn argument_trees(attr: AttributeSpec) -> Result<Seq<Tree>, MacroErrorSpec> {
    match attr.args {
        Some(trees) => Ok(trees),
        None => Err(MacroErrorSpec::ExpectedArguments),
    }
}

/// The arguments of the `rpc` attribute among these attributes, if there is one.
pub open spec fn rpc_attr(attrs: Seq<AttributeSpec>, wraps: bool) -> Result<
    Option<NamedTypeArgsSpec>,
    MacroErrorSpec,
> {
    match only_attr(attrs, ATTR_NAME@) {
        Err(e) => Err(e),
        Ok(None) => Ok(None),
        Ok(Some(attr)) => match argument_trees(attr) {
            Err(e) => Err(e),
            Ok(trees) => match named_types_spec(
                lexemes_of(trees),
                types_spec(trees),
                wraps,
                0,
                no_named_types(),
            ) {
                Err(e) => Err(e),
                Ok(args) => Ok(Some(args)),
            },
        },
    }
}

impl NamedTypeArgs<String> {
    /// Takes the `rpc` attribute out of these attributes, and reads it. The others stay, in their
    /// order.
    pub fn from_attrs(attrs: &mut Vec<Attribute>, wraps: bool) -> (r: Result<
        Option<(Self, Attribute)>,
        MacroError<String>,
    >)
        ensures
            match r {
                Ok(None) => {
                    &&& rpc_attr(old(attrs).deep_view(), wraps) == Ok::<
                        Option<NamedTypeArgsSpec>,
                        MacroErrorSpec,
                    >(None)
                    &&& final(attrs)@ == old(attrs)@
                },
                Ok(Some((args, attr))) => {
                    &&& rpc_attr(old(attrs).deep_view(), wraps) == Ok::<_, MacroErrorSpec>(
                        Some(args.deep_view()),
                    )
                    &&& attr_taken(
                        old(attrs)@,
                        final(attrs)@,
                        ATTR_NAME@,
                        Ok::<_, MacroError<String>>(Some(attr)),
                    )
                },
                Err(e) => rpc_attr(old(attrs).deep_view(), wraps) == Err::<
                    Option<NamedTypeArgsSpec>,
                    _,
                >(e.deep_view()),
            },
            final(attrs).deep_view() == without_attr(old(attrs).deep_view(), ATTR_NAME@),
    {
        let attr = match take_attr(attrs, ATTR_NAME)? {
            None => {
                return Ok(None);
            },
            Some(attr) => attr,
        };
        let args = match &attr.args {
            None => {
                return Err(MacroError::ExpectedArguments);
            },
            Some(stream) => {
                let types = find_types(stream);
                let tokens = tokens_of(stream);
                assert(tokens.deep_view().len() == tokens.len());
                let lexemes = classify(tokens);
                assert(lexemes.deep_view().len() == lexemes.len());
                NamedTypeArgs::parse(&lexemes, &types, wraps)?
            },
        };
        Ok(Some((args, attr)))
    }
}

/// The arguments of the `wrap` attribute among these attributes, if there is one.
pub open spec fn wrap_attr(attrs: Seq<AttributeSpec>) -> Result<
    Option<WrapArgs<Seq<char>>>,
    MacroErrorSpec,
> {
    match only_attr(attrs, WRAP_ATTR_NAME@) {
        Err(e) => Err(e),
        Ok(None) => Ok(None),
        Ok(Some(attr)) => match argument_trees(attr) {
            Err(e) => Err(e),
            Ok(trees) => match wrap_args_spec(lexemes_of(trees)) {
                Err(e) => Err(e),
                Ok(args) => Ok(Some(args)),
            },
        },
    }
}

impl WrapArgs<String> {
    /// Takes the `wrap` attribute out of these attributes, and reads it. The others stay, in their
    /// order.
    pub fn from_attrs(attrs: &mut Vec<Attribute>) -> (r: Result<Option<Self>, MacroError<String>>)
        ensures
            deep_result(r) == wrap_attr(old(attrs).deep_view()),
            final(attrs).deep_view() == without_attr(old(attrs).deep_view(), WRAP_ATTR_NAME@),
    {
        match take_attr(attrs, WRAP_ATTR_NAME)? {
            None => Ok(None),
            Some(attr) => match &attr.args {
                None => Err(MacroError::ExpectedArguments),
                Some(stream) => {
                    let args = WrapArgs::parse(&classify(tokens_of(stream)))?;
                    Ok(Some(args))
                },
            },
        }
    }
}

/// The texts of some attributes.
pub open spec fn attr_texts(attrs: Seq<AttributeSpec>) -> Seq<Seq<char>> {
    Seq::new(attrs.len(), |i: int| trees_text(attrs[i].tokens))
}

/// Prints some attributes.
pub(crate) fn print_attrs(attrs: &Vec<Attribute>) -> (r: Vec<String>)
    ensures
        r.deep_view() == attr_texts(attrs.deep_view()),
{
    let mut texts: Vec<String> = Vec::new();
    let mut i: usize = 0;
    while i < attrs.len()
        invariant
            i <= attrs.len(),
            texts.len() == i,
            forall|k: int|
                0 <= k < i ==> (#[trigger] texts[k])@ == trees_text(stream_trees(attrs[k].tokens)),
        decreases attrs.len() - i,
    {
        texts.push(print(&attrs[i].tokens));
        i = i + 1;
    }
    assert(texts.deep_view() =~= attr_texts(attrs.deep_view()));
    texts
}

/// A field by its texts.
pub open spec fn field_text(field: FieldSpec) -> FieldPlanSpec {
    FieldPlanSpec {
        attrs: trees_texts(field.attrs),
        name: field.name,
        ty: trees_text(field.ty),
    }
}

/// Some fields by their texts.
pub open spec fn field_texts(fields: Seq<FieldSpec>) -> Seq<FieldPlanSpec> {
    Seq::new(fields.len(), |i: int| field_text(fields[i]))
}

/// Prints some fields.
pub(crate) fn print_fields(fields: &Vec<Field>) -> (r: Vec<FieldPlan<String>>)
    ensures
        r.deep_view() == field_texts(fields.deep_view()),
{
    let mut texts: Vec<FieldPlan<String>> = Vec::new();
    let mut i: usize = 0;
    while i < fields.len()
        invariant
            i <= fields.len(),
            texts.len() == i,
            forall|k: int|
                0 <= k < i ==> (#[trigger] texts[k]).deep_view() == field_text(
                    fields[k].deep_view(),
                ),
        decreases fields.len() - i,
    {
        let attrs = print_all(&fields[i].attrs);
        let name = match &fields[i].name {
            Some(name) => Some(name.clone()),
            None => None,
        };
        let ty = print(&fields[i].ty);
        texts.push(FieldPlan { attrs, name, ty });
        i = i + 1;
    }
    assert(texts.deep_view() =~= field_texts(fields.deep_view()));
    texts
}

/// The variant that some token trees are, with its attributes read.
pub open spec fn variant_read(trees: Seq<Tree>) -> Result<VariantReadSpec, MacroErrorSpec> {
    match variant_parts(trees) {
        None => Err(MacroErrorSpec::Parser),
        Some(parts) => {
            let attrs = attributes_of(parts.attrs);
            match rpc_attr(attrs, true) {
                Err(e) => Err(e),
                Ok(rpc) => match wrap_attr(without_attr(attrs, ATTR_NAME@)) {
                    Err(e) => Err(e),
                    Ok(wrap) => Ok(
                        VariantReadSpec {
                            name: parts.name,
                            attrs: attr_texts(
                                without_attr(without_attr(attrs, ATTR_NAME@), WRAP_ATTR_NAME@),
                            ),
                            kind: parts.kind,
                            fields: field_texts(parts.fields),
                            rpc,
                            wrap,
                        },
                    ),
                },
            }
        },
    }
}

/// Reads a variant and its attributes.
pub fn read_variant(stream: &TokenStream) -> (r: Result<VariantRead<String>, MacroError<String>>)
    ensures
        deep_result(r) == variant_read(stream_trees(*stream)),
{
    match parse_variant(stream) {
        Err(message) => Err(MacroError::Parser(message)),
        Ok(parts) => {
            let mut attrs = read_attributes(parts.attrs);
            let rpc = match NamedTypeArgs::from_attrs(&mut attrs, true)? {
                Some((args, _)) => Some(args),
                None => None,
            };
            let wrap = WrapArgs::from_attrs(&mut attrs)?;
            let attrs = print_attrs(&attrs);
            let fields = print_fields(&parts.fields);
            Ok(VariantRead { name: parts.name, attrs, kind: parts.kind, fields, rpc, wrap })
        },
    }
}

/// How a variant is wrapped, if it is. The `wrap` attribute says it. Without that attribute, the
/// `wrap` argument of the `rpc` attribute may name the wrapper type, or let it have the name of the
/// variant. It is public then.
pub open spec fn wrap_spec(read: VariantReadSpec) -> Option<WrapArgs<Seq<char>>> {
    match read.wrap {
        Some(wrap) => Some(wrap),
        None => match read.rpc {
            Some(NamedTypeArgsSpec { wrap: Some(Some(name)), .. }) => Some(
                WrapArgs { name, vis: Some(ARGUMENT_VIS@), derives: None },
            ),
            Some(NamedTypeArgsSpec { wrap: Some(None), .. }) => Some(
                WrapArgs { name: read.name, vis: Some(ARGUMENT_VIS@), derives: None },
            ),
            _ => None,
        },
    }
}

/// The wrapper type of a variant of a protocol enum with the visibility `vis`, if there is one.
pub open spec fn wrapper_spec(vis: Seq<char>, read: VariantReadSpec) -> Option<WrapperPlanSpec> {
    match wrap_spec(read) {
        Some(wrap) => Some(
            WrapperPlanSpec {
                name: wrap.name,
                vis: match wrap.vis {
                    Some(given) => given,
                    None => vis,
                },
                derives: seq![WRAPPER_DERIVES.0@, WRAPPER_DERIVES.1@, WRAPPER_DERIVES.2@]
                    + match wrap.derives {
                    Some(more) => seq![more],
                    None => Seq::empty(),
                },
                kind: read.kind,
                field_vis: FIELD_VIS@,
                fields: read.fields,
            },
        ),
        None => None,
    }
}

/// The request type of a variant: its wrapper type, or the type of its only unnamed field.
pub open spec fn request_type_spec(read: VariantReadSpec) -> Option<Seq<char>> {
    match wrap_spec(read) {
        Some(wrap) => Some(wrap.name),
        None => if read.kind is Unnamed && read.fields.len() == 1 {
            Some(read.fields[0].ty)
        } else {
            None
        },
    }
}

/// The type of the name `key`, or else `default`, and the types without it.
pub open spec fn taken_type(
    types: Seq<(Seq<char>, Seq<char>)>,
    key: Seq<char>,
    default: Seq<char>,
) -> (Seq<char>, Seq<(Seq<char>, Seq<char>)>) {
    match key_index(types, key) {
        Some(i) => (types[i].1, types.remove(i)),
        None => (default, types),
    }
}

/// The channels that the `rpc` attribute gives: there are no types but `tx` and `rx`.
pub open spec fn channels_spec(args: NamedTypeArgsSpec) -> Result<
    ChannelTypes<Seq<char>>,
    MacroErrorSpec,
> {
    let (rx, without_rx) = taken_type(args.types, RX_ATTR@, DEFAULT_RX_TYPE@);
    let (tx, rest) = taken_type(without_rx, TX_ATTR@, DEFAULT_TX_TYPE@);
    if rest.len() == 0 {
        Ok(ChannelTypes { tx, rx })
    } else {
        Err(MacroErrorSpec::UnknownArguments(ordered_keys(rest, rest.len() as int)))
    }
}

/// What is generated for a variant that comes after the variants `before`, in a protocol enum with
/// the visibility `vis`.
pub open spec fn variant_plan_spec(
    before: Seq<VariantPlanSpec>,
    vis: Seq<char>,
    read: VariantReadSpec,
) -> Result<VariantPlanSpec, MacroErrorSpec> {
    match request_type_spec(read) {
        None => Err(MacroErrorSpec::NoRequestType),
        Some(request_type) => if has_request_type(before, request_type) {
            Err(MacroErrorSpec::DuplicateRequestType)
        } else {
            match read.rpc {
                None => Ok(
                    VariantPlanSpec {
                        name: read.name,
                        attrs: read.attrs,
                        request_type,
                        wrapper: wrapper_spec(vis, read),
                        channels: None,
                    },
                ),
                Some(args) => match channels_spec(args) {
                    Err(e) => Err(e),
                    Ok(channels) => Ok(
                        VariantPlanSpec {
                            name: read.name,
                            attrs: read.attrs,
                            request_type,
                            wrapper: wrapper_spec(vis, read),
                            channels: Some(channels),
                        },
                    ),
                },
            }
        },
    }
}

/// Whether a variant has this request type.
pub open spec fn has_request_type(
    variants: Seq<VariantPlanSpec>,
    request_type: Seq<char>,
) -> bool {
    exists|i: int| 0 <= i < variants.len() && (#[trigger] variants[i]).request_type == request_type
}

/// The channels that the `rpc` attribute gives.
pub fn channel_types(args: NamedTypeArgs<String>) -> (r: Result<
    ChannelTypes<String>,
    MacroError<String>,
>)
    ensures
        deep_result(r) == channels_spec(args.deep_view()),
{
    let mut args = args;
    let rx = match args.remove(RX_ATTR) {
        Some(ty) => ty,
        None => DEFAULT_RX_TYPE.to_owned(),
    };
    let tx = match args.remove(TX_ATTR) {
        Some(ty) => ty,
        None => DEFAULT_TX_TYPE.to_owned(),
    };
    args.check_empty()?;
    Ok(ChannelTypes { tx, rx })
}

fn is_known_type(variants: &Vec<VariantPlan<String>>, request_type: &String) -> (r: bool)
    ensures
        r == has_request_type(variants.deep_view(), request_type@),
{
    let ghost all = variants.deep_view();
    let mut i: usize = 0;
    while i < variants.len()
        invariant
            i <= variants.len(),
            all == variants.deep_view(),
            forall|k: int| 0 <= k < i ==> (#[trigger] all[k]).request_type != request_type@,
        decreases variants.len() - i,
    {
        assert(all[i as int] == variants[i as int].deep_view());
        if variants[i].request_type == *request_type {
            return true;
        }
        i = i + 1;
    }
    false
}

/// The wrapper type that `wrap` asks for.
fn plan_wrapper(
    wrap: WrapArgs<String>,
    vis: &str,
    kind: FieldKind,
    fields: Vec<FieldPlan<String>>,
) -> (r: WrapperPlan<String>)
    ensures
        forall|read: VariantReadSpec|
            wrap_spec(read) == Some(wrap.deep_view()) && read.kind == kind && read.fields
                == fields.deep_view() ==> #[trigger] wrapper_spec(vis@, read) == Some(r.deep_view()),
{
    let mut derives: Vec<String> = Vec::new();
    derives.push(WRAPPER_DERIVES.0.to_owned());
    derives.push(WRAPPER_DERIVES.1.to_owned());
    derives.push(WRAPPER_DERIVES.2.to_owned());
    let WrapArgs { name, vis: given, derives: more } = wrap;
    match more {
        Some(more) => {
            derives.push(more);
        },
        None => {},
    }
    assert(derives.deep_view() =~= seq![WRAPPER_DERIVES.0@, WRAPPER_DERIVES.1@, WRAPPER_DERIVES.2@]
        + match wrap.derives {
        Some(more) => seq![more@],
        None => Seq::empty(),
    });
    let vis = match given {
        Some(given) => given,
        None => vis.to_owned(),
    };
    WrapperPlan { name, vis, derives, kind, field_vis: FIELD_VIS.to_owned(), fields }
}

/// Lays out what is generated for a variant, and adds it to that for the variants before it.
pub fn plan_variant(
    variants: &mut Vec<VariantPlan<String>>,
    vis: &str,
    read: VariantRead<String>,
) -> (r: Result<(), MacroError<String>>)
    ensures
        match variant_plan_spec(old(variants).deep_view(), vis@, read.deep_view()) {
            Ok(plan) => r is Ok && final(variants).deep_view() == old(variants).deep_view().push(
                plan,
            ),
            Err(e) => {
                &&& deep_result(r) == Err::<(), _>(e)
                &&& final(variants).deep_view() == old(variants).deep_view()
            },
        },
{
    let ghost spec = read.deep_view();
    let VariantRead { name, attrs, kind, fields, rpc, wrap } = read;
    let wrap: Option<WrapArgs<String>> = match wrap {
        Some(wrap) => Some(wrap),
        None => match &rpc {
            Some(args) => match &args.wrap {
                Some(Some(name)) => Some(
                    WrapArgs {
                        name: name.clone(),
                        vis: Some(ARGUMENT_VIS.to_owned()),
                        derives: None,
                    },
                ),
                Some(None) => Some(
                    WrapArgs {
                        name: name.clone(),
                        vis: Some(ARGUMENT_VIS.to_owned()),
                        derives: None,
                    },
                ),
                None => None,
            },
            None => None,
        },
    };
    assert(wrap.deep_view() == wrap_spec(spec));
    let request_type: String = match &wrap {
        Some(wrap) => wrap.name.clone(),
        None => {
            if kind != FieldKind::Unnamed || fields.len() != 1 {
                return Err(MacroError::NoRequestType);
            }
            assert(spec.fields[0] == fields[0].deep_view());
            fields[0].ty.clone()
        },
    };
    assert(request_type_spec(spec) == Some(request_type@));
    if is_known_type(variants, &request_type) {
        return Err(MacroError::DuplicateRequestType);
    }
    let channels: Option<ChannelTypes<String>> = match rpc {
        Some(args) => {
            let channels = channel_types(args)?;
            Some(channels)
        },
        None => None,
    };
    let wrapper: Option<WrapperPlan<String>> = match wrap {
        Some(wrap) => Some(plan_wrapper(wrap, vis, kind, fields)),
        None => None,
    };
    assert(wrapper.deep_view() == wrapper_spec(vis@, spec));
    let ghost before = variants.deep_view();
    let plan = VariantPlan { name, attrs, request_type, wrapper, channels };
    let ghost plan_view = plan.deep_view();
    variants.push(plan);
    assert(variants.deep_view() =~= before.push(plan_view));
    Ok(())
}

/// What is generated for these variants, from position `i` on.
pub open spec fn variant_plans_spec(
    vis: Seq<char>,
    variants: Seq<Seq<Tree>>,
    i: int,
    before: Seq<VariantPlanSpec>,
) -> Result<Seq<VariantPlanSpec>, MacroErrorSpec>
    decreases variants.len() - i,
{
    if i < 0 || i >= variants.len() {
        Ok(before)
    } else {
        match variant_read(variants[i]) {
            Err(e) => Err(e),
            Ok(read) => match variant_plan_spec(before, vis, read) {
                Err(e) => Err(e),
                Ok(plan) => variant_plans_spec(vis, variants, i + 1, before.push(plan)),
            },
        }
    }
}

/// The positions of the variants with channels.
pub open spec fn channel_positions(variants: Seq<VariantPlanSpec>) -> Seq<usize>
    decreases variants.len(),
{
    if variants.len() == 0 {
        Seq::empty()
    } else {
        let before = channel_positions(variants.drop_last());
        if variants.last().channels is Some {
            before.push((variants.len() - 1) as usize)
        } else {
            before
        }
    }
}

/// What is generated for a protocol enum.
pub open spec fn plan_spec(
    args: MacroArgs<Seq<char>>,
    enum_name: Seq<char>,
    vis: Seq<char>,
    variants: Seq<VariantPlanSpec>,
) -> PlanSpec {
    PlanSpec {
        enum_name,
        vis,
        variants,
        with_channels: channel_positions(variants),
        aliases: match args.alias_suffix {
            Some(suffix) => Some(Seq::new(variants.len(), |i: int| variants[i].name + suffix)),
            None => None,
        },
        message: match args.message_enum_name {
            Some(name) => Some(
                MessagePlan {
                    name,
                    remote: !args.no_rpc,
                    rpc_feature: args.rpc_feature,
                    parent_span: !args.no_spans,
                    span_propagation: args.span_propagation,
                },
            ),
            None => None,
        },
    }
}

/// Lays out what is generated for a protocol enum, from what is generated for its variants.
pub fn plan_enum(
    args: MacroArgs<String>,
    enum_name: String,
    vis: String,
    variants: Vec<VariantPlan<String>>,
) -> (r: Plan<String>)
    ensures
        r.deep_view() == plan_spec(args.deep_view(), enum_name@, vis@, variants.deep_view()),
{
    let ghost all = variants.deep_view();
    let ghost spec = args.deep_view();
    let mut with_channels: Vec<usize> = Vec::new();
    let mut aliases: Option<Vec<String>> = None;
    let mut i: usize = 0;
    assert(all.take(0) =~= Seq::empty());
    while i < variants.len()
        invariant
            i <= variants.len(),
            all == variants.deep_view(),
            with_channels@ == channel_positions(all.take(i as int)),
        decreases variants.len() - i,
    {
        proof {
            assert(all[i as int] == variants[i as int].deep_view());
            assert(all.take(i + 1).drop_last() =~= all.take(i as int));
            assert(all.take(i + 1).last() == all[i as int]);
        }
        if variants[i].channels.is_some() {
            with_channels.push(i);
        }
        i = i + 1;
    }
    assert(all.take(i as int) =~= all);
    match &args.alias_suffix {
        Some(suffix) => {
            let mut names: Vec<String> = Vec::new();
            let mut k: usize = 0;
            while k < variants.len()
                invariant
                    k <= variants.len(),
                    all == variants.deep_view(),
                    names.len() == k,
                    forall|j: int| 0 <= j < k ==> (#[trigger] names[j])@ == all[j].name + suffix@,
                decreases variants.len() - k,
            {
                assert(all[k as int] == variants[k as int].deep_view());
                names.push(variants[k].name.clone().concat(suffix.as_str()));
                k = k + 1;
            }
            assert(names.deep_view() =~= Seq::new(all.len(), |i: int| all[i].name + suffix@));
            aliases = Some(names);
        },
        None => {},
    }
    let message: Option<MessagePlan<String>> = match args.message_enum_name {
        Some(name) => Some(
            MessagePlan {
                name,
                remote: !args.no_rpc,
                rpc_feature: args.rpc_feature,
                parent_span: !args.no_spans,
                span_propagation: args.span_propagation,
            },
        ),
        None => None,
    };
    assert(message.deep_view() == plan_spec(spec, enum_name@, vis@, all).message);
    Plan { enum_name, vis, variants, with_channels, aliases, message }
}

/// What the macro generates for the arguments `attr` and the item `item`.
pub open spec fn rpc_requests_spec(attr: Seq<Tree>, item: Seq<Tree>) -> Result<
    PlanSpec,
    MacroErrorSpec,
> {
    match item_parts(item) {
        None => Err(MacroErrorSpec::Parser),
        Some(parts) => match macro_args_spec(lexemes_of(attr)) {
            Err(e) => Err(e),
            Ok(args) => match parts.variants {
                None => Err(MacroErrorSpec::NotAnEnum),
                Some(variants) => match variant_plans_spec(
                    trees_text(parts.vis),
                    variants,
                    0,
                    Seq::empty(),
                ) {
                    Err(e) => Err(e),
                    Ok(plans) => Ok(plan_spec(args, parts.name, trees_text(parts.vis), plans)),
                },
            },
        },
    }
}

/// Lays out what the macro generates for the arguments `attr` and the item `item`.
pub fn rpc_requests(attr: TokenStream, item: TokenStream) -> (r: Result<
    Plan<String>,
    MacroError<String>,
>)
    ensures
        deep_result(r) == rpc_requests_spec(stream_trees(attr), stream_trees(item)),
{
    let parts = match parse_item(&item) {
        Ok(parts) => parts,
        Err(message) => {
            return Err(MacroError::Parser(message));
        },
    };
    let args = MacroArgs::parse(&classify(tokens_of(&attr)))?;
    let vis = print(&parts.vis);
    let variants = match parts.variants {
        Some(variants) => variants,
        None => {
            return Err(MacroError::NotAnEnum);
        },
    };
    let ghost name = parts.name@;
    let ghost all = streams_trees(variants@);
    let mut plans: Vec<VariantPlan<String>> = Vec::new();
    let mut i: usize = 0;
    assert(plans.deep_view() =~= Seq::empty());
    while i < variants.len()
        invariant
            i <= variants.len(),
            all == streams_trees(variants@),
            name == parts.name@,
            rpc_requests_spec(stream_trees(attr), stream_trees(item)) == match variant_plans_spec(
                vis@,
                all,
                0,
                Seq::empty(),
            ) {
                Err(e) => Err(e),
                Ok(p) => Ok(plan_spec(args.deep_view(), name, vis@, p)),
            },
            variant_plans_spec(vis@, all, i as int, plans.deep_view()) == variant_plans_spec(
                vis@,
                all,
                0,
                Seq::empty(),
            ),
        decreases variants.len() - i,
    {
        assert(all[i as int] == stream_trees(variants[i as int]));
        let read = read_variant(&variants[i])?;
        plan_variant(&mut plans, vis.as_str(), read)?;
        i = i + 1;
    }
    Ok(plan_enum(args, parts.name, vis, plans))
}

/// In what is generated for a protocol enum, every variant has a request type of its own.
pub proof fn law_request_types_are_unique(attr: Seq<Tree>, item: Seq<Tree>)
    ensures
        rpc_requests_spec(attr, item) matches Ok(plan) ==> request_types_differ(plan.variants),
{
    if let Some(parts) = item_parts(item) {
        if let Some(variants) = parts.variants {
            lemma_request_types_differ(trees_text(parts.vis), variants, 0, Seq::empty());
        }
    }
}

proof fn lemma_request_types_differ(
    vis: Seq<char>,
    texts: Seq<Seq<Tree>>,
    i: int,
    before: Seq<VariantPlanSpec>,
)
    requires
        0 <= i <= texts.len(),
        before.len() == i,
        request_types_differ(before),
    ensures
        variant_plans_spec(vis, texts, i, before) matches Ok(plans) ==> plans.len() == texts.len()
            && request_types_differ(plans),
    decreases texts.len() - i,
{
    if i < texts.len() {
        if let Ok(read) = variant_read(texts[i]) {
            if let Ok(plan) = variant_plan_spec(before, vis, read) {
                let next = before.push(plan);
                assert forall|a: int, b: int| 0 <= a < b < next.len() implies (
                #[trigger] next[a]).request_type != (#[trigger] next[b]).request_type by {
                    if b == before.len() {
                        assert(before[a] == next[a]);
                    } else {
                        assert(before[a] == next[a] && before[b] == next[b]);
                    }
                }
                lemma_request_types_differ(vis, texts, i + 1, next);
            }
        }
    }
}

/// No two variants have the same request type.
pub open spec fn request_types_differ(variants: Seq<VariantPlanSpec>) -> bool {
    forall|a: int, b: int|
        0 <= a < b < variants.len() ==> (#[trigger] variants[a]).request_type != (
        #[trigger] variants[b]).request_type
}

/// A variant that is wrapped has its wrapper type as its request type. That type has the fields of
/// the variant, and derives what every wrapper type derives. With a `wrap` attribute it has the
/// visibility of the enum unless another one is given, and else it is public. A variant with an `rpc` attribute has channels.
pub proof fn law_variant_plan(before: Seq<VariantPlanSpec>, vis: Seq<char>, read: VariantReadSpec)
    ensures
        variant_plan_spec(before, vis, read) matches Ok(plan) ==> {
            &&& plan.name == read.name
            &&& plan.attrs == read.attrs
            &&& plan.wrapper matches Some(wrapper) ==> {
                &&& plan.request_type == wrapper.name
                &&& wrapper.fields == read.fields
                &&& wrapper.kind == read.kind
                &&& wrapper.vis == match read.wrap {
                    Some(wrap) => match wrap.vis {
                        Some(given) => given,
                        None => vis,
                    },
                    None => ARGUMENT_VIS@,
                }
                &&& wrapper.derives.contains(WRAPPER_DERIVES.0@)
                &&& wrapper.derives.contains(WRAPPER_DERIVES.1@)
                &&& wrapper.derives.contains(WRAPPER_DERIVES.2@)
            }
            &&& plan.wrapper is None ==> read.kind is Unnamed && read.fields.len() == 1
                && read.fields[0].ty == plan.request_type
            &&& plan.channels is Some <==> read.rpc is Some
        },
{
    if let Ok(plan) = variant_plan_spec(before, vis, read) {
        if let Some(wrapper) = plan.wrapper {
            assert(wrapper.derives[0] == WRAPPER_DERIVES.0@);
            assert(wrapper.derives[1] == WRAPPER_DERIVES.1@);
            assert(wrapper.derives[2] == WRAPPER_DERIVES.2@);
        }
    }
}

/// A variant keeps its attributes in their order, but for the `rpc` attribute and the `wrap`
/// attribute: there is none of these left.
pub proof fn law_attributes_are_taken(trees: Seq<Tree>)
    ensures
        variant_read(trees) is Ok ==> {
            let attrs = attributes_of(variant_parts(trees)->0.attrs);
            let left = without_attr(without_attr(attrs, ATTR_NAME@), WRAP_ATTR_NAME@);
            &&& variant_read(trees)->Ok_0.attrs == attr_texts(left)
            &&& attr_from(left, ATTR_NAME@, 0) is None
            &&& attr_from(left, WRAP_ATTR_NAME@, 0) is None
        },
{
    if variant_read(trees) is Ok {
        let attrs = attributes_of(variant_parts(trees)->0.attrs);
        let first = without_attr(attrs, ATTR_NAME@);
        let left = without_attr(first, WRAP_ATTR_NAME@);
        lemma_none_left(attrs, ATTR_NAME@);
        lemma_none_left(first, WRAP_ATTR_NAME@);
        lemma_attr_from(first, WRAP_ATTR_NAME@, 0);
        lemma_attr_from(first, ATTR_NAME@, 0);
        assert forall|k: int| 0 <= k < left.len() implies (#[trigger] left[k]).name != Some(ATTR_NAME@) by {
            if let Some(i) = attr_from(first, WRAP_ATTR_NAME@, 0) {
                assert(left[k] == first[if k < i { k } else { k + 1 }]);
            }
        }
        lemma_attr_from(left, ATTR_NAME@, 0);
    }
}

proof fn lemma_attr_from(attrs: Seq<AttributeSpec>, name: Seq<char>, i: int)
    requires
        0 <= i <= attrs.len(),
    ensures
        match attr_from(attrs, name, i) {
            Some(k) => {
                &&& i <= k < attrs.len()
                &&& attrs[k].name == Some(name)
                &&& forall|j: int| i <= j < k ==> (#[trigger] attrs[j]).name != Some(name)
            },
            None => forall|j: int| i <= j < attrs.len() ==> (#[trigger] attrs[j]).name != Some(name),
        },
    decreases attrs.len() - i,
{
    if i < attrs.len() && attrs[i].name != Some(name) {
        lemma_attr_from(attrs, name, i + 1);
    }
}

proof fn lemma_none_left(attrs: Seq<AttributeSpec>, name: Seq<char>)
    requires
        only_attr(attrs, name) is Ok,
    ensures
        attr_from(without_attr(attrs, name), name, 0) is None,
{
    let left = without_attr(attrs, name);
    lemma_attr_from(attrs, name, 0);
    lemma_attr_from(left, name, 0);
    if let Some(i) = attr_from(attrs, name, 0) {
        lemma_attr_from(attrs, name, i + 1);
        if let Some(k) = attr_from(left, name, 0) {
            assert(left[k] == attrs[if k < i { k } else { k + 1 }]);
        }
    }
}

/// The variants that get conversions are those with channels, in their order.
pub proof fn law_channel_positions(variants: Seq<VariantPlanSpec>)
    requires
        variants.len() <= usize::MAX,
    ensures
        forall|k: int|
            0 <= k < channel_positions(variants).len() ==> {
                &&& (#[trigger] channel_positions(variants)[k]) < variants.len()
                &&& variants[channel_positions(variants)[k] as int].channels is Some
            },
        forall|i: usize|
            i < variants.len() && (#[trigger] variants[i as int]).channels is Some
                ==> channel_positions(variants).contains(i),
        forall|j: int, k: int|
            0 <= j < k < channel_positions(variants).len() ==> #[trigger] channel_positions(
                variants,
            )[j] < #[trigger] channel_positions(variants)[k],
    decreases variants.len(),
{
    if variants.len() > 0 {
        let rest = variants.drop_last();
        law_channel_positions(rest);
        let before = channel_positions(rest);
        let all = channel_positions(variants);
        assert forall|k: int| 0 <= k < all.len() implies {
            &&& (#[trigger] all[k]) < variants.len()
            &&& variants[all[k] as int].channels is Some
        } by {
            if k < before.len() {
                assert(before[k] == all[k]);
                assert(rest[before[k] as int] == variants[before[k] as int]);
            }
        }
        assert forall|i: usize| i < variants.len() && (
        #[trigger] variants[i as int]).channels is Some implies all.contains(i) by {
            if i < rest.len() {
                assert(rest[i as int] == variants[i as int]);
                let k = choose|k: int| 0 <= k < before.len() && before[k] == i;
                assert(all[k] == i);
            } else {
                assert(all[all.len() - 1] == i);
            }
        }
        assert forall|j: int, k: int| 0 <= j < k < all.len() implies #[trigger] all[j]
            < #[trigger] all[k] by {
            assert(before[j] == all[j]);
            if k < before.len() {
                assert(before[k] == all[k]);
            }
        }
    }
}

/// The channels of a request have the types that its `rpc` attribute gives for them, whichever other
/// types it gives. A channel whose type is not given is none. Any other type is an error.
pub proof fn law_channels_have_the_given_types(args: NamedTypeArgsSpec)
    requires
        keys_of(args.types).no_duplicates(),
    ensures
        channels_spec(args) is Ok <==> forall|i: int|
            0 <= i < args.types.len() ==> (#[trigger] args.types[i]).0 == "tx"@ || args.types[i].0
                == "rx"@,
        channels_spec(args) matches Ok(channels) ==> {
            &&& forall|i: int|
                0 <= i < args.types.len() && (#[trigger] args.types[i]).0 == "tx"@ ==> channels.tx
                    == args.types[i].1
            &&& forall|i: int|
                0 <= i < args.types.len() && (#[trigger] args.types[i]).0 == "rx"@ ==> channels.rx
                    == args.types[i].1
            &&& (forall|i: int|
                0 <= i < args.types.len() ==> (#[trigger] args.types[i]).0 != "tx"@) ==> channels.tx
                == "::irpc::channel::none::NoSender"@
            &&& (forall|i: int|
                0 <= i < args.types.len() ==> (#[trigger] args.types[i]).0 != "rx"@) ==> channels.rx
                == "::irpc::channel::none::NoReceiver"@
        },
{
    lemma_names_differ();
    let types = args.types;
    let (rx, without_rx) = taken_type(types, "rx"@, DEFAULT_RX_TYPE@);
    let (tx, rest) = taken_type(without_rx, "tx"@, DEFAULT_TX_TYPE@);
    lemma_taken(types, "rx"@, DEFAULT_RX_TYPE@);
    lemma_taken(without_rx, "tx"@, DEFAULT_TX_TYPE@);
    if forall|i: int|
        0 <= i < types.len() ==> (#[trigger] types[i]).0 == "tx"@ || types[i].0 == "rx"@ {
        if rest.len() > 0 {
            let entry = rest[0];
            let j = choose|j: int| 0 <= j < without_rx.len() && #[trigger] without_rx[j] == entry;
            let k = choose|k: int| 0 <= k < types.len() && #[trigger] types[k] == without_rx[j];
            assert(types[k].0 == "tx"@ || types[k].0 == "rx"@);
        }
    }
    if channels_spec(args) is Ok {
        assert forall|i: int| 0 <= i < types.len() implies (#[trigger] types[i]).0 == "tx"@
            || types[i].0 == "rx"@ by {
            if types[i].0 != "rx"@ {
                let j = choose|j: int| 0 <= j < without_rx.len() && #[trigger] without_rx[j]
                    == types[i];
                if without_rx[j].0 != "tx"@ {
                    let k = choose|k: int| 0 <= k < rest.len() && #[trigger] rest[k] == without_rx[j];
                    assert(false);
                }
            }
        }
        assert forall|i: int| 0 <= i < types.len() && (#[trigger] types[i]).0 == "tx"@ implies tx
            == types[i].1 by {
            let j = choose|j: int| 0 <= j < without_rx.len() && #[trigger] without_rx[j] == types[i];
            assert(without_rx[j].0 == "tx"@);
        }
        if forall|i: int| 0 <= i < types.len() ==> (#[trigger] types[i]).0 != "tx"@ {
            assert forall|j: int| 0 <= j < without_rx.len() implies (#[trigger] without_rx[j]).0
                != "tx"@ by {
                let k = choose|k: int| 0 <= k < types.len() && #[trigger] types[k] == without_rx[j];
                assert(types[k].0 != "tx"@);
            }
        }
    }
}

/// The names of the two channels differ.
pub(crate) proof fn lemma_names_differ()
    ensures
        "tx"@ != "rx"@,
        TX_ATTR@ == "tx"@,
        RX_ATTR@ == "rx"@,
{
    reveal_strlit("tx");
    reveal_strlit("rx");
    assert("tx"@[0] == 't');
    assert("rx"@[0] == 'r');
}

/// Taking the type of a name gives that type, or the default if there is none, and leaves all others.
pub(crate) proof fn lemma_taken(
    types: Seq<(Seq<char>, Seq<char>)>,
    key: Seq<char>,
    default: Seq<char>,
)
    requires
        keys_of(types).no_duplicates(),
    ensures
        ({
            let (ty, rest) = taken_type(types, key, default);
            &&& keys_of(rest).no_duplicates()
            &&& forall|i: int|
                0 <= i < types.len() && (#[trigger] types[i]).0 == key ==> ty == types[i].1
            &&& (forall|i: int| 0 <= i < types.len() ==> (#[trigger] types[i]).0 != key) ==> ty
                == default
            &&& forall|j: int|
                0 <= j < rest.len() ==> (#[trigger] rest[j]).0 != key && exists|i: int|
                    0 <= i < types.len() && #[trigger] types[i] == rest[j]
            &&& forall|i: int|
                0 <= i < types.len() && (#[trigger] types[i]).0 != key ==> exists|j: int|
                    0 <= j < rest.len() && #[trigger] rest[j] == types[i]
        }),
{
    lemma_key_index(types, key);
    let (ty, rest) = taken_type(types, key, default);
    assert forall|i: int, j: int| 0 <= i < types.len() && 0 <= j < types.len() && i != j implies (
    #[trigger] types[i]).0 != (#[trigger] types[j]).0 by {
        assert(keys_of(types)[i] == types[i].0);
        assert(keys_of(types)[j] == types[j].0);
    }
    match key_index(types, key) {
        Some(k) => {
            assert(rest == types.remove(k));
            assert forall|j: int| 0 <= j < rest.len() implies (#[trigger] rest[j]).0 != key
                && exists|i: int| 0 <= i < types.len() && #[trigger] types[i] == rest[j] by {
                let i = if j < k {
                    j
                } else {
                    j + 1
                };
                assert(rest[j] == types[i]);
                assert(types[i].0 != types[k].0);
            }
            assert forall|i: int| 0 <= i < types.len() && (#[trigger] types[i]).0 != key implies exists|
                j: int,
            | 0 <= j < rest.len() && #[trigger] rest[j] == types[i] by {
                let j = if i < k {
                    i
                } else {
                    i - 1
                };
                assert(rest[j] == types[i]);
            }
            assert forall|i: int, j: int|
                0 <= i < rest.len() && 0 <= j < rest.len() && i != j implies keys_of(rest)[i]
                != keys_of(rest)[j] by {
                let a = if i < k {
                    i
                } else {
                    i + 1
                };
                let b = if j < k {
                    j
                } else {
                    j + 1
                };
                assert(rest[i] == types[a] && rest[j] == types[b]);
                assert(types[a].0 != types[b].0);
            }
        },
        None => {
            assert forall|i: int| 0 <= i < types.len() implies exists|j: int|
                0 <= j < rest.len() && #[trigger] rest[j] == #[trigger] types[i] by {
                assert(rest[i] == types[i]);
            }
        },
    }
}

/// There is an attribute of a name exactly if one of them has it. Two of them are an error, and the only
/// one is taken out, with all others left in their order.
pub proof fn law_only_attribute(attrs: Seq<AttributeSpec>, name: Seq<char>, i: int, j: int)
    ensures
        (forall|k: int| 0 <= k < attrs.len() ==> (#[trigger] attrs[k]).name != Some(name)) ==> {
            &&& only_attr(attrs, name) == Ok::<Option<AttributeSpec>, MacroErrorSpec>(None)
            &&& without_attr(attrs, name) == attrs
        },
        (0 <= i < attrs.len() && attrs[i].name == Some(name) && forall|k: int|
            0 <= k < attrs.len() && k != i ==> (#[trigger] attrs[k]).name != Some(name)) ==> {
            &&& only_attr(attrs, name) == Ok::<_, MacroErrorSpec>(Some(attrs[i]))
            &&& without_attr(attrs, name) == attrs.remove(i)
        },
        0 <= i < j < attrs.len() && attrs[i].name == Some(name) && attrs[j].name == Some(name)
            ==> only_attr(attrs, name) == Err::<Option<AttributeSpec>, _>(
            MacroErrorSpec::DuplicateAttribute(name),
        ),
{
    lemma_attr_from(attrs, name, 0);
    if let Some(first) = attr_from(attrs, name, 0) {
        lemma_attr_from(attrs, name, first + 1);
    }
}

/// What the attributes of a variant say: without an `rpc` attribute there are no types, and with one they
/// are those between its parentheses. Likewise for the `wrap` attribute. Without parentheses there is an
/// error.
pub proof fn law_attributes_are_read(attrs: Seq<AttributeSpec>, attr: AttributeSpec, wraps: bool)
    ensures
        only_attr(attrs, "rpc"@) == Ok::<Option<AttributeSpec>, MacroErrorSpec>(None) ==> rpc_attr(
            attrs,
            wraps,
        ) == Ok::<Option<NamedTypeArgsSpec>, MacroErrorSpec>(None),
        only_attr(attrs, "rpc"@) == Ok::<_, MacroErrorSpec>(Some(attr)) ==> match attr.args {
            None => rpc_attr(attrs, wraps) is Err,
            Some(trees) => match named_types_spec(
                lexemes_of(trees),
                types_spec(trees),
                wraps,
                0,
                no_named_types(),
            ) {
                Ok(args) => rpc_attr(attrs, wraps) == Ok::<_, MacroErrorSpec>(Some(args)),
                Err(e) => rpc_attr(attrs, wraps) == Err::<Option<NamedTypeArgsSpec>, _>(e),
            },
        },
        only_attr(attrs, "rpc"@) matches Err(e) ==> rpc_attr(attrs, wraps) == Err::<
            Option<NamedTypeArgsSpec>,
            _,
        >(e),
        only_attr(attrs, "wrap"@) == Ok::<Option<AttributeSpec>, MacroErrorSpec>(None) ==> wrap_attr(
            attrs,
        ) == Ok::<Option<WrapArgs<Seq<char>>>, MacroErrorSpec>(None),
        only_attr(attrs, "wrap"@) == Ok::<_, MacroErrorSpec>(Some(attr)) ==> match attr.args {
            None => wrap_attr(attrs) is Err,
            Some(trees) => match wrap_args_spec(lexemes_of(trees)) {
                Ok(args) => wrap_attr(attrs) == Ok::<_, MacroErrorSpec>(Some(args)),
                Err(e) => wrap_attr(attrs) == Err::<Option<WrapArgs<Seq<char>>>, _>(e),
            },
        },
{
}

/// A variant that was read is the variant that was written: its name, its fields with their attributes,
/// names and types, one by one, and what its attributes say.
pub proof fn law_variant_is_read_as_written(trees: Seq<Tree>)
    ensures
        match variant_parts(trees) {
            None => variant_read(trees) is Err,
            Some(parts) => variant_read(trees) matches Ok(read) ==> {
                let attrs = attributes_of(parts.attrs);
                &&& read.name == parts.name
                &&& read.kind == parts.kind
                &&& rpc_attr(attrs, true) == Ok::<_, MacroErrorSpec>(read.rpc)
                &&& wrap_attr(without_attr(attrs, "rpc"@)) == Ok::<_, MacroErrorSpec>(read.wrap)
                &&& read.fields.len() == parts.fields.len()
                &&& forall|i: int|
                    0 <= i < read.fields.len() ==> {
                        &&& (#[trigger] read.fields[i]).ty == trees_text(parts.fields[i].ty)
                        &&& read.fields[i].name == parts.fields[i].name
                        &&& read.fields[i].attrs.len() == parts.fields[i].attrs.len()
                        &&& forall|k: int|
                            0 <= k < read.fields[i].attrs.len() ==> #[trigger] read.fields[i].attrs[k]
                                == trees_text(parts.fields[i].attrs[k])
                    }
            },
        },
{
}

/// A variant is wrapped exactly if its `wrap` attribute or the `wrap` argument of its `rpc` attribute asks
/// for it. The attribute goes first. The wrapper type has the name that is given, or that of the variant.
pub proof fn law_wrappers(vis: Seq<char>, read: VariantReadSpec)
    ensures
        wrapper_spec(vis, read) is Some <==> read.wrap is Some || (read.rpc is Some
            && read.rpc->0.wrap is Some),
        wrapper_spec(vis, read) matches Some(wrapper) ==> {
            &&& wrapper.name == match read.wrap {
                Some(wrap) => wrap.name,
                None => match read.rpc->0.wrap->0 {
                    Some(name) => name,
                    None => read.name,
                },
            }
            &&& wrapper.fields == read.fields && wrapper.kind == read.kind
            &&& wrapper.field_vis == "pub"@
            &&& wrapper.vis == match read.wrap {
                Some(wrap) => match wrap.vis {
                    Some(given) => given,
                    None => vis,
                },
                None => "pub"@,
            }
            &&& (read.wrap matches Some(wrap) && wrap.derives matches Some(more))
                ==> wrapper.derives.last() == read.wrap->0.derives->0 && wrapper.derives.len() == 4
            &&& !(read.wrap matches Some(wrap) && wrap.derives is Some) ==> wrapper.derives.len() == 3
            &&& wrapper.derives[0] == "::std::fmt::Debug"@
            &&& wrapper.derives[1] == "::serde::Serialize"@
            &&& wrapper.derives[2] == "::serde::Deserialize"@
        },
        request_type_spec(read) is Some <==> wrapper_spec(vis, read) is Some || (read.kind is Unnamed
            && read.fields.len() == 1),
{
}

/// A variant gets a plan exactly if it has a request type that no variant before it has, and its channels
/// are right. The plan has those channels.
pub proof fn law_planned_variants(
    before: Seq<VariantPlanSpec>,
    vis: Seq<char>,
    read: VariantReadSpec,
)
    ensures
        ({
            let request_type = request_type_spec(read);
            let known = request_type is Some && exists|i: int|
                0 <= i < before.len() && (#[trigger] before[i]).request_type == request_type->0;
            let plan = variant_plan_spec(before, vis, read);
            &&& plan is Ok <==> request_type is Some && !known && (read.rpc matches Some(args)
                ==> channels_spec(args) is Ok)
            &&& plan matches Ok(p) ==> {
                &&& Some(p.request_type) == request_type
                &&& p.wrapper == wrapper_spec(vis, read)
                &&& match read.rpc {
                    Some(args) => channels_spec(args) == Ok::<_, MacroErrorSpec>(p.channels->0)
                        && p.channels is Some,
                    None => p.channels is None,
                }
            }
            &&& request_type is None ==> plan == Err::<VariantPlanSpec, _>(
                MacroErrorSpec::NoRequestType,
            )
            &&& known ==> plan == Err::<VariantPlanSpec, _>(MacroErrorSpec::DuplicateRequestType)
        }),
{
}

/// Every variant of an enum gets its plan, in their order, and each plan depends only on the variant and on
/// those before it.
pub proof fn law_all_variants_are_planned(vis: Seq<char>, variants: Seq<Seq<Tree>>)
    ensures
        match variant_plans_spec(vis, variants, 0, Seq::empty()) {
            Ok(plans) => {
                &&& plans.len() == variants.len()
                &&& forall|i: int|
                    0 <= i < plans.len() ==> variant_read(#[trigger] variants[i]) is Ok
                        && variant_plan_spec(plans.take(i), vis, variant_read(variants[i])->Ok_0)
                        == Ok::<_, MacroErrorSpec>(plans[i])
            },
            Err(_) => exists|i: int, plans: Seq<VariantPlanSpec>|
                {
                    &&& 0 <= i < variants.len()
                    &&& variant_read(#[trigger] variants[i]) is Err || #[trigger] variant_plan_spec(
                        plans,
                        vis,
                        variant_read(variants[i])->Ok_0,
                    ) is Err
                },
        },
{
    lemma_all_planned(vis, variants, 0, Seq::empty());
}

proof fn lemma_all_planned(
    vis: Seq<char>,
    variants: Seq<Seq<Tree>>,
    n: int,
    before: Seq<VariantPlanSpec>,
)
    requires
        0 <= n <= variants.len(),
        before.len() == n,
        forall|i: int|
            0 <= i < n ==> variant_read(#[trigger] variants[i]) is Ok && variant_plan_spec(
                before.take(i),
                vis,
                variant_read(variants[i])->Ok_0,
            ) == Ok::<_, MacroErrorSpec>(before[i]),
    ensures
        match variant_plans_spec(vis, variants, n, before) {
            Ok(plans) => {
                &&& plans.len() == variants.len()
                &&& forall|i: int|
                    0 <= i < plans.len() ==> variant_read(#[trigger] variants[i]) is Ok
                        && variant_plan_spec(plans.take(i), vis, variant_read(variants[i])->Ok_0)
                        == Ok::<_, MacroErrorSpec>(plans[i])
            },
            Err(_) => exists|i: int, plans: Seq<VariantPlanSpec>|
                {
                    &&& 0 <= i < variants.len()
                    &&& variant_read(#[trigger] variants[i]) is Err || #[trigger] variant_plan_spec(
                        plans,
                        vis,
                        variant_read(variants[i])->Ok_0,
                    ) is Err
                },
        },
    decreases variants.len() - n,
{
    if n < variants.len() {
        match variant_read(variants[n]) {
            Err(_) => {
                let r = variant_plan_spec(before, vis, variant_read(variants[n])->Ok_0);
                assert(variant_read(variants[n]) is Err);
            },
            Ok(read) => match variant_plan_spec(before, vis, read) {
                Err(_) => {
                    assert(variant_plan_spec(before, vis, variant_read(variants[n])->Ok_0) is Err);
                },
                Ok(plan) => {
                    let next = before.push(plan);
                    assert forall|i: int| 0 <= i < n + 1 implies variant_read(
                        #[trigger] variants[i],
                    ) is Ok && variant_plan_spec(
                        next.take(i),
                        vis,
                        variant_read(variants[i])->Ok_0,
                    ) == Ok::<_, MacroErrorSpec>(next[i]) by {
                        if i < n {
                            assert(next.take(i) =~= before.take(i));
                        } else {
                            assert(next.take(i) =~= before);
                        }
                    }
                    lemma_all_planned(vis, variants, n + 1, next);
                },
            },
        }
    }
}

/// What the arguments of the macro ask for is what is generated: a message enum of that name, with code
/// for remote services unless that is switched off, and under the feature that is given; aliases for all
/// variants, with the suffix; the variants as they are planned.
pub proof fn law_plan_follows_the_arguments(
    args: MacroArgs<Seq<char>>,
    enum_name: Seq<char>,
    vis: Seq<char>,
    variants: Seq<VariantPlanSpec>,
)
    ensures
        ({
            let plan = plan_spec(args, enum_name, vis, variants);
            &&& plan.enum_name == enum_name && plan.vis == vis && plan.variants == variants
            &&& plan.with_channels == channel_positions(variants)
            &&& match (args.message_enum_name, plan.message) {
                (Some(name), Some(message)) => {
                    &&& message.name == name
                    &&& message.remote == !args.no_rpc
                    &&& message.rpc_feature == args.rpc_feature
                    &&& message.parent_span == !args.no_spans
                    &&& message.span_propagation == args.span_propagation
                },
                (None, None) => true,
                _ => false,
            }
            &&& match (args.alias_suffix, plan.aliases) {
                (Some(suffix), Some(aliases)) => {
                    &&& aliases.len() == variants.len()
                    &&& forall|i: int|
                        0 <= i < aliases.len() ==> #[trigger] aliases[i] == variants[i].name + suffix
                },
                (None, None) => true,
                _ => false,
            }
        }),
{
}

/// The macro accepts exactly the enums whose variants can be planned, with arguments that it knows, and
/// the plan is that of these variants and these arguments.
pub proof fn law_macro(attr: Seq<Tree>, item: Seq<Tree>)
    ensures
        match (item_parts(item), macro_args_spec(lexemes_of(attr))) {
            (None, _) => rpc_requests_spec(attr, item) == Err::<PlanSpec, _>(MacroErrorSpec::Parser),
            (Some(_), Err(e)) => rpc_requests_spec(attr, item) == Err::<PlanSpec, _>(e),
            (Some(parts), Ok(args)) => match parts.variants {
                None => rpc_requests_spec(attr, item) == Err::<PlanSpec, _>(
                    MacroErrorSpec::NotAnEnum,
                ),
                Some(variants) => match variant_plans_spec(
                    trees_text(parts.vis),
                    variants,
                    0,
                    Seq::empty(),
                ) {
                    Err(e) => rpc_requests_spec(attr, item) == Err::<PlanSpec, _>(e),
                    Ok(plans) => rpc_requests_spec(attr, item) matches Ok(plan) && plan == plan_spec(
                        args,
                        parts.name,
                        trees_text(parts.vis),
                        plans,
                    ),
                },
            },
        },
{
}

/// In what the macro generates, the channels of every variant with an `rpc` attribute have the types that
/// the attribute gives for them, and a channel whose type is not given is none.
pub proof fn law_generated_channels(attr: Seq<Tree>, item: Seq<Tree>, i: int)
    ensures
        rpc_requests_spec(attr, item) matches Ok(plan) ==> (0 <= i < plan.variants.len() ==> {
            let parts = variant_parts(item_parts(item)->0.variants->0[i])->0;
            match rpc_attr(attributes_of(parts.attrs), true) {
                Ok(None) => plan.variants[i].channels is None,
                Ok(Some(args)) => plan.variants[i].channels matches Some(channels) && {
                    &&& forall|k: int|
                        0 <= k < args.types.len() && (#[trigger] args.types[k]).0 == "tx"@
                            ==> channels.tx == args.types[k].1
                    &&& forall|k: int|
                        0 <= k < args.types.len() && (#[trigger] args.types[k]).0 == "rx"@
                            ==> channels.rx == args.types[k].1
                    &&& (forall|k: int|
                        0 <= k < args.types.len() ==> (#[trigger] args.types[k]).0 != "tx"@)
                        ==> channels.tx == "::irpc::channel::none::NoSender"@
                    &&& (forall|k: int|
                        0 <= k < args.types.len() ==> (#[trigger] args.types[k]).0 != "rx"@)
                        ==> channels.rx == "::irpc::channel::none::NoReceiver"@
                },
                Err(_) => false,
            }
        }),
{
    if let Ok(plan) = rpc_requests_spec(attr, item) {
        if 0 <= i < plan.variants.len() {
            let item_parts = item_parts(item)->0;
            let variants = item_parts.variants->0;
            law_all_variants_are_planned(trees_text(item_parts.vis), variants);
            assert(variant_read(variants[i]) is Ok);
            let parts = variant_parts(variants[i])->0;
            if let Ok(Some(args)) = rpc_attr(attributes_of(parts.attrs), true) {
                let trees = only_attr(attributes_of(parts.attrs), ATTR_NAME@)->Ok_0->0.args->0;
                law_read_names_differ(lexemes_of(trees), types_spec(trees), true);
                law_channels_have_the_given_types(args);
            }
        }
    }
}

/// Attributes are kept with the text of all of their tokens, and fields with the text of their attributes,
/// their name and the text of their type, each in its place.
pub proof fn law_texts_are_kept(attrs: Seq<Seq<Tree>>, fields: Seq<FieldSpec>)
    ensures
        attr_texts(attributes_of(attrs)) == trees_texts(attrs),
        field_texts(fields).len() == fields.len(),
        forall|i: int|
            #![trigger field_texts(fields)[i]]
            0 <= i < fields.len() ==> {
                &&& field_texts(fields)[i].attrs == trees_texts(fields[i].attrs)
                &&& field_texts(fields)[i].name == fields[i].name
                &&& field_texts(fields)[i].ty == trees_text(fields[i].ty)
            },
{
    assert(attr_texts(attributes_of(attrs)) =~= trees_texts(attrs));
}

} // verus!
