//! The macro in its first form, which names the service and the message enum by position.
use crate::derive::args::{ident_spec, parse_ident, peek_punct, starts_with};
use crate::derive::lex::{
    attributes_of, classify, deep_result, item_parts, lexemes_of, parse_item, parse_segments, parse_variant,
    path_segments, print, read_attributes, stream_trees, streams_trees, tokens_of, trees_text, variant_parts, Field,
    FieldKind, FieldSpec, Lexeme, LexemeSpec, MacroError, MacroErrorSpec, Tree,
};
use crate::derive::plan::{
    attr_texts, lemma_names_differ, lemma_taken, print_attrs, rpc_attr, taken_type, without_attr, ChannelTypes, ATTR_NAME, RX_ATTR,
    TX_ATTR,
};
use crate::derive::variant_args::{
    key_index, keys_of, lemma_key_index, ordered_keys, NamedTypeArgs, NamedTypeArgsSpec,
};
use proc_macro2::TokenStream;
use vstd::prelude::*;

verus! {

/// The type of the channel for updates, if none is given.
pub const DEFAULT_RX_TYPE: &'static str = "::quic_rpc::channel::none::NoReceiver";

/// The arguments of the macro.
#[derive(Debug, Clone, PartialEq, Eq)]
pub struct MacroArgs<S> {
    pub service_name: S,
    pub message_enum_name: S,
}

impl DeepView for MacroArgs<String> {
    type V = MacroArgs<Seq<char>>;

    open spec fn deep_view(&self) -> MacroArgs<Seq<char>> {
        MacroArgs {
            service_name: self.service_name@,
            message_enum_name: self.message_enum_name@,
        }
    }
}

/// The arguments that some tokens stand for: two names with a comma between them.
pub open spec fn macro_args_spec(tokens: Seq<LexemeSpec>) -> Result<
    MacroArgs<Seq<char>>,
    MacroErrorSpec,
> {
    match ident_spec(tokens) {
        Err(e) => Err(e),
        Ok(service_name) => if !starts_with(tokens.skip(1), ',') {
            Err(MacroErrorSpec::ExpectedPunct(','))
        } else {
            match ident_spec(tokens.skip(2)) {
                Err(e) => Err(e),
                Ok(message_enum_name) => if tokens.len() > 3 {
                    Err(MacroErrorSpec::UnexpectedToken)
                } else {
                    Ok(MacroArgs { service_name, message_enum_name })
                },
            }
        },
    }
}

impl MacroArgs<String> {
    /// Reads the arguments of the macro.
    pub fn parse(tokens: &Vec<Lexeme>) -> (r: Result<Self, MacroError<String>>)
        ensures
            deep_result(r) == macro_args_spec(tokens.deep_view()),
    {
        assert(tokens.deep_view().skip(0) =~= tokens.deep_view());
        let service_name = parse_ident(tokens, 0)?;
        if !peek_punct(tokens, 1, ',') {
            return Err(MacroError::ExpectedPunct(','));
        }
        let message_enum_name = parse_ident(tokens, 2)?;
        if tokens.len() > 3 {
            return Err(MacroError::UnexpectedToken);
        }
        Ok(MacroArgs { service_name, message_enum_name })
    }
}

/// What is generated for a variant.
#[derive(Debug, Clone, PartialEq, Eq)]
pub struct VariantPlan<S> {
    pub name: S,
    /// The attributes that stay on the variant, in their order.
    pub attrs: Vec<S>,
    pub request_type: S,
    /// The last name of the request type, if it is a path. The variant of the message enum holds
    /// that.
    pub inner_type: Option<S>,
    pub channels: Option<ChannelTypes<S>>,
}

/// A [`VariantPlan`] with its texts as sequences.
pub struct VariantPlanSpec {
    pub name: Seq<char>,
    pub attrs: Seq<Seq<char>>,
    pub request_type: Seq<char>,
    pub inner_type: Option<Seq<char>>,
    pub channels: Option<ChannelTypes<Seq<char>>>,
}

impl DeepView for VariantPlan<String> {
    type V = VariantPlanSpec;

    open spec fn deep_view(&self) -> VariantPlanSpec {
        VariantPlanSpec {
            name: self.name@,
            attrs: self.attrs.deep_view(),
            request_type: self.request_type@,
            inner_type: self.inner_type.deep_view(),
            channels: self.channels.deep_view(),
        }
    }
}

/// What is generated for a protocol enum.
pub struct Plan<S> {
    pub service_name: S,
    pub message_enum_name: S,
    pub variants: Vec<VariantPlan<S>>,
}

/// A [`Plan`] with its texts as sequences.
pub struct PlanSpec {
    pub service_name: Seq<char>,
    pub message_enum_name: Seq<char>,
    pub variants: Seq<VariantPlanSpec>,
}

impl DeepView for Plan<String> {
    type V = PlanSpec;

    open spec fn deep_view(&self) -> PlanSpec {
        PlanSpec {
            service_name: self.service_name@,
            message_enum_name: self.message_enum_name@,
            variants: self.variants.deep_view(),
        }
    }
}

/// The channels that the `rpc` attribute gives: there is a `tx` type, and no type but `tx` and
/// `rx`.
pub open spec fn channels_spec(args: NamedTypeArgsSpec) -> Result<
    ChannelTypes<Seq<char>>,
    MacroErrorSpec,
> {
    let (rx, without_rx) = taken_type(args.types, RX_ATTR@, DEFAULT_RX_TYPE@);
    match key_index(without_rx, TX_ATTR@) {
        None => Err(MacroErrorSpec::MissingType(TX_ATTR@)),
        Some(i) => {
            let rest = without_rx.remove(i);
            if rest.len() == 0 {
                Ok(ChannelTypes { tx: without_rx[i].1, rx })
            } else {
                Err(MacroErrorSpec::UnknownArguments(ordered_keys(rest, rest.len() as int)))
            }
        },
    }
}

/// The channels that the `rpc` attribute gives.
pub fn channel_types(args: NamedTypeArgs<String>) -> (r: Result<
    ChannelTypes<String>,
    MacroError<String>,
>)
    ensures
        deep_result(r) == channels_spec(args.deep_view()),
{
    let mut args = args;
    let rx = match args.remove(RX_ATTR) {
        Some(ty) => ty,
        None => DEFAULT_RX_TYPE.to_owned(),
    };
    let tx = args.get(TX_ATTR)?;
    args.check_empty()?;
    Ok(ChannelTypes { tx, rx })
}

/// Whether a variant has this request type.
pub open spec fn has_request_type(
    variants: Seq<VariantPlanSpec>,
    request_type: Seq<char>,
) -> bool {
    exists|i: int| 0 <= i < variants.len() && (#[trigger] variants[i]).request_type == request_type
}

/// The request type of a variant: the type of its only unnamed field. It differs from those of the
/// variants `before`.
pub open spec fn request_type_spec(
    before: Seq<VariantPlanSpec>,
    kind: FieldKind,
    fields: Seq<FieldSpec>,
) -> Result<Seq<char>, MacroErrorSpec> {
    if !(kind is Unnamed) || fields.len() != 1 {
        Err(MacroErrorSpec::NoRequestType)
    } else if has_request_type(before, trees_text(fields[0].ty)) {
        Err(MacroErrorSpec::DuplicateRequestType)
    } else {
        Ok(trees_text(fields[0].ty))
    }
}

/// Determines the request type of a variant.
pub fn request_type(
    variants: &Vec<VariantPlan<String>>,
    kind: FieldKind,
    fields: &Vec<Field>,
) -> (r: Result<String, MacroError<String>>)
    ensures
        deep_result(r) == request_type_spec(variants.deep_view(), kind, fields.deep_view()),
{
    if kind != FieldKind::Unnamed || fields.len() != 1 {
        return Err(MacroError::NoRequestType);
    }
    let request_type = print(&fields[0].ty);
    let ghost all = variants.deep_view();
    assert(fields.deep_view()[0] == fields[0].deep_view());
    let mut i: usize = 0;
    while i < variants.len()
        invariant
            i <= variants.len(),
            all == variants.deep_view(),
            kind is Unnamed,
            fields.len() == 1,
            fields.deep_view()[0] == fields[0].deep_view(),
            request_type@ == trees_text(stream_trees(fields[0].ty)),
            forall|k: int| 0 <= k < i ==> (#[trigger] all[k]).request_type != request_type@,
        decreases variants.len() - i,
    {
        assert(all[i as int] == variants[i as int].deep_view());
        if variants[i].request_type == request_type {
            return Err(MacroError::DuplicateRequestType);
        }
        i = i + 1;
    }
    Ok(request_type)
}

/// The last name of the path that a type is, if it is a path.
pub open spec fn last_segment(ty: Seq<Tree>) -> Option<Seq<char>> {
    match path_segments(ty) {
        Some(names) => if names.len() == 0 {
            None
        } else {
            Some(names.last())
        },
        None => None,
    }
}

fn read_last_segment(ty: &TokenStream) -> (r: Option<String>)
    ensures
        r.deep_view() == last_segment(stream_trees(*ty)),
{
    match parse_segments(ty) {
        Some(names) => {
            let mut names = names;
            assert(names.deep_view().len() == names.len());
            proof {
                if names.len() > 0 {
                    assert(names.deep_view().last() == names[names.len() - 1]@);
                }
            }
            names.pop()
        },
        None => None,
    }
}

/// What is generated for the variant that some token trees are, which comes after the variants
/// `before`.
pub open spec fn variant_plan_spec(before: Seq<VariantPlanSpec>, trees: Seq<Tree>) -> Result<
    VariantPlanSpec,
    MacroErrorSpec,
> {
    match variant_parts(trees) {
        None => Err(MacroErrorSpec::Parser),
        Some(parts) => match request_type_spec(before, parts.kind, parts.fields) {
            Err(e) => Err(e),
            Ok(request_type) => match rpc_attr(attributes_of(parts.attrs), false) {
                Err(e) => Err(e),
                Ok(rpc) => {
                    let channels = match rpc {
                        None => Ok(None),
                        Some(args) => match channels_spec(args) {
                            Err(e) => Err(e),
                            Ok(channels) => Ok(Some(channels)),
                        },
                    };
                    match channels {
                        Err(e) => Err(e),
                        Ok(channels) => Ok(
                            VariantPlanSpec {
                                name: parts.name,
                                attrs: attr_texts(
                                    without_attr(attributes_of(parts.attrs), ATTR_NAME@),
                                ),
                                request_type,
                                inner_type: last_segment(parts.fields[0].ty),
                                channels,
                            },
                        ),
                    }
                },
            },
        },
    }
}

fn plan_variant(variants: &Vec<VariantPlan<String>>, stream: &TokenStream) -> (r: Result<
    VariantPlan<String>,
    MacroError<String>,
>)
    ensures
        deep_result(r) == variant_plan_spec(variants.deep_view(), stream_trees(*stream)),
{
    match parse_variant(stream) {
        Err(message) => Err(MacroError::Parser(message)),
        Ok(parts) => {
            let request_type = request_type(variants, parts.kind, &parts.fields)?;
            assert(parts.fields.deep_view()[0] == parts.fields[0].deep_view());
            let mut attrs = read_attributes(parts.attrs);
            let channels: Option<ChannelTypes<String>> = match NamedTypeArgs::from_attrs(
                &mut attrs,
                false,
            )? {
                Some((args, _)) => {
                    let channels = channel_types(args)?;
                    Some(channels)
                },
                None => None,
            };
            let attrs = print_attrs(&attrs);
            let inner_type = read_last_segment(&parts.fields[0].ty);
            Ok(VariantPlan { name: parts.name, attrs, request_type, inner_type, channels })
        },
    }
}

/// What is generated for these variants, from position `i` on.
pub open spec fn variant_plans_spec(
    variants: Seq<Seq<Tree>>,
    i: int,
    before: Seq<VariantPlanSpec>,
) -> Result<Seq<VariantPlanSpec>, MacroErrorSpec>
    decreases variants.len() - i,
{
    if i < 0 || i >= variants.len() {
        Ok(before)
    } else {
        match variant_plan_spec(before, variants[i]) {
            Err(e) => Err(e),
            Ok(plan) => variant_plans_spec(variants, i + 1, before.push(plan)),
        }
    }
}

/// What the macro generates for the arguments `attr` and the item `item`.
pub open spec fn rpc_requests_spec(attr: Seq<Tree>, item: Seq<Tree>) -> Result<
    PlanSpec,
    MacroErrorSpec,
> {
    match item_parts(item) {
        None => Err(MacroErrorSpec::Parser),
        Some(parts) => match macro_args_spec(lexemes_of(attr)) {
            Err(e) => Err(e),
            Ok(args) => match parts.variants {
                None => Err(MacroErrorSpec::NotAnEnum),
                Some(variants) => match variant_plans_spec(variants, 0, Seq::empty()) {
                    Err(e) => Err(e),
                    Ok(variants) => Ok(
                        PlanSpec {
                            service_name: args.service_name,
                            message_enum_name: args.message_enum_name,
                            variants,
                        },
                    ),
                },
            },
        },
    }
}

/// Lays out what the macro generates for the arguments `attr` and the item `item`.
pub fn rpc_requests(attr: TokenStream, item: TokenStream) -> (r: Result<
    Plan<String>,
    MacroError<String>,
>)
    ensures
        deep_result(r) == rpc_requests_spec(stream_trees(attr), stream_trees(item)),
{
    let parts = match parse_item(&item) {
        Ok(parts) => parts,
        Err(message) => {
            return Err(MacroError::Parser(message));
        },
    };
    let args = MacroArgs::parse(&classify(tokens_of(&attr)))?;
    let variants = match parts.variants {
        Some(variants) => variants,
        None => {
            return Err(MacroError::NotAnEnum);
        },
    };
    let ghost all = streams_trees(variants@);
    let mut plans: Vec<VariantPlan<String>> = Vec::new();
    let mut i: usize = 0;
    assert(plans.deep_view() =~= Seq::empty());
    while i < variants.len()
        invariant
            i <= variants.len(),
            all == streams_trees(variants@),
            rpc_requests_spec(stream_trees(attr), stream_trees(item)) == match variant_plans_spec(
                all,
                0,
                Seq::empty(),
            ) {
                Err(e) => Err(e),
                Ok(variants) => Ok(
                    PlanSpec {
                        service_name: args.service_name@,
                        message_enum_name: args.message_enum_name@,
                        variants,
                    },
                ),
            },
            variant_plans_spec(all, i as int, plans.deep_view()) == variant_plans_spec(
                all,
                0,
                Seq::empty(),
            ),
        decreases variants.len() - i,
    {
        assert(all[i as int] == stream_trees(variants[i as int]));
        let plan = plan_variant(&plans, &variants[i])?;
        let ghost before = plans.deep_view();
        let ghost added = plan.deep_view();
        plans.push(plan);
        assert(plans.deep_view() =~= before.push(added));
        i = i + 1;
    }
    let MacroArgs { service_name, message_enum_name } = args;
    Ok(Plan { service_name, message_enum_name, variants: plans })
}

/// What is wrong, in the words of this form of the macro.
pub open spec fn error_text_spec(error: MacroErrorSpec) -> Seq<char> {
    match error {
        MacroErrorSpec::NotAnEnum => "RpcRequests can only be applied to enums"@,
        MacroErrorSpec::NoRequestType => "Each variant must have exactly one unnamed field"@,
        _ => error.text(),
    }
}

/// What is wrong, in the words of this form of the macro.
pub fn error_text(error: &MacroError<String>) -> (r: String)
    ensures
        r@ == match *error {
            MacroError::Parser(message) => message@,
            _ => error_text_spec(error.deep_view()),
        },
{
    match error {
        MacroError::NotAnEnum => "RpcRequests can only be applied to enums".to_owned(),
        MacroError::NoRequestType => "Each variant must have exactly one unnamed field".to_owned(),
        _ => error.text(),
    }
}

/// The arguments of the macro are two names with a comma between them, and nothing else.
pub proof fn law_two_names(service: Seq<char>, message: Seq<char>, tokens: Seq<LexemeSpec>)
    ensures
        macro_args_spec(
            seq![LexemeSpec::Ident(service), LexemeSpec::Punct(','), LexemeSpec::Ident(message)],
        ) == Ok::<_, MacroErrorSpec>(
            MacroArgs { service_name: service, message_enum_name: message },
        ),
        macro_args_spec(tokens) matches Ok(args) ==> tokens =~= seq![
            LexemeSpec::Ident(args.service_name),
            LexemeSpec::Punct(','),
            LexemeSpec::Ident(args.message_enum_name),
        ],
{
    let names = seq![LexemeSpec::Ident(service), LexemeSpec::Punct(','), LexemeSpec::Ident(message)];
    assert(names.skip(1)[0] == LexemeSpec::Punct(','));
    assert(names.skip(2)[0] == LexemeSpec::Ident(message));
    if macro_args_spec(tokens) is Ok {
        assert(tokens.skip(1)[0] == tokens[1]);
        assert(tokens.skip(2)[0] == tokens[2]);
    }
}

/// The channels of a request have the types that its `rpc` attribute gives for them. There must be a type
/// for responses. Updates have no channel unless its type is given. Any other type is an error.
pub proof fn law_channels_have_the_given_types(args: NamedTypeArgsSpec)
    requires
        keys_of(args.types).no_duplicates(),
    ensures
        channels_spec(args) is Ok <==> (exists|i: int|
            0 <= i < args.types.len() && (#[trigger] args.types[i]).0 == "tx"@) && forall|i: int|
            0 <= i < args.types.len() ==> (#[trigger] args.types[i]).0 == "tx"@ || args.types[i].0
                == "rx"@,
        channels_spec(args) matches Ok(channels) ==> {
            &&& forall|i: int|
                0 <= i < args.types.len() && (#[trigger] args.types[i]).0 == "tx"@ ==> channels.tx
                    == args.types[i].1
            &&& forall|i: int|
                0 <= i < args.types.len() && (#[trigger] args.types[i]).0 == "rx"@ ==> channels.rx
                    == args.types[i].1
            &&& (forall|i: int|
                0 <= i < args.types.len() ==> (#[trigger] args.types[i]).0 != "rx"@) ==> channels.rx
                == "::quic_rpc::channel::none::NoReceiver"@
        },
{
    lemma_names_differ();
    let types = args.types;
    let (rx, without_rx) = taken_type(types, "rx"@, DEFAULT_RX_TYPE@);
    lemma_taken(types, "rx"@, DEFAULT_RX_TYPE@);
    lemma_taken(without_rx, "tx"@, Seq::empty());
    lemma_key_index(without_rx, "tx"@);
    let rest = taken_type(without_rx, "tx"@, Seq::empty()).1;
    if exists|i: int| 0 <= i < types.len() && (#[trigger] types[i]).0 == "tx"@ {
        let i = choose|i: int| 0 <= i < types.len() && (#[trigger] types[i]).0 == "tx"@;
        let j = choose|j: int| 0 <= j < without_rx.len() && #[trigger] without_rx[j] == types[i];
        assert(without_rx[j].0 == "tx"@);
        assert(key_index(without_rx, "tx"@) is Some);
        if forall|i: int|
            0 <= i < types.len() ==> (#[trigger] types[i]).0 == "tx"@ || types[i].0 == "rx"@ {
            if rest.len() > 0 {
                let entry = rest[0];
                let j = choose|j: int| 0 <= j < without_rx.len() && #[trigger] without_rx[j] == entry;
                let k = choose|k: int| 0 <= k < types.len() && #[trigger] types[k] == without_rx[j];
                assert(types[k].0 == "tx"@ || types[k].0 == "rx"@);
            }
        }
    }
    if channels_spec(args) is Ok {
        let at = key_index(without_rx, "tx"@)->0;
        let source = choose|k: int| 0 <= k < types.len() && #[trigger] types[k] == without_rx[at];
        assert(types[source].0 == "tx"@);
        assert forall|i: int| 0 <= i < types.len() implies (#[trigger] types[i]).0 == "tx"@
            || types[i].0 == "rx"@ by {
            if types[i].0 != "rx"@ {
                let j = choose|j: int| 0 <= j < without_rx.len() && #[trigger] without_rx[j]
                    == types[i];
                if without_rx[j].0 != "tx"@ {
                    let k = choose|k: int| 0 <= k < rest.len() && #[trigger] rest[k] == without_rx[j];
                    assert(false);
                }
            }
        }
        assert forall|i: int| 0 <= i < types.len() && (#[trigger] types[i]).0 == "tx"@ implies
            without_rx[at].1 == types[i].1 by {
            let j = choose|j: int| 0 <= j < without_rx.len() && #[trigger] without_rx[j] == types[i];
            assert(without_rx[j].0 == "tx"@);
            assert(taken_type(without_rx, "tx"@, Seq::empty()).0 == without_rx[j].1);
        }
    }
}

/// The request type of a variant is the type of its only field, which has no name, and no two variants
/// have the same one. The message enum holds the last name of that type.
pub proof fn law_request_types(
    before: Seq<VariantPlanSpec>,
    kind: FieldKind,
    fields: Seq<FieldSpec>,
    names: Seq<Seq<char>>,
    last: Seq<char>,
    ty: Seq<Tree>,
)
    ensures
        ({
            let single = kind is Unnamed && fields.len() == 1;
            let known = exists|i: int|
                0 <= i < before.len() && (#[trigger] before[i]).request_type == trees_text(
                    fields[0].ty,
                );
            &&& request_type_spec(before, kind, fields) is Ok <==> single && !known
            &&& request_type_spec(before, kind, fields) matches Ok(text) ==> text == trees_text(
                fields[0].ty,
            )
            &&& !single ==> request_type_spec(before, kind, fields) == Err::<Seq<char>, _>(
                MacroErrorSpec::NoRequestType,
            )
        }),
        path_segments(ty) == Some(names.push(last)) ==> last_segment(ty) == Some(last),
        path_segments(ty) is None ==> last_segment(ty) is None,
{
}

/// A variant that gets a plan has the name that it was written with, the channels that its attribute gives,
/// and all of its other attributes.
pub proof fn law_planned_variant(before: Seq<VariantPlanSpec>, trees: Seq<Tree>)
    ensures
        variant_plan_spec(before, trees) matches Ok(plan) ==> {
            &&& variant_parts(trees) is Some
            &&& plan.name == variant_parts(trees)->0.name
            &&& plan.attrs == attr_texts(
                without_attr(attributes_of(variant_parts(trees)->0.attrs), "rpc"@),
            )
            &&& request_type_spec(
                before,
                variant_parts(trees)->0.kind,
                variant_parts(trees)->0.fields,
            ) == Ok::<_, MacroErrorSpec>(plan.request_type)
            &&& plan.inner_type == last_segment(variant_parts(trees)->0.fields[0].ty)
            &&& match rpc_attr(attributes_of(variant_parts(trees)->0.attrs), false) {
                Ok(None) => plan.channels is None,
                Ok(Some(args)) => plan.channels is Some && channels_spec(args) == Ok::<
                    _,
                    MacroErrorSpec,
                >(plan.channels->0),
                Err(_) => false,
            }
        },
{
}

/// Every variant gets its plan, in their order, with a request type of its own, and the plan of the enum
/// has the names that the macro is given.
pub proof fn law_macro(attr: Seq<Tree>, item: Seq<Tree>)
    ensures
        rpc_requests_spec(attr, item) matches Ok(plan) ==> {
            &&& item_parts(item) is Some && item_parts(item)->0.variants is Some
            &&& macro_args_spec(lexemes_of(attr)) == Ok::<_, MacroErrorSpec>(
                MacroArgs {
                    service_name: plan.service_name,
                    message_enum_name: plan.message_enum_name,
                },
            )
            &&& plan.variants.len() == item_parts(item)->0.variants->0.len()
            &&& forall|i: int|
                0 <= i < plan.variants.len() ==> variant_plan_spec(
                    plan.variants.take(i),
                    #[trigger] item_parts(item)->0.variants->0[i],
                ) == Ok::<_, MacroErrorSpec>(plan.variants[i])
        },
        item_parts(item) is Some && item_parts(item)->0.variants is None && macro_args_spec(
            lexemes_of(attr),
        ) is Ok ==> rpc_requests_spec(attr, item) == Err::<PlanSpec, _>(MacroErrorSpec::NotAnEnum),
{
    if let Some(parts) = item_parts(item) {
        if let Some(variants) = parts.variants {
            lemma_all_planned(variants, 0, Seq::empty());
        }
    }
}

proof fn lemma_all_planned(variants: Seq<Seq<Tree>>, n: int, before: Seq<VariantPlanSpec>)
    requires
        0 <= n <= variants.len(),
        before.len() == n,
        forall|i: int|
            0 <= i < n ==> variant_plan_spec(before.take(i), #[trigger] variants[i]) == Ok::<
                _,
                MacroErrorSpec,
            >(before[i]),
    ensures
        variant_plans_spec(variants, n, before) matches Ok(plans) ==> {
            &&& plans.len() == variants.len()
            &&& forall|i: int|
                0 <= i < plans.len() ==> variant_plan_spec(plans.take(i), #[trigger] variants[i])
                    == Ok::<_, MacroErrorSpec>(plans[i])
        },
    decreases variants.len() - n,
{
    if n < variants.len() {
        if let Ok(plan) = variant_plan_spec(before, variants[n]) {
            let next = before.push(plan);
            assert forall|i: int| 0 <= i < n + 1 implies variant_plan_spec(
                next.take(i),
                #[trigger] variants[i],
            ) == Ok::<_, MacroErrorSpec>(next[i]) by {
                if i < n {
                    assert(next.take(i) =~= before.take(i));
                } else {
                    assert(next.take(i) =~= before);
                }
            }
            lemma_all_planned(variants, n + 1, next);
        }
    }
}

} // verus!
