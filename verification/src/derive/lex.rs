//! Tokens of Rust code.
use proc_macro2::{Spacing, TokenStream, TokenTree};
use quote::ToTokens;
use syn::{Fields, Variant};
use vstd::prelude::*;

verus! {

/// A stream of token trees.
#[verifier::external_type_specification]
#[verifier::external_body]
pub struct ExTokenStream(TokenStream);

/// What stands around a group of tokens.
#[derive(Debug, Clone, Copy, PartialEq, Eq, Structural)]
pub enum Delimiter {
    Parenthesis,
    Bracket,
    Brace,
    /// Nothing: the tokens are one operand, though nothing shows it.
    Bare,
}

/// A token tree, as a model.
pub enum Tree {
    Ident(Seq<char>),
    /// A punctuation character. It is joint if it touches the next one.
    Punct { ch: char, joint: bool },
    Literal(Seq<char>),
    /// A group of tokens.
    Group { delimiter: Delimiter, inner: Seq<Tree> },
}

/// A token tree.
#[derive(Debug)]
pub enum Token {
    Ident(String),
    /// A punctuation character. It is joint if it touches the next one.
    Punct { ch: char, joint: bool },
    Literal(String),
    /// A group of tokens.
    Group { delimiter: Delimiter, inner: TokenStream },
}

/// A token as the grammars of the attributes see it.
#[derive(Debug)]
pub enum Lexeme {
    /// A word that can be used as a name.
    Ident(String),
    /// A word that can not be used as a name.
    Keyword(String),
    Punct(char),
    /// A string literal, by its value.
    Str(String),
    /// Any other literal.
    Literal(String),
    /// A group of tokens.
    Group { delimiter: Delimiter, inner: TokenStream },
}

/// A [`Lexeme`], as a model.
pub enum LexemeSpec {
    Ident(Seq<char>),
    Keyword(Seq<char>),
    Punct(char),
    Str(Seq<char>),
    Literal(Seq<char>),
    Group { delimiter: Delimiter, inner: Seq<Tree> },
}

/// What is wrong with an attribute or with the item that it stands on.
#[derive(Debug, Clone, PartialEq, Eq)]
pub enum MacroError<S> {
    /// A name was expected.
    ExpectedIdent,
    /// This character was expected.
    ExpectedPunct(char),
    /// A string literal was expected.
    ExpectedString,
    /// A type was expected.
    ExpectedType,
    /// There are tokens that do not belong there.
    UnexpectedToken,
    /// An attribute without arguments in delimiters.
    ExpectedArguments,
    /// The parser of the language found the error with this message.
    Parser(S),
    /// The macro has no parameter of this name.
    UnknownParameter(S),
    /// Both `rpc_feature` and `no_rpc` are set.
    RpcFeatureWithoutRpc,
    /// The macro stands on something that is not an enum.
    NotAnEnum,
    /// A variant has more than one attribute of this name.
    DuplicateAttribute(S),
    /// A variant has neither exactly one unnamed field nor a name for a wrapper type.
    NoRequestType,
    /// Two variants have the same request type.
    DuplicateRequestType,
    /// An attribute lacks the type of this name.
    MissingType(S),
    /// An attribute has types of these names, which mean nothing. They come in the order of texts.
    UnknownArguments(Vec<S>),
}

/// A [`MacroError`] with its texts as sequences. Of the message of the parser nothing is known.
pub enum MacroErrorSpec {
    ExpectedIdent,
    ExpectedPunct(char),
    ExpectedString,
    ExpectedType,
    UnexpectedToken,
    ExpectedArguments,
    Parser,
    UnknownParameter(Seq<char>),
    RpcFeatureWithoutRpc,
    NotAnEnum,
    DuplicateAttribute(Seq<char>),
    NoRequestType,
    DuplicateRequestType,
    MissingType(Seq<char>),
    UnknownArguments(Seq<Seq<char>>),
}

/// The token trees that a stream holds, in order.
pub uninterp spec fn stream_trees(stream: TokenStream) -> Seq<Tree>;

/// The token trees that some streams hold.
pub open spec fn streams_trees(streams: Seq<TokenStream>) -> Seq<Seq<Tree>> {
    Seq::new(streams.len(), |i: int| stream_trees(streams[i]))
}

/// The token trees that a stream holds, if there is one.
pub open spec fn stream_trees_opt(stream: Option<TokenStream>) -> Option<Seq<Tree>> {
    match stream {
        Some(stream) => Some(stream_trees(stream)),
        None => None,
    }
}

impl DeepView for Token {
    type V = Tree;

    open spec fn deep_view(&self) -> Tree {
        match *self {
            Token::Ident(s) => Tree::Ident(s@),
            Token::Punct { ch, joint } => Tree::Punct { ch, joint },
            Token::Literal(s) => Tree::Literal(s@),
            Token::Group { delimiter, inner } => Tree::Group {
                delimiter,
                inner: stream_trees(inner),
            },
        }
    }
}

impl DeepView for Lexeme {
    type V = LexemeSpec;

    open spec fn deep_view(&self) -> LexemeSpec {
        match *self {
            Lexeme::Ident(s) => LexemeSpec::Ident(s@),
            Lexeme::Keyword(s) => LexemeSpec::Keyword(s@),
            Lexeme::Punct(ch) => LexemeSpec::Punct(ch),
            Lexeme::Str(s) => LexemeSpec::Str(s@),
            Lexeme::Literal(s) => LexemeSpec::Literal(s@),
            Lexeme::Group { delimiter, inner } => LexemeSpec::Group {
                delimiter,
                inner: stream_trees(inner),
            },
        }
    }
}

impl DeepView for MacroError<String> {
    type V = MacroErrorSpec;

    open spec fn deep_view(&self) -> MacroErrorSpec {
        match *self {
            MacroError::ExpectedIdent => MacroErrorSpec::ExpectedIdent,
            MacroError::ExpectedPunct(ch) => MacroErrorSpec::ExpectedPunct(ch),
            MacroError::ExpectedString => MacroErrorSpec::ExpectedString,
            MacroError::ExpectedType => MacroErrorSpec::ExpectedType,
            MacroError::UnexpectedToken => MacroErrorSpec::UnexpectedToken,
            MacroError::ExpectedArguments => MacroErrorSpec::ExpectedArguments,
            MacroError::Parser(_) => MacroErrorSpec::Parser,
            MacroError::UnknownParameter(s) => MacroErrorSpec::UnknownParameter(s@),
            MacroError::RpcFeatureWithoutRpc => MacroErrorSpec::RpcFeatureWithoutRpc,
            MacroError::NotAnEnum => MacroErrorSpec::NotAnEnum,
            MacroError::DuplicateAttribute(s) => MacroErrorSpec::DuplicateAttribute(s@),
            MacroError::NoRequestType => MacroErrorSpec::NoRequestType,
            MacroError::DuplicateRequestType => MacroErrorSpec::DuplicateRequestType,
            MacroError::MissingType(s) => MacroErrorSpec::MissingType(s@),
            MacroError::UnknownArguments(v) => MacroErrorSpec::UnknownArguments(v.deep_view()),
        }
    }
}

/// A result with its texts as sequences.
pub open spec fn deep_result<A: DeepView, E: DeepView>(r: Result<A, E>) -> Result<A::V, E::V> {
    match r {
        Ok(a) => Ok(a.deep_view()),
        Err(e) => Err(e.deep_view()),
    }
}

/// An attribute of an item.
#[derive(Debug)]
pub struct Attribute {
    /// The path of the attribute, if that is a single name.
    pub name: Option<String>,
    /// The tokens between the delimiters directly after that name, if there are delimiters.
    pub args: Option<TokenStream>,
    /// The whole attribute.
    pub tokens: TokenStream,
}

/// An [`Attribute`], as a model.
pub struct AttributeSpec {
    pub name: Option<Seq<char>>,
    pub args: Option<Seq<Tree>>,
    pub tokens: Seq<Tree>,
}

impl DeepView for Attribute {
    type V = AttributeSpec;

    open spec fn deep_view(&self) -> AttributeSpec {
        AttributeSpec {
            name: self.name.deep_view(),
            args: stream_trees_opt(self.args),
            tokens: stream_trees(self.tokens),
        }
    }
}

/// Whether the fields of a variant have names, and whether there are any.
#[derive(Debug, Clone, Copy, PartialEq, Eq, Structural)]
pub enum FieldKind {
    Named,
    Unnamed,
    Unit,
}

/// A field of a variant.
#[derive(Debug)]
pub struct Field {
    pub attrs: Vec<TokenStream>,
    pub name: Option<String>,
    pub ty: TokenStream,
}

/// A [`Field`], as a model.
pub struct FieldSpec {
    pub attrs: Seq<Seq<Tree>>,
    pub name: Option<Seq<char>>,
    pub ty: Seq<Tree>,
}

impl DeepView for Field {
    type V = FieldSpec;

    open spec fn deep_view(&self) -> FieldSpec {
        FieldSpec {
            attrs: streams_trees(self.attrs@),
            name: self.name.deep_view(),
            ty: stream_trees(self.ty),
        }
    }
}

/// The parts of an item.
#[derive(Debug)]
pub struct ItemParts {
    pub name: String,
    pub vis: TokenStream,
    /// The variants, if it is an enum.
    pub variants: Option<Vec<TokenStream>>,
}

/// [`ItemParts`], as a model.
pub struct ItemPartsSpec {
    pub name: Seq<char>,
    pub vis: Seq<Tree>,
    pub variants: Option<Seq<Seq<Tree>>>,
}

impl DeepView for ItemParts {
    type V = ItemPartsSpec;

    open spec fn deep_view(&self) -> ItemPartsSpec {
        ItemPartsSpec {
            name: self.name@,
            vis: stream_trees(self.vis),
            variants: match self.variants {
                Some(variants) => Some(streams_trees(variants@)),
                None => None,
            },
        }
    }
}

/// The parts of a variant.
#[derive(Debug)]
pub struct VariantParts {
    pub name: String,
    pub attrs: Vec<TokenStream>,
    pub kind: FieldKind,
    pub fields: Vec<Field>,
}

/// [`VariantParts`], as a model.
pub struct VariantPartsSpec {
    pub name: Seq<char>,
    pub attrs: Seq<Seq<Tree>>,
    pub kind: FieldKind,
    pub fields: Seq<FieldSpec>,
}

impl DeepView for VariantParts {
    type V = VariantPartsSpec;

    open spec fn deep_view(&self) -> VariantPartsSpec {
        VariantPartsSpec {
            name: self.name@,
            attrs: streams_trees(self.attrs@),
            kind: self.kind,
            fields: self.fields.deep_view(),
        }
    }
}

/// Whether a text can be used as a name.
pub uninterp spec fn is_identifier(text: Seq<char>) -> bool;

/// The value of a string literal, if the text is one.
pub uninterp spec fn string_value(text: Seq<char>) -> Option<Seq<char>>;

/// The type that some token trees are, as its own token trees, if they are one.
pub uninterp spec fn parsed_type(trees: Seq<Tree>) -> Option<Seq<Tree>>;

/// The names of the segments of the path that some token trees are, if they are a type that is a
/// path.
pub uninterp spec fn path_segments(trees: Seq<Tree>) -> Option<Seq<Seq<char>>>;

/// The parts of the struct, enum or union that some token trees are, if they are one.
pub uninterp spec fn item_parts(trees: Seq<Tree>) -> Option<ItemPartsSpec>;

/// The parts of the variant that some token trees are, if they are one.
pub uninterp spec fn variant_parts(trees: Seq<Tree>) -> Option<VariantPartsSpec>;

/// `proc_macro2::TokenStream::into_iter`: the token trees that the stream holds, in order. That of
/// a group is the stream between its delimiters.
#[verifier::external_body]
pub(crate) fn tokens_of(stream: &TokenStream) -> (r: Vec<Token>)
    ensures
        r.deep_view() == stream_trees(*stream),
{
    stream.clone().into_iter().map(|tree| match tree {
        TokenTree::Ident(ident) => Token::Ident(ident.to_string()),
        TokenTree::Punct(p) => Token::Punct { ch: p.as_char(), joint: p.spacing() == Spacing::Joint },
        TokenTree::Literal(literal) => Token::Literal(literal.to_string()),
        TokenTree::Group(group) => Token::Group {
            delimiter: match group.delimiter() {
                proc_macro2::Delimiter::Parenthesis => Delimiter::Parenthesis,
                proc_macro2::Delimiter::Bracket => Delimiter::Bracket,
                proc_macro2::Delimiter::Brace => Delimiter::Brace,
                proc_macro2::Delimiter::None => Delimiter::Bare },
            inner: group.stream() },
    }).collect()
}

/// `proc_macro2::TokenStream::from_iter`: the stream that holds `n` token trees of another stream,
/// from position `start` on.
///
/// Collecting splits a negative literal in two, but no stream holds one: whatever puts a token tree
/// into a stream splits it.
#[verifier::external_body]
pub(crate) fn sub_stream(stream: &TokenStream, start: usize, n: usize) -> (r: TokenStream)
    requires
        start + n <= stream_trees(*stream).len(),
    ensures
        stream_trees(r) == stream_trees(*stream).subrange(start as int, start + n),
{
    stream.clone().into_iter().skip(start).take(n).collect()
}

/// `syn::parse_str` for `syn::Ident`: whether the text is one word that is not reserved.
///
/// The outcome is that of [`is_identifier`].
#[verifier::external_body]
pub(crate) fn parse_identifier(text: &str) -> (r: bool)
    ensures
        r == is_identifier(text@),
{
    syn::parse_str::<syn::Ident>(text).is_ok()
}

/// `syn::parse_str` for `syn::LitStr`: the value of the string literal that the text is.
///
/// The outcome is that of [`string_value`].
#[verifier::external_body]
pub(crate) fn parse_string(text: &str) -> (r: Option<String>)
    ensures
        r.deep_view() == string_value(text@),
{
    syn::parse_str::<syn::LitStr>(text).ok().map(|literal| literal.value())
}

/// `syn::parse2` for `syn::Type`: the type that the whole stream is.
///
/// The outcome is that of [`parsed_type`].
#[verifier::external_body]
pub(crate) fn parse_type(stream: &TokenStream) -> (r: Option<TokenStream>)
    ensures
        stream_trees_opt(r) == parsed_type(stream_trees(*stream)),
{
    syn::parse2::<syn::Type>(stream.clone()).ok().map(|ty| ty.to_token_stream())
}

/// `syn::parse2` for `syn::TypePath`: the names of the segments of the path that the stream is.
///
/// The outcome is that of [`path_segments`].
#[verifier::external_body]
pub(crate) fn parse_segments(stream: &TokenStream) -> (r: Option<Vec<String>>)
    ensures
        r.deep_view() == path_segments(stream_trees(*stream)),
{
    let ty = syn::parse2::<syn::TypePath>(stream.clone()).ok()?;
    Some(ty.path.segments.iter().map(|segment| segment.ident.to_string()).collect())
}

/// `syn::parse2` for `syn::DeriveInput`: the parts of the item that the stream is.
///
/// The outcome is that of [`item_parts`]. Of the message that comes with a failure nothing is
/// claimed.
#[verifier::external_body]
pub(crate) fn parse_item(stream: &TokenStream) -> (r: Result<ItemParts, String>)
    ensures
        match r {
            Ok(parts) => item_parts(stream_trees(*stream)) == Some(parts.deep_view()),
            Err(_) => item_parts(stream_trees(*stream)) is None,
        },
{
    let input = syn::parse2::<syn::DeriveInput>(stream.clone()).map_err(|e| e.to_string())?;
    let variants = match input.data {
        syn::Data::Enum(data) => Some(data.variants.iter().map(|v| v.to_token_stream()).collect()),
        syn::Data::Struct(_) => None,
        syn::Data::Union(_) => None,
    };
    let vis = input.vis.to_token_stream();
    Ok(ItemParts { name: input.ident.to_string(), vis, variants })
}

/// `syn::parse2` for `syn::Variant`: the parts of the variant that the stream is.
///
/// The outcome is that of [`variant_parts`]. Of the message that comes with a failure nothing is
/// claimed.
#[verifier::external_body]
pub(crate) fn parse_variant(stream: &TokenStream) -> (r: Result<VariantParts, String>)
    ensures
        match r {
            Ok(parts) => variant_parts(stream_trees(*stream)) == Some(parts.deep_view()),
            Err(_) => variant_parts(stream_trees(*stream)) is None,
        },
{
    let v: Variant = syn::parse2(stream.clone()).map_err(|e| e.to_string())?;
    let attrs = v.attrs.iter().map(|a| a.to_token_stream()).collect();
    let kind = match v.fields { Fields::Named(_) => FieldKind::Named,
        Fields::Unnamed(_) => FieldKind::Unnamed, Fields::Unit => FieldKind::Unit };
    let fields = v.fields.iter().map(|f| Field {
        attrs: f.attrs.iter().map(|a| a.to_token_stream()).collect(),
        name: f.ident.as_ref().map(ToString::to_string), ty: f.ty.to_token_stream(),
    }).collect();
    Ok(VariantParts { name: v.ident.to_string(), attrs, kind, fields })
}

/// The attribute with these token trees: a number sign, and brackets around a path and its arguments.
/// Arguments of an attribute with a single name follow that name, and nothing follows them.
pub open spec fn attribute_of(tokens: Seq<Tree>) -> AttributeSpec {
    let inner = match tokens.last() {
        Tree::Group { inner, .. } => if tokens.len() > 0 {
            inner
        } else {
            Seq::empty()
        },
        _ => Seq::empty(),
    };
    AttributeSpec {
        name: if inner.len() == 0 || (inner.len() > 1 && (inner[1] matches Tree::Punct { ch, .. }
            && ch == ':')) {
            None
        } else {
            match inner[0] {
                Tree::Ident(s) => Some(s),
                _ => None,
            }
        },
        args: if inner.len() != 2 {
            None
        } else {
            match inner[1] {
                Tree::Group { inner, .. } => Some(inner),
                _ => None,
            }
        },
        tokens,
    }
}

/// The attributes with these token trees.
pub open spec fn attributes_of(all: Seq<Seq<Tree>>) -> Seq<AttributeSpec> {
    Seq::new(all.len(), |i: int| attribute_of(all[i]))
}

/// Reads an attribute.
pub fn read_attribute(stream: TokenStream) -> (r: Attribute)
    ensures
        r.deep_view() == attribute_of(stream_trees(stream)),
{
    let mut outer = tokens_of(&stream);
    assert(outer.deep_view().len() == outer.len());
    assert(outer.len() > 0 ==> outer.deep_view().last() == outer[outer.len() - 1].deep_view());
    let mut inner: Vec<Token> = match outer.pop() {
        Some(Token::Group { inner, .. }) => tokens_of(&inner),
        _ => Vec::new(),
    };
    let ghost trees = inner.deep_view();
    assert(trees.len() == inner.len());
    if inner.len() == 0 {
        assert(trees =~= Seq::empty());
        return Attribute { name: None, args: None, tokens: stream };
    }
    assert(trees[0] == inner[0].deep_view());
    let mut single = true;
    if inner.len() > 1 {
        assert(trees[1] == inner[1].deep_view());
        match &inner[1] {
            Token::Punct { ch, .. } => {
                single = *ch != ':';
            },
            _ => {},
        }
    }
    let name = match &inner[0] {
        Token::Ident(s) => if single {
            Some(s.clone())
        } else {
            None
        },
        _ => None,
    };
    let args = if inner.len() == 2 {
        match inner.pop() {
            Some(Token::Group { inner, .. }) => Some(inner),
            _ => None,
        }
    } else {
        None
    };
    Attribute { name, args, tokens: stream }
}

/// Reads attributes.
pub fn read_attributes(streams: Vec<TokenStream>) -> (r: Vec<Attribute>)
    ensures
        r.deep_view() == attributes_of(streams_trees(streams@)),
{
    let ghost all = streams@;
    let mut left = streams;
    let mut attrs: Vec<Attribute> = Vec::new();
    while left.len() > 0
        invariant
            all == streams@,
            attrs.len() + left.len() == all.len(),
            forall|k: int|
                0 <= k < attrs.len() ==> (#[trigger] attrs[k]).deep_view() == attribute_of(
                    stream_trees(all[k]),
                ),
            forall|k: int| 0 <= k < left.len() ==> (#[trigger] left[k]) == all[attrs.len() + k],
        decreases left.len(),
    {
        let ghost here = left@;
        let stream = left.remove(0);
        assert(here[0] == all[attrs.len() as int]);
        assert forall|k: int| 0 <= k < left.len() implies (#[trigger] left[k]) == all[attrs.len() + 1
            + k] by {
            assert(left[k] == here[k + 1]);
        }
        attrs.push(read_attribute(stream));
    }
    assert(attrs.deep_view() =~= attributes_of(streams_trees(all)));
    attrs
}

/// How the grammars of the attributes see a token.
pub open spec fn lexeme_of(tree: Tree) -> LexemeSpec {
    match tree {
        Tree::Ident(s) => if is_identifier(s) {
            LexemeSpec::Ident(s)
        } else {
            LexemeSpec::Keyword(s)
        },
        Tree::Punct { ch, .. } => LexemeSpec::Punct(ch),
        Tree::Literal(s) => match string_value(s) {
            Some(v) => LexemeSpec::Str(v),
            None => LexemeSpec::Literal(s),
        },
        Tree::Group { delimiter, inner } => LexemeSpec::Group { delimiter, inner },
    }
}

/// How the grammars of the attributes see some tokens.
pub open spec fn lexemes_of(trees: Seq<Tree>) -> Seq<LexemeSpec> {
    Seq::new(trees.len(), |i: int| lexeme_of(trees[i]))
}

/// Classifies some tokens.
pub fn classify(tokens: Vec<Token>) -> (r: Vec<Lexeme>)
    ensures
        r.deep_view() == lexemes_of(tokens.deep_view()),
{
    let ghost all = tokens.deep_view();
    let mut left = tokens;
    let mut out: Vec<Lexeme> = Vec::new();
    while left.len() > 0
        invariant
            all == tokens.deep_view(),
            out.len() + left.len() == all.len(),
            forall|k: int| 0 <= k < out.len() ==> (#[trigger] out[k]).deep_view() == lexeme_of(all[k]),
            forall|k: int| 0 <= k < left.len() ==> (#[trigger] left[k]).deep_view() == all[out.len() + k],
        decreases left.len(),
    {
        let ghost here = left@;
        let token = left.remove(0);
        assert(here[0].deep_view() == all[out.len() as int]);
        assert forall|k: int| 0 <= k < left.len() implies (#[trigger] left[k]).deep_view() == all[out.len()
            + 1 + k] by {
            assert(left[k] == here[k + 1]);
        }
        let lexeme = match token {
            Token::Ident(s) => if parse_identifier(s.as_str()) {
                Lexeme::Ident(s)
            } else {
                Lexeme::Keyword(s)
            },
            Token::Punct { ch, .. } => Lexeme::Punct(ch),
            Token::Literal(s) => match parse_string(s.as_str()) {
                Some(v) => Lexeme::Str(v),
                None => Lexeme::Literal(s),
            },
            Token::Group { delimiter, inner } => Lexeme::Group { delimiter, inner },
        };
        out.push(lexeme);
    }
    assert(out.deep_view() =~= lexemes_of(all));
    out
}

/// What opens a group.
pub open spec fn opening(delimiter: Delimiter) -> Seq<char> {
    match delimiter {
        Delimiter::Parenthesis => seq!['('],
        Delimiter::Bracket => seq!['['],
        Delimiter::Brace => seq!['{'],
        Delimiter::Bare => Seq::empty(),
    }
}

/// What closes a group.
pub open spec fn closing(delimiter: Delimiter) -> Seq<char> {
    match delimiter {
        Delimiter::Parenthesis => seq![')'],
        Delimiter::Bracket => seq![']'],
        Delimiter::Brace => seq!['}'],
        Delimiter::Bare => Seq::empty(),
    }
}

/// The text of the first `n` of some token trees. There is a space between two of them, unless the
/// first one is joint.
pub open spec fn text_upto(trees: Seq<Tree>, n: int) -> Seq<char>
    decreases trees, n,
{
    if n <= 0 || n > trees.len() {
        Seq::empty()
    } else {
        let before = text_upto(trees, n - 1);
        let text = match trees[n - 1] {
            Tree::Ident(s) => s,
            Tree::Punct { ch, .. } => seq![ch],
            Tree::Literal(s) => s,
            Tree::Group { delimiter, inner } => opening(delimiter) + text_upto(
                inner,
                inner.len() as int,
            ) + closing(delimiter),
        };
        if n == 1 || (trees[n - 2] matches Tree::Punct { joint, .. } && joint) {
            before + text
        } else {
            before.push(' ') + text
        }
    }
}

/// The text of some token trees.
pub open spec fn trees_text(trees: Seq<Tree>) -> Seq<char> {
    text_upto(trees, trees.len() as int)
}

/// The texts of some sequences of token trees.
pub open spec fn trees_texts(all: Seq<Seq<Tree>>) -> Seq<Seq<char>> {
    Seq::new(all.len(), |i: int| trees_text(all[i]))
}

/// The text of the token trees that a stream holds.
pub fn print(stream: &TokenStream) -> (r: String)
    ensures
        r@ == trees_text(stream_trees(*stream)),
    decreases stream_trees(*stream),
{
    let ghost trees = stream_trees(*stream);
    let tokens = tokens_of(stream);
    let mut text = String::new();
    let mut space = false;
    let mut i: usize = 0;
    assert(text@ =~= text_upto(trees, 0));
    while i < tokens.len()
        invariant
            i <= tokens.len(),
            trees == stream_trees(*stream),
            tokens.deep_view() == trees,
            text@ == text_upto(trees, i as int),
            space == (i > 0 && !(trees[i - 1] matches Tree::Punct { joint, .. } && joint)),
        decreases tokens.len() - i,
    {
        let ghost start = text@;
        assert(trees[i as int] == tokens[i as int].deep_view());
        if space {
            text.push(' ');
        }
        let ghost before = text@;
        space = true;
        match &tokens[i] {
            Token::Ident(s) => {
                text.append(s.as_str());
            },
            Token::Literal(s) => {
                text.append(s.as_str());
            },
            Token::Punct { ch, joint } => {
                text.push(*ch);
                space = !*joint;
                assert(text@ =~= before + seq![*ch]);
            },
            Token::Group { delimiter, inner } => {
                proof {
                    let tree = trees[i as int];
                    assert(decreases_to!(trees => tree));
                    assert(tree == (Tree::Group {
                        delimiter: *delimiter,
                        inner: stream_trees(*inner),
                    }));
                    assert(decreases_to!(tree => tree->inner));
                }
                let inner = print(inner);
                match *delimiter {
                    Delimiter::Parenthesis => {
                        text.push('(');
                        text.append(inner.as_str());
                        text.push(')');
                    },
                    Delimiter::Bracket => {
                        text.push('[');
                        text.append(inner.as_str());
                        text.push(']');
                    },
                    Delimiter::Brace => {
                        text.push('{');
                        text.append(inner.as_str());
                        text.push('}');
                    },
                    Delimiter::Bare => {
                        text.append(inner.as_str());
                    },
                }
                assert(text@ =~= before + (opening(*delimiter) + inner@ + closing(*delimiter)));
            },
        }
        i = i + 1;
        assert(text@ =~= text_upto(trees, i as int));
    }
    text
}

/// The texts of the token trees that some streams hold.
pub fn print_all(streams: &Vec<TokenStream>) -> (r: Vec<String>)
    ensures
        r.deep_view() == trees_texts(streams_trees(streams@)),
{
    let mut texts: Vec<String> = Vec::new();
    let mut i: usize = 0;
    while i < streams.len()
        invariant
            i <= streams.len(),
            texts.len() == i,
            forall|k: int| 0 <= k < i ==> (#[trigger] texts[k])@ == trees_text(stream_trees(streams[k])),
        decreases streams.len() - i,
    {
        texts.push(print(&streams[i]));
        i = i + 1;
    }
    assert(texts.deep_view() =~= trees_texts(streams_trees(streams@)));
    texts
}

/// Whether two texts are equal.
pub fn is_text(a: &String, b: &str) -> (r: bool)
    ensures
        r == (a@ == b@),
{
    *a == b.to_owned()
}

/// Texts in a list, each in quotation marks, with commas between them.
pub open spec fn quoted_list(texts: Seq<Seq<char>>) -> Seq<char>
    decreases texts.len(),
{
    if texts.len() == 0 {
        Seq::empty()
    } else if texts.len() == 1 {
        seq!['"'] + texts[0] + seq!['"']
    } else {
        quoted_list(texts.drop_last()) + seq![',', ' ', '"'] + texts.last() + seq!['"']
    }
}

impl MacroErrorSpec {
    /// What is wrong, in words. Those of the parser are its own.
    pub open spec fn text(self) -> Seq<char> {
        match self {
            MacroErrorSpec::ExpectedPunct(ch) => "expected `"@.push(ch).push('`'),
            MacroErrorSpec::Parser => Seq::empty(),
            MacroErrorSpec::UnknownParameter(name) => "Unknown parameter: "@ + name,
            MacroErrorSpec::DuplicateAttribute(name) => "Each variant can only have one "@ + name
                + " attribute"@,
            MacroErrorSpec::MissingType(name) => "rpc requires a "@ + name + " type"@,
            MacroErrorSpec::UnknownArguments(names) => "Unknown arguments provided: ["@
                + quoted_list(names) + seq![']'],
            MacroErrorSpec::ExpectedIdent => "expected identifier"@,
            MacroErrorSpec::ExpectedString => "expected string literal"@,
            MacroErrorSpec::ExpectedType => "expected a type"@,
            MacroErrorSpec::UnexpectedToken => "unexpected token"@,
            MacroErrorSpec::ExpectedArguments => "expected attribute arguments in parentheses"@,
            MacroErrorSpec::RpcFeatureWithoutRpc => "rpc_feature is incompatible with no_rpc"@,
            MacroErrorSpec::NotAnEnum => "The rpc_requests macro can only be applied to enums"@,
            MacroErrorSpec::NoRequestType => "Each variant must either have exactly one unnamed field, or use the `wrap` argument in the `rpc` attribute."@,
            MacroErrorSpec::DuplicateRequestType => "Each variant must have a unique request type"@,
        }
    }
}

impl MacroError<String> {
    /// What is wrong, in words.
    pub fn text(&self) -> (r: String)
        ensures
            r@ == match *self {
                MacroError::Parser(message) => message@,
                _ => self.deep_view().text(),
            },
    {
        match self {
            MacroError::ExpectedPunct(ch) => {
                let mut text = "expected `".to_owned();
                text.push(*ch);
                text.push('`');
                text
            },
            MacroError::Parser(message) => message.clone(),
            MacroError::UnknownParameter(name) => "Unknown parameter: ".to_owned().concat(
                name.as_str(),
            ),
            MacroError::DuplicateAttribute(name) => "Each variant can only have one ".to_owned().concat(
                name.as_str(),
            ).concat(" attribute"),
            MacroError::MissingType(name) => "rpc requires a ".to_owned().concat(
                name.as_str(),
            ).concat(" type"),
            MacroError::UnknownArguments(names) => {
                let mut text = "Unknown arguments provided: [".to_owned();
                let ghost start = text@;
                let ghost all = names.deep_view();
                let mut i: usize = 0;
                assert(text@ =~= start + quoted_list(all.take(0)));
                while i < names.len()
                    invariant
                        i <= names.len(),
                        all == names.deep_view(),
                        text@ == start + quoted_list(all.take(i as int)),
                    decreases names.len() - i,
                {
                    let ghost before = text@;
                    if i > 0 {
                        text.push(',');
                        text.push(' ');
                    }
                    text.push('"');
                    text.append(names[i].as_str());
                    text.push('"');
                    proof {
                        assert(all[i as int] == names[i as int]@);
                        let next = all.take(i + 1);
                        assert(next.drop_last() =~= all.take(i as int));
                        assert(next.last() == all[i as int]);
                        if i == 0 {
                            assert(next[0] == all[0]);
                            assert(quoted_list(all.take(0)) =~= Seq::empty());
                        }
                        assert(text@ =~= start + quoted_list(next));
                    }
                    i = i + 1;
                }
                assert(all.take(i as int) =~= all);
                text.push(']');
                assert(text@ =~= start + quoted_list(all) + seq![']']);
                text
            },
            MacroError::ExpectedIdent => "expected identifier".to_owned(),
            MacroError::ExpectedString => "expected string literal".to_owned(),
            MacroError::ExpectedType => "expected a type".to_owned(),
            MacroError::UnexpectedToken => "unexpected token".to_owned(),
            MacroError::ExpectedArguments => "expected attribute arguments in parentheses".to_owned(),
            MacroError::RpcFeatureWithoutRpc => "rpc_feature is incompatible with no_rpc".to_owned(),
            MacroError::NotAnEnum => "The rpc_requests macro can only be applied to enums".to_owned(),
            MacroError::NoRequestType => "Each variant must either have exactly one unnamed field, or use the `wrap` argument in the `rpc` attribute.".to_owned(),
            MacroError::DuplicateRequestType => "Each variant must have a unique request type".to_owned(),
        }
    }
}

/// The name of an attribute is its path, if that is a single word. It has arguments exactly if a group
/// follows that word and nothing follows the group.
pub proof fn law_attributes(
    sign: Tree,
    delimiter: Delimiter,
    name: Seq<char>,
    args: Seq<Tree>,
    second: Tree,
    more: Seq<Tree>,
)
    ensures
        ({
            let of = |inner: Seq<Tree>|
                attribute_of(seq![sign, Tree::Group { delimiter: Delimiter::Bracket, inner }]);
            let group = Tree::Group { delimiter, inner: args };
            &&& of(seq![Tree::Ident(name)]).name == Some(name)
            &&& of(seq![Tree::Ident(name)]).args is None
            &&& of(seq![Tree::Ident(name), group]).name == Some(name)
            &&& of(seq![Tree::Ident(name), group]).args == Some(args)
            &&& (more.len() > 0 ==> of(seq![Tree::Ident(name), second] + more).args is None)
            &&& (!(second is Group) ==> of(seq![Tree::Ident(name), second] + more).args is None)
            &&& of(seq![Tree::Ident(name), second] + more).name is None <==> (
            second matches Tree::Punct { ch, .. } && ch == ':')
            &&& (of(seq![Tree::Ident(name), second] + more).name matches Some(s) ==> s == name)
        }),
        attribute_of(more).tokens == more,
{
    let group = Tree::Group { delimiter, inner: args };
    let one = seq![Tree::Ident(name)];
    let two = seq![Tree::Ident(name), group];
    let many = seq![Tree::Ident(name), second] + more;
    let outer = |inner: Seq<Tree>| seq![sign, Tree::Group { delimiter: Delimiter::Bracket, inner }];
    assert(outer(one).last() == (Tree::Group { delimiter: Delimiter::Bracket, inner: one }));
    assert(outer(two).last() == (Tree::Group { delimiter: Delimiter::Bracket, inner: two }));
    assert(outer(many).last() == (Tree::Group { delimiter: Delimiter::Bracket, inner: many }));
    assert(many[0] == Tree::Ident(name) && many[1] == second);
}

/// A token is seen as what it is: a word as a name exactly if it can be one, a literal as a string
/// exactly if it is one, and everything else unchanged. Tokens are seen one by one.
pub proof fn law_lexemes(tree: Tree, trees: Seq<Tree>, i: int)
    ensures
        match tree {
            Tree::Ident(s) => if is_identifier(s) {
                lexeme_of(tree) == LexemeSpec::Ident(s)
            } else {
                lexeme_of(tree) == LexemeSpec::Keyword(s)
            },
            Tree::Punct { ch, .. } => lexeme_of(tree) == LexemeSpec::Punct(ch),
            Tree::Literal(s) => match string_value(s) {
                Some(v) => lexeme_of(tree) == LexemeSpec::Str(v),
                None => lexeme_of(tree) == LexemeSpec::Literal(s),
            },
            Tree::Group { delimiter, inner } => lexeme_of(tree) == (LexemeSpec::Group {
                delimiter,
                inner,
            }),
        },
        lexemes_of(trees).len() == trees.len(),
        0 <= i < trees.len() ==> lexemes_of(trees)[i] == lexeme_of(trees[i]),
{
}

/// The text of some tokens is the text of all but the last one, then a space unless there is nothing
/// before or what is before is joint, then the text of the last one. A group has its delimiters around
/// the text of what is in it.
pub proof fn law_text_of_tokens(trees: Seq<Tree>, last: Tree)
    ensures
        trees_text(Seq::empty()) == Seq::<char>::empty(),
        trees_text(trees.push(last)) == trees_text(trees) + (if trees.len() == 0 || (
        trees.last() matches Tree::Punct { joint, .. } && joint) {
            Seq::empty()
        } else {
            seq![' ']
        }) + trees_text(seq![last]),
        match last {
            Tree::Ident(s) => trees_text(seq![last]) == s,
            Tree::Literal(s) => trees_text(seq![last]) == s,
            Tree::Punct { ch, .. } => trees_text(seq![last]) == seq![ch],
            Tree::Group { delimiter, inner } => trees_text(seq![last]) == match delimiter {
                Delimiter::Parenthesis => seq!['('] + trees_text(inner) + seq![')'],
                Delimiter::Bracket => seq!['['] + trees_text(inner) + seq![']'],
                Delimiter::Brace => seq!['{'] + trees_text(inner) + seq!['}'],
                Delimiter::Bare => trees_text(inner),
            },
        },
{
    let all = trees.push(last);
    let one = seq![last];
    lemma_text_of_start(all, trees, trees.len() as int);
    assert(text_upto(one, 0) =~= Seq::empty());
    assert(one[0] == last);
    let text = match last {
        Tree::Ident(s) => s,
        Tree::Punct { ch, .. } => seq![ch],
        Tree::Literal(s) => s,
        Tree::Group { delimiter, inner } => opening(delimiter) + trees_text(inner) + closing(
            delimiter,
        ),
    };
    assert(text_upto(one, 1) =~= text);
    assert(all[trees.len() as int] == last);
    if trees.len() > 0 {
        assert(all[trees.len() - 1] == trees.last());
    }
    assert(trees_text(all) =~= trees_text(trees) + (if trees.len() == 0 || (
    trees.last() matches Tree::Punct { joint, .. } && joint) {
        Seq::empty()
    } else {
        seq![' ']
    }) + text);
    if let Tree::Group { delimiter: Delimiter::Bare, inner } = last {
        assert(text =~= trees_text(inner));
    }
}

proof fn lemma_text_of_start(all: Seq<Tree>, start: Seq<Tree>, n: int)
    requires
        0 <= n <= start.len() <= all.len(),
        forall|i: int| 0 <= i < start.len() ==> all[i] == start[i],
    ensures
        text_upto(all, n) == text_upto(start, n),
    decreases n,
{
    if n > 0 {
        lemma_text_of_start(all, start, n - 1);
    }
}

/// The words of an error name what it is about.
pub proof fn law_errors_name_what_they_are_about(name: Seq<char>, ch: char)
    ensures
        exists|start: Seq<char>|
            MacroErrorSpec::UnknownParameter(name).text() == #[trigger] (start + name),
        exists|start: Seq<char>, end: Seq<char>|
            MacroErrorSpec::DuplicateAttribute(name).text() == #[trigger] (start + name + end),
        exists|start: Seq<char>, end: Seq<char>|
            MacroErrorSpec::MissingType(name).text() == #[trigger] (start + name + end),
        MacroErrorSpec::ExpectedPunct(ch).text().contains(ch),
        quoted_list(seq![name]) == seq!['"'] + name + seq!['"'],
{
    assert(MacroErrorSpec::UnknownParameter(name).text() == "Unknown parameter: "@ + name);
    assert(MacroErrorSpec::DuplicateAttribute(name).text() == "Each variant can only have one "@
        + name + " attribute"@);
    assert(MacroErrorSpec::MissingType(name).text() == "rpc requires a "@ + name + " type"@);
    let text = "expected `"@.push(ch).push('`');
    assert(text[text.len() - 2] == ch);
    assert(MacroErrorSpec::ExpectedPunct(ch).text() == text);
}

/// A list of texts has every text in quotation marks, with a comma and a space between two of them.
pub proof fn law_quoted_list(texts: Seq<Seq<char>>, last: Seq<char>)
    requires
        texts.len() > 0,
    ensures
        quoted_list(texts.push(last)) == quoted_list(texts) + seq![',', ' '] + quoted_list(
            seq![last],
        ),
{
    assert(texts.push(last).drop_last() =~= texts);
    assert(quoted_list(texts.push(last)) =~= quoted_list(texts) + seq![',', ' '] + quoted_list(
        seq![last],
    ));
}

/// Attributes are read one by one, and texts are written one by one, in the order of the tokens.
pub proof fn law_one_by_one(all: Seq<Seq<Tree>>, more: Seq<Seq<Tree>>)
    ensures
        attributes_of(all).len() == all.len(),
        forall|i: int|
            0 <= i < all.len() ==> #[trigger] attributes_of(all)[i] == attribute_of(all[i])
                && attributes_of(all)[i].tokens == all[i],
        attributes_of(all + more) == attributes_of(all) + attributes_of(more),
        trees_texts(all).len() == all.len(),
        forall|i: int|
            0 <= i < all.len() ==> #[trigger] trees_texts(all)[i] == trees_text(all[i]),
        trees_texts(all + more) == trees_texts(all) + trees_texts(more),
{
    assert(attributes_of(all + more) =~= attributes_of(all) + attributes_of(more));
    assert(trees_texts(all + more) =~= trees_texts(all) + trees_texts(more));
}

/// An attribute has a name only from the first token in its brackets, which is a word that no path goes
/// on from, and arguments only from a group that is all that follows the name.
pub proof fn law_attribute_parts(tokens: Seq<Tree>)
    ensures
        attribute_of(tokens).tokens == tokens,
        attribute_of(tokens).name is Some || attribute_of(tokens).args is Some ==> tokens.len() > 0
            && tokens.last() is Group && tokens.last()->inner.len() > 0,
        attribute_of(tokens).name matches Some(name) ==> {
            &&& tokens.last()->inner[0] == Tree::Ident(name)
            &&& tokens.last()->inner.len() > 1 ==> !(tokens.last()->inner[1] matches Tree::Punct {
                ch,
                ..
            } && ch == ':')
        },
        attribute_of(tokens).args matches Some(args) ==> {
            &&& tokens.last()->inner.len() == 2
            &&& tokens.last()->inner[1] matches Tree::Group { inner, .. } && inner == args
        },
{
}

} // verus!
