//! The arguments in the attributes of a variant.
use crate::derive::args::{ident_spec, parse_ident, peek_punct, starts_with};
use crate::derive::lex::{
    deep_result, is_text, parse_type, parsed_type, print, stream_trees, sub_stream, tokens_of,
    trees_text, Delimiter, Lexeme, LexemeSpec, MacroError, MacroErrorSpec, Token, Tree,
};
use proc_macro2::TokenStream;
use vstd::prelude::*;

verus! {

/// The types in an attribute by their names, in the order in which the names were first written.
pub struct NamedTypeArgs<S> {
    /// Whether the variant is to be wrapped, and the name of the wrapper type if it is given.
    pub wrap: Option<Option<S>>,
    pub types: Vec<(S, S)>,
}

/// A [`NamedTypeArgs`] with its texts as sequences.
#[verifier::ext_equal]
pub struct NamedTypeArgsSpec {
    pub wrap: Option<Option<Seq<char>>>,
    pub types: Seq<(Seq<char>, Seq<char>)>,
}

impl DeepView for NamedTypeArgs<String> {
    type V = NamedTypeArgsSpec;

    open spec fn deep_view(&self) -> NamedTypeArgsSpec {
        NamedTypeArgsSpec { wrap: self.wrap.deep_view(), types: self.types.deep_view() }
    }
}

/// The position of a name among named types.
pub open spec fn key_index(types: Seq<(Seq<char>, Seq<char>)>, key: Seq<char>) -> Option<int>
    decreases types.len(),
{
    if types.len() == 0 {
        None
    } else if types.last().0 == key {
        Some(types.len() - 1)
    } else {
        key_index(types.drop_last(), key)
    }
}

/// Named types with one more. A name that is there already gets the new type.
pub open spec fn with_type(
    types: Seq<(Seq<char>, Seq<char>)>,
    key: Seq<char>,
    value: Seq<char>,
) -> Seq<(Seq<char>, Seq<char>)> {
    match key_index(types, key) {
        Some(i) => types.update(i, (key, value)),
        None => types.push((key, value)),
    }
}

/// The names of named types.
pub open spec fn keys_of(types: Seq<(Seq<char>, Seq<char>)>) -> Seq<Seq<char>> {
    Seq::new(types.len(), |i: int| types[i].0)
}

/// Whether `a` comes before `b` in the order of texts, if they agree up to position `i`.
pub open spec fn comes_before(a: Seq<char>, b: Seq<char>, i: int) -> bool
    decreases b.len() - i,
{
    if i < 0 || i >= b.len() {
        false
    } else if i >= a.len() {
        true
    } else if a[i] == b[i] {
        comes_before(a, b, i + 1)
    } else {
        a[i] < b[i]
    }
}

/// The first position from `i` on with a name that `key` comes before, or the end.
pub open spec fn place_of(names: Seq<Seq<char>>, key: Seq<char>, i: int) -> int
    decreases names.len() - i,
{
    if i < 0 || i >= names.len() || comes_before(key, names[i], 0) {
        i
    } else {
        place_of(names, key, i + 1)
    }
}

/// The names of the first `n` named types, in order.
pub open spec fn ordered_keys(types: Seq<(Seq<char>, Seq<char>)>, n: int) -> Seq<Seq<char>>
    decreases n,
{
    if n <= 0 {
        Seq::empty()
    } else {
        let before = ordered_keys(types, n - 1);
        before.insert(place_of(before, types[n - 1].0, 0), types[n - 1].0)
    }
}

fn is_before(a: &str, b: &str) -> (r: bool)
    ensures
        r == comes_before(a@, b@, 0),
{
    let n = a.unicode_len();
    let m = b.unicode_len();
    let mut i: usize = 0;
    while i < m
        invariant
            n == a@.len(),
            m == b@.len(),
            i <= m,
            comes_before(a@, b@, i as int) == comes_before(a@, b@, 0),
        decreases m - i,
    {
        if i >= n {
            return true;
        }
        let c = a.get_char(i);
        let d = b.get_char(i);
        if c != d {
            return c < d;
        }
        i = i + 1;
    }
    false
}

/// The arguments `args` with those from position `i` on added to them: pairs of a name and a type,
/// with commas between them. `types[k]` is the type that starts at position `k`, and the position
/// after it. If `wraps` holds, the name `wrap` is special: it may have a name as its value, or no value.
pub open spec fn named_types_spec(
    tokens: Seq<LexemeSpec>,
    types: Seq<Option<(usize, Seq<char>)>>,
    wraps: bool,
    i: int,
    args: NamedTypeArgsSpec,
) -> Result<NamedTypeArgsSpec, MacroErrorSpec>
    decreases tokens.len() - i,
{
    if i < 0 || i >= tokens.len() {
        Ok(args)
    } else {
        match named_type_spec(tokens, types, wraps, i, args) {
            Err(e) => Err(e),
            Ok((next, end)) => if end >= tokens.len() {
                Ok(next)
            } else if !starts_with(tokens.skip(end), ',') || end <= i {
                Err(MacroErrorSpec::UnexpectedToken)
            } else {
                named_types_spec(tokens, types, wraps, end + 1, next)
            },
        }
    }
}

/// The arguments `args` with the one at position `i` added to them, and the position after it.
pub open spec fn named_type_spec(
    tokens: Seq<LexemeSpec>,
    types: Seq<Option<(usize, Seq<char>)>>,
    wraps: bool,
    i: int,
    args: NamedTypeArgsSpec,
) -> Result<(NamedTypeArgsSpec, int), MacroErrorSpec> {
    match ident_spec(tokens.skip(i)) {
        Err(e) => Err(e),
        Ok(key) => {
            let is_set = starts_with(tokens.skip(i + 1), '=');
            if wraps && key == "wrap"@ {
                if is_set {
                    match ident_spec(tokens.skip(i + 2)) {
                        Err(e) => Err(e),
                        Ok(name) => Ok((NamedTypeArgsSpec { wrap: Some(Some(name)), ..args }, i + 3)),
                    }
                } else {
                    Ok((NamedTypeArgsSpec { wrap: Some(None), ..args }, i + 1))
                }
            } else if !is_set {
                Err(MacroErrorSpec::ExpectedPunct('='))
            } else if i + 2 >= types.len() || types[i + 2] is None {
                Err(MacroErrorSpec::ExpectedType)
            } else {
                let (end, value) = types[i + 2]->0;
                Ok((NamedTypeArgsSpec { types: with_type(args.types, key, value), ..args }, end as int))
            }
        },
    }
}

/// No arguments.
pub open spec fn no_named_types() -> NamedTypeArgsSpec {
    NamedTypeArgsSpec { wrap: None, types: Seq::empty() }
}

/// The position of `key` among the named types.
fn find_key(types: &Vec<(String, String)>, key: &str) -> (r: Option<usize>)
    ensures
        match r {
            Some(i) => i < types.len() && key_index(types.deep_view(), key@) == Some(i as int),
            None => key_index(types.deep_view(), key@) is None,
        },
{
    let ghost all = types.deep_view();
    let mut i: usize = types.len();
    assert(all.take(i as int) =~= all);
    while i > 0
        invariant
            i <= types.len(),
            all == types.deep_view(),
            key_index(all.take(i as int), key@) == key_index(all, key@),
        decreases i,
    {
        assert(all.take(i as int).drop_last() =~= all.take(i - 1));
        assert(all.take(i as int).last() == all[i - 1]);
        if is_text(&types[i - 1].0, key) {
            return Some(i - 1);
        }
        i = i - 1;
    }
    None
}

/// A name is found exactly if it is there.
pub(crate) proof fn lemma_key_index(types: Seq<(Seq<char>, Seq<char>)>, key: Seq<char>)
    ensures
        match key_index(types, key) {
            Some(i) => 0 <= i < types.len() && types[i].0 == key,
            None => forall|i: int| 0 <= i < types.len() ==> (#[trigger] types[i]).0 != key,
        },
    decreases types.len(),
{
    if types.len() > 0 {
        lemma_key_index(types.drop_last(), key);
        if key_index(types, key) is None {
            assert forall|i: int| 0 <= i < types.len() implies (#[trigger] types[i]).0 != key by {
                if i < types.len() - 1 {
                    assert(types.drop_last()[i] == types[i]);
                }
            }
        }
    }
}

impl NamedTypeArgs<String> {
    /// Reads named types. `types[k]` is the type that starts at position `k`, and the position
    /// after it. If `wraps` holds, the name `wrap` is special.
    pub fn parse(
        tokens: &Vec<Lexeme>,
        types: &Vec<Option<(usize, String)>>,
        wraps: bool,
    ) -> (r: Result<Self, MacroError<String>>)
        requires
            forall|k: int|
                0 <= k < types.len() ==> (#[trigger] types[k] matches Some(t) ==> k < t.0
                    <= tokens.len()),
        ensures
            deep_result(r) == named_types_spec(
                tokens.deep_view(),
                types.deep_view(),
                wraps,
                0,
                no_named_types(),
            ),
    {
        let ghost all = tokens.deep_view();
        let ghost tys = types.deep_view();
        let mut args: NamedTypeArgs<String> = NamedTypeArgs { wrap: None, types: Vec::new() };
        let mut i: usize = 0;
        assert(args.deep_view() =~= no_named_types());
        while i < tokens.len()
            invariant
                i <= tokens.len(),
                all == tokens.deep_view(),
                tys == types.deep_view(),
                forall|k: int|
                    0 <= k < types.len() ==> (#[trigger] types[k] matches Some(t) ==> k < t.0
                        <= tokens.len()),
                named_types_spec(all, tys, wraps, i as int, args.deep_view()) == named_types_spec(
                    all,
                    tys,
                    wraps,
                    0,
                    no_named_types(),
                ),
            decreases tokens.len() - i,
        {
            let ghost before = args.deep_view();
            let key = parse_ident(tokens, i)?;
            let is_set = peek_punct(tokens, i + 1, '=');
            let end: usize;
            if wraps && is_text(&key, "wrap") {
                if is_set {
                    let name = parse_ident(tokens, i + 2)?;
                    args.wrap = Some(Some(name));
                    end = i + 3;
                } else {
                    args.wrap = Some(None);
                    end = i + 1;
                }
                assert(args.deep_view().types =~= before.types);
            } else {
                if !is_set {
                    return Err(MacroError::ExpectedPunct('='));
                }
                if i + 2 >= types.len() {
                    return Err(MacroError::ExpectedType);
                }
                match &types[i + 2] {
                    None => {
                        return Err(MacroError::ExpectedType);
                    },
                    Some(ty) => {
                        let value: String = ty.1.clone();
                        end = ty.0;
                        assert(tys[i + 2] == Some((end, value@)));
                        match find_key(&args.types, key.as_str()) {
                            Some(k) => {
                                args.types.set(k, (key, value));
                                assert(args.types.deep_view() =~= with_type(
                                    before.types,
                                    key@,
                                    value@,
                                ));
                            },
                            None => {
                                args.types.push((key, value));
                                assert(args.types.deep_view() =~= with_type(
                                    before.types,
                                    key@,
                                    value@,
                                ));
                            },
                        }
                    },
                }
            }
            assert(named_type_spec(all, tys, wraps, i as int, before) == Ok::<
                (NamedTypeArgsSpec, int),
                MacroErrorSpec,
            >((args.deep_view(), end as int)));
            if end == tokens.len() {
                return Ok(args);
            }
            if !peek_punct(tokens, end, ',') {
                return Err(MacroError::UnexpectedToken);
            }
            i = end + 1;
        }
        Ok(args)
    }

    /// Removes the type of the name `key`.
    pub fn remove(&mut self, key: &str) -> (r: Option<String>)
        ensures
            final(self).deep_view().wrap == old(self).deep_view().wrap,
            match key_index(old(self).deep_view().types, key@) {
                Some(i) => {
                    &&& r.deep_view() == Some(old(self).deep_view().types[i].1)
                    &&& final(self).deep_view().types == old(self).deep_view().types.remove(i)
                },
                None => r is None && final(self).deep_view().types == old(self).deep_view().types,
            },
    {
        match find_key(&self.types, key) {
            Some(i) => {
                let (_, value) = self.types.remove(i);
                assert(self.types.deep_view() =~= old(self).types.deep_view().remove(i as int));
                Some(value)
            },
            None => None,
        }
    }

    /// Removes the type of the name `key`, which must be there.
    pub fn get(&mut self, key: &str) -> (r: Result<String, MacroError<String>>)
        ensures
            final(self).deep_view().wrap == old(self).deep_view().wrap,
            match key_index(old(self).deep_view().types, key@) {
                Some(i) => {
                    &&& deep_result(r) == Ok::<_, MacroErrorSpec>(
                        old(self).deep_view().types[i].1,
                    )
                    &&& final(self).deep_view().types == old(self).deep_view().types.remove(i)
                },
                None => {
                    &&& deep_result(r) == Err::<Seq<char>, _>(MacroErrorSpec::MissingType(key@))
                    &&& final(self).deep_view().types == old(self).deep_view().types
                },
            },
    {
        match self.remove(key) {
            Some(value) => Ok(value),
            None => Err(MacroError::MissingType(key.to_owned())),
        }
    }

    /// Fails if any types are left.
    pub fn check_empty(&self) -> (r: Result<(), MacroError<String>>)
        ensures
            match r {
                Ok(()) => self.deep_view().types.len() == 0,
                Err(e) => {
                    &&& self.deep_view().types.len() > 0
                    &&& e.deep_view() == MacroErrorSpec::UnknownArguments(
                        ordered_keys(
                            self.deep_view().types,
                            self.deep_view().types.len() as int,
                        ),
                    )
                },
            },
    {
        if self.types.len() == 0 {
            return Ok(());
        }
        let ghost types = self.deep_view().types;
        let mut keys: Vec<String> = Vec::new();
        let mut i: usize = 0;
        assert(keys.deep_view() =~= ordered_keys(types, 0));
        while i < self.types.len()
            invariant
                i <= self.types.len(),
                types == self.deep_view().types,
                keys.deep_view() == ordered_keys(types, i as int),
            decreases self.types.len() - i,
        {
            let key = &self.types[i].0;
            assert(types[i as int].0 == key@);
            let ghost before = keys.deep_view();
            let mut k: usize = 0;
            while k < keys.len() && !is_before(key.as_str(), keys[k].as_str())
                invariant
                    k <= keys.len(),
                    before == keys.deep_view(),
                    place_of(before, key@, k as int) == place_of(before, key@, 0),
                decreases keys.len() - k,
            {
                assert(before[k as int] == keys[k as int]@);
                k = k + 1;
            }
            proof {
                if k < keys.len() {
                    assert(before[k as int] == keys[k as int]@);
                }
                assert(place_of(before, key@, 0) == k);
            }
            keys.insert(k, key.clone());
            assert(keys.deep_view() =~= before.insert(k as int, key@));
            i = i + 1;
        }
        Err(MacroError::UnknownArguments(keys))
    }
}

/// The text of the type that some token trees are, if they are one.
pub open spec fn type_text(trees: Seq<Tree>) -> Option<Seq<char>> {
    match parsed_type(trees) {
        Some(ty) => Some(trees_text(ty)),
        None => None,
    }
}

/// The type that starts at position `start`, and the position after it. It ends at the first comma
/// from position `k` on, or at the end, such that the tokens before that are a type.
pub open spec fn first_type(trees: Seq<Tree>, start: int, k: int) -> Option<(usize, Seq<char>)>
    decreases trees.len() - k,
{
    if k >= trees.len() {
        match type_text(trees.subrange(start, trees.len() as int)) {
            Some(text) => Some((trees.len() as usize, text)),
            None => None,
        }
    } else if is_punct(trees[k], ',') && start < k && type_text(trees.subrange(start, k)) is Some {
        Some((k as usize, type_text(trees.subrange(start, k))->0))
    } else {
        first_type(trees, start, k + 1)
    }
}

/// Whether a token is this punctuation character.
pub open spec fn is_punct(tree: Tree, c: char) -> bool {
    tree matches Tree::Punct { ch, .. } && ch == c
}

/// The type at position `i`. Types stand only after an equals sign.
pub open spec fn type_at(trees: Seq<Tree>, i: int) -> Option<(usize, Seq<char>)> {
    if 0 < i < trees.len() && is_punct(trees[i - 1], '=') {
        first_type(trees, i, i)
    } else {
        None
    }
}

/// The types at all positions of some tokens.
pub open spec fn types_spec(trees: Seq<Tree>) -> Seq<Option<(usize, Seq<char>)>> {
    Seq::new(trees.len(), |i: int| type_at(trees, i))
}

fn is_char(token: &Token, c: char) -> (r: bool)
    ensures
        r == is_punct(token.deep_view(), c),
{
    match token {
        Token::Punct { ch, .. } => *ch == c,
        _ => false,
    }
}

/// The text of the type that `n` tokens of a stream are, from position `start` on.
fn read_type(stream: &TokenStream, start: usize, n: usize) -> (r: Option<String>)
    requires
        start + n <= stream_trees(*stream).len(),
    ensures
        r.deep_view() == type_text(stream_trees(*stream).subrange(start as int, start + n)),
{
    match parse_type(&sub_stream(stream, start, n)) {
        Some(ty) => Some(print(&ty)),
        None => None,
    }
}

fn find_type(stream: &TokenStream, tokens: &Vec<Token>, start: usize) -> (r: Option<
    (usize, String),
>)
    requires
        tokens.deep_view() == stream_trees(*stream),
        start < tokens.len(),
    ensures
        r.deep_view() == first_type(stream_trees(*stream), start as int, start as int),
        r matches Some(t) ==> start < t.0 <= tokens.len(),
{
    let ghost all = stream_trees(*stream);
    let mut k: usize = start;
    while k < tokens.len()
        invariant
            start <= k <= tokens.len(),
            start < tokens.len(),
            all == stream_trees(*stream),
            tokens.deep_view() == all,
            first_type(all, start as int, k as int) == first_type(all, start as int, start as int),
        decreases tokens.len() - k,
    {
        assert(all[k as int] == tokens[k as int].deep_view());
        if is_char(&tokens[k], ',') && start < k {
            match read_type(stream, start, k - start) {
                Some(ty) => {
                    return Some((k, ty));
                },
                None => {},
            }
        }
        k = k + 1;
    }
    match read_type(stream, start, k - start) {
        Some(ty) => Some((k, ty)),
        None => None,
    }
}

/// Finds the types in the arguments of an attribute.
pub fn find_types(stream: &TokenStream) -> (r: Vec<Option<(usize, String)>>)
    ensures
        r.deep_view() == types_spec(stream_trees(*stream)),
        forall|k: int|
            0 <= k < r.len() ==> (#[trigger] r[k] matches Some(t) ==> k < t.0 <= stream_trees(
                *stream,
            ).len()),
{
    let ghost all = stream_trees(*stream);
    let tokens = tokens_of(stream);
    assert(tokens.deep_view().len() == tokens.len());
    let mut types: Vec<Option<(usize, String)>> = Vec::new();
    let mut i: usize = 0;
    while i < tokens.len()
        invariant
            i <= tokens.len(),
            all == stream_trees(*stream),
            all.len() == tokens.len(),
            tokens.deep_view() == all,
            types.len() == i,
            forall|k: int| 0 <= k < i ==> (#[trigger] types[k]).deep_view() == type_at(all, k),
            forall|k: int|
                0 <= k < i ==> (#[trigger] types[k] matches Some(t) ==> k < t.0 <= tokens.len()),
        decreases tokens.len() - i,
    {
        proof {
            if i > 0 {
                assert(all[i - 1] == tokens[i - 1].deep_view());
            }
        }
        if i > 0 && is_char(&tokens[i - 1], '=') {
            types.push(find_type(stream, &tokens, i));
        } else {
            types.push(None);
        }
        i = i + 1;
    }
    assert(types.deep_view() =~= types_spec(all));
    types
}

/// The arguments of a `wrap` attribute.
pub struct WrapArgs<S> {
    /// The name of the wrapper type.
    pub name: S,
    /// Its visibility, if it is given.
    pub vis: Option<S>,
    /// What else it derives, if that is given: the text between the parentheses.
    pub derives: Option<S>,
}

impl DeepView for WrapArgs<String> {
    type V = WrapArgs<Seq<char>>;

    open spec fn deep_view(&self) -> WrapArgs<Seq<char>> {
        WrapArgs {
            name: self.name@,
            vis: self.vis.deep_view(),
            derives: self.derives.deep_view(),
        }
    }
}

/// Whether a token is a group in parentheses.
pub open spec fn is_parenthesized(token: LexemeSpec) -> bool {
    token matches LexemeSpec::Group { delimiter, .. } && delimiter is Parenthesis
}

/// The visibility at the start of some tokens, and how many tokens that takes.
pub open spec fn visibility_spec(tokens: Seq<LexemeSpec>) -> (Option<Seq<char>>, int) {
    if tokens.len() > 0 && tokens[0] == LexemeSpec::Keyword("pub"@) {
        if tokens.len() > 1 && is_parenthesized(tokens[1]) {
            (Some("pub("@ + trees_text(tokens[1]->inner) + ")"@), 2)
        } else {
            (Some("pub"@), 1)
        }
    } else {
        (None, 0)
    }
}

/// The arguments of a `wrap` attribute: a name, which may have a visibility before it and a list
/// of derives after it.
pub open spec fn wrap_args_spec(tokens: Seq<LexemeSpec>) -> Result<
    WrapArgs<Seq<char>>,
    MacroErrorSpec,
> {
    let (vis, n) = visibility_spec(tokens);
    match ident_spec(tokens.skip(n)) {
        Err(e) => Err(e),
        Ok(name) => {
            let rest = tokens.skip(n + 1);
            if rest.len() == 0 {
                Ok(WrapArgs { name, vis, derives: None })
            } else if !starts_with(rest, ',') {
                Err(MacroErrorSpec::UnexpectedToken)
            } else if rest.len() == 3 && rest[1] == LexemeSpec::Ident("derive"@)
                && is_parenthesized(rest[2]) {
                Ok(WrapArgs { name, vis, derives: Some(trees_text(rest[2]->inner)) })
            } else {
                Err(MacroErrorSpec::UnexpectedToken)
            }
        },
    }
}

impl WrapArgs<String> {
    /// Reads the arguments of a `wrap` attribute.
    pub fn parse(tokens: &Vec<Lexeme>) -> (r: Result<Self, MacroError<String>>)
        ensures
            deep_result(r) == wrap_args_spec(tokens.deep_view()),
    {
        let ghost all = tokens.deep_view();
        let mut vis: Option<String> = None;
        let mut n: usize = 0;
        if tokens.len() > 0 {
            assert(all[0] == tokens[0].deep_view());
            match &tokens[0] {
                Lexeme::Keyword(word) => {
                    if is_text(word, "pub") {
                        vis = Some("pub".to_owned());
                        n = 1;
                        if tokens.len() > 1 {
                            assert(all[1] == tokens[1].deep_view());
                            match &tokens[1] {
                                Lexeme::Group { delimiter, inner } => {
                                    if *delimiter == Delimiter::Parenthesis {
                                        let text = "pub(".to_owned();
                                        let text = text.concat(print(inner).as_str());
                                        let text = text.concat(")");
                                        vis = Some(text);
                                        n = 2;
                                    }
                                },
                                _ => {},
                            }
                        }
                    }
                },
                _ => {},
            }
        }
        assert((vis.deep_view(), n as int) == visibility_spec(all));
        let name = parse_ident(tokens, n)?;
        let ghost rest = all.skip(n + 1);
        if n + 1 == tokens.len() {
            return Ok(WrapArgs { name, vis, derives: None });
        }
        if !peek_punct(tokens, n + 1, ',') {
            return Err(MacroError::UnexpectedToken);
        }
        if tokens.len() != n + 4 {
            return Err(MacroError::UnexpectedToken);
        }
        assert(rest[1] == tokens[n + 2].deep_view());
        assert(rest[2] == tokens[n + 3].deep_view());
        let is_derive = match &tokens[n + 2] {
            Lexeme::Ident(word) => is_text(word, "derive"),
            _ => false,
        };
        if !is_derive {
            return Err(MacroError::UnexpectedToken);
        }
        match &tokens[n + 3] {
            Lexeme::Group { delimiter, inner } => {
                if *delimiter == Delimiter::Parenthesis {
                    Ok(WrapArgs { name, vis, derives: Some(print(inner)) })
                } else {
                    Err(MacroError::UnexpectedToken)
                }
            },
            _ => Err(MacroError::UnexpectedToken),
        }
    }
}

/// A name that is written twice has the type that was written last, and occurs once.
pub proof fn law_last_type_wins(
    types: Seq<(Seq<char>, Seq<char>)>,
    key: Seq<char>,
    value: Seq<char>,
)
    ensures
        key_index(with_type(types, key, value), key) matches Some(i)
            && with_type(types, key, value)[i] == (key, value),
        keys_of(types).no_duplicates() ==> keys_of(with_type(types, key, value)).no_duplicates(),
{
    let next = with_type(types, key, value);
    lemma_key_index(types, key);
    lemma_key_index(next, key);
    match key_index(types, key) {
        Some(i) => {
            assert(next[i] == (key, value));
            lemma_key_index_update(types, key, value);
            assert(keys_of(next) =~= keys_of(types));
        },
        None => {
            assert(next.last() == (key, value));
            if keys_of(types).no_duplicates() {
                assert forall|i: int, j: int|
                    0 <= i < j < next.len() implies keys_of(next)[i] != keys_of(next)[j] by {
                    assert(keys_of(types)[i] == types[i].0);
                    if j < types.len() {
                        assert(keys_of(types)[j] == types[j].0);
                    }
                }
            }
        },
    }
}

proof fn lemma_key_index_update(
    types: Seq<(Seq<char>, Seq<char>)>,
    key: Seq<char>,
    value: Seq<char>,
)
    requires
        key_index(types, key) is Some,
    ensures
        key_index(types.update(key_index(types, key)->0, (key, value)), key) == key_index(types, key),
    decreases types.len(),
{
    lemma_key_index(types, key);
    let i = key_index(types, key)->0;
    let next = types.update(i, (key, value));
    if i < types.len() - 1 {
        lemma_key_index_update(types.drop_last(), key, value);
        assert(next.drop_last() =~= types.drop_last().update(i, (key, value)));
        assert(next.last() == types.last());
    }
}

/// Adding a type changes no other one, and a name is found exactly if it is there.
pub proof fn law_types_by_name(
    types: Seq<(Seq<char>, Seq<char>)>,
    key: Seq<char>,
    value: Seq<char>,
    other: Seq<char>,
)
    ensures
        key_index(types, key) is Some <==> exists|i: int|
            0 <= i < types.len() && (#[trigger] types[i]).0 == key,
        key_index(types, key) matches Some(i) ==> 0 <= i < types.len() && types[i].0 == key,
        other != key ==> {
            &&& key_index(with_type(types, key, value), other) is Some <==> key_index(types, other)
                is Some
            &&& key_index(types, other) matches Some(i) ==> with_type(types, key, value)[i]
                == types[i]
        },
        with_type(types, key, value).len() == types.len() + if key_index(types, key) is Some {
            0int
        } else {
            1int
        },
{
    lemma_key_index(types, key);
    lemma_key_index(types, other);
    let next = with_type(types, key, value);
    lemma_key_index(next, other);
    if other != key {
        if let Some(i) = key_index(types, other) {
            assert(next[i] == types[i]);
        }
        if let Some(i) = key_index(next, other) {
            if i < types.len() {
                assert(types[i].0 == other);
            }
        }
    }
}

/// An argument gives a name its type, and changes nothing else. Only where wrappers are named, the name
/// `wrap` is special: it names the wrapper type, or asks for one without naming it.
pub proof fn law_each_argument_sets_one_thing(
    tokens: Seq<LexemeSpec>,
    types: Seq<Option<(usize, Seq<char>)>>,
    wraps: bool,
    i: int,
    args: NamedTypeArgsSpec,
    key: Seq<char>,
)
    requires
        0 <= i < tokens.len(),
        tokens[i] == LexemeSpec::Ident(key),
    ensures
        ({
            let r = named_type_spec(tokens, types, wraps, i, args);
            let is_set = i + 1 < tokens.len() && tokens[i + 1] == LexemeSpec::Punct('=');
            let ty = if i + 2 < types.len() {
                types[i + 2]
            } else {
                None
            };
            if wraps && key == "wrap"@ {
                if !is_set {
                    r == Ok::<_, MacroErrorSpec>(
                        (NamedTypeArgsSpec { wrap: Some(None), types: args.types }, i + 1),
                    )
                } else if i + 2 < tokens.len() && tokens[i + 2] is Ident {
                    r == Ok::<_, MacroErrorSpec>(
                        (
                            NamedTypeArgsSpec {
                                wrap: Some(Some(tokens[i + 2]->Ident_0)),
                                types: args.types,
                            },
                            i + 3,
                        ),
                    )
                } else {
                    r is Err
                }
            } else {
                match ty {
                    Some((end, text)) => if is_set {
                        r == Ok::<_, MacroErrorSpec>(
                            (
                                NamedTypeArgsSpec {
                                    wrap: args.wrap,
                                    types: with_type(args.types, key, text),
                                },
                                end as int,
                            ),
                        )
                    } else {
                        r is Err
                    },
                    None => r is Err,
                }
            }
        }),
{
    assert(tokens.skip(i)[0] == tokens[i]);
    if i + 1 < tokens.len() {
        assert(tokens.skip(i + 1)[0] == tokens[i + 1]);
    }
    if i + 2 < tokens.len() {
        assert(tokens.skip(i + 2)[0] == tokens[i + 2]);
    }
}

/// Arguments stand one after another, with a comma between two of them and perhaps one at the end, and
/// each one is added to those before it.
pub proof fn law_arguments_add_up(
    tokens: Seq<LexemeSpec>,
    types: Seq<Option<(usize, Seq<char>)>>,
    wraps: bool,
    i: int,
    args: NamedTypeArgsSpec,
    next: NamedTypeArgsSpec,
    end: int,
)
    requires
        0 <= i < tokens.len(),
        named_type_spec(tokens, types, wraps, i, args) == Ok::<_, MacroErrorSpec>((next, end)),
        i < end <= tokens.len(),
    ensures
        end == tokens.len() ==> named_types_spec(tokens, types, wraps, i, args) == Ok::<
            _,
            MacroErrorSpec,
        >(next),
        end < tokens.len() && tokens[end] == LexemeSpec::Punct(',') ==> named_types_spec(
            tokens,
            types,
            wraps,
            i,
            args,
        ) == named_types_spec(tokens, types, wraps, end + 1, next),
        end < tokens.len() && tokens[end] != LexemeSpec::Punct(',') ==> named_types_spec(
            tokens,
            types,
            wraps,
            i,
            args,
        ) is Err,
        named_types_spec(tokens, types, wraps, tokens.len() as int, args) == Ok::<
            _,
            MacroErrorSpec,
        >(args),
        no_named_types().wrap is None,
        no_named_types().types.len() == 0,
{
    if end < tokens.len() {
        assert(tokens.skip(end)[0] == tokens[end]);
    }
}

/// A type stands after an equals sign and goes up to a comma or to the end. All tokens in between are the
/// type, and no shorter part that a comma ends is one. Where there is no type, no such part is one.
pub proof fn law_types_in_arguments(trees: Seq<Tree>, i: int)
    requires
        0 < i < trees.len() <= usize::MAX,
    ensures
        types_spec(trees).len() == trees.len(),
        types_spec(trees)[i] == type_at(trees, i),
        ({
            let after_equals = trees[i - 1] matches Tree::Punct { ch, .. } && ch == '=';
            match type_at(trees, i) {
                Some((end, text)) => {
                    &&& after_equals
                    &&& i < end <= trees.len()
                    &&& parsed_type(trees.subrange(i, end as int)) matches Some(ty) && text
                        == trees_text(ty)
                    &&& end < trees.len() ==> is_punct(trees[end as int], ',')
                    &&& forall|k: int|
                        i < k < end && #[trigger] is_punct(trees[k], ',') ==> parsed_type(
                            trees.subrange(i, k),
                        ) is None
                },
                None => after_equals ==> {
                    &&& parsed_type(trees.subrange(i, trees.len() as int)) is None
                    &&& forall|k: int|
                        i < k < trees.len() && #[trigger] is_punct(trees[k], ',') ==> parsed_type(
                            trees.subrange(i, k),
                        ) is None
                },
            }
        }),
        is_punct(trees[i], ',') <==> (trees[i] matches Tree::Punct { ch, .. } && ch == ','),
{
    if is_punct(trees[i - 1], '=') {
        lemma_first_type(trees, i, i);
    }
}

proof fn lemma_first_type(trees: Seq<Tree>, start: int, k: int)
    requires
        0 <= start <= k <= trees.len() <= usize::MAX,
        start < trees.len(),
        forall|j: int|
            start < j < k && #[trigger] is_punct(trees[j], ',') ==> parsed_type(
                trees.subrange(start, j),
            ) is None,
    ensures
        match first_type(trees, start, k) {
            Some((end, text)) => {
                &&& start < end <= trees.len()
                &&& parsed_type(trees.subrange(start, end as int)) matches Some(ty) && text
                    == trees_text(ty)
                &&& end < trees.len() ==> is_punct(trees[end as int], ',')
                &&& forall|j: int|
                    start < j < end && #[trigger] is_punct(trees[j], ',') ==> parsed_type(
                        trees.subrange(start, j),
                    ) is None
            },
            None => {
                &&& parsed_type(trees.subrange(start, trees.len() as int)) is None
                &&& forall|j: int|
                    start < j < trees.len() && #[trigger] is_punct(trees[j], ',') ==> parsed_type(
                        trees.subrange(start, j),
                    ) is None
            },
        },
    decreases trees.len() - k,
{
    if k < trees.len() {
        if !(is_punct(trees[k], ',') && start < k && type_text(trees.subrange(start, k)) is Some) {
            lemma_first_type(trees, start, k + 1);
        }
    }
}

/// The forms of a `wrap` attribute: a name, with a visibility before it or not, and with a list of
/// derives after it or not. Each part is taken over as it is.
pub proof fn law_wrap_forms(name: Seq<char>, inner: Seq<Tree>, derives: Seq<Tree>)
    ensures
        ({
            let public = LexemeSpec::Keyword("pub"@);
            let scope = LexemeSpec::Group { delimiter: Delimiter::Parenthesis, inner };
            let plain = seq![LexemeSpec::Ident(name)];
            let listed = seq![
                LexemeSpec::Ident(name),
                LexemeSpec::Punct(','),
                LexemeSpec::Ident("derive"@),
                LexemeSpec::Group { delimiter: Delimiter::Parenthesis, inner: derives },
            ];
            let scoped = seq!['p', 'u', 'b', '('] + trees_text(inner) + seq![')'];
            let wrapped = |vis: Option<Seq<char>>, derives: Option<Seq<char>>|
                Ok::<_, MacroErrorSpec>(WrapArgs { name, vis, derives });
            &&& wrap_args_spec(plain) == wrapped(None, None)
            &&& wrap_args_spec(seq![public] + plain) == wrapped(Some(seq!['p', 'u', 'b']), None)
            &&& wrap_args_spec(seq![public, scope] + plain) == wrapped(Some(scoped), None)
            &&& wrap_args_spec(listed) == wrapped(None, Some(trees_text(derives)))
            &&& wrap_args_spec(seq![public] + listed) == wrapped(
                Some(seq!['p', 'u', 'b']),
                Some(trees_text(derives)),
            )
            &&& wrap_args_spec(seq![public, scope] + listed) == wrapped(
                Some(scoped),
                Some(trees_text(derives)),
            )
        }),
{
    reveal_strlit("pub");
    reveal_strlit("pub(");
    reveal_strlit(")");
    let public = LexemeSpec::Keyword("pub"@);
    let scope = LexemeSpec::Group { delimiter: Delimiter::Parenthesis, inner };
    let plain = seq![LexemeSpec::Ident(name)];
    let listed = seq![
        LexemeSpec::Ident(name),
        LexemeSpec::Punct(','),
        LexemeSpec::Ident("derive"@),
        LexemeSpec::Group { delimiter: Delimiter::Parenthesis, inner: derives },
    ];
    assert("pub"@ =~= seq!['p', 'u', 'b']);
    assert("pub("@ + trees_text(inner) + ")"@ =~= seq!['p', 'u', 'b', '('] + trees_text(inner) + seq![
        ')',
    ]);
    lemma_wrap_form(plain, 0, name, None);
    lemma_wrap_form(seq![public] + plain, 1, name, None);
    lemma_wrap_form(seq![public, scope] + plain, 2, name, None);
    lemma_wrap_form(listed, 0, name, Some(derives));
    lemma_wrap_form(seq![public] + listed, 1, name, Some(derives));
    lemma_wrap_form(seq![public, scope] + listed, 2, name, Some(derives));
    assert((seq![public] + plain)[0] == public && (seq![public] + plain)[1] == plain[0]);
    assert((seq![public] + listed)[0] == public && (seq![public] + listed)[1] == listed[0]);
    assert((seq![public, scope] + plain)[0] == public && (seq![public, scope] + plain)[1] == scope);
    assert((seq![public, scope] + listed)[0] == public && (seq![public, scope] + listed)[1] == scope);
}

/// What follows the visibility in a `wrap` attribute.
proof fn lemma_wrap_form(
    tokens: Seq<LexemeSpec>,
    n: int,
    name: Seq<char>,
    derives: Option<Seq<Tree>>,
)
    requires
        0 <= n < tokens.len(),
        visibility_spec(tokens).1 == n,
        tokens[n] == LexemeSpec::Ident(name),
        match derives {
            None => tokens.len() == n + 1,
            Some(inner) => {
                &&& tokens.len() == n + 4
                &&& tokens[n + 1] == LexemeSpec::Punct(',')
                &&& tokens[n + 2] == LexemeSpec::Ident("derive"@)
                &&& tokens[n + 3] == (LexemeSpec::Group { delimiter: Delimiter::Parenthesis, inner })
            },
        },
    ensures
        wrap_args_spec(tokens) == Ok::<_, MacroErrorSpec>(
            WrapArgs {
                name,
                vis: visibility_spec(tokens).0,
                derives: match derives {
                    None => None,
                    Some(inner) => Some(trees_text(inner)),
                },
            },
        ),
{
    assert(tokens.skip(n)[0] == tokens[n]);
    let rest = tokens.skip(n + 1);
    if derives is Some {
        assert(rest[0] == tokens[n + 1]);
        assert(rest[1] == tokens[n + 2]);
        assert(rest[2] == tokens[n + 3]);
    }
}

/// What is accepted in a `wrap` attribute has one of its forms: so many tokens as that form has, and the
/// name where it belongs.
pub proof fn law_wrap_is_one_of_its_forms(tokens: Seq<LexemeSpec>)
    ensures
        wrap_args_spec(tokens) matches Ok(args) ==> {
            let n = if args.vis is None {
                0int
            } else if tokens.len() > 1 && tokens[1] is Group {
                2int
            } else {
                1int
            };
            &&& args.vis is Some <==> tokens[0] == LexemeSpec::Keyword("pub"@)
            &&& tokens.len() == n + if args.derives is Some {
                4int
            } else {
                1int
            }
            &&& tokens[n] == LexemeSpec::Ident(args.name)
        },
{
    if let Ok(args) = wrap_args_spec(tokens) {
        let n = visibility_spec(tokens).1;
        assert(tokens.skip(n)[0] == tokens[n]);
        assert(tokens.skip(n + 1).len() == tokens.len() - n - 1);
    }
}

/// Every name occurs once among the arguments that were read, however often it was written.
pub proof fn law_read_names_differ(
    tokens: Seq<LexemeSpec>,
    types: Seq<Option<(usize, Seq<char>)>>,
    wraps: bool,
)
    ensures
        named_types_spec(tokens, types, wraps, 0, no_named_types()) matches Ok(args) ==> keys_of(
            args.types,
        ).no_duplicates(),
{
    lemma_read_names_differ(tokens, types, wraps, 0, no_named_types());
}

proof fn lemma_read_names_differ(
    tokens: Seq<LexemeSpec>,
    types: Seq<Option<(usize, Seq<char>)>>,
    wraps: bool,
    i: int,
    args: NamedTypeArgsSpec,
)
    requires
        keys_of(args.types).no_duplicates(),
    ensures
        named_types_spec(tokens, types, wraps, i, args) matches Ok(read) ==> keys_of(
            read.types,
        ).no_duplicates(),
    decreases tokens.len() - i,
{
    if 0 <= i < tokens.len() {
        if let Ok((next, end)) = named_type_spec(tokens, types, wraps, i, args) {
            if ident_spec(tokens.skip(i)) is Ok && 0 <= i + 2 < types.len() && types[i + 2] is Some {
                law_last_type_wins(
                    args.types,
                    ident_spec(tokens.skip(i))->Ok_0,
                    (types[i + 2]->0).1,
                );
            }
            if end < tokens.len() && starts_with(tokens.skip(end), ',') && end > i {
                lemma_read_names_differ(tokens, types, wraps, end + 1, next);
            }
        }
    }
}

/// The order of texts: the first difference decides, and the start of a text comes before it.
pub proof fn law_text_order(a: Seq<char>, b: Seq<char>)
    ensures
        comes_before(a, b, 0) <==> exists|k: int|
            {
                &&& 0 <= k <= a.len() && k < b.len()
                &&& #[trigger] a.take(k) == b.take(k)
                &&& k == a.len() || a[k] < b[k]
            },
{
    if comes_before(a, b, 0) {
        assert(a.take(0) =~= b.take(0));
        lemma_text_order(a, b, 0);
    }
    if exists|k: int|
        {
            &&& 0 <= k <= a.len() && k < b.len()
            &&& #[trigger] a.take(k) == b.take(k)
            &&& k == a.len() || a[k] < b[k]
        } {
        let k = choose|k: int|
            {
                &&& 0 <= k <= a.len() && k < b.len()
                &&& #[trigger] a.take(k) == b.take(k)
                &&& k == a.len() || a[k] < b[k]
            };
        lemma_decided_at(a, b, 0, k);
    }
}

proof fn lemma_text_order(a: Seq<char>, b: Seq<char>, i: int)
    requires
        0 <= i <= a.len(),
        i <= b.len(),
        a.take(i) == b.take(i),
        comes_before(a, b, i),
    ensures
        exists|k: int|
            {
                &&& 0 <= k <= a.len() && k < b.len()
                &&& #[trigger] a.take(k) == b.take(k)
                &&& k == a.len() || a[k] < b[k]
            },
    decreases b.len() - i,
{
    if i < a.len() && a[i] == b[i] {
        assert(a.take(i + 1) =~= a.take(i).push(a[i]));
        assert(b.take(i + 1) =~= b.take(i).push(b[i]));
        lemma_text_order(a, b, i + 1);
    }
}

proof fn lemma_decided_at(a: Seq<char>, b: Seq<char>, i: int, k: int)
    requires
        0 <= i <= k <= a.len(),
        k < b.len(),
        a.take(k) == b.take(k),
        k == a.len() || a[k] < b[k],
    ensures
        comes_before(a, b, i),
    decreases k - i,
{
    if i < k {
        assert(a.take(k)[i] == a[i] && b.take(k)[i] == b[i]);
        lemma_decided_at(a, b, i + 1, k);
        assert(comes_before(a, b, i));
    } else if k < a.len() {
        assert(a[i] != b[i]);
        assert(comes_before(a, b, i));
    }
}

/// The names in an error are all names that mean nothing, each once, in the order of texts.
pub proof fn law_names_are_ordered(types: Seq<(Seq<char>, Seq<char>)>, n: int)
    requires
        0 <= n <= types.len(),
    ensures
        ordered_keys(types, n).to_multiset() == keys_of(types).take(n).to_multiset(),
        forall|i: int, j: int|
            0 <= i < j < ordered_keys(types, n).len() ==> !comes_before(
                #[trigger] ordered_keys(types, n)[j],
                #[trigger] ordered_keys(types, n)[i],
                0,
            ),
    decreases n,
{
    broadcast use vstd::seq_lib::group_to_multiset_ensures;

    if n > 0 {
        law_names_are_ordered(types, n - 1);
        let before = ordered_keys(types, n - 1);
        let key = types[n - 1].0;
        lemma_place_of(before, key, 0);
        let p = place_of(before, key, 0);
        let all = before.insert(p, key);
        vstd::seq_lib::to_multiset_insert(before, p, key);
        assert(keys_of(types).take(n) =~= keys_of(types).take(n - 1).push(key));
        assert forall|i: int, j: int| 0 <= i < j < all.len() implies !comes_before(
            #[trigger] all[j],
            #[trigger] all[i],
            0,
        ) by {
            if i == p {
                assert(all[j] == before[j - 1]);
                lemma_order(key, before[p], key, 0);
                if j - 1 > p {
                    assert(!comes_before(before[j - 1], before[p], 0));
                    lemma_order(before[j - 1], key, before[p], 0);
                }
            } else if j == p {
                assert(all[i] == before[i]);
            } else {
                let a = if i < p {
                    i
                } else {
                    i - 1
                };
                let b = if j < p {
                    j
                } else {
                    j - 1
                };
                assert(all[i] == before[a] && all[j] == before[b]);
            }
        }
    } else {
        assert(keys_of(types).take(0) =~= Seq::empty());
    }
}

proof fn lemma_place_of(names: Seq<Seq<char>>, key: Seq<char>, i: int)
    requires
        0 <= i <= names.len(),
    ensures
        i <= place_of(names, key, i) <= names.len(),
        forall|k: int| i <= k < place_of(names, key, i) ==> !comes_before(key, #[trigger] names[k], 0),
        place_of(names, key, i) < names.len() ==> comes_before(key, names[place_of(names, key, i)], 0),
    decreases names.len() - i,
{
    if i < names.len() && !comes_before(key, names[i], 0) {
        lemma_place_of(names, key, i + 1);
    }
}

/// The order of texts is transitive, and no two texts come before each other.
proof fn lemma_order(a: Seq<char>, b: Seq<char>, c: Seq<char>, i: int)
    requires
        0 <= i,
    ensures
        comes_before(a, b, i) && comes_before(b, c, i) ==> comes_before(a, c, i),
        !(comes_before(a, b, i) && comes_before(b, a, i)),
    decreases a.len() + b.len() + c.len() - i,
{
    if i < a.len() && i < b.len() {
        lemma_order(a, b, c, i + 1);
    }
}

} // verus!
