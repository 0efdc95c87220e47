//! The arguments of the macro itself.
use crate::derive::lex::{deep_result, is_text, Lexeme, LexemeSpec, MacroError, MacroErrorSpec};
use vstd::prelude::*;

verus! {

/// The arguments of the macro.
#[derive(Debug, Clone, PartialEq, Eq)]
pub struct MacroArgs<S> {
    /// The name of the message enum, if one is generated.
    pub message_enum_name: Option<S>,
    /// The suffix of the type aliases, if there are any.
    pub alias_suffix: Option<S>,
    /// The feature that the code for remote services depends on.
    pub rpc_feature: Option<S>,
    /// No code for remote services.
    pub no_rpc: bool,
    /// No code for tracing spans.
    pub no_spans: bool,
    /// Span contexts go over the wire.
    pub span_propagation: bool,
}

impl DeepView for MacroArgs<String> {
    type V = MacroArgs<Seq<char>>;

    open spec fn deep_view(&self) -> MacroArgs<Seq<char>> {
        MacroArgs {
            message_enum_name: self.message_enum_name.deep_view(),
            alias_suffix: self.alias_suffix.deep_view(),
            rpc_feature: self.rpc_feature.deep_view(),
            no_rpc: self.no_rpc,
            no_spans: self.no_spans,
            span_propagation: self.span_propagation,
        }
    }
}

/// No arguments.
pub open spec fn no_macro_args() -> MacroArgs<Seq<char>> {
    MacroArgs {
        message_enum_name: None,
        alias_suffix: None,
        rpc_feature: None,
        no_rpc: false,
        no_spans: false,
        span_propagation: false,
    }
}

/// The name at the start of some tokens.
pub open spec fn ident_spec(tokens: Seq<LexemeSpec>) -> Result<Seq<char>, MacroErrorSpec> {
    if tokens.len() > 0 && tokens[0] is Ident {
        Ok(tokens[0]->Ident_0)
    } else {
        Err(MacroErrorSpec::ExpectedIdent)
    }
}

/// The string at the start of some tokens.
pub open spec fn string_spec(tokens: Seq<LexemeSpec>) -> Result<Seq<char>, MacroErrorSpec> {
    if tokens.len() > 0 && tokens[0] is Str {
        Ok(tokens[0]->Str_0)
    } else {
        Err(MacroErrorSpec::ExpectedString)
    }
}

/// Whether some tokens start with a punctuation character.
pub open spec fn starts_with(tokens: Seq<LexemeSpec>, ch: char) -> bool {
    tokens.len() > 0 && tokens[0] == LexemeSpec::Punct(ch)
}

/// The arguments `args` with the parameter at the start of `tokens` added to them, and how many
/// tokens that takes.
pub open spec fn parameter_spec(
    tokens: Seq<LexemeSpec>,
    args: MacroArgs<Seq<char>>,
) -> Result<(MacroArgs<Seq<char>>, nat), MacroErrorSpec> {
    match ident_spec(tokens) {
        Err(e) => Err(e),
        Ok(name) => {
            let is_set = starts_with(tokens.skip(1), '=');
            let value = tokens.skip(2);
            if name == "message"@ {
                if !is_set {
                    Err(MacroErrorSpec::ExpectedPunct('='))
                } else {
                    match ident_spec(value) {
                        Err(e) => Err(e),
                        Ok(v) => Ok((MacroArgs { message_enum_name: Some(v), ..args }, 3)),
                    }
                }
            } else if name == "alias"@ {
                if !is_set {
                    Err(MacroErrorSpec::ExpectedPunct('='))
                } else {
                    match string_spec(value) {
                        Err(e) => Err(e),
                        Ok(v) => Ok((MacroArgs { alias_suffix: Some(v), ..args }, 3)),
                    }
                }
            } else if name == "rpc_feature"@ {
                if !is_set {
                    Err(MacroErrorSpec::ExpectedPunct('='))
                } else if args.no_rpc {
                    Err(MacroErrorSpec::RpcFeatureWithoutRpc)
                } else {
                    match string_spec(value) {
                        Err(e) => Err(e),
                        Ok(v) => Ok((MacroArgs { rpc_feature: Some(v), ..args }, 3)),
                    }
                }
            } else if name == "no_rpc"@ {
                if args.rpc_feature is Some {
                    Err(MacroErrorSpec::RpcFeatureWithoutRpc)
                } else {
                    Ok((MacroArgs { no_rpc: true, ..args }, 1))
                }
            } else if name == "no_spans"@ {
                Ok((MacroArgs { no_spans: true, ..args }, 1))
            } else if name == "span_propagation"@ {
                Ok((MacroArgs { span_propagation: true, ..args }, 1))
            } else {
                Err(MacroErrorSpec::UnknownParameter(name))
            }
        },
    }
}

/// The arguments `args` with the parameters in `tokens` added to them: one or more, with commas
/// between them.
pub open spec fn parameters_spec(
    tokens: Seq<LexemeSpec>,
    args: MacroArgs<Seq<char>>,
) -> Result<MacroArgs<Seq<char>>, MacroErrorSpec>
    decreases tokens.len(),
{
    match parameter_spec(tokens, args) {
        Err(e) => Err(e),
        Ok((next, n)) => {
            let rest = tokens.skip(n as int);
            if rest.len() == 0 {
                Ok(next)
            } else if !starts_with(rest, ',') || rest.len() >= tokens.len() {
                Err(MacroErrorSpec::UnexpectedToken)
            } else {
                parameters_spec(rest.skip(1), next)
            }
        },
    }
}

/// The arguments that some tokens stand for. There may be none at all.
pub open spec fn macro_args_spec(tokens: Seq<LexemeSpec>) -> Result<
    MacroArgs<Seq<char>>,
    MacroErrorSpec,
> {
    if tokens.len() == 0 {
        Ok(no_macro_args())
    } else {
        parameters_spec(tokens, no_macro_args())
    }
}

/// The name at position `i`.
pub(crate) fn parse_ident(tokens: &Vec<Lexeme>, i: usize) -> (r: Result<
    String,
    MacroError<String>,
>)
    requires
        i <= tokens.len(),
    ensures
        deep_result(r) == ident_spec(tokens.deep_view().skip(i as int)),
{
    if i < tokens.len() {
        match &tokens[i] {
            Lexeme::Ident(s) => Ok(s.clone()),
            _ => Err(MacroError::ExpectedIdent),
        }
    } else {
        Err(MacroError::ExpectedIdent)
    }
}

/// The string at position `i`.
fn parse_string(tokens: &Vec<Lexeme>, i: usize) -> (r: Result<String, MacroError<String>>)
    requires
        i <= tokens.len(),
    ensures
        deep_result(r) == string_spec(tokens.deep_view().skip(i as int)),
{
    if i < tokens.len() {
        match &tokens[i] {
            Lexeme::Str(s) => Ok(s.clone()),
            _ => Err(MacroError::ExpectedString),
        }
    } else {
        Err(MacroError::ExpectedString)
    }
}

/// Whether the character `ch` is at position `i`.
pub(crate) fn peek_punct(tokens: &Vec<Lexeme>, i: usize, ch: char) -> (r: bool)
    requires
        i <= tokens.len(),
    ensures
        r == starts_with(tokens.deep_view().skip(i as int), ch),
        r ==> i < tokens.len(),
{
    if i < tokens.len() {
        match &tokens[i] {
            Lexeme::Punct(c) => *c == ch,
            _ => false,
        }
    } else {
        false
    }
}

/// Adds the parameter at position `i` to `args`, and returns the position after it.
fn parse_parameter(
    tokens: &Vec<Lexeme>,
    i: usize,
    args: &mut MacroArgs<String>,
) -> (r: Result<usize, MacroError<String>>)
    requires
        i <= tokens.len(),
    ensures
        match r {
            Ok(end) => {
                &&& i < end <= tokens.len()
                &&& parameter_spec(tokens.deep_view().skip(i as int), old(args).deep_view()) == Ok::<
                    (MacroArgs<Seq<char>>, nat),
                    MacroErrorSpec,
                >((final(args).deep_view(), (end - i) as nat))
            },
            Err(e) => parameter_spec(tokens.deep_view().skip(i as int), old(args).deep_view())
                == Err::<(MacroArgs<Seq<char>>, nat), _>(e.deep_view()),
        },
{
    let ghost here = tokens.deep_view().skip(i as int);
    let name = parse_ident(tokens, i)?;
    let is_set = peek_punct(tokens, i + 1, '=');
    proof {
        assert(here.skip(1) =~= tokens.deep_view().skip(i + 1));
        if is_set {
            assert(here.skip(2) =~= tokens.deep_view().skip(i + 2));
        }
    }
    if is_text(&name, "message") {
        if !is_set {
            return Err(MacroError::ExpectedPunct('='));
        }
        let value = parse_ident(tokens, i + 2)?;
        args.message_enum_name = Some(value);
        Ok(i + 3)
    } else if is_text(&name, "alias") {
        if !is_set {
            return Err(MacroError::ExpectedPunct('='));
        }
        let value = parse_string(tokens, i + 2)?;
        args.alias_suffix = Some(value);
        Ok(i + 3)
    } else if is_text(&name, "rpc_feature") {
        if !is_set {
            return Err(MacroError::ExpectedPunct('='));
        }
        if args.no_rpc {
            return Err(MacroError::RpcFeatureWithoutRpc);
        }
        let value = parse_string(tokens, i + 2)?;
        args.rpc_feature = Some(value);
        Ok(i + 3)
    } else if is_text(&name, "no_rpc") {
        if args.rpc_feature.is_some() {
            return Err(MacroError::RpcFeatureWithoutRpc);
        }
        args.no_rpc = true;
        Ok(i + 1)
    } else if is_text(&name, "no_spans") {
        args.no_spans = true;
        Ok(i + 1)
    } else if is_text(&name, "span_propagation") {
        args.span_propagation = true;
        Ok(i + 1)
    } else {
        Err(MacroError::UnknownParameter(name))
    }
}

impl MacroArgs<String> {
    /// Reads the arguments of the macro.
    pub fn parse(tokens: &Vec<Lexeme>) -> (r: Result<Self, MacroError<String>>)
        ensures
            deep_result(r) == macro_args_spec(tokens.deep_view()),
    {
        let mut args: MacroArgs<String> = MacroArgs {
            message_enum_name: None,
            alias_suffix: None,
            rpc_feature: None,
            no_rpc: false,
            no_spans: false,
            span_propagation: false,
        };
        if tokens.len() == 0 {
            return Ok(args);
        }
        let ghost all = tokens.deep_view();
        let mut i: usize = 0;
        assert(all.skip(0) =~= all);
        loop
            invariant
                i <= tokens.len(),
                all == tokens.deep_view(),
                all.len() > 0,
                parameters_spec(all.skip(i as int), args.deep_view()) == macro_args_spec(all),
            decreases tokens.len() - i,
        {
            let ghost before = args.deep_view();
            let end = parse_parameter(tokens, i, &mut args)?;
            proof {
                assert(all.skip(i as int).skip(end - i) =~= all.skip(end as int));
            }
            if end == tokens.len() {
                return Ok(args);
            }
            if !peek_punct(tokens, end, ',') {
                return Err(MacroError::UnexpectedToken);
            }
            assert(all.skip(end as int).skip(1) =~= all.skip(end + 1));
            i = end + 1;
        }
    }
}

/// No arguments of the macro set both `no_rpc` and `rpc_feature`, in whatever order they come.
pub proof fn law_no_rpc_excludes_rpc_feature(tokens: Seq<LexemeSpec>)
    ensures
        macro_args_spec(tokens) matches Ok(args) ==> !(args.no_rpc && args.rpc_feature is Some),
{
    if tokens.len() > 0 {
        lemma_no_rpc_excludes_rpc_feature(tokens, no_macro_args());
    }
}

proof fn lemma_no_rpc_excludes_rpc_feature(
    tokens: Seq<LexemeSpec>,
    args: MacroArgs<Seq<char>>,
)
    requires
        !(args.no_rpc && args.rpc_feature is Some),
    ensures
        parameters_spec(tokens, args) matches Ok(args) ==> !(args.no_rpc && args.rpc_feature is Some),
    decreases tokens.len(),
{
    if let Ok((next, n)) = parameter_spec(tokens, args) {
        let rest = tokens.skip(n as int);
        if rest.len() != 0 && starts_with(rest, ',') && rest.len() < tokens.len() {
            lemma_no_rpc_excludes_rpc_feature(rest.skip(1), next);
        }
    }
}

/// Each parameter sets what it is for, to the value that it is given, and nothing else. The parameters
/// with a value take three tokens, and the others one.
pub proof fn law_each_parameter_sets_one_thing(
    args: MacroArgs<Seq<char>>,
    value: Seq<char>,
    rest: Seq<LexemeSpec>,
)
    ensures
        ({
            let set = |name: Seq<char>, value: LexemeSpec|
                parameter_spec(
                    seq![LexemeSpec::Ident(name), LexemeSpec::Punct('='), value] + rest,
                    args,
                );
            let flag = |name: Seq<char>|
                parameter_spec(seq![LexemeSpec::Ident(name)] + rest, args);
            &&& set("message"@, LexemeSpec::Ident(value)) == Ok::<_, MacroErrorSpec>(
                (MacroArgs { message_enum_name: Some(value), ..args }, 3nat),
            )
            &&& set("alias"@, LexemeSpec::Str(value)) == Ok::<_, MacroErrorSpec>(
                (MacroArgs { alias_suffix: Some(value), ..args }, 3nat),
            )
            &&& set("rpc_feature"@, LexemeSpec::Str(value)) == if args.no_rpc {
                Err(MacroErrorSpec::RpcFeatureWithoutRpc)
            } else {
                Ok((MacroArgs { rpc_feature: Some(value), ..args }, 3nat))
            }
            &&& flag("no_rpc"@) == if args.rpc_feature is Some {
                Err(MacroErrorSpec::RpcFeatureWithoutRpc)
            } else {
                Ok((MacroArgs { no_rpc: true, ..args }, 1nat))
            }
            &&& flag("no_spans"@) == Ok::<_, MacroErrorSpec>(
                (MacroArgs { no_spans: true, ..args }, 1nat),
            )
            &&& flag("span_propagation"@) == Ok::<_, MacroErrorSpec>(
                (MacroArgs { span_propagation: true, ..args }, 1nat),
            )
        }),
{
    reveal_strlit("message");
    reveal_strlit("alias");
    reveal_strlit("rpc_feature");
    reveal_strlit("no_rpc");
    reveal_strlit("no_spans");
    reveal_strlit("span_propagation");
    assert("message"@.len() == 7 && "alias"@.len() == 5 && "rpc_feature"@.len() == 11);
    assert("no_rpc"@.len() == 6 && "no_spans"@.len() == 8 && "span_propagation"@.len() == 16);
    lemma_setting("message"@, LexemeSpec::Ident(value), rest);
    lemma_setting("alias"@, LexemeSpec::Str(value), rest);
    lemma_setting("rpc_feature"@, LexemeSpec::Str(value), rest);
    assert((seq![LexemeSpec::Ident("no_rpc"@)] + rest)[0] == LexemeSpec::Ident("no_rpc"@));
    assert((seq![LexemeSpec::Ident("no_spans"@)] + rest)[0] == LexemeSpec::Ident("no_spans"@));
    assert((seq![LexemeSpec::Ident("span_propagation"@)] + rest)[0] == LexemeSpec::Ident(
        "span_propagation"@,
    ));
}

proof fn lemma_setting(name: Seq<char>, value: LexemeSpec, rest: Seq<LexemeSpec>)
    ensures
        ({
            let tokens = seq![LexemeSpec::Ident(name), LexemeSpec::Punct('='), value] + rest;
            &&& ident_spec(tokens) == Ok::<_, MacroErrorSpec>(name)
            &&& starts_with(tokens.skip(1), '=')
            &&& tokens.skip(2).len() > 0
            &&& tokens.skip(2)[0] == value
        }),
{
    let tokens = seq![LexemeSpec::Ident(name), LexemeSpec::Punct('='), value] + rest;
    assert(tokens[0] == LexemeSpec::Ident(name));
    assert(tokens.skip(1)[0] == LexemeSpec::Punct('='));
}

/// A name that is no parameter is refused by that name, and so is everything that does not start with a
/// name.
pub proof fn law_unknown_parameters(args: MacroArgs<Seq<char>>, tokens: Seq<LexemeSpec>)
    ensures
        tokens.len() == 0 || !(tokens[0] is Ident) ==> parameter_spec(tokens, args) is Err,
        (tokens.len() > 0 && tokens[0] matches LexemeSpec::Ident(name)) ==> {
            let name = tokens[0]->Ident_0;
            (name != "message"@ && name != "alias"@ && name != "rpc_feature"@ && name != "no_rpc"@
                && name != "no_spans"@ && name != "span_propagation"@) ==> parameter_spec(tokens, args)
                == Err::<(MacroArgs<Seq<char>>, nat), _>(MacroErrorSpec::UnknownParameter(name))
        },
{
}

/// Parameters stand one after another, with a comma between two of them, and each one is added to those
/// before it. Without parameters nothing is set.
pub proof fn law_parameters_add_up(
    args: MacroArgs<Seq<char>>,
    next: MacroArgs<Seq<char>>,
    tokens: Seq<LexemeSpec>,
    n: nat,
)
    requires
        parameter_spec(tokens, args) == Ok::<_, MacroErrorSpec>((next, n)),
        0 < n <= tokens.len(),
    ensures
        n == tokens.len() ==> parameters_spec(tokens, args) == Ok::<_, MacroErrorSpec>(next),
        n < tokens.len() && tokens[n as int] == LexemeSpec::Punct(',') ==> parameters_spec(tokens, args)
            == parameters_spec(tokens.skip(n as int + 1), next),
        n < tokens.len() && tokens[n as int] != LexemeSpec::Punct(',') ==> parameters_spec(
            tokens,
            args,
        ) is Err,
        macro_args_spec(Seq::empty()) == Ok::<_, MacroErrorSpec>(
            MacroArgs::<Seq<char>> {
                message_enum_name: None,
                alias_suffix: None,
                rpc_feature: None,
                no_rpc: false,
                no_spans: false,
                span_propagation: false,
            },
        ),
        macro_args_spec(tokens) == parameters_spec(
            tokens,
            MacroArgs {
                message_enum_name: None,
                alias_suffix: None,
                rpc_feature: None,
                no_rpc: false,
                no_spans: false,
                span_propagation: false,
            },
        ),
{
    if n < tokens.len() {
        assert(tokens.skip(n as int).skip(1) =~= tokens.skip(n as int + 1));
        assert(tokens.skip(n as int)[0] == tokens[n as int]);
    }
}

/// A parameter that is accepted has all of its tokens: with a value there is an equals sign before it,
/// and the value is a name for the message enum and a string for the others.
pub proof fn law_parameters_are_complete(args: MacroArgs<Seq<char>>, tokens: Seq<LexemeSpec>)
    ensures
        parameter_spec(tokens, args) matches Ok((next, n)) ==> {
            &&& 0 < n <= tokens.len()
            &&& tokens[0] is Ident
            &&& n == 1 || (n == 3 && tokens[1] == LexemeSpec::Punct('='))
            &&& n == 3 ==> (tokens[2] is Ident || tokens[2] is Str)
            &&& tokens[0] == LexemeSpec::Ident("message"@) ==> n == 3 && tokens[2] is Ident
            &&& tokens[0] == LexemeSpec::Ident("alias"@) ==> n == 3 && tokens[2] is Str
            &&& tokens[0] == LexemeSpec::Ident("rpc_feature"@) ==> n == 3 && tokens[2] is Str
        },
{
    reveal_strlit("message");
    reveal_strlit("alias");
    reveal_strlit("rpc_feature");
    assert("message"@.len() == 7 && "alias"@.len() == 5 && "rpc_feature"@.len() == 11);
    if parameter_spec(tokens, args) is Ok {
        if tokens.len() > 1 {
            assert(tokens.skip(1)[0] == tokens[1]);
        }
        if tokens.len() > 2 {
            assert(tokens.skip(2)[0] == tokens[2]);
        }
    }
}

} // verus!
