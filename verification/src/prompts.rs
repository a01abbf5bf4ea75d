//! Published prompts: checking the arguments of a prompt request, expanding
//! `{{@name}}` placeholders, and the `prompts/list` and `prompts/get`
//! operations.
//!
//! Which texts are valid prompt and argument names is decided by the page
//! front-matter rules; the functions here take those rules as predicates on
//! text, and their contracts hold for whatever predicate the caller's
//! function decides.

use vstd::prelude::*;
use crate::access::{AuthContext, McpOperation};
use crate::errors::{ErrorView, McpError, McpErrorCode, err_view};
use crate::model::{ListPromptsServiceResult, GetPromptServiceResult, PromptListArgument, PromptListItem};
use crate::resources::decides;
use crate::service::{McpService, spec_scope_check};
use crate::sorting::{Keyed, pick, sorted_by_key, stable_sort_order};
use crate::store::{OpStep, Progress, RequestView, StoreReply, StoreRequest, step_is, unexpected_reply, unexpected_reply_error};
use crate::text::{
    chars_of, find_from_exec, first_match, lemma_find_from, lemma_find_from_skip,
    lex_lt, matches_at, starts_with, starts_with_exec, str_eq, str_lt,
};

verus! {

/// A declared argument of a prompt.
#[derive(Clone, Debug)]
pub struct PromptArgumentDef {
    /// Argument name.
    pub name: String,
    /// Argument description.
    pub description: String,
    /// Whether the argument must be given, when declared.
    pub required: Option<bool>,
}

/// A prompt as its page declares it.
#[derive(Clone, Debug)]
pub struct PromptDefinition {
    /// Prompt name.
    pub name: String,
    /// Prompt description.
    pub description: String,
    /// A system text put before the body, when declared.
    pub system: Option<String>,
    /// Declared arguments, in order.
    pub arguments: Vec<PromptArgumentDef>,
}

/// The value of an argument as the client sent it.
#[derive(Clone, Debug)]
pub enum PromptArgValue {
    /// A string.
    Text(String),
    /// Any other JSON value.
    Other,
}

/// One argument of a prompt request.
#[derive(Clone, Debug)]
pub struct PromptArgument {
    /// Argument name.
    pub name: String,
    /// Its value.
    pub value: PromptArgValue,
}

/// Whether some declared argument has the name `name`.
pub open spec fn declared(defs: Seq<PromptArgumentDef>, name: Seq<char>) -> bool {
    exists|i: int| 0 <= i < defs.len() && (#[trigger] defs[i]).name@ == name
}

/// The first problem with the arguments from index `k` on: an undeclared
/// name, or a value that is not a string.
pub open spec fn argument_problem(
    args: Seq<PromptArgument>,
    defs: Seq<PromptArgumentDef>,
    k: int,
) -> Option<ErrorView>
    decreases args.len() - k,
{
    if k < 0 || k >= args.len() {
        None
    } else if !declared(defs, args[k].name@) {
        Some((McpErrorCode::InvalidInput, "unknown prompt argument: "@ + args[k].name@))
    } else if !(args[k].value is Text) {
        Some((McpErrorCode::InvalidInput, "prompt argument must be a string: "@ + args[k].name@))
    } else {
        argument_problem(args, defs, k + 1)
    }
}

/// The string value of the first argument named `name`, when there is one.
pub open spec fn argument_text(args: Seq<PromptArgument>, name: Seq<char>, k: int) -> Option<
    Seq<char>,
>
    decreases args.len() - k,
{
    if k < 0 || k >= args.len() {
        None
    } else if args[k].name@ == name {
        match args[k].value {
            PromptArgValue::Text(t) => Some(t@),
            PromptArgValue::Other => None,
        }
    } else {
        argument_text(args, name, k + 1)
    }
}

/// The first required argument from index `k` on that the request lacks.
pub open spec fn missing_argument(
    defs: Seq<PromptArgumentDef>,
    args: Seq<PromptArgument>,
    k: int,
) -> Option<ErrorView>
    decreases defs.len() - k,
{
    if k < 0 || k >= defs.len() {
        None
    } else if defs[k].required == Some(true) && argument_text(args, defs[k].name@, 0) is None {
        Some((McpErrorCode::InvalidInput, "required prompt argument is missing: "@ + defs[k].name@))
    } else {
        missing_argument(defs, args, k + 1)
    }
}

/// The value of a declared argument: what the request gives, or empty.
pub open spec fn argument_value(args: Seq<PromptArgument>, d: PromptArgumentDef) -> (Seq<char>, Seq<char>) {
    (
        d.name@,
        match argument_text(args, d.name@, 0) {
            Some(t) => t,
            None => Seq::empty(),
        },
    )
}

/// What checking the arguments of a prompt request gives: a value for every
/// declared argument, in order.
pub open spec fn spec_prompt_values(
    defs: Seq<PromptArgumentDef>,
    args: Option<Seq<PromptArgument>>,
) -> Result<Seq<(Seq<char>, Seq<char>)>, ErrorView> {
    let given = match args {
        Some(a) => a,
        None => Seq::empty(),
    };
    match argument_problem(given, defs, 0) {
        Some(e) => Err(e),
        None => match missing_argument(defs, given, 0) {
            Some(e) => Err(e),
            None => Ok(defs.map_values(|d: PromptArgumentDef| argument_value(given, d))),
        },
    }
}

fn is_declared(defs: &Vec<PromptArgumentDef>, name: &str) -> (b: bool)
    ensures
        b == declared(defs@, name@),
{
    let mut i: usize = 0;
    while i < defs.len()
        invariant
            i <= defs@.len(),
            forall|j: int| 0 <= j < i ==> (#[trigger] defs@[j]).name@ != name@,
        decreases defs@.len() - i,
    {
        if str_eq(defs[i].name.as_str(), name) {
            return true;
        }
        i = i + 1;
    }
    false
}

fn find_argument_text<'a>(args: &'a Vec<PromptArgument>, name: &str) -> (r: Option<&'a str>)
    ensures
        match argument_text(args@, name@, 0) {
            Some(t) => r matches Some(s) && s@ == t,
            None => r is None,
        },
{
    let mut i: usize = 0;
    while i < args.len()
        invariant
            i <= args@.len(),
            argument_text(args@, name@, i as int) == argument_text(args@, name@, 0),
        decreases args@.len() - i,
    {
        if str_eq(args[i].name.as_str(), name) {
            return match &args[i].value {
                PromptArgValue::Text(t) => Some(t.as_str()),
                PromptArgValue::Other => None,
            };
        }
        i = i + 1;
    }
    None
}

/// Checks the arguments of a prompt request against the declared ones: no
/// undeclared argument, only string values, every required one given. The
/// result holds a value for every declared argument (empty when not given).
pub fn validate_prompt_arguments(
    prompt: &PromptDefinition,
    arguments: Option<&Vec<PromptArgument>>,
) -> (r: Result<Vec<(String, String)>, McpError>)
    ensures
        match spec_prompt_values(
            prompt.arguments@,
            match arguments {
                Some(a) => Some(a@),
                None => None,
            },
        ) {
            Ok(vs) => r matches Ok(v) && v@.map_values(|p: (String, String)| (p.0@, p.1@)) == vs,
            Err(ev) => r matches Err(e) && err_view(e) == ev,
        },
{
    let empty: Vec<PromptArgument> = Vec::new();
    let given = match arguments {
        Some(a) => a,
        None => &empty,
    };
    let ghost given_view = match arguments {
        Some(a) => a@,
        None => Seq::<PromptArgument>::empty(),
    };
    assert(given@ == given_view);
    let defs = &prompt.arguments;
    let mut i: usize = 0;
    while i < given.len()
        invariant
            given@ == given_view,
            given_view == (match arguments {
                Some(a) => a@,
                None => Seq::<PromptArgument>::empty(),
            }),
            defs@ == prompt.arguments@,
            i <= given@.len(),
            argument_problem(given@, defs@, i as int) == argument_problem(given@, defs@, 0),
        decreases given@.len() - i,
    {
        let name = given[i].name.as_str();
        if !is_declared(defs, name) {
            let mut m = String::from_str("unknown prompt argument: ");
            m.append(name);
            return Err(McpError::new(McpErrorCode::InvalidInput, m));
        }
        match &given[i].value {
            PromptArgValue::Text(_) => {},
            PromptArgValue::Other => {
                let mut m = String::from_str("prompt argument must be a string: ");
                m.append(name);
                return Err(McpError::new(McpErrorCode::InvalidInput, m));
            },
        }
        i = i + 1;
    }
    let mut values: Vec<(String, String)> = Vec::new();
    let mut k: usize = 0;
    while k < defs.len()
        invariant
            given@ == given_view,
            given_view == (match arguments {
                Some(a) => a@,
                None => Seq::<PromptArgument>::empty(),
            }),
            defs@ == prompt.arguments@,
            argument_problem(given@, defs@, 0) is None,
            k <= defs@.len(),
            missing_argument(defs@, given@, k as int) == missing_argument(defs@, given@, 0),
            values@.len() == k,
            forall|j: int|
                0 <= j < k ==> ((#[trigger] values@[j]).0@, values@[j].1@) == argument_value(
                    given@,
                    defs@[j],
                ),
        decreases defs@.len() - k,
    {
        let d = &defs[k];
        let found = find_argument_text(given, d.name.as_str());
        let required = match d.required {
            Some(b) => b,
            None => false,
        };
        if required && found.is_none() {
            let mut m = String::from_str("required prompt argument is missing: ");
            m.append(d.name.as_str());
            return Err(McpError::new(McpErrorCode::InvalidInput, m));
        }
        let value = match found {
            Some(t) => String::from_str(t),
            None => String::new(),
        };
        values.push((d.name.clone(), value));
        k = k + 1;
    }
    assert(values@.map_values(|p: (String, String)| (p.0@, p.1@)) =~= defs@.map_values(
        |d: PromptArgumentDef| argument_value(given@, d),
    ));
    Ok(values)
}

/// The value given for `name`, the first one when several are.
pub open spec fn value_of(values: Seq<(Seq<char>, Seq<char>)>, name: Seq<char>, k: int) -> Option<
    Seq<char>,
>
    decreases values.len() - k,
{
    if k < 0 || k >= values.len() {
        None
    } else if values[k].0 == name {
        Some(values[k].1)
    } else {
        value_of(values, name, k + 1)
    }
}

/// The error that hides an internal failure of a prompt operation.
pub open spec fn prompt_internal() -> ErrorView {
    (McpErrorCode::InternalError, "internal error"@)
}

/// What a placeholder `{{@inner}}` (the whole of it is `token`) becomes: an
/// escaped `{{@@name}}` becomes `{{@name}}`, a valid name becomes its value,
/// anything else stays as it is.
pub open spec fn placeholder_piece(
    token: Seq<char>,
    inner: Seq<char>,
    values: Seq<(Seq<char>, Seq<char>)>,
    is_name: spec_fn(Seq<char>) -> bool,
) -> Result<Seq<char>, ErrorView> {
    if starts_with(inner, "@"@) {
        let name = inner.skip(1);
        if is_name(name) {
            Ok("{{@"@ + name + "}}"@)
        } else {
            Ok(token)
        }
    } else if is_name(inner) {
        match value_of(values, inner, 0) {
            Some(v) => Ok(v),
            None => Err(prompt_internal()),
        }
    } else {
        Ok(token)
    }
}

/// `text` with every placeholder replaced once, left to right: a
/// placeholder runs from `{{@` to the next `}}`; without such an end the
/// rest stays as it is.
pub open spec fn expand(
    text: Seq<char>,
    values: Seq<(Seq<char>, Seq<char>)>,
    is_name: spec_fn(Seq<char>) -> bool,
) -> Result<Seq<char>, ErrorView>
    decreases text.len(),
{
    match first_match(text, "{{@"@) {
        None => Ok(text),
        Some(start) => {
            let ph = text.skip(start);
            match first_match(ph, "}}"@) {
                None => Ok(text),
                Some(end) => if 0 <= start <= text.len() && 3 <= end && end + 2 <= ph.len() {
                    match placeholder_piece(ph.take(end + 2), ph.subrange(3, end), values, is_name) {
                        Err(e) => Err(e),
                        Ok(piece) => match expand(ph.skip(end + 2), values, is_name) {
                            Err(e) => Err(e),
                            Ok(rest) => Ok(text.take(start) + piece + rest),
                        },
                    }
                } else {
                    Ok(text)
                },
            }
        },
    }
}

/// A text without placeholders is its own expansion.
pub proof fn law_plain_text_expands_to_itself(
    text: Seq<char>,
    values: Seq<(Seq<char>, Seq<char>)>,
    is_name: spec_fn(Seq<char>) -> bool,
)
    requires
        forall|i: int| !matches_at(text, "{{@"@, i),
    ensures
        expand(text, values, is_name) == Ok::<Seq<char>, ErrorView>(text),
{
    lemma_find_from(text, "{{@"@, 0);
}

/// A placeholder naming a valid argument becomes that argument's value,
/// as it is: the value is not expanded again.
pub proof fn law_placeholder_becomes_its_value(
    name: Seq<char>,
    value: Seq<char>,
    values: Seq<(Seq<char>, Seq<char>)>,
    is_name: spec_fn(Seq<char>) -> bool,
)
    requires
        is_name(name),
        name.len() > 0,
        name[0] != '@',
        forall|i: int| 0 <= i < name.len() ==> name[i] != '}',
        value_of(values, name, 0) == Some(value),
    ensures
        expand("{{@"@ + name + "}}"@, values, is_name) == Ok::<Seq<char>, ErrorView>(value),
{
    reveal_strlit("{{@");
    reveal_strlit("}}");
    reveal_strlit("@");
    let open = "{{@"@;
    let close = "}}"@;
    let text = open + name + close;
    let end: int = 3 + name.len() as int;
    assert(text.subrange(0, 3) =~= open);
    assert(matches_at(text, open, 0));
    lemma_find_from(text, open, 0);
    assert(first_match(text, open) == Some(0int));
    let ph = text.skip(0);
    assert(ph =~= text);
    assert(text.subrange(end, end + 2) =~= close);
    assert(matches_at(text, close, end));
    assert forall|j: int| 0 <= j < end implies !matches_at(text, close, j) by {
        if matches_at(text, close, j) {
            assert(text.subrange(j, j + 2)[1] == close[1]);
            assert(text[j + 1] == '}');
            if j + 1 >= 3 {
                assert(text[j + 1] == name[j + 1 - 3]);
            }
        }
    }
    lemma_find_from(text, close, 0);
    assert(first_match(ph, close) == Some(end));
    assert(ph.subrange(3, end) =~= name);
    assert(!starts_with(name, "@"@)) by {
        if starts_with(name, "@"@) {
            assert(name.take(1)[0] == "@"@[0]);
        }
    }
    let rest = ph.skip(end + 2);
    assert(rest =~= Seq::<char>::empty());
    lemma_find_from(rest, open, 0);
    assert(expand(rest, values, is_name) == Ok::<Seq<char>, ErrorView>(rest));
    assert(text.take(0) + value + rest =~= value);
}

/// The view of the values of a prompt request.
pub open spec fn values_view(values: Seq<(String, String)>) -> Seq<(Seq<char>, Seq<char>)> {
    values.map_values(|p: (String, String)| (p.0@, p.1@))
}

fn find_value<'a>(values: &'a Vec<(String, String)>, name: &str) -> (r: Option<&'a str>)
    ensures
        match value_of(values_view(values@), name@, 0) {
            Some(v) => r matches Some(s) && s@ == v,
            None => r is None,
        },
{
    let mut i: usize = 0;
    while i < values.len()
        invariant
            i <= values@.len(),
            value_of(values_view(values@), name@, i as int) == value_of(
                values_view(values@),
                name@,
                0,
            ),
        decreases values@.len() - i,
    {
        if str_eq(values[i].0.as_str(), name) {
            return Some(values[i].1.as_str());
        }
        i = i + 1;
    }
    None
}

/// Whether the expansion of `text` is `out` followed by the expansion of
/// what remains from index `pos` on, or the failure it ends with.
pub open spec fn expansion_pending(
    text: Seq<char>,
    pos: int,
    out: Seq<char>,
    values: Seq<(Seq<char>, Seq<char>)>,
    is_name: spec_fn(Seq<char>) -> bool,
) -> bool {
    match expand(text.skip(pos), values, is_name) {
        Ok(r) => expand(text, values, is_name) == Ok::<Seq<char>, ErrorView>(out + r),
        Err(e) => expand(text, values, is_name) == Err::<Seq<char>, ErrorView>(e),
    }
}

/// Expands the placeholders of a prompt text once, left to right;
/// `is_arg_name` tells whether a text is a valid argument name.
#[verifier::spinoff_prover]
#[verifier::rlimit(40)]
pub fn expand_prompt_text<F: Fn(&str) -> bool>(
    text: &str,
    values: &Vec<(String, String)>,
    is_arg_name: &F,
) -> (r: Result<String, McpError>)
    requires
        forall|s: &str| call_requires(*is_arg_name, (s,)),
    ensures
        forall|p: spec_fn(Seq<char>) -> bool|
            decides(*is_arg_name, p) ==> match expand(text@, values_view(values@), p) {
                Ok(t) => r matches Ok(s) && s@ == t,
                Err(ev) => r matches Err(e) && err_view(e) == ev,
            },
{
    let chars = chars_of(text);
    let n = chars.len();
    let open = chars_of("{{@");
    let close = chars_of("}}");
    let at_sign = chars_of("@");
    proof {
        reveal_strlit("{{@");
        reveal_strlit("}}");
        reveal_strlit("@");
    }
    let ghost vv = values_view(values@);
    let mut out = String::new();
    let mut pos: usize = 0;
    assert(text@.skip(0) =~= text@);
    loop
        invariant
            forall|s: &str| call_requires(*is_arg_name, (s,)),
            chars@ == text@,
            n == text@.len(),
            open@ == "{{@"@,
            close@ == "}}"@,
            at_sign@ == "@"@,
            "{{@"@ == seq!['{', '{', '@'],
            "}}"@ == seq!['}', '}'],
            "@"@ == seq!['@'],
            vv == values_view(values@),
            pos <= n,
            forall|p: spec_fn(Seq<char>) -> bool|
                decides(*is_arg_name, p) ==> expansion_pending(text@, pos as int, out@, vv, p),
        decreases n - pos,
    {
        let ghost rest = text@.skip(pos as int);
        proof {
            lemma_find_from_skip(text@, open@, pos as int, 0);
            lemma_find_from(text@, open@, pos as int);
        }
        let start = match find_from_exec(&chars, &open, pos) {
            Some(st) => st,
            None => {
                out.append(text.substring_char(pos, n));
                proof {
                    assert(text@.subrange(pos as int, n as int) =~= rest);
                    assert forall|p: spec_fn(Seq<char>) -> bool|
                        decides(*is_arg_name, p) implies expand(text@, vv, p) == Ok::<
                        Seq<char>,
                        ErrorView,
                    >(out@) by {
                        assert(expand(rest, vv, p) == Ok::<Seq<char>, ErrorView>(rest));
                    }
                }
                return Ok(out);
            },
        };
        let ghost ph = text@.skip(start as int);
        proof {
            assert(rest.skip(start - pos) =~= ph);
            lemma_find_from_skip(text@, close@, start as int, 0);
            lemma_find_from(text@, close@, start as int);
        }
        let close_at = match find_from_exec(&chars, &close, start) {
            Some(c) => c,
            None => {
                out.append(text.substring_char(pos, n));
                proof {
                    assert(text@.subrange(pos as int, n as int) =~= rest);
                    assert forall|p: spec_fn(Seq<char>) -> bool|
                        decides(*is_arg_name, p) implies expand(text@, vv, p) == Ok::<
                        Seq<char>,
                        ErrorView,
                    >(out@) by {
                        assert(expand(rest, vv, p) == Ok::<Seq<char>, ErrorView>(rest));
                    }
                }
                return Ok(out);
            },
        };
        proof {
            assert(text@.subrange(start as int, start + 3) == open@);
            assert(text@.subrange(close_at as int, close_at + 2) == close@);
            if close_at < start + 3 {
                assert(text@[close_at as int] == text@.subrange(close_at as int, close_at + 2)[0]);
                assert(text@[close_at as int] == text@.subrange(start as int, start + 3)[close_at - start]);
            }
        }
        let end = close_at - start;
        let token = text.substring_char(start, close_at + 2);
        let inner = text.substring_char(start + 3, close_at);
        let ghost inner_v = ph.subrange(3, end as int);
        let ghost token_v = ph.take(end + 2);
        assert(inner@ =~= inner_v);
        assert(token@ =~= token_v);
        let before = text.substring_char(pos, start);
        assert(before@ =~= rest.take(start - pos));
        let ghost out0 = out@;
        out.append(before);
        let inner_chars = chars_of(inner);
        let ghost mut pc: Seq<char> = Seq::empty();
        if starts_with_exec(&inner_chars, &at_sign) {
            let name = inner.substring_char(1, inner_chars.len());
            assert(name@ =~= inner_v.skip(1));
            if is_arg_name(name) {
                out.append("{{@");
                out.append(name);
                out.append("}}");
                proof {
                    pc = "{{@"@ + name@ + "}}"@;
                }
            } else {
                out.append(token);
                proof {
                    pc = token@;
                }
            }
        } else if is_arg_name(inner) {
            match find_value(values, inner) {
                Some(v) => {
                    out.append(v);
                    proof {
                        pc = v@;
                    }
                },
                None => {
                    proof {
                        assert forall|p: spec_fn(Seq<char>) -> bool|
                            decides(*is_arg_name, p) implies expand(text@, vv, p) == Err::<
                            Seq<char>,
                            ErrorView,
                        >(prompt_internal()) by {
                            assert(placeholder_piece(token_v, inner_v, vv, p) == Err::<
                                Seq<char>,
                                ErrorView,
                            >(prompt_internal()));
                        }
                    }
                    return Err(
                        McpError::new(McpErrorCode::InternalError, String::from_str("internal error")),
                    );
                },
            }
        } else {
            out.append(token);
            proof {
                pc = token@;
            }
        }
        assert forall|p: spec_fn(Seq<char>) -> bool|
            decides(*is_arg_name, p) implies placeholder_piece(token_v, inner_v, vv, p) == Ok::<
            Seq<char>,
            ErrorView,
        >(pc) by {}
        assert(out@ =~= out0 + before@ + pc);
        let ghost piece = pc;
        proof {
            assert(ph.skip(end + 2) =~= text@.skip(close_at + 2));
            assert forall|p: spec_fn(Seq<char>) -> bool|
                decides(*is_arg_name, p) implies expansion_pending(
                    text@,
                    close_at + 2,
                    out@,
                    vv,
                    p,
                ) by {
                assert(placeholder_piece(token_v, inner_v, vv, p) == Ok::<Seq<char>, ErrorView>(piece));
                assert(expansion_pending(text@, pos as int, out0, vv, p));
                match expand(text@.skip(close_at + 2), vv, p) {
                    Ok(r2) => {
                        assert(expand(rest, vv, p) == Ok::<Seq<char>, ErrorView>(
                            rest.take(start - pos) + piece + r2,
                        ));
                        assert(out0 + (rest.take(start - pos) + piece + r2) =~= out@ + r2);
                    },
                    Err(e2) => {},
                }
            }
        }
        pos = close_at + 2;
    }
}

/// How many prompts one page of `prompts/list` holds.
pub const DEFAULT_PROMPT_LIST_LIMIT: usize = 50;

/// A prompt that a page publishes, as the store lists it.
#[derive(Clone, Debug)]
pub struct PromptCandidate {
    /// Prompt name.
    pub name: String,
    /// Prompt description.
    pub description: String,
    /// Declared arguments.
    pub arguments: Vec<PromptArgumentDef>,
}

/// The latest source of a prompt page: its revision, the prompt its front
/// matter declares (absent when the front matter cannot be read as a
/// prompt), and the body after the front matter.
#[derive(Clone, Debug)]
pub struct PromptSourceEntry {
    /// Page revision.
    pub revision: u64,
    /// The declared prompt.
    pub prompt: Option<PromptDefinition>,
    /// The page body.
    pub body: String,
}

impl Keyed for PromptCandidate {
    open spec fn sort_key(&self) -> Seq<char> {
        self.name@
    }

    fn key_str(&self) -> (k: &str) {
        self.name.as_str()
    }
}

/// A declared argument as `prompts/list` shows it.
pub open spec fn argument_view(a: PromptArgumentDef) -> (Seq<char>, Seq<char>, Option<bool>) {
    (a.name@, a.description@, a.required)
}

/// A prompt as `prompts/list` shows it.
pub open spec fn candidate_view(c: PromptCandidate) -> (
    Seq<char>,
    Seq<char>,
    Seq<(Seq<char>, Seq<char>, Option<bool>)>,
) {
    (c.name@, c.description@, c.arguments@.map_values(|a: PromptArgumentDef| argument_view(a)))
}

/// The view of a listed prompt.
pub open spec fn prompt_item_view(i: PromptListItem) -> (
    Seq<char>,
    Seq<char>,
    Seq<(Seq<char>, Seq<char>, Option<bool>)>,
) {
    (
        i.name@,
        i.description@,
        i.arguments@.map_values(|a: PromptListArgument| (a.name@, a.description@, a.required)),
    )
}

/// Whether a listed entry comes after the cursor.
pub open spec fn after_cursor(cursor: Option<Seq<char>>, key: Seq<char>) -> bool {
    match cursor {
        Some(c) => lex_lt(c, key),
        None => true,
    }
}

/// What `prompts/list` gives: the prompts sorted by name, after the cursor,
/// at most fifty of them, and the cursor of the next page when more follow.
pub open spec fn spec_list_prompts(
    auth: AuthContext,
    cursor: Option<Seq<char>>,
    is_prompt_name: spec_fn(Seq<char>) -> bool,
    replies: Seq<StoreReply>,
) -> Progress<(Seq<(Seq<char>, Seq<char>, Seq<(Seq<char>, Seq<char>, Option<bool>)>)>, Option<Seq<char>>)> {
    match spec_scope_check(auth, McpOperation::ListPrompts) {
        Some(e) => Progress::Fail(e),
        None => if cursor matches Some(c) && !is_prompt_name(c) {
            Progress::Fail((McpErrorCode::InvalidInput, "cursor is invalid"@))
        } else if replies.len() == 0 {
            Progress::Ask(RequestView::PromptCandidates)
        } else {
            match replies[0] {
                StoreReply::Prompts(Err(_)) => Progress::Fail(prompt_internal()),
                StoreReply::Prompts(Ok(v)) => {
                    let visible = sorted_by_key(v@).filter(
                        |c: PromptCandidate| after_cursor(cursor, c.name@),
                    );
                    let has_more = visible.len() > DEFAULT_PROMPT_LIST_LIMIT;
                    let selected = if has_more {
                        visible.take(DEFAULT_PROMPT_LIST_LIMIT as int)
                    } else {
                        visible
                    };
                    Progress::Got(
                        (
                            selected.map_values(|c: PromptCandidate| candidate_view(c)),
                            if has_more {
                                Some(selected.last().name@)
                            } else {
                                None
                            },
                        ),
                        1,
                    )
                },
                _ => Progress::Fail(unexpected_reply()),
            }
        },
    }
}

/// What `prompts/get` gives: the prompt's description, its message (the
/// system text, when declared, a blank line and the body, each with its
/// placeholders expanded) and the page revision.
pub open spec fn spec_get_prompt(
    auth: AuthContext,
    name: Seq<char>,
    args: Option<Seq<PromptArgument>>,
    is_prompt_name: spec_fn(Seq<char>) -> bool,
    is_arg_name: spec_fn(Seq<char>) -> bool,
    replies: Seq<StoreReply>,
) -> Progress<(Seq<char>, Seq<char>, u64)> {
    match spec_scope_check(auth, McpOperation::GetPrompt) {
        Some(e) => Progress::Fail(e),
        None => if !is_prompt_name(name) {
            Progress::Fail((McpErrorCode::NotFound, "prompt not found"@))
        } else if replies.len() == 0 {
            Progress::Ask(RequestView::PromptSource(name))
        } else {
            match replies[0] {
                StoreReply::PromptSource(Err(_)) => Progress::Fail(prompt_internal()),
                StoreReply::PromptSource(Ok(None)) => Progress::Fail(
                    (McpErrorCode::NotFound, "prompt not found"@),
                ),
                StoreReply::PromptSource(Ok(Some(entry))) => match entry.prompt {
                    None => Progress::Fail(prompt_internal()),
                    Some(pd) => if pd.name@ != name {
                        Progress::Fail(prompt_internal())
                    } else {
                        match spec_prompt_values(pd.arguments@, args) {
                            Err(e) => Progress::Fail(e),
                            Ok(vs) => match expand(entry.body@, vs, is_arg_name) {
                                Err(e) => Progress::Fail(e),
                                Ok(body) => match pd.system {
                                    Some(sys) => match expand(sys@, vs, is_arg_name) {
                                        Err(e) => Progress::Fail(e),
                                        Ok(se) => Progress::Got(
                                            (pd.description@, se + "\n\n"@ + body, entry.revision),
                                            1,
                                        ),
                                    },
                                    None => Progress::Got((pd.description@, body, entry.revision), 1),
                                },
                            },
                        }
                    },
                },
                _ => Progress::Fail(unexpected_reply()),
            }
        },
    }
}

fn list_item_of(c: &PromptCandidate) -> (r: PromptListItem)
    ensures
        prompt_item_view(r) == candidate_view(*c),
{
    let mut arguments: Vec<PromptListArgument> = Vec::new();
    let mut i: usize = 0;
    while i < c.arguments.len()
        invariant
            i <= c.arguments@.len(),
            arguments@.len() == i,
            forall|j: int|
                0 <= j < i ==> ((#[trigger] arguments@[j]).name@, arguments@[j].description@,
                    arguments@[j].required) == argument_view(c.arguments@[j]),
        decreases c.arguments@.len() - i,
    {
        let a = &c.arguments[i];
        arguments.push(PromptListArgument::new(a.name.clone(), a.description.clone(), a.required));
        i = i + 1;
    }
    let r = PromptListItem::new(c.name.clone(), c.description.clone(), arguments);
    assert(prompt_item_view(r).2 =~= candidate_view(*c).2);
    r
}

impl McpService {
    /// `prompts/list`: the published prompts sorted by name, after the cursor
    /// (which must be a valid prompt name), fifty at a time;
    /// `is_prompt_name` tells whether a text is a valid prompt name.
    pub fn list_prompts<F: Fn(&str) -> bool>(
        &self,
        auth: &AuthContext,
        cursor: Option<&str>,
        is_prompt_name: &F,
        replies: &[StoreReply],
    ) -> (r: OpStep<ListPromptsServiceResult>)
        requires
            forall|s: &str| call_requires(*is_prompt_name, (s,)),
        ensures
            forall|p: spec_fn(Seq<char>) -> bool|
                decides(*is_prompt_name, p) ==> step_is(
                    r,
                    spec_list_prompts(
                        *auth,
                        match cursor {
                            Some(c) => Some(c@),
                            None => None,
                        },
                        p,
                        replies@,
                    ),
                    |g: ListPromptsServiceResult|
                        (
                            g.items@.map_values(|i: PromptListItem| prompt_item_view(i)),
                            crate::access::opt_view(g.next_cursor),
                        ),
                ),
    {
        if let Err(e) = self.ensure_operation_scope(auth, McpOperation::ListPrompts) {
            return OpStep::Done(Err(e));
        }
        if let Some(c) = cursor {
            if !is_prompt_name(c) {
                return OpStep::Done(
                    Err(McpError::new(McpErrorCode::InvalidInput, String::from_str("cursor is invalid"))),
                );
            }
        }
        if replies.len() == 0 {
            return OpStep::Ask(StoreRequest::PromptCandidates);
        }
        let candidates = match &replies[0] {
            StoreReply::Prompts(Err(_)) => {
                return OpStep::Done(
                    Err(McpError::new(McpErrorCode::InternalError, String::from_str("internal error"))),
                );
            },
            StoreReply::Prompts(Ok(v)) => v,
            _ => return OpStep::Done(Err(unexpected_reply_error())),
        };
        let ghost cv = match cursor {
            Some(c) => Some(c@),
            None => None::<Seq<char>>,
        };
        let order = stable_sort_order(candidates);
        let ghost sorted = pick(candidates@, order@);
        let ghost pred = |c: PromptCandidate| after_cursor(cv, c.name@);
        let mut visible: Vec<usize> = Vec::new();
        let mut i: usize = 0;
        while i < order.len()
            invariant
                i <= order@.len(),
                sorted == pick(candidates@, order@),
                forall|j: int| 0 <= j < order@.len() ==> order@[j] < candidates@.len(),
                forall|j: int| 0 <= j < visible@.len() ==> visible@[j] < candidates@.len(),
                pred == (|c: PromptCandidate| after_cursor(cv, c.name@)),
                cv == (match cursor {
                    Some(c) => Some(c@),
                    None => None::<Seq<char>>,
                }),
                pick(candidates@, visible@) == sorted.take(i as int).filter(pred),
            decreases order@.len() - i,
        {
            proof {
                crate::seqs::lemma_filter_take_step(sorted, pred, i as int);
            }
            let idx = order[i];
            let keep = match cursor {
                Some(c) => str_lt(c, candidates[idx].name.as_str()),
                None => true,
            };
            let ghost before = visible@;
            if keep {
                visible.push(idx);
                assert(pick(candidates@, visible@) =~= pick(candidates@, before).push(sorted[i as int]));
            }
            i = i + 1;
        }
        proof {
            crate::seqs::lemma_take_full(sorted);
        }
        let ghost vis = pick(candidates@, visible@);
        let has_more = visible.len() > DEFAULT_PROMPT_LIST_LIMIT;
        let count = if has_more {
            DEFAULT_PROMPT_LIST_LIMIT
        } else {
            visible.len()
        };
        let mut items: Vec<PromptListItem> = Vec::new();
        let mut j: usize = 0;
        while j < count
            invariant
                count <= visible@.len(),
                vis == pick(candidates@, visible@),
                forall|k: int| 0 <= k < visible@.len() ==> visible@[k] < candidates@.len(),
                j <= count,
                items@.len() == j,
                forall|k: int|
                    0 <= k < j ==> prompt_item_view(#[trigger] items@[k]) == candidate_view(vis[k]),
            decreases count - j,
        {
            items.push(list_item_of(&candidates[visible[j]]));
            j = j + 1;
        }
        let next_cursor = if has_more {
            Some(candidates[visible[count - 1]].name.clone())
        } else {
            None
        };
        proof {
            let sel = if has_more {
                vis.take(DEFAULT_PROMPT_LIST_LIMIT as int)
            } else {
                vis
            };
            assert(items@.map_values(|i: PromptListItem| prompt_item_view(i)) =~= sel.map_values(
                |c: PromptCandidate| candidate_view(c),
            ));
            if has_more {
                assert(sel.last() == vis[count - 1]);
            }
        }
        OpStep::Done(Ok(ListPromptsServiceResult::new(items, next_cursor)))
    }

    /// `prompts/get`: the message of the prompt named `name`, its arguments
    /// checked and its placeholders expanded; `is_prompt_name` and
    /// `is_arg_name` tell whether a text is a valid prompt or argument name.
    pub fn get_prompt<F: Fn(&str) -> bool, G: Fn(&str) -> bool>(
        &self,
        auth: &AuthContext,
        name: &str,
        arguments: Option<&Vec<PromptArgument>>,
        is_prompt_name: &F,
        is_arg_name: &G,
        replies: &[StoreReply],
    ) -> (r: OpStep<GetPromptServiceResult>)
        requires
            forall|s: &str| call_requires(*is_prompt_name, (s,)),
            forall|s: &str| call_requires(*is_arg_name, (s,)),
        ensures
            forall|p: spec_fn(Seq<char>) -> bool, q: spec_fn(Seq<char>) -> bool|
                decides(*is_prompt_name, p) && decides(*is_arg_name, q) ==> step_is(
                    r,
                    spec_get_prompt(
                        *auth,
                        name@,
                        match arguments {
                            Some(a) => Some(a@),
                            None => None,
                        },
                        p,
                        q,
                        replies@,
                    ),
                    |g: GetPromptServiceResult| (g.description@, g.message@, g.revision),
                ),
    {
        if let Err(e) = self.ensure_operation_scope(auth, McpOperation::GetPrompt) {
            return OpStep::Done(Err(e));
        }
        if !is_prompt_name(name) {
            return OpStep::Done(
                Err(McpError::new(McpErrorCode::NotFound, String::from_str("prompt not found"))),
            );
        }
        if replies.len() == 0 {
            return OpStep::Ask(StoreRequest::PromptSource { name: String::from_str(name) });
        }
        let internal = McpError::new(McpErrorCode::InternalError, String::from_str("internal error"));
        let entry = match &replies[0] {
            StoreReply::PromptSource(Err(_)) => return OpStep::Done(Err(internal)),
            StoreReply::PromptSource(Ok(None)) => {
                return OpStep::Done(
                    Err(McpError::new(McpErrorCode::NotFound, String::from_str("prompt not found"))),
                );
            },
            StoreReply::PromptSource(Ok(Some(entry))) => entry,
            _ => return OpStep::Done(Err(unexpected_reply_error())),
        };
        let pd = match &entry.prompt {
            Some(pd) => pd,
            None => return OpStep::Done(Err(internal)),
        };
        if !str_eq(pd.name.as_str(), name) {
            return OpStep::Done(Err(internal));
        }
        let values = match validate_prompt_arguments(pd, arguments) {
            Ok(v) => v,
            Err(e) => return OpStep::Done(Err(e)),
        };
        let body = match expand_prompt_text(entry.body.as_str(), &values, is_arg_name) {
            Ok(b) => b,
            Err(e) => return OpStep::Done(Err(e)),
        };
        let message = match &pd.system {
            Some(sys) => {
                let mut m = match expand_prompt_text(sys.as_str(), &values, is_arg_name) {
                    Ok(t) => t,
                    Err(e) => return OpStep::Done(Err(e)),
                };
                m.append("\n\n");
                m.append(body.as_str());
                m
            },
            None => body,
        };
        OpStep::Done(
            Ok(GetPromptServiceResult::new(pd.description.clone(), message, entry.revision)),
        )
    }
}

} // verus!
