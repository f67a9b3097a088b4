use vstd::prelude::*;
use vstd::utf8::{decode_utf8, encode_scalar, encode_utf8, is_ascii_chars, is_char_boundary, pop_first_scalar};
use crate::text;
use crate::fluent_entries;

verus! {

// ---------------------------------------------------------------------------
// Tokens
// ---------------------------------------------------------------------------

/// A token of Rust source, as the tokenizer gives it: an identifier, a
/// punctuation character, a literal (with its source text) or a delimited
/// group of tokens.
pub enum TokenTree {
    Ident(String),
    Punct(char),
    Literal(String),
    Group(Vec<TokenTree>),
}

/// A call of a translation macro (`tr!` or `move_tr!`) found in source code.
#[derive(Debug, PartialEq)]
pub struct TranslationMacro {
    pub name: String,
    pub message_name: String,
    pub placeables: Vec<String>,
    pub file_path: String,
}

/// The model of a `TranslationMacro`.
pub struct MacroV {
    pub name: Seq<char>,
    pub message_name: Seq<char>,
    pub placeables: Seq<Seq<char>>,
    pub file_path: Seq<char>,
}

impl View for TranslationMacro {
    type V = MacroV;

    open spec fn view(&self) -> MacroV {
        MacroV {
            name: self.name@,
            message_name: self.message_name@,
            placeables: text::strs_of(self.placeables@),
            file_path: self.file_path@,
        }
    }
}

/// The model of one message of a conditional translation macro call:
/// the condition under which it is used, its name and its placeables.
pub struct CondV {
    pub condition: Seq<char>,
    pub message_name: Seq<char>,
    pub placeables: Seq<Seq<char>>,
}

/// The model of the messages of the translation macro call being read.
pub enum MessagesV {
    Single(Seq<char>, Seq<Seq<char>>),
    Conditional(Seq<CondV>),
}

/// The model of the state of a `TranslationsMacrosVisitor`.
pub struct VState {
    pub tr_macros: Seq<MacroV>,
    pub errors: Seq<Seq<char>>,
    pub tr_macro: Option<Seq<char>>,
    pub punct: Option<char>,
    pub messages: Option<MessagesV>,
    pub use_path_is_leptos_fluent: bool,
    pub file_path: Seq<char>,
}

// ---------------------------------------------------------------------------
// String literals
// ---------------------------------------------------------------------------

/// Whether `s` starts with `p`.
pub open spec fn starts_with(s: Seq<char>, p: Seq<char>) -> bool {
    p.len() <= s.len() && s.subrange(0, p.len() as int) == p
}

/// The text of the UTF-8 bytes `b[from..len - back]`, or `None` when these
/// bounds do not delimit characters (where slicing the string panics).
pub open spec fn cut_bytes(b: Seq<u8>, from: int, back: int) -> Option<Seq<char>> {
    if from <= b.len() - back && is_char_boundary(b, from) && is_char_boundary(b, b.len() - back) {
        Some(decode_utf8(b.subrange(from, b.len() - back)))
    } else {
        None
    }
}

/// The message given for a literal that is no string literal.
pub open spec fn literal_error(lit: Seq<char>, macro_name: Seq<char>) -> Seq<char> {
    "Literal `"@ + lit + "` at `"@ + macro_name + "!` macro must be a string literal"@
}

/// The number of `#` characters of `s` from index `i` on, up to the first
/// other character.
pub open spec fn hashes_from(s: Seq<char>, i: int) -> nat
    decreases s.len() - i,
{
    if 0 <= i < s.len() && s[i] == '#' {
        1 + hashes_from(s, i + 1)
    } else {
        0
    }
}

/// `n` characters `#`.
pub open spec fn hashes(n: nat) -> Seq<char> {
    Seq::new(n, |_k: int| '#')
}

/// The text of `lit` between its opening `open` and its closing `close`
/// (`Ok`), or `None` where it lacks them.
pub open spec fn quoted_value(lit: Seq<char>, open: Seq<char>, close: Seq<char>) -> Option<
    Result<Seq<char>, Seq<char>>,
> {
    match strip_both(lit, open, close) {
        Some(v) => Some(Ok(v)),
        None => None,
    }
}

/// The value of the raw (C) string literal `lit` whose prefix `r` or `cr`
/// ends at index `k`: after the prefix come `n` characters `#` and a
/// quote, and the literal closes with a quote and `n` characters `#`.
pub open spec fn raw_literal_value(lit: Seq<char>, k: int, macro_name: Seq<char>) -> Option<
    Result<Seq<char>, Seq<char>>,
> {
    let n = hashes_from(lit, k);
    if k + n < lit.len() && lit[k + n] == '"' {
        quoted_value(lit, lit.take(k + n + 1), seq!['"'] + hashes(n))
    } else {
        Some(Err(literal_error(lit, macro_name)))
    }
}

/// The value of the string literal written `lit`, found in a call of the
/// macro `macro_name`: the text between the quotes of a string literal,
/// of a C string literal, or of a raw (C) string literal with any number
/// of `#` (`Ok`); or the message that it is no string literal (`Err`).
/// `None` stands for a text that opens a string literal without closing
/// it, which no literal token is (where taking its quotes off panics).
#[verifier::opaque]
pub open spec fn literal_value(lit: Seq<char>, macro_name: Seq<char>) -> Option<
    Result<Seq<char>, Seq<char>>,
> {
    if starts_with(lit, "r"@) {
        raw_literal_value(lit, 1, macro_name)
    } else if starts_with(lit, "cr"@) {
        raw_literal_value(lit, 2, macro_name)
    } else if starts_with(lit, "c\""@) {
        quoted_value(lit, "c\""@, "\""@)
    } else if starts_with(lit, "\""@) {
        quoted_value(lit, "\""@, "\""@)
    } else {
        Some(Err(literal_error(lit, macro_name)))
    }
}

// ---------------------------------------------------------------------------
// The visitor's steps
// ---------------------------------------------------------------------------

/// `s` with the error `e` added, unless it is already there.
pub open spec fn push_error(s: VState, e: Seq<char>) -> VState {
    if s.errors.contains(e) {
        s
    } else {
        VState { errors: s.errors.push(e), ..s }
    }
}

/// `s` no longer in a translation macro call.
pub open spec fn clear_macro(s: VState) -> VState {
    VState { tr_macro: None, punct: None, ..s }
}

/// `s` no longer in a translation macro call, with its messages dropped.
pub open spec fn clear_all(s: VState) -> VState {
    VState { tr_macro: None, punct: None, messages: None, ..s }
}

/// The value of the literal `lit` in the current macro call of `s`.
/// `None` stands for a panic: no macro call is current, or the literal
/// cannot be sliced.
pub open spec fn current_literal_value(s: VState, lit: Seq<char>) -> Option<
    Result<Seq<char>, Seq<char>>,
> {
    match s.tr_macro {
        Some(name) => literal_value(lit, name),
        None => None,
    }
}

/// The index of the first message of `ms[i..]` with condition `cond`.
pub open spec fn find_condition_from(ms: Seq<CondV>, cond: Seq<char>, i: int) -> Option<int>
    decreases ms.len() - i,
{
    if i < 0 || i >= ms.len() {
        None
    } else if ms[i].condition == cond {
        Some(i)
    } else {
        find_condition_from(ms, cond, i + 1)
    }
}

/// The index of the first message of `ms` with condition `cond`.
pub open spec fn find_condition(ms: Seq<CondV>, cond: Seq<char>) -> Option<int> {
    find_condition_from(ms, cond, 0)
}

pub proof fn lemma_find_condition_from_range(ms: Seq<CondV>, cond: Seq<char>, i: int)
    ensures
        find_condition_from(ms, cond, i) matches Some(k) ==> 0 <= k < ms.len() && ms[k].condition
            == cond,
    decreases ms.len() - i,
{
    if 0 <= i < ms.len() && ms[i].condition != cond {
        lemma_find_condition_from_range(ms, cond, i + 1);
    }
}

/// `s` after reading the message `v` of the branch `cond` of a conditional
/// macro call: a new message for a new condition, or one more placeable for
/// a known one.
pub open spec fn add_conditional(s: VState, cond: Seq<char>, v: Seq<char>) -> VState {
    match s.messages {
        Some(MessagesV::Conditional(ms)) => match find_condition(ms, cond) {
            Some(k) => VState {
                messages: Some(
                    MessagesV::Conditional(
                        ms.update(k, CondV { placeables: ms[k].placeables.push(v), ..ms[k] }),
                    ),
                ),
                ..s
            },
            None => VState {
                messages: Some(
                    MessagesV::Conditional(
                        ms.push(CondV { condition: cond, message_name: v, placeables: seq![] }),
                    ),
                ),
                ..s
            },
        },
        Some(MessagesV::Single(_, _)) => s,
        None => VState {
            messages: Some(
                MessagesV::Conditional(
                    seq![CondV { condition: cond, message_name: v, placeables: seq![] }],
                ),
            ),
            ..s
        },
    }
}

/// `s` after reading the tokens `toks` of an `if .. else ..` message
/// expression, having read `cnt` tokens and the condition `cond` so far.
/// Gives the state and the number of tokens read.
pub open spec fn parse_if_loop(s: VState, toks: Seq<TokenTree>, cnt: int, cond: Seq<char>) -> Option<
    (VState, int),
>
    decreases toks.len(),
{
    if toks.len() == 0 {
        Some((s, cnt))
    } else {
        let rest = toks.subrange(1, toks.len() as int);
        let cnt1 = cnt + 1;
        match toks[0] {
            TokenTree::Ident(id) => if id@ == "if"@ {
                parse_if_loop(s, rest, cnt1, cond)
            } else if id@ == "else"@ {
                parse_if_loop(s, rest, cnt1, cond + "else "@)
            } else {
                parse_if_loop(s, rest, cnt1, cond + id@)
            },
            TokenTree::Group(gt) => if gt@.len() != 1 {
                parse_if_loop(s, rest, cnt1, cond)
            } else {
                match gt@[0] {
                    TokenTree::Literal(l) => match current_literal_value(s, l@) {
                        None => None,
                        Some(Ok(v)) => parse_if_loop(
                            add_conditional(s, cond, v),
                            rest,
                            cnt1,
                            Seq::empty(),
                        ),
                        Some(Err(e)) => Some((clear_all(push_error(s, e)), cnt1)),
                    },
                    _ => parse_if_loop(s, rest, cnt1, cond),
                }
            },
            TokenTree::Punct(p) => if p == ',' {
                Some((s, cnt1))
            } else if p == '#' {
                Some((s, cnt1 + 1))
            } else {
                parse_if_loop(s, rest, cnt1, cond)
            },
            TokenTree::Literal(_) => parse_if_loop(s, rest, cnt1, cond),
        }
    }
}

/// `s` after reading the conditional message expression that starts at
/// token `n0` of the macro arguments `g`, and the number of tokens read.
pub open spec fn parse_if(s: VState, g: Seq<TokenTree>, n0: int) -> Option<(VState, int)> {
    parse_if_loop(s, g.skip(n0), 0, Seq::empty())
}

/// Whether `t` is the identifier `if`.
pub open spec fn is_if(t: TokenTree) -> bool {
    t matches TokenTree::Ident(id) && id@ == "if"@
}

/// `s` after the message expression starting at token `n1`, read as a
/// conditional when it starts with `if`: the state and the count of tokens
/// read in all.
pub open spec fn maybe_parse_if(s: VState, g: Seq<TokenTree>, n1: int) -> Option<(VState, int, bool)> {
    if n1 >= g.len() {
        None
    } else if is_if(g[n1]) {
        match parse_if(s, g, n1) {
            Some((s2, c)) => Some((s2, n1 + c, false)),
            None => None,
        }
    } else {
        Some((s, n1, false))
    }
}

/// `s` after reading the message literal `lit`, counting `n` tokens.
pub open spec fn read_message_literal(s: VState, lit: Seq<char>, n: int, n_err: int) -> Option<
    (VState, int, bool),
> {
    match current_literal_value(s, lit) {
        None => None,
        Some(Ok(v)) => Some((VState { messages: Some(MessagesV::Single(v, seq![])), ..s }, n, false)),
        Some(Err(e)) => Some((push_error(s, e), n_err, false)),
    }
}

/// The reading of the message expression of the macro arguments `g`: the
/// new state, the number of tokens read, and whether the group is left as
/// it is (too short to hold a message after a first argument).
pub open spec fn read_message(s: VState, g: Seq<TokenTree>) -> Option<(VState, int, bool)> {
    if g.len() == 0 {
        None
    } else {
        match g[0] {
            TokenTree::Literal(l) => read_message_literal(s, l@, 2, 0),
            TokenTree::Ident(id) => if id@ == "if"@ {
                match parse_if(s, g, 0) {
                    Some((s2, c)) => Some((s2, c, false)),
                    None => None,
                }
            } else if g.len() < 3 {
                Some((s, 2, true))
            } else {
                match g[2] {
                    TokenTree::Ident(id2) => if id2@ == "if"@ {
                        match parse_if(s, g, 2) {
                            Some((s2, c)) => Some((s2, 2 + c, false)),
                            None => None,
                        }
                    } else {
                        Some((s, 2, false))
                    },
                    TokenTree::Literal(l2) => read_message_literal(s, l2@, 4, 4),
                    TokenTree::Punct(p2) => maybe_parse_if(s, g, if p2 == '#' { 4 } else { 2 }),
                    TokenTree::Group(_) => Some((s, 3, false)),
                }
            },
            TokenTree::Punct(p) => maybe_parse_if(s, g, if p == '#' { 2 } else { 0 }),
            TokenTree::Group(_) => Some((s, 0, false)),
        }
    }
}

/// `s` with the placeable `v` added to its messages.
pub open spec fn add_placeable(s: VState, v: Seq<char>) -> VState {
    match s.messages {
        Some(MessagesV::Single(m, ps)) => VState {
            messages: Some(MessagesV::Single(m, ps.push(v))),
            ..s
        },
        Some(MessagesV::Conditional(ms)) => VState {
            messages: Some(
                MessagesV::Conditional(
                    Seq::new(
                        ms.len(),
                        |k: int| CondV { placeables: ms[k].placeables.push(v), ..ms[k] },
                    ),
                ),
            ),
            ..s
        },
        None => s,
    }
}

/// `s` after reading the tokens `toks` of the placeables argument: each
/// literal that starts an entry (at the start or after a comma) names a
/// placeable.
pub open spec fn placeables_loop(s: VState, toks: Seq<TokenTree>, after_comma: bool) -> Option<VState>
    decreases toks.len(),
{
    if toks.len() == 0 {
        Some(s)
    } else {
        let rest = toks.subrange(1, toks.len() as int);
        match toks[0] {
            TokenTree::Literal(l) => if !after_comma {
                placeables_loop(s, rest, after_comma)
            } else {
                match current_literal_value(s, l@) {
                    None => None,
                    Some(Ok(v)) => placeables_loop(add_placeable(s, v), rest, after_comma),
                    Some(Err(e)) => Some(clear_all(push_error(s, e))),
                }
            },
            TokenTree::Punct(p) => placeables_loop(s, rest, p == ','),
            _ => placeables_loop(s, rest, after_comma),
        }
    }
}

/// Whether `t` is the punctuation `c`.
pub open spec fn is_punct(t: TokenTree, c: char) -> bool {
    t matches TokenTree::Punct(p) && p == c
}

/// `s` after reading the placeables argument of the macro arguments `g`,
/// which follows the message expression read in `n` tokens.
pub open spec fn read_placeables(s: VState, g: Seq<TokenTree>, n: int) -> Option<VState> {
    if n <= g.len() {
        let n2 = if n < g.len() && is_punct(g[n], ',') {
            n + 1
        } else if n < g.len() && is_punct(g[n], '#') {
            n + 2
        } else {
            n
        };
        if n2 < g.len() {
            match g[n2] {
                TokenTree::Group(ag) => if ag@.len() >= 4 {
                    placeables_loop(s, ag@, true)
                } else {
                    Some(s)
                },
                _ => Some(s),
            }
        } else {
            Some(s)
        }
    } else {
        Some(s)
    }
}

/// The translation macros that the messages `m` of the macro call `name`
/// in the file `file_path` stand for.
pub open spec fn messages_macros(m: MessagesV, name: Seq<char>, file_path: Seq<char>) -> Seq<MacroV> {
    match m {
        MessagesV::Single(message_name, placeables) => seq![
            MacroV { name, message_name, placeables, file_path },
        ],
        MessagesV::Conditional(ms) => Seq::new(
            ms.len(),
            |k: int|
                MacroV {
                    name,
                    message_name: ms[k].message_name,
                    placeables: ms[k].placeables,
                    file_path,
                },
        ),
    }
}

/// `found` with each macro of `news` added, in order, unless already there.
pub open spec fn add_macros(found: Seq<MacroV>, news: Seq<MacroV>) -> Seq<MacroV>
    decreases news.len(),
{
    if news.len() == 0 {
        found
    } else {
        let prev = add_macros(found, news.drop_last());
        if prev.contains(news.last()) {
            prev
        } else {
            prev.push(news.last())
        }
    }
}

/// `s` at the end of a macro call: the macros of its messages recorded.
pub open spec fn finish_macro(s: VState) -> Option<VState> {
    match s.messages {
        Some(m) => match s.tr_macro {
            Some(name) => Some(
                clear_all(
                    VState {
                        tr_macros: add_macros(s.tr_macros, messages_macros(m, name, s.file_path)),
                        ..s
                    },
                ),
            ),
            None => None,
        },
        None => Some(clear_macro(s)),
    }
}

/// `s` after reading the arguments group `g` of a translation macro call.
pub open spec fn macro_group(s: VState, g: Seq<TokenTree>) -> Option<VState> {
    match read_message(s, g) {
        None => None,
        Some((s1, n, skip)) => if skip {
            Some(s1)
        } else if n == 0 {
            Some(clear_all(s1))
        } else {
            match read_placeables(s1, g, n) {
                None => None,
                Some(s2) => finish_macro(s2),
            }
        },
    }
}

/// `s` after reading the tokens `toks` (`None` for a panic).
pub open spec fn scan(s: VState, toks: Seq<TokenTree>) -> Option<VState>
    decreases toks,
{
    if toks.len() == 0 {
        Some(s)
    } else {
        match step(s, toks[0]) {
            Some(s2) => scan(s2, toks.subrange(1, toks.len() as int)),
            None => None,
        }
    }
}

/// `s` after reading the token `t` (`None` for a panic).
pub open spec fn step(s: VState, t: TokenTree) -> Option<VState>
    decreases t,
{
    match t {
        TokenTree::Ident(id) => if id@ == "move_tr"@ || id@ == "tr"@ {
            Some(VState { tr_macro: Some(id@), ..s })
        } else {
            Some(s)
        },
        TokenTree::Punct(c) => if s.tr_macro is Some && s.punct is None {
            Some(VState { punct: Some(c), ..s })
        } else {
            Some(s)
        },
        TokenTree::Literal(_) => Some(s),
        TokenTree::Group(g) => if s.tr_macro is None {
            proof {
                broadcast use vstd::std_specs::vec::axiom_vec_decreases_to_view;
            }
            scan(s, g@)
        } else {
            match s.punct {
                Some(p) => if p != '!' {
                    Some(clear_macro(s))
                } else {
                    macro_group(s, g@)
                },
                None => Some(VState { tr_macro: None, ..s }),
            }
        },
    }
}

/// The state after the stream of tokens scanned in `toks`, one group
/// after the other; tokens that are no group are passed over.
pub open spec fn scan_groups(s: VState, toks: Seq<TokenTree>) -> Option<VState>
    decreases toks.len(),
{
    if toks.len() == 0 {
        Some(s)
    } else {
        let rest = toks.subrange(1, toks.len() as int);
        match toks[0] {
            TokenTree::Group(g) => match scan(s, g@) {
                Some(s1) => scan_groups(s1, rest),
                None => None,
            },
            _ => scan_groups(s, rest),
        }
    }
}

/// The tokens of a statement without its first two.
pub open spec fn skip_two(toks: Seq<TokenTree>) -> Seq<TokenTree> {
    if toks.len() >= 2 {
        toks.skip(2)
    } else {
        Seq::empty()
    }
}

/// The message for importing a translation macro under another name.
pub open spec fn rename_macro_error(ident: Seq<char>, rename: Seq<char>) -> Seq<char> {
    "Importing `"@ + ident + "` as `"@ + rename
        + "` is not allowed because breaks leptos-fluent's compile-time checking of translations."@
}

/// The message for importing `leptos_fluent` under another name.
pub open spec fn rename_crate_error(rename: Seq<char>) -> Seq<char> {
    "Importing `leptos-fluent` as `"@ + rename
        + "` is not allowed because breaks leptos-fluent's compile-time checking of translations."@
}

/// The message for importing something as a translation macro's name.
pub open spec fn rename_to_macro_error(rename: Seq<char>) -> Seq<char> {
    "Importing as `"@ + rename
        + "` is not allowed because breaks leptos-fluent's compile-time checking of translations."@
}

/// The message for importing a translation macro from elsewhere than
/// `leptos_fluent`.
pub open spec fn foreign_macro_error(ident: Seq<char>) -> Seq<char> {
    "Importing `"@ + ident
        + "` is not allowed because breaks leptos-fluent's compile-time checking of translations."@
}

/// Whether `s` is the name of a translation macro.
pub open spec fn is_tr_macro_name(s: Seq<char>) -> bool {
    s == "tr"@ || s == "move_tr"@
}

/// `s` after a `use` item renames `ident` as `rename`.
pub open spec fn use_rename(s: VState, ident: Seq<char>, rename: Seq<char>) -> VState {
    if s.use_path_is_leptos_fluent {
        if is_tr_macro_name(ident) {
            VState { errors: s.errors.push(rename_macro_error(ident, rename)), ..s }
        } else {
            s
        }
    } else if ident == "leptos_fluent"@ {
        VState { errors: s.errors.push(rename_crate_error(rename)), ..s }
    } else if is_tr_macro_name(rename) {
        VState { errors: s.errors.push(rename_to_macro_error(rename)), ..s }
    } else {
        s
    }
}

/// `s` at the start of a `use` item: no path of it has been read yet.
pub open spec fn use_item(s: VState) -> VState {
    VState { use_path_is_leptos_fluent: false, ..s }
}

/// `s` after a `use` path goes through `ident`.
pub open spec fn use_path(s: VState, ident: Seq<char>) -> VState {
    VState { use_path_is_leptos_fluent: ident == "leptos_fluent"@, ..s }
}

/// `s` after a `use` item names `ident`.
pub open spec fn use_name(s: VState, ident: Seq<char>) -> VState {
    if !s.use_path_is_leptos_fluent && is_tr_macro_name(ident) {
        VState { errors: s.errors.push(foreign_macro_error(ident)), ..s }
    } else {
        s
    }
}

// ---------------------------------------------------------------------------
// Executable state
// ---------------------------------------------------------------------------

/// One message of a conditional translation macro call.
pub struct ConditionalMessage {
    pub condition: String,
    pub message_name: String,
    pub placeables: Vec<String>,
}

impl View for ConditionalMessage {
    type V = CondV;

    open spec fn view(&self) -> CondV {
        CondV {
            condition: self.condition@,
            message_name: self.message_name@,
            placeables: text::strs_of(self.placeables@),
        }
    }
}

/// The messages of the translation macro call being read.
pub enum CurrentMessages {
    /// `tr!("text-id", { "placeable1" => "value1" })`
    Single(String, Vec<String>),
    /// `tr!(if foo { "text-id-foo" } else { "text-id-bar" }, { .. })`
    Conditional(Vec<ConditionalMessage>),
}

impl View for CurrentMessages {
    type V = MessagesV;

    open spec fn view(&self) -> MessagesV {
        match self {
            CurrentMessages::Single(m, ps) => MessagesV::Single(m@, text::strs_of(ps@)),
            CurrentMessages::Conditional(ms) => MessagesV::Conditional(
                Seq::new(ms@.len(), |k: int| ms@[k]@),
            ),
        }
    }
}

/// A visitor that gathers the translation macro calls of a Rust file, and
/// the errors in them, from the token streams and `use` items that it is
/// shown.
pub struct TranslationsMacrosVisitor {
    pub tr_macros: Vec<TranslationMacro>,
    pub errors: Vec<String>,
    current_tr_macro: Option<String>,
    current_tr_macro_punct: Option<char>,
    current_messages: Option<CurrentMessages>,
    current_use_path_is_leptos_fluent: bool,
    file_path: String,
}

/// The model of an optional string.
pub open spec fn opt_str(o: Option<String>) -> Option<Seq<char>> {
    match o {
        Some(s) => Some(s@),
        None => None,
    }
}

/// The model of optional messages.
pub open spec fn opt_messages(o: Option<CurrentMessages>) -> Option<MessagesV> {
    match o {
        Some(m) => Some(m@),
        None => None,
    }
}

/// The models of a sequence of translation macros.
pub open spec fn macros_of(v: Seq<TranslationMacro>) -> Seq<MacroV> {
    Seq::new(v.len(), |i: int| v[i]@)
}

impl View for TranslationsMacrosVisitor {
    type V = VState;

    closed spec fn view(&self) -> VState {
        VState {
            tr_macros: macros_of(self.tr_macros@),
            errors: text::strs_of(self.errors@),
            tr_macro: opt_str(self.current_tr_macro),
            punct: self.current_tr_macro_punct,
            messages: opt_messages(self.current_messages),
            use_path_is_leptos_fluent: self.current_use_path_is_leptos_fluent,
            file_path: self.file_path@,
        }
    }
}

/// The state of a new visitor for the file `file_path`.
pub open spec fn initial_state(file_path: Seq<char>) -> VState {
    VState {
        tr_macros: seq![],
        errors: seq![],
        tr_macro: None,
        punct: None,
        messages: None,
        use_path_is_leptos_fluent: false,
        file_path,
    }
}

/// `str::get`: the subslice `s[from..to]` (by bytes), or `None` where
/// indexing with these bounds panics: when they are out of order, out of
/// range, or not on character boundaries.
#[verifier::external_body]
pub(crate) fn str_get<'a>(s: &'a str, from: usize, to: usize) -> (r: Option<&'a str>)
    ensures
        r is Some <==> (from <= to <= encode_utf8(s@).len() && is_char_boundary(
            encode_utf8(s@),
            from as int,
        ) && is_char_boundary(encode_utf8(s@), to as int)),
        r matches Some(t) ==> encode_utf8(t@) == encode_utf8(s@).subrange(from as int, to as int),
{
    s.get(from..to)
}

/// `str::len`: the length of `s` in bytes, which is the length of its
/// UTF-8 encoding; a string slice never exceeds `isize::MAX` bytes.
#[verifier::external_body]
pub(crate) fn byte_len(s: &str) -> (n: usize)
    ensures
        n as int == encode_utf8(s@).len(),
        n <= isize::MAX,
{
    s.len()
}

fn starts_with_lit(s: &[char], p: &str) -> (r: bool)
    ensures
        r == starts_with(s@, p@),
{
    let pc = text::chars_of(p);
    if pc.len() > s.len() {
        return false;
    }
    let mut i: usize = 0;
    while i < pc.len()
        invariant
            pc@ == p@,
            pc@.len() <= s@.len(),
            i <= pc@.len(),
            forall|j: int| 0 <= j < i ==> s@[j] == pc@[j],
        decreases pc@.len() - i,
    {
        if s[i] != pc[i] {
            assert(s@.subrange(0, pc@.len() as int)[i as int] != p@[i as int]);
            return false;
        }
        i = i + 1;
    }
    assert(s@.subrange(0, pc@.len() as int) =~= p@);
    true
}

fn cut<'a>(lit: &'a str, from: usize, back: usize) -> (r: Option<&'a str>)
    ensures
        match r {
            Some(v) => cut_bytes(encode_utf8(lit@), from as int, back as int) == Some(v@),
            None => cut_bytes(encode_utf8(lit@), from as int, back as int) is None,
        },
{
    let n = byte_len(lit);
    if n < back {
        return None;
    }
    match str_get(lit, from, n - back) {
        Some(v) => {
            proof {
                vstd::utf8::encode_utf8_decode_utf8(v@);
            }
            Some(v)
        },
        None => None,
    }
}

fn literal_error_message(lit: &str, macro_name: &str) -> (r: String)
    ensures
        r@ == literal_error(lit@, macro_name@),
{
    let mut m = String::from_str("Literal `");
    text::push_str(&mut m, lit);
    text::push_str(&mut m, "` at `");
    text::push_str(&mut m, macro_name);
    text::push_str(&mut m, "!` macro must be a string literal");
    m
}

/// Whether `s` ends with `p`.
pub open spec fn ends_with(s: Seq<char>, p: Seq<char>) -> bool {
    p.len() <= s.len() && s.skip(s.len() - p.len()) == p
}

/// `s` without the prefix `pre` and then without the suffix `suf`, or
/// `None` where either is missing.
pub open spec fn strip_both(s: Seq<char>, pre: Seq<char>, suf: Seq<char>) -> Option<Seq<char>> {
    if starts_with(s, pre) && ends_with(s.skip(pre.len() as int), suf) {
        Some(s.skip(pre.len() as int).take(s.len() - pre.len() - suf.len()))
    } else {
        None
    }
}

proof fn lemma_encode_concat(a: Seq<char>, b: Seq<char>)
    ensures
        encode_utf8(a + b) == encode_utf8(a) + encode_utf8(b),
    decreases a.len(),
{
    if a.len() == 0 {
        assert(a + b =~= b);
        assert(encode_utf8(a) + encode_utf8(b) =~= encode_utf8(b));
    } else {
        lemma_encode_concat(a.drop_first(), b);
        assert((a + b).drop_first() =~= a.drop_first() + b);
        assert((a + b)[0] == a[0]);
        assert(encode_utf8(a + b) =~= encode_scalar(a[0] as u32) + (encode_utf8(a.drop_first())
            + encode_utf8(b)));
    }
}

proof fn lemma_boundary_concat(a: Seq<char>, b: Seq<char>)
    ensures
        is_char_boundary(encode_utf8(a + b), encode_utf8(a).len() as int),
    decreases a.len(),
{
    broadcast use vstd::utf8::encode_utf8_valid_utf8;

    let ab = a + b;
    let bytes = encode_utf8(ab);
    lemma_encode_concat(a, b);
    if a.len() > 0 {
        vstd::utf8::encode_utf8_first_scalar(ab);
        assert(ab[0] == a[0]);
        assert(ab.drop_first() =~= a.drop_first() + b);
        assert(pop_first_scalar(bytes) =~= encode_utf8(ab.drop_first()));
        lemma_boundary_concat(a.drop_first(), b);
        assert(encode_utf8(a) =~= encode_scalar(a[0] as u32) + encode_utf8(a.drop_first()));
    }
}

/// Slicing by bytes behind an ASCII prefix of `a` characters and before an
/// ASCII suffix of `b` characters cuts out the characters between them.
proof fn lemma_cut_ascii(lit: Seq<char>, a: int, b: int)
    requires
        0 <= a,
        0 <= b,
        a + b <= lit.len(),
        is_ascii_chars(lit.take(a)),
        is_ascii_chars(lit.skip(lit.len() - b)),
    ensures
        cut_bytes(encode_utf8(lit), a, b) == Some(lit.subrange(a, lit.len() - b)),
{
    broadcast use vstd::utf8::encode_utf8_decode_utf8;

    let p = lit.take(a);
    let m = lit.subrange(a, lit.len() - b);
    let q = lit.skip(lit.len() - b);
    assert(p + (m + q) =~= lit);
    assert((p + m) + q =~= lit);
    lemma_encode_concat(p, m);
    lemma_encode_concat(m, q);
    lemma_encode_concat(p, m + q);
    lemma_encode_concat(p + m, q);
    vstd::utf8::is_ascii_chars_encode_utf8(p);
    vstd::utf8::is_ascii_chars_encode_utf8(q);
    lemma_boundary_concat(p, m + q);
    lemma_boundary_concat(p + m, q);
    let bytes = encode_utf8(lit);
    assert(bytes.subrange(a, bytes.len() - b) =~= encode_utf8(m));
}

proof fn lemma_hashes_from(s: Seq<char>, i: int)
    requires
        0 <= i <= s.len(),
    ensures
        i + hashes_from(s, i) <= s.len(),
        forall|j: int| i <= j < i + hashes_from(s, i) ==> s[j] == '#',
        i + hashes_from(s, i) < s.len() ==> s[i + hashes_from(s, i)] != '#',
    decreases s.len() - i,
{
    if i < s.len() && s[i] == '#' {
        lemma_hashes_from(s, i + 1);
    }
}

proof fn lemma_hashes_count(s: Seq<char>, i: int, n: nat)
    requires
        0 <= i,
        i + n < s.len(),
        forall|j: int| i <= j < i + n ==> s[j] == '#',
        s[i + n] != '#',
    ensures
        hashes_from(s, i) == n,
    decreases n,
{
    if n > 0 {
        lemma_hashes_count(s, i + 1, (n - 1) as nat);
    }
}

/// The text of `lit` (whose characters are `c`) behind its first `open`
/// characters and before a closing quote and `n` characters `#`, as a
/// subslice of `lit`; `None` where it lacks that closing.
fn strip_closing<'a>(lit: &'a str, c: &Vec<char>, open: usize, n: usize) -> (r: Option<&'a str>)
    requires
        c@ == lit@,
        open <= c@.len(),
        is_ascii_chars(c@.take(open as int)),
    ensures
        match r {
            Some(v) => strip_both(lit@, lit@.take(open as int), seq!['"'] + hashes(n as nat))
                == Some(v@),
            None => strip_both(lit@, lit@.take(open as int), seq!['"'] + hashes(n as nat)) is None,
        },
{
    let ghost close = seq!['"'] + hashes(n as nat);
    let ghost rest = lit@.skip(open as int);
    assert(starts_with(lit@, lit@.take(open as int)));
    if n >= c.len() || c.len() - open < n + 1 {
        return None;
    }
    let start = c.len() - (n + 1);
    if c[start] != '"' {
        assert(rest.skip(rest.len() - close.len())[0] != close[0]);
        return None;
    }
    let mut t: usize = 1;
    while t <= n
        invariant
            c@ == lit@,
            n < c@.len(),
            open + n + 1 <= c@.len(),
            start == c@.len() - (n + 1),
            1 <= t <= n + 1,
            rest == lit@.skip(open as int),
            close == seq!['"'] + hashes(n as nat),
            c@.len() <= usize::MAX,
            forall|j: int| start + 1 <= j < start + t ==> #[trigger] c@[j] == '#',
        decreases n + 1 - t,
    {
        assert(start + t < c@.len());
        if c[start + t] != '#' {
            assert(rest.skip(rest.len() - close.len())[t as int] == lit@[start + t]);
            assert(rest.skip(rest.len() - close.len())[t as int] != close[t as int]);
            return None;
        }
        t = t + 1;
    }
    assert(rest.skip(rest.len() - close.len()) =~= close);
    assert(lit@.skip(lit@.len() - (n + 1)) =~= close);
    assert(is_ascii_chars(close));
    proof {
        lemma_cut_ascii(lit@, open as int, n + 1);
    }
    assert(rest.take(lit@.len() - open - close.len()) =~= lit@.subrange(
        open as int,
        lit@.len() - (n + 1),
    ));
    match cut(lit, open, n + 1) {
        Some(v) => Some(v),
        None => {
            assert(false);
            None
        },
    }
}

/// The value of a raw (C) string literal whose prefix ends at `k`.
fn raw_value<'a>(lit: &'a str, c: &Vec<char>, k: usize, macro_name: &str) -> (r: Option<
    Result<&'a str, String>,
>)
    requires
        c@ == lit@,
        k <= c@.len(),
        is_ascii_chars(c@.take(k as int)),
    ensures
        match r {
            Some(Ok(v)) => raw_literal_value(lit@, k as int, macro_name@) == Some(
                Ok::<Seq<char>, Seq<char>>(v@),
            ),
            Some(Err(e)) => raw_literal_value(lit@, k as int, macro_name@) == Some(
                Err::<Seq<char>, Seq<char>>(e@),
            ),
            None => raw_literal_value(lit@, k as int, macro_name@) is None,
        },
{
    let mut j: usize = k;
    while j < c.len() && c[j] == '#'
        invariant
            c@ == lit@,
            k <= j <= c@.len(),
            hashes_from(c@, k as int) == (j - k) + hashes_from(c@, j as int),
            forall|i: int| k <= i < j ==> c@[i] == '#',
        decreases c@.len() - j,
    {
        j = j + 1;
    }
    assert(hashes_from(c@, j as int) == 0);
    let n = j - k;
    if j < c.len() && c[j] == '"' {
        assert(c@.take(j + 1) =~= c@.take(k as int) + c@.subrange(k as int, j + 1));
        assert(is_ascii_chars(c@.take(j + 1))) by {
            assert forall|i: int| 0 <= i < j + 1 implies '\0' <= #[trigger] c@.take(j + 1)[i]
                <= '\u{7f}' by {
                if i < k {
                    assert(c@.take(j + 1)[i] == c@.take(k as int)[i]);
                }
            }
        }
        match strip_closing(lit, c, j + 1, n) {
            Some(v) => Some(Ok(v)),
            None => None,
        }
    } else {
        Some(Err(literal_error_message(lit, macro_name)))
    }
}

/// The value of a literal (see `literal_value`), with `None` where the
/// literal opens a string literal without closing it.
pub fn checked_value_from_literal_str<'a>(literal_str: &'a str, location_macro_name: &str) -> (r:
    Option<Result<&'a str, String>>)
    ensures
        match r {
            Some(Ok(v)) => literal_value(literal_str@, location_macro_name@) == Some(
                Ok::<Seq<char>, Seq<char>>(v@),
            ),
            Some(Err(e)) => literal_value(literal_str@, location_macro_name@) == Some(
                Err::<Seq<char>, Seq<char>>(e@),
            ),
            None => literal_value(literal_str@, location_macro_name@) is None,
        },
{
    proof {
        reveal(literal_value);
        reveal_strlit("r");
        reveal_strlit("cr");
        reveal_strlit("c\"");
        reveal_strlit("\"");
    }
    let c = text::chars_of(literal_str);
    if starts_with_lit(c.as_slice(), "r") {
        assert(c@.take(1) =~= "r"@);
        raw_value(literal_str, &c, 1, location_macro_name)
    } else if starts_with_lit(c.as_slice(), "cr") {
        assert(c@.take(2) =~= "cr"@);
        raw_value(literal_str, &c, 2, location_macro_name)
    } else if starts_with_lit(c.as_slice(), "c\"") {
        assert(c@.take(2) =~= "c\""@);
        assert(seq!['"'] + hashes(0) =~= "\""@);
        match strip_closing(literal_str, &c, 2, 0) {
            Some(v) => Some(Ok(v)),
            None => None,
        }
    } else if starts_with_lit(c.as_slice(), "\"") {
        assert(c@.take(1) =~= "\""@);
        assert(seq!['"'] + hashes(0) =~= "\""@);
        match strip_closing(literal_str, &c, 1, 0) {
            Some(v) => Some(Ok(v)),
            None => None,
        }
    } else {
        Some(Err(literal_error_message(literal_str, location_macro_name)))
    }
}

/// Converts a literal to a string, removing the quotes and the string type
/// characters; a literal of another kind gives an error message.
pub fn value_from_literal_str<'a>(literal_str: &'a str, location_macro_name: &str) -> (r: Result<
    &'a str,
    String,
>)
    requires
        literal_value(literal_str@, location_macro_name@) is Some,
    ensures
        match r {
            Ok(v) => literal_value(literal_str@, location_macro_name@) == Some(
                Ok::<Seq<char>, Seq<char>>(v@),
            ),
            Err(e) => literal_value(literal_str@, location_macro_name@) == Some(
                Err::<Seq<char>, Seq<char>>(e@),
            ),
        },
{
    match checked_value_from_literal_str(literal_str, location_macro_name) {
        Some(r) => r,
        None => {
            assert(false);
            Err(String::new())
        },
    }
}

/// The value of a literal as an owned string (see `literal_value`): its
/// quotes and string type characters removed.
pub fn value_from_literal(literal_str: &str, location_macro_name: &str) -> (r: Result<String, String>)
    requires
        literal_value(literal_str@, location_macro_name@) is Some,
    ensures
        match r {
            Ok(v) => literal_value(literal_str@, location_macro_name@) == Some(
                Ok::<Seq<char>, Seq<char>>(v@),
            ),
            Err(e) => literal_value(literal_str@, location_macro_name@) == Some(
                Err::<Seq<char>, Seq<char>>(e@),
            ),
        },
{
    match value_from_literal_str(literal_str, location_macro_name) {
        Ok(v) => Ok(v.to_owned()),
        Err(e) => Err(e),
    }
}

proof fn lemma_not_prefix(lit: Seq<char>, p: Seq<char>, i: int)
    requires
        0 <= i < p.len(),
        i < lit.len(),
        lit[i] != p[i],
    ensures
        !starts_with(lit, p),
{
    if starts_with(lit, p) {
        assert(lit.subrange(0, p.len() as int)[i] == p[i]);
    }
}

/// The value of a raw literal with `n` characters `#` around its quotes,
/// behind the prefix `pre` (`r` or `cr`), is the text between its quotes.
proof fn lemma_raw_literal(pre: Seq<char>, s: Seq<char>, n: nat, macro_name: Seq<char>)
    ensures
        ({
            let lit = pre + hashes(n) + seq!['"'] + s + seq!['"'] + hashes(n);
            raw_literal_value(lit, pre.len() as int, macro_name) == Some(
                Ok::<Seq<char>, Seq<char>>(s),
            )
        }),
{
    let k = pre.len() as int;
    let lit = pre + hashes(n) + seq!['"'] + s + seq!['"'] + hashes(n);
    assert(lit[k + n] == '"');
    assert forall|j: int| k <= j < k + n implies lit[j] == '#' by {}
    lemma_hashes_count(lit, k, n);
    let open = lit.take(k + n + 1);
    let close = seq!['"'] + hashes(n);
    let rest = lit.skip(open.len() as int);
    assert(lit.subrange(0, open.len() as int) =~= open);
    assert(rest =~= s + close);
    assert(rest.skip(rest.len() - close.len()) =~= close);
    assert(rest.take(lit.len() - open.len() - close.len()) =~= s);
}

/// The value of a string literal is the text between its quotes: `"s"`,
/// `c"s"`, and `r"s"`, `r#"s"#`, `r##"s"##`, ... and their C forms
/// `cr"s"`, `cr#"s"#`, ... all give `s`.
pub proof fn law_string_literal_values(s: Seq<char>, n: nat, macro_name: Seq<char>)
    ensures
        literal_value("\""@ + s + "\""@, macro_name) == Some(Ok::<Seq<char>, Seq<char>>(s)),
        literal_value("c\""@ + s + "\""@, macro_name) == Some(Ok::<Seq<char>, Seq<char>>(s)),
        literal_value("r"@ + hashes(n) + seq!['"'] + s + seq!['"'] + hashes(n), macro_name) == Some(
            Ok::<Seq<char>, Seq<char>>(s),
        ),
        literal_value("cr"@ + hashes(n) + seq!['"'] + s + seq!['"'] + hashes(n), macro_name)
            == Some(Ok::<Seq<char>, Seq<char>>(s)),
{
    reveal(literal_value);
    reveal_strlit("\"");
    reveal_strlit("r");
    reveal_strlit("cr");
    reveal_strlit("c\"");
    let q = "\""@ + s + "\""@;
    lemma_not_prefix(q, "r"@, 0);
    lemma_not_prefix(q, "cr"@, 0);
    lemma_not_prefix(q, "c\""@, 0);
    assert(q.subrange(0, 1) =~= "\""@);
    assert(q.skip(1) =~= s + "\""@);
    assert(q.skip(1).skip(q.skip(1).len() - 1) =~= "\""@);
    assert(q.skip(1).take(q.len() - 2) =~= s);
    let c = "c\""@ + s + "\""@;
    lemma_not_prefix(c, "r"@, 0);
    lemma_not_prefix(c, "cr"@, 1);
    assert(c.subrange(0, 2) =~= "c\""@);
    assert(c.skip(2) =~= s + "\""@);
    assert(c.skip(2).skip(c.skip(2).len() - 1) =~= "\""@);
    assert(c.skip(2).take(c.len() - 3) =~= s);
    lemma_raw_literal("r"@, s, n, macro_name);
    assert("r"@ + hashes(n) + seq!['"'] + s + seq!['"'] + hashes(n) =~= "r"@ + hashes(n) + seq![
        '"',
    ] + s + seq!['"'] + hashes(n));
    let r = "r"@ + hashes(n) + seq!['"'] + s + seq!['"'] + hashes(n);
    assert(r.subrange(0, 1) =~= "r"@);
    lemma_raw_literal("cr"@, s, n, macro_name);
    let cr = "cr"@ + hashes(n) + seq!['"'] + s + seq!['"'] + hashes(n);
    lemma_not_prefix(cr, "r"@, 0);
    assert(cr.subrange(0, 2) =~= "cr"@);
}

/// The model of an optional literal value.
pub open spec fn value_view(r: Option<Result<String, String>>) -> Option<Result<Seq<char>, Seq<char>>> {
    match r {
        Some(Ok(v)) => Some(Ok(v@)),
        Some(Err(e)) => Some(Err(e@)),
        None => None,
    }
}

/// The models of a sequence of conditional messages.
pub open spec fn conds_of(ms: Seq<ConditionalMessage>) -> Seq<CondV> {
    Seq::new(ms.len(), |k: int| ms[k]@)
}

fn find_condition_exec(ms: &Vec<ConditionalMessage>, cond: &String) -> (r: Option<usize>)
    ensures
        match r {
            Some(k) => find_condition(conds_of(ms@), cond@) == Some(k as int),
            None => find_condition(conds_of(ms@), cond@) is None,
        },
{
    let ghost cv = conds_of(ms@);
    let mut i: usize = 0;
    while i < ms.len()
        invariant
            i <= ms@.len(),
            cv == conds_of(ms@),
            find_condition(cv, cond@) == find_condition_from(cv, cond@, i as int),
        decreases ms@.len() - i,
    {
        if ms[i].condition == *cond {
            assert(cv[i as int].condition == cond@);
            return Some(i);
        }
        i = i + 1;
    }
    None
}

impl TranslationsMacrosVisitor {
    /// A new visitor for the file `file_path`, with nothing found yet.
    pub fn new(file_path: String) -> (v: Self)
        ensures
            v@ == initial_state(file_path@),
    {
        let v = TranslationsMacrosVisitor {
            tr_macros: Vec::new(),
            errors: Vec::new(),
            current_tr_macro: None,
            current_tr_macro_punct: None,
            current_messages: None,
            current_use_path_is_leptos_fluent: false,
            file_path,
        };
        assert(macros_of(v.tr_macros@) =~= Seq::<MacroV>::empty());
        assert(text::strs_of(v.errors@) =~= Seq::<Seq<char>>::empty());
        v
    }

    /// A new visitor for the source file `file_path`, which names it by its
    /// path relative to the workspace `workspace_path`. Making one panics
    /// where there is no such relative path, which `requires` leaves out
    /// (see `checked_for_file`).
    pub fn for_file(file_path: &str, workspace_path: &str) -> (v: Self)
        requires
            fluent_entries::relative_path(file_path@, workspace_path@) is Some,
        ensures
            v@ == initial_state(fluent_entries::relative_path(file_path@, workspace_path@)->0),
    {
        match fluent_entries::diff_paths(file_path, workspace_path) {
            Some(rel) => Self::new(rel),
            None => {
                assert(false);
                Self::new(String::new())
            },
        }
    }

    /// A new visitor for the source file `file_path` (see `for_file`), or
    /// `None` where the file has no path relative to the workspace.
    pub fn checked_for_file(file_path: &str, workspace_path: &str) -> (r: Option<Self>)
        ensures
            match r {
                Some(v) => fluent_entries::relative_path(file_path@, workspace_path@) == Some(
                    v@.file_path,
                ) && v@ == initial_state(v@.file_path),
                None => fluent_entries::relative_path(file_path@, workspace_path@) is None,
            },
    {
        match fluent_entries::diff_paths(file_path, workspace_path) {
            Some(_) => Some(Self::for_file(file_path, workspace_path)),
            None => None,
        }
    }

    /// The translation macros found so far.
    pub fn found_macros(&self) -> (r: &Vec<TranslationMacro>)
        ensures
            macros_of(r@) == self@.tr_macros,
    {
        &self.tr_macros
    }

    /// The errors found so far.
    pub fn found_errors(&self) -> (r: &Vec<String>)
        ensures
            text::strs_of(r@) == self@.errors,
    {
        &self.errors
    }

    fn push_error(&mut self, e: String)
        ensures
            final(self)@ == push_error(old(self)@, e@),
    {
        if !text::contains_string(&self.errors, &e) {
            let ghost before = text::strs_of(self.errors@);
            let ghost ev = e@;
            self.errors.push(e);
            assert(text::strs_of(self.errors@) =~= before.push(ev));
        }
    }

    fn clear_macro(&mut self)
        ensures
            final(self)@ == clear_macro(old(self)@),
    {
        self.current_tr_macro = None;
        self.current_tr_macro_punct = None;
    }

    fn clear_all(&mut self)
        ensures
            final(self)@ == clear_all(old(self)@),
    {
        self.current_tr_macro = None;
        self.current_tr_macro_punct = None;
        self.current_messages = None;
    }

    fn current_literal_value(&self, lit: &String) -> (r: Option<Result<String, String>>)
        ensures
            value_view(r) == current_literal_value(self@, lit@),
    {
        match &self.current_tr_macro {
            None => None,
            Some(name) => match checked_value_from_literal_str(lit.as_str(), name.as_str()) {
                Some(Ok(v)) => Some(Ok(String::from_str(v))),
                Some(Err(e)) => Some(Err(e)),
                None => None,
            },
        }
    }

    fn add_conditional(&mut self, cond: String, v: String)
        ensures
            final(self)@ == add_conditional(old(self)@, cond@, v@),
    {
        let ghost s0 = self@;
        let msgs = self.current_messages.take();
        match msgs {
            Some(CurrentMessages::Conditional(ms)) => {
                let mut ms = ms;
                let ghost msv = conds_of(ms@);
                assert(s0.messages == Some(MessagesV::Conditional(msv)));
                match find_condition_exec(&ms, &cond) {
                    Some(k) => {
                        proof {
                            lemma_find_condition_from_range(msv, cond@, 0);
                        }
                        let mut m = ms.remove(k);
                        let ghost mv = m@;
                        let ghost vv = v@;
                        m.placeables.push(v);
                        assert(text::strs_of(m.placeables@) =~= mv.placeables.push(vv));
                        ms.insert(k, m);
                        assert(conds_of(ms@) =~= msv.update(
                            k as int,
                            CondV { placeables: msv[k as int].placeables.push(vv), ..msv[k as int] },
                        ));
                    },
                    None => {
                        let m = ConditionalMessage {
                            condition: cond,
                            message_name: v,
                            placeables: Vec::new(),
                        };
                        let ghost mv = m@;
                        assert(text::strs_of(m.placeables@) =~= Seq::<Seq<char>>::empty());
                        ms.push(m);
                        assert(conds_of(ms@) =~= msv.push(mv));
                    },
                }
                self.current_messages = Some(CurrentMessages::Conditional(ms));
                assert(self@.messages == Some(MessagesV::Conditional(conds_of(ms@))));
            },
            Some(single) => {
                self.current_messages = Some(single);
            },
            None => {
                let m = ConditionalMessage { condition: cond, message_name: v, placeables: Vec::new() };
                assert(text::strs_of(m.placeables@) =~= Seq::<Seq<char>>::empty());
                let ms = vec![m];
                assert(conds_of(ms@) =~= seq![m@]);
                self.current_messages = Some(CurrentMessages::Conditional(ms));
                assert(self@.messages == Some(MessagesV::Conditional(conds_of(ms@))));
            },
        }
        assert(self@ == add_conditional(s0, cond@, v@));
    }

    fn add_placeable(&mut self, v: &String)
        ensures
            final(self)@ == add_placeable(old(self)@, v@),
    {
        let ghost s0 = self@;
        let msgs = self.current_messages.take();
        match msgs {
            Some(CurrentMessages::Single(m, ps)) => {
                let mut ps = ps;
                let ghost before = text::strs_of(ps@);
                ps.push(v.clone());
                assert(text::strs_of(ps@) =~= before.push(v@));
                self.current_messages = Some(CurrentMessages::Single(m, ps));
            },
            Some(CurrentMessages::Conditional(ms)) => {
                let ghost msv = conds_of(ms@);
                let mut out: Vec<ConditionalMessage> = Vec::new();
                let mut i: usize = 0;
                while i < ms.len()
                    invariant
                        i <= ms@.len(),
                        msv == conds_of(ms@),
                        conds_of(out@) == Seq::new(
                            i as nat,
                            |k: int| CondV { placeables: msv[k].placeables.push(v@), ..msv[k] },
                        ),
                    decreases ms@.len() - i,
                {
                    let mut ps = text::clone_strings(&ms[i].placeables);
                    ps.push(v.clone());
                    let m = ConditionalMessage {
                        condition: ms[i].condition.clone(),
                        message_name: ms[i].message_name.clone(),
                        placeables: ps,
                    };
                    assert(text::strs_of(m.placeables@) =~= msv[i as int].placeables.push(v@));
                    let ghost before = conds_of(out@);
                    let ghost mv = m@;
                    out.push(m);
                    i = i + 1;
                    assert(conds_of(out@) =~= before.push(mv));
                }
                self.current_messages = Some(CurrentMessages::Conditional(out));
                assert(conds_of(out@) =~= Seq::new(
                    msv.len(),
                    |k: int| CondV { placeables: msv[k].placeables.push(v@), ..msv[k] },
                ));
                assert(self@.messages == Some(MessagesV::Conditional(conds_of(out@))));
            },
            None => {},
        }
        assert(self@ == add_placeable(s0, v@));
    }
}

/// `Vec::len` of a token vector. A vector of tokens takes more than one byte
/// per token, and std keeps the bytes of a vector within `isize::MAX`, so the
/// length is within that bound too.
#[verifier::external_body]
fn token_count(v: &Vec<TokenTree>) -> (n: usize)
    ensures
        n == v@.len(),
        n <= isize::MAX,
{
    v.len()
}

proof fn lemma_skip_step(g: Seq<TokenTree>, i: int)
    requires
        0 <= i < g.len(),
    ensures
        g.skip(i).len() > 0,
        g.skip(i)[0] == g[i],
        g.skip(i).subrange(1, g.skip(i).len() as int) == g.skip(i + 1),
{
    assert(g.skip(i).subrange(1, g.skip(i).len() as int) =~= g.skip(i + 1));
}

impl TranslationsMacrosVisitor {
    fn parse_if(&mut self, g: &Vec<TokenTree>, n0: usize) -> (r: Option<usize>)
        requires
            n0 <= g@.len(),
            g@.len() <= isize::MAX,
        ensures
            match r {
                Some(c) => parse_if(old(self)@, g@, n0 as int) == Some((final(self)@, c as int))
                    && c <= g@.len() - n0 + 1,
                None => parse_if(old(self)@, g@, n0 as int) is None,
            },
    {
        let ghost s0 = self@;
        let mut cnt: usize = 0;
        let mut cond = String::new();
        let mut i: usize = n0;
        let n = g.len();
        while i < n
            invariant
                n == g@.len(),
                n <= isize::MAX,
                n0 <= i <= n,
                i == n0 + cnt,
                s0 == old(self)@,
                parse_if(s0, g@, n0 as int) == parse_if_loop(self@, g@.skip(i as int), cnt as int, cond@),
            decreases n - i,
        {
            proof {
                lemma_skip_step(g@, i as int);
            }
            let ghost st = self@;
            let ghost c0 = cnt as int;
            let ghost cond0 = cond@;
            let ghost rest = g@.skip(i + 1);
            let tok = &g[i];
            assert(parse_if_loop(st, g@.skip(i as int), c0, cond0) == match g@[i as int] {
                TokenTree::Ident(id) => if id@ == "if"@ {
                    parse_if_loop(st, rest, c0 + 1, cond0)
                } else if id@ == "else"@ {
                    parse_if_loop(st, rest, c0 + 1, cond0 + "else "@)
                } else {
                    parse_if_loop(st, rest, c0 + 1, cond0 + id@)
                },
                TokenTree::Group(gt) => if gt@.len() != 1 {
                    parse_if_loop(st, rest, c0 + 1, cond0)
                } else {
                    match gt@[0] {
                        TokenTree::Literal(l) => match current_literal_value(st, l@) {
                            None => None,
                            Some(Ok(v)) => parse_if_loop(
                                add_conditional(st, cond0, v),
                                rest,
                                c0 + 1,
                                Seq::empty(),
                            ),
                            Some(Err(e)) => Some((clear_all(push_error(st, e)), c0 + 1)),
                        },
                        _ => parse_if_loop(st, rest, c0 + 1, cond0),
                    }
                },
                TokenTree::Punct(p) => if p == ',' {
                    Some((st, c0 + 1))
                } else if p == '#' {
                    Some((st, c0 + 2))
                } else {
                    parse_if_loop(st, rest, c0 + 1, cond0)
                },
                TokenTree::Literal(_) => parse_if_loop(st, rest, c0 + 1, cond0),
            });
            cnt = cnt + 1;
            i = i + 1;
            match tok {
                TokenTree::Ident(id) => {
                    if text::is_lit(id.as_str(), "if") {
                    } else if text::is_lit(id.as_str(), "else") {
                        text::push_str(&mut cond, "else ");
                    } else {
                        text::push_str(&mut cond, id.as_str());
                    }
                },
                TokenTree::Group(gt) => {
                    if gt.len() == 1 {
                        match &gt[0] {
                            TokenTree::Literal(l) => match self.current_literal_value(l) {
                                None => {
                                    return None;
                                },
                                Some(Ok(v)) => {
                                    let c = cond;
                                    self.add_conditional(c, v);
                                    cond = String::new();
                                },
                                Some(Err(e)) => {
                                    self.push_error(e);
                                    self.clear_all();
                                    return Some(cnt);
                                },
                            },
                            _ => {},
                        }
                    }
                },
                TokenTree::Punct(p) => {
                    if *p == ',' {
                        return Some(cnt);
                    } else if *p == '#' {
                        return Some(cnt + 1);
                    }
                },
                TokenTree::Literal(_) => {},
            }
        }
        assert(g@.skip(i as int).len() == 0);
        Some(cnt)
    }

    fn maybe_parse_if(&mut self, g: &Vec<TokenTree>, n1: usize) -> (r: Option<(usize, bool)>)
        requires
            g@.len() <= isize::MAX,
        ensures
            match r {
                Some((n, skip)) => maybe_parse_if(old(self)@, g@, n1 as int) == Some(
                    (final(self)@, n as int, skip),
                ) && n <= g@.len() + 1,
                None => maybe_parse_if(old(self)@, g@, n1 as int) is None,
            },
    {
        if n1 >= g.len() {
            return None;
        }
        let starts_if = match &g[n1] {
            TokenTree::Ident(id) => text::is_lit(id.as_str(), "if"),
            _ => false,
        };
        if starts_if {
            match self.parse_if(g, n1) {
                Some(c) => Some((n1 + c, false)),
                None => None,
            }
        } else {
            Some((n1, false))
        }
    }

    fn read_message_literal(&mut self, lit: &String, n: usize, n_err: usize) -> (r: Option<
        (usize, bool),
    >)
        ensures
            match r {
                Some((k, skip)) => read_message_literal(old(self)@, lit@, n as int, n_err as int)
                    == Some((final(self)@, k as int, skip)),
                None => read_message_literal(old(self)@, lit@, n as int, n_err as int) is None,
            },
    {
        match self.current_literal_value(lit) {
            None => None,
            Some(Ok(v)) => {
                let ps: Vec<String> = Vec::new();
                assert(text::strs_of(ps@) =~= Seq::<Seq<char>>::empty());
                self.current_messages = Some(CurrentMessages::Single(v, ps));
                Some((n, false))
            },
            Some(Err(e)) => {
                self.push_error(e);
                Some((n_err, false))
            },
        }
    }

    fn read_message(&mut self, g: &Vec<TokenTree>) -> (r: Option<(usize, bool)>)
        requires
            g@.len() <= isize::MAX,
        ensures
            match r {
                Some((n, skip)) => read_message(old(self)@, g@) == Some((final(self)@, n as int, skip))
                    && n <= g@.len() + 4,
                None => read_message(old(self)@, g@) is None,
            },
    {
        if g.len() == 0 {
            return None;
        }
        match &g[0] {
            TokenTree::Literal(l) => self.read_message_literal(l, 2, 0),
            TokenTree::Ident(id) => {
                if text::is_lit(id.as_str(), "if") {
                    match self.parse_if(g, 0) {
                        Some(c) => Some((c, false)),
                        None => None,
                    }
                } else if g.len() < 3 {
                    Some((2, true))
                } else {
                    match &g[2] {
                        TokenTree::Ident(id2) => {
                            if text::is_lit(id2.as_str(), "if") {
                                match self.parse_if(g, 2) {
                                    Some(c) => Some((2 + c, false)),
                                    None => None,
                                }
                            } else {
                                Some((2, false))
                            }
                        },
                        TokenTree::Literal(l2) => self.read_message_literal(l2, 4, 4),
                        TokenTree::Punct(p2) => self.maybe_parse_if(
                            g,
                            if *p2 == '#' {
                                4
                            } else {
                                2
                            },
                        ),
                        TokenTree::Group(_) => Some((3, false)),
                    }
                }
            },
            TokenTree::Punct(p) => self.maybe_parse_if(
                g,
                if *p == '#' {
                    2
                } else {
                    0
                },
            ),
            TokenTree::Group(_) => Some((0, false)),
        }
    }

    fn placeables_loop(&mut self, toks: &Vec<TokenTree>) -> (ok: bool)
        ensures
            ok == placeables_loop(old(self)@, toks@, true) is Some,
            ok ==> placeables_loop(old(self)@, toks@, true) == Some(final(self)@),
    {
        let ghost s0 = self@;
        let mut after_comma = true;
        let mut i: usize = 0;
        assert(toks@.skip(0) =~= toks@);
        while i < toks.len()
            invariant
                i <= toks@.len(),
                s0 == old(self)@,
                placeables_loop(s0, toks@, true) == placeables_loop(
                    self@,
                    toks@.skip(i as int),
                    after_comma,
                ),
            decreases toks@.len() - i,
        {
            proof {
                lemma_skip_step(toks@, i as int);
            }
            let ghost st = self@;
            let ghost rest = toks@.skip(i + 1);
            assert(placeables_loop(st, toks@.skip(i as int), after_comma) == match toks@[i as int] {
                TokenTree::Literal(l) => if !after_comma {
                    placeables_loop(st, rest, after_comma)
                } else {
                    match current_literal_value(st, l@) {
                        None => None,
                        Some(Ok(v)) => placeables_loop(add_placeable(st, v), rest, after_comma),
                        Some(Err(e)) => Some(clear_all(push_error(st, e))),
                    }
                },
                TokenTree::Punct(p) => placeables_loop(st, rest, p == ','),
                _ => placeables_loop(st, rest, after_comma),
            });
            let tok = &toks[i];
            i = i + 1;
            match tok {
                TokenTree::Literal(l) => {
                    if after_comma {
                        match self.current_literal_value(l) {
                            None => {
                                return false;
                            },
                            Some(Ok(v)) => {
                                self.add_placeable(&v);
                            },
                            Some(Err(e)) => {
                                self.push_error(e);
                                self.clear_all();
                                return true;
                            },
                        }
                    }
                },
                TokenTree::Punct(p) => {
                    after_comma = *p == ',';
                },
                _ => {},
            }
        }
        assert(toks@.skip(i as int).len() == 0);
        true
    }

    fn read_placeables(&mut self, g: &Vec<TokenTree>, n: usize) -> (ok: bool)
        requires
            g@.len() <= isize::MAX,
        ensures
            ok == read_placeables(old(self)@, g@, n as int) is Some,
            ok ==> read_placeables(old(self)@, g@, n as int) == Some(final(self)@),
    {
        let gn = g.len();
        if n <= gn {
            let n2: usize = if n < gn && matches!(&g[n], TokenTree::Punct(p) if *p == ',') {
                n + 1
            } else if n < gn && matches!(&g[n], TokenTree::Punct(p) if *p == '#') {
                n + 2
            } else {
                n
            };
            if n2 < gn {
                match &g[n2] {
                    TokenTree::Group(ag) => {
                        if ag.len() >= 4 {
                            self.placeables_loop(ag)
                        } else {
                            true
                        }
                    },
                    _ => true,
                }
            } else {
                true
            }
        } else {
            true
        }
    }
}

fn macro_eq(a: &TranslationMacro, b: &TranslationMacro) -> (r: bool)
    ensures
        r == (a@ == b@),
{
    let r = a.name == b.name && a.message_name == b.message_name && text::strings_eq(
        &a.placeables,
        &b.placeables,
    ) && a.file_path == b.file_path;
    if !r {
        assert(a@ != b@) by {
            if a@ == b@ {
                assert(a.name@ == b.name@);
            }
        }
    }
    r
}

fn contains_macro(v: &Vec<TranslationMacro>, m: &TranslationMacro) -> (r: bool)
    ensures
        r == macros_of(v@).contains(m@),
{
    let mut i: usize = 0;
    while i < v.len()
        invariant
            i <= v@.len(),
            forall|j: int| 0 <= j < i ==> macros_of(v@)[j] != m@,
        decreases v@.len() - i,
    {
        if macro_eq(&v[i], m) {
            assert(macros_of(v@)[i as int] == m@);
            return true;
        }
        i = i + 1;
    }
    false
}

fn clone_macro(m: &TranslationMacro) -> (r: TranslationMacro)
    ensures
        r@ == m@,
{
    TranslationMacro {
        name: m.name.clone(),
        message_name: m.message_name.clone(),
        placeables: text::clone_strings(&m.placeables),
        file_path: m.file_path.clone(),
    }
}

fn messages_macros_exec(m: &CurrentMessages, name: &String, file_path: &String) -> (r: Vec<
    TranslationMacro,
>)
    ensures
        macros_of(r@) == messages_macros(m@, name@, file_path@),
{
    match m {
        CurrentMessages::Single(message_name, placeables) => {
            let t = TranslationMacro {
                name: name.clone(),
                message_name: message_name.clone(),
                placeables: text::clone_strings(placeables),
                file_path: file_path.clone(),
            };
            let ghost tv = t@;
            let r = vec![t];
            assert(macros_of(r@) =~= seq![tv]);
            r
        },
        CurrentMessages::Conditional(ms) => {
            let ghost msv = conds_of(ms@);
            let mut r: Vec<TranslationMacro> = Vec::new();
            let mut i: usize = 0;
            while i < ms.len()
                invariant
                    i <= ms@.len(),
                    msv == conds_of(ms@),
                    macros_of(r@) == Seq::new(
                        i as nat,
                        |k: int|
                            MacroV {
                                name: name@,
                                message_name: msv[k].message_name,
                                placeables: msv[k].placeables,
                                file_path: file_path@,
                            },
                    ),
                decreases ms@.len() - i,
            {
                let t = TranslationMacro {
                    name: name.clone(),
                    message_name: ms[i].message_name.clone(),
                    placeables: text::clone_strings(&ms[i].placeables),
                    file_path: file_path.clone(),
                };
                let ghost before = macros_of(r@);
                let ghost tv = t@;
                r.push(t);
                i = i + 1;
                assert(macros_of(r@) =~= before.push(tv));
            }
            assert(m@ == MessagesV::Conditional(msv));
            assert(macros_of(r@) =~= messages_macros(m@, name@, file_path@));
            r
        },
    }
}

impl TranslationsMacrosVisitor {
    fn add_macros(&mut self, news: &Vec<TranslationMacro>)
        ensures
            final(self)@ == (VState {
                tr_macros: add_macros(old(self)@.tr_macros, macros_of(news@)),
                ..old(self)@
            }),
    {
        let ghost s0 = self@;
        let ghost nv = macros_of(news@);
        let mut i: usize = 0;
        assert(nv.take(0) =~= Seq::<MacroV>::empty());
        while i < news.len()
            invariant
                i <= news@.len(),
                nv == macros_of(news@),
                s0 == old(self)@,
                self@ == (VState { tr_macros: add_macros(s0.tr_macros, nv.take(i as int)), ..s0 }),
            decreases news@.len() - i,
        {
            assert(nv.take(i + 1).drop_last() =~= nv.take(i as int));
            assert(nv.take(i + 1).last() == news@[i as int]@);
            if !contains_macro(&self.tr_macros, &news[i]) {
                let c = clone_macro(&news[i]);
                let ghost before = macros_of(self.tr_macros@);
                self.tr_macros.push(c);
                assert(macros_of(self.tr_macros@) =~= before.push(news@[i as int]@));
            }
            i = i + 1;
        }
        assert(nv.take(news@.len() as int) =~= nv);
    }

    fn finish_macro(&mut self) -> (ok: bool)
        ensures
            ok == finish_macro(old(self)@) is Some,
            ok ==> finish_macro(old(self)@) == Some(final(self)@),
    {
        let news: Vec<TranslationMacro>;
        match &self.current_messages {
            None => {
                self.clear_macro();
                return true;
            },
            Some(m) => match &self.current_tr_macro {
                None => {
                    return false;
                },
                Some(name) => {
                    news = messages_macros_exec(m, name, &self.file_path);
                },
            },
        }
        self.add_macros(&news);
        self.clear_all();
        true
    }

    fn macro_group(&mut self, g: &Vec<TokenTree>) -> (ok: bool)
        ensures
            ok == macro_group(old(self)@, g@) is Some,
            ok ==> macro_group(old(self)@, g@) == Some(final(self)@),
    {
        let _ = token_count(g);
        match self.read_message(g) {
            None => false,
            Some((n, skip)) => {
                if skip {
                    true
                } else if n == 0 {
                    self.clear_all();
                    true
                } else if !self.read_placeables(g, n) {
                    false
                } else {
                    self.finish_macro()
                }
            },
        }
    }

    fn scan_from(&mut self, tokens: &Vec<TokenTree>, start: usize) -> (ok: bool)
        requires
            start <= tokens@.len(),
        ensures
            ok == scan(old(self)@, tokens@.skip(start as int)) is Some,
            ok ==> scan(old(self)@, tokens@.skip(start as int)) == Some(final(self)@),
        decreases tokens@,
    {
        let ghost s0 = self@;
        let mut i: usize = start;
        while i < tokens.len()
            invariant
                start <= i <= tokens@.len(),
                s0 == old(self)@,
                scan(s0, tokens@.skip(start as int)) == scan(self@, tokens@.skip(i as int)),
            decreases tokens@.len() - i,
        {
            proof {
                lemma_skip_step(tokens@, i as int);
            }
            let ghost st = self@;
            let tok = &tokens[i];
            assert(scan(st, tokens@.skip(i as int)) == match step(st, tokens@[i as int]) {
                Some(s2) => scan(s2, tokens@.skip(i + 1)),
                None => None,
            });
            i = i + 1;
            match tok {
                TokenTree::Ident(id) => {
                    if text::is_lit(id.as_str(), "move_tr") || text::is_lit(id.as_str(), "tr") {
                        self.current_tr_macro = Some(id.clone());
                    }
                },
                TokenTree::Punct(c) => {
                    if self.current_tr_macro.is_some() && self.current_tr_macro_punct.is_none() {
                        self.current_tr_macro_punct = Some(*c);
                    }
                },
                TokenTree::Literal(_) => {},
                TokenTree::Group(g) => {
                    if self.current_tr_macro.is_none() {
                        proof {
                            broadcast use vstd::std_specs::vec::axiom_vec_decreases_to_view;
                            assert(decreases_to!(tokens@ => tokens@[i - 1]));
                        }
                        assert(g@.skip(0) =~= g@);
                        if !self.scan_from(g, 0) {
                            return false;
                        }
                    } else {
                        match self.current_tr_macro_punct {
                            Some(p) => {
                                if p != '!' {
                                    self.clear_macro();
                                } else if !self.macro_group(g) {
                                    return false;
                                }
                            },
                            None => {
                                self.current_tr_macro = None;
                            },
                        }
                    }
                },
            }
        }
        assert(tokens@.skip(i as int).len() == 0);
        true
    }

    /// Reads a token stream that may hold translation macro calls, such as
    /// the tokens of a macro or a statement. Gives `false` where reading it
    /// panics: a translation macro call with empty arguments, or a literal
    /// too short for its quotes.
    pub fn visit_maybe_macro_tokens_stream(&mut self, tokens: &Vec<TokenTree>) -> (ok: bool)
        ensures
            ok == scan(old(self)@, tokens@) is Some,
            ok ==> scan(old(self)@, tokens@) == Some(final(self)@),
    {
        assert(tokens@.skip(0) =~= tokens@);
        self.scan_from(tokens, 0)
    }
}

/// The state after a macro is visited: its whole token stream is read,
/// then each group among the tokens inside its delimiters.
pub open spec fn visit_macro_spec(s: VState, tokens: Seq<TokenTree>, inner: Seq<TokenTree>) -> Option<
    VState,
> {
    match scan(s, tokens) {
        Some(s1) => scan_groups(s1, inner),
        None => None,
    }
}

impl TranslationsMacrosVisitor {
    /// Visits a macro: `tokens` is its whole token stream (path, `!` and
    /// delimited group), `inner` the tokens inside its delimiters. Gives
    /// `false` where the reading panics.
    pub fn visit_macro(&mut self, tokens: &Vec<TokenTree>, inner: &Vec<TokenTree>) -> (ok: bool)
        ensures
            ok == visit_macro_spec(old(self)@, tokens@, inner@) is Some,
            ok ==> visit_macro_spec(old(self)@, tokens@, inner@) == Some(final(self)@),
    {
        if !self.visit_maybe_macro_tokens_stream(tokens) {
            return false;
        }
        let mut i: usize = 0;
        assert(inner@.skip(0) =~= inner@);
        while i < inner.len()
            invariant
                i <= inner@.len(),
                visit_macro_spec(old(self)@, tokens@, inner@) == scan_groups(
                    self@,
                    inner@.skip(i as int),
                ),
            decreases inner@.len() - i,
        {
            proof {
                lemma_skip_step(inner@, i as int);
            }
            let ghost st = self@;
            assert(scan_groups(st, inner@.skip(i as int)) == match inner@[i as int] {
                TokenTree::Group(g) => match scan(st, g@) {
                    Some(s2) => scan_groups(s2, inner@.skip(i + 1)),
                    None => None,
                },
                _ => scan_groups(st, inner@.skip(i + 1)),
            });
            match &inner[i] {
                TokenTree::Group(g) => {
                    if !self.visit_maybe_macro_tokens_stream(g) {
                        return false;
                    }
                },
                _ => {},
            }
            i = i + 1;
        }
        assert(inner@.skip(i as int).len() == 0);
        true
    }

    /// Visits a macro statement, whose whole token stream is `tokens`.
    pub fn visit_stmt_macro(&mut self, tokens: &Vec<TokenTree>) -> (ok: bool)
        ensures
            ok == scan(old(self)@, tokens@) is Some,
            ok ==> scan(old(self)@, tokens@) == Some(final(self)@),
    {
        self.visit_maybe_macro_tokens_stream(tokens)
    }

    /// Visits a statement, whose whole token stream is `tokens`: its tokens
    /// after the first two are read.
    pub fn visit_stmt(&mut self, tokens: &Vec<TokenTree>) -> (ok: bool)
        ensures
            ok == scan(old(self)@, skip_two(tokens@)) is Some,
            ok ==> scan(old(self)@, skip_two(tokens@)) == Some(final(self)@),
    {
        if tokens.len() >= 2 {
            self.scan_from(tokens, 2)
        } else {
            assert(tokens@.skip(tokens@.len() as int) =~= Seq::<TokenTree>::empty());
            self.scan_from(tokens, tokens.len())
        }
    }

    fn push_any_error(&mut self, e: String)
        ensures
            final(self)@ == (VState { errors: old(self)@.errors.push(e@), ..old(self)@ }),
    {
        let ghost before = text::strs_of(self.errors@);
        let ghost ev = e@;
        self.errors.push(e);
        assert(text::strs_of(self.errors@) =~= before.push(ev));
    }

    /// Visits a `use` item that renames `ident` as `rename`: renaming the
    /// translation macros, or `leptos_fluent`, or importing something as
    /// `tr` or `move_tr` is refused.
    pub fn visit_use_rename(&mut self, ident: &str, rename: &str)
        ensures
            final(self)@ == use_rename(old(self)@, ident@, rename@),
    {
        let tr_ident = text::is_lit(ident, "tr") || text::is_lit(ident, "move_tr");
        if self.current_use_path_is_leptos_fluent {
            if tr_ident {
                let mut m = String::from_str("Importing `");
                text::push_str(&mut m, ident);
                text::push_str(&mut m, "` as `");
                text::push_str(&mut m, rename);
                text::push_str(
                    &mut m,
                    "` is not allowed because breaks leptos-fluent's compile-time checking of translations.",
                );
                self.push_any_error(m);
            }
        } else if text::is_lit(ident, "leptos_fluent") {
            let mut m = String::from_str("Importing `leptos-fluent` as `");
            text::push_str(&mut m, rename);
            text::push_str(
                &mut m,
                "` is not allowed because breaks leptos-fluent's compile-time checking of translations.",
            );
            self.push_any_error(m);
        } else if text::is_lit(rename, "tr") || text::is_lit(rename, "move_tr") {
            let mut m = String::from_str("Importing as `");
            text::push_str(&mut m, rename);
            text::push_str(
                &mut m,
                "` is not allowed because breaks leptos-fluent's compile-time checking of translations.",
            );
            self.push_any_error(m);
        }
    }

    /// Starts a `use` item: what an earlier `use` item's path held is
    /// forgotten.
    pub fn visit_use_item(&mut self)
        ensures
            final(self)@ == use_item(old(self)@),
    {
        self.current_use_path_is_leptos_fluent = false;
    }

    /// Visits a path segment `ident` of a `use` item.
    pub fn visit_use_path(&mut self, ident: &str)
        ensures
            final(self)@ == use_path(old(self)@, ident@),
    {
        self.current_use_path_is_leptos_fluent = text::is_lit(ident, "leptos_fluent");
    }

    /// Visits a name `ident` imported by a `use` item: importing `tr` or
    /// `move_tr` from elsewhere than `leptos_fluent` is refused.
    pub fn visit_use_name(&mut self, ident: &str)
        ensures
            final(self)@ == use_name(old(self)@, ident@),
    {
        if !self.current_use_path_is_leptos_fluent && (text::is_lit(ident, "tr") || text::is_lit(
            ident,
            "move_tr",
        )) {
            let mut m = String::from_str("Importing `");
            text::push_str(&mut m, ident);
            text::push_str(
                &mut m,
                "` is not allowed because breaks leptos-fluent's compile-time checking of translations.",
            );
            self.push_any_error(m);
        }
    }
}

// ---------------------------------------------------------------------------
// What every visit keeps
// ---------------------------------------------------------------------------

/// Whether `a` is a prefix of `b`.
pub open spec fn is_prefix<A>(a: Seq<A>, b: Seq<A>) -> bool {
    a.len() <= b.len() && b.subrange(0, a.len() as int) == a
}

/// Whether `s2` keeps what `s` has found: its macros and errors come first
/// in those of `s2`, and it reads the same file.
pub open spec fn grows(s: VState, s2: VState) -> bool {
    &&& is_prefix(s.tr_macros, s2.tr_macros)
    &&& is_prefix(s.errors, s2.errors)
    &&& s2.file_path == s.file_path
}

/// Whether no macro is found twice in `ms`.
pub open spec fn dup_free(ms: Seq<MacroV>) -> bool {
    forall|i: int, j: int| 0 <= i < j < ms.len() ==> #[trigger] ms[i] != #[trigger] ms[j]
}

/// Whether the found macros of `s` are found once each, and, where `names`
/// holds, whether each is a call of `tr!` or `move_tr!` in the file of the
/// visitor and the current macro call, if any, is one of those two macros.
pub open spec fn state_inv(s: VState, names: bool) -> bool {
    &&& names ==> (s.tr_macro matches Some(n) ==> is_tr_macro_name(n))
    &&& names ==> forall|k: int|
        0 <= k < s.tr_macros.len() ==> is_tr_macro_name(#[trigger] s.tr_macros[k].name)
            && s.tr_macros[k].file_path == s.file_path
    &&& dup_free(s.tr_macros)
}

/// Whether the found macros of `s` are well formed: each is a call of `tr!`
/// or `move_tr!` in the file of the visitor, none is found twice, and the
/// current macro call, if any, is one of those two macros.
pub open spec fn state_ok(s: VState) -> bool {
    state_inv(s, true)
}

proof fn lemma_prefix_trans<A>(a: Seq<A>, b: Seq<A>, c: Seq<A>)
    requires
        is_prefix(a, b),
        is_prefix(b, c),
    ensures
        is_prefix(a, c),
{
    assert(c.subrange(0, a.len() as int) =~= c.subrange(0, b.len() as int).subrange(0, a.len() as int));
}

proof fn lemma_grows_trans(s1: VState, s2: VState, s3: VState)
    requires
        grows(s1, s2),
        grows(s2, s3),
    ensures
        grows(s1, s3),
{
    lemma_prefix_trans(s1.tr_macros, s2.tr_macros, s3.tr_macros);
    lemma_prefix_trans(s1.errors, s2.errors, s3.errors);
}

proof fn lemma_grows_refl(s: VState)
    ensures
        grows(s, s),
{
    assert(s.tr_macros.subrange(0, s.tr_macros.len() as int) =~= s.tr_macros);
    assert(s.errors.subrange(0, s.errors.len() as int) =~= s.errors);
}

proof fn lemma_push_error(s: VState, e: Seq<char>, names: bool)
    requires
        state_inv(s, names),
    ensures
        state_inv(push_error(s, e), names),
        grows(s, push_error(s, e)),
        push_error(s, e).tr_macro == s.tr_macro,
{
    lemma_grows_refl(s);
    assert(s.errors.push(e).subrange(0, s.errors.len() as int) =~= s.errors);
}

proof fn lemma_parse_if_loop(s: VState, toks: Seq<TokenTree>, cnt: int, cond: Seq<char>, names: bool)
    requires
        state_inv(s, names),
    ensures
        parse_if_loop(s, toks, cnt, cond) matches Some((s2, _)) ==> state_inv(s2, names) && grows(s, s2),
    decreases toks.len(),
{
    lemma_grows_refl(s);
    if toks.len() > 0 {
        let rest = toks.subrange(1, toks.len() as int);
        match toks[0] {
            TokenTree::Ident(id) => {
                lemma_parse_if_loop(s, rest, cnt + 1, cond, names);
                lemma_parse_if_loop(s, rest, cnt + 1, cond + "else "@, names);
                lemma_parse_if_loop(s, rest, cnt + 1, cond + id@, names);
            },
            TokenTree::Group(gt) => {
                lemma_parse_if_loop(s, rest, cnt + 1, cond, names);
                if gt@.len() == 1 {
                    match gt@[0] {
                        TokenTree::Literal(l) => match current_literal_value(s, l@) {
                            Some(Ok(v)) => {
                                let s1 = add_conditional(s, cond, v);
                                assert(s1.tr_macros == s.tr_macros && s1.tr_macro == s.tr_macro
                                    && s1.errors == s.errors && s1.file_path == s.file_path);
                                assert(state_inv(s1, names)) by {
                                    assert(forall|m: Option<MessagesV>|
                                        #[trigger] state_inv(VState { messages: m, ..s }, names));
                                    assert(s1 == VState { messages: s1.messages, ..s });
                                }
                                lemma_parse_if_loop(s1, rest, cnt + 1, Seq::empty(), names);
                                assert(grows(s, s1));
                                if let Some((s2, _)) = parse_if_loop(s1, rest, cnt + 1, Seq::empty()) {
                                    lemma_grows_trans(s, s1, s2);
                                }
                            },
                            Some(Err(e)) => {
                                lemma_push_error(s, e, names);
                                assert(state_inv(clear_all(push_error(s, e)), names));
                                assert(grows(s, clear_all(push_error(s, e))));
                            },
                            None => {},
                        },
                        _ => {},
                    }
                }
            },
            TokenTree::Punct(_) => {
                lemma_parse_if_loop(s, rest, cnt + 1, cond, names);
            },
            TokenTree::Literal(_) => {
                lemma_parse_if_loop(s, rest, cnt + 1, cond, names);
            },
        }
    }
}

proof fn lemma_parse_if(s: VState, g: Seq<TokenTree>, n0: int, names: bool)
    requires
        state_inv(s, names),
    ensures
        parse_if(s, g, n0) matches Some((s2, _)) ==> state_inv(s2, names) && grows(s, s2),
{
    lemma_parse_if_loop(s, g.skip(n0), 0, Seq::empty(), names);
}

proof fn lemma_read_message(s: VState, g: Seq<TokenTree>, names: bool)
    requires
        state_inv(s, names),
    ensures
        read_message(s, g) matches Some((s2, _, _)) ==> state_inv(s2, names) && grows(s, s2),
{
    lemma_grows_refl(s);
    assert forall|m: Option<MessagesV>| #[trigger] state_inv(VState { messages: m, ..s }, names)
        && grows(s, VState { messages: m, ..s }) by {}
    lemma_parse_if(s, g, 0, names);
    lemma_parse_if(s, g, 2, names);
    lemma_parse_if(s, g, 4, names);
    if g.len() > 0 {
        match g[0] {
            TokenTree::Literal(l) => {
                if let Some(Err(e)) = current_literal_value(s, l@) {
                    lemma_push_error(s, e, names);
                }
            },
            TokenTree::Ident(_) => {
                if g.len() >= 3 {
                    if let TokenTree::Literal(l2) = g[2] {
                        if let Some(Err(e)) = current_literal_value(s, l2@) {
                            lemma_push_error(s, e, names);
                        }
                    }
                }
            },
            _ => {},
        }
    }
}

proof fn lemma_placeables_loop(s: VState, toks: Seq<TokenTree>, after_comma: bool, names: bool)
    requires
        state_inv(s, names),
    ensures
        placeables_loop(s, toks, after_comma) matches Some(s2) ==> state_inv(s2, names) && grows(s, s2),
    decreases toks.len(),
{
    lemma_grows_refl(s);
    if toks.len() > 0 {
        let rest = toks.subrange(1, toks.len() as int);
        match toks[0] {
            TokenTree::Literal(l) => {
                lemma_placeables_loop(s, rest, after_comma, names);
                if after_comma {
                    match current_literal_value(s, l@) {
                        Some(Ok(v)) => {
                            let s1 = add_placeable(s, v);
                            assert(grows(s, s1));
                            lemma_placeables_loop(s1, rest, after_comma, names);
                            if let Some(s2) = placeables_loop(s1, rest, after_comma) {
                                lemma_grows_trans(s, s1, s2);
                            }
                        },
                        Some(Err(e)) => {
                            lemma_push_error(s, e, names);
                        },
                        None => {},
                    }
                }
            },
            TokenTree::Punct(p) => {
                lemma_placeables_loop(s, rest, p == ',', names);
            },
            _ => {
                lemma_placeables_loop(s, rest, after_comma, names);
            },
        }
    }
}

proof fn lemma_add_macros(found: Seq<MacroV>, news: Seq<MacroV>, file_path: Seq<char>, names: bool)
    requires
        names ==> forall|k: int|
            0 <= k < found.len() ==> is_tr_macro_name(#[trigger] found[k].name) && found[k].file_path
                == file_path,
        dup_free(found),
        names ==> forall|k: int|
            0 <= k < news.len() ==> is_tr_macro_name(#[trigger] news[k].name) && news[k].file_path
                == file_path,
    ensures
        ({
            let r = add_macros(found, news);
            &&& is_prefix(found, r)
            &&& names ==> forall|k: int|
                0 <= k < r.len() ==> is_tr_macro_name(#[trigger] r[k].name) && r[k].file_path
                    == file_path
            &&& dup_free(r)
        }),
    decreases news.len(),
{
    if news.len() == 0 {
        assert(found.subrange(0, found.len() as int) =~= found);
    } else {
        lemma_add_macros(found, news.drop_last(), file_path, names);
        let prev = add_macros(found, news.drop_last());
        if !prev.contains(news.last()) {
            let r = prev.push(news.last());
            assert(r.subrange(0, found.len() as int) =~= prev.subrange(0, found.len() as int));
            assert forall|i: int, j: int| 0 <= i < j < r.len() implies #[trigger] r[i] != #[trigger] r[j] by {
                if j == r.len() - 1 {
                    assert(prev[i] == r[i]);
                }
            }
        }
    }
}

proof fn lemma_finish_macro(s: VState, names: bool)
    requires
        state_inv(s, names),
    ensures
        finish_macro(s) matches Some(s2) ==> state_inv(s2, names) && grows(s, s2),
{
    lemma_grows_refl(s);
    if let Some(m) = s.messages {
        if let Some(name) = s.tr_macro {
            let news = messages_macros(m, name, s.file_path);
            assert(names ==> forall|k: int| 0 <= k < news.len() ==> is_tr_macro_name(
                #[trigger] news[k].name,
            ) && news[k].file_path == s.file_path);
            lemma_add_macros(s.tr_macros, news, s.file_path, names);
        }
    }
}

proof fn lemma_macro_group(s: VState, g: Seq<TokenTree>, names: bool)
    requires
        state_inv(s, names),
    ensures
        macro_group(s, g) matches Some(s2) ==> state_inv(s2, names) && grows(s, s2),
{
    lemma_read_message(s, g, names);
    if let Some((s1, n, skip)) = read_message(s, g) {
        if !skip && n != 0 {
            match read_placeables(s1, g, n) {
                Some(s2) => {
                    let n2 = if n < g.len() && is_punct(g[n], ',') {
                        n + 1
                    } else if n < g.len() && is_punct(g[n], '#') {
                        n + 2
                    } else {
                        n
                    };
                    lemma_grows_refl(s1);
                    if n <= g.len() && n2 < g.len() {
                        if let TokenTree::Group(ag) = g[n2] {
                            lemma_placeables_loop(s1, ag@, true, names);
                        }
                    }
                    lemma_grows_trans(s, s1, s2);
                    lemma_finish_macro(s2, names);
                    if let Some(s3) = finish_macro(s2) {
                        lemma_grows_trans(s, s2, s3);
                    }
                },
                None => {},
            }
        }
    }
}

proof fn lemma_scan(s: VState, toks: Seq<TokenTree>, names: bool)
    requires
        state_inv(s, names),
    ensures
        scan(s, toks) matches Some(s2) ==> state_inv(s2, names) && grows(s, s2),
    decreases toks,
{
    lemma_grows_refl(s);
    if toks.len() > 0 {
        lemma_step(s, toks[0], names);
        if let Some(s1) = step(s, toks[0]) {
            lemma_scan(s1, toks.subrange(1, toks.len() as int), names);
            if let Some(s2) = scan(s1, toks.subrange(1, toks.len() as int)) {
                lemma_grows_trans(s, s1, s2);
            }
        }
    }
}

proof fn lemma_step(s: VState, t: TokenTree, names: bool)
    requires
        state_inv(s, names),
    ensures
        step(s, t) matches Some(s2) ==> state_inv(s2, names) && grows(s, s2),
    decreases t,
{
    lemma_grows_refl(s);
    if let TokenTree::Group(g) = t {
        if s.tr_macro is None {
            broadcast use vstd::std_specs::vec::axiom_vec_decreases_to_view;

            lemma_scan(s, g@, names);
        } else if s.punct == Some('!') {
            lemma_macro_group(s, g@, names);
        } else {
            assert(state_inv(VState { tr_macro: None, ..s }, names));
            assert(state_inv(clear_macro(s), names));
        }
    } else if let TokenTree::Ident(id) = t {
        assert(state_inv(VState { tr_macro: Some(id@), ..s }, names) || !is_tr_macro_name(id@));
    } else if let TokenTree::Punct(c) = t {
        assert(state_inv(VState { punct: Some(c), ..s }, names));
    }
}

/// What the reading of a token stream keeps: the macros and errors already
/// found stay where they are, each found macro is a call of `tr!` or
/// `move_tr!` recorded with the visitor's file, and no macro is found twice.
pub proof fn law_scan_keeps_found(s: VState, toks: Seq<TokenTree>)
    requires
        state_ok(s),
    ensures
        scan(s, toks) matches Some(s2) ==> state_ok(s2) && grows(s, s2),
{
    lemma_scan(s, toks, true);
}

/// Reading a token stream or visiting a macro, from any state whose found
/// macros are found once each, keeps the macros and errors already found
/// where they are and finds no macro twice.
pub proof fn law_no_macro_found_twice(s: VState, tokens: Seq<TokenTree>, inner: Seq<TokenTree>)
    requires
        dup_free(s.tr_macros),
    ensures
        scan(s, tokens) matches Some(s2) ==> dup_free(s2.tr_macros) && grows(s, s2),
        visit_macro_spec(s, tokens, inner) matches Some(s2) ==> dup_free(s2.tr_macros) && grows(
            s,
            s2,
        ),
{
    lemma_visit_macro(s, tokens, inner, false);
}

/// A new visitor has found nothing, and its state is well formed.
pub proof fn law_initial_state_ok(file_path: Seq<char>)
    ensures
        state_ok(initial_state(file_path)),
{
}

/// Visiting a macro keeps what was found and the well-formedness of the
/// found macros.
pub proof fn law_visit_macro_keeps_found(s: VState, tokens: Seq<TokenTree>, inner: Seq<TokenTree>)
    requires
        state_ok(s),
    ensures
        visit_macro_spec(s, tokens, inner) matches Some(s2) ==> state_ok(s2) && grows(s, s2),
{
    lemma_visit_macro(s, tokens, inner, true);
}

proof fn lemma_visit_macro(s: VState, tokens: Seq<TokenTree>, inner: Seq<TokenTree>, names: bool)
    requires
        state_inv(s, names),
    ensures
        scan(s, tokens) matches Some(s2) ==> state_inv(s2, names) && grows(s, s2),
        visit_macro_spec(s, tokens, inner) matches Some(s2) ==> state_inv(s2, names) && grows(s, s2),
{
    lemma_scan(s, tokens, names);
    if let Some(s1) = scan(s, tokens) {
        lemma_scan_groups(s1, inner, names);
        if let Some(s2) = scan_groups(s1, inner) {
            lemma_grows_trans(s, s1, s2);
        }
    }
}

proof fn lemma_scan_groups(s: VState, toks: Seq<TokenTree>, names: bool)
    requires
        state_inv(s, names),
    ensures
        scan_groups(s, toks) matches Some(s2) ==> state_inv(s2, names) && grows(s, s2),
    decreases toks.len(),
{
    lemma_grows_refl(s);
    if toks.len() > 0 {
        let rest = toks.subrange(1, toks.len() as int);
        match toks[0] {
            TokenTree::Group(g) => {
                lemma_scan(s, g@, names);
                if let Some(s1) = scan(s, g@) {
                    lemma_scan_groups(s1, rest, names);
                    if let Some(s2) = scan_groups(s1, rest) {
                        lemma_grows_trans(s, s1, s2);
                    }
                }
            },
            _ => {
                lemma_scan_groups(s, rest, names);
            },
        }
    }
}

/// The `use` checks keep every found macro, and only ever add errors.
pub proof fn law_use_checks_keep_found(s: VState, ident: Seq<char>, rename: Seq<char>)
    requires
        state_ok(s),
    ensures
        state_ok(use_item(s)) && grows(s, use_item(s)),
        state_ok(use_rename(s, ident, rename)) && grows(s, use_rename(s, ident, rename)),
        state_ok(use_path(s, ident)) && grows(s, use_path(s, ident)),
        state_ok(use_name(s, ident)) && grows(s, use_name(s, ident)),
{
    lemma_grows_refl(s);
    let r = use_rename(s, ident, rename);
    assert(r.tr_macros == s.tr_macros);
    assert(r.tr_macro == s.tr_macro);
    assert(r.file_path == s.file_path);
    assert(s.errors.push(rename_macro_error(ident, rename)).subrange(0, s.errors.len() as int)
        =~= s.errors);
    assert(s.errors.push(rename_crate_error(rename)).subrange(0, s.errors.len() as int)
        =~= s.errors);
    assert(s.errors.push(rename_to_macro_error(rename)).subrange(0, s.errors.len() as int)
        =~= s.errors);
    assert(s.errors.push(foreign_macro_error(ident)).subrange(0, s.errors.len() as int)
        =~= s.errors);
}

/// Whatever `use` item came before, a `use` item that imports something as
/// `tr` or `move_tr`, outside any `leptos_fluent` path, is refused.
pub proof fn law_renaming_to_tr_macro_refused(s: VState, ident: Seq<char>, rename: Seq<char>)
    requires
        is_tr_macro_name(rename),
        ident != "leptos_fluent"@,
    ensures
        use_rename(use_item(s), ident, rename).errors == s.errors.push(
            rename_to_macro_error(rename),
        ),
{
}

} // verus!
