use vstd::prelude::*;
use crate::cookie;
use crate::text;
use crate::tr_macros;

verus! {

// ---------------------------------------------------------------------------
// Parameter values
// ---------------------------------------------------------------------------

/// The text of a token stream (an expression, a literal boolean, an
/// identifier), kept to be written back into the generated code.
pub struct TokenStreamStr(pub String);

impl TokenStreamStr {
    /// The token stream written `s`.
    pub fn from_str(s: &str) -> (r: Self)
        ensures
            r.0@ == s@,
    {
        TokenStreamStr(String::from_str(s))
    }
}

/// A parameter given as a literal boolean or an expression, possibly under
/// a configuration predicate (`#[cfg(...)]`) evaluated at runtime.
pub struct LitBoolExpr {
    pub expr: Option<TokenStreamStr>,
    pub exprpath: Option<TokenStreamStr>,
}

impl LitBoolExpr {
    /// A parameter with neither a value nor a predicate.
    pub fn new() -> (r: Self)
        ensures
            r.expr is None,
            r.exprpath is None,
    {
        LitBoolExpr { expr: None, exprpath: None }
    }
}

/// A parameter given as a literal string (its value) or an expression.
pub struct LitStrExpr {
    pub lit: Option<String>,
    pub expr: Option<TokenStreamStr>,
}

impl LitStrExpr {
    /// A parameter with no value yet.
    pub fn new() -> (r: Self)
        ensures
            r.lit is None,
            r.expr is None,
    {
        LitStrExpr { lit: None, expr: None }
    }
}

/// A parameter given as an identifier (a server function), possibly under
/// a runtime configuration predicate.
pub struct Identifier {
    pub ident: Option<TokenStreamStr>,
    pub exprpath: Option<TokenStreamStr>,
}

impl Identifier {
    /// A parameter with neither an identifier nor a predicate.
    pub fn new() -> (r: Self)
        ensures
            r.ident is None,
            r.exprpath is None,
    {
        Identifier { ident: None, exprpath: None }
    }
}

/// A parameter given as a literal boolean, possibly under a runtime
/// configuration predicate.
pub struct LitBool {
    pub lit: Option<bool>,
    pub exprpath: Option<TokenStreamStr>,
}

impl LitBool {
    /// A parameter with neither a value nor a predicate.
    pub fn new() -> (r: Self)
        ensures
            r.lit is None,
            r.exprpath is None,
    {
        LitBool { lit: None, exprpath: None }
    }
}

/// A parameter given as an expression, possibly under a runtime
/// configuration predicate.
pub struct Expr {
    pub expr: Option<TokenStreamStr>,
    pub exprpath: Option<TokenStreamStr>,
}

impl Expr {
    /// A parameter with neither an expression nor a predicate.
    pub fn new() -> (r: Self)
        ensures
            r.expr is None,
            r.exprpath is None,
    {
        Expr { expr: None, exprpath: None }
    }
}

// ---------------------------------------------------------------------------
// The parameters of the macro
// ---------------------------------------------------------------------------

/// How a parameter of the macro is given and kept.
pub enum ParamKind {
    /// `children`: an expression, kept in a list.
    Children,
    /// `translations`: the loaders.
    Translations,
    /// A path read at compile time (`locales`, `core_locales`,
    /// `languages`) or a glob (`check_translations`,
    /// `fill_translations`): a literal string.
    CompileTimeStr,
    /// A literal boolean or an expression, kept in a list.
    LitBoolExpr,
    /// A server function identifier, kept in a list.
    Identifier,
    /// A literal string or an expression (a key, a name, attributes).
    LitStrExpr,
    /// `url_path`: an identifier.
    UrlPath,
    /// `provide_meta_context`: a literal boolean, kept in a list.
    LitBool,
    /// A parameter of the 'system' feature, which this build lacks.
    RequiresSystem,
    /// No parameter of the macro.
    Invalid,
}

/// The parameters given as a literal boolean or an expression.
pub open spec fn is_lit_bool_expr_param(k: Seq<char>) -> bool {
    ||| k == "sync_html_tag_lang"@
    ||| k == "sync_html_tag_dir"@
    ||| k == "initial_language_from_url_param"@
    ||| k == "initial_language_from_url_param_to_localstorage"@
    ||| k == "initial_language_from_url_param_to_cookie"@
    ||| k == "set_language_to_url_param"@
    ||| k == "initial_language_from_localstorage"@
    ||| k == "initial_language_from_localstorage_to_cookie"@
    ||| k == "initial_language_from_localstorage_to_sessionstorage"@
    ||| k == "set_language_to_localstorage"@
    ||| k == "initial_language_from_sessionstorage"@
    ||| k == "initial_language_from_sessionstorage_to_cookie"@
    ||| k == "initial_language_from_sessionstorage_to_localstorage"@
    ||| k == "set_language_to_sessionstorage"@
    ||| k == "initial_language_from_navigator"@
    ||| k == "initial_language_from_navigator_to_localstorage"@
    ||| k == "initial_language_from_navigator_to_sessionstorage"@
    ||| k == "initial_language_from_navigator_to_cookie"@
    ||| k == "initial_language_from_accept_language_header"@
    ||| k == "set_language_from_navigator"@
    ||| k == "initial_language_from_cookie"@
    ||| k == "initial_language_from_cookie_to_localstorage"@
    ||| k == "set_language_to_cookie"@
    ||| k == "initial_language_from_server_function_to_cookie"@
    ||| k == "initial_language_from_server_function_to_localstorage"@
    ||| k == "initial_language_from_url_path"@
    ||| k == "initial_language_from_url_path_to_cookie"@
    ||| k == "initial_language_from_url_path_to_localstorage"@
}

/// The parameters given as a server function identifier.
pub open spec fn is_identifier_param(k: Seq<char>) -> bool {
    ||| k == "initial_language_from_url_param_to_server_function"@
    ||| k == "initial_language_from_localstorage_to_server_function"@
    ||| k == "initial_language_from_sessionstorage_to_server_function"@
    ||| k == "initial_language_from_navigator_to_server_function"@
    ||| k == "initial_language_from_cookie_to_server_function"@
    ||| k == "initial_language_from_server_function"@
    ||| k == "set_language_to_server_function"@
    ||| k == "initial_language_from_url_path_to_server_function"@
}

/// The parameters given as a literal string or an expression.
pub open spec fn is_lit_str_expr_param(k: Seq<char>) -> bool {
    ||| k == "url_param"@
    ||| k == "localstorage_key"@
    ||| k == "sessionstorage_key"@
    ||| k == "cookie_name"@
    ||| k == "cookie_attrs"@
    ||| k == "data_file_key"@
}

/// The parameters read at compile time from a literal string.
pub open spec fn is_compile_time_str_param(k: Seq<char>) -> bool {
    ||| k == "locales"@
    ||| k == "core_locales"@
    ||| k == "languages"@
    ||| k == "check_translations"@
    ||| k == "fill_translations"@
}

/// The parameters that need the 'system' feature.
pub open spec fn is_system_param(k: Seq<char>) -> bool {
    ||| k == "initial_language_from_system"@
    ||| k == "initial_language_from_data_file"@
    ||| k == "initial_language_from_system_to_data_file"@
    ||| k == "set_language_to_data_file"@
}

/// How the parameter `k` is given and kept.
pub open spec fn param_kind_spec(k: Seq<char>) -> ParamKind {
    if k == "children"@ {
        ParamKind::Children
    } else if k == "translations"@ {
        ParamKind::Translations
    } else if is_compile_time_str_param(k) {
        ParamKind::CompileTimeStr
    } else if is_lit_bool_expr_param(k) {
        ParamKind::LitBoolExpr
    } else if is_identifier_param(k) {
        ParamKind::Identifier
    } else if is_lit_str_expr_param(k) {
        ParamKind::LitStrExpr
    } else if k == "url_path"@ {
        ParamKind::UrlPath
    } else if k == "provide_meta_context"@ {
        ParamKind::LitBool
    } else if is_system_param(k) {
        ParamKind::RequiresSystem
    } else {
        ParamKind::Invalid
    }
}

fn is_one_of_lit_bool_expr(c: &[char]) -> (r: bool)
    ensures
        r == is_lit_bool_expr_param(c@),
{
    text::chars_are(c, "sync_html_tag_lang") || text::chars_are(c, "sync_html_tag_dir")
        || text::chars_are(c, "initial_language_from_url_param") || text::chars_are(
        c,
        "initial_language_from_url_param_to_localstorage",
    ) || text::chars_are(c, "initial_language_from_url_param_to_cookie") || text::chars_are(
        c,
        "set_language_to_url_param",
    ) || text::chars_are(c, "initial_language_from_localstorage") || text::chars_are(
        c,
        "initial_language_from_localstorage_to_cookie",
    ) || text::chars_are(c, "initial_language_from_localstorage_to_sessionstorage")
        || text::chars_are(c, "set_language_to_localstorage") || text::chars_are(
        c,
        "initial_language_from_sessionstorage",
    ) || text::chars_are(c, "initial_language_from_sessionstorage_to_cookie") || text::chars_are(
        c,
        "initial_language_from_sessionstorage_to_localstorage",
    ) || text::chars_are(c, "set_language_to_sessionstorage") || text::chars_are(
        c,
        "initial_language_from_navigator",
    ) || text::chars_are(c, "initial_language_from_navigator_to_localstorage") || text::chars_are(
        c,
        "initial_language_from_navigator_to_sessionstorage",
    ) || text::chars_are(c, "initial_language_from_navigator_to_cookie") || text::chars_are(
        c,
        "initial_language_from_accept_language_header",
    ) || text::chars_are(c, "set_language_from_navigator") || text::chars_are(
        c,
        "initial_language_from_cookie",
    ) || text::chars_are(c, "initial_language_from_cookie_to_localstorage") || text::chars_are(
        c,
        "set_language_to_cookie",
    ) || text::chars_are(c, "initial_language_from_server_function_to_cookie")
        || text::chars_are(c, "initial_language_from_server_function_to_localstorage")
        || text::chars_are(c, "initial_language_from_url_path") || text::chars_are(
        c,
        "initial_language_from_url_path_to_cookie",
    ) || text::chars_are(c, "initial_language_from_url_path_to_localstorage")
}

fn is_one_of_identifier(c: &[char]) -> (r: bool)
    ensures
        r == is_identifier_param(c@),
{
    text::chars_are(c, "initial_language_from_url_param_to_server_function") || text::chars_are(
        c,
        "initial_language_from_localstorage_to_server_function",
    ) || text::chars_are(c, "initial_language_from_sessionstorage_to_server_function")
        || text::chars_are(c, "initial_language_from_navigator_to_server_function")
        || text::chars_are(c, "initial_language_from_cookie_to_server_function")
        || text::chars_are(c, "initial_language_from_server_function") || text::chars_are(
        c,
        "set_language_to_server_function",
    ) || text::chars_are(c, "initial_language_from_url_path_to_server_function")
}

fn is_one_of_lit_str_expr(c: &[char]) -> (r: bool)
    ensures
        r == is_lit_str_expr_param(c@),
{
    text::chars_are(c, "url_param") || text::chars_are(c, "localstorage_key") || text::chars_are(
        c,
        "sessionstorage_key",
    ) || text::chars_are(c, "cookie_name") || text::chars_are(c, "cookie_attrs")
        || text::chars_are(c, "data_file_key")
}

fn is_one_of_compile_time_str(c: &[char]) -> (r: bool)
    ensures
        r == is_compile_time_str_param(c@),
{
    text::chars_are(c, "locales") || text::chars_are(c, "core_locales") || text::chars_are(
        c,
        "languages",
    ) || text::chars_are(c, "check_translations") || text::chars_are(c, "fill_translations")
}

fn is_one_of_system(c: &[char]) -> (r: bool)
    ensures
        r == is_system_param(c@),
{
    text::chars_are(c, "initial_language_from_system") || text::chars_are(
        c,
        "initial_language_from_data_file",
    ) || text::chars_are(c, "initial_language_from_system_to_data_file") || text::chars_are(
        c,
        "set_language_to_data_file",
    )
}

/// How the parameter named `k` is given and kept.
pub fn param_kind(k: &str) -> (r: ParamKind)
    ensures
        r == param_kind_spec(k@),
{
    let c = text::chars_of(k);
    if text::chars_are(c.as_slice(), "children") {
        ParamKind::Children
    } else if text::chars_are(c.as_slice(), "translations") {
        ParamKind::Translations
    } else if is_one_of_compile_time_str(c.as_slice()) {
        ParamKind::CompileTimeStr
    } else if is_one_of_lit_bool_expr(c.as_slice()) {
        ParamKind::LitBoolExpr
    } else if is_one_of_identifier(c.as_slice()) {
        ParamKind::Identifier
    } else if is_one_of_lit_str_expr(c.as_slice()) {
        ParamKind::LitStrExpr
    } else if text::chars_are(c.as_slice(), "url_path") {
        ParamKind::UrlPath
    } else if text::chars_are(c.as_slice(), "provide_meta_context") {
        ParamKind::LitBool
    } else if is_one_of_system(c.as_slice()) {
        ParamKind::RequiresSystem
    } else {
        ParamKind::Invalid
    }
}

/// Whether a parameter of kind `kind` may be written `key,` (the struct
/// field initialization shorthand), the key naming a variable.
pub open spec fn accepts_shorthand_spec(kind: ParamKind) -> bool {
    match kind {
        ParamKind::Children => true,
        ParamKind::LitBoolExpr => true,
        ParamKind::Identifier => true,
        ParamKind::LitStrExpr => true,
        ParamKind::UrlPath => true,
        _ => false,
    }
}

/// Whether a parameter of kind `kind` may be written `key,`.
pub fn accepts_shorthand(kind: &ParamKind) -> (r: bool)
    ensures
        r == accepts_shorthand_spec(*kind),
{
    match kind {
        ParamKind::Children => true,
        ParamKind::LitBoolExpr => true,
        ParamKind::Identifier => true,
        ParamKind::LitStrExpr => true,
        ParamKind::UrlPath => true,
        _ => false,
    }
}

// ---------------------------------------------------------------------------
// Error messages
// ---------------------------------------------------------------------------

/// The message for a parameter that the macro does not have.
pub open spec fn invalid_parameter_text(k: Seq<char>) -> Seq<char> {
    "Invalid parameter '"@ + k + "' for leptos_fluent! macro."@
}

/// The message for a parameter that the macro does not have.
pub fn invalid_parameter_message(k: &str) -> (r: String)
    ensures
        r@ == invalid_parameter_text(k@),
{
    let mut m = String::from_str("Invalid parameter '");
    text::push_str(&mut m, k);
    text::push_str(&mut m, "' for leptos_fluent! macro.");
    m
}

/// The message for the shorthand `key,` where it is not supported.
pub open spec fn shorthand_not_supported_text(k: Seq<char>) -> Seq<char> {
    "Struct field initialization shorthand is not supported for the parameter '"@ + k + "'."@
}

/// The message for the shorthand `key,` where it is not supported.
pub fn shorthand_not_supported_message(k: &str) -> (r: String)
    ensures
        r@ == shorthand_not_supported_text(k@),
{
    let mut m = String::from_str(
        "Struct field initialization shorthand is not supported for the parameter '",
    );
    text::push_str(&mut m, k);
    text::push_str(&mut m, "'.");
    m
}

/// The message for a parameter that needs the 'system' feature.
pub open spec fn system_feature_text(k: Seq<char>) -> Seq<char> {
    "The parameter '"@ + k + "' of leptos_fluent! macro requires the feature 'system' enabled."@
}

/// The message for a parameter that needs the 'system' feature.
pub fn system_feature_message(k: &str) -> (r: String)
    ensures
        r@ == system_feature_text(k@),
{
    let mut m = String::from_str("The parameter '");
    text::push_str(&mut m, k);
    text::push_str(&mut m, "' of leptos_fluent! macro requires the feature 'system' enabled.");
    m
}

/// The error for the parameter `k`, written `key,` where `shorthand`: that
/// the macro has no such parameter, that it needs the 'system' feature, or
/// that it cannot be written `key,`; none where it can be read.
pub open spec fn param_error_text(k: Seq<char>, shorthand: bool) -> Option<Seq<char>> {
    match param_kind_spec(k) {
        ParamKind::Invalid => Some(invalid_parameter_text(k)),
        ParamKind::RequiresSystem => Some(system_feature_text(k)),
        kind => if shorthand && !accepts_shorthand_spec(kind) {
            Some(shorthand_not_supported_text(k))
        } else {
            None
        },
    }
}

/// The error for the parameter `k`, written `key,` where `shorthand` (see
/// `param_error_text`), or none where it can be read.
pub fn param_error(k: &str, shorthand: bool) -> (r: Option<String>)
    ensures
        tr_opt(r) == param_error_text(k@, shorthand),
{
    let kind = param_kind(k);
    match kind {
        ParamKind::Invalid => Some(invalid_parameter_message(k)),
        ParamKind::RequiresSystem => Some(system_feature_message(k)),
        _ => if shorthand && !accepts_shorthand(&kind) {
            Some(shorthand_not_supported_message(k))
        } else {
            None
        },
    }
}

/// The message for a configuration predicate that cannot be evaluated at
/// compile time, with the advice to move the configuration to a variable.
pub open spec fn exprpath_not_supported_text(expr: Seq<char>, k: Seq<char>) -> Seq<char> {
    "The parameter '"@ + k + "' of leptos_fluent! macro does not accept the expression path '"@
        + expr
        + "'. Consider to move your configuration to a variable:\n\n```rust\n"@ + expr
        + "\n{\n    let "@ + k + "_dyn = { ... };\n}\n\nleptos_fluent! {\n    // ...\n    "@ + k
        + ": "@ + k + "_dyn,\n};\n```\n"@
}

/// The message for a configuration predicate that cannot be evaluated at
/// compile time.
pub fn exprpath_not_supported_error_message(expr: &str, k: &str) -> (r: String)
    ensures
        r@ == exprpath_not_supported_text(expr@, k@),
{
    let mut m = String::from_str("The parameter '");
    text::push_str(&mut m, k);
    text::push_str(&mut m, "' of leptos_fluent! macro does not accept the expression path '");
    text::push_str(&mut m, expr);
    text::push_str(&mut m, "'. Consider to move your configuration to a variable:\n\n```rust\n");
    text::push_str(&mut m, expr);
    text::push_str(&mut m, "\n{\n    let ");
    text::push_str(&mut m, k);
    text::push_str(&mut m, "_dyn = { ... };\n}\n\nleptos_fluent! {\n    // ...\n    ");
    text::push_str(&mut m, k);
    text::push_str(&mut m, ": ");
    text::push_str(&mut m, k);
    text::push_str(&mut m, "_dyn,\n};\n```\n");
    m
}

/// The message for a literal boolean given where a literal string or an
/// expression is expected.
pub open spec fn litstr_found_bool_text(param: Seq<char>, value: bool) -> Seq<char> {
    "Invalid value for '"@ + param
        + "' of leptos_fluent! macro. Must be a literal string or a valid expression. Found a literal boolean '"@
        + (if value {
        "true"@
    } else {
        "false"@
    }) + "'."@
}

/// The message for a literal boolean given where a literal string or an
/// expression is expected.
pub fn litstr_found_bool_message(param: &str, value: bool) -> (r: String)
    ensures
        r@ == litstr_found_bool_text(param@, value),
{
    let mut m = String::from_str("Invalid value for '");
    text::push_str(&mut m, param);
    text::push_str(
        &mut m,
        "' of leptos_fluent! macro. Must be a literal string or a valid expression. Found a literal boolean '",
    );
    if value {
        text::push_str(&mut m, "true");
    } else {
        text::push_str(&mut m, "false");
    }
    text::push_str(&mut m, "'.");
    m
}

/// What the first token of the value of a literal string parameter is.
#[derive(PartialEq, Eq, Structural, Clone, Copy, Debug)]
pub enum LitStrValueToken {
    /// A string literal: the value is that literal.
    StringLiteral,
    /// A literal boolean: the value is refused.
    BoolLiteral(bool),
    /// Anything else: the value is read as an expression.
    Other,
}

/// Whether the token written `t` is a string literal, plain (`"..."`) or
/// raw (`r"..."`, `r#"..."#`, ...); C strings and byte strings are not.
pub open spec fn is_string_literal_token(t: Seq<char>) -> bool {
    ||| (t.len() > 0 && t[0] == '"')
    ||| (t.len() > 0 && t[0] == 'r' && 1 + tr_macros::hashes_from(t, 1) < t.len() && t[(1
        + tr_macros::hashes_from(t, 1)) as int] == '"')
}

/// How the value of a literal string parameter whose first token is
/// written `t` is read: as its string literal, refused as a literal
/// boolean, or as an expression.
pub open spec fn lit_str_value_token(t: Seq<char>) -> LitStrValueToken {
    if is_string_literal_token(t) {
        LitStrValueToken::StringLiteral
    } else if t == "true"@ {
        LitStrValueToken::BoolLiteral(true)
    } else if t == "false"@ {
        LitStrValueToken::BoolLiteral(false)
    } else {
        LitStrValueToken::Other
    }
}

/// How the value of a literal string parameter whose first token is
/// written `token` is read (see `lit_str_value_token`).
pub fn lit_str_value_kind(token: &str) -> (r: LitStrValueToken)
    ensures
        r == lit_str_value_token(token@),
{
    let c = text::chars_of(token);
    if c.len() > 0 && c[0] == '"' {
        return LitStrValueToken::StringLiteral;
    }
    if c.len() > 0 && c[0] == 'r' {
        let mut j: usize = 1;
        while j < c.len() && c[j] == '#'
            invariant
                c@ == token@,
                1 <= j <= c@.len(),
                tr_macros::hashes_from(c@, 1) == (j - 1) + tr_macros::hashes_from(c@, j as int),
            decreases c@.len() - j,
        {
            j = j + 1;
        }
        assert(tr_macros::hashes_from(c@, j as int) == 0);
        if j < c.len() && c[j] == '"' {
            return LitStrValueToken::StringLiteral;
        }
    }
    if text::is_lit(token, "true") {
        LitStrValueToken::BoolLiteral(true)
    } else if text::is_lit(token, "false") {
        LitStrValueToken::BoolLiteral(false)
    } else {
        LitStrValueToken::Other
    }
}

/// The characters of `s` before its first line break (all of them where
/// it has none), from index `i` on.
pub open spec fn line_end(s: Seq<char>, i: int) -> int
    decreases s.len() - i,
{
    if i < 0 || i >= s.len() {
        s.len() as int
    } else if s[i] == '\n' {
        i
    } else {
        line_end(s, i + 1)
    }
}

/// The first line of `s`: what `s.split('\n').next()` gives.
pub open spec fn first_line(s: Seq<char>) -> Seq<char> {
    s.take(line_end(s, 0))
}

/// The index of the last occurrence of the two characters `a`, `b` in `s`
/// that starts before index `i`, or -1.
pub open spec fn last_pair_before(s: Seq<char>, a: char, b: char, i: int) -> int
    decreases i,
{
    if i <= 0 {
        -1
    } else if i < s.len() && s[i - 1] == a && s[i] == b {
        i - 1
    } else {
        last_pair_before(s, a, b, i - 1)
    }
}

/// What follows the last occurrence of the two distinct characters `a`,
/// `b` in `s` (all of `s` where there is none): the last piece of
/// `s.split(sep)` for the separator `ab`.
pub open spec fn after_last_pair(s: Seq<char>, a: char, b: char) -> Seq<char> {
    let k = last_pair_before(s, a, b, s.len() as int);
    if k < 0 {
        s
    } else {
        s.skip(k + 2)
    }
}

/// What follows the last occurrence of `c` in `s` (all of `s` where there
/// is none): the last piece of `s.split(c)`.
pub open spec fn after_last_char(s: Seq<char>, c: char) -> Seq<char>
    decreases s.len(),
{
    if s.len() == 0 {
        s
    } else if s.last() == c {
        seq![]
    } else {
        after_last_char(s.drop_last(), c).push(s.last())
    }
}

/// The text shown for an invalid literal string or expression: where the
/// remaining input spans lines and holds a comma, the value on its first
/// line (after the last `": "`, its final comma removed). `None` where that
/// value does not end with a comma (where reading it panics).
pub open spec fn trimmed_found_spec(found: Seq<char>) -> Option<Seq<char>> {
    if found.contains('\n') && found.contains(',') {
        let v = after_last_pair(first_line(found), ':', ' ');
        if v.len() > 0 && v.last() == ',' {
            Some(v.drop_last())
        } else {
            None
        }
    } else {
        Some(found)
    }
}

fn first_line_exec(s: &[char]) -> (r: Vec<char>)
    ensures
        r@ == first_line(s@),
{
    let mut i: usize = 0;
    while i < s.len()
        invariant
            i <= s@.len(),
            line_end(s@, 0) == line_end(s@, i as int),
        ensures
            i <= s@.len(),
            line_end(s@, 0) == i,
        decreases s@.len() - i,
    {
        if s[i] == '\n' {
            break;
        }
        i = i + 1;
    }
    assert(s@.subrange(0, i as int) =~= s@.take(i as int));
    text::copy_chars(&s[0..i])
}

fn after_last_pair_exec(s: &[char], a: char, b: char) -> (r: Vec<char>)
    ensures
        r@ == after_last_pair(s@, a, b),
{
    let mut i: usize = s.len();
    while i > 0
        invariant
            i <= s@.len(),
            last_pair_before(s@, a, b, s@.len() as int) == last_pair_before(s@, a, b, i as int),
        decreases i,
    {
        if i < s.len() && s[i - 1] == a && s[i] == b {
            assert(s@.skip(i + 1) =~= s@.subrange(i + 1, s@.len() as int));
            return text::copy_chars(&s[i + 1..s.len()]);
        }
        i = i - 1;
    }
    text::copy_chars(s)
}

/// The text shown for an invalid literal string or expression (see
/// `trimmed_found_spec`), or `None` where taking it panics.
pub fn trimmed_found(found: &str) -> (r: Option<String>)
    ensures
        tr_opt(r) == trimmed_found_spec(found@),
{
    let c = text::chars_of(found);
    if text::contains_char(c.as_slice(), '\n') && text::contains_char(c.as_slice(), ',') {
        let line = first_line_exec(c.as_slice());
        let v = after_last_pair_exec(line.as_slice(), ':', ' ');
        if v.len() > 0 && v[v.len() - 1] == ',' {
            let t = text::string_of(&v.as_slice()[0..v.len() - 1]);
            assert(v@.subrange(0, v@.len() - 1) =~= v@.drop_last());
            Some(t)
        } else {
            None
        }
    } else {
        Some(String::from_str(found))
    }
}

/// The model of an optional string.
pub open spec fn tr_opt(o: Option<String>) -> Option<Seq<char>> {
    match o {
        Some(s) => Some(s@),
        None => None,
    }
}

/// The message for a value that is neither a literal string nor a valid
/// expression, `found` being the text shown for it.
pub open spec fn invalid_litstr_text(param: Seq<char>, found: Seq<char>) -> Seq<char> {
    "Invalid value for '"@ + param
        + "' of leptos_fluent! macro. Must be a literal string or a valid expression. Found '"@
        + found + "'."@
}

/// The message for a value that is neither a literal string nor a valid
/// expression.
pub fn invalid_litstr_message(param: &str, found: &str) -> (r: String)
    ensures
        r@ == invalid_litstr_text(param@, found@),
{
    let mut m = String::from_str("Invalid value for '");
    text::push_str(&mut m, param);
    text::push_str(
        &mut m,
        "' of leptos_fluent! macro. Must be a literal string or a valid expression. Found '",
    );
    text::push_str(&mut m, found);
    text::push_str(&mut m, "'.");
    m
}

/// The message for a value that is neither a literal boolean nor a valid
/// expression, `input` being the remaining input.
pub open spec fn invalid_litbool_text(param: Seq<char>, input: Seq<char>) -> Seq<char> {
    "Invalid value for '"@ + param
        + "' of leptos_fluent! macro. Must be a literal boolean or a valid expression. Found "@
        + (if input.len() == 0 {
        "(empty)"@
    } else {
        input
    })
}

/// The message for a value that is neither a literal boolean nor a valid
/// expression.
pub fn invalid_litbool_message(param: &str, input: &str) -> (r: String)
    ensures
        r@ == invalid_litbool_text(param@, input@),
{
    let mut m = String::from_str("Invalid value for '");
    text::push_str(&mut m, param);
    text::push_str(
        &mut m,
        "' of leptos_fluent! macro. Must be a literal boolean or a valid expression. Found ",
    );
    let c = text::chars_of(input);
    if c.len() == 0 {
        text::push_str(&mut m, "(empty)");
    } else {
        text::push_str(&mut m, input);
    }
    m
}

/// The message for an entry of the macro that is not a parameter, `input`
/// being the remaining input.
pub open spec fn expected_expression_text(input: Seq<char>) -> Seq<char> {
    "Expected an expression with 'key: value', '#[...] key: value', 'key,' or `#[...] key,` format. Found:"@
        + if input.len() == 0 {
        " (empty).\nIf you're using double curly braces syntax (`leptos_fluent! {{ ... }}` make sure to use single curly braces syntax (`leptos_fluent! { ... }`)."@
    } else {
        "\n"@ + input
    }
}

/// The message for an entry of the macro that is not a parameter.
pub fn expected_expression_message(input: &str) -> (r: String)
    ensures
        r@ == expected_expression_text(input@),
{
    let mut m = String::from_str(
        "Expected an expression with 'key: value', '#[...] key: value', 'key,' or `#[...] key,` format. Found:",
    );
    let c = text::chars_of(input);
    if c.len() == 0 {
        text::push_str(
            &mut m,
            " (empty).\nIf you're using double curly braces syntax (`leptos_fluent! {{ ... }}` make sure to use single curly braces syntax (`leptos_fluent! { ... }`).",
        );
    } else {
        text::push_str(&mut m, "\n");
        text::push_str(&mut m, input);
    }
    m
}

/// The message for an entry that is an expression but no parameter,
/// `expr_debug` being the expression's tokens as `{:?}` shows them.
pub open spec fn line_format_text(expr_debug: Seq<char>) -> Seq<char> {
    "The line must be in the format 'key: value' or contain some configuration macro like '#[cfg(feature = \"nightly\")] key: value'.\n\n Found expression: "@
        + expr_debug
}

/// The message for an entry that is an expression but no parameter.
pub fn line_format_message(expr_debug: &str) -> (r: String)
    ensures
        r@ == line_format_text(expr_debug@),
{
    let mut m = String::from_str(
        "The line must be in the format 'key: value' or contain some configuration macro like '#[cfg(feature = \"nightly\")] key: value'.\n\n Found expression: ",
    );
    text::push_str(&mut m, expr_debug);
    m
}

// ---------------------------------------------------------------------------
// Keys under configuration predicates
// ---------------------------------------------------------------------------

/// `s` with each line break replaced by a space.
pub open spec fn newlines_to_spaces(s: Seq<char>) -> Seq<char> {
    Seq::new(s.len(), |i: int| if s[i] == '\n' { ' ' } else { s[i] })
}

/// The key of an entry written `#[cfg(...)] key`, from the text of its
/// tokens: what follows the last line break, or else the last `"] "`.
pub open spec fn exprpath_key_spec(s: Seq<char>) -> Seq<char> {
    newlines_to_spaces(
        if s.contains('\n') {
            after_last_char(s, '\n')
        } else {
            after_last_pair(s, ']', ' ')
        },
    )
}

fn after_last_char_exec(s: &[char], c: char) -> (r: Vec<char>)
    ensures
        r@ == after_last_char(s@, c),
{
    let mut i: usize = s.len();
    assert(s@.take(s@.len() as int) =~= s@);
    assert(s@.skip(s@.len() as int) =~= Seq::<char>::empty());
    while i > 0
        invariant
            i <= s@.len(),
            after_last_char(s@, c) == after_last_char(s@.take(i as int), c) + s@.skip(i as int),
        decreases i,
    {
        assert(s@.take(i as int).drop_last() =~= s@.take(i - 1));
        if s[i - 1] == c {
            assert(after_last_char(s@.take(i as int), c) =~= seq![]);
            assert(s@.skip(i as int) =~= s@.subrange(i as int, s@.len() as int));
            return text::copy_chars(&s[i..s.len()]);
        }
        assert(s@.skip(i - 1) =~= seq![s@[i - 1]] + s@.skip(i as int));
        i = i - 1;
    }
    assert(s@.skip(0) =~= s@);
    text::copy_chars(s)
}

/// The key of an entry written `#[cfg(...)] key` (see `exprpath_key_spec`).
pub fn exprpath_key(s: &str) -> (r: String)
    ensures
        r@ == exprpath_key_spec(s@),
{
    let c = text::chars_of(s);
    let piece = if text::contains_char(c.as_slice(), '\n') {
        after_last_char_exec(c.as_slice(), '\n')
    } else {
        after_last_pair_exec(c.as_slice(), ']', ' ')
    };
    let mut out: Vec<char> = Vec::new();
    let mut i: usize = 0;
    while i < piece.len()
        invariant
            i <= piece@.len(),
            out@ == newlines_to_spaces(piece@).take(i as int),
        decreases piece@.len() - i,
    {
        if piece[i] == '\n' {
            out.push(' ');
        } else {
            out.push(piece[i]);
        }
        i = i + 1;
        assert(out@ =~= newlines_to_spaces(piece@).take(i as int));
    }
    assert(newlines_to_spaces(piece@).take(piece@.len() as int) =~= newlines_to_spaces(piece@));
    text::string_of(out.as_slice())
}

/// The predicate of a configuration attribute: its text with the leading
/// `#[cfg(` and the trailing `)]` removed, where present.
pub open spec fn exprpath_predicate_spec(s: Seq<char>) -> Seq<char> {
    let a = if s.len() >= 6 && s.take(6) == "#[cfg("@ {
        s.skip(6)
    } else {
        s
    };
    if a.len() >= 2 && a.skip(a.len() - 2) == ")]"@ {
        a.take(a.len() - 2)
    } else {
        a
    }
}

/// The predicate of a configuration attribute (see
/// `exprpath_predicate_spec`).
pub fn exprpath_predicate(s: &str) -> (r: String)
    ensures
        r@ == exprpath_predicate_spec(s@),
{
    let c = text::chars_of(s);
    let mut from: usize = 0;
    if c.len() >= 6 && text::chars_are(&c.as_slice()[0..6], "#[cfg(") {
        from = 6;
    }
    let mut to: usize = c.len();
    if to - from >= 2 && text::chars_are(&c.as_slice()[to - 2..to], ")]") {
        to = to - 2;
    }
    proof {
        assert(c@.subrange(0, 6) =~= c@.take(6));
        let a = if from == 6 { c@.skip(6) } else { c@ };
        assert(a =~= c@.subrange(from as int, c@.len() as int));
        if c@.len() - from >= 2 {
            assert(c@.subrange(c@.len() - 2, c@.len() as int) =~= a.skip(a.len() - 2));
            assert(a.take(a.len() - 2) =~= c@.subrange(from as int, c@.len() - 2));
        }
    }
    text::string_of(&c.as_slice()[from..to])
}

/// The predicate read from `#[cfg(p)]` is `p`.
pub proof fn law_cfg_predicate(p: Seq<char>)
    ensures
        exprpath_predicate_spec("#[cfg("@ + p + ")]"@) == p,
{
    reveal_strlit("#[cfg(");
    reveal_strlit(")]");
    let s = "#[cfg("@ + p + ")]"@;
    assert(s.take(6) =~= "#[cfg("@);
    let a = s.skip(6);
    assert(a =~= p + ")]"@);
    assert(a.skip(a.len() - 2) =~= ")]"@);
    assert(a.take(a.len() - 2) =~= p);
}

// ---------------------------------------------------------------------------
// Translations
// ---------------------------------------------------------------------------

/// A part of the `translations` parameter: a list of loaders
/// (`[loader1, loader2]`) or a compound loader, by the text of their paths.
pub enum LoadersPart {
    Simple(Vec<String>),
    Compound(String),
}

/// The model of a part of the `translations` parameter.
pub enum LoadersPartV {
    Simple(Seq<Seq<char>>),
    Compound(Seq<char>),
}

impl View for LoadersPart {
    type V = LoadersPartV;

    open spec fn view(&self) -> LoadersPartV {
        match self {
            LoadersPart::Simple(v) => LoadersPartV::Simple(text::strs_of(v@)),
            LoadersPart::Compound(p) => LoadersPartV::Compound(p@),
        }
    }
}

/// The code that pushes each loader of a list.
pub open spec fn push_loaders_code(paths: Seq<Seq<char>>) -> Seq<char>
    decreases paths.len(),
{
    if paths.len() == 0 {
        seq![]
    } else {
        push_loaders_code(paths.drop_last()) + "loaders.push(&"@ + paths.last() + ");"@
    }
}

/// The code for one part of the `translations` parameter.
pub open spec fn part_code(p: LoadersPartV) -> Seq<char> {
    match p {
        LoadersPartV::Simple(paths) => push_loaders_code(paths),
        LoadersPartV::Compound(path) => "loaders.extend("@ + path + ");"@,
    }
}

/// The code for the parts of the `translations` parameter.
pub open spec fn parts_code(ps: Seq<LoadersPartV>) -> Seq<char>
    decreases ps.len(),
{
    if ps.len() == 0 {
        seq![]
    } else {
        parts_code(ps.drop_last()) + part_code(ps.last())
    }
}

/// The code of the `translations` parameter: a block that gathers the
/// loaders of its parts, in order, in a vector.
pub open spec fn translations_code(ps: Seq<LoadersPartV>) -> Seq<char> {
    "{let mut loaders = Vec::new();"@ + parts_code(ps) + "loaders}"@
}

/// The models of the parts of the `translations` parameter.
pub open spec fn parts_of(v: Seq<LoadersPart>) -> Seq<LoadersPartV> {
    Seq::new(v.len(), |i: int| v[i]@)
}

/// The message for a `translations` parameter without loaders.
pub open spec fn no_loaders_text() -> Seq<char> {
    "Need to pass at least one translations loader"@
}

/// The code of the `translations` parameter (see `translations_code`), or
/// the error for one without parts.
pub fn translations_quote(parts: &Vec<LoadersPart>) -> (r: Result<String, String>)
    ensures
        match r {
            Ok(code) => parts@.len() > 0 && code@ == translations_code(parts_of(parts@)),
            Err(e) => parts@.len() == 0 && e@ == no_loaders_text(),
        },
{
    if parts.len() == 0 {
        return Err(String::from_str("Need to pass at least one translations loader"));
    }
    let ghost pv = parts_of(parts@);
    let mut code = String::from_str("{let mut loaders = Vec::new();");
    let ghost start = code@;
    let mut i: usize = 0;
    while i < parts.len()
        invariant
            i <= parts@.len(),
            pv == parts_of(parts@),
            code@ == start + parts_code(pv.take(i as int)),
        decreases parts@.len() - i,
    {
        assert(pv.take(i + 1).drop_last() =~= pv.take(i as int));
        let ghost before = code@;
        match &parts[i] {
            LoadersPart::Simple(paths) => {
                let ghost ps = text::strs_of(paths@);
                let mut j: usize = 0;
                while j < paths.len()
                    invariant
                        j <= paths@.len(),
                        ps == text::strs_of(paths@),
                        code@ == before + push_loaders_code(ps.take(j as int)),
                    decreases paths@.len() - j,
                {
                    assert(ps.take(j + 1).drop_last() =~= ps.take(j as int));
                    text::push_str(&mut code, "loaders.push(&");
                    text::push_str(&mut code, paths[j].as_str());
                    text::push_str(&mut code, ");");
                    j = j + 1;
                    assert(code@ =~= before + push_loaders_code(ps.take(j as int)));
                }
                assert(ps.take(paths@.len() as int) =~= ps);
            },
            LoadersPart::Compound(path) => {
                text::push_str(&mut code, "loaders.extend(");
                text::push_str(&mut code, path.as_str());
                text::push_str(&mut code, ");");
            },
        }
        i = i + 1;
        assert(code@ =~= start + parts_code(pv.take(i as int)));
    }
    assert(pv.take(parts@.len() as int) =~= pv);
    text::push_str(&mut code, "loaders}");
    Ok(code)
}

// ---------------------------------------------------------------------------
// Checks after the parameters
// ---------------------------------------------------------------------------

/// The error for missing required parameters: `translations` first, then
/// `locales`; none where both are given.
pub open spec fn missing_params_text(has_translations: bool, has_locales: bool) -> Option<
    Seq<char>,
> {
    if !has_translations {
        Some("Missing `translations` parameter"@)
    } else if !has_locales {
        Some("Missing `locales` parameter"@)
    } else {
        None
    }
}

/// The error for missing required parameters (see `missing_params_text`).
pub fn missing_params_error(has_translations: bool, has_locales: bool) -> (r: Option<String>)
    ensures
        tr_opt(r) == missing_params_text(has_translations, has_locales),
{
    if !has_translations {
        Some(String::from_str("Missing `translations` parameter"))
    } else if !has_locales {
        Some(String::from_str("Missing `locales` parameter"))
    } else {
        None
    }
}

/// A list of problems introduced by `header`, one per line, each after
/// `"\n- "`.
pub open spec fn listed_text(header: Seq<char>, items: Seq<Seq<char>>) -> Seq<char> {
    header + ":\n- "@ + text::join_with(items, "\n- "@)
}

/// A list of problems introduced by `header` (see `listed_text`).
pub fn listed_message(header: &str, items: &Vec<String>) -> (r: String)
    ensures
        r@ == listed_text(header@, text::strs_of(items@)),
{
    let mut m = String::from_str(header);
    text::push_str(&mut m, ":\n- ");
    let j = text::join(items, "\n- ");
    text::push_str(&mut m, j.as_str());
    m
}

/// The error for the literal cookie attributes `attrs`: the list of their
/// problems, or none where they are valid.
pub open spec fn cookie_attrs_error_text(attrs: Seq<char>) -> Option<Seq<char>> {
    let errs = cookie::cookie_attrs_errors(attrs);
    if errs.len() == 0 {
        None
    } else {
        Some(listed_text("Invalid cookie attributes"@, errs))
    }
}

/// The error for the literal cookie attributes `attrs`, or none where they
/// are valid.
pub fn cookie_attrs_error(attrs: &str) -> (r: Option<String>)
    ensures
        tr_opt(r) == cookie_attrs_error_text(attrs@),
{
    let errs = cookie::validate_cookie_attrs(attrs);
    if errs.len() == 0 {
        None
    } else {
        Some(listed_message("Invalid cookie attributes", &errs))
    }
}

/// The report of a translations check: the failed checks, then the
/// unrecoverable errors; nothing where there is neither.
pub open spec fn check_report_text(messages: Seq<Seq<char>>, errors: Seq<Seq<char>>) -> Seq<char> {
    (if messages.len() > 0 {
        listed_text("Translations check failed"@, messages) + if errors.len() > 0 {
            "\n\n"@
        } else {
            Seq::<char>::empty()
        }
    } else {
        Seq::<char>::empty()
    }) + if errors.len() > 0 {
        listed_text("Unrecoverable errors"@, errors)
    } else {
        Seq::<char>::empty()
    }
}

/// The report of a translations check (see `check_report_text`).
pub fn check_report(messages: &Vec<String>, errors: &Vec<String>) -> (r: String)
    ensures
        r@ == check_report_text(text::strs_of(messages@), text::strs_of(errors@)),
{
    let mut report = String::new();
    if messages.len() > 0 {
        let m = listed_message("Translations check failed", messages);
        text::push_str(&mut report, m.as_str());
        if errors.len() > 0 {
            text::push_str(&mut report, "\n\n");
        }
    }
    let ghost first = report@;
    assert(first =~= (if messages@.len() > 0 {
        listed_text("Translations check failed"@, text::strs_of(messages@)) + if errors@.len() > 0 {
            "\n\n"@
        } else {
            Seq::<char>::empty()
        }
    } else {
        Seq::<char>::empty()
    }));
    if errors.len() > 0 {
        let e = listed_message("Unrecoverable errors", errors);
        text::push_str(&mut report, e.as_str());
    }
    assert(report@ =~= check_report_text(text::strs_of(messages@), text::strs_of(errors@)));
    report
}

/// The lines reporting one filled file.
pub open spec fn filled_file_text(file_path: Seq<char>, names: Seq<Seq<char>>) -> Seq<char>
    decreases names.len(),
{
    if names.len() == 0 {
        "  "@ + file_path + "\n"@
    } else {
        filled_file_text(file_path, names.drop_last()) + "    - "@ + names.last() + "\n"@
    }
}

/// The lines reporting the filled files.
pub open spec fn filled_files_text(files: Seq<(Seq<char>, Seq<Seq<char>>)>) -> Seq<char>
    decreases files.len(),
{
    if files.len() == 0 {
        seq![]
    } else {
        filled_files_text(files.drop_last()) + filled_file_text(files.last().0, files.last().1)
    }
}

/// The report of filled translations: each file (relative to the
/// workspace) with the messages added to it, and a blank line; nothing
/// where no file was filled.
pub open spec fn fill_report_text(files: Seq<(Seq<char>, Seq<Seq<char>>)>) -> Seq<char> {
    if files.len() == 0 {
        seq![]
    } else {
        "Translations filled by leptos-fluent:\n"@ + filled_files_text(files) + "\n"@
    }
}

/// The models of filled files with their message names.
pub open spec fn named_files_of(v: Seq<(String, Vec<String>)>) -> Seq<(Seq<char>, Seq<Seq<char>>)> {
    Seq::new(v.len(), |i: int| (v[i].0@, text::strs_of(v[i].1@)))
}

/// The report of filled translations (see `fill_report_text`).
pub fn fill_report(files: &Vec<(String, Vec<String>)>) -> (r: String)
    ensures
        r@ == fill_report_text(named_files_of(files@)),
{
    let mut report = String::new();
    if files.len() == 0 {
        return report;
    }
    let ghost fv = named_files_of(files@);
    text::push_str(&mut report, "Translations filled by leptos-fluent:\n");
    let ghost start = report@;
    let mut i: usize = 0;
    while i < files.len()
        invariant
            i <= files@.len(),
            fv == named_files_of(files@),
            report@ == start + filled_files_text(fv.take(i as int)),
        decreases files@.len() - i,
    {
        assert(fv.take(i + 1).drop_last() =~= fv.take(i as int));
        let ghost before = report@;
        let names = &files[i].1;
        let ghost nv = text::strs_of(names@);
        text::push_str(&mut report, "  ");
        text::push_str(&mut report, files[i].0.as_str());
        text::push_str(&mut report, "\n");
        let mut j: usize = 0;
        while j < names.len()
            invariant
                j <= names@.len(),
                nv == text::strs_of(names@),
                i < files@.len(),
                report@ == before + filled_file_text(files@[i as int].0@, nv.take(j as int)),
            decreases names@.len() - j,
        {
            assert(nv.take(j + 1).drop_last() =~= nv.take(j as int));
            text::push_str(&mut report, "    - ");
            text::push_str(&mut report, names[j].as_str());
            text::push_str(&mut report, "\n");
            j = j + 1;
            assert(report@ =~= before + filled_file_text(files@[i as int].0@, nv.take(j as int)));
        }
        assert(nv.take(names@.len() as int) =~= nv);
        i = i + 1;
        assert(report@ =~= start + filled_files_text(fv.take(i as int)));
    }
    assert(fv.take(files@.len() as int) =~= fv);
    text::push_str(&mut report, "\n");
    report
}

/// A path parameter read at compile time.
pub enum PathParam {
    Languages,
    Locales,
    CoreLocales,
}

/// The error for a path parameter whose file or folder cannot be found,
/// `path` being the path looked for (shown as `{:?}` shows it).
pub open spec fn path_not_found_text(p: PathParam, path: Seq<char>) -> Seq<char> {
    match p {
        PathParam::Languages => "Couldn't read languages file, this path should be relative to your crate's `Cargo.toml`. Looking for: "@
            + text::str_debug(path),
        PathParam::Locales => "Couldn't read locales folder. This path should be relative to your crate's `Cargo.toml`. Looking for: "@
            + text::str_debug(path),
        PathParam::CoreLocales => "Couldn't read core fluent resource. This path should be relative to your crate's `Cargo.toml`. Looking for: "@
            + text::str_debug(path),
    }
}

/// The error for a path parameter whose file or folder cannot be found.
pub fn path_not_found_message(p: PathParam, path: &str) -> (r: String)
    ensures
        r@ == path_not_found_text(p, path@),
{
    let mut m = match p {
        PathParam::Languages => String::from_str(
            "Couldn't read languages file, this path should be relative to your crate's `Cargo.toml`. Looking for: ",
        ),
        PathParam::Locales => String::from_str(
            "Couldn't read locales folder. This path should be relative to your crate's `Cargo.toml`. Looking for: ",
        ),
        PathParam::CoreLocales => String::from_str(
            "Couldn't read core fluent resource. This path should be relative to your crate's `Cargo.toml`. Looking for: ",
        ),
    };
    let d = text::debug_string(path);
    text::push_str(&mut m, d.as_str());
    m
}

/// The error listing the problems met reading the locales folder or its
/// fluent resources, `path` being the folder.
pub open spec fn reading_errors_text(resources: bool, path: Seq<char>, errors: Seq<Seq<char>>) -> Seq<
    char,
> {
    listed_text(
        (if resources {
            "Errors while reading fluent resources from "@
        } else {
            "Errors while reading locales from "@
        }) + path,
        errors,
    )
}

/// The error listing the problems met reading the locales folder (or, with
/// `resources`, its fluent resources).
pub fn reading_errors_message(resources: bool, path: &str, errors: &Vec<String>) -> (r: String)
    ensures
        r@ == reading_errors_text(resources, path@, text::strs_of(errors@)),
{
    let mut header = if resources {
        String::from_str("Errors while reading fluent resources from ")
    } else {
        String::from_str("Errors while reading locales from ")
    };
    text::push_str(&mut header, path);
    listed_message(header.as_str(), errors)
}

} // verus!
