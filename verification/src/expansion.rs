use vstd::prelude::*;
use crate::text;

verus! {

// ---------------------------------------------------------------------------
// Keys and their defaults
// ---------------------------------------------------------------------------

/// A parameter of the macro that names where the language is kept.
#[derive(PartialEq, Eq, Structural, Clone, Copy, Debug)]
pub enum KeyParam {
    /// `cookie_name`
    CookieName,
    /// `cookie_attrs`
    CookieAttrs,
    /// `url_param`
    UrlParam,
    /// `localstorage_key`
    LocalstorageKey,
    /// `sessionstorage_key`
    SessionstorageKey,
    /// `data_file_key`
    DataFileKey,
}

/// The value a key parameter takes when the macro is not given it: the
/// cookie is `lf-lang`, with no attributes; the URL parameter and the
/// local and session storage keys are `lang`; the data file key is
/// `leptos-fluent`.
pub open spec fn default_key(k: KeyParam) -> Seq<char> {
    match k {
        KeyParam::CookieName => "lf-lang"@,
        KeyParam::CookieAttrs => ""@,
        KeyParam::UrlParam => "lang"@,
        KeyParam::LocalstorageKey => "lang"@,
        KeyParam::SessionstorageKey => "lang"@,
        KeyParam::DataFileKey => "leptos-fluent"@,
    }
}

/// The default value of the key parameter `k`.
pub fn default_key_value(k: KeyParam) -> (r: &'static str)
    ensures
        r@ == default_key(k),
{
    match k {
        KeyParam::CookieName => "lf-lang",
        KeyParam::CookieAttrs => "",
        KeyParam::UrlParam => "lang",
        KeyParam::LocalstorageKey => "lang",
        KeyParam::SessionstorageKey => "lang",
        KeyParam::DataFileKey => "leptos-fluent",
    }
}

/// `s` as a string literal: between double quotes.
pub open spec fn quoted(s: Seq<char>) -> Seq<char> {
    "\""@ + s + "\""@
}

/// The code that gives the key parameter `k`: the literal string it was
/// given (`lit`, as written), else the expression it was given (`expr`),
/// else its default as a string literal.
pub open spec fn key_code(k: KeyParam, lit: Option<Seq<char>>, expr: Option<Seq<char>>) -> Seq<
    char,
> {
    match lit {
        Some(l) => l,
        None => match expr {
            Some(e) => e,
            None => quoted(default_key(k)),
        },
    }
}

/// The model of an optional string.
pub open spec fn opt_view(o: Option<&str>) -> Option<Seq<char>> {
    match o {
        Some(s) => Some(s@),
        None => None,
    }
}

/// The code for the key parameter `k` (see `key_code`).
pub fn key_param_code(k: KeyParam, lit: Option<&str>, expr: Option<&str>) -> (r: String)
    ensures
        r@ == key_code(k, opt_view(lit), opt_view(expr)),
{
    match lit {
        Some(l) => String::from_str(l),
        None => match expr {
            Some(e) => String::from_str(e),
            None => {
                let mut r = String::from_str("\"");
                text::push_str(&mut r, default_key_value(k));
                text::push_str(&mut r, "\"");
                r
            },
        },
    }
}

// ---------------------------------------------------------------------------
// Boolean parameters
// ---------------------------------------------------------------------------

/// One value of a boolean parameter of the macro: an expression (`None`
/// where it was given none), possibly under a runtime configuration
/// predicate `exprpath`, both as the text of their tokens.
pub struct BoolParam {
    pub expr: Option<String>,
    pub exprpath: Option<String>,
}

/// The model of a `BoolParam`.
pub struct BoolParamV {
    pub expr: Option<Seq<char>>,
    pub exprpath: Option<Seq<char>>,
}

impl View for BoolParam {
    type V = BoolParamV;

    open spec fn view(&self) -> BoolParamV {
        BoolParamV {
            expr: match self.expr {
                Some(e) => Some(e@),
                None => None,
            },
            exprpath: match self.exprpath {
                Some(p) => Some(p@),
                None => None,
            },
        }
    }
}

/// The models of a sequence of boolean parameters.
pub open spec fn bool_params_of(ps: Seq<BoolParam>) -> Seq<BoolParamV> {
    Seq::new(ps.len(), |k: int| ps[k]@)
}

/// The code of one value of a boolean parameter: its expression (`false`
/// where it has none), inside `exprpath { .. }` where it has a predicate.
pub open spec fn bool_param_code(p: BoolParamV) -> Seq<char> {
    let e = match p.expr {
        Some(e) => e,
        None => "false"@,
    };
    match p.exprpath {
        Some(path) => path + "{"@ + e + "}"@,
        None => e,
    }
}

/// The code of the values `ps` of a boolean parameter, one after the
/// other, or `false` where it was not given.
pub open spec fn bool_params_code(ps: Seq<BoolParamV>) -> Seq<char> {
    if ps.len() == 0 {
        "false"@
    } else {
        codes_joined(ps)
    }
}

/// The codes of `ps`, one after the other, each followed by a space.
pub open spec fn codes_joined(ps: Seq<BoolParamV>) -> Seq<char>
    decreases ps.len(),
{
    if ps.len() == 0 {
        Seq::empty()
    } else {
        codes_joined(ps.drop_last()) + bool_param_code(ps.last()) + " "@
    }
}

/// Whether a boolean parameter given as `ps` may hold: it does not where
/// it was not given, or was given once as `false` (or without a value)
/// under no predicate. Only where it may hold is code emitted for it.
pub open spec fn may_hold(ps: Seq<BoolParamV>) -> bool {
    !(ps.len() == 0 || (ps.len() == 1 && ps[0].exprpath is None && (ps[0].expr is None
        || ps[0].expr == Some("false"@))))
}

fn param_code(p: &BoolParam) -> (r: String)
    ensures
        r@ == bool_param_code(p@),
{
    let e = match &p.expr {
        Some(e) => e.clone(),
        None => String::from_str("false"),
    };
    match &p.exprpath {
        Some(path) => {
            let mut r = path.clone();
            text::push_str(&mut r, "{");
            text::push_str(&mut r, e.as_str());
            text::push_str(&mut r, "}");
            r
        },
        None => e,
    }
}

/// The code of a boolean parameter given as `ps` (see `bool_params_code`).
pub fn bool_param_values_code(ps: &Vec<BoolParam>) -> (r: String)
    ensures
        r@ == bool_params_code(bool_params_of(ps@)),
{
    let ghost v = bool_params_of(ps@);
    if ps.len() == 0 {
        return String::from_str("false");
    }
    let mut r = String::new();
    let mut i: usize = 0;
    while i < ps.len()
        invariant
            i <= ps@.len(),
            v == bool_params_of(ps@),
            r@ == codes_joined(v.take(i as int)),
        decreases ps@.len() - i,
    {
        let c = param_code(&ps[i]);
        text::push_str(&mut r, c.as_str());
        text::push_str(&mut r, " ");
        assert(v.take(i + 1).drop_last() =~= v.take(i as int));
        i = i + 1;
    }
    assert(v.take(ps@.len() as int) =~= v);
    r
}

/// Whether a boolean parameter given as `ps` may hold (see `may_hold`).
pub fn may_hold_params(ps: &Vec<BoolParam>) -> (r: bool)
    ensures
        r == may_hold(bool_params_of(ps@)),
{
    proof {
        reveal_strlit("false");
    }
    if ps.len() == 0 {
        return false;
    }
    if ps.len() > 1 {
        return true;
    }
    let p = &ps[0];
    assert(bool_params_of(ps@)[0] == p@);
    if p.exprpath.is_some() {
        return true;
    }
    match &p.expr {
        None => false,
        Some(e) => !text::is_lit(e.as_str(), "false"),
    }
}

// ---------------------------------------------------------------------------
// Synchronising the <html> tag
// ---------------------------------------------------------------------------

/// The code that keeps the `lang` and `dir` attributes of the `<html>` tag
/// in step with the current language, read by the code `get_language`:
/// nothing where neither `sync_html_tag_lang` (`lang`) nor
/// `sync_html_tag_dir` (`dir`) may hold, else an `<Html>` view with the
/// attribute of each that may hold.
pub open spec fn sync_html_tag_spec(
    lang: Seq<BoolParamV>,
    dir: Seq<BoolParamV>,
    get_language: Seq<char>,
) -> Seq<char> {
    if !may_hold(lang) && !may_hold(dir) {
        Seq::empty()
    } else {
        "{ use ::leptos_fluent::leptos_meta::{provide_meta_context, Html}; provide_meta_context(); ::leptos::prelude::view! { <Html "@
            + (if may_hold(lang) {
            "attr:lang=|| {"@ + get_language + ".id.to_string()} "@
        } else {
            Seq::empty()
        }) + (if may_hold(dir) {
            "attr:dir=|| {"@ + get_language + ".dir.as_str()} "@
        } else {
            Seq::empty()
        }) + "/> } }"@
    }
}

/// The code that syncs the `<html>` tag (see `sync_html_tag_spec`).
pub fn sync_html_tag_code(lang: &Vec<BoolParam>, dir: &Vec<BoolParam>, get_language: &str) -> (r:
    String)
    ensures
        r@ == sync_html_tag_spec(bool_params_of(lang@), bool_params_of(dir@), get_language@),
{
    let l = may_hold_params(lang);
    let d = may_hold_params(dir);
    if !l && !d {
        return String::new();
    }
    let mut r = String::from_str(
        "{ use ::leptos_fluent::leptos_meta::{provide_meta_context, Html}; provide_meta_context(); ::leptos::prelude::view! { <Html ",
    );
    let ghost head = r@;
    if l {
        text::push_str(&mut r, "attr:lang=|| {");
        text::push_str(&mut r, get_language);
        text::push_str(&mut r, ".id.to_string()} ");
    }
    let ghost with_lang = r@;
    if d {
        text::push_str(&mut r, "attr:dir=|| {");
        text::push_str(&mut r, get_language);
        text::push_str(&mut r, ".dir.as_str()} ");
    }
    let ghost with_dir = r@;
    text::push_str(&mut r, "/> } }");
    proof {
        let a = if l {
            "attr:lang=|| {"@ + get_language@ + ".id.to_string()} "@
        } else {
            Seq::empty()
        };
        let b = if d {
            "attr:dir=|| {"@ + get_language@ + ".dir.as_str()} "@
        } else {
            Seq::empty()
        };
        assert(with_lang =~= head + a);
        assert(with_dir =~= head + a + b);
    }
    r
}

// ---------------------------------------------------------------------------
// Where the initial language comes from
// ---------------------------------------------------------------------------

/// A place the initial language may be read from.
#[derive(PartialEq, Eq, Structural, Clone, Copy, Debug)]
pub enum LanguageSource {
    ServerFunction,
    DataFile,
    System,
    UrlParam,
    UrlPath,
    Cookie,
    Localstorage,
    Sessionstorage,
    Navigator,
    AcceptLanguageHeader,
}

/// The places the initial language is looked for, in order, the first
/// found being taken: in the browser the server function, the data file,
/// the system, the URL parameter, the URL path, the cookie, local storage,
/// session storage and the browser's languages; on the server the server
/// function, the URL parameter, the URL path, the cookie and the
/// `Accept-Language` header.
pub open spec fn lookup_order(ssr: bool) -> Seq<LanguageSource> {
    if ssr {
        seq![
            LanguageSource::ServerFunction,
            LanguageSource::UrlParam,
            LanguageSource::UrlPath,
            LanguageSource::Cookie,
            LanguageSource::AcceptLanguageHeader,
        ]
    } else {
        seq![
            LanguageSource::ServerFunction,
            LanguageSource::DataFile,
            LanguageSource::System,
            LanguageSource::UrlParam,
            LanguageSource::UrlPath,
            LanguageSource::Cookie,
            LanguageSource::Localstorage,
            LanguageSource::Sessionstorage,
            LanguageSource::Navigator,
        ]
    }
}

/// The places the initial language is looked for, in order (see
/// `lookup_order`).
pub fn initial_language_lookup_order(ssr: bool) -> (r: Vec<LanguageSource>)
    ensures
        r@ == lookup_order(ssr),
{
    if ssr {
        let r = vec![
            LanguageSource::ServerFunction,
            LanguageSource::UrlParam,
            LanguageSource::UrlPath,
            LanguageSource::Cookie,
            LanguageSource::AcceptLanguageHeader,
        ];
        assert(r@ =~= lookup_order(ssr));
        r
    } else {
        let r = vec![
            LanguageSource::ServerFunction,
            LanguageSource::DataFile,
            LanguageSource::System,
            LanguageSource::UrlParam,
            LanguageSource::UrlPath,
            LanguageSource::Cookie,
            LanguageSource::Localstorage,
            LanguageSource::Sessionstorage,
            LanguageSource::Navigator,
        ];
        assert(r@ =~= lookup_order(ssr));
        r
    }
}

/// The server function is asked first, wherever the code runs, and each
/// place is looked at once.
pub proof fn law_server_function_first(ssr: bool)
    ensures
        lookup_order(ssr)[0] == LanguageSource::ServerFunction,
        forall|i: int, j: int|
            0 <= i < j < lookup_order(ssr).len() ==> lookup_order(ssr)[i] != lookup_order(
                ssr,
            )[j],
{
}

} // verus!
