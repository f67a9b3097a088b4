use vstd::prelude::*;
use vstd::utf8::{decode_utf8, encode_utf8, is_char_boundary};
use crate::text;
use crate::tr_macros;
use fluent_syntax::ast::{Entry, Expression, InlineExpression, PatternElement};
use fluent_templates::fluent_bundle::FluentResource;

verus! {

// ---------------------------------------------------------------------------
// Fluent entries
// ---------------------------------------------------------------------------

/// A message of a fluent resource: its name and the variables it uses.
#[derive(Debug, PartialEq)]
pub struct FluentEntry {
    pub message_name: String,
    pub placeables: Vec<String>,
}

/// The model of a `FluentEntry`.
pub struct EntryV {
    pub message_name: Seq<char>,
    pub placeables: Seq<Seq<char>>,
}

impl View for FluentEntry {
    type V = EntryV;

    open spec fn view(&self) -> EntryV {
        EntryV { message_name: self.message_name@, placeables: text::strs_of(self.placeables@) }
    }
}

/// The models of the entries of one locale.
pub open spec fn lang_entries_of(es: Seq<FluentEntry>) -> Seq<EntryV> {
    Seq::new(es.len(), |i: int| es[i]@)
}

/// The models of the entries of each locale.
pub open spec fn entries_of(v: Seq<(String, Vec<FluentEntry>)>) -> Seq<(Seq<char>, Seq<EntryV>)> {
    Seq::new(v.len(), |i: int| (v[i].0@, lang_entries_of(v[i].1@)))
}

// ---------------------------------------------------------------------------
// The parsed form of a fluent resource
// ---------------------------------------------------------------------------

/// An inline expression of a fluent pattern, as far as the entries read it:
/// a variable reference, a message reference, a function call with its
/// positional arguments (each the name of a variable, or `None` for another
/// kind of argument), or another kind of expression.
pub enum FtlInline {
    Variable(String),
    MessageReference(String),
    Function(Vec<Option<String>>),
    Other,
}

/// An expression of a placeable: inline, or a select expression with its
/// selector.
pub enum FtlExpression {
    Inline(FtlInline),
    Select(FtlInline),
}

/// An element of a pattern: text, or a placeable.
pub enum FtlElement {
    Text,
    Placeable(FtlExpression),
}

/// A message of a resource: its identifier and the elements of its value,
/// if it has one.
pub struct FtlMessage {
    pub id: String,
    pub value: Option<Vec<FtlElement>>,
}

/// An entry of a resource: a message, or another kind of entry (a term, a
/// comment, junk).
pub enum FtlEntry {
    Message(FtlMessage),
    Other,
}

/// A parse error: its description and the byte offset where it starts.
pub struct FtlError {
    pub description: String,
    pub start: usize,
}

/// A parsed resource: its entries and its parse errors (none where the
/// resource parsed cleanly).
pub struct FtlParse {
    pub entries: Vec<FtlEntry>,
    pub errors: Vec<FtlError>,
}

pub enum InlineV {
    Variable(Seq<char>),
    MessageReference(Seq<char>),
    Function(Seq<Option<Seq<char>>>),
    Other,
}

pub enum ExpressionV {
    Inline(InlineV),
    Select(InlineV),
}

pub enum ElementV {
    Text,
    Placeable(ExpressionV),
}

pub struct MessageV {
    pub id: Seq<char>,
    pub value: Option<Seq<ElementV>>,
}

pub enum FtlEntryV {
    Message(MessageV),
    Other,
}

pub struct ErrorV {
    pub description: Seq<char>,
    pub start: int,
}

pub struct ParseV {
    pub entries: Seq<FtlEntryV>,
    pub errors: Seq<ErrorV>,
}

/// The model of optional strings.
pub open spec fn opt_strs(v: Seq<Option<String>>) -> Seq<Option<Seq<char>>> {
    Seq::new(
        v.len(),
        |i: int|
            match v[i] {
                Some(s) => Some(s@),
                None => None,
            },
    )
}

impl View for FtlInline {
    type V = InlineV;

    open spec fn view(&self) -> InlineV {
        match self {
            FtlInline::Variable(n) => InlineV::Variable(n@),
            FtlInline::MessageReference(n) => InlineV::MessageReference(n@),
            FtlInline::Function(args) => InlineV::Function(opt_strs(args@)),
            FtlInline::Other => InlineV::Other,
        }
    }
}

impl View for FtlExpression {
    type V = ExpressionV;

    open spec fn view(&self) -> ExpressionV {
        match self {
            FtlExpression::Inline(i) => ExpressionV::Inline(i@),
            FtlExpression::Select(s) => ExpressionV::Select(s@),
        }
    }
}

impl View for FtlElement {
    type V = ElementV;

    open spec fn view(&self) -> ElementV {
        match self {
            FtlElement::Text => ElementV::Text,
            FtlElement::Placeable(e) => ElementV::Placeable(e@),
        }
    }
}

/// The models of pattern elements.
pub open spec fn elements_of(v: Seq<FtlElement>) -> Seq<ElementV> {
    Seq::new(v.len(), |i: int| v[i]@)
}

impl View for FtlMessage {
    type V = MessageV;

    open spec fn view(&self) -> MessageV {
        MessageV {
            id: self.id@,
            value: match self.value {
                Some(v) => Some(elements_of(v@)),
                None => None,
            },
        }
    }
}

impl View for FtlEntry {
    type V = FtlEntryV;

    open spec fn view(&self) -> FtlEntryV {
        match self {
            FtlEntry::Message(m) => FtlEntryV::Message(m@),
            FtlEntry::Other => FtlEntryV::Other,
        }
    }
}

/// The models of resource entries.
pub open spec fn ftl_entries_of(v: Seq<FtlEntry>) -> Seq<FtlEntryV> {
    Seq::new(v.len(), |i: int| v[i]@)
}

impl View for FtlError {
    type V = ErrorV;

    open spec fn view(&self) -> ErrorV {
        ErrorV { description: self.description@, start: self.start as int }
    }
}

/// The models of parse errors.
pub open spec fn errors_of(v: Seq<FtlError>) -> Seq<ErrorV> {
    Seq::new(v.len(), |i: int| v[i]@)
}

impl View for FtlParse {
    type V = ParseV;

    open spec fn view(&self) -> ParseV {
        ParseV { entries: ftl_entries_of(self.entries@), errors: errors_of(self.errors@) }
    }
}

// ---------------------------------------------------------------------------
// Parsing with fluent-syntax
// ---------------------------------------------------------------------------

/// The pattern element of fluent-syntax's syntax tree, read only by the
/// conversions below.
#[verifier::external_type_specification]
#[verifier::external_body]
#[verifier::reject_recursive_types(S)]
pub struct ExFluentSyntaxPatternElement<S>(fluent_syntax::ast::PatternElement<S>);

/// The inline expression of fluent-syntax's syntax tree, read only by the
/// conversions below.
#[verifier::external_type_specification]
#[verifier::external_body]
#[verifier::reject_recursive_types(S)]
pub struct ExFluentSyntaxInlineExpression<S>(fluent_syntax::ast::InlineExpression<S>);

/// What `fluent_bundle::FluentResource::try_new` parses from a source: its
/// entries (in the form above) and its parse errors.
pub uninterp spec fn ftl_parse(source: Seq<char>) -> ParseV;

/// Converts a fluent-syntax inline expression to its `FtlInline` form, one
/// variant for another; the kinds of expression that the entries do not
/// read become `Other`, and so do the arguments of a function call that
/// are no variable references.
#[verifier::external_body]
fn inline_of(e: &fluent_syntax::ast::InlineExpression<&str>) -> FtlInline {
    match e {
        InlineExpression::VariableReference { id } => FtlInline::Variable(id.name.to_string()),
        InlineExpression::MessageReference { id, .. } => FtlInline::MessageReference(id.name.to_string()),
        InlineExpression::FunctionReference { arguments, .. } => FtlInline::Function(
            arguments.positional.iter().map(|a| match a {
                InlineExpression::VariableReference { id } => Some(id.name.to_string()),
                _ => None,
            }).collect(),
        ),
        _ => FtlInline::Other,
    }
}

/// Converts a fluent-syntax pattern element, with the expression of a
/// placeable, to its `FtlElement` form.
#[verifier::external_body]
fn element_of(e: &fluent_syntax::ast::PatternElement<&str>) -> FtlElement {
    match e {
        PatternElement::TextElement { .. } => FtlElement::Text,
        PatternElement::Placeable { expression: Expression::Inline(i) } => FtlElement::Placeable(
            FtlExpression::Inline(inline_of(i)),
        ),
        PatternElement::Placeable { expression: Expression::Select { selector, .. } } => {
            FtlElement::Placeable(FtlExpression::Select(inline_of(selector)))
        },
    }
}

/// Parses a fluent resource with `fluent_bundle::FluentResource::try_new`,
/// which keeps the entries it could parse and lists the errors it met (none
/// where it returns `Ok`), and converts the result: each message with its
/// identifier and the elements of its value, other entries as `Other`, each
/// error with its description (as it displays) and the byte offset where it
/// starts. The result is named `ftl_parse`: nothing more is claimed of the
/// parser here.
#[verifier::external_body]
fn parse_ftl(source: &str) -> (r: FtlParse)
    ensures
        r@ == ftl_parse(source@),
{
    let (res, errs) = match FluentResource::try_new(source.to_string()) {
        Ok(res) => (res, Vec::new()),
        Err((res, errs)) => (res, errs),
    };
    let entries = res.entries().map(|e| match e {
        Entry::Message(m) => FtlEntry::Message(FtlMessage {
            id: m.id.name.to_string(),
            value: m.value.as_ref().map(|p| p.elements.iter().map(element_of).collect()),
        }),
        _ => FtlEntry::Other,
    }).collect();
    let errors = errs.iter().map(|e| FtlError { description: format!("{e}"), start: e.pos.start }).collect();
    FtlParse { entries, errors }
}

// ---------------------------------------------------------------------------
// The placeables of the messages
// ---------------------------------------------------------------------------

/// A placeable of a message: a variable (by name) or a reference to another
/// message (by name).
pub enum Placeable {
    String(String),
    MessageReference(String),
}

/// A message with its placeables, some of which may still refer to other
/// messages.
pub struct MaybeReferencedFluentEntry {
    pub message_name: String,
    pub placeables: Vec<Placeable>,
}

pub enum PlaceableV {
    Text(Seq<char>),
    Reference(Seq<char>),
}

pub struct MaybeV {
    pub name: Seq<char>,
    pub placeables: Seq<PlaceableV>,
}

impl View for Placeable {
    type V = PlaceableV;

    open spec fn view(&self) -> PlaceableV {
        match self {
            Placeable::String(s) => PlaceableV::Text(s@),
            Placeable::MessageReference(s) => PlaceableV::Reference(s@),
        }
    }
}

/// The models of placeables.
pub open spec fn placeables_of(v: Seq<Placeable>) -> Seq<PlaceableV> {
    Seq::new(v.len(), |i: int| v[i]@)
}

impl View for MaybeReferencedFluentEntry {
    type V = MaybeV;

    open spec fn view(&self) -> MaybeV {
        MaybeV { name: self.message_name@, placeables: placeables_of(self.placeables@) }
    }
}

/// The models of messages with placeables.
pub open spec fn maybes_of(v: Seq<MaybeReferencedFluentEntry>) -> Seq<MaybeV> {
    Seq::new(v.len(), |i: int| v[i]@)
}

/// The variables among the positional arguments of a function call.
pub open spec fn arg_vars(args: Seq<Option<Seq<char>>>) -> Seq<PlaceableV>
    decreases args.len(),
{
    if args.len() == 0 {
        seq![]
    } else {
        arg_vars(args.drop_last()) + match args.last() {
            Some(n) => seq![PlaceableV::Text(n)],
            None => seq![],
        }
    }
}

/// The placeables of a select expression's selector: a variable, or the
/// variables among the arguments of a function call.
pub open spec fn selector_placeables(s: InlineV) -> Seq<PlaceableV> {
    match s {
        InlineV::Variable(n) => seq![PlaceableV::Text(n)],
        InlineV::Function(args) => arg_vars(args),
        _ => seq![],
    }
}

/// The placeables of a pattern element: a variable reference, the variables
/// among a function call's arguments, the selector of a select expression,
/// or a message reference.
pub open spec fn element_placeables(e: ElementV) -> Seq<PlaceableV> {
    match e {
        ElementV::Text => seq![],
        ElementV::Placeable(ExpressionV::Inline(InlineV::Variable(n))) => seq![PlaceableV::Text(n)],
        ElementV::Placeable(ExpressionV::Inline(InlineV::Function(args))) => arg_vars(args),
        ElementV::Placeable(ExpressionV::Inline(InlineV::MessageReference(n))) => seq![
            PlaceableV::Reference(n),
        ],
        ElementV::Placeable(ExpressionV::Inline(InlineV::Other)) => seq![],
        ElementV::Placeable(ExpressionV::Select(s)) => selector_placeables(s),
    }
}

/// The placeables of a pattern, element after element.
pub open spec fn pattern_placeables(es: Seq<ElementV>) -> Seq<PlaceableV>
    decreases es.len(),
{
    if es.len() == 0 {
        seq![]
    } else {
        pattern_placeables(es.drop_last()) + element_placeables(es.last())
    }
}

/// The messages of a resource that have a value, with their placeables.
pub open spec fn maybe_entries(es: Seq<FtlEntryV>) -> Seq<MaybeV>
    decreases es.len(),
{
    if es.len() == 0 {
        seq![]
    } else {
        let front = maybe_entries(es.drop_last());
        match es.last() {
            FtlEntryV::Message(m) => match m.value {
                Some(p) => front.push(MaybeV { name: m.id, placeables: pattern_placeables(p) }),
                None => front,
            },
            FtlEntryV::Other => front,
        }
    }
}

fn push_arg_vars(args: &Vec<Option<String>>, out: &mut Vec<Placeable>)
    ensures
        placeables_of(final(out)@) == placeables_of(old(out)@) + arg_vars(opt_strs(args@)),
{
    let ghost a = opt_strs(args@);
    let ghost start = placeables_of(out@);
    let mut i: usize = 0;
    while i < args.len()
        invariant
            i <= args@.len(),
            a == opt_strs(args@),
            placeables_of(out@) == start + arg_vars(a.take(i as int)),
        decreases args@.len() - i,
    {
        let ghost before = placeables_of(out@);
        assert(a.take(i + 1).drop_last() =~= a.take(i as int));
        match &args[i] {
            Some(n) => {
                out.push(Placeable::String(n.clone()));
                assert(placeables_of(out@) =~= before.push(PlaceableV::Text(n@)));
            },
            None => {},
        }
        i = i + 1;
    }
    assert(a.take(args@.len() as int) =~= a);
}

fn push_element_placeables(e: &FtlElement, out: &mut Vec<Placeable>)
    ensures
        placeables_of(final(out)@) == placeables_of(old(out)@) + element_placeables(e@),
{
    let ghost before = placeables_of(out@);
    match e {
        FtlElement::Text => {
            assert(placeables_of(out@) =~= before + element_placeables(e@));
        },
        FtlElement::Placeable(FtlExpression::Inline(FtlInline::Variable(n))) => {
            out.push(Placeable::String(n.clone()));
            assert(placeables_of(out@) =~= before + element_placeables(e@));
        },
        FtlElement::Placeable(FtlExpression::Inline(FtlInline::Function(args))) => {
            push_arg_vars(args, out);
        },
        FtlElement::Placeable(FtlExpression::Inline(FtlInline::MessageReference(n))) => {
            out.push(Placeable::MessageReference(n.clone()));
            assert(placeables_of(out@) =~= before + element_placeables(e@));
        },
        FtlElement::Placeable(FtlExpression::Inline(FtlInline::Other)) => {
            assert(placeables_of(out@) =~= before + element_placeables(e@));
        },
        FtlElement::Placeable(FtlExpression::Select(FtlInline::Variable(n))) => {
            out.push(Placeable::String(n.clone()));
            assert(placeables_of(out@) =~= before + element_placeables(e@));
        },
        FtlElement::Placeable(FtlExpression::Select(FtlInline::Function(args))) => {
            push_arg_vars(args, out);
        },
        FtlElement::Placeable(FtlExpression::Select(_)) => {
            assert(placeables_of(out@) =~= before + element_placeables(e@));
        },
    }
}

fn pattern_placeables_exec(es: &Vec<FtlElement>) -> (r: Vec<Placeable>)
    ensures
        placeables_of(r@) == pattern_placeables(elements_of(es@)),
{
    let ghost ev = elements_of(es@);
    let mut out: Vec<Placeable> = Vec::new();
    let mut i: usize = 0;
    while i < es.len()
        invariant
            i <= es@.len(),
            ev == elements_of(es@),
            placeables_of(out@) == pattern_placeables(ev.take(i as int)),
        decreases es@.len() - i,
    {
        assert(ev.take(i + 1).drop_last() =~= ev.take(i as int));
        push_element_placeables(&es[i], &mut out);
        i = i + 1;
    }
    assert(ev.take(es@.len() as int) =~= ev);
    out
}

/// The messages of the parsed resource `entries` that have a value, with
/// their placeables.
pub fn maybe_referenced_entries(entries: &Vec<FtlEntry>) -> (r: Vec<MaybeReferencedFluentEntry>)
    ensures
        maybes_of(r@) == maybe_entries(ftl_entries_of(entries@)),
{
    let ghost ev = ftl_entries_of(entries@);
    let mut out: Vec<MaybeReferencedFluentEntry> = Vec::new();
    let mut i: usize = 0;
    while i < entries.len()
        invariant
            i <= entries@.len(),
            ev == ftl_entries_of(entries@),
            maybes_of(out@) == maybe_entries(ev.take(i as int)),
        decreases entries@.len() - i,
    {
        assert(ev.take(i + 1).drop_last() =~= ev.take(i as int));
        let ghost before = maybes_of(out@);
        match &entries[i] {
            FtlEntry::Message(m) => match &m.value {
                Some(p) => {
                    let ps = pattern_placeables_exec(p);
                    out.push(MaybeReferencedFluentEntry { message_name: m.id.clone(), placeables: ps });
                    assert(maybes_of(out@) =~= before.push(out@.last()@));
                },
                None => {},
            },
            FtlEntry::Other => {},
        }
        i = i + 1;
    }
    assert(ev.take(entries@.len() as int) =~= ev);
    out
}

// ---------------------------------------------------------------------------
// Resolving message references
// ---------------------------------------------------------------------------

/// Whether a placeable refers to a message.
pub open spec fn is_reference(p: PlaceableV) -> bool {
    p is Reference
}

/// Whether some placeable of `ps` refers to a message.
pub open spec fn has_reference(ps: Seq<PlaceableV>) -> bool {
    exists|i: int| 0 <= i < ps.len() && is_reference(#[trigger] ps[i])
}

/// Whether some message of `ms` has a placeable that refers to a message.
pub open spec fn any_reference(ms: Seq<MaybeV>) -> bool {
    exists|i: int| 0 <= i < ms.len() && has_reference(#[trigger] ms[i].placeables)
}

/// The name a placeable carries.
pub open spec fn placeable_text(p: PlaceableV) -> Seq<char> {
    match p {
        PlaceableV::Text(s) => s,
        PlaceableV::Reference(s) => s,
    }
}

/// The fluent entry of a message: its name and the names its placeables
/// carry.
pub open spec fn entry_of_maybe(m: MaybeV) -> EntryV {
    EntryV {
        message_name: m.name,
        placeables: Seq::new(m.placeables.len(), |i: int| placeable_text(m.placeables[i])),
    }
}

/// The first message of `ms`, from index `i` on, named `name`.
pub open spec fn find_maybe(ms: Seq<MaybeV>, name: Seq<char>, i: int) -> Option<MaybeV>
    decreases ms.len() - i,
{
    if i < 0 || i >= ms.len() {
        None
    } else if ms[i].name == name {
        Some(ms[i])
    } else {
        find_maybe(ms, name, i + 1)
    }
}

/// The error for a reference to a message that does not exist.
pub open spec fn reference_error(id: Seq<char>, entry_name: Seq<char>) -> Seq<char> {
    "Message reference \""@ + id + "\" of entry \""@ + entry_name + "\" is not found"@
}

/// One round of expansion of the placeables `ps` of the message `name`:
/// each reference is replaced by the placeables of the message it names in
/// `orig`, or dropped with an error where there is none. Also tells whether
/// every message met has no reference of its own.
pub open spec fn expand(ps: Seq<PlaceableV>, orig: Seq<MaybeV>, name: Seq<char>) -> (
    Seq<PlaceableV>,
    bool,
    Seq<Seq<char>>,
)
    decreases ps.len(),
{
    if ps.len() == 0 {
        (seq![], true, seq![])
    } else {
        let (n, ok, errs) = expand(ps.drop_last(), orig, name);
        match ps.last() {
            PlaceableV::Text(t) => (n.push(PlaceableV::Text(t)), ok, errs),
            PlaceableV::Reference(id) => match find_maybe(orig, id, 0) {
                Some(t) => (n + t.placeables, ok && !has_reference(t.placeables), errs),
                None => (n, ok, errs.push(reference_error(id, name))),
            },
        }
    }
}

/// One round on the message `m`: the message with its references expanded
/// (unchanged when it has none), whether it is resolved, and the errors met.
pub open spec fn step_entry(m: MaybeV, orig: Seq<MaybeV>) -> (MaybeV, bool, Seq<Seq<char>>) {
    let (n, ok, errs) = expand(m.placeables, orig, m.name);
    if has_reference(m.placeables) {
        (MaybeV { name: m.name, placeables: n }, ok, errs)
    } else {
        (m, true, errs)
    }
}

/// One round on the messages `es`: the messages as expanded, those of them
/// that are resolved, and the errors met.
pub open spec fn round(es: Seq<MaybeV>, orig: Seq<MaybeV>) -> (
    Seq<MaybeV>,
    Seq<MaybeV>,
    Seq<Seq<char>>,
)
    decreases es.len(),
{
    if es.len() == 0 {
        (seq![], seq![], seq![])
    } else {
        let (u, r, e) = round(es.drop_last(), orig);
        let (m, ok, errs) = step_entry(es.last(), orig);
        (u.push(m), if ok {
            r.push(m)
        } else {
            r
        }, e + errs)
    }
}

/// The names of messages.
pub open spec fn names_of(ms: Seq<MaybeV>) -> Seq<Seq<char>> {
    Seq::new(ms.len(), |i: int| ms[i].name)
}

/// The messages of `es` whose names are not among `names`.
pub open spec fn without_names(es: Seq<MaybeV>, names: Seq<Seq<char>>) -> Seq<MaybeV>
    decreases es.len(),
{
    if es.len() == 0 {
        seq![]
    } else if names.contains(es.last().name) {
        without_names(es.drop_last(), names)
    } else {
        without_names(es.drop_last(), names).push(es.last())
    }
}

/// At most `fuel` rounds on the messages `es`, each removing the messages
/// named as one that was resolved: the resolved messages in the order they
/// were resolved, and the errors met; `None` where messages remain after
/// the last round.
pub open spec fn resolve_rounds(es: Seq<MaybeV>, orig: Seq<MaybeV>, fuel: nat) -> Option<
    (Seq<MaybeV>, Seq<Seq<char>>),
>
    decreases fuel,
{
    if es.len() == 0 {
        Some((seq![], seq![]))
    } else if fuel == 0 {
        None
    } else {
        let (u, r, e) = round(es, orig);
        match resolve_rounds(without_names(u, names_of(r)), orig, (fuel - 1) as nat) {
            Some((o, e2)) => Some((r + o, e + e2)),
            None => None,
        }
    }
}

/// The fluent entries of the messages `ms` and the errors met resolving
/// their references, or `None` where messages remain after one round per
/// message. Each round expands references by one level; a message whose
/// references go round in a circle is never resolved, and resolving
/// never ends.
pub open spec fn resolve_messages(ms: Seq<MaybeV>) -> Option<(Seq<EntryV>, Seq<Seq<char>>)> {
    if !any_reference(ms) {
        Some((Seq::new(ms.len(), |i: int| entry_of_maybe(ms[i])), seq![]))
    } else {
        match resolve_rounds(ms, ms, ms.len() + 1) {
            Some((o, e)) => Some((Seq::new(o.len(), |i: int| entry_of_maybe(o[i])), e)),
            None => None,
        }
    }
}

/// The fluent entries of a parsed resource and the errors met resolving
/// message references (see `resolve_messages`).
pub open spec fn resource_entries(entries: Seq<FtlEntryV>) -> Option<(Seq<EntryV>, Seq<Seq<char>>)> {
    resolve_messages(maybe_entries(entries))
}

proof fn lemma_expand_resolved(ps: Seq<PlaceableV>, orig: Seq<MaybeV>, name: Seq<char>)
    ensures
        expand(ps, orig, name).1 ==> !has_reference(expand(ps, orig, name).0),
    decreases ps.len(),
{
    if ps.len() > 0 {
        lemma_expand_resolved(ps.drop_last(), orig, name);
        let (n, ok, errs) = expand(ps.drop_last(), orig, name);
        match ps.last() {
            PlaceableV::Text(t) => {
                let n2 = n.push(PlaceableV::Text(t));
                if ok {
                    assert forall|i: int| 0 <= i < n2.len() implies !is_reference(
                        #[trigger] n2[i],
                    ) by {
                        if i < n.len() {
                            assert(n2[i] == n[i]);
                        }
                    }
                }
            },
            PlaceableV::Reference(id) => match find_maybe(orig, id, 0) {
                Some(t) => {
                    let n2 = n + t.placeables;
                    if ok && !has_reference(t.placeables) {
                        assert forall|i: int| 0 <= i < n2.len() implies !is_reference(
                            #[trigger] n2[i],
                        ) by {
                            if i < n.len() {
                                assert(n2[i] == n[i]);
                            } else {
                                assert(n2[i] == t.placeables[i - n.len()]);
                            }
                        }
                    }
                },
                None => {},
            },
        }
    }
}

proof fn lemma_round_resolved(es: Seq<MaybeV>, orig: Seq<MaybeV>)
    ensures
        forall|i: int|
            0 <= i < round(es, orig).1.len() ==> !has_reference(
                (#[trigger] round(es, orig).1[i]).placeables,
            ),
    decreases es.len(),
{
    if es.len() > 0 {
        lemma_round_resolved(es.drop_last(), orig);
        let m0 = es.last();
        lemma_expand_resolved(m0.placeables, orig, m0.name);
        let (u, r, e) = round(es.drop_last(), orig);
        let (m, ok, errs) = step_entry(m0, orig);
        if ok {
            let r2 = r.push(m);
            assert forall|i: int| 0 <= i < r2.len() implies !has_reference(
                (#[trigger] r2[i]).placeables,
            ) by {
                if i < r.len() {
                    assert(r2[i] == r[i]);
                }
            }
        }
    }
}

/// Every message that resolving references gives is resolved: none of its
/// placeables refers to a message any more.
pub proof fn law_resolved_messages_have_no_references(
    es: Seq<MaybeV>,
    orig: Seq<MaybeV>,
    fuel: nat,
)
    ensures
        resolve_rounds(es, orig, fuel) matches Some((o, e)) ==> forall|i: int|
            0 <= i < o.len() ==> !has_reference((#[trigger] o[i]).placeables),
    decreases fuel,
{
    if es.len() > 0 && fuel > 0 {
        let (u, r, e) = round(es, orig);
        lemma_round_resolved(es, orig);
        law_resolved_messages_have_no_references(
            without_names(u, names_of(r)),
            orig,
            (fuel - 1) as nat,
        );
        if let Some((o, e2)) = resolve_rounds(es, orig, fuel) {
            let (o2, e3) = resolve_rounds(without_names(u, names_of(r)), orig, (fuel - 1) as nat)->0;
            assert(o == r + o2);
            assert forall|i: int| 0 <= i < o.len() implies !has_reference(
                (#[trigger] o[i]).placeables,
            ) by {
                if i < r.len() {
                    assert(o[i] == r[i]);
                } else {
                    assert(o[i] == o2[i - r.len()]);
                }
            }
        }
    }
}

/// Whether some message of `b` bears the name `n`.
pub open spec fn has_name(b: Seq<MaybeV>, n: Seq<char>) -> bool {
    exists|j: int| 0 <= j < b.len() && b[j].name == n
}

/// Whether each message of `a` bears the name of some message of `b`.
pub open spec fn names_within(a: Seq<MaybeV>, b: Seq<MaybeV>) -> bool {
    forall|i: int| 0 <= i < a.len() ==> has_name(b, (#[trigger] a[i]).name)
}

proof fn lemma_names_within_trans(a: Seq<MaybeV>, b: Seq<MaybeV>, c: Seq<MaybeV>)
    requires
        names_within(a, b),
        names_within(b, c),
    ensures
        names_within(a, c),
{
    assert forall|i: int| 0 <= i < a.len() implies has_name(c, (#[trigger] a[i]).name) by {
        assert(has_name(b, a[i].name));
        let j = choose|j: int| 0 <= j < b.len() && b[j].name == a[i].name;
        assert(has_name(c, b[j].name));
    }
}

proof fn lemma_round_names(es: Seq<MaybeV>, orig: Seq<MaybeV>)
    ensures
        round(es, orig).0.len() == es.len(),
        forall|i: int| 0 <= i < es.len() ==> (#[trigger] round(es, orig).0[i]).name == es[i].name,
        names_within(round(es, orig).1, es),
    decreases es.len(),
{
    if es.len() > 0 {
        let front = es.drop_last();
        lemma_round_names(front, orig);
        let (u, r, e) = round(front, orig);
        let (m, ok, errs) = step_entry(es.last(), orig);
        assert(m.name == es.last().name);
        let (u2, r2, e2) = round(es, orig);
        assert forall|i: int| 0 <= i < es.len() implies (#[trigger] u2[i]).name == es[i].name by {
            if i < es.len() - 1 {
                assert(u2[i] == u[i]);
                assert(es[i] == front[i]);
            }
        }
        assert forall|i: int| 0 <= i < r2.len() implies has_name(es, (#[trigger] r2[i]).name) by {
            if i < r.len() {
                assert(r2[i] == r[i]);
                let j = choose|j: int| 0 <= j < front.len() && r[i].name == front[j].name;
                assert(es[j] == front[j]);
            } else {
                assert(r2[i] == m);
                assert(es[es.len() - 1].name == m.name);
            }
        }
    }
}

proof fn lemma_without_names_within(es: Seq<MaybeV>, names: Seq<Seq<char>>)
    ensures
        names_within(without_names(es, names), es),
    decreases es.len(),
{
    if es.len() > 0 {
        let front = es.drop_last();
        lemma_without_names_within(front, names);
        let w = without_names(front, names);
        let w2 = without_names(es, names);
        assert forall|i: int| 0 <= i < w2.len() implies has_name(es, (#[trigger] w2[i]).name) by {
            if i < w.len() {
                assert(w2[i] == w[i]);
                let j = choose|j: int| 0 <= j < front.len() && w[i].name == front[j].name;
                assert(es[j] == front[j]);
            } else {
                assert(w2[i] == es.last());
                assert(es[es.len() - 1] == es.last());
            }
        }
    }
}

proof fn lemma_resolve_rounds_names(es: Seq<MaybeV>, orig: Seq<MaybeV>, fuel: nat)
    ensures
        resolve_rounds(es, orig, fuel) matches Some((o, e)) ==> names_within(o, es),
    decreases fuel,
{
    if es.len() > 0 && fuel > 0 {
        let (u, r, e) = round(es, orig);
        let rest = without_names(u, names_of(r));
        lemma_resolve_rounds_names(rest, orig, (fuel - 1) as nat);
        lemma_round_names(es, orig);
        lemma_without_names_within(u, names_of(r));
        assert(names_within(u, es)) by {
            assert forall|i: int| 0 <= i < u.len() implies has_name(es, (#[trigger] u[i]).name) by {
                assert(u[i].name == es[i].name);
            }
        }
        match resolve_rounds(rest, orig, (fuel - 1) as nat) {
            Some((o2, e2)) => {
                lemma_names_within_trans(o2, rest, u);
                lemma_names_within_trans(o2, u, es);
                let o = r + o2;
                assert forall|i: int| 0 <= i < o.len() implies has_name(es, (#[trigger] o[i]).name) by {
                    if i < r.len() {
                        assert(o[i] == r[i]);
                        let j = choose|j: int| 0 <= j < es.len() && r[i].name == es[j].name;
                    } else {
                        assert(o[i] == o2[i - r.len()]);
                        let j = choose|j: int| 0 <= j < es.len() && o2[i - r.len()].name == es[j].name;
                    }
                }
            },
            None => {},
        }
    }
}

/// Each fluent entry of a resource bears the name of one of its messages:
/// resolving message references makes up no entry.
pub proof fn law_entries_are_messages(entries: Seq<FtlEntryV>)
    ensures
        resource_entries(entries) matches Some((es, errs)) ==> forall|i: int|
            0 <= i < es.len() ==> exists|j: int|
                0 <= j < maybe_entries(entries).len() && (#[trigger] es[i]).message_name
                    == maybe_entries(entries)[j].name,
{
    let ms = maybe_entries(entries);
    if any_reference(ms) {
        lemma_resolve_rounds_names(ms, ms, ms.len() + 1);
        match resolve_rounds(ms, ms, ms.len() + 1) {
            Some((o, e)) => {
                let es = Seq::new(o.len(), |i: int| entry_of_maybe(o[i]));
                assert forall|i: int| 0 <= i < es.len() implies exists|j: int|
                    0 <= j < ms.len() && (#[trigger] es[i]).message_name == ms[j].name by {
                    assert(es[i].message_name == o[i].name);
                    let j = choose|j: int| 0 <= j < ms.len() && o[i].name == ms[j].name;
                }
            },
            None => {},
        }
    } else {
        let es = Seq::new(ms.len(), |i: int| entry_of_maybe(ms[i]));
        assert forall|i: int| 0 <= i < es.len() implies exists|j: int|
            0 <= j < ms.len() && (#[trigger] es[i]).message_name == ms[j].name by {
            assert(es[i].message_name == ms[i].name);
        }
    }
}

/// Whether every reference among `ps` to a message of `orig` names a
/// message of rank below `b`.
pub open spec fn refs_below(
    ps: Seq<PlaceableV>,
    orig: Seq<MaybeV>,
    rank: spec_fn(Seq<char>) -> nat,
    b: int,
) -> bool {
    forall|k: int|
        0 <= k < ps.len() ==> match #[trigger] ps[k] {
            PlaceableV::Reference(id) => find_maybe(orig, id, 0) is Some ==> rank(id) < b,
            PlaceableV::Text(_) => true,
        }
}

/// Whether the messages `orig` can be ranked by `rank` so that each
/// message refers only to messages of lower rank.
pub open spec fn ranked(orig: Seq<MaybeV>, rank: spec_fn(Seq<char>) -> nat) -> bool {
    forall|i: int|
        0 <= i < orig.len() ==> refs_below(
            (#[trigger] orig[i]).placeables,
            orig,
            rank,
            rank(orig[i].name) as int,
        )
}

proof fn lemma_find_maybe_found(orig: Seq<MaybeV>, name: Seq<char>, i: int)
    requires
        find_maybe(orig, name, i) is Some,
    ensures
        exists|j: int| 0 <= j < orig.len() && orig[j] == find_maybe(orig, name, i)->0,
        (find_maybe(orig, name, i)->0).name == name,
    decreases orig.len() - i,
{
    if 0 <= i < orig.len() && orig[i].name != name {
        lemma_find_maybe_found(orig, name, i + 1);
    }
}

proof fn lemma_expand_below(
    ps: Seq<PlaceableV>,
    orig: Seq<MaybeV>,
    name: Seq<char>,
    rank: spec_fn(Seq<char>) -> nat,
    b: int,
)
    requires
        ranked(orig, rank),
        refs_below(ps, orig, rank, b),
    ensures
        refs_below(expand(ps, orig, name).0, orig, rank, b - 1),
        b <= 0 ==> expand(ps, orig, name).1,
    decreases ps.len(),
{
    if ps.len() > 0 {
        let front = ps.drop_last();
        assert(refs_below(front, orig, rank, b)) by {
            assert forall|k: int| 0 <= k < front.len() implies match #[trigger] front[k] {
                PlaceableV::Reference(id) => find_maybe(orig, id, 0) is Some ==> rank(id) < b,
                PlaceableV::Text(_) => true,
            } by {
                assert(front[k] == ps[k]);
            }
        }
        lemma_expand_below(front, orig, name, rank, b);
        let (n, ok, errs) = expand(front, orig, name);
        let last = ps.last();
        assert(ps[ps.len() - 1] == last);
        match last {
            PlaceableV::Text(t) => {
                let n2 = n.push(PlaceableV::Text(t));
                assert forall|k: int| 0 <= k < n2.len() implies match #[trigger] n2[k] {
                    PlaceableV::Reference(id) => find_maybe(orig, id, 0) is Some ==> rank(id) < b - 1,
                    PlaceableV::Text(_) => true,
                } by {
                    if k < n.len() {
                        assert(n2[k] == n[k]);
                    }
                }
            },
            PlaceableV::Reference(id) => match find_maybe(orig, id, 0) {
                Some(t) => {
                    lemma_find_maybe_found(orig, id, 0);
                    let j = choose|j: int| 0 <= j < orig.len() && orig[j] == t;
                    assert(refs_below(orig[j].placeables, orig, rank, rank(orig[j].name) as int));
                    let n2 = n + t.placeables;
                    assert forall|k: int| 0 <= k < n2.len() implies match #[trigger] n2[k] {
                        PlaceableV::Reference(id2) => find_maybe(orig, id2, 0) is Some ==> rank(id2)
                            < b - 1,
                        PlaceableV::Text(_) => true,
                    } by {
                        if k < n.len() {
                            assert(n2[k] == n[k]);
                        } else {
                            assert(n2[k] == t.placeables[k - n.len()]);
                        }
                    }
                },
                None => {},
            },
        }
    }
}

proof fn lemma_no_reference_below(ps: Seq<PlaceableV>, orig: Seq<MaybeV>, rank: spec_fn(Seq<char>) -> nat, b: int)
    requires
        !has_reference(ps),
    ensures
        refs_below(ps, orig, rank, b),
{
    assert forall|k: int| 0 <= k < ps.len() implies match #[trigger] ps[k] {
        PlaceableV::Reference(id) => find_maybe(orig, id, 0) is Some ==> rank(id) < b,
        PlaceableV::Text(_) => true,
    } by {
        if ps[k] is Reference {
            assert(is_reference(ps[k]));
        }
    }
}

/// Whether the references of each message of `es` to messages of `orig`
/// name messages of rank below `b`.
pub open spec fn all_refs_below(
    es: Seq<MaybeV>,
    orig: Seq<MaybeV>,
    rank: spec_fn(Seq<char>) -> nat,
    b: int,
) -> bool {
    forall|i: int| 0 <= i < es.len() ==> refs_below((#[trigger] es[i]).placeables, orig, rank, b)
}

proof fn lemma_round_below(es: Seq<MaybeV>, orig: Seq<MaybeV>, rank: spec_fn(Seq<char>) -> nat, b: int)
    requires
        ranked(orig, rank),
        all_refs_below(es, orig, rank, b),
    ensures
        all_refs_below(round(es, orig).0, orig, rank, b - 1),
        round(es, orig).0.len() == es.len(),
        b <= 0 ==> round(es, orig).1 == round(es, orig).0,
    decreases es.len(),
{
    if es.len() > 0 {
        let front = es.drop_last();
        assert(all_refs_below(front, orig, rank, b)) by {
            assert forall|i: int| 0 <= i < front.len() implies refs_below(
                (#[trigger] front[i]).placeables,
                orig,
                rank,
                b,
            ) by {
                assert(front[i] == es[i]);
            }
        }
        lemma_round_below(front, orig, rank, b);
        let m = es.last();
        assert(es[es.len() - 1] == m);
        lemma_expand_below(m.placeables, orig, m.name, rank, b);
        if !has_reference(m.placeables) {
            lemma_no_reference_below(m.placeables, orig, rank, b - 1);
        }
        let (u, r, e) = round(front, orig);
        let (m2, ok, errs) = step_entry(m, orig);
        let u2 = u.push(m2);
        assert forall|i: int| 0 <= i < u2.len() implies refs_below(
            (#[trigger] u2[i]).placeables,
            orig,
            rank,
            b - 1,
        ) by {
            if i < u.len() {
                assert(u2[i] == u[i]);
            }
        }
    }
}

proof fn lemma_without_own_names(u: Seq<MaybeV>, names: Seq<Seq<char>>)
    requires
        forall|i: int| 0 <= i < u.len() ==> names.contains(#[trigger] u[i].name),
    ensures
        without_names(u, names).len() == 0,
    decreases u.len(),
{
    if u.len() > 0 {
        let front = u.drop_last();
        assert forall|i: int| 0 <= i < front.len() implies names.contains(#[trigger] front[i].name) by {
            assert(front[i] == u[i]);
        }
        lemma_without_own_names(front, names);
        assert(u[u.len() - 1] == u.last());
    }
}

proof fn lemma_without_names_below(
    u: Seq<MaybeV>,
    names: Seq<Seq<char>>,
    orig: Seq<MaybeV>,
    rank: spec_fn(Seq<char>) -> nat,
    b: int,
)
    requires
        all_refs_below(u, orig, rank, b),
    ensures
        all_refs_below(without_names(u, names), orig, rank, b),
    decreases u.len(),
{
    if u.len() > 0 {
        let front = u.drop_last();
        assert(all_refs_below(front, orig, rank, b)) by {
            assert forall|i: int| 0 <= i < front.len() implies refs_below(
                (#[trigger] front[i]).placeables,
                orig,
                rank,
                b,
            ) by {
                assert(front[i] == u[i]);
            }
        }
        lemma_without_names_below(front, names, orig, rank, b);
        let w = without_names(front, names);
        let w2 = without_names(u, names);
        assert(u[u.len() - 1] == u.last());
        assert forall|i: int| 0 <= i < w2.len() implies refs_below(
            (#[trigger] w2[i]).placeables,
            orig,
            rank,
            b,
        ) by {
            if i < w.len() {
                assert(w2[i] == w[i]);
            }
        }
    }
}

proof fn lemma_rounds_end(
    es: Seq<MaybeV>,
    orig: Seq<MaybeV>,
    rank: spec_fn(Seq<char>) -> nat,
    b: int,
    fuel: nat,
)
    requires
        ranked(orig, rank),
        all_refs_below(es, orig, rank, b),
        0 <= b,
        fuel >= b + 1,
    ensures
        resolve_rounds(es, orig, fuel) is Some,
    decreases fuel,
{
    if es.len() > 0 {
        lemma_round_below(es, orig, rank, b);
        let (u, r, e) = round(es, orig);
        let rest = without_names(u, names_of(r));
        if b == 0 {
            assert forall|i: int| 0 <= i < u.len() implies names_of(r).contains(#[trigger] u[i].name) by {
                assert(names_of(r)[i] == u[i].name);
            }
            lemma_without_own_names(u, names_of(r));
            assert(resolve_rounds(rest, orig, (fuel - 1) as nat) is Some);
        } else {
            lemma_without_names_below(u, names_of(r), orig, rank, b - 1);
            lemma_rounds_end(rest, orig, rank, b - 1, (fuel - 1) as nat);
        }
        assert(resolve_rounds(rest, orig, (fuel - 1) as nat) is Some);
    }
}

/// Resolving message references ends where the messages can be ranked,
/// each below their number, so that each message refers only to messages
/// of lower rank: wherever references do not go round in a circle.
pub proof fn law_resolution_ends_without_circles(ms: Seq<MaybeV>, rank: spec_fn(Seq<char>) -> nat)
    requires
        ranked(ms, rank),
        forall|i: int| 0 <= i < ms.len() ==> rank(#[trigger] ms[i].name) < ms.len(),
    ensures
        resolve_messages(ms) is Some,
{
    if any_reference(ms) {
        assert forall|i: int| 0 <= i < ms.len() implies refs_below(
            (#[trigger] ms[i]).placeables,
            ms,
            rank,
            ms.len() as int,
        ) by {
            assert(refs_below(ms[i].placeables, ms, rank, rank(ms[i].name) as int));
            assert(rank(ms[i].name) < ms.len());
            let ps = ms[i].placeables;
            assert forall|k: int| 0 <= k < ps.len() implies match #[trigger] ps[k] {
                PlaceableV::Reference(id) => find_maybe(ms, id, 0) is Some ==> rank(id) < ms.len(),
                PlaceableV::Text(_) => true,
            } by {
                assert(match ps[k] {
                    PlaceableV::Reference(id) => find_maybe(ms, id, 0) is Some ==> rank(id) < rank(
                        ms[i].name,
                    ),
                    PlaceableV::Text(_) => true,
                });
            }
        }
        lemma_rounds_end(ms, ms, rank, ms.len() as int, (ms.len() + 1) as nat);
    }
}

fn clone_placeable(p: &Placeable) -> (r: Placeable)
    ensures
        r@ == p@,
{
    match p {
        Placeable::String(s) => Placeable::String(s.clone()),
        Placeable::MessageReference(s) => Placeable::MessageReference(s.clone()),
    }
}

fn clone_placeables(v: &Vec<Placeable>) -> (r: Vec<Placeable>)
    ensures
        placeables_of(r@) == placeables_of(v@),
{
    let mut r: Vec<Placeable> = Vec::new();
    let mut i: usize = 0;
    while i < v.len()
        invariant
            i <= v@.len(),
            placeables_of(r@) == placeables_of(v@).take(i as int),
        decreases v@.len() - i,
    {
        let ghost before = placeables_of(r@);
        r.push(clone_placeable(&v[i]));
        assert(placeables_of(r@) =~= before.push(v@[i as int]@));
        assert(placeables_of(v@).take(i + 1) =~= placeables_of(v@).take(i as int).push(v@[i as int]@));
        i = i + 1;
    }
    assert(placeables_of(v@).take(v@.len() as int) =~= placeables_of(v@));
    r
}

fn clone_maybe(m: &MaybeReferencedFluentEntry) -> (r: MaybeReferencedFluentEntry)
    ensures
        r@ == m@,
{
    MaybeReferencedFluentEntry {
        message_name: m.message_name.clone(),
        placeables: clone_placeables(&m.placeables),
    }
}

fn has_reference_exec(ps: &Vec<Placeable>) -> (r: bool)
    ensures
        r == has_reference(placeables_of(ps@)),
{
    let mut i: usize = 0;
    while i < ps.len()
        invariant
            i <= ps@.len(),
            forall|j: int| 0 <= j < i ==> !is_reference(#[trigger] placeables_of(ps@)[j]),
        decreases ps@.len() - i,
    {
        if let Placeable::MessageReference(_) = &ps[i] {
            assert(is_reference(placeables_of(ps@)[i as int]));
            return true;
        }
        i = i + 1;
    }
    false
}

fn any_reference_exec(ms: &Vec<MaybeReferencedFluentEntry>) -> (r: bool)
    ensures
        r == any_reference(maybes_of(ms@)),
{
    let mut i: usize = 0;
    while i < ms.len()
        invariant
            i <= ms@.len(),
            forall|j: int| 0 <= j < i ==> !has_reference(#[trigger] maybes_of(ms@)[j].placeables),
        decreases ms@.len() - i,
    {
        if has_reference_exec(&ms[i].placeables) {
            assert(has_reference(maybes_of(ms@)[i as int].placeables));
            return true;
        }
        i = i + 1;
    }
    false
}

fn find_maybe_exec(ms: &Vec<MaybeReferencedFluentEntry>, name: &String) -> (r: Option<usize>)
    ensures
        match r {
            Some(k) => k < ms@.len() && find_maybe(maybes_of(ms@), name@, 0) == Some(
                maybes_of(ms@)[k as int],
            ),
            None => find_maybe(maybes_of(ms@), name@, 0) is None,
        },
{
    let ghost mv = maybes_of(ms@);
    let mut i: usize = 0;
    while i < ms.len()
        invariant
            i <= ms@.len(),
            mv == maybes_of(ms@),
            find_maybe(mv, name@, 0) == find_maybe(mv, name@, i as int),
        decreases ms@.len() - i,
    {
        if ms[i].message_name == *name {
            return Some(i);
        }
        i = i + 1;
    }
    None
}

fn reference_error_message(id: &String, entry_name: &String) -> (r: String)
    ensures
        r@ == reference_error(id@, entry_name@),
{
    let mut m = String::from_str("Message reference \"");
    text::push_str(&mut m, id.as_str());
    text::push_str(&mut m, "\" of entry \"");
    text::push_str(&mut m, entry_name.as_str());
    text::push_str(&mut m, "\" is not found");
    m
}

fn expand_exec(ps: &Vec<Placeable>, orig: &Vec<MaybeReferencedFluentEntry>, name: &String) -> (r: (
    Vec<Placeable>,
    bool,
    Vec<String>,
))
    ensures
        (placeables_of(r.0@), r.1, text::strs_of(r.2@)) == expand(
            placeables_of(ps@),
            maybes_of(orig@),
            name@,
        ),
{
    let ghost pv = placeables_of(ps@);
    let ghost ov = maybes_of(orig@);
    let mut n: Vec<Placeable> = Vec::new();
    let mut ok = true;
    let mut errs: Vec<String> = Vec::new();
    let mut i: usize = 0;
    while i < ps.len()
        invariant
            i <= ps@.len(),
            pv == placeables_of(ps@),
            ov == maybes_of(orig@),
            (placeables_of(n@), ok, text::strs_of(errs@)) == expand(pv.take(i as int), ov, name@),
        decreases ps@.len() - i,
    {
        assert(pv.take(i + 1).drop_last() =~= pv.take(i as int));
        let ghost nb = placeables_of(n@);
        let ghost eb = text::strs_of(errs@);
        match &ps[i] {
            Placeable::String(t) => {
                n.push(Placeable::String(t.clone()));
                assert(placeables_of(n@) =~= nb.push(PlaceableV::Text(t@)));
            },
            Placeable::MessageReference(id) => match find_maybe_exec(orig, id) {
                Some(k) => {
                    let target = &orig[k];
                    let mut j: usize = 0;
                    while j < target.placeables.len()
                        invariant
                            j <= target.placeables@.len(),
                            placeables_of(n@) == nb + placeables_of(target.placeables@).take(j as int),
                        decreases target.placeables@.len() - j,
                    {
                        let ghost before = placeables_of(n@);
                        n.push(clone_placeable(&target.placeables[j]));
                        assert(placeables_of(n@) =~= before.push(target.placeables@[j as int]@));
                        assert(placeables_of(target.placeables@).take(j + 1) =~= placeables_of(
                            target.placeables@,
                        ).take(j as int).push(target.placeables@[j as int]@));
                        j = j + 1;
                    }
                    assert(placeables_of(target.placeables@).take(target.placeables@.len() as int)
                        =~= placeables_of(target.placeables@));
                    let plain = !has_reference_exec(&target.placeables);
                    ok = ok && plain;
                },
                None => {
                    errs.push(reference_error_message(id, name));
                    assert(text::strs_of(errs@) =~= eb.push(reference_error(id@, name@)));
                },
            },
        }
        i = i + 1;
    }
    assert(pv.take(ps@.len() as int) =~= pv);
    (n, ok, errs)
}

fn step_entry_exec(m: &MaybeReferencedFluentEntry, orig: &Vec<MaybeReferencedFluentEntry>) -> (r: (
    MaybeReferencedFluentEntry,
    bool,
    Vec<String>,
))
    ensures
        (r.0@, r.1, text::strs_of(r.2@)) == step_entry(m@, maybes_of(orig@)),
{
    let (n, ok, errs) = expand_exec(&m.placeables, orig, &m.message_name);
    if has_reference_exec(&m.placeables) {
        (MaybeReferencedFluentEntry { message_name: m.message_name.clone(), placeables: n }, ok, errs)
    } else {
        (clone_maybe(m), true, errs)
    }
}

fn entry_of_maybe_exec(m: &MaybeReferencedFluentEntry) -> (r: FluentEntry)
    ensures
        r@ == entry_of_maybe(m@),
{
    let mut ps: Vec<String> = Vec::new();
    let mut i: usize = 0;
    while i < m.placeables.len()
        invariant
            i <= m.placeables@.len(),
            text::strs_of(ps@) == entry_of_maybe(m@).placeables.take(i as int),
        decreases m.placeables@.len() - i,
    {
        let t = match &m.placeables[i] {
            Placeable::String(s) => s.clone(),
            Placeable::MessageReference(s) => s.clone(),
        };
        let ghost before = text::strs_of(ps@);
        ps.push(t);
        assert(text::strs_of(ps@) =~= before.push(t@));
        assert(entry_of_maybe(m@).placeables.take(i + 1) =~= entry_of_maybe(m@).placeables.take(
            i as int,
        ).push(t@));
        i = i + 1;
    }
    assert(entry_of_maybe(m@).placeables.take(m.placeables@.len() as int) =~= entry_of_maybe(m@).placeables);
    FluentEntry { message_name: m.message_name.clone(), placeables: ps }
}

/// Joins the outcome of the rounds already made with the outcome of the
/// rounds that remain.
pub open spec fn after(o: Seq<MaybeV>, e: Seq<Seq<char>>, rest: Option<(Seq<MaybeV>, Seq<Seq<char>>)>) -> Option<
    (Seq<MaybeV>, Seq<Seq<char>>),
> {
    match rest {
        Some((o2, e2)) => Some((o + o2, e + e2)),
        None => None,
    }
}

fn resolve_exec(ms: &Vec<MaybeReferencedFluentEntry>) -> (r: Option<(Vec<MaybeReferencedFluentEntry>, Vec<String>)>)
    ensures
        match r {
            Some((o, e)) => resolve_rounds(maybes_of(ms@), maybes_of(ms@), ms@.len() + 1) == Some(
                (maybes_of(o@), text::strs_of(e@)),
            ),
            None => resolve_rounds(maybes_of(ms@), maybes_of(ms@), ms@.len() + 1) is None,
        },
{
    let ghost ov = maybes_of(ms@);
    let n = ms.len();
    let mut entries: Vec<MaybeReferencedFluentEntry> = Vec::new();
    let mut k: usize = 0;
    while k < n
        invariant
            k <= n,
            n == ms@.len(),
            maybes_of(entries@) == ov.take(k as int),
            ov == maybes_of(ms@),
        decreases n - k,
    {
        let ghost before = maybes_of(entries@);
        entries.push(clone_maybe(&ms[k]));
        assert(maybes_of(entries@) =~= before.push(ov[k as int]));
        assert(ov.take(k + 1) =~= ov.take(k as int).push(ov[k as int]));
        k = k + 1;
    }
    assert(ov.take(n as int) =~= ov);
    let mut out: Vec<MaybeReferencedFluentEntry> = Vec::new();
    let mut errors: Vec<String> = Vec::new();
    let mut left: usize = n;
    while entries.len() > 0
        invariant
            n == ms@.len(),
            ov == maybes_of(ms@),
            resolve_rounds(ov, ov, (n + 1) as nat) == after(
                maybes_of(out@),
                text::strs_of(errors@),
                resolve_rounds(maybes_of(entries@), ov, (left + 1) as nat),
            ),
        decreases left,
    {
        let ghost ev = maybes_of(entries@);
        let mut updated: Vec<MaybeReferencedFluentEntry> = Vec::new();
        let mut resolved: Vec<MaybeReferencedFluentEntry> = Vec::new();
        let mut errs: Vec<String> = Vec::new();
        let mut i: usize = 0;
        while i < entries.len()
            invariant
                i <= entries@.len(),
                ev == maybes_of(entries@),
                ov == maybes_of(ms@),
                (maybes_of(updated@), maybes_of(resolved@), text::strs_of(errs@)) == round(
                    ev.take(i as int),
                    ov,
                ),
            decreases entries@.len() - i,
        {
            assert(ev.take(i + 1).drop_last() =~= ev.take(i as int));
            let ghost ub = maybes_of(updated@);
            let ghost rb = maybes_of(resolved@);
            let ghost eb = text::strs_of(errs@);
            let (m, ok, es) = step_entry_exec(&entries[i], ms);
            if ok {
                resolved.push(clone_maybe(&m));
                assert(maybes_of(resolved@) =~= rb.push(m@));
            }
            updated.push(m);
            assert(maybes_of(updated@) =~= ub.push(updated@.last()@));
            let mut j: usize = 0;
            while j < es.len()
                invariant
                    j <= es@.len(),
                    text::strs_of(errs@) == eb + text::strs_of(es@).take(j as int),
                decreases es@.len() - j,
            {
                let ghost before = text::strs_of(errs@);
                errs.push(es[j].clone());
                assert(text::strs_of(errs@) =~= before.push(es@[j as int]@));
                assert(text::strs_of(es@).take(j + 1) =~= text::strs_of(es@).take(j as int).push(
                    es@[j as int]@,
                ));
                j = j + 1;
            }
            assert(text::strs_of(es@).take(es@.len() as int) =~= text::strs_of(es@));
            i = i + 1;
        }
        assert(ev.take(entries@.len() as int) =~= ev);
        let mut names: Vec<String> = Vec::new();
        let mut j: usize = 0;
        while j < resolved.len()
            invariant
                j <= resolved@.len(),
                text::strs_of(names@) == names_of(maybes_of(resolved@)).take(j as int),
            decreases resolved@.len() - j,
        {
            let ghost before = text::strs_of(names@);
            names.push(resolved[j].message_name.clone());
            assert(text::strs_of(names@) =~= before.push(resolved@[j as int].message_name@));
            assert(names_of(maybes_of(resolved@)).take(j + 1) =~= names_of(maybes_of(resolved@)).take(
                j as int,
            ).push(resolved@[j as int].message_name@));
            j = j + 1;
        }
        assert(names_of(maybes_of(resolved@)).take(resolved@.len() as int) =~= names_of(
            maybes_of(resolved@),
        ));
        let ghost uv = maybes_of(updated@);
        let ghost nv = text::strs_of(names@);
        let mut remaining: Vec<MaybeReferencedFluentEntry> = Vec::new();
        let mut j: usize = 0;
        while j < updated.len()
            invariant
                j <= updated@.len(),
                uv == maybes_of(updated@),
                nv == text::strs_of(names@),
                maybes_of(remaining@) == without_names(uv.take(j as int), nv),
            decreases updated@.len() - j,
        {
            assert(uv.take(j + 1).drop_last() =~= uv.take(j as int));
            if !text::contains_string(&names, &updated[j].message_name) {
                let ghost before = maybes_of(remaining@);
                remaining.push(clone_maybe(&updated[j]));
                assert(maybes_of(remaining@) =~= before.push(uv[j as int]));
            }
            j = j + 1;
        }
        assert(uv.take(updated@.len() as int) =~= uv);
        let ghost ob = maybes_of(out@);
        let ghost erb = text::strs_of(errors@);
        let mut j: usize = 0;
        while j < resolved.len()
            invariant
                j <= resolved@.len(),
                maybes_of(out@) == ob + maybes_of(resolved@).take(j as int),
            decreases resolved@.len() - j,
        {
            let ghost before = maybes_of(out@);
            out.push(clone_maybe(&resolved[j]));
            assert(maybes_of(out@) =~= before.push(resolved@[j as int]@));
            assert(maybes_of(resolved@).take(j + 1) =~= maybes_of(resolved@).take(j as int).push(
                resolved@[j as int]@,
            ));
            j = j + 1;
        }
        assert(maybes_of(resolved@).take(resolved@.len() as int) =~= maybes_of(resolved@));
        let mut j: usize = 0;
        while j < errs.len()
            invariant
                j <= errs@.len(),
                text::strs_of(errors@) == erb + text::strs_of(errs@).take(j as int),
            decreases errs@.len() - j,
        {
            let ghost before = text::strs_of(errors@);
            errors.push(errs[j].clone());
            assert(text::strs_of(errors@) =~= before.push(errs@[j as int]@));
            assert(text::strs_of(errs@).take(j + 1) =~= text::strs_of(errs@).take(j as int).push(
                errs@[j as int]@,
            ));
            j = j + 1;
        }
        assert(text::strs_of(errs@).take(errs@.len() as int) =~= text::strs_of(errs@));
        proof {
            let fuel = (left + 1) as nat;
            let rest = resolve_rounds(maybes_of(remaining@), ov, (fuel - 1) as nat);
            assert(resolve_rounds(ev, ov, fuel) == after(
                maybes_of(resolved@),
                text::strs_of(errs@),
                rest,
            ));
            match rest {
                Some((o2, e2)) => {
                    assert(ob + (maybes_of(resolved@) + o2) =~= (ob + maybes_of(resolved@)) + o2);
                    assert(erb + (text::strs_of(errs@) + e2) =~= (erb + text::strs_of(errs@)) + e2);
                },
                None => {},
            }
        }
        if left == 0 {
            if remaining.len() == 0 {
                return Some((out, errors));
            } else {
                return None;
            }
        }
        entries = remaining;
        left = left - 1;
    }
    Some((out, errors))
}

/// The fluent entries of the parsed resource `entries`, with the errors met
/// resolving message references: each message with a value gives an entry
/// with its variables, those of the functions it calls and of the
/// selectors it uses, in order; a reference to another message stands for
/// that message's variables. `requires` leaves out the resources whose
/// messages are not all resolved within one round per message (references
/// that go round in a circle, whose resolution never ends).
pub fn get_fluent_entries_from_resource(entries: &Vec<FtlEntry>) -> (r: (Vec<FluentEntry>, Vec<String>))
    requires
        resource_entries(ftl_entries_of(entries@)) is Some,
    ensures
        resource_entries(ftl_entries_of(entries@)) == Some(
            (lang_entries_of(r.0@), text::strs_of(r.1@)),
        ),
{
    match checked_fluent_entries_from_resource(entries) {
        Some(r) => r,
        None => {
            assert(false);
            (Vec::new(), Vec::new())
        },
    }
}

/// The fluent entries of the parsed resource `entries` (see
/// `get_fluent_entries_from_resource`), or `None` where its messages are
/// not all resolved within one round per message.
pub fn checked_fluent_entries_from_resource(entries: &Vec<FtlEntry>) -> (r: Option<
    (Vec<FluentEntry>, Vec<String>),
>)
    ensures
        match r {
            Some((es, errs)) => resource_entries(ftl_entries_of(entries@)) == Some(
                (lang_entries_of(es@), text::strs_of(errs@)),
            ),
            None => resource_entries(ftl_entries_of(entries@)) is None,
        },
{
    let ms = maybe_referenced_entries(entries);
    let ghost mv = maybes_of(ms@);
    let (resolved, errors) = if !any_reference_exec(&ms) {
        (ms, Vec::new())
    } else {
        match resolve_exec(&ms) {
            Some(r) => r,
            None => {
                return None;
            },
        }
    };
    let mut out: Vec<FluentEntry> = Vec::new();
    let mut i: usize = 0;
    while i < resolved.len()
        invariant
            i <= resolved@.len(),
            lang_entries_of(out@) == Seq::new(
                resolved@.len(),
                |k: int| entry_of_maybe(maybes_of(resolved@)[k]),
            ).take(i as int),
        decreases resolved@.len() - i,
    {
        let ghost before = lang_entries_of(out@);
        let e = entry_of_maybe_exec(&resolved[i]);
        out.push(e);
        assert(lang_entries_of(out@) =~= before.push(e@));
        assert(Seq::new(resolved@.len(), |k: int| entry_of_maybe(maybes_of(resolved@)[k])).take(
            i + 1,
        ) =~= Seq::new(resolved@.len(), |k: int| entry_of_maybe(maybes_of(resolved@)[k])).take(
            i as int,
        ).push(e@));
        i = i + 1;
    }
    assert(lang_entries_of(out@) =~= Seq::new(
        resolved@.len(),
        |k: int| entry_of_maybe(maybes_of(resolved@)[k]),
    ));
    proof {
        if !any_reference(mv) {
            assert(text::strs_of(errors@) =~= seq![]);
        }
    }
    Some((out, errors))
}

// ---------------------------------------------------------------------------
// Positions in a resource
// ---------------------------------------------------------------------------

/// The text of `content` before the byte offset `index`, or `None` where
/// `index` is past the end or inside a character (where slicing panics).
pub open spec fn str_prefix(content: Seq<char>, index: int) -> Option<Seq<char>> {
    let b = encode_utf8(content);
    if 0 <= index <= b.len() && is_char_boundary(b, index) {
        Some(decode_utf8(b.subrange(0, index)))
    } else {
        None
    }
}

/// The number of line breaks in `s`.
pub open spec fn count_newlines(s: Seq<char>) -> nat
    decreases s.len(),
{
    if s.len() == 0 {
        0
    } else {
        count_newlines(s.drop_last()) + if s.last() == '\n' {
            1nat
        } else {
            0nat
        }
    }
}

/// The number of characters of `s` after its last line break.
pub open spec fn trailing_len(s: Seq<char>) -> nat
    decreases s.len(),
{
    if s.len() == 0 {
        0
    } else if s.last() == '\n' {
        0
    } else {
        trailing_len(s.drop_last()) + 1
    }
}

/// The line and the column (both counted from 1) of the position that
/// follows the text `prefix`.
pub open spec fn line_col(prefix: Seq<char>) -> (int, int) {
    (count_newlines(prefix) + 1int, trailing_len(prefix) + 1int)
}

proof fn lemma_encode_len(s: Seq<char>)
    ensures
        encode_utf8(s).len() >= s.len(),
    decreases s.len(),
{
    if s.len() > 0 {
        lemma_encode_len(s.drop_first());
        assert(vstd::utf8::encode_scalar(s[0] as u32).len() >= 1);
    }
}

/// The line and the column (both counted from 1) of the byte offset `index`
/// in `content`.
pub fn line_col_from_index_content(content: &str, index: usize) -> (r: (usize, usize))
    requires
        str_prefix(content@, index as int) is Some,
    ensures
        (r.0 as int, r.1 as int) == line_col(str_prefix(content@, index as int)->0),
{
    proof {
        vstd::utf8::encode_utf8_valid_utf8(content@);
    }
    let p = match tr_macros::str_get(content, 0, index) {
        Some(p) => p,
        None => {
            return (0, 0);
        },
    };
    let n = tr_macros::byte_len(p);
    proof {
        vstd::utf8::encode_utf8_decode_utf8(p@);
        lemma_encode_len(p@);
    }
    let c = text::chars_of(p);
    let mut lines: usize = 0;
    let mut col: usize = 0;
    let mut i: usize = 0;
    while i < c.len()
        invariant
            i <= c@.len(),
            c@.len() <= isize::MAX,
            lines as int == count_newlines(c@.take(i as int)),
            col as int == trailing_len(c@.take(i as int)),
            lines <= i,
            col <= i,
        decreases c@.len() - i,
    {
        assert(c@.take(i + 1).drop_last() =~= c@.take(i as int));
        if c[i] == '\n' {
            lines = lines + 1;
            col = 0;
        } else {
            col = col + 1;
        }
        i = i + 1;
    }
    assert(c@.take(c@.len() as int) =~= c@);
    (lines + 1, col + 1)
}

// ---------------------------------------------------------------------------
// Relative paths
// ---------------------------------------------------------------------------

/// What `pathdiff::diff_paths` gives for `path` relative to `base` (with
/// the path syntax of the target): `None` where no relative path exists.
pub uninterp spec fn relative_path(path: Seq<char>, base: Seq<char>) -> Option<Seq<char>>;

/// `pathdiff::diff_paths`: the path `path` relative to `base`, as a string.
/// The result is named `relative_path`; that the path it gives holds only
/// the text of the two arguments is what makes the conversion to a string
/// lossless.
#[verifier::external_body]
pub(crate) fn diff_paths(path: &str, base: &str) -> (r: Option<String>)
    ensures
        tr_macros::opt_str(r) == relative_path(path@, base@),
{
    match pathdiff::diff_paths(path, base) {
        Some(p) => Some(p.to_string_lossy().into_owned()),
        None => None,
    }
}

// ---------------------------------------------------------------------------
// The entries of each locale
// ---------------------------------------------------------------------------

/// The model of a map from locales to strings (resources or file paths).
pub open spec fn lang_strs_of(v: Seq<(String, Vec<String>)>) -> Seq<(Seq<char>, Seq<Seq<char>>)> {
    Seq::new(v.len(), |i: int| (v[i].0@, text::strs_of(v[i].1@)))
}

/// The strings of the first locale of `v`, from index `i` on, named `lang`.
pub open spec fn find_lang(v: Seq<(Seq<char>, Seq<Seq<char>>)>, lang: Seq<char>, i: int) -> Option<
    Seq<Seq<char>>,
>
    decreases v.len() - i,
{
    if i < 0 || i >= v.len() {
        None
    } else if v[i].0 == lang {
        Some(v[i].1)
    } else {
        find_lang(v, lang, i + 1)
    }
}

/// The index of the first string of `rs`, from index `i` on, equal to `r`
/// (the length of `rs` where there is none).
pub open spec fn first_index_of(rs: Seq<Seq<char>>, r: Seq<char>, i: int) -> int
    decreases rs.len() - i,
{
    if i < 0 || i >= rs.len() {
        rs.len() as int
    } else if rs[i] == r {
        i
    } else {
        first_index_of(rs, r, i + 1)
    }
}

/// The path of the file of the resource `r` of the locale `lang`, whose
/// resources are `rs`: the path at the same index as the first resource
/// equal to `r`.
pub open spec fn file_path_of(
    paths: Seq<(Seq<char>, Seq<Seq<char>>)>,
    lang: Seq<char>,
    rs: Seq<Seq<char>>,
    r: Seq<char>,
) -> Option<Seq<char>> {
    match find_lang(paths, lang, 0) {
        Some(ps) => {
            let k = first_index_of(rs, r, 0);
            if 0 <= k < ps.len() {
                Some(ps[k])
            } else {
                None
            }
        },
        None => None,
    }
}

/// That path relative to the workspace `ws`.
pub open spec fn rel_file_path(
    paths: Seq<(Seq<char>, Seq<Seq<char>>)>,
    lang: Seq<char>,
    rs: Seq<Seq<char>>,
    r: Seq<char>,
    ws: Seq<char>,
) -> Option<Seq<char>> {
    match file_path_of(paths, lang, rs, r) {
        Some(fp) => relative_path(fp, ws),
        None => None,
    }
}

/// A parse error with its position in `source`: `"{error} (at line {line},
/// col {col})"`, or `None` where the position cannot be sliced.
pub open spec fn error_text(e: ErrorV, source: Seq<char>) -> Option<Seq<char>> {
    match str_prefix(source, e.start) {
        Some(p) => Some(
            e.description + " (at line "@ + text::decimal(count_newlines(p) + 1) + ", col "@
                + text::decimal(trailing_len(p) + 1) + ")"@,
        ),
        None => None,
    }
}

/// The texts of parse errors (see `error_text`).
pub open spec fn errors_text(es: Seq<ErrorV>, source: Seq<char>) -> Option<Seq<Seq<char>>>
    decreases es.len(),
{
    if es.len() == 0 {
        Some(seq![])
    } else {
        match errors_text(es.drop_last(), source) {
            Some(ts) => match error_text(es.last(), source) {
                Some(t) => Some(ts.push(t)),
                None => None,
            },
            None => None,
        }
    }
}

/// `"s"` for more than one, else nothing.
pub open spec fn plural(n: nat) -> Seq<char> {
    if n > 1 {
        "s"@
    } else {
        ""@
    }
}

/// The error reported for a resource of a locale.
pub open spec fn resource_error_message(
    count: nat,
    rel: Seq<char>,
    lang: Seq<char>,
    details: Seq<Seq<char>>,
) -> Seq<char> {
    "Error"@ + plural(count) + " parsing fluent resource in file "@ + rel + " for locale \""@ + lang
        + "\":\n  + "@ + text::join_with(details, "\n   +"@)
}

/// The error reported for the core resource.
pub open spec fn core_error_message(count: nat, rel: Seq<char>, details: Seq<Seq<char>>) -> Seq<
    char,
> {
    "Error"@ + plural(count) + " parsing core fluent resource in file "@ + rel + ":\n  + "@
        + text::join_with(details, "\n   +"@)
}

/// The entries of the resource `source` of the locale `lang` and the
/// errors reported for it, where `rel` is the path of its file relative to
/// the workspace. `None` stands for the panics (no relative path where one
/// is needed, an error position that cannot be sliced) and for messages
/// not all resolved within one round per message.
pub open spec fn resource_outcome(source: Seq<char>, lang: Seq<char>, rel: Option<Seq<char>>) -> Option<
    (Seq<EntryV>, Seq<Seq<char>>),
> {
    let p = ftl_parse(source);
    if p.errors.len() == 0 {
        match resource_entries(p.entries) {
            None => None,
            Some((es, errs)) => if errs.len() == 0 {
                Some((es, seq![]))
            } else {
                match rel {
                    Some(path) => Some(
                        (es, seq![resource_error_message(errs.len(), path, lang, errs)]),
                    ),
                    None => None,
                }
            },
        }
    } else {
        match rel {
            None => None,
            Some(path) => match resource_entries(p.entries) {
                None => None,
                Some((es, errs)) => match errors_text(p.errors, source) {
                    None => None,
                    Some(ts) => Some(
                        (es, errs.push(resource_error_message(p.errors.len(), path, lang, ts))),
                    ),
                },
            },
        }
    }
}

/// The entries and errors of the first `n` resources of the locale `lang`.
pub open spec fn locale_outcome(
    lang: Seq<char>,
    rs: Seq<Seq<char>>,
    n: int,
    paths: Seq<(Seq<char>, Seq<Seq<char>>)>,
    ws: Seq<char>,
) -> Option<(Seq<EntryV>, Seq<Seq<char>>)>
    decreases n,
{
    if n <= 0 {
        Some((seq![], seq![]))
    } else {
        match locale_outcome(lang, rs, n - 1, paths, ws) {
            None => None,
            Some((es, errs)) => match resource_outcome(
                rs[n - 1],
                lang,
                rel_file_path(paths, lang, rs, rs[n - 1], ws),
            ) {
                None => None,
                Some((es2, errs2)) => Some((es + es2, errs + errs2)),
            },
        }
    }
}

/// The entries of each locale and the errors reported for their resources.
pub open spec fn locales_outcome(
    res: Seq<(Seq<char>, Seq<Seq<char>>)>,
    paths: Seq<(Seq<char>, Seq<Seq<char>>)>,
    ws: Seq<char>,
) -> Option<(Seq<(Seq<char>, Seq<EntryV>)>, Seq<Seq<char>>)>
    decreases res.len(),
{
    if res.len() == 0 {
        Some((seq![], seq![]))
    } else {
        match locales_outcome(res.drop_last(), paths, ws) {
            None => None,
            Some((ls, errs)) => match locale_outcome(
                res.last().0,
                res.last().1,
                res.last().1.len() as int,
                paths,
                ws,
            ) {
                None => None,
                Some((es, errs2)) => Some((ls.push((res.last().0, es)), errs + errs2)),
            },
        }
    }
}

/// The entries `es` added to those of each locale.
pub open spec fn append_to_each(ls: Seq<(Seq<char>, Seq<EntryV>)>, es: Seq<EntryV>) -> Seq<
    (Seq<char>, Seq<EntryV>),
> {
    Seq::new(ls.len(), |i: int| (ls[i].0, ls[i].1 + es))
}

/// `n` copies of `s`, one after the other.
pub open spec fn repeat(s: Seq<Seq<char>>, n: nat) -> Seq<Seq<char>>
    decreases n,
{
    if n == 0 {
        seq![]
    } else {
        repeat(s, (n - 1) as nat) + s
    }
}

/// The core resource `core` added to each locale of `ls`, with the errors
/// reported for it, where `rel` is the path of its file relative to the
/// workspace (`None` where there is none).
pub open spec fn with_core(
    ls: Seq<(Seq<char>, Seq<EntryV>)>,
    errs: Seq<Seq<char>>,
    core: Seq<char>,
    rel: Option<Seq<char>>,
) -> Option<(Seq<(Seq<char>, Seq<EntryV>)>, Seq<Seq<char>>)> {
    let p = ftl_parse(core);
    if p.errors.len() == 0 {
        if ls.len() == 0 {
            Some((ls, errs))
        } else {
            match resource_entries(p.entries) {
                None => None,
                Some((es, cerrs)) => if cerrs.len() == 0 {
                    Some((append_to_each(ls, es), errs))
                } else {
                    match rel {
                        None => None,
                        Some(path) => Some(
                            (
                                append_to_each(ls, es),
                                errs + repeat(
                                    seq![core_error_message(cerrs.len(), path, cerrs)],
                                    ls.len(),
                                ),
                            ),
                        ),
                    }
                },
            }
        }
    } else {
        match rel {
            None => None,
            Some(path) => match errors_text(p.errors, core) {
                None => None,
                Some(ts) => {
                    let errs1 = errs.push(core_error_message(p.errors.len(), path, ts));
                    if ls.len() == 0 {
                        Some((ls, errs1))
                    } else {
                        match resource_entries(p.entries) {
                            None => None,
                            Some((es, cerrs)) => Some(
                                (append_to_each(ls, es), errs1 + repeat(cerrs, ls.len())),
                            ),
                        }
                    }
                },
            },
        }
    }
}

/// The fluent entries of each locale, with the core resource added to
/// each, and the errors reported; `None` where building them panics or
/// never ends (see `resource_outcome`).
pub open spec fn fluent_entries_spec(
    res: Seq<(Seq<char>, Seq<Seq<char>>)>,
    paths: Seq<(Seq<char>, Seq<Seq<char>>)>,
    ws: Seq<char>,
    core_path: Option<Seq<char>>,
    core: Option<Seq<char>>,
) -> Option<(Seq<(Seq<char>, Seq<EntryV>)>, Seq<Seq<char>>)> {
    match locales_outcome(res, paths, ws) {
        None => None,
        Some((ls, errs)) => match core {
            None => Some((ls, errs)),
            Some(c) => with_core(
                ls,
                errs,
                c,
                match core_path {
                    Some(cp) => relative_path(cp, ws),
                    None => None,
                },
            ),
        },
    }
}

proof fn lemma_locales_outcome_langs(
    res: Seq<(Seq<char>, Seq<Seq<char>>)>,
    paths: Seq<(Seq<char>, Seq<Seq<char>>)>,
    ws: Seq<char>,
)
    ensures
        locales_outcome(res, paths, ws) matches Some((ls, errs)) ==> ls.len() == res.len() && forall|
            i: int,
        |
            0 <= i < res.len() ==> (#[trigger] ls[i]).0 == res[i].0,
    decreases res.len(),
{
    if res.len() > 0 {
        lemma_locales_outcome_langs(res.drop_last(), paths, ws);
        match locales_outcome(res, paths, ws) {
            Some((ls, errs)) => {
                let (front, _) = locales_outcome(res.drop_last(), paths, ws)->0;
                assert forall|i: int| 0 <= i < res.len() implies (#[trigger] ls[i]).0 == res[i].0 by {
                    if i < res.len() - 1 {
                        assert(ls[i] == front[i]);
                        assert(res[i] == res.drop_last()[i]);
                    }
                }
            },
            None => {},
        }
    }
}

/// Each locale gets its list of entries, in the order of the locales, the
/// core resource or not.
pub proof fn law_every_locale_has_entries(
    res: Seq<(Seq<char>, Seq<Seq<char>>)>,
    paths: Seq<(Seq<char>, Seq<Seq<char>>)>,
    ws: Seq<char>,
    core_path: Option<Seq<char>>,
    core: Option<Seq<char>>,
)
    ensures
        fluent_entries_spec(res, paths, ws, core_path, core) matches Some((ls, errs)) ==> ls.len()
            == res.len() && forall|i: int| 0 <= i < res.len() ==> (#[trigger] ls[i]).0 == res[i].0,
{
    lemma_locales_outcome_langs(res, paths, ws);
}

fn clone_entry(e: &FluentEntry) -> (r: FluentEntry)
    ensures
        r@ == e@,
{
    FluentEntry { message_name: e.message_name.clone(), placeables: text::clone_strings(&e.placeables) }
}

fn append_entries(dst: &mut Vec<FluentEntry>, src: &Vec<FluentEntry>)
    ensures
        lang_entries_of(final(dst)@) == lang_entries_of(old(dst)@) + lang_entries_of(src@),
{
    let ghost start = lang_entries_of(dst@);
    let mut i: usize = 0;
    while i < src.len()
        invariant
            i <= src@.len(),
            lang_entries_of(dst@) == start + lang_entries_of(src@).take(i as int),
        decreases src@.len() - i,
    {
        let ghost before = lang_entries_of(dst@);
        dst.push(clone_entry(&src[i]));
        assert(lang_entries_of(dst@) =~= before.push(src@[i as int]@));
        assert(lang_entries_of(src@).take(i + 1) =~= lang_entries_of(src@).take(i as int).push(
            src@[i as int]@,
        ));
        i = i + 1;
    }
    assert(lang_entries_of(src@).take(src@.len() as int) =~= lang_entries_of(src@));
}

pub(crate) fn find_lang_exec(v: &Vec<(String, Vec<String>)>, lang: &String) -> (r: Option<usize>)
    ensures
        match r {
            Some(k) => k < v@.len() && find_lang(lang_strs_of(v@), lang@, 0) == Some(
                text::strs_of(v@[k as int].1@),
            ),
            None => find_lang(lang_strs_of(v@), lang@, 0) is None,
        },
{
    let ghost lv = lang_strs_of(v@);
    let mut i: usize = 0;
    while i < v.len()
        invariant
            i <= v@.len(),
            lv == lang_strs_of(v@),
            find_lang(lv, lang@, 0) == find_lang(lv, lang@, i as int),
        decreases v@.len() - i,
    {
        if v[i].0 == *lang {
            return Some(i);
        }
        i = i + 1;
    }
    None
}

fn first_index_exec(rs: &Vec<String>, r: &String) -> (k: usize)
    ensures
        k as int == first_index_of(text::strs_of(rs@), r@, 0),
{
    let ghost rv = text::strs_of(rs@);
    let mut i: usize = 0;
    while i < rs.len()
        invariant
            i <= rs@.len(),
            rv == text::strs_of(rs@),
            first_index_of(rv, r@, 0) == first_index_of(rv, r@, i as int),
        decreases rs@.len() - i,
    {
        if rs[i] == *r {
            return i;
        }
        i = i + 1;
    }
    i
}

fn rel_file_path_exec(
    paths: &Vec<(String, Vec<String>)>,
    lang: &String,
    rs: &Vec<String>,
    r: &String,
    ws: &str,
) -> (o: Option<String>)
    ensures
        tr_macros::opt_str(o) == rel_file_path(lang_strs_of(paths@), lang@, text::strs_of(rs@), r@, ws@),
{
    match find_lang_exec(paths, lang) {
        Some(i) => {
            let k = first_index_exec(rs, r);
            let ps = &paths[i].1;
            if k < ps.len() {
                diff_paths(ps[k].as_str(), ws)
            } else {
                None
            }
        },
        None => None,
    }
}

fn error_text_exec(e: &FtlError, source: &str) -> (o: Option<String>)
    ensures
        tr_macros::opt_str(o) == error_text(e@, source@),
{
    proof {
        vstd::utf8::encode_utf8_valid_utf8(source@);
    }
    match tr_macros::str_get(source, 0, e.start) {
        None => None,
        Some(_) => {
            let (line, col) = line_col_from_index_content(source, e.start);
            let mut m = e.description.clone();
            text::push_str(&mut m, " (at line ");
            let l = text::decimal_string(line);
            text::push_str(&mut m, l.as_str());
            text::push_str(&mut m, ", col ");
            let c = text::decimal_string(col);
            text::push_str(&mut m, c.as_str());
            text::push_str(&mut m, ")");
            Some(m)
        },
    }
}

proof fn lemma_errors_text_none(ev: Seq<ErrorV>, source: Seq<char>, k: int)
    requires
        0 <= k <= ev.len(),
        errors_text(ev.take(k), source) is None,
    ensures
        errors_text(ev, source) is None,
    decreases ev.len() - k,
{
    if k < ev.len() {
        assert(ev.take(k + 1).drop_last() =~= ev.take(k));
        lemma_errors_text_none(ev, source, k + 1);
    } else {
        assert(ev.take(k) =~= ev);
    }
}

proof fn lemma_locale_outcome_none(
    lang: Seq<char>,
    rs: Seq<Seq<char>>,
    j: int,
    n: int,
    paths: Seq<(Seq<char>, Seq<Seq<char>>)>,
    ws: Seq<char>,
)
    requires
        0 <= j <= n,
        locale_outcome(lang, rs, j, paths, ws) is None,
    ensures
        locale_outcome(lang, rs, n, paths, ws) is None,
    decreases n - j,
{
    if j < n {
        lemma_locale_outcome_none(lang, rs, j + 1, n, paths, ws);
    }
}

proof fn lemma_locales_outcome_none(
    res: Seq<(Seq<char>, Seq<Seq<char>>)>,
    paths: Seq<(Seq<char>, Seq<Seq<char>>)>,
    ws: Seq<char>,
    k: int,
)
    requires
        0 <= k <= res.len(),
        locales_outcome(res.take(k), paths, ws) is None,
    ensures
        locales_outcome(res, paths, ws) is None,
    decreases res.len() - k,
{
    if k < res.len() {
        assert(res.take(k + 1).drop_last() =~= res.take(k));
        lemma_locales_outcome_none(res, paths, ws, k + 1);
    } else {
        assert(res.take(k) =~= res);
    }
}

fn errors_text_exec(es: &Vec<FtlError>, source: &str) -> (o: Option<Vec<String>>)
    ensures
        match o {
            Some(ts) => errors_text(errors_of(es@), source@) == Some(text::strs_of(ts@)),
            None => errors_text(errors_of(es@), source@) is None,
        },
{
    let ghost ev = errors_of(es@);
    let mut ts: Vec<String> = Vec::new();
    let mut i: usize = 0;
    while i < es.len()
        invariant
            i <= es@.len(),
            ev == errors_of(es@),
            errors_text(ev.take(i as int), source@) == Some(text::strs_of(ts@)),
        decreases es@.len() - i,
    {
        assert(ev.take(i + 1).drop_last() =~= ev.take(i as int));
        match error_text_exec(&es[i], source) {
            None => {
                proof {
                    lemma_errors_text_none(ev, source@, i + 1);
                }
                return None;
            },
            Some(t) => {
                let ghost before = text::strs_of(ts@);
                ts.push(t);
                assert(text::strs_of(ts@) =~= before.push(ts@.last()@));
            },
        }
        i = i + 1;
    }
    assert(ev.take(es@.len() as int) =~= ev);
    Some(ts)
}

fn plural_exec(n: usize) -> (r: &'static str)
    ensures
        r@ == plural(n as nat),
{
    if n > 1 {
        "s"
    } else {
        ""
    }
}

fn resource_error_message_exec(count: usize, rel: &String, lang: &String, details: &Vec<String>) -> (r:
    String)
    ensures
        r@ == resource_error_message(count as nat, rel@, lang@, text::strs_of(details@)),
{
    let mut m = String::from_str("Error");
    text::push_str(&mut m, plural_exec(count));
    text::push_str(&mut m, " parsing fluent resource in file ");
    text::push_str(&mut m, rel.as_str());
    text::push_str(&mut m, " for locale \"");
    text::push_str(&mut m, lang.as_str());
    text::push_str(&mut m, "\":\n  + ");
    let d = text::join(details, "\n   +");
    text::push_str(&mut m, d.as_str());
    m
}

fn core_error_message_exec(count: usize, rel: &String, details: &Vec<String>) -> (r: String)
    ensures
        r@ == core_error_message(count as nat, rel@, text::strs_of(details@)),
{
    let mut m = String::from_str("Error");
    text::push_str(&mut m, plural_exec(count));
    text::push_str(&mut m, " parsing core fluent resource in file ");
    text::push_str(&mut m, rel.as_str());
    text::push_str(&mut m, ":\n  + ");
    let d = text::join(details, "\n   +");
    text::push_str(&mut m, d.as_str());
    m
}

fn resource_outcome_exec(source: &String, lang: &String, rel: &Option<String>) -> (o: Option<
    (Vec<FluentEntry>, Vec<String>),
>)
    ensures
        match o {
            Some((es, errs)) => resource_outcome(source@, lang@, tr_macros::opt_str(*rel)) == Some(
                (lang_entries_of(es@), text::strs_of(errs@)),
            ),
            None => resource_outcome(source@, lang@, tr_macros::opt_str(*rel)) is None,
        },
{
    let p = parse_ftl(source.as_str());
    if p.errors.len() == 0 {
        match checked_fluent_entries_from_resource(&p.entries) {
            None => None,
            Some((es, errs)) => {
                if errs.len() == 0 {
                    assert(text::strs_of(errs@) =~= seq![]);
                    Some((es, Vec::new()))
                } else {
                    match rel {
                        Some(path) => {
                            let m = resource_error_message_exec(errs.len(), path, lang, &errs);
                            let mut out: Vec<String> = Vec::new();
                            out.push(m);
                            assert(text::strs_of(out@) =~= seq![m@]);
                            Some((es, out))
                        },
                        None => None,
                    }
                }
            },
        }
    } else {
        match rel {
            None => None,
            Some(path) => match checked_fluent_entries_from_resource(&p.entries) {
                None => None,
                Some((es, mut errs)) => match errors_text_exec(&p.errors, source.as_str()) {
                    None => None,
                    Some(ts) => {
                        let m = resource_error_message_exec(p.errors.len(), path, lang, &ts);
                        let ghost before = text::strs_of(errs@);
                        errs.push(m);
                        assert(text::strs_of(errs@) =~= before.push(m@));
                        Some((es, errs))
                    },
                },
            },
        }
    }
}

fn locales_outcome_exec(
    resources: &Vec<(String, Vec<String>)>,
    paths: &Vec<(String, Vec<String>)>,
    ws: &str,
) -> (o: Option<(Vec<(String, Vec<FluentEntry>)>, Vec<String>)>)
    ensures
        match o {
            Some((ls, errs)) => locales_outcome(lang_strs_of(resources@), lang_strs_of(paths@), ws@)
                == Some((entries_of(ls@), text::strs_of(errs@))),
            None => locales_outcome(lang_strs_of(resources@), lang_strs_of(paths@), ws@) is None,
        },
{
    let ghost rv = lang_strs_of(resources@);
    let ghost pv = lang_strs_of(paths@);
    let mut out: Vec<(String, Vec<FluentEntry>)> = Vec::new();
    let mut errors: Vec<String> = Vec::new();
    let mut i: usize = 0;
    while i < resources.len()
        invariant
            i <= resources@.len(),
            rv == lang_strs_of(resources@),
            pv == lang_strs_of(paths@),
            locales_outcome(rv.take(i as int), pv, ws@) == Some(
                (entries_of(out@), text::strs_of(errors@)),
            ),
        decreases resources@.len() - i,
    {
        let lang = &resources[i].0;
        let rs = &resources[i].1;
        let ghost rsv = text::strs_of(rs@);
        let mut es: Vec<FluentEntry> = Vec::new();
        let mut j: usize = 0;
        while j < rs.len()
            invariant
                j <= rs@.len(),
                rsv == text::strs_of(rs@),
                pv == lang_strs_of(paths@),
                i < resources@.len(),
                rv == lang_strs_of(resources@),
                rv[i as int] == (lang@, rsv),
                locale_outcome(lang@, rsv, j as int, pv, ws@) is Some,
                (locale_outcome(lang@, rsv, j as int, pv, ws@)->0).0 == lang_entries_of(es@),
                locales_outcome(rv.take(i as int), pv, ws@) is Some,
                text::strs_of(errors@) == (locales_outcome(rv.take(i as int), pv, ws@)->0).1
                    + (locale_outcome(lang@, rsv, j as int, pv, ws@)->0).1,
                entries_of(out@) == (locales_outcome(rv.take(i as int), pv, ws@)->0).0,
            decreases rs@.len() - j,
        {
            let rel = rel_file_path_exec(paths, lang, rs, &rs[j], ws);
            match resource_outcome_exec(&rs[j], lang, &rel) {
                None => {
                    proof {
                        lemma_locale_outcome_none(lang@, rsv, j + 1, rsv.len() as int, pv, ws@);
                        assert(rv.take(i + 1).drop_last() =~= rv.take(i as int));
                        assert(rv.take(i + 1).last() == rv[i as int]);
                        lemma_locales_outcome_none(rv, pv, ws@, i + 1);
                    }
                    return None;
                },
                Some((es2, errs2)) => {
                    let ghost eb = text::strs_of(errors@);
                    append_entries(&mut es, &es2);
                    text::append_strings(&mut errors, &errs2);
                    proof {
                        let prev = (locale_outcome(lang@, rsv, j as int, pv, ws@)->0).1;
                        let base = (locales_outcome(rv.take(i as int), pv, ws@)->0).1;
                        assert(eb + text::strs_of(errs2@) =~= base + (prev + text::strs_of(errs2@)));
                    }
                },
            }
            j = j + 1;
        }
        let ghost ob = entries_of(out@);
        out.push((lang.clone(), es));
        assert(entries_of(out@) =~= ob.push((lang@, lang_entries_of(es@))));
        assert(rv.take(i + 1).drop_last() =~= rv.take(i as int));
        assert(rv.take(i + 1).last() == rv[i as int]);
        i = i + 1;
    }
    assert(rv.take(resources@.len() as int) =~= rv);
    Some((out, errors))
}

fn append_to_each_exec(ls: &mut Vec<(String, Vec<FluentEntry>)>, es: &Vec<FluentEntry>)
    ensures
        entries_of(final(ls)@) == append_to_each(entries_of(old(ls)@), lang_entries_of(es@)),
{
    let ghost start = entries_of(ls@);
    let ghost ev = lang_entries_of(es@);
    let mut out: Vec<(String, Vec<FluentEntry>)> = Vec::new();
    let mut i: usize = 0;
    while i < ls.len()
        invariant
            i <= ls@.len(),
            start == entries_of(ls@),
            ev == lang_entries_of(es@),
            entries_of(out@) == append_to_each(start, ev).take(i as int),
        decreases ls@.len() - i,
    {
        let mut v: Vec<FluentEntry> = Vec::new();
        append_entries(&mut v, &ls[i].1);
        append_entries(&mut v, es);
        let ghost before = entries_of(out@);
        out.push((ls[i].0.clone(), v));
        assert(entries_of(out@) =~= before.push(append_to_each(start, ev)[i as int]));
        assert(append_to_each(start, ev).take(i + 1) =~= append_to_each(start, ev).take(i as int).push(
            append_to_each(start, ev)[i as int],
        ));
        i = i + 1;
    }
    assert(append_to_each(start, ev).take(ls@.len() as int) =~= append_to_each(start, ev));
    *ls = out;
}

fn append_repeated(errs: &mut Vec<String>, s: &Vec<String>, n: usize)
    ensures
        text::strs_of(final(errs)@) == text::strs_of(old(errs)@) + repeat(text::strs_of(s@), n as nat),
{
    let ghost start = text::strs_of(errs@);
    let ghost sv = text::strs_of(s@);
    let mut k: usize = 0;
    while k < n
        invariant
            k <= n,
            sv == text::strs_of(s@),
            text::strs_of(errs@) == start + repeat(sv, k as nat),
        decreases n - k,
    {
        text::append_strings(errs, s);
        assert(start + repeat(sv, k as nat) + sv =~= start + repeat(sv, (k + 1) as nat));
        k = k + 1;
    }
}

fn with_core_exec(
    ls: Vec<(String, Vec<FluentEntry>)>,
    errs: Vec<String>,
    core: &String,
    rel: &Option<String>,
) -> (o: Option<(Vec<(String, Vec<FluentEntry>)>, Vec<String>)>)
    ensures
        match o {
            Some((ls2, errs2)) => with_core(
                entries_of(ls@),
                text::strs_of(errs@),
                core@,
                tr_macros::opt_str(*rel),
            ) == Some((entries_of(ls2@), text::strs_of(errs2@))),
            None => with_core(
                entries_of(ls@),
                text::strs_of(errs@),
                core@,
                tr_macros::opt_str(*rel),
            ) is None,
        },
{
    let mut ls = ls;
    let mut errs = errs;
    let p = parse_ftl(core.as_str());
    if p.errors.len() == 0 {
        if ls.len() == 0 {
            return Some((ls, errs));
        }
        match checked_fluent_entries_from_resource(&p.entries) {
            None => None,
            Some((es, cerrs)) => {
                if cerrs.len() == 0 {
                    append_to_each_exec(&mut ls, &es);
                    Some((ls, errs))
                } else {
                    match rel {
                        None => None,
                        Some(path) => {
                            let n = ls.len();
                            append_to_each_exec(&mut ls, &es);
                            let m = core_error_message_exec(cerrs.len(), path, &cerrs);
                            let mut one: Vec<String> = Vec::new();
                            one.push(m);
                            assert(text::strs_of(one@) =~= seq![m@]);
                            append_repeated(&mut errs, &one, n);
                            Some((ls, errs))
                        },
                    }
                }
            },
        }
    } else {
        match rel {
            None => None,
            Some(path) => match errors_text_exec(&p.errors, core.as_str()) {
                None => None,
                Some(ts) => {
                    let m = core_error_message_exec(p.errors.len(), path, &ts);
                    let ghost before = text::strs_of(errs@);
                    errs.push(m);
                    assert(text::strs_of(errs@) =~= before.push(m@));
                    if ls.len() == 0 {
                        return Some((ls, errs));
                    }
                    match checked_fluent_entries_from_resource(&p.entries) {
                        None => None,
                        Some((es, cerrs)) => {
                            let n = ls.len();
                            append_to_each_exec(&mut ls, &es);
                            append_repeated(&mut errs, &cerrs, n);
                            Some((ls, errs))
                        },
                    }
                },
            },
        }
    }
}

fn build_entries(
    fluent_resources: &Vec<(String, Vec<String>)>,
    fluent_file_paths: &Vec<(String, Vec<String>)>,
    workspace_path: &str,
    core_locales_path: &Option<String>,
    core_locales_content: &Option<String>,
) -> (o: Option<(Vec<(String, Vec<FluentEntry>)>, Vec<String>)>)
    ensures
        match o {
            Some((ls, errs)) => fluent_entries_spec(
                lang_strs_of(fluent_resources@),
                lang_strs_of(fluent_file_paths@),
                workspace_path@,
                tr_macros::opt_str(*core_locales_path),
                tr_macros::opt_str(*core_locales_content),
            ) == Some((entries_of(ls@), text::strs_of(errs@))),
            None => fluent_entries_spec(
                lang_strs_of(fluent_resources@),
                lang_strs_of(fluent_file_paths@),
                workspace_path@,
                tr_macros::opt_str(*core_locales_path),
                tr_macros::opt_str(*core_locales_content),
            ) is None,
        },
{
    match locales_outcome_exec(fluent_resources, fluent_file_paths, workspace_path) {
        None => None,
        Some((ls, errs)) => match core_locales_content {
            None => Some((ls, errs)),
            Some(c) => {
                let rel = match core_locales_path {
                    Some(cp) => diff_paths(cp.as_str(), workspace_path),
                    None => None,
                };
                with_core_exec(ls, errs, c, &rel)
            },
        },
    }
}

/// Builds the fluent entries of each locale from its resources, the core
/// resource (if any) being added to each locale, and gathers the errors:
/// for a resource that does not parse cleanly, or whose message references
/// name no message, one error that names its file (relative to the
/// workspace) and its locale and lists the problems, parse errors with
/// their line and column. The entries come in the order of the locales,
/// then of the resources, then of the messages. Building them panics where
/// a file path has to be shown and none can be found or made relative, or
/// where a parse error's position cannot be sliced, and loops on where
/// message references go round in a circle: `requires` leaves out these
/// inputs, the last as the resources whose messages are not all resolved
/// within one round per message (see `checked_build_fluent_entries`).
pub fn build_fluent_entries(
    fluent_resources: &Vec<(String, Vec<String>)>,
    fluent_file_paths: &Vec<(String, Vec<String>)>,
    workspace_path: &str,
    core_locales_path: &Option<String>,
    core_locales_content: &Option<String>,
) -> (r: (Vec<(String, Vec<FluentEntry>)>, Vec<String>))
    requires
        fluent_entries_spec(
            lang_strs_of(fluent_resources@),
            lang_strs_of(fluent_file_paths@),
            workspace_path@,
            tr_macros::opt_str(*core_locales_path),
            tr_macros::opt_str(*core_locales_content),
        ) is Some,
    ensures
        fluent_entries_spec(
            lang_strs_of(fluent_resources@),
            lang_strs_of(fluent_file_paths@),
            workspace_path@,
            tr_macros::opt_str(*core_locales_path),
            tr_macros::opt_str(*core_locales_content),
        ) == Some((entries_of(r.0@), text::strs_of(r.1@))),
        r.0@.len() == fluent_resources@.len(),
        forall|i: int|
            0 <= i < fluent_resources@.len() ==> (#[trigger] r.0@[i]).0@ == fluent_resources@[i].0@,
{
    proof {
        law_every_locale_has_entries(
            lang_strs_of(fluent_resources@),
            lang_strs_of(fluent_file_paths@),
            workspace_path@,
            tr_macros::opt_str(*core_locales_path),
            tr_macros::opt_str(*core_locales_content),
        );
    }
    match build_entries(
        fluent_resources,
        fluent_file_paths,
        workspace_path,
        core_locales_path,
        core_locales_content,
    ) {
        Some(r) => {
            assert forall|i: int| 0 <= i < fluent_resources@.len() implies (#[trigger] r.0@[i]).0@
                == fluent_resources@[i].0@ by {
                assert(entries_of(r.0@)[i].0 == lang_strs_of(fluent_resources@)[i].0);
            }
            r
        },
        None => {
            assert(false);
            (Vec::new(), Vec::new())
        },
    }
}

/// The fluent entries of each locale and the errors (see
/// `build_fluent_entries`), or `None` on the inputs where building them
/// panics or never ends.
pub fn checked_build_fluent_entries(
    fluent_resources: &Vec<(String, Vec<String>)>,
    fluent_file_paths: &Vec<(String, Vec<String>)>,
    workspace_path: &str,
    core_locales_path: &Option<String>,
    core_locales_content: &Option<String>,
) -> (r: Option<(Vec<(String, Vec<FluentEntry>)>, Vec<String>)>)
    ensures
        match r {
            Some((ls, errs)) => fluent_entries_spec(
                lang_strs_of(fluent_resources@),
                lang_strs_of(fluent_file_paths@),
                workspace_path@,
                tr_macros::opt_str(*core_locales_path),
                tr_macros::opt_str(*core_locales_content),
            ) == Some((entries_of(ls@), text::strs_of(errs@))),
            None => fluent_entries_spec(
                lang_strs_of(fluent_resources@),
                lang_strs_of(fluent_file_paths@),
                workspace_path@,
                tr_macros::opt_str(*core_locales_path),
                tr_macros::opt_str(*core_locales_content),
            ) is None,
        },
{
    match build_entries(
        fluent_resources,
        fluent_file_paths,
        workspace_path,
        core_locales_path,
        core_locales_content,
    ) {
        None => None,
        Some(_) => Some(
            build_fluent_entries(
                fluent_resources,
                fluent_file_paths,
                workspace_path,
                core_locales_path,
                core_locales_content,
            ),
        ),
    }
}

/// Whether no two locales of `ls` bear the same name, as the keys of a map.
pub open spec fn distinct_locales<A>(ls: Seq<(Seq<char>, A)>) -> bool {
    forall|i: int, j: int| 0 <= i < j < ls.len() ==> #[trigger] ls[i].0 != #[trigger] ls[j].0
}

/// Locales given once each keep their entries once each: no locale of the
/// result is named twice.
pub proof fn law_locales_stay_distinct(
    res: Seq<(Seq<char>, Seq<Seq<char>>)>,
    paths: Seq<(Seq<char>, Seq<Seq<char>>)>,
    ws: Seq<char>,
    core_path: Option<Seq<char>>,
    core: Option<Seq<char>>,
)
    requires
        distinct_locales(res),
    ensures
        fluent_entries_spec(res, paths, ws, core_path, core) matches Some((ls, errs))
            ==> distinct_locales(ls),
{
    law_every_locale_has_entries(res, paths, ws, core_path, core);
    if let Some((ls, errs)) = fluent_entries_spec(res, paths, ws, core_path, core) {
        assert forall|i: int, j: int| 0 <= i < j < ls.len() implies #[trigger] ls[i].0
            != #[trigger] ls[j].0 by {
            assert(ls[i].0 == res[i].0);
            assert(ls[j].0 == res[j].0);
        }
    }
}

/// Whether the resource `source` parses with no error and each of its
/// message references names a message.
pub open spec fn parses_cleanly(source: Seq<char>) -> bool {
    &&& ftl_parse(source).errors.len() == 0
    &&& match resource_entries(ftl_parse(source).entries) {
        Some((_, rerrs)) => rerrs.len() == 0,
        None => false,
    }
}

/// A resource gives no error exactly when it parses cleanly and each of its
/// message references names a message.
pub proof fn law_resource_errors_iff_unclean(source: Seq<char>, lang: Seq<char>, rel: Option<
    Seq<char>,
>)
    ensures
        resource_outcome(source, lang, rel) matches Some((es, errs)) ==> (errs.len() == 0
            <==> parses_cleanly(source)),
{
}

/// Whether no two messages of `ms` bear the same name.
pub open spec fn names_distinct(ms: Seq<MaybeV>) -> bool {
    forall|i: int, j: int| 0 <= i < j < ms.len() ==> #[trigger] ms[i].name != #[trigger] ms[j].name
}

proof fn lemma_without_extra_name(x: Seq<MaybeV>, names: Seq<Seq<char>>, n: Seq<char>)
    requires
        !has_name(x, n),
    ensures
        without_names(x, names.push(n)) == without_names(x, names),
    decreases x.len(),
{
    if x.len() > 0 {
        assert(!has_name(x.drop_last(), n)) by {
            if has_name(x.drop_last(), n) {
                let j = choose|j: int| 0 <= j < x.drop_last().len() && x.drop_last()[j].name == n;
                assert(x[j].name == n);
            }
        }
        lemma_without_extra_name(x.drop_last(), names, n);
        assert(x.last().name != n) by {
            assert(x[x.len() - 1].name == x.last().name);
        }
        assert(names.push(n).contains(x.last().name) == names.contains(x.last().name)) by {
            if names.push(n).contains(x.last().name) {
                let k = choose|k: int| 0 <= k < names.push(n).len() && names.push(n)[k] == x.last().name;
                if k < names.len() {
                    assert(names[k] == x.last().name);
                }
            }
            if names.contains(x.last().name) {
                let k = choose|k: int| 0 <= k < names.len() && names[k] == x.last().name;
                assert(names.push(n)[k] == x.last().name);
            }
        }
    }
}

proof fn lemma_without_names_distinct(x: Seq<MaybeV>, names: Seq<Seq<char>>)
    requires
        names_distinct(x),
    ensures
        names_distinct(without_names(x, names)),
    decreases x.len(),
{
    if x.len() > 0 {
        let f = x.drop_last();
        assert(names_distinct(f)) by {
            assert forall|i: int, j: int| 0 <= i < j < f.len() implies #[trigger] f[i].name
                != #[trigger] f[j].name by {
                assert(f[i] == x[i] && f[j] == x[j]);
            }
        }
        lemma_without_names_distinct(f, names);
        lemma_without_names_within(f, names);
        let w = without_names(f, names);
        if !names.contains(x.last().name) {
            let w2 = w.push(x.last());
            assert forall|i: int, j: int| 0 <= i < j < w2.len() implies #[trigger] w2[i].name
                != #[trigger] w2[j].name by {
                if j == w2.len() - 1 {
                    assert(w2[i] == w[i]);
                    assert(has_name(f, w[i].name));
                    let k = choose|k: int| 0 <= k < f.len() && f[k].name == w[i].name;
                    assert(x[k].name != x[x.len() - 1].name);
                } else {
                    assert(w2[i] == w[i] && w2[j] == w[j]);
                }
            }
        }
    }
}

/// For messages of distinct names, one round splits their names between
/// the resolved messages and the messages left for the next round.
proof fn lemma_round_splits_names(es: Seq<MaybeV>, orig: Seq<MaybeV>)
    requires
        names_distinct(es),
    ensures
        ({
            let (u, r, e) = round(es, orig);
            names_of(r).to_multiset().add(names_of(without_names(u, names_of(r))).to_multiset())
                == names_of(es).to_multiset()
        }),
    decreases es.len(),
{
    broadcast use vstd::seq_lib::group_to_multiset_ensures;

    lemma_round_names(es, orig);
    if es.len() == 0 {
        assert(names_of(round(es, orig).1) =~= Seq::<Seq<char>>::empty());
        assert(names_of(es) =~= Seq::<Seq<char>>::empty());
        assert(names_of(without_names(round(es, orig).0, Seq::empty())) =~= Seq::<Seq<char>>::empty());
    } else {
        let f = es.drop_last();
        assert(names_distinct(f)) by {
            assert forall|i: int, j: int| 0 <= i < j < f.len() implies #[trigger] f[i].name
                != #[trigger] f[j].name by {
                assert(f[i] == es[i] && f[j] == es[j]);
            }
        }
        lemma_round_splits_names(f, orig);
        lemma_round_names(f, orig);
        let (u1, r1, e1) = round(f, orig);
        let (m, ok, errs) = step_entry(es.last(), orig);
        let (u, r, e) = round(es, orig);
        assert(u == u1.push(m));
        assert(u.drop_last() =~= u1);
        assert(u.last() == m);
        assert(m.name == es.last().name);
        // The name of the last message is nowhere before it.
        assert(!has_name(u1, m.name)) by {
            if has_name(u1, m.name) {
                let j = choose|j: int| 0 <= j < u1.len() && u1[j].name == m.name;
                assert(u1[j].name == f[j].name);
                assert(es[j].name != es[es.len() - 1].name);
            }
        }
        assert(!names_of(r1).contains(m.name)) by {
            if names_of(r1).contains(m.name) {
                let k = choose|k: int| 0 <= k < names_of(r1).len() && names_of(r1)[k] == m.name;
                assert(has_name(f, r1[k].name));
                let j = choose|j: int| 0 <= j < f.len() && f[j].name == r1[k].name;
                assert(es[j].name != es[es.len() - 1].name);
            }
        }
        let w1 = without_names(u1, names_of(r1));
        assert(names_of(u1) =~= names_of(f));
        assert(names_of(es) =~= names_of(f).push(m.name));
        if ok {
            assert(r == r1.push(m));
            assert(names_of(r) =~= names_of(r1).push(m.name));
            lemma_without_extra_name(u1, names_of(r1), m.name);
            assert(names_of(r).contains(m.name)) by {
                assert(names_of(r)[names_of(r1).len() as int] == m.name);
            }
            assert(without_names(u, names_of(r)) == without_names(u1, names_of(r)));
            assert(names_of(r).to_multiset() == names_of(r1).to_multiset().insert(m.name));
        } else {
            assert(r == r1);
            assert(without_names(u, names_of(r)) == w1.push(m));
            assert(names_of(w1.push(m)) =~= names_of(w1).push(m.name));
        }
        assert(names_of(r).to_multiset().add(names_of(without_names(u, names_of(r))).to_multiset())
            =~= names_of(es).to_multiset());
    }
}

/// Resolving the message references of messages of distinct names gives
/// back each message once: the names of the result are those of the
/// messages, in some order.
pub proof fn law_resolution_permutes_names(es: Seq<MaybeV>, orig: Seq<MaybeV>, fuel: nat)
    requires
        names_distinct(es),
    ensures
        resolve_rounds(es, orig, fuel) matches Some((o, e)) ==> names_of(o).to_multiset()
            == names_of(es).to_multiset(),
    decreases fuel,
{
    broadcast use vstd::seq_lib::group_to_multiset_ensures;

    if es.len() == 0 {
        assert(names_of(es) =~= Seq::<Seq<char>>::empty());
        if let Some((o, e)) = resolve_rounds(es, orig, fuel) {
            assert(names_of(o) =~= Seq::<Seq<char>>::empty());
        }
    } else if fuel > 0 {
        let (u, r, e) = round(es, orig);
        let rest = without_names(u, names_of(r));
        lemma_round_names(es, orig);
        assert(names_distinct(u)) by {
            assert forall|i: int, j: int| 0 <= i < j < u.len() implies #[trigger] u[i].name
                != #[trigger] u[j].name by {
                assert(u[i].name == es[i].name && u[j].name == es[j].name);
            }
        }
        lemma_without_names_distinct(u, names_of(r));
        law_resolution_permutes_names(rest, orig, (fuel - 1) as nat);
        lemma_round_splits_names(es, orig);
        if let Some((o, e2)) = resolve_rounds(es, orig, fuel) {
            let (o2, e3) = resolve_rounds(rest, orig, (fuel - 1) as nat)->0;
            assert(o == r + o2);
            assert(names_of(o) =~= names_of(r) + names_of(o2));
            vstd::seq_lib::lemma_multiset_commutative(names_of(r), names_of(o2));
        }
    }
}

/// The entries that the resource `r` of the locale `lang` (whose resources
/// are `rs`) gives on its own (none where it fails).
pub open spec fn own_entries(
    lang: Seq<char>,
    rs: Seq<Seq<char>>,
    r: Seq<char>,
    paths: Seq<(Seq<char>, Seq<Seq<char>>)>,
    ws: Seq<char>,
) -> Seq<EntryV> {
    match resource_outcome(r, lang, rel_file_path(paths, lang, rs, r, ws)) {
        Some((es, _)) => es,
        None => seq![],
    }
}

/// The entries of each of the first `n` resources of a locale, one after
/// the other: the entries of every resource, concatenated in the order of
/// the resources.
pub open spec fn resources_entries(
    lang: Seq<char>,
    rs: Seq<Seq<char>>,
    n: nat,
    paths: Seq<(Seq<char>, Seq<Seq<char>>)>,
    ws: Seq<char>,
) -> Seq<EntryV> {
    Seq::new(n, |k: int| own_entries(lang, rs, rs[k], paths, ws)).flatten()
}

proof fn lemma_locale_outcome_flatten(
    lang: Seq<char>,
    rs: Seq<Seq<char>>,
    n: int,
    paths: Seq<(Seq<char>, Seq<Seq<char>>)>,
    ws: Seq<char>,
)
    requires
        0 <= n <= rs.len(),
    ensures
        locale_outcome(lang, rs, n, paths, ws) matches Some((es, errs)) ==> es == resources_entries(
            lang,
            rs,
            n as nat,
            paths,
            ws,
        ),
    decreases n,
{
    if n == 0 {
        assert(Seq::new(0, |k: int| own_entries(lang, rs, rs[k], paths, ws)) =~= Seq::<
            Seq<EntryV>,
        >::empty());
        assert(resources_entries(lang, rs, 0, paths, ws) =~= Seq::<EntryV>::empty());
    } else {
        lemma_locale_outcome_flatten(lang, rs, n - 1, paths, ws);
        let f = |k: int| own_entries(lang, rs, rs[k], paths, ws);
        let a = Seq::new((n - 1) as nat, f);
        assert(Seq::new(n as nat, f) =~= a.push(f(n - 1)));
        a.lemma_flatten_push(f(n - 1));
    }
}

proof fn lemma_locales_outcome_flatten(
    res: Seq<(Seq<char>, Seq<Seq<char>>)>,
    paths: Seq<(Seq<char>, Seq<Seq<char>>)>,
    ws: Seq<char>,
)
    ensures
        locales_outcome(res, paths, ws) matches Some((ls, errs)) ==> ls.len() == res.len() && forall|
            i: int,
        |
            0 <= i < res.len() ==> (#[trigger] ls[i]).1 == resources_entries(
                res[i].0,
                res[i].1,
                res[i].1.len(),
                paths,
                ws,
            ),
    decreases res.len(),
{
    if res.len() > 0 {
        lemma_locales_outcome_flatten(res.drop_last(), paths, ws);
        lemma_locale_outcome_flatten(
            res.last().0,
            res.last().1,
            res.last().1.len() as int,
            paths,
            ws,
        );
        if let Some((ls, errs)) = locales_outcome(res, paths, ws) {
            let (front, _) = locales_outcome(res.drop_last(), paths, ws)->0;
            assert forall|i: int| 0 <= i < res.len() implies (#[trigger] ls[i]).1
                == resources_entries(res[i].0, res[i].1, res[i].1.len(), paths, ws) by {
                if i < res.len() - 1 {
                    assert(ls[i] == front[i]);
                    assert(res[i] == res.drop_last()[i]);
                }
            }
        }
    }
}

/// The entries of each locale are the entries of each of its resources,
/// concatenated in the order of the resources, followed by those of the
/// core resource where there is one: every message of any resource of a
/// locale is among that locale's entries.
pub proof fn law_locale_entries_are_its_resources_entries(
    res: Seq<(Seq<char>, Seq<Seq<char>>)>,
    paths: Seq<(Seq<char>, Seq<Seq<char>>)>,
    ws: Seq<char>,
    core_path: Option<Seq<char>>,
    core: Option<Seq<char>>,
)
    ensures
        fluent_entries_spec(res, paths, ws, core_path, core) matches Some((ls, errs)) ==> ls.len()
            == res.len() && forall|i: int|
            0 <= i < res.len() ==> {
                let own = resources_entries(res[i].0, res[i].1, res[i].1.len(), paths, ws);
                &&& own.len() <= (#[trigger] ls[i]).1.len()
                &&& ls[i].1.take(own.len() as int) == own
                &&& core is None ==> ls[i].1 == own
            },
{
    lemma_locales_outcome_flatten(res, paths, ws);
    if let Some((ls0, errs0)) = locales_outcome(res, paths, ws) {
        if let Some((ls, errs)) = fluent_entries_spec(res, paths, ws, core_path, core) {
            assert forall|i: int| 0 <= i < res.len() implies {
                let own = resources_entries(res[i].0, res[i].1, res[i].1.len(), paths, ws);
                &&& own.len() <= (#[trigger] ls[i]).1.len()
                &&& ls[i].1.take(own.len() as int) == own
                &&& core is None ==> ls[i].1 == own
            } by {
                let own = resources_entries(res[i].0, res[i].1, res[i].1.len(), paths, ws);
                assert(ls0[i].1 == own);
                if ls == ls0 {
                    assert(own.take(own.len() as int) =~= own);
                } else {
                    let c = core->0;
                    let (es, cerrs) = resource_entries(ftl_parse(c).entries)->0;
                    assert(ls == append_to_each(ls0, es));
                    assert(ls[i].1 == own + es);
                    assert((own + es).take(own.len() as int) =~= own);
                }
            }
        }
    }
}

} // verus!
