use vstd::prelude::*;
use crate::fluent_entries::{entries_of, lang_entries_of, EntryV, FluentEntry};
use crate::text;
use crate::tr_macros;
use crate::tr_macros::{MacroV, TranslationMacro};

verus! {

// ---------------------------------------------------------------------------
// Messages
// ---------------------------------------------------------------------------

/// How a macro call is shown in messages: `name!("message")`, or
/// `name!("message", { ... })` when it has placeables, between backticks.
pub open spec fn macro_call_text(macro_name: Seq<char>, message_name: Seq<char>, has_placeables: bool) -> Seq<
    char,
> {
    if has_placeables {
        "`"@ + macro_name + "!(\""@ + message_name + "\", { ... })`"@
    } else {
        "`"@ + macro_name + "!(\""@ + message_name + "\")`"@
    }
}

/// Formats a translation macro call for messages.
pub fn format_macro_call(macro_name: &str, message_name: &str, has_placeables: bool) -> (r: String)
    ensures
        r@ == macro_call_text(macro_name@, message_name@, has_placeables),
{
    let mut r = String::from_str("`");
    text::push_str(&mut r, macro_name);
    text::push_str(&mut r, "!(\"");
    text::push_str(&mut r, message_name);
    if has_placeables {
        text::push_str(&mut r, "\", { ... })`");
    } else {
        text::push_str(&mut r, "\")`");
    }
    r
}

/// How the macro call `tm` is shown in messages.
pub open spec fn call_of(tm: MacroV) -> Seq<char> {
    macro_call_text(tm.name, tm.message_name, tm.placeables.len() > 0)
}

/// A placeable of a macro call missing in the message of a locale.
pub open spec fn macro_variable_error(p: Seq<char>, tm: MacroV, lang: Seq<char>) -> Seq<char> {
    "Variable \""@ + p + "\" defined at "@ + call_of(tm) + " macro call in "@ + tm.file_path
        + " not found in message \""@ + tm.message_name + "\" of locale \""@ + lang + "\"."@
}

/// The message of a macro call missing in the files of a locale.
pub open spec fn macro_message_error(tm: MacroV, lang: Seq<char>) -> Seq<char> {
    "Message \""@ + tm.message_name + "\" defined at "@ + call_of(tm) + " macro call in "@
        + tm.file_path + " not found in files for locale \""@ + lang + "\"."@
}

/// A variable of a message missing in the arguments of a macro call.
pub open spec fn entry_variable_error(p: Seq<char>, e: EntryV, lang: Seq<char>, tm: MacroV) -> Seq<
    char,
> {
    "Variable \""@ + p + "\" defined in message \""@ + e.message_name + "\" of locale \""@ + lang
        + "\" not found in arguments of "@ + call_of(tm) + " macro call at file "@ + tm.file_path
        + "."@
}

/// A message of a locale that no macro call uses.
pub open spec fn entry_message_error(e: EntryV, lang: Seq<char>) -> Seq<char> {
    "Message \""@ + e.message_name + "\" of locale \""@ + lang
        + "\" not found in any `tr!` or `move_tr!` macro calls."@
}

// ---------------------------------------------------------------------------
// Checks
// ---------------------------------------------------------------------------

/// The first entry of `es[i..]` for the message `name`.
pub open spec fn find_entry_from(es: Seq<EntryV>, name: Seq<char>, i: int) -> Option<EntryV>
    decreases es.len() - i,
{
    if i < 0 || i >= es.len() {
        None
    } else if es[i].message_name == name {
        Some(es[i])
    } else {
        find_entry_from(es, name, i + 1)
    }
}

/// The first macro call of `tms[i..]` for the message `name`.
pub open spec fn find_macro_from(tms: Seq<MacroV>, name: Seq<char>, i: int) -> Option<MacroV>
    decreases tms.len() - i,
{
    if i < 0 || i >= tms.len() {
        None
    } else if tms[i].message_name == name {
        Some(tms[i])
    } else {
        find_macro_from(tms, name, i + 1)
    }
}

/// The errors for the placeables `ps` of the macro call `tm` that the entry
/// `e` of locale `lang` lacks, in order.
pub open spec fn missing_macro_variables(ps: Seq<Seq<char>>, tm: MacroV, e: EntryV, lang: Seq<char>) -> Seq<
    Seq<char>,
>
    decreases ps.len(),
{
    if ps.len() == 0 {
        Seq::empty()
    } else {
        let prev = missing_macro_variables(ps.drop_last(), tm, e, lang);
        if e.placeables.contains(ps.last()) {
            prev
        } else {
            prev.push(macro_variable_error(ps.last(), tm, lang))
        }
    }
}

/// The errors of the macro call `tm` against the entries `es` of locale
/// `lang`: its message must be there, with each of its placeables.
pub open spec fn macro_lang_errors(tm: MacroV, lang: Seq<char>, es: Seq<EntryV>) -> Seq<Seq<char>> {
    match find_entry_from(es, tm.message_name, 0) {
        Some(e) => missing_macro_variables(tm.placeables, tm, e, lang),
        None => seq![macro_message_error(tm, lang)],
    }
}

/// The errors of the macro call `tm` against the entries of each locale.
pub open spec fn macro_errors(tm: MacroV, entries: Seq<(Seq<char>, Seq<EntryV>)>) -> Seq<Seq<char>>
    decreases entries.len(),
{
    if entries.len() == 0 {
        Seq::empty()
    } else {
        macro_errors(tm, entries.drop_last()) + macro_lang_errors(
            tm,
            entries.last().0,
            entries.last().1,
        )
    }
}

/// The errors of the macro calls `tms` against the fluent entries.
pub open spec fn tr_macros_against_entries(tms: Seq<MacroV>, entries: Seq<(Seq<char>, Seq<EntryV>)>) -> Seq<
    Seq<char>,
>
    decreases tms.len(),
{
    if tms.len() == 0 {
        Seq::empty()
    } else {
        tr_macros_against_entries(tms.drop_last(), entries) + macro_errors(tms.last(), entries)
    }
}

fn find_entry(es: &Vec<FluentEntry>, name: &String) -> (r: Option<usize>)
    ensures
        match r {
            Some(k) => k < es@.len() && find_entry_from(lang_entries_of(es@), name@, 0) == Some(
                lang_entries_of(es@)[k as int],
            ),
            None => find_entry_from(lang_entries_of(es@), name@, 0) is None,
        },
{
    let ghost ev = lang_entries_of(es@);
    let mut i: usize = 0;
    while i < es.len()
        invariant
            i <= es@.len(),
            ev == lang_entries_of(es@),
            find_entry_from(ev, name@, 0) == find_entry_from(ev, name@, i as int),
        decreases es@.len() - i,
    {
        if es[i].message_name == *name {
            assert(ev[i as int].message_name == name@);
            return Some(i);
        }
        i = i + 1;
    }
    None
}

fn find_macro(tms: &Vec<TranslationMacro>, name: &String) -> (r: Option<usize>)
    ensures
        match r {
            Some(k) => k < tms@.len() && find_macro_from(tr_macros::macros_of(tms@), name@, 0)
                == Some(tr_macros::macros_of(tms@)[k as int]),
            None => find_macro_from(tr_macros::macros_of(tms@), name@, 0) is None,
        },
{
    let ghost mv = tr_macros::macros_of(tms@);
    let mut i: usize = 0;
    while i < tms.len()
        invariant
            i <= tms@.len(),
            mv == tr_macros::macros_of(tms@),
            find_macro_from(mv, name@, 0) == find_macro_from(mv, name@, i as int),
        decreases tms@.len() - i,
    {
        if tms[i].message_name == *name {
            assert(mv[i as int].message_name == name@);
            return Some(i);
        }
        i = i + 1;
    }
    None
}

fn push_message(out: &mut Vec<String>, m: String)
    ensures
        text::strs_of(final(out)@) == text::strs_of(old(out)@).push(m@),
{
    let ghost mv = m@;
    out.push(m);
    assert(text::strs_of(out@) =~= text::strs_of(old(out)@).push(mv));
}

fn call_text(tm: &TranslationMacro) -> (r: String)
    ensures
        r@ == call_of(tm@),
{
    format_macro_call(tm.name.as_str(), tm.message_name.as_str(), tm.placeables.len() > 0)
}

fn macro_lang_errors_exec(tm: &TranslationMacro, lang: &String, es: &Vec<FluentEntry>, out: &mut Vec<
    String,
>)
    ensures
        text::strs_of(final(out)@) == text::strs_of(old(out)@) + macro_lang_errors(
            tm@,
            lang@,
            lang_entries_of(es@),
        ),
{
    match find_entry(es, &tm.message_name) {
        Some(k) => {
            let e = &es[k];
            let ghost ev = e@;
            assert(ev == lang_entries_of(es@)[k as int]);
            let ghost ps = text::strs_of(tm.placeables@);
            let ghost start = text::strs_of(out@);
            let mut i: usize = 0;
            assert(ps.take(0) =~= Seq::<Seq<char>>::empty());
            assert(start + Seq::<Seq<char>>::empty() =~= start);
            while i < tm.placeables.len()
                invariant
                    i <= tm.placeables@.len(),
                    ps == text::strs_of(tm.placeables@),
                    ev == e@,
                    text::strs_of(out@) == start + missing_macro_variables(
                        ps.take(i as int),
                        tm@,
                        ev,
                        lang@,
                    ),
                decreases tm.placeables@.len() - i,
            {
                let p = &tm.placeables[i];
                assert(ps.take(i + 1).drop_last() =~= ps.take(i as int));
                assert(ps.take(i + 1).last() == p@);
                if !text::contains_string(&e.placeables, p) {
                    let mut m = String::from_str("Variable \"");
                    text::push_str(&mut m, p.as_str());
                    text::push_str(&mut m, "\" defined at ");
                    let c = call_text(tm);
                    text::push_str(&mut m, c.as_str());
                    text::push_str(&mut m, " macro call in ");
                    text::push_str(&mut m, tm.file_path.as_str());
                    text::push_str(&mut m, " not found in message \"");
                    text::push_str(&mut m, tm.message_name.as_str());
                    text::push_str(&mut m, "\" of locale \"");
                    text::push_str(&mut m, lang.as_str());
                    text::push_str(&mut m, "\".");
                    let ghost before = text::strs_of(out@);
                    push_message(out, m);
                    assert(text::strs_of(out@) =~= start + missing_macro_variables(
                        ps.take(i + 1),
                        tm@,
                        ev,
                        lang@,
                    ));
                }
                i = i + 1;
            }
            assert(ps.take(tm.placeables@.len() as int) =~= ps);
        },
        None => {
            let mut m = String::from_str("Message \"");
            text::push_str(&mut m, tm.message_name.as_str());
            text::push_str(&mut m, "\" defined at ");
            let c = call_text(tm);
            text::push_str(&mut m, c.as_str());
            text::push_str(&mut m, " macro call in ");
            text::push_str(&mut m, tm.file_path.as_str());
            text::push_str(&mut m, " not found in files for locale \"");
            text::push_str(&mut m, lang.as_str());
            text::push_str(&mut m, "\".");
            push_message(out, m);
            assert(text::strs_of(out@) =~= text::strs_of(old(out)@) + seq![
                macro_message_error(tm@, lang@),
            ]);
        },
    }
}

/// Checks that the message of each translation macro call is defined for
/// each locale, with every placeable that the call passes.
pub fn check_tr_macros_against_fluent_entries(
    tr_macros: &Vec<TranslationMacro>,
    fluent_entries: &Vec<(String, Vec<FluentEntry>)>,
) -> (r: Vec<String>)
    ensures
        text::strs_of(r@) == tr_macros_against_entries(
            tr_macros::macros_of(tr_macros@),
            entries_of(fluent_entries@),
        ),
{
    let ghost tms = tr_macros::macros_of(tr_macros@);
    let ghost ents = entries_of(fluent_entries@);
    let mut out: Vec<String> = Vec::new();
    let mut i: usize = 0;
    assert(tms.take(0) =~= Seq::<MacroV>::empty());
    assert(text::strs_of(out@) =~= Seq::<Seq<char>>::empty());
    while i < tr_macros.len()
        invariant
            i <= tr_macros@.len(),
            tms == tr_macros::macros_of(tr_macros@),
            ents == entries_of(fluent_entries@),
            text::strs_of(out@) == tr_macros_against_entries(tms.take(i as int), ents),
        decreases tr_macros@.len() - i,
    {
        let tm = &tr_macros[i];
        let ghost before = text::strs_of(out@);
        let mut j: usize = 0;
        assert(ents.take(0) =~= Seq::<(Seq<char>, Seq<EntryV>)>::empty());
        assert(before + Seq::<Seq<char>>::empty() =~= before);
        while j < fluent_entries.len()
            invariant
                j <= fluent_entries@.len(),
                ents == entries_of(fluent_entries@),
                text::strs_of(out@) == before + macro_errors(tm@, ents.take(j as int)),
            decreases fluent_entries@.len() - j,
        {
            let ghost mid = text::strs_of(out@);
            macro_lang_errors_exec(tm, &fluent_entries[j].0, &fluent_entries[j].1, &mut out);
            assert(ents.take(j + 1).drop_last() =~= ents.take(j as int));
            assert(ents[j as int] == (fluent_entries@[j as int].0@, lang_entries_of(
                fluent_entries@[j as int].1@,
            )));
            assert(text::strs_of(out@) =~= before + macro_errors(tm@, ents.take(j + 1)));
            j = j + 1;
        }
        assert(ents.take(fluent_entries@.len() as int) =~= ents);
        assert(tms.take(i + 1).drop_last() =~= tms.take(i as int));
        assert(tms.take(i + 1).last() == tm@);
        assert(text::strs_of(out@) =~= tr_macros_against_entries(tms.take(i + 1), ents));
        i = i + 1;
    }
    assert(tms.take(tr_macros@.len() as int) =~= tms);
    out
}

/// The errors for the variables `ps` of the entry `e` of locale `lang` that
/// the macro call `tm` lacks, in order.
pub open spec fn missing_entry_variables(ps: Seq<Seq<char>>, e: EntryV, lang: Seq<char>, tm: MacroV) -> Seq<
    Seq<char>,
>
    decreases ps.len(),
{
    if ps.len() == 0 {
        Seq::empty()
    } else {
        let prev = missing_entry_variables(ps.drop_last(), e, lang, tm);
        if tm.placeables.contains(ps.last()) {
            prev
        } else {
            prev.push(entry_variable_error(ps.last(), e, lang, tm))
        }
    }
}

/// The errors of the entry `e` of locale `lang` against the macro calls:
/// some call must use its message, with each of its variables.
pub open spec fn entry_errors(e: EntryV, lang: Seq<char>, tms: Seq<MacroV>) -> Seq<Seq<char>> {
    match find_macro_from(tms, e.message_name, 0) {
        Some(tm) => missing_entry_variables(e.placeables, e, lang, tm),
        None => seq![entry_message_error(e, lang)],
    }
}

/// The errors of the entries `es` of locale `lang`, in order.
pub open spec fn lang_errors(es: Seq<EntryV>, lang: Seq<char>, tms: Seq<MacroV>) -> Seq<Seq<char>>
    decreases es.len(),
{
    if es.len() == 0 {
        Seq::empty()
    } else {
        lang_errors(es.drop_last(), lang, tms) + entry_errors(es.last(), lang, tms)
    }
}

/// The errors of the fluent entries of all locales against the macro calls.
pub open spec fn entries_against_tr_macros(entries: Seq<(Seq<char>, Seq<EntryV>)>, tms: Seq<MacroV>) -> Seq<
    Seq<char>,
>
    decreases entries.len(),
{
    if entries.len() == 0 {
        Seq::empty()
    } else {
        entries_against_tr_macros(entries.drop_last(), tms) + lang_errors(
            entries.last().1,
            entries.last().0,
            tms,
        )
    }
}

fn entry_errors_exec(e: &FluentEntry, lang: &String, tms: &Vec<TranslationMacro>, out: &mut Vec<String>)
    ensures
        text::strs_of(final(out)@) == text::strs_of(old(out)@) + entry_errors(
            e@,
            lang@,
            tr_macros::macros_of(tms@),
        ),
{
    match find_macro(tms, &e.message_name) {
        Some(k) => {
            let tm = &tms[k];
            let ghost tv = tm@;
            assert(tv == tr_macros::macros_of(tms@)[k as int]);
            let ghost ps = text::strs_of(e.placeables@);
            let ghost start = text::strs_of(out@);
            let mut i: usize = 0;
            assert(ps.take(0) =~= Seq::<Seq<char>>::empty());
            assert(start + Seq::<Seq<char>>::empty() =~= start);
            while i < e.placeables.len()
                invariant
                    i <= e.placeables@.len(),
                    ps == text::strs_of(e.placeables@),
                    tv == tm@,
                    text::strs_of(out@) == start + missing_entry_variables(
                        ps.take(i as int),
                        e@,
                        lang@,
                        tv,
                    ),
                decreases e.placeables@.len() - i,
            {
                let p = &e.placeables[i];
                assert(ps.take(i + 1).drop_last() =~= ps.take(i as int));
                assert(ps.take(i + 1).last() == p@);
                if !text::contains_string(&tm.placeables, p) {
                    let mut m = String::from_str("Variable \"");
                    text::push_str(&mut m, p.as_str());
                    text::push_str(&mut m, "\" defined in message \"");
                    text::push_str(&mut m, e.message_name.as_str());
                    text::push_str(&mut m, "\" of locale \"");
                    text::push_str(&mut m, lang.as_str());
                    text::push_str(&mut m, "\" not found in arguments of ");
                    let c = call_text(tm);
                    text::push_str(&mut m, c.as_str());
                    text::push_str(&mut m, " macro call at file ");
                    text::push_str(&mut m, tm.file_path.as_str());
                    text::push_str(&mut m, ".");
                    push_message(out, m);
                    assert(text::strs_of(out@) =~= start + missing_entry_variables(
                        ps.take(i + 1),
                        e@,
                        lang@,
                        tv,
                    ));
                }
                i = i + 1;
            }
            assert(ps.take(e.placeables@.len() as int) =~= ps);
        },
        None => {
            let mut m = String::from_str("Message \"");
            text::push_str(&mut m, e.message_name.as_str());
            text::push_str(&mut m, "\" of locale \"");
            text::push_str(&mut m, lang.as_str());
            text::push_str(&mut m, "\" not found in any `tr!` or `move_tr!` macro calls.");
            push_message(out, m);
            assert(text::strs_of(out@) =~= text::strs_of(old(out)@) + seq![
                entry_message_error(e@, lang@),
            ]);
        },
    }
}

/// Checks that the message of each fluent entry is used by some translation
/// macro call, which passes every variable of the message.
pub fn check_fluent_entries_against_tr_macros(
    tr_macros: &Vec<TranslationMacro>,
    fluent_entries: &Vec<(String, Vec<FluentEntry>)>,
) -> (r: Vec<String>)
    ensures
        text::strs_of(r@) == entries_against_tr_macros(
            entries_of(fluent_entries@),
            tr_macros::macros_of(tr_macros@),
        ),
{
    let ghost tms = tr_macros::macros_of(tr_macros@);
    let ghost ents = entries_of(fluent_entries@);
    let mut out: Vec<String> = Vec::new();
    let mut i: usize = 0;
    assert(ents.take(0) =~= Seq::<(Seq<char>, Seq<EntryV>)>::empty());
    assert(text::strs_of(out@) =~= Seq::<Seq<char>>::empty());
    while i < fluent_entries.len()
        invariant
            i <= fluent_entries@.len(),
            tms == tr_macros::macros_of(tr_macros@),
            ents == entries_of(fluent_entries@),
            text::strs_of(out@) == entries_against_tr_macros(ents.take(i as int), tms),
        decreases fluent_entries@.len() - i,
    {
        let lang = &fluent_entries[i].0;
        let es = &fluent_entries[i].1;
        let ghost esv = lang_entries_of(es@);
        let ghost before = text::strs_of(out@);
        let mut j: usize = 0;
        assert(esv.take(0) =~= Seq::<EntryV>::empty());
        assert(before + Seq::<Seq<char>>::empty() =~= before);
        while j < es.len()
            invariant
                j <= es@.len(),
                esv == lang_entries_of(es@),
                tms == tr_macros::macros_of(tr_macros@),
                text::strs_of(out@) == before + lang_errors(esv.take(j as int), lang@, tms),
            decreases es@.len() - j,
        {
            entry_errors_exec(&es[j], lang, tr_macros, &mut out);
            assert(esv.take(j + 1).drop_last() =~= esv.take(j as int));
            assert(esv.take(j + 1).last() == es@[j as int]@);
            assert(text::strs_of(out@) =~= before + lang_errors(esv.take(j + 1), lang@, tms));
            j = j + 1;
        }
        assert(esv.take(es@.len() as int) =~= esv);
        assert(ents.take(i + 1).drop_last() =~= ents.take(i as int));
        assert(ents.take(i + 1).last() == (lang@, esv));
        assert(text::strs_of(out@) =~= entries_against_tr_macros(ents.take(i + 1), tms));
        i = i + 1;
    }
    assert(ents.take(fluent_entries@.len() as int) =~= ents);
    out
}

/// The messages of a translations check: the macro calls against the
/// fluent entries, then the fluent entries against the macro calls.
pub open spec fn check_messages(tms: Seq<MacroV>, entries: Seq<(Seq<char>, Seq<EntryV>)>) -> Seq<Seq<char>> {
    tr_macros_against_entries(tms, entries) + entries_against_tr_macros(entries, tms)
}

/// Checks the translation macro calls against the fluent entries of each
/// locale, and the other way round: the messages of both checks, in that
/// order.
pub fn run(
    tr_macros: &Vec<TranslationMacro>,
    fluent_entries: &Vec<(String, Vec<FluentEntry>)>,
) -> (r: Vec<String>)
    ensures
        text::strs_of(r@) == check_messages(
            tr_macros::macros_of(tr_macros@),
            entries_of(fluent_entries@),
        ),
{
    let mut a = check_tr_macros_against_fluent_entries(tr_macros, fluent_entries);
    let b = check_fluent_entries_against_tr_macros(tr_macros, fluent_entries);
    let ghost av = text::strs_of(a@);
    let ghost bv = text::strs_of(b@);
    let mut i: usize = 0;
    while i < b.len()
        invariant
            i <= b@.len(),
            bv == text::strs_of(b@),
            text::strs_of(a@) == av + bv.take(i as int),
        decreases b@.len() - i,
    {
        let ghost before = text::strs_of(a@);
        let m = b[i].clone();
        a.push(m);
        assert(text::strs_of(a@) =~= before.push(bv[i as int]));
        assert(bv.take(i + 1) =~= bv.take(i as int).push(bv[i as int]));
        i = i + 1;
    }
    assert(bv.take(b@.len() as int) =~= bv);
    a
}

// ---------------------------------------------------------------------------
// What a clean check means
// ---------------------------------------------------------------------------

/// Whether the message of the macro call `tm` is among the entries `es`,
/// and its first entry has each placeable of the call.
pub open spec fn macro_found(tm: MacroV, es: Seq<EntryV>) -> bool {
    match find_entry_from(es, tm.message_name, 0) {
        Some(e) => forall|k: int|
            0 <= k < tm.placeables.len() ==> e.placeables.contains(#[trigger] tm.placeables[k]),
        None => false,
    }
}

/// Whether some macro call uses the message of the entry `e`, and the first
/// such call has each variable of the entry.
pub open spec fn entry_used(e: EntryV, tms: Seq<MacroV>) -> bool {
    match find_macro_from(tms, e.message_name, 0) {
        Some(tm) => forall|k: int|
            0 <= k < e.placeables.len() ==> tm.placeables.contains(#[trigger] e.placeables[k]),
        None => false,
    }
}

/// Whether the macro calls and the fluent entries agree: each call's
/// message is in every locale with the call's placeables, and each entry of
/// every locale is used by a call with the entry's variables.
pub open spec fn translations_agree(tms: Seq<MacroV>, entries: Seq<(Seq<char>, Seq<EntryV>)>) -> bool {
    &&& forall|i: int, j: int|
        0 <= i < tms.len() && 0 <= j < entries.len() ==> macro_found(
            #[trigger] tms[i],
            #[trigger] entries[j].1,
        )
    &&& forall|j: int, k: int|
        0 <= j < entries.len() && 0 <= k < entries[j].1.len() ==> entry_used(
            #[trigger] entries[j].1[k],
            tms,
        )
}

proof fn lemma_missing_macro_variables(ps: Seq<Seq<char>>, tm: MacroV, e: EntryV, lang: Seq<char>)
    ensures
        missing_macro_variables(ps, tm, e, lang).len() == 0 <==> forall|k: int|
            0 <= k < ps.len() ==> e.placeables.contains(#[trigger] ps[k]),
    decreases ps.len(),
{
    if ps.len() > 0 {
        lemma_missing_macro_variables(ps.drop_last(), tm, e, lang);
        if missing_macro_variables(ps, tm, e, lang).len() == 0 {
            assert forall|k: int| 0 <= k < ps.len() implies e.placeables.contains(#[trigger] ps[k]) by {
                if k < ps.len() - 1 {
                    assert(ps[k] == ps.drop_last()[k]);
                }
            }
        } else {
            if missing_macro_variables(ps.drop_last(), tm, e, lang).len() != 0 {
                let k = choose|k: int|
                    0 <= k < ps.drop_last().len() && !e.placeables.contains(
                        #[trigger] ps.drop_last()[k],
                    );
                assert(ps[k] == ps.drop_last()[k]);
            } else {
                assert(!e.placeables.contains(ps[ps.len() - 1]));
            }
        }
    }
}

proof fn lemma_missing_entry_variables(ps: Seq<Seq<char>>, e: EntryV, lang: Seq<char>, tm: MacroV)
    ensures
        missing_entry_variables(ps, e, lang, tm).len() == 0 <==> forall|k: int|
            0 <= k < ps.len() ==> tm.placeables.contains(#[trigger] ps[k]),
    decreases ps.len(),
{
    if ps.len() > 0 {
        lemma_missing_entry_variables(ps.drop_last(), e, lang, tm);
        if missing_entry_variables(ps, e, lang, tm).len() == 0 {
            assert forall|k: int| 0 <= k < ps.len() implies tm.placeables.contains(#[trigger] ps[k]) by {
                if k < ps.len() - 1 {
                    assert(ps[k] == ps.drop_last()[k]);
                }
            }
        } else {
            if missing_entry_variables(ps.drop_last(), e, lang, tm).len() != 0 {
                let k = choose|k: int|
                    0 <= k < ps.drop_last().len() && !tm.placeables.contains(
                        #[trigger] ps.drop_last()[k],
                    );
                assert(ps[k] == ps.drop_last()[k]);
            } else {
                assert(!tm.placeables.contains(ps[ps.len() - 1]));
            }
        }
    }
}

proof fn lemma_macro_lang_errors(tm: MacroV, lang: Seq<char>, es: Seq<EntryV>)
    ensures
        macro_lang_errors(tm, lang, es).len() == 0 <==> macro_found(tm, es),
{
    match find_entry_from(es, tm.message_name, 0) {
        Some(e) => lemma_missing_macro_variables(tm.placeables, tm, e, lang),
        None => {},
    }
}

proof fn lemma_entry_errors(e: EntryV, lang: Seq<char>, tms: Seq<MacroV>)
    ensures
        entry_errors(e, lang, tms).len() == 0 <==> entry_used(e, tms),
{
    match find_macro_from(tms, e.message_name, 0) {
        Some(tm) => lemma_missing_entry_variables(e.placeables, e, lang, tm),
        None => {},
    }
}

proof fn lemma_macro_errors(tm: MacroV, entries: Seq<(Seq<char>, Seq<EntryV>)>)
    ensures
        macro_errors(tm, entries).len() == 0 <==> forall|j: int|
            0 <= j < entries.len() ==> macro_found(tm, #[trigger] entries[j].1),
    decreases entries.len(),
{
    if entries.len() > 0 {
        let front = entries.drop_last();
        lemma_macro_errors(tm, front);
        lemma_macro_lang_errors(tm, entries.last().0, entries.last().1);
        if macro_errors(tm, entries).len() == 0 {
            assert forall|j: int| 0 <= j < entries.len() implies macro_found(
                tm,
                #[trigger] entries[j].1,
            ) by {
                if j < entries.len() - 1 {
                    assert(entries[j] == front[j]);
                }
            }
        } else if macro_errors(tm, front).len() != 0 {
            let j = choose|j: int| 0 <= j < front.len() && !macro_found(tm, #[trigger] front[j].1);
            assert(entries[j] == front[j]);
        }
    }
}

proof fn lemma_lang_errors(es: Seq<EntryV>, lang: Seq<char>, tms: Seq<MacroV>)
    ensures
        lang_errors(es, lang, tms).len() == 0 <==> forall|k: int|
            0 <= k < es.len() ==> entry_used(#[trigger] es[k], tms),
    decreases es.len(),
{
    if es.len() > 0 {
        let front = es.drop_last();
        lemma_lang_errors(front, lang, tms);
        lemma_entry_errors(es.last(), lang, tms);
        if lang_errors(es, lang, tms).len() == 0 {
            assert forall|k: int| 0 <= k < es.len() implies entry_used(#[trigger] es[k], tms) by {
                if k < es.len() - 1 {
                    assert(es[k] == front[k]);
                }
            }
        } else if lang_errors(front, lang, tms).len() != 0 {
            let k = choose|k: int| 0 <= k < front.len() && !entry_used(#[trigger] front[k], tms);
            assert(es[k] == front[k]);
        }
    }
}

proof fn lemma_tr_macros_against_entries(tms: Seq<MacroV>, entries: Seq<(Seq<char>, Seq<EntryV>)>)
    ensures
        tr_macros_against_entries(tms, entries).len() == 0 <==> forall|i: int, j: int|
            0 <= i < tms.len() && 0 <= j < entries.len() ==> macro_found(
                #[trigger] tms[i],
                #[trigger] entries[j].1,
            ),
    decreases tms.len(),
{
    if tms.len() > 0 {
        let front = tms.drop_last();
        lemma_tr_macros_against_entries(front, entries);
        lemma_macro_errors(tms.last(), entries);
        if tr_macros_against_entries(tms, entries).len() == 0 {
            assert forall|i: int, j: int|
                0 <= i < tms.len() && 0 <= j < entries.len() implies macro_found(
                #[trigger] tms[i],
                #[trigger] entries[j].1,
            ) by {
                if i < tms.len() - 1 {
                    assert(tms[i] == front[i]);
                }
            }
        } else if tr_macros_against_entries(front, entries).len() != 0 {
            let (i, j) = choose|i: int, j: int|
                0 <= i < front.len() && 0 <= j < entries.len() && !macro_found(
                    #[trigger] front[i],
                    #[trigger] entries[j].1,
                );
            assert(tms[i] == front[i]);
        } else {
            let j = choose|j: int|
                0 <= j < entries.len() && !macro_found(tms.last(), #[trigger] entries[j].1);
            assert(tms[tms.len() - 1] == tms.last());
        }
    }
}

proof fn lemma_entries_against_tr_macros(entries: Seq<(Seq<char>, Seq<EntryV>)>, tms: Seq<MacroV>)
    ensures
        entries_against_tr_macros(entries, tms).len() == 0 <==> forall|j: int, k: int|
            0 <= j < entries.len() && 0 <= k < entries[j].1.len() ==> entry_used(
                #[trigger] entries[j].1[k],
                tms,
            ),
    decreases entries.len(),
{
    if entries.len() > 0 {
        let front = entries.drop_last();
        lemma_entries_against_tr_macros(front, tms);
        lemma_lang_errors(entries.last().1, entries.last().0, tms);
        if entries_against_tr_macros(entries, tms).len() == 0 {
            assert forall|j: int, k: int|
                0 <= j < entries.len() && 0 <= k < entries[j].1.len() implies entry_used(
                #[trigger] entries[j].1[k],
                tms,
            ) by {
                if j < entries.len() - 1 {
                    assert(entries[j] == front[j]);
                }
            }
        } else if entries_against_tr_macros(front, tms).len() != 0 {
            let (j, k) = choose|j: int, k: int|
                0 <= j < front.len() && 0 <= k < front[j].1.len() && !entry_used(
                    #[trigger] front[j].1[k],
                    tms,
                );
            assert(entries[j] == front[j]);
        } else {
            let k = choose|k: int|
                0 <= k < entries.last().1.len() && !entry_used(#[trigger] entries.last().1[k], tms);
            assert(entries[entries.len() - 1] == entries.last());
        }
    }
}

/// A translations check reports nothing exactly when the macro calls and
/// the fluent entries agree: every call's message is in every locale with
/// the call's placeables, and every entry is used by a call with the
/// entry's variables.
pub proof fn law_clean_check_iff_agree(tms: Seq<MacroV>, entries: Seq<(Seq<char>, Seq<EntryV>)>)
    ensures
        check_messages(tms, entries).len() == 0 <==> translations_agree(tms, entries),
{
    lemma_tr_macros_against_entries(tms, entries);
    lemma_entries_against_tr_macros(entries, tms);
}

/// The check of the macro calls against the fluent entries reports
/// nothing exactly when each call's message is in every locale, with the
/// call's placeables among its first entry's variables.
pub proof fn law_calls_check_clean_iff_found(tms: Seq<MacroV>, entries: Seq<(Seq<char>, Seq<EntryV>)>)
    ensures
        tr_macros_against_entries(tms, entries).len() == 0 <==> forall|i: int, j: int|
            0 <= i < tms.len() && 0 <= j < entries.len() ==> macro_found(
                #[trigger] tms[i],
                #[trigger] entries[j].1,
            ),
{
    lemma_tr_macros_against_entries(tms, entries);
}

/// The check of the fluent entries against the macro calls reports nothing
/// exactly when each entry of every locale is used by a call, with the
/// entry's variables among the first such call's placeables.
pub proof fn law_entries_check_clean_iff_used(entries: Seq<(Seq<char>, Seq<EntryV>)>, tms: Seq<MacroV>)
    ensures
        entries_against_tr_macros(entries, tms).len() == 0 <==> forall|j: int, k: int|
            0 <= j < entries.len() && 0 <= k < entries[j].1.len() ==> entry_used(
                #[trigger] entries[j].1[k],
                tms,
            ),
{
    lemma_entries_against_tr_macros(entries, tms);
}

/// The placeables of `ps` that the entry `e` lacks, in order.
pub open spec fn lacked_by(ps: Seq<Seq<char>>, e: EntryV) -> Seq<Seq<char>> {
    ps.filter(|p: Seq<char>| !e.placeables.contains(p))
}

proof fn lemma_missing_macro_variables_filter(ps: Seq<Seq<char>>, tm: MacroV, e: EntryV, lang: Seq<char>)
    ensures
        missing_macro_variables(ps, tm, e, lang) == lacked_by(ps, e).map_values(
            |p: Seq<char>| macro_variable_error(p, tm, lang),
        ),
    decreases ps.len(),
{
    reveal(Seq::filter);
    let f = |p: Seq<char>| macro_variable_error(p, tm, lang);
    if ps.len() == 0 {
        assert(lacked_by(ps, e) =~= Seq::<Seq<char>>::empty());
        assert(lacked_by(ps, e).map_values(f) =~= Seq::<Seq<char>>::empty());
    } else {
        lemma_missing_macro_variables_filter(ps.drop_last(), tm, e, lang);
        let prev = lacked_by(ps.drop_last(), e);
        assert(ps.drop_last().filter(|p: Seq<char>| !e.placeables.contains(p)) == prev);
        if e.placeables.contains(ps.last()) {
            assert(lacked_by(ps, e) == prev);
        } else {
            assert(lacked_by(ps, e) == prev.push(ps.last()));
            assert(prev.push(ps.last()).map_values(f) =~= prev.map_values(f).push(f(ps.last())));
        }
    }
}

/// Checking one macro call `tm` against one locale `lang` whose first
/// entry for the call's message is `es[k]` gives one error for each
/// placeable of the call that this entry lacks, in the order of the call's
/// placeables, each naming that placeable, and nothing else.
pub proof fn law_variable_errors_name_lacked_placeables(
    tm: MacroV,
    lang: Seq<char>,
    es: Seq<EntryV>,
    k: int,
)
    requires
        0 <= k < es.len(),
        es[k].message_name == tm.message_name,
        forall|j: int| 0 <= j < k ==> es[j].message_name != tm.message_name,
    ensures
        tr_macros_against_entries(seq![tm], seq![(lang, es)]) == lacked_by(tm.placeables, es[k]).map_values(
            |p: Seq<char>| macro_variable_error(p, tm, lang),
        ),
{
    lemma_find_entry_first(es, tm.message_name, k, 0);
    lemma_missing_macro_variables_filter(tm.placeables, tm, es[k], lang);
    let entries = seq![(lang, es)];
    assert(entries.drop_last() =~= Seq::<(Seq<char>, Seq<EntryV>)>::empty());
    assert(entries.last() == (lang, es));
    assert(macro_errors(tm, entries.drop_last()) == Seq::<Seq<char>>::empty());
    assert(macro_errors(tm, entries) =~= macro_lang_errors(tm, lang, es));
    let tms = seq![tm];
    assert(tms.drop_last() =~= Seq::<MacroV>::empty());
    assert(tms.last() == tm);
    assert(tr_macros_against_entries(tms.drop_last(), entries) == Seq::<Seq<char>>::empty());
    assert(tr_macros_against_entries(tms, entries) =~= macro_errors(tm, entries));
}

proof fn lemma_find_entry_first(es: Seq<EntryV>, name: Seq<char>, k: int, i: int)
    requires
        0 <= i <= k < es.len(),
        es[k].message_name == name,
        forall|j: int| 0 <= j < k ==> es[j].message_name != name,
    ensures
        find_entry_from(es, name, i) == Some(es[k]),
    decreases k - i,
{
    if i < k {
        lemma_find_entry_first(es, name, k, i + 1);
    }
}

proof fn lemma_macro_errors_contains(
    tm: MacroV,
    entries: Seq<(Seq<char>, Seq<EntryV>)>,
    j: int,
    x: Seq<char>,
)
    requires
        0 <= j < entries.len(),
        macro_lang_errors(tm, entries[j].0, entries[j].1).contains(x),
    ensures
        macro_errors(tm, entries).contains(x),
    decreases entries.len(),
{
    let prev = macro_errors(tm, entries.drop_last());
    let last = macro_lang_errors(tm, entries.last().0, entries.last().1);
    if j < entries.len() - 1 {
        assert(entries.drop_last()[j] == entries[j]);
        lemma_macro_errors_contains(tm, entries.drop_last(), j, x);
        let t = choose|t: int| 0 <= t < prev.len() && prev[t] == x;
        assert((prev + last)[t] == x);
    } else {
        let t = choose|t: int| 0 <= t < last.len() && last[t] == x;
        assert((prev + last)[prev.len() + t] == x);
    }
}

proof fn lemma_tr_macros_errors_contains(
    tms: Seq<MacroV>,
    entries: Seq<(Seq<char>, Seq<EntryV>)>,
    i: int,
    x: Seq<char>,
)
    requires
        0 <= i < tms.len(),
        macro_errors(tms[i], entries).contains(x),
    ensures
        tr_macros_against_entries(tms, entries).contains(x),
    decreases tms.len(),
{
    let prev = tr_macros_against_entries(tms.drop_last(), entries);
    let last = macro_errors(tms.last(), entries);
    if i < tms.len() - 1 {
        assert(tms.drop_last()[i] == tms[i]);
        lemma_tr_macros_errors_contains(tms.drop_last(), entries, i, x);
        let t = choose|t: int| 0 <= t < prev.len() && prev[t] == x;
        assert((prev + last)[t] == x);
    } else {
        let t = choose|t: int| 0 <= t < last.len() && last[t] == x;
        assert((prev + last)[prev.len() + t] == x);
    }
}

/// Whatever other calls and locales are checked, a placeable `p` of a macro
/// call that the first entry of a locale for the call's message lacks is
/// reported, naming `p`, that call and that locale.
pub proof fn law_lacked_placeable_reported(
    tms: Seq<MacroV>,
    entries: Seq<(Seq<char>, Seq<EntryV>)>,
    i: int,
    j: int,
    k: int,
    p: Seq<char>,
)
    requires
        0 <= i < tms.len(),
        0 <= j < entries.len(),
        0 <= k < entries[j].1.len(),
        entries[j].1[k].message_name == tms[i].message_name,
        forall|l: int| 0 <= l < k ==> entries[j].1[l].message_name != tms[i].message_name,
        tms[i].placeables.contains(p),
        !entries[j].1[k].placeables.contains(p),
    ensures
        tr_macros_against_entries(tms, entries).contains(
            macro_variable_error(p, tms[i], entries[j].0),
        ),
{
    let tm = tms[i];
    let es = entries[j].1;
    let lang = entries[j].0;
    lemma_find_entry_first(es, tm.message_name, k, 0);
    lemma_missing_macro_variables_filter(tm.placeables, tm, es[k], lang);
    let lk = lacked_by(tm.placeables, es[k]);
    assert(lk.contains(p)) by {
        reveal(Seq::filter);
        let t = choose|t: int| 0 <= t < tm.placeables.len() && tm.placeables[t] == p;
        tm.placeables.lemma_filter_contains(|q: Seq<char>| !es[k].placeables.contains(q), t);
    }
    let t = choose|t: int| 0 <= t < lk.len() && lk[t] == p;
    let errs = lk.map_values(|q: Seq<char>| macro_variable_error(q, tm, lang));
    assert(errs[t] == macro_variable_error(p, tm, lang));
    assert(macro_lang_errors(tm, lang, es).contains(macro_variable_error(p, tm, lang)));
    lemma_macro_errors_contains(tm, entries, j, macro_variable_error(p, tm, lang));
    lemma_tr_macros_errors_contains(tms, entries, i, macro_variable_error(p, tm, lang));
}

/// Checking one macro call against one locale none of whose entries is
/// for the call's message gives exactly the one error that the message is
/// missing in that locale.
pub proof fn law_missing_message_reported(tm: MacroV, lang: Seq<char>, es: Seq<EntryV>)
    requires
        forall|j: int| 0 <= j < es.len() ==> es[j].message_name != tm.message_name,
    ensures
        tr_macros_against_entries(seq![tm], seq![(lang, es)]) == seq![macro_message_error(tm, lang)],
{
    lemma_find_entry_none(es, tm.message_name, 0);
    let entries = seq![(lang, es)];
    assert(entries.drop_last() =~= Seq::<(Seq<char>, Seq<EntryV>)>::empty());
    assert(entries.last() == (lang, es));
    assert(macro_errors(tm, entries.drop_last()) == Seq::<Seq<char>>::empty());
    assert(macro_errors(tm, entries) =~= macro_lang_errors(tm, lang, es));
    let tms = seq![tm];
    assert(tms.drop_last() =~= Seq::<MacroV>::empty());
    assert(tms.last() == tm);
    assert(tr_macros_against_entries(tms.drop_last(), entries) == Seq::<Seq<char>>::empty());
    assert(tr_macros_against_entries(tms, entries) =~= macro_errors(tm, entries));
}

proof fn lemma_find_entry_none(es: Seq<EntryV>, name: Seq<char>, i: int)
    requires
        0 <= i,
        forall|j: int| 0 <= j < es.len() ==> es[j].message_name != name,
    ensures
        find_entry_from(es, name, i) is None,
    decreases es.len() - i,
{
    if i < es.len() {
        lemma_find_entry_none(es, name, i + 1);
    }
}

proof fn lemma_find_macro_first(tms: Seq<MacroV>, name: Seq<char>, k: int, i: int)
    requires
        0 <= i <= k < tms.len(),
        tms[k].message_name == name,
        forall|j: int| 0 <= j < k ==> tms[j].message_name != name,
    ensures
        find_macro_from(tms, name, i) == Some(tms[k]),
    decreases k - i,
{
    if i < k {
        lemma_find_macro_first(tms, name, k, i + 1);
    }
}

proof fn lemma_find_macro_none(tms: Seq<MacroV>, name: Seq<char>, i: int)
    requires
        0 <= i,
        forall|j: int| 0 <= j < tms.len() ==> tms[j].message_name != name,
    ensures
        find_macro_from(tms, name, i) is None,
    decreases tms.len() - i,
{
    if i < tms.len() {
        lemma_find_macro_none(tms, name, i + 1);
    }
}

/// The variables of `ps` that the macro call `tm` lacks among its
/// placeables, in order.
pub open spec fn lacked_by_call(ps: Seq<Seq<char>>, tm: MacroV) -> Seq<Seq<char>> {
    ps.filter(|p: Seq<char>| !tm.placeables.contains(p))
}

proof fn lemma_missing_entry_variables_filter(ps: Seq<Seq<char>>, e: EntryV, lang: Seq<char>, tm: MacroV)
    ensures
        missing_entry_variables(ps, e, lang, tm) == lacked_by_call(ps, tm).map_values(
            |p: Seq<char>| entry_variable_error(p, e, lang, tm),
        ),
    decreases ps.len(),
{
    reveal(Seq::filter);
    let f = |p: Seq<char>| entry_variable_error(p, e, lang, tm);
    if ps.len() == 0 {
        assert(lacked_by_call(ps, tm) =~= Seq::<Seq<char>>::empty());
        assert(lacked_by_call(ps, tm).map_values(f) =~= Seq::<Seq<char>>::empty());
    } else {
        lemma_missing_entry_variables_filter(ps.drop_last(), e, lang, tm);
        let prev = lacked_by_call(ps.drop_last(), tm);
        assert(ps.drop_last().filter(|p: Seq<char>| !tm.placeables.contains(p)) == prev);
        if tm.placeables.contains(ps.last()) {
            assert(lacked_by_call(ps, tm) == prev);
        } else {
            assert(lacked_by_call(ps, tm) == prev.push(ps.last()));
            assert(prev.push(ps.last()).map_values(f) =~= prev.map_values(f).push(f(ps.last())));
        }
    }
}

/// Checking one entry `e` of a locale against the macro calls: where the
/// first call for its message is `tms[k]`, one error for each variable of
/// the entry that this call lacks, in the order of the entry's variables,
/// each naming that variable; where no call uses its message, exactly the
/// error that the message is unused.
pub proof fn law_entry_errors_name_lacked_variables(
    e: EntryV,
    lang: Seq<char>,
    tms: Seq<MacroV>,
    k: int,
)
    ensures
        (0 <= k < tms.len() && tms[k].message_name == e.message_name && forall|j: int|
            0 <= j < k ==> tms[j].message_name != e.message_name) ==> entries_against_tr_macros(
            seq![(lang, seq![e])],
            tms,
        ) == lacked_by_call(e.placeables, tms[k]).map_values(
            |p: Seq<char>| entry_variable_error(p, e, lang, tms[k]),
        ),
        (forall|j: int| 0 <= j < tms.len() ==> tms[j].message_name != e.message_name)
            ==> entries_against_tr_macros(seq![(lang, seq![e])], tms) == seq![
            entry_message_error(e, lang),
        ],
{
    let es = seq![e];
    assert(es.drop_last() =~= Seq::<EntryV>::empty());
    assert(es.last() == e);
    assert(lang_errors(es.drop_last(), lang, tms) == Seq::<Seq<char>>::empty());
    assert(lang_errors(es, lang, tms) =~= entry_errors(e, lang, tms));
    let entries = seq![(lang, es)];
    assert(entries.drop_last() =~= Seq::<(Seq<char>, Seq<EntryV>)>::empty());
    assert(entries.last() == (lang, es));
    assert(entries_against_tr_macros(entries.drop_last(), tms) == Seq::<Seq<char>>::empty());
    assert(entries_against_tr_macros(entries, tms) =~= entry_errors(e, lang, tms));
    if 0 <= k < tms.len() && tms[k].message_name == e.message_name && forall|j: int|
        0 <= j < k ==> tms[j].message_name != e.message_name {
        lemma_find_macro_first(tms, e.message_name, k, 0);
        lemma_missing_entry_variables_filter(e.placeables, e, lang, tms[k]);
    }
    if forall|j: int| 0 <= j < tms.len() ==> tms[j].message_name != e.message_name {
        lemma_find_macro_none(tms, e.message_name, 0);
    }
}

} // verus!
