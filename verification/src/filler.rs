use vstd::prelude::*;
use crate::fluent_entries;
use crate::fluent_entries::{entries_of, lang_strs_of, EntryV, FluentEntry};
use crate::text;
use crate::tr_macros;
use crate::tr_macros::{MacroV, TranslationMacro};

verus! {

/// A resource file to fill: its path, its path relative to the workspace,
/// its new content and the names of the messages added to it.
pub struct FilledFile {
    pub file_path: String,
    pub rel_file_path: String,
    pub content: String,
    pub message_names: Vec<String>,
}

/// The model of a `FilledFile`.
pub struct FilledV {
    pub file_path: Seq<char>,
    pub rel_file_path: Seq<char>,
    pub content: Seq<char>,
    pub message_names: Seq<Seq<char>>,
}

impl View for FilledFile {
    type V = FilledV;

    open spec fn view(&self) -> FilledV {
        FilledV {
            file_path: self.file_path@,
            rel_file_path: self.rel_file_path@,
            content: self.content@,
            message_names: text::strs_of(self.message_names@),
        }
    }
}

/// The models of filled files.
pub open spec fn filled_of(v: Seq<FilledFile>) -> Seq<FilledV> {
    Seq::new(v.len(), |i: int| v[i]@)
}

/// The message names of the translation macros, in order.
pub open spec fn macro_names(tms: Seq<MacroV>) -> Seq<Seq<char>> {
    Seq::new(tms.len(), |i: int| tms[i].message_name)
}

/// Whether some entry of `es` is named `name`.
pub open spec fn has_entry(es: Seq<EntryV>, name: Seq<char>) -> bool {
    exists|k: int| 0 <= k < es.len() && (#[trigger] es[k]).message_name == name
}

/// The names of `names` (repeats kept) that no entry of `es` bears.
pub open spec fn missing_names(es: Seq<EntryV>, names: Seq<Seq<char>>) -> Seq<Seq<char>>
    decreases names.len(),
{
    if names.len() == 0 {
        seq![]
    } else if has_entry(es, names.last()) {
        missing_names(es, names.drop_last())
    } else {
        missing_names(es, names.drop_last()).push(names.last())
    }
}

/// The entries of the first locale of `ls`, from index `i` on, named
/// `lang` (none where there is no such locale).
pub open spec fn entries_of_lang(ls: Seq<(Seq<char>, Seq<EntryV>)>, lang: Seq<char>, i: int) -> Seq<
    EntryV,
>
    decreases ls.len() - i,
{
    if i < 0 || i >= ls.len() {
        seq![]
    } else if ls[i].0 == lang {
        ls[i].1
    } else {
        entries_of_lang(ls, lang, i + 1)
    }
}

/// The line added for a missing message.
pub open spec fn missing_line(name: Seq<char>) -> Seq<char> {
    name + " = Unknown localization "@ + name + "\n"@
}

/// The lines added for the missing messages `names`.
pub open spec fn missing_lines(names: Seq<Seq<char>>) -> Seq<char>
    decreases names.len(),
{
    if names.len() == 0 {
        seq![]
    } else {
        missing_lines(names.drop_last()) + missing_line(names.last())
    }
}

/// `s` ending with a line break.
pub open spec fn with_newline(s: Seq<char>) -> Seq<char> {
    if s.len() > 0 && s.last() == '\n' {
        s
    } else {
        s.push('\n')
    }
}

/// The files to fill, locale after locale: the first resource of each
/// locale, with the messages that the macro calls use and its entries lack
/// added at its end, goes to the first file of the locale. `None` stands
/// for the panics: a locale without a resource or a file, or a file path
/// that cannot be made relative to the workspace.
pub open spec fn fill_files(
    res: Seq<(Seq<char>, Seq<Seq<char>>)>,
    paths: Seq<(Seq<char>, Seq<Seq<char>>)>,
    ws: Seq<char>,
    ls: Seq<(Seq<char>, Seq<EntryV>)>,
    names: Seq<Seq<char>>,
) -> Option<Seq<FilledV>>
    decreases res.len(),
{
    if res.len() == 0 {
        Some(seq![])
    } else {
        match fill_files(res.drop_last(), paths, ws, ls, names) {
            None => None,
            Some(prev) => {
                let lang = res.last().0;
                let rs = res.last().1;
                if rs.len() == 0 {
                    None
                } else {
                    match fluent_entries::find_lang(paths, lang, 0) {
                        None => None,
                        Some(ps) => if ps.len() == 0 {
                            None
                        } else {
                            match fluent_entries::relative_path(ps[0], ws) {
                                None => None,
                                Some(rel) => {
                                    let miss = missing_names(entries_of_lang(ls, lang, 0), names);
                                    if miss.len() == 0 {
                                        Some(prev)
                                    } else {
                                        Some(
                                            prev.push(
                                                FilledV {
                                                    file_path: ps[0],
                                                    rel_file_path: rel,
                                                    content: with_newline(rs[0]) + missing_lines(
                                                        miss,
                                                    ),
                                                    message_names: miss,
                                                },
                                            ),
                                        )
                                    }
                                },
                            }
                        },
                    }
                }
            },
        }
    }
}

/// What filling the translations gives: the files to fill and the errors
/// (those met gathering the macro calls, then those met building the fluent
/// entries); `None` where filling panics or never ends.
pub open spec fn fill_spec(
    tms: Seq<MacroV>,
    tm_errors: Seq<Seq<char>>,
    res: Seq<(Seq<char>, Seq<Seq<char>>)>,
    paths: Seq<(Seq<char>, Seq<Seq<char>>)>,
    ws: Seq<char>,
    core_path: Option<Seq<char>>,
    core: Option<Seq<char>>,
) -> Option<(Seq<FilledV>, Seq<Seq<char>>)> {
    match fluent_entries::fluent_entries_spec(res, paths, ws, core_path, core) {
        None => None,
        Some((ls, errs)) => match fill_files(res, paths, ws, ls, macro_names(tms)) {
            None => None,
            Some(files) => Some((files, tm_errors + errs)),
        },
    }
}

/// A name is reported missing exactly when a macro call uses it and no
/// entry of the locale bears it.
pub proof fn law_missing_names(es: Seq<EntryV>, names: Seq<Seq<char>>, n: Seq<char>)
    ensures
        missing_names(es, names).contains(n) <==> (names.contains(n) && !has_entry(es, n)),
    decreases names.len(),
{
    if names.len() > 0 {
        let front = names.drop_last();
        law_missing_names(es, front, n);
        if names.contains(n) && !has_entry(es, n) {
            let k = choose|k: int| 0 <= k < names.len() && names[k] == n;
            if k < names.len() - 1 {
                assert(front[k] == n);
            }
        }
        if front.contains(n) {
            let k = choose|k: int| 0 <= k < front.len() && front[k] == n;
            assert(names[k] == n);
        }
        if missing_names(es, names).contains(n) && !missing_names(es, front).contains(n) {
            assert(missing_names(es, names) == missing_names(es, front).push(names.last()));
            let k = choose|k: int|
                0 <= k < missing_names(es, names).len() && missing_names(es, names)[k] == n;
            if k < missing_names(es, front).len() {
                assert(missing_names(es, front)[k] == n);
            }
            assert(names[names.len() - 1] == n);
        }
        if !has_entry(es, names.last()) {
            assert(missing_names(es, names).last() == names.last());
        }
        if missing_names(es, front).contains(n) {
            let k = choose|k: int|
                0 <= k < missing_names(es, front).len() && missing_names(es, front)[k] == n;
            assert(missing_names(es, names)[k] == n);
        }
    }
}

fn has_entry_exec(es: &Vec<FluentEntry>, name: &String) -> (r: bool)
    ensures
        r == has_entry(fluent_entries::lang_entries_of(es@), name@),
{
    let ghost ev = fluent_entries::lang_entries_of(es@);
    let mut i: usize = 0;
    while i < es.len()
        invariant
            i <= es@.len(),
            ev == fluent_entries::lang_entries_of(es@),
            forall|k: int| 0 <= k < i ==> (#[trigger] ev[k]).message_name != name@,
        decreases es@.len() - i,
    {
        if es[i].message_name == *name {
            assert(ev[i as int].message_name == name@);
            return true;
        }
        i = i + 1;
    }
    false
}

fn missing_names_exec(es: &Vec<FluentEntry>, names: &Vec<String>) -> (r: Vec<String>)
    ensures
        text::strs_of(r@) == missing_names(fluent_entries::lang_entries_of(es@), text::strs_of(names@)),
{
    let ghost nv = text::strs_of(names@);
    let ghost ev = fluent_entries::lang_entries_of(es@);
    let mut out: Vec<String> = Vec::new();
    let mut i: usize = 0;
    while i < names.len()
        invariant
            i <= names@.len(),
            nv == text::strs_of(names@),
            ev == fluent_entries::lang_entries_of(es@),
            text::strs_of(out@) == missing_names(ev, nv.take(i as int)),
        decreases names@.len() - i,
    {
        assert(nv.take(i + 1).drop_last() =~= nv.take(i as int));
        if !has_entry_exec(es, &names[i]) {
            let ghost before = text::strs_of(out@);
            out.push(names[i].clone());
            assert(text::strs_of(out@) =~= before.push(nv[i as int]));
        }
        i = i + 1;
    }
    assert(nv.take(names@.len() as int) =~= nv);
    out
}

fn find_lang_entries(ls: &Vec<(String, Vec<FluentEntry>)>, lang: &String) -> (r: Option<usize>)
    ensures
        match r {
            Some(k) => k < ls@.len() && entries_of_lang(entries_of(ls@), lang@, 0)
                == fluent_entries::lang_entries_of(ls@[k as int].1@),
            None => entries_of_lang(entries_of(ls@), lang@, 0) == Seq::<EntryV>::empty(),
        },
{
    let ghost lv = entries_of(ls@);
    let mut i: usize = 0;
    while i < ls.len()
        invariant
            i <= ls@.len(),
            lv == entries_of(ls@),
            entries_of_lang(lv, lang@, 0) == entries_of_lang(lv, lang@, i as int),
        decreases ls@.len() - i,
    {
        if ls[i].0 == *lang {
            return Some(i);
        }
        i = i + 1;
    }
    None
}

fn missing_lines_exec(names: &Vec<String>, out: &mut String)
    ensures
        final(out)@ == old(out)@ + missing_lines(text::strs_of(names@)),
{
    let ghost nv = text::strs_of(names@);
    let ghost start = out@;
    let mut i: usize = 0;
    while i < names.len()
        invariant
            i <= names@.len(),
            nv == text::strs_of(names@),
            out@ == start + missing_lines(nv.take(i as int)),
        decreases names@.len() - i,
    {
        assert(nv.take(i + 1).drop_last() =~= nv.take(i as int));
        text::push_str(out, names[i].as_str());
        text::push_str(out, " = Unknown localization ");
        text::push_str(out, names[i].as_str());
        text::push_str(out, "\n");
        i = i + 1;
        assert(out@ =~= start + missing_lines(nv.take(i as int)));
    }
    assert(nv.take(names@.len() as int) =~= nv);
}

fn fill_files_exec(
    resources: &Vec<(String, Vec<String>)>,
    paths: &Vec<(String, Vec<String>)>,
    ws: &str,
    ls: &Vec<(String, Vec<FluentEntry>)>,
    names: &Vec<String>,
) -> (r: Option<Vec<FilledFile>>)
    ensures
        match r {
            Some(fs) => fill_files(
                lang_strs_of(resources@),
                lang_strs_of(paths@),
                ws@,
                entries_of(ls@),
                text::strs_of(names@),
            ) == Some(filled_of(fs@)),
            None => fill_files(
                lang_strs_of(resources@),
                lang_strs_of(paths@),
                ws@,
                entries_of(ls@),
                text::strs_of(names@),
            ) is None,
        },
{
    let ghost rv = lang_strs_of(resources@);
    let ghost pv = lang_strs_of(paths@);
    let ghost lv = entries_of(ls@);
    let ghost nv = text::strs_of(names@);
    let mut out: Vec<FilledFile> = Vec::new();
    let mut i: usize = 0;
    while i < resources.len()
        invariant
            i <= resources@.len(),
            rv == lang_strs_of(resources@),
            pv == lang_strs_of(paths@),
            lv == entries_of(ls@),
            nv == text::strs_of(names@),
            fill_files(rv.take(i as int), pv, ws@, lv, nv) == Some(filled_of(out@)),
        decreases resources@.len() - i,
    {
        assert(rv.take(i + 1).drop_last() =~= rv.take(i as int));
        assert(rv.take(i + 1).last() == rv[i as int]);
        let lang = &resources[i].0;
        let rs = &resources[i].1;
        if rs.len() == 0 {
            proof {
                lemma_fill_files_none(rv, pv, ws@, lv, nv, i + 1);
            }
            return None;
        }
        let k = match fluent_entries::find_lang_exec(paths, lang) {
            None => {
                proof {
                    lemma_fill_files_none(rv, pv, ws@, lv, nv, i + 1);
                }
                return None;
            },
            Some(k) => k,
        };
        let ps = &paths[k].1;
        if ps.len() == 0 {
            proof {
                lemma_fill_files_none(rv, pv, ws@, lv, nv, i + 1);
            }
            return None;
        }
        let rel = match fluent_entries::diff_paths(ps[0].as_str(), ws) {
            None => {
                proof {
                    lemma_fill_files_none(rv, pv, ws@, lv, nv, i + 1);
                }
                return None;
            },
            Some(rel) => rel,
        };
        let miss = match find_lang_entries(ls, lang) {
            Some(j) => missing_names_exec(&ls[j].1, names),
            None => {
                let empty: Vec<FluentEntry> = Vec::new();
                assert(fluent_entries::lang_entries_of(empty@) =~= Seq::<EntryV>::empty());
                missing_names_exec(&empty, names)
            },
        };
        if miss.len() > 0 {
            let mut content = rs[0].clone();
            let c = text::chars_of(rs[0].as_str());
            let ends_with_newline = c.len() > 0 && c[c.len() - 1] == '\n';
            if !ends_with_newline {
                text::push_char(&mut content, '\n');
            }
            missing_lines_exec(&miss, &mut content);
            let ghost before = filled_of(out@);
            let f = FilledFile {
                file_path: ps[0].clone(),
                rel_file_path: rel,
                content,
                message_names: miss,
            };
            out.push(f);
            assert(filled_of(out@) =~= before.push(f@));
        }
        i = i + 1;
    }
    assert(rv.take(resources@.len() as int) =~= rv);
    Some(out)
}

proof fn lemma_fill_files_none(
    res: Seq<(Seq<char>, Seq<Seq<char>>)>,
    paths: Seq<(Seq<char>, Seq<Seq<char>>)>,
    ws: Seq<char>,
    ls: Seq<(Seq<char>, Seq<EntryV>)>,
    names: Seq<Seq<char>>,
    k: int,
)
    requires
        0 <= k <= res.len(),
        fill_files(res.take(k), paths, ws, ls, names) is None,
    ensures
        fill_files(res, paths, ws, ls, names) is None,
    decreases res.len() - k,
{
    if k < res.len() {
        assert(res.take(k + 1).drop_last() =~= res.take(k));
        lemma_fill_files_none(res, paths, ws, ls, names, k + 1);
    } else {
        assert(res.take(k) =~= res);
    }
}

/// The outcome of filling the translations.
pub struct Filled {
    pub files: Vec<FilledFile>,
    pub errors: Vec<String>,
}

fn fill(
    tr_macros: &Vec<TranslationMacro>,
    tr_macros_errors: &Vec<String>,
    fluent_resources: &Vec<(String, Vec<String>)>,
    fluent_file_paths: &Vec<(String, Vec<String>)>,
    workspace_path: &str,
    core_locales_path: &Option<String>,
    core_locales_content: &Option<String>,
) -> (r: Option<Filled>)
    ensures
        match r {
            Some(f) => fill_spec(
                tr_macros::macros_of(tr_macros@),
                text::strs_of(tr_macros_errors@),
                lang_strs_of(fluent_resources@),
                lang_strs_of(fluent_file_paths@),
                workspace_path@,
                tr_macros::opt_str(*core_locales_path),
                tr_macros::opt_str(*core_locales_content),
            ) == Some((filled_of(f.files@), text::strs_of(f.errors@))),
            None => fill_spec(
                tr_macros::macros_of(tr_macros@),
                text::strs_of(tr_macros_errors@),
                lang_strs_of(fluent_resources@),
                lang_strs_of(fluent_file_paths@),
                workspace_path@,
                tr_macros::opt_str(*core_locales_path),
                tr_macros::opt_str(*core_locales_content),
            ) is None,
        },
{
    let (ls, errs) = match fluent_entries::checked_build_fluent_entries(
        fluent_resources,
        fluent_file_paths,
        workspace_path,
        core_locales_path,
        core_locales_content,
    ) {
        None => {
            return None;
        },
        Some(r) => r,
    };
    let mut names: Vec<String> = Vec::new();
    let mut i: usize = 0;
    while i < tr_macros.len()
        invariant
            i <= tr_macros@.len(),
            text::strs_of(names@) == macro_names(tr_macros::macros_of(tr_macros@)).take(i as int),
        decreases tr_macros@.len() - i,
    {
        let ghost before = text::strs_of(names@);
        names.push(tr_macros[i].message_name.clone());
        assert(text::strs_of(names@) =~= before.push(tr_macros@[i as int].message_name@));
        assert(macro_names(tr_macros::macros_of(tr_macros@)).take(i + 1) =~= macro_names(
            tr_macros::macros_of(tr_macros@),
        ).take(i as int).push(tr_macros@[i as int].message_name@));
        i = i + 1;
    }
    assert(macro_names(tr_macros::macros_of(tr_macros@)).take(tr_macros@.len() as int) =~= macro_names(
        tr_macros::macros_of(tr_macros@),
    ));
    match fill_files_exec(fluent_resources, fluent_file_paths, workspace_path, &ls, &names) {
        None => None,
        Some(files) => {
            let mut errors = text::clone_strings(tr_macros_errors);
            text::append_strings(&mut errors, &errs);
            Some(Filled { files, errors })
        },
    }
}

/// Fills the translations: for each locale, the messages that the
/// translation macro calls use and the locale's fluent entries lack are
/// added, one line `name = Unknown localization name` each, at the end of
/// the locale's first resource (after a line break where it lacks one),
/// which goes to the locale's first file. Gives the files to write, with
/// the paths relative to the workspace and the names added, and the errors:
/// those met gathering the macro calls, then those met building the fluent
/// entries. `requires` leaves out the inputs where filling panics or
/// never ends (see `checked_run`).
pub fn run(
    tr_macros: &Vec<TranslationMacro>,
    tr_macros_errors: &Vec<String>,
    fluent_resources: &Vec<(String, Vec<String>)>,
    fluent_file_paths: &Vec<(String, Vec<String>)>,
    workspace_path: &str,
    core_locales_path: &Option<String>,
    core_locales_content: &Option<String>,
) -> (r: Filled)
    requires
        fill_spec(
            tr_macros::macros_of(tr_macros@),
            text::strs_of(tr_macros_errors@),
            lang_strs_of(fluent_resources@),
            lang_strs_of(fluent_file_paths@),
            workspace_path@,
            tr_macros::opt_str(*core_locales_path),
            tr_macros::opt_str(*core_locales_content),
        ) is Some,
    ensures
        fill_spec(
            tr_macros::macros_of(tr_macros@),
            text::strs_of(tr_macros_errors@),
            lang_strs_of(fluent_resources@),
            lang_strs_of(fluent_file_paths@),
            workspace_path@,
            tr_macros::opt_str(*core_locales_path),
            tr_macros::opt_str(*core_locales_content),
        ) == Some((filled_of(r.files@), text::strs_of(r.errors@))),
{
    match fill(
        tr_macros,
        tr_macros_errors,
        fluent_resources,
        fluent_file_paths,
        workspace_path,
        core_locales_path,
        core_locales_content,
    ) {
        Some(f) => f,
        None => {
            assert(false);
            Filled { files: Vec::new(), errors: Vec::new() }
        },
    }
}

/// Fills the translations (see `run`), or gives `None` on the inputs where
/// filling panics or never ends.
pub fn checked_run(
    tr_macros: &Vec<TranslationMacro>,
    tr_macros_errors: &Vec<String>,
    fluent_resources: &Vec<(String, Vec<String>)>,
    fluent_file_paths: &Vec<(String, Vec<String>)>,
    workspace_path: &str,
    core_locales_path: &Option<String>,
    core_locales_content: &Option<String>,
) -> (r: Option<Filled>)
    ensures
        match r {
            Some(f) => fill_spec(
                tr_macros::macros_of(tr_macros@),
                text::strs_of(tr_macros_errors@),
                lang_strs_of(fluent_resources@),
                lang_strs_of(fluent_file_paths@),
                workspace_path@,
                tr_macros::opt_str(*core_locales_path),
                tr_macros::opt_str(*core_locales_content),
            ) == Some((filled_of(f.files@), text::strs_of(f.errors@))),
            None => fill_spec(
                tr_macros::macros_of(tr_macros@),
                text::strs_of(tr_macros_errors@),
                lang_strs_of(fluent_resources@),
                lang_strs_of(fluent_file_paths@),
                workspace_path@,
                tr_macros::opt_str(*core_locales_path),
                tr_macros::opt_str(*core_locales_content),
            ) is None,
        },
{
    match fill(
        tr_macros,
        tr_macros_errors,
        fluent_resources,
        fluent_file_paths,
        workspace_path,
        core_locales_path,
        core_locales_content,
    ) {
        None => None,
        Some(_) => Some(
            run(
                tr_macros,
                tr_macros_errors,
                fluent_resources,
                fluent_file_paths,
                workspace_path,
                core_locales_path,
                core_locales_content,
            ),
        ),
    }
}

/// The first fluent file of the locale `lang`, if it has one.
pub open spec fn first_file_of(paths: Seq<(Seq<char>, Seq<Seq<char>>)>, lang: Seq<char>) -> Option<
    Seq<char>,
> {
    match fluent_entries::find_lang(paths, lang, 0) {
        Some(ps) => if ps.len() > 0 {
            Some(ps[0])
        } else {
            None
        },
        None => None,
    }
}

/// Whether the filled file `f` is the first file of the locale `lang`,
/// whose resources are `rs`, and keeps all the text of that file's
/// resource (the first) at its start.
pub open spec fn keeps_first_file(
    f: FilledV,
    lang: Seq<char>,
    rs: Seq<Seq<char>>,
    paths: Seq<(Seq<char>, Seq<Seq<char>>)>,
) -> bool {
    &&& rs.len() > 0
    &&& first_file_of(paths, lang) == Some(f.file_path)
    &&& rs[0].len() <= f.content.len()
    &&& f.content.take(rs[0].len() as int) == rs[0]
}

proof fn lemma_fill_files_keep_first(
    res: Seq<(Seq<char>, Seq<Seq<char>>)>,
    paths: Seq<(Seq<char>, Seq<Seq<char>>)>,
    ws: Seq<char>,
    ls: Seq<(Seq<char>, Seq<EntryV>)>,
    names: Seq<Seq<char>>,
)
    ensures
        fill_files(res, paths, ws, ls, names) matches Some(files) ==> forall|k: int|
            0 <= k < files.len() ==> exists|i: int|
                0 <= i < res.len() && keeps_first_file(
                    #[trigger] files[k],
                    res[i].0,
                    res[i].1,
                    paths,
                ),
    decreases res.len(),
{
    if res.len() > 0 {
        lemma_fill_files_keep_first(res.drop_last(), paths, ws, ls, names);
        if let Some(files) = fill_files(res, paths, ws, ls, names) {
            let prev = fill_files(res.drop_last(), paths, ws, ls, names)->0;
            let n = res.len() - 1;
            assert forall|k: int| 0 <= k < files.len() implies exists|i: int|
                0 <= i < res.len() && keeps_first_file(
                    #[trigger] files[k],
                    res[i].0,
                    res[i].1,
                    paths,
                ) by {
                if k < prev.len() {
                    assert(files[k] == prev[k]);
                    let i = choose|i: int|
                        0 <= i < res.drop_last().len() && keeps_first_file(
                            prev[k],
                            res.drop_last()[i].0,
                            res.drop_last()[i].1,
                            paths,
                        );
                    assert(res.drop_last()[i] == res[i]);
                } else {
                    let rs = res[n].1;
                    let f = files[k];
                    assert(f.content == with_newline(rs[0]) + missing_lines(f.message_names));
                    assert(f.content.take(rs[0].len() as int) =~= rs[0]);
                    assert(keeps_first_file(f, res[n].0, rs, paths));
                }
            }
        }
    }
}

/// Filling never overwrites a fluent file with another file's text: each
/// file filled is the first file of one of the locales, and its new
/// content starts with all the text of that file's own resource (the
/// locale's first), so the messages it held are kept.
pub proof fn law_filled_file_keeps_its_resource(
    tms: Seq<MacroV>,
    tm_errors: Seq<Seq<char>>,
    res: Seq<(Seq<char>, Seq<Seq<char>>)>,
    paths: Seq<(Seq<char>, Seq<Seq<char>>)>,
    ws: Seq<char>,
    core_path: Option<Seq<char>>,
    core: Option<Seq<char>>,
)
    ensures
        fill_spec(tms, tm_errors, res, paths, ws, core_path, core) matches Some((files, errs))
            ==> forall|k: int|
            0 <= k < files.len() ==> exists|i: int|
                0 <= i < res.len() && keeps_first_file(
                    #[trigger] files[k],
                    res[i].0,
                    res[i].1,
                    paths,
                ),
{
    if let Some((ls, errs)) = fluent_entries::fluent_entries_spec(res, paths, ws, core_path, core) {
        lemma_fill_files_keep_first(res, paths, ws, ls, macro_names(tms));
    }
}

} // verus!
