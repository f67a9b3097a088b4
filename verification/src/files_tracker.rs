use vstd::prelude::*;
use crate::fluent_entries::lang_strs_of;
use crate::text;

verus! {

/// The locale as part of a Rust identifier: `-` becomes `_`.
pub open spec fn lang_ident(lang: Seq<char>) -> Seq<char> {
    Seq::new(lang.len(), |i: int| if lang[i] == '-' { '_' } else { lang[i] })
}

/// The statements that include the files `paths` of the locale `lang`,
/// numbered from 0: `let _s{lang}{i} = include_bytes!({path:?});`.
pub open spec fn include_files_code(lang: Seq<char>, paths: Seq<Seq<char>>) -> Seq<char>
    decreases paths.len(),
{
    if paths.len() == 0 {
        seq![]
    } else {
        include_files_code(lang, paths.drop_last()) + "let _s"@ + lang_ident(lang) + text::decimal(
            (paths.len() - 1) as nat,
        ) + " = include_bytes!("@ + text::str_debug(paths.last()) + ");"@
    }
}

/// The statements that include the files of each locale.
pub open spec fn include_locales_code(files: Seq<(Seq<char>, Seq<Seq<char>>)>) -> Seq<char>
    decreases files.len(),
{
    if files.len() == 0 {
        seq![]
    } else {
        include_locales_code(files.drop_last()) + include_files_code(files.last().0, files.last().1)
    }
}

/// The statement that includes an optional file under the name `_{name}`.
pub open spec fn include_optional_code(name: Seq<char>, path: Option<Seq<char>>) -> Seq<char> {
    match path {
        Some(p) => "let _"@ + name + " = include_bytes!("@ + text::str_debug(p) + ");"@,
        None => seq![],
    }
}

/// The code that makes the compiler track the fluent files, the languages
/// file and the core fluent file: a block that includes their bytes.
pub open spec fn files_tracker_code(
    files: Seq<(Seq<char>, Seq<Seq<char>>)>,
    languages_path: Option<Seq<char>>,
    core_locales_path: Option<Seq<char>>,
) -> Seq<char> {
    "{"@ + include_locales_code(files) + include_optional_code("l"@, languages_path)
        + include_optional_code("c"@, core_locales_path) + "};"@
}

fn push_include_optional(code: &mut String, name: &str, path: &Option<String>)
    ensures
        final(code)@ == old(code)@ + include_optional_code(
            name@,
            match path {
                Some(p) => Some(p@),
                None => None,
            },
        ),
{
    match path {
        Some(p) => {
            text::push_str(code, "let _");
            text::push_str(code, name);
            text::push_str(code, " = include_bytes!(");
            let d = text::debug_string(p.as_str());
            text::push_str(code, d.as_str());
            text::push_str(code, ");");
        },
        None => {
            assert(old(code)@ + include_optional_code(name@, None) =~= old(code)@);
        },
    }
}

/// Builds the code that tracks the fluent files (per locale), the languages
/// file and the core fluent file (see `files_tracker_code`).
pub fn build_files_tracker_quote(
    fluent_file_paths: &Vec<(String, Vec<String>)>,
    languages_path: &Option<String>,
    core_locales_path: &Option<String>,
) -> (r: String)
    ensures
        r@ == files_tracker_code(
            lang_strs_of(fluent_file_paths@),
            match languages_path {
                Some(p) => Some(p@),
                None => None,
            },
            match core_locales_path {
                Some(p) => Some(p@),
                None => None,
            },
        ),
{
    let ghost fv = lang_strs_of(fluent_file_paths@);
    let mut code = String::from_str("{");
    let ghost start = code@;
    let mut i: usize = 0;
    while i < fluent_file_paths.len()
        invariant
            i <= fluent_file_paths@.len(),
            fv == lang_strs_of(fluent_file_paths@),
            code@ == start + include_locales_code(fv.take(i as int)),
        decreases fluent_file_paths@.len() - i,
    {
        assert(fv.take(i + 1).drop_last() =~= fv.take(i as int));
        let lang = &fluent_file_paths[i].0;
        let paths = &fluent_file_paths[i].1;
        let ghost pv = text::strs_of(paths@);
        let lc = text::chars_of(lang.as_str());
        let mut ident: Vec<char> = Vec::new();
        let mut k: usize = 0;
        while k < lc.len()
            invariant
                k <= lc@.len(),
                ident@ == lang_ident(lc@).take(k as int),
            decreases lc@.len() - k,
        {
            if lc[k] == '-' {
                ident.push('_');
            } else {
                ident.push(lc[k]);
            }
            k = k + 1;
            assert(ident@ =~= lang_ident(lc@).take(k as int));
        }
        assert(lang_ident(lc@).take(lc@.len() as int) =~= lang_ident(lc@));
        let ghost before = code@;
        let mut j: usize = 0;
        while j < paths.len()
            invariant
                j <= paths@.len(),
                pv == text::strs_of(paths@),
                ident@ == lang_ident(lang@),
                code@ == before + include_files_code(lang@, pv.take(j as int)),
            decreases paths@.len() - j,
        {
            assert(pv.take(j + 1).drop_last() =~= pv.take(j as int));
            text::push_str(&mut code, "let _s");
            text::push_chars(&mut code, ident.as_slice());
            let n = text::decimal_string(j);
            text::push_str(&mut code, n.as_str());
            text::push_str(&mut code, " = include_bytes!(");
            let d = text::debug_string(paths[j].as_str());
            text::push_str(&mut code, d.as_str());
            text::push_str(&mut code, ");");
            j = j + 1;
            assert(code@ =~= before + include_files_code(lang@, pv.take(j as int)));
        }
        assert(pv.take(paths@.len() as int) =~= pv);
        i = i + 1;
        assert(code@ =~= start + include_locales_code(fv.take(i as int)));
    }
    assert(fv.take(fluent_file_paths@.len() as int) =~= fv);
    push_include_optional(&mut code, "l", languages_path);
    push_include_optional(&mut code, "c", core_locales_path);
    text::push_str(&mut code, "};");
    code
}

} // verus!
