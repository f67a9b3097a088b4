use vstd::prelude::*;
use crate::language_dirs;
use crate::language_names;
use crate::text;
use crate::text::{chars_are, chars_of, contains_char, copy_chars, push_chars, push_str, split_chars};

verus! {

// ---------------------------------------------------------------------------
// Lowercase (Unicode)
// ---------------------------------------------------------------------------

/// What `str::to_lowercase` gives for a string.
pub uninterp spec fn unicode_lowercase(s: Seq<char>) -> Seq<char>;

/// Whether every character of `s` is ASCII.
pub open spec fn all_ascii(s: Seq<char>) -> bool {
    forall|i: int| 0 <= i < s.len() ==> (#[trigger] s[i] as u32) < 128
}

/// `str::to_lowercase`: the Unicode lowercase of `s`. Its result is named by
/// `unicode_lowercase`; the one fact stated of it is that on ASCII text it
/// changes `A`..`Z` to `a`..`z` and keeps everything else, as the Unicode
/// lowercase mapping does for ASCII characters.
#[verifier::external_body]
fn to_lowercase(s: &str) -> (r: String)
    ensures
        r@ == unicode_lowercase(s@),
        all_ascii(s@) ==> r@ == text::ascii_lower(s@),
{
    s.to_lowercase()
}

// ---------------------------------------------------------------------------
// ISO 639 codes and writing directions
// ---------------------------------------------------------------------------

/// The ISO 639 part of a language code: what stands before the first `_`
/// (or, when there is none, before the first `-`), or the whole code in
/// lowercase when it holds neither.
pub open spec fn code_to_iso639_spec(code: Seq<char>) -> Seq<char> {
    if code.contains('_') {
        text::split_on(code, '_')[0]
    } else if code.contains('-') {
        text::split_on(code, '-')[0]
    } else {
        unicode_lowercase(code)
    }
}

/// The ISO 639 part of an ASCII language code (see `code_to_iso639_spec`),
/// whose lowercase is the ASCII one.
pub open spec fn code_to_iso639_ascii(code: Seq<char>) -> Seq<char> {
    if code.contains('_') {
        text::split_on(code, '_')[0]
    } else if code.contains('-') {
        text::split_on(code, '-')[0]
    } else {
        text::ascii_lower(code)
    }
}

/// Converts a language code to its ISO 639 part.
pub fn code_to_iso639(code: &str) -> (r: String)
    ensures
        r@ == code_to_iso639_spec(code@),
        all_ascii(code@) ==> r@ == code_to_iso639_ascii(code@),
{
    let chars = chars_of(code);
    let splitter: char;
    if contains_char(chars.as_slice(), '_') {
        splitter = '_';
    } else if contains_char(chars.as_slice(), '-') {
        splitter = '-';
    } else {
        return to_lowercase(code);
    }
    let parts = split_chars(chars.as_slice(), splitter);
    proof {
        text::lemma_split_on_nonempty(chars@, splitter);
    }
    assert(parts@[0]@ == text::seqs_of(parts@)[0]);
    text::string_of(parts[0].as_slice())
}

/// The writing direction of the language with ISO 639-1 code `code`:
/// `rtl` or `ltr` for the codes known to be written in that direction,
/// `auto` for all others.
pub open spec fn iso639_dir(code: Seq<char>) -> Seq<char> {
    if language_dirs::is_rtl_iso639(code) {
        "rtl"@
    } else if language_dirs::is_ltr_iso639(code) {
        "ltr"@
    } else {
        "auto"@
    }
}

/// Converts an ISO 639 language code to a directionality string.
pub fn iso639_to_dir(code: &str) -> (r: &'static str)
    ensures
        r@ == iso639_dir(code@),
{
    let c = chars_of(code);
    if language_dirs::is_rtl_iso639_check(c.as_slice()) {
        "rtl"
    } else if language_dirs::is_ltr_iso639_check(c.as_slice()) {
        "ltr"
    } else {
        "auto"
    }
}

// ---------------------------------------------------------------------------
// Language names
// ---------------------------------------------------------------------------

/// `s` with every `_` replaced by `-`.
pub open spec fn dash_for_underscore(s: Seq<char>) -> Seq<char> {
    s.map_values(|c: char| if c == '_' { '-' } else { c })
}

/// The name of the language with code `code`: with `use_country_code`, the
/// name of the language as spoken in the country that the code names, when
/// that combination is known; otherwise the name of its ISO 639 language.
pub open spec fn language_name_of(code: Seq<char>, use_country_code: bool) -> Option<Seq<char>> {
    let country = language_names::country_language_name(
        dash_for_underscore(unicode_lowercase(code)),
    );
    if use_country_code && country is Some {
        country
    } else {
        language_names::iso639_language_name(code_to_iso639_spec(code))
    }
}

fn dashes_for_underscores(s: &[char]) -> (r: Vec<char>)
    ensures
        r@ == dash_for_underscore(s@),
{
    let mut r: Vec<char> = Vec::new();
    let mut i: usize = 0;
    while i < s.len()
        invariant
            i <= s@.len(),
            r@ == dash_for_underscore(s@.subrange(0, i as int)),
        decreases s@.len() - i,
    {
        let c = s[i];
        r.push(if c == '_' { '-' } else { c });
        i = i + 1;
        assert(dash_for_underscore(s@.subrange(0, i as int)) =~= dash_for_underscore(
            s@.subrange(0, i - 1),
        ).push(if c == '_' { '-' } else { c }));
    }
    assert(s@.subrange(0, s@.len() as int) =~= s@);
    r
}

/// The name of the ASCII language code `code` (see `language_name_of`),
/// whose lowercase is the ASCII one.
pub open spec fn language_name_of_ascii(code: Seq<char>, use_country_code: bool) -> Option<
    Seq<char>,
> {
    let country = language_names::country_language_name(
        dash_for_underscore(text::ascii_lower(code)),
    );
    if use_country_code && country is Some {
        country
    } else {
        language_names::iso639_language_name(code_to_iso639_ascii(code))
    }
}

/// The name of a language code, or `None` when neither its country nor its
/// ISO 639 language is known.
pub fn known_language_name(code: &str, use_country_code: bool) -> (r: Option<&'static str>)
    ensures
        match r {
            Some(n) => language_name_of(code@, use_country_code) == Some(n@),
            None => language_name_of(code@, use_country_code) is None,
        },
        all_ascii(code@) ==> match r {
            Some(n) => language_name_of_ascii(code@, use_country_code) == Some(n@),
            None => language_name_of_ascii(code@, use_country_code) is None,
        },
{
    if use_country_code {
        let lower = to_lowercase(code);
        let lower_chars = chars_of(lower.as_str());
        let c = dashes_for_underscores(lower_chars.as_slice());
        if let Some(n) = language_names::country_language_name_lookup(c.as_slice()) {
            return Some(n);
        }
    }
    let iso = code_to_iso639(code);
    let iso_chars = chars_of(iso.as_str());
    language_names::iso639_language_name_lookup(iso_chars.as_slice())
}

/// The name of a language code, which must be known (see `language_name_of`).
pub fn language_name_from_language_code(code: &str, use_country_code: bool) -> (r: &'static str)
    requires
        language_name_of(code@, use_country_code) is Some,
    ensures
        language_name_of(code@, use_country_code) == Some(r@),
        all_ascii(code@) ==> language_name_of_ascii(code@, use_country_code) == Some(r@),
{
    match known_language_name(code, use_country_code) {
        Some(n) => n,
        None => {
            assert(false);
            ""
        },
    }
}

// ---------------------------------------------------------------------------
// Code of the static languages array
// ---------------------------------------------------------------------------

/// The path of the writing direction named by `dir`.
pub open spec fn writing_direction_path(dir: Seq<char>) -> Seq<char> {
    if dir == "ltr"@ {
        "&::leptos_fluent::WritingDirection::Ltr"@
    } else if dir == "rtl"@ {
        "&::leptos_fluent::WritingDirection::Rtl"@
    } else {
        "&::leptos_fluent::WritingDirection::Auto"@
    }
}

/// The code of one `leptos_fluent::Language` static value.
pub open spec fn static_language_code(id: Seq<char>, name: Seq<char>, dir: Seq<char>) -> Seq<char> {
    "&::leptos_fluent::Language{id: ::fluent_templates::loader::langid!(\""@ + id
        + "\"),name: \""@ + name + "\",dir: "@ + writing_direction_path(dir) + "}"@
}

/// Generates the code of one `leptos_fluent::Language` static value.
pub fn generate_code_for_static_language(id: &str, name: &str, dir: &str) -> (r: String)
    ensures
        r@ == static_language_code(id@, name@, dir@),
{
    let d = chars_of(dir);
    let dir_path = if chars_are(d.as_slice(), "ltr") {
        "&::leptos_fluent::WritingDirection::Ltr"
    } else if chars_are(d.as_slice(), "rtl") {
        "&::leptos_fluent::WritingDirection::Rtl"
    } else {
        "&::leptos_fluent::WritingDirection::Auto"
    };
    let mut r = String::from_str("&::leptos_fluent::Language{id: ::fluent_templates::loader::langid!(\"");
    push_str(&mut r, id);
    push_str(&mut r, "\"),name: \"");
    push_str(&mut r, name);
    push_str(&mut r, "\",dir: ");
    push_str(&mut r, dir_path);
    push_str(&mut r, "}");
    r
}

/// The view of a sequence of string triples.
pub open spec fn triples_of(v: Seq<(String, String, String)>) -> Seq<(Seq<char>, Seq<char>, Seq<char>)> {
    Seq::new(v.len(), |i: int| (v[i].0@, v[i].1@, v[i].2@))
}

/// The code of the static array of languages.
pub open spec fn languages_code(languages: Seq<(Seq<char>, Seq<char>, Seq<char>)>) -> Seq<char> {
    "["@ + text::join_with(
        Seq::new(
            languages.len(),
            |i: int| static_language_code(languages[i].0, languages[i].1, languages[i].2),
        ),
        ","@,
    ) + "]"@
}

/// Builds the code of the static array of languages, `[lang1,lang2,...]`.
pub fn build_languages_quote(languages: &[(String, String, String)]) -> (r: String)
    ensures
        r@ == languages_code(triples_of(languages@)),
{
    let ghost langs = triples_of(languages@);
    let ghost codes = Seq::new(
        langs.len(),
        |i: int| static_language_code(langs[i].0, langs[i].1, langs[i].2),
    );
    let mut body = String::new();
    let mut i: usize = 0;
    assert(codes.take(0) =~= Seq::<Seq<char>>::empty());
    while i < languages.len()
        invariant
            i <= languages@.len(),
            langs == triples_of(languages@),
            codes.len() == langs.len(),
            forall|k: int|
                0 <= k < codes.len() ==> #[trigger] codes[k] == static_language_code(
                    langs[k].0,
                    langs[k].1,
                    langs[k].2,
                ),
            body@ == text::join_with(codes.take(i as int), ","@),
        decreases languages@.len() - i,
    {
        let (id, name, dir) = (&languages[i].0, &languages[i].1, &languages[i].2);
        let code = generate_code_for_static_language(id.as_str(), name.as_str(), dir.as_str());
        assert(code@ == codes[i as int]);
        let ghost before = body@;
        if i > 0 {
            push_str(&mut body, ",");
        }
        push_str(&mut body, code.as_str());
        i = i + 1;
        assert(codes.take(i as int).drop_last() =~= codes.take(i - 1));
        if i == 1 {
            assert(codes.take(1) =~= seq![codes[0]]);
            assert(before =~= Seq::<char>::empty());
            assert(body@ =~= codes[0]);
        }
    }
    assert(codes.take(languages@.len() as int) =~= codes);
    let mut r = String::from_str("[");
    push_str(&mut r, body.as_str());
    push_str(&mut r, "]");
    r
}

// ---------------------------------------------------------------------------
// Languages from a languages file
// ---------------------------------------------------------------------------

/// One language of a languages file: its code and name, and optionally its
/// writing direction.
pub enum LanguagesFileLanguage {
    CodeName(String, String),
    CodeNameDir(String, String, String),
}

/// The language triple that one entry of a languages file gives: a missing
/// direction is the one of its ISO 639 language.
pub open spec fn language_file_triple(l: LanguagesFileLanguage) -> (Seq<char>, Seq<char>, Seq<char>) {
    match l {
        LanguagesFileLanguage::CodeName(code, name) => (
            code@,
            name@,
            iso639_dir(code_to_iso639_spec(code@)),
        ),
        LanguagesFileLanguage::CodeNameDir(code, name, dir) => (code@, name@, dir@),
    }
}

/// Sets the writing direction of the languages read from a languages file.
pub fn set_dir_to_languages_from_languages_file(languages: &[LanguagesFileLanguage]) -> (r: Vec<
    (String, String, String),
>)
    ensures
        triples_of(r@) == languages@.map_values(|l: LanguagesFileLanguage| language_file_triple(l)),
{
    let mut locales: Vec<(String, String, String)> = Vec::new();
    let mut i: usize = 0;
    while i < languages.len()
        invariant
            i <= languages@.len(),
            triples_of(locales@) == languages@.subrange(0, i as int).map_values(
                |l: LanguagesFileLanguage| language_file_triple(l),
            ),
        decreases languages@.len() - i,
    {
        let ghost before = triples_of(locales@);
        let t = match &languages[i] {
            LanguagesFileLanguage::CodeName(code, name) => {
                let iso = code_to_iso639(code.as_str());
                let dir = iso639_to_dir(iso.as_str());
                (code.clone(), name.clone(), String::from_str(dir))
            },
            LanguagesFileLanguage::CodeNameDir(code, name, dir) => {
                (code.clone(), name.clone(), dir.clone())
            },
        };
        let ghost tv = (t.0@, t.1@, t.2@);
        assert(tv == language_file_triple(languages@[i as int]));
        locales.push(t);
        i = i + 1;
        assert(triples_of(locales@) =~= before.push(tv));
        assert(languages@.subrange(0, i as int).map_values(
            |l: LanguagesFileLanguage| language_file_triple(l),
        ) =~= languages@.subrange(0, i - 1).map_values(
            |l: LanguagesFileLanguage| language_file_triple(l),
        ).push(tv));
    }
    assert(languages@.subrange(0, languages@.len() as int) =~= languages@);
    locales
}

// ---------------------------------------------------------------------------
// Languages from the folders of a locales folder
// ---------------------------------------------------------------------------

/// Whether `a` comes before or equals `b` in the order of `str` and
/// `String`: lexicographic by character, which is the order of their UTF-8
/// bytes.
pub open spec fn chars_le(a: Seq<char>, b: Seq<char>) -> bool
    decreases a.len(),
{
    if a.len() == 0 {
        true
    } else if b.len() == 0 {
        false
    } else if a[0] != b[0] {
        a[0] < b[0]
    } else {
        chars_le(a.drop_first(), b.drop_first())
    }
}

fn chars_le_exec(a: &[char], b: &[char]) -> (r: bool)
    ensures
        r == chars_le(a@, b@),
{
    let mut i: usize = 0;
    assert(a@.skip(0) =~= a@);
    assert(b@.skip(0) =~= b@);
    while i < a.len() && i < b.len() && a[i] == b[i]
        invariant
            i <= a@.len(),
            i <= b@.len(),
            chars_le(a@, b@) == chars_le(a@.skip(i as int), b@.skip(i as int)),
        decreases a@.len() - i,
    {
        assert(a@.skip(i as int).drop_first() =~= a@.skip(i + 1));
        assert(b@.skip(i as int).drop_first() =~= b@.skip(i + 1));
        i = i + 1;
    }
    if i == a.len() {
        true
    } else if i == b.len() {
        false
    } else {
        a[i] < b[i]
    }
}

/// `s`, sorted by the names of its languages, with `x` inserted after every
/// language whose name comes before or equals the name of `x`.
pub open spec fn insert_by_name(
    s: Seq<(Seq<char>, Seq<char>, Seq<char>)>,
    x: (Seq<char>, Seq<char>, Seq<char>),
) -> Seq<(Seq<char>, Seq<char>, Seq<char>)>
    decreases s.len(),
{
    if s.len() == 0 {
        seq![x]
    } else if chars_le(s.last().1, x.1) {
        s.push(x)
    } else {
        insert_by_name(s.drop_last(), x).push(s.last())
    }
}

/// The languages `s` in the order of their names; languages with equal
/// names keep their order (a stable sort, as `slice::sort_by` is).
pub open spec fn sort_by_name(s: Seq<(Seq<char>, Seq<char>, Seq<char>)>) -> Seq<
    (Seq<char>, Seq<char>, Seq<char>),
>
    decreases s.len(),
{
    if s.len() == 0 {
        s
    } else {
        insert_by_name(sort_by_name(s.drop_last()), s.last())
    }
}

proof fn lemma_insert_by_name_split(
    s: Seq<(Seq<char>, Seq<char>, Seq<char>)>,
    x: (Seq<char>, Seq<char>, Seq<char>),
    pos: int,
)
    requires
        0 <= pos <= s.len(),
        forall|k: int| pos <= k < s.len() ==> !chars_le(#[trigger] s[k].1, x.1),
    ensures
        insert_by_name(s, x) == insert_by_name(s.take(pos), x) + s.skip(pos),
    decreases s.len() - pos,
{
    if pos < s.len() {
        lemma_insert_by_name_split(s.drop_last(), x, pos);
        assert(s.drop_last().take(pos) =~= s.take(pos));
        assert(s.skip(pos) =~= s.drop_last().skip(pos).push(s.last()));
        assert(insert_by_name(s, x) == insert_by_name(s.drop_last(), x).push(s.last()));
    } else {
        assert(s.take(pos) =~= s);
        assert(s.skip(pos) =~= Seq::<(Seq<char>, Seq<char>, Seq<char>)>::empty());
    }
}

/// Whether each language's name comes before or equals the next one's.
pub open spec fn sorted_by_name(s: Seq<(Seq<char>, Seq<char>, Seq<char>)>) -> bool {
    forall|i: int| 0 <= i < s.len() - 1 ==> chars_le(#[trigger] s[i].1, s[i + 1].1)
}

proof fn lemma_chars_le_total(a: Seq<char>, b: Seq<char>)
    ensures
        chars_le(a, b) || chars_le(b, a),
    decreases a.len(),
{
    if a.len() > 0 && b.len() > 0 && a[0] == b[0] {
        lemma_chars_le_total(a.drop_first(), b.drop_first());
    }
}

proof fn lemma_insert_by_name_last(
    s: Seq<(Seq<char>, Seq<char>, Seq<char>)>,
    x: (Seq<char>, Seq<char>, Seq<char>),
)
    ensures
        insert_by_name(s, x).len() == s.len() + 1,
        insert_by_name(s, x).last() == x || (s.len() > 0 && insert_by_name(s, x).last() == s.last()),
    decreases s.len(),
{
    if s.len() > 0 && !chars_le(s.last().1, x.1) {
        lemma_insert_by_name_last(s.drop_last(), x);
    }
}

proof fn lemma_insert_by_name_sorted(
    s: Seq<(Seq<char>, Seq<char>, Seq<char>)>,
    x: (Seq<char>, Seq<char>, Seq<char>),
)
    requires
        sorted_by_name(s),
    ensures
        sorted_by_name(insert_by_name(s, x)),
    decreases s.len(),
{
    if s.len() == 0 {
    } else if chars_le(s.last().1, x.1) {
        let r = s.push(x);
        assert forall|i: int| 0 <= i < r.len() - 1 implies chars_le(#[trigger] r[i].1, r[i + 1].1) by {
            if i < s.len() - 1 {
                assert(r[i] == s[i] && r[i + 1] == s[i + 1]);
            }
        }
    } else {
        let front = s.drop_last();
        assert(sorted_by_name(front)) by {
            assert forall|i: int| 0 <= i < front.len() - 1 implies chars_le(
                #[trigger] front[i].1,
                front[i + 1].1,
            ) by {
                assert(front[i] == s[i] && front[i + 1] == s[i + 1]);
            }
        }
        lemma_insert_by_name_sorted(front, x);
        lemma_insert_by_name_last(front, x);
        let t = insert_by_name(front, x);
        let r = t.push(s.last());
        lemma_chars_le_total(s.last().1, x.1);
        if t.last() != x {
            assert(s[s.len() - 2] == front.last());
            assert(chars_le(s[s.len() - 2].1, s[s.len() - 1].1));
        }
        assert(chars_le(t.last().1, s.last().1));
        assert forall|i: int| 0 <= i < r.len() - 1 implies chars_le(#[trigger] r[i].1, r[i + 1].1) by {
            if i < t.len() - 1 {
                assert(r[i] == t[i] && r[i + 1] == t[i + 1]);
            } else {
                assert(r[i] == t.last() && r[i + 1] == s.last());
            }
        }
    }
}

proof fn lemma_insert_by_name_multiset(
    s: Seq<(Seq<char>, Seq<char>, Seq<char>)>,
    x: (Seq<char>, Seq<char>, Seq<char>),
)
    ensures
        insert_by_name(s, x).to_multiset() == s.to_multiset().insert(x),
    decreases s.len(),
{
    broadcast use vstd::seq_lib::group_to_multiset_ensures;

    if s.len() == 0 {
        assert(insert_by_name(s, x) =~= s.push(x));
    } else if chars_le(s.last().1, x.1) {
    } else {
        let front = s.drop_last();
        lemma_insert_by_name_multiset(front, x);
        assert(s =~= front.push(s.last()));
        assert(insert_by_name(s, x).to_multiset() =~= s.to_multiset().insert(x));
    }
}

/// Sorting languages by name gives them in the order of their names, and
/// keeps each of them, as often as it occurs.
pub proof fn law_sort_by_name(s: Seq<(Seq<char>, Seq<char>, Seq<char>)>)
    ensures
        sorted_by_name(sort_by_name(s)),
        sort_by_name(s).to_multiset() == s.to_multiset(),
    decreases s.len(),
{
    broadcast use vstd::seq_lib::group_to_multiset_ensures;

    if s.len() > 0 {
        law_sort_by_name(s.drop_last());
        lemma_insert_by_name_sorted(sort_by_name(s.drop_last()), s.last());
        lemma_insert_by_name_multiset(sort_by_name(s.drop_last()), s.last());
        assert(s =~= s.drop_last().push(s.last()));
    }
}

/// The number of times `x` occurs in `s`.
pub open spec fn count_of(s: Seq<Seq<char>>, x: Seq<char>) -> nat
    decreases s.len(),
{
    if s.len() == 0 {
        0
    } else {
        count_of(s.drop_last(), x) + if s.last() == x {
            1nat
        } else {
            0nat
        }
    }
}

/// The ISO 639 codes of the folder names `names`.
pub open spec fn folder_iso_codes(names: Seq<Seq<char>>) -> Seq<Seq<char>> {
    names.map_values(|n: Seq<char>| code_to_iso639_spec(n))
}

/// Whether the language of folder `i` is named with its country: when
/// another folder has the same ISO 639 language.
pub open spec fn folder_use_country_code(names: Seq<Seq<char>>, i: int) -> bool {
    count_of(folder_iso_codes(names), folder_iso_codes(names)[i]) > 1
}

/// Whether the language of every folder name has a known name.
pub open spec fn folder_names_known(names: Seq<Seq<char>>) -> bool {
    forall|i: int|
        0 <= i < names.len() ==> (#[trigger] language_name_of(
            names[i],
            folder_use_country_code(names, i),
        )) is Some
}

/// The language triple of folder `i`: its code, its name and its direction.
pub open spec fn folder_locale(names: Seq<Seq<char>>, i: int) -> (Seq<char>, Seq<char>, Seq<char>) {
    (
        names[i],
        language_name_of(names[i], folder_use_country_code(names, i))->0,
        iso639_dir(folder_iso_codes(names)[i]),
    )
}

/// The languages of a locales folder whose language folders are named
/// `names`, sorted by name.
pub open spec fn folder_locales(names: Seq<Seq<char>>) -> Seq<(Seq<char>, Seq<char>, Seq<char>)> {
    sort_by_name(Seq::new(names.len(), |i: int| folder_locale(names, i)))
}

fn count_equal(codes: &Vec<String>, x: &String) -> (r: usize)
    ensures
        r == count_of(text::strs_of(codes@), x@),
{
    let mut n: usize = 0;
    let mut i: usize = 0;
    assert(text::strs_of(codes@).take(0) =~= Seq::<Seq<char>>::empty());
    while i < codes.len()
        invariant
            i <= codes@.len(),
            n == count_of(text::strs_of(codes@).take(i as int), x@),
            n <= i,
        decreases codes@.len() - i,
    {
        let ghost prev = text::strs_of(codes@).take(i as int);
        let same = codes[i] == *x;
        if same {
            n = n + 1;
        }
        i = i + 1;
        assert(text::strs_of(codes@).take(i as int).drop_last() =~= prev);
    }
    assert(text::strs_of(codes@).take(codes@.len() as int) =~= text::strs_of(codes@));
    n
}

/// The first folder name whose language has no known name (with the
/// country where two folders share a language), or `None` where every one
/// has one.
pub fn unknown_folder_language(names: &Vec<String>) -> (r: Option<usize>)
    ensures
        match r {
            Some(i) => i < names@.len() && language_name_of(
                text::strs_of(names@)[i as int],
                folder_use_country_code(text::strs_of(names@), i as int),
            ) is None && forall|k: int|
                0 <= k < i ==> (#[trigger] language_name_of(
                    text::strs_of(names@)[k],
                    folder_use_country_code(text::strs_of(names@), k),
                )) is Some,
            None => folder_names_known(text::strs_of(names@)),
        },
{
    let ghost ns = text::strs_of(names@);
    let mut codes: Vec<String> = Vec::new();
    let mut i: usize = 0;
    while i < names.len()
        invariant
            i <= names@.len(),
            ns == text::strs_of(names@),
            text::strs_of(codes@) == folder_iso_codes(ns).take(i as int),
        decreases names@.len() - i,
    {
        let c = code_to_iso639(names[i].as_str());
        let ghost before = text::strs_of(codes@);
        let ghost cv = c@;
        codes.push(c);
        i = i + 1;
        assert(text::strs_of(codes@) =~= before.push(cv));
        assert(folder_iso_codes(ns).take(i as int) =~= folder_iso_codes(ns).take(i - 1).push(cv));
    }
    assert(folder_iso_codes(ns).take(names@.len() as int) =~= folder_iso_codes(ns));
    let mut j: usize = 0;
    while j < names.len()
        invariant
            j <= names@.len(),
            ns == text::strs_of(names@),
            text::strs_of(codes@) == folder_iso_codes(ns),
            forall|k: int|
                0 <= k < j ==> (#[trigger] language_name_of(ns[k], folder_use_country_code(ns, k)))
                    is Some,
        decreases names@.len() - j,
    {
        let n = count_equal(&codes, &codes[j]);
        assert(ns[j as int] == names@[j as int]@);
        if known_language_name(names[j].as_str(), n > 1).is_none() {
            return Some(j);
        }
        j = j + 1;
    }
    None
}

/// The languages of a locales folder, from the names of its language
/// folders: each with its name (with the country when two folders share a
/// language) and its writing direction, sorted by name.
pub fn locales_from_folder_names(names: &Vec<String>) -> (r: Vec<(String, String, String)>)
    requires
        folder_names_known(text::strs_of(names@)),
    ensures
        triples_of(r@) == folder_locales(text::strs_of(names@)),
{
    let ghost ns = text::strs_of(names@);
    let mut codes: Vec<String> = Vec::new();
    let mut i: usize = 0;
    while i < names.len()
        invariant
            i <= names@.len(),
            ns == text::strs_of(names@),
            text::strs_of(codes@) == folder_iso_codes(ns).take(i as int),
        decreases names@.len() - i,
    {
        let c = code_to_iso639(names[i].as_str());
        let ghost before = text::strs_of(codes@);
        let ghost cv = c@;
        codes.push(c);
        i = i + 1;
        assert(text::strs_of(codes@) =~= before.push(cv));
        assert(folder_iso_codes(ns).take(i as int) =~= folder_iso_codes(ns).take(i - 1).push(cv));
    }
    assert(folder_iso_codes(ns).take(names@.len() as int) =~= folder_iso_codes(ns));
    let ghost unsorted = Seq::new(ns.len(), |k: int| folder_locale(ns, k));
    let mut sorted: Vec<(String, String, String)> = Vec::new();
    let mut j: usize = 0;
    while j < names.len()
        invariant
            j <= names@.len(),
            ns == text::strs_of(names@),
            text::strs_of(codes@) == folder_iso_codes(ns),
            folder_names_known(ns),
            unsorted == Seq::new(ns.len(), |k: int| folder_locale(ns, k)),
            triples_of(sorted@) == sort_by_name(unsorted.take(j as int)),
        decreases names@.len() - j,
    {
        let iso = &codes[j];
        let n = count_equal(&codes, iso);
        let use_country_code = n > 1;
        assert(ns[j as int] == names@[j as int]@);
        assert(language_name_of(ns[j as int], folder_use_country_code(ns, j as int)) is Some);
        let name = language_name_from_language_code(names[j].as_str(), use_country_code);
        let dir = iso639_to_dir(iso.as_str());
        let x = (names[j].clone(), String::from_str(name), String::from_str(dir));
        let ghost xv = (x.0@, x.1@, x.2@);
        assert(xv == unsorted[j as int]);
        // insert `x` after every language whose name is not greater
        let mut pos: usize = sorted.len();
        let ghost s = triples_of(sorted@);
        while pos > 0 && !chars_le_exec(
            chars_of(sorted[pos - 1].1.as_str()).as_slice(),
            chars_of(x.1.as_str()).as_slice(),
        )
            invariant
                pos <= sorted@.len(),
                s == triples_of(sorted@),
                forall|k: int| pos <= k < s.len() ==> !chars_le(#[trigger] s[k].1, xv.1),
                x.1@ == xv.1,
            decreases pos,
        {
            assert(s[pos - 1].1 == sorted@[pos - 1].1@);
            pos = pos - 1;
        }
        proof {
            lemma_insert_by_name_split(s, xv, pos as int);
            if pos > 0 {
                assert(s.take(pos as int).last() == s[pos - 1]);
                assert(s[pos - 1].1 == sorted@[pos - 1].1@);
                assert(insert_by_name(s.take(pos as int), xv) == s.take(pos as int).push(xv));
            } else {
                assert(s.take(0) =~= Seq::<(Seq<char>, Seq<char>, Seq<char>)>::empty());
            }
        }
        sorted.insert(pos, x);
        assert(triples_of(sorted@) =~= s.take(pos as int).push(xv) + s.skip(pos as int));
        j = j + 1;
        assert(unsorted.take(j as int).drop_last() =~= unsorted.take(j - 1));
        assert(unsorted.take(j as int).last() == xv);
    }
    assert(unsorted.take(names@.len() as int) =~= unsorted);
    sorted
}

/// The error for a languages file that is no JSON file (the languages
/// file format of this build), by its extension; none for `json`.
pub open spec fn languages_file_extension_text(ext: Seq<char>) -> Option<Seq<char>> {
    if ext == "json"@ {
        None
    } else {
        Some(
            "The languages file should be a JSON file because you've enabled the 'json' feature. Found file extension "@
                + text::str_debug(ext),
        )
    }
}

/// The error for a languages file with the extension `ext` (empty where it
/// has none), or none where it is a JSON file.
pub fn languages_file_extension_error(ext: &str) -> (r: Option<String>)
    ensures
        match r {
            Some(e) => languages_file_extension_text(ext@) == Some(e@),
            None => languages_file_extension_text(ext@) is None,
        },
{
    if text::is_lit(ext, "json") {
        None
    } else {
        let mut m = String::from_str(
            "The languages file should be a JSON file because you've enabled the 'json' feature. Found file extension ",
        );
        let d = text::debug_string(ext);
        push_str(&mut m, d.as_str());
        Some(m)
    }
}

/// The ISO 639 part of a language code holding `_` is the text before its
/// first `_`, and holds no `_`.
pub proof fn law_iso639_before_underscore(code: Seq<char>, k: int)
    requires
        0 <= k < code.len(),
        code[k] == '_',
        forall|j: int| 0 <= j < k ==> code[j] != '_',
    ensures
        code_to_iso639_spec(code) == code.take(k),
        code_to_iso639_ascii(code) == code.take(k),
        !code.take(k).contains('_'),
{
    assert(code.contains('_'));
    text::lemma_split_on_first(code, '_', k);
}

/// The ISO 639 part of a language code holding `-` and no `_` is the text
/// before its first `-`, and holds neither.
pub proof fn law_iso639_before_dash(code: Seq<char>, k: int)
    requires
        0 <= k < code.len(),
        !code.contains('_'),
        code[k] == '-',
        forall|j: int| 0 <= j < k ==> code[j] != '-',
    ensures
        code_to_iso639_spec(code) == code.take(k),
        code_to_iso639_ascii(code) == code.take(k),
        !code.take(k).contains('_') && !code.take(k).contains('-'),
{
    assert(code.contains('-'));
    text::lemma_split_on_first(code, '-', k);
    assert forall|j: int| 0 <= j < k implies code.take(k)[j] != '_' by {
        assert(code[j] != '_');
    }
}

/// The ISO 639 part of an ASCII language code with no separator is the code
/// in ASCII lowercase, which holds no `_` either.
pub proof fn law_iso639_without_separator(code: Seq<char>)
    requires
        !code.contains('_'),
        !code.contains('-'),
    ensures
        code_to_iso639_ascii(code) == text::ascii_lower(code),
        !text::ascii_lower(code).contains('_'),
{
    if text::ascii_lower(code).contains('_') {
        let j = choose|j: int| 0 <= j < text::ascii_lower(code).len() && text::ascii_lower(code)[j]
            == '_';
        assert(text::ascii_lower(code)[j] == text::ascii_lower_char(code[j]));
        assert(code[j] != '_');
    }
}

/// With the country code used, the name of a language whose country
/// combination is known does not depend on letter case nor on `_` against
/// `-`: two ASCII codes that are the same once lowercased and with `-` for
/// `_` (such as `en-US`, `en_us` and `EN-us`) have the same name, the
/// country name.
pub proof fn law_language_name_ignores_case_and_separator(a: Seq<char>, b: Seq<char>)
    requires
        dash_for_underscore(text::ascii_lower(a)) == dash_for_underscore(text::ascii_lower(b)),
        language_names::country_language_name(dash_for_underscore(text::ascii_lower(a))) is Some,
    ensures
        language_name_of_ascii(a, true) == language_name_of_ascii(b, true),
        language_name_of_ascii(a, true) == language_names::country_language_name(
            dash_for_underscore(text::ascii_lower(a)),
        ),
{
}

/// Whether `k` is where the ISO 639 part of `code` ends: at its first `_`,
/// or, when it holds no `_`, at its first `-`.
pub open spec fn iso639_part_end(code: Seq<char>, k: int) -> bool {
    &&& 0 <= k < code.len()
    &&& forall|j: int| 0 <= j < k ==> code[j] != '_' && code[j] != '-'
    &&& (code[k] == '_' || (code[k] == '-' && !code.contains('_')))
}

proof fn lemma_iso639_part(code: Seq<char>, k: int)
    requires
        iso639_part_end(code, k),
    ensures
        code_to_iso639_spec(code) == code.take(k),
{
    if code[k] == '_' {
        law_iso639_before_underscore(code, k);
    } else {
        law_iso639_before_dash(code, k);
    }
}

/// A language of a languages file given without a direction gets the
/// direction of its ISO 639 language, the text before the first separator
/// of its code: `ar-EG` gets the direction of `ar`, `en-US` and `en_GB`
/// that of `en`.
pub proof fn law_languages_file_direction_of_iso639_part(l: LanguagesFileLanguage, k: int)
    requires
        l matches LanguagesFileLanguage::CodeName(code, name) && iso639_part_end(code@, k),
    ensures
        l matches LanguagesFileLanguage::CodeName(code, name) && language_file_triple(l).2
            == iso639_dir(code@.take(k)),
        l matches LanguagesFileLanguage::CodeName(code, name) && (language_dirs::is_rtl_iso639(
            code@.take(k),
        ) ==> language_file_triple(l).2 == "rtl"@),
{
    if let LanguagesFileLanguage::CodeName(code, name) = l {
        lemma_iso639_part(code@, k);
    }
}

/// Two languages of a languages file given without a direction whose codes
/// share their ISO 639 part (such as `en`, `en-US` and `en_GB`) get the
/// same direction.
pub proof fn law_languages_file_same_language_same_direction(
    a: LanguagesFileLanguage,
    b: LanguagesFileLanguage,
    ka: int,
    kb: int,
)
    requires
        a matches LanguagesFileLanguage::CodeName(ca, na) && iso639_part_end(ca@, ka),
        b matches LanguagesFileLanguage::CodeName(cb, nb) && iso639_part_end(cb@, kb),
        a matches LanguagesFileLanguage::CodeName(ca, na) && b matches LanguagesFileLanguage::CodeName(
            cb,
            nb,
        ) && ca@.take(ka) == cb@.take(kb),
    ensures
        language_file_triple(a).2 == language_file_triple(b).2,
{
    law_languages_file_direction_of_iso639_part(a, ka);
    law_languages_file_direction_of_iso639_part(b, kb);
}

} // verus!
