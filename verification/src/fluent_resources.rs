use vstd::prelude::*;
use crate::text;

verus! {

/// `s` with each `"\r\n"` replaced by `"\n"`, from left to right.
pub open spec fn normalized(s: Seq<char>) -> Seq<char>
    decreases s.len(),
{
    if s.len() == 0 {
        seq![]
    } else if s.len() >= 2 && s[0] == '\r' && s[1] == '\n' {
        seq!['\n'] + normalized(s.skip(2))
    } else {
        seq![s[0]] + normalized(s.skip(1))
    }
}

/// A text without carriage returns is left as it is.
pub proof fn law_normalized_without_cr(s: Seq<char>)
    requires
        !s.contains('\r'),
    ensures
        normalized(s) == s,
    decreases s.len(),
{
    if s.len() > 0 {
        let rest = s.skip(1);
        assert(!rest.contains('\r')) by {
            if rest.contains('\r') {
                let k = choose|k: int| 0 <= k < rest.len() && rest[k] == '\r';
                assert(s[k + 1] == '\r');
            }
        }
        law_normalized_without_cr(rest);
        assert(s[0] != '\r');
        assert(seq![s[0]] + rest =~= s);
    }
}

/// The number of places where `"\r\n"` stands in `s`.
pub open spec fn crlf_count(s: Seq<char>) -> nat
    decreases s.len(),
{
    if s.len() < 2 {
        0
    } else {
        (if s[0] == '\r' && s[1] == '\n' {
            1nat
        } else {
            0nat
        }) + crlf_count(s.skip(1))
    }
}

/// `s` without each `'\r'` that is followed by `'\n'`, the other
/// characters kept in order.
pub open spec fn without_cr_before_lf(s: Seq<char>) -> Seq<char>
    decreases s.len(),
{
    if s.len() == 0 {
        seq![]
    } else if s.len() >= 2 && s[0] == '\r' && s[1] == '\n' {
        without_cr_before_lf(s.skip(1))
    } else {
        seq![s[0]] + without_cr_before_lf(s.skip(1))
    }
}

/// Normalising line breaks deletes exactly each carriage return that
/// stands before a line feed, keeping every other character in order, so
/// the text loses one character for each `"\r\n"` in it.
pub proof fn law_normalized_deletes_cr_before_lf(s: Seq<char>)
    ensures
        normalized(s) == without_cr_before_lf(s),
        normalized(s).len() == s.len() - crlf_count(s),
    decreases s.len(),
{
    if s.len() >= 2 && s[0] == '\r' && s[1] == '\n' {
        law_normalized_deletes_cr_before_lf(s.skip(2));
        let t = s.skip(1);
        assert(t.skip(1) =~= s.skip(2));
        assert(t[0] == '\n');
        assert(without_cr_before_lf(t) == seq![t[0]] + without_cr_before_lf(t.skip(1)));
        assert(crlf_count(t) == crlf_count(t.skip(1))) by {
            if t.len() >= 2 {
                assert(!(t[0] == '\r'));
            }
        }
    } else if s.len() > 0 {
        law_normalized_deletes_cr_before_lf(s.skip(1));
    }
}

/// Replaces each Windows line break (`"\r\n"`) of `s` by `"\n"`.
pub fn normalize_newlines(s: &str) -> (r: String)
    ensures
        r@ == normalized(s@),
{
    let c = text::chars_of(s);
    let mut out: Vec<char> = Vec::new();
    let mut i: usize = 0;
    assert(c@.skip(0) =~= c@);
    assert(out@ + normalized(c@) =~= normalized(c@));
    while i < c.len()
        invariant
            i <= c@.len(),
            out@ + normalized(c@.skip(i as int)) == normalized(c@),
        decreases c@.len() - i,
    {
        let ghost rest = c@.skip(i as int);
        if i + 1 < c.len() && c[i] == '\r' && c[i + 1] == '\n' {
            assert(rest.skip(2) =~= c@.skip(i + 2));
            out.push('\n');
            assert(out@ + normalized(c@.skip(i + 2)) =~= normalized(c@));
            i = i + 2;
        } else {
            assert(rest.skip(1) =~= c@.skip(i + 1));
            out.push(c[i]);
            assert(out@ + normalized(c@.skip(i + 1)) =~= normalized(c@));
            i = i + 1;
        }
    }
    assert(c@.skip(c@.len() as int) =~= Seq::<char>::empty());
    assert(out@ =~= normalized(c@));
    text::string_of(out.as_slice())
}

/// Whether `s` parses as a language identifier
/// (`fluent_templates::LanguageIdentifier`).
pub uninterp spec fn is_language_identifier(s: Seq<char>) -> bool;

/// Parses `s` as a `fluent_templates::LanguageIdentifier` (the
/// `unic_langid` parser) and tells whether that succeeds. The result is
/// named `is_language_identifier`; the grammar is not restated here.
#[verifier::external_body]
fn parses_as_language_identifier(s: &str) -> (r: bool)
    ensures
        r == is_language_identifier(s@),
{
    s.parse::<fluent_templates::LanguageIdentifier>().is_ok()
}

/// The error for a locale directory whose name is no language identifier.
pub open spec fn locale_dir_error_text(name: Seq<char>) -> Option<Seq<char>> {
    if is_language_identifier(name) {
        None
    } else {
        Some("Invalid language directory name: "@ + name)
    }
}

/// The error for a directory of the locales folder whose name is no
/// language identifier; none where it is one (and its files are read).
pub fn locale_dir_error(name: &str) -> (r: Option<String>)
    ensures
        match r {
            Some(e) => locale_dir_error_text(name@) == Some(e@),
            None => locale_dir_error_text(name@) is None,
        },
{
    if parses_as_language_identifier(name) {
        None
    } else {
        let mut m = String::from_str("Invalid language directory name: ");
        text::push_str(&mut m, name);
        Some(m)
    }
}

/// What `std::path::Path::extension` gives for the path `path` (with the
/// path syntax of the target): the text after the last dot of its file
/// name, where there is one that does not start the name.
pub uninterp spec fn path_extension(path: Seq<char>) -> Option<Seq<char>>;

/// `std::path::Path::extension`, on a path given as a string; the result is
/// named `path_extension`.
#[verifier::external_body]
fn extension_of(path: &str) -> (r: Option<String>)
    ensures
        match r {
            Some(e) => path_extension(path@) == Some(e@),
            None => path_extension(path@) is None,
        },
{
    std::path::Path::new(path).extension().map(|e| e.to_string_lossy().into_owned())
}

/// Whether a file of a locale directory is read as a fluent resource: it
/// has no extension, or the extension `ftl`.
pub open spec fn is_fluent_file_spec(path: Seq<char>) -> bool {
    match path_extension(path) {
        None => true,
        Some(e) => e == "ftl"@,
    }
}

/// Whether a file of a locale directory is read as a fluent resource.
pub fn is_fluent_file(path: &str) -> (r: bool)
    ensures
        r == is_fluent_file_spec(path@),
{
    match extension_of(path) {
        None => true,
        Some(e) => text::is_lit(e.as_str(), "ftl"),
    }
}

} // verus!
