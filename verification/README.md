# leptos-fluent-macros

The logic behind the `leptos_fluent!` macro of leptos-fluent, verified with
Verus: what the macro reads from its parameters and from a project's fluent
files, and the checks it makes of the project's translations.

## Layout

- `src/` — the verified library.
  - `text.rs`: characters, strings, joining, decimal notation.
  - `cookie.rs`: validation of cookie attributes.
  - `languages.rs`, `language_names.rs`, `language_dirs.rs`: language codes,
    their names and writing directions, the languages of a locales folder
    (sorted by name) or of a languages file, and the code of the static
    array of languages.
  - `tr_macros.rs`: the reading of `tr!` and `move_tr!` calls from the
    token streams of Rust sources, with the `use` items that rename them.
  - `fluent_entries.rs`: the fluent entries of each locale (messages and the
    variables they use, with message references resolved) and the errors
    reported for fluent resources.
  - `checker.rs`: the macro calls checked against the fluent entries, and
    the other way round.
  - `filler.rs`: the messages added to the fluent files where macro calls
    use messages that a locale lacks.
  - `loader.rs`: the parameters of the macro, their error messages and
    reports, and the code of the `translations` parameter.
  - `expansion.rs`: what the expansion of the macro decides: the default
    cookie name, URL parameter and storage keys, the code of key and
    boolean parameters, when the `<html>` tag's `lang` and `dir` are kept in
    step with the language, and the order in which the initial language
    is looked for.
  - `files_tracker.rs`, `fluent_resources.rs`: the code that makes the
    compiler track the fluent files, and which files of a locales folder
    are read.
- `tests/` — tests of the library.
- `app/` — the macro around the library: parsing the parameters with syn,
  reading the project's files, and writing the generated code with quote;
  also the helpers of the end-to-end tests, which run in a browser.
