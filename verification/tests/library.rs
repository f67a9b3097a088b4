use leptos_fluent_macros::checker;
use leptos_fluent_macros::cookie::validate_cookie_attrs;
use leptos_fluent_macros::files_tracker::build_files_tracker_quote;
use leptos_fluent_macros::filler;
use leptos_fluent_macros::fluent_entries::FluentEntry;
use leptos_fluent_macros::loader::{lit_str_value_kind, LitStrValueToken};
use leptos_fluent_macros::fluent_resources::{is_fluent_file, locale_dir_error, normalize_newlines};
use leptos_fluent_macros::languages::{
    build_languages_quote, code_to_iso639, generate_code_for_static_language, iso639_to_dir,
    known_language_name, language_name_from_language_code, languages_file_extension_error,
    locales_from_folder_names, set_dir_to_languages_from_languages_file, LanguagesFileLanguage,
};
use leptos_fluent_macros::loader;
use leptos_fluent_macros::loader::{
    accepts_shorthand, param_kind, translations_quote, LoadersPart, ParamKind,
};
use leptos_fluent_macros::tr_macros::{
    checked_value_from_literal_str, value_from_literal, value_from_literal_str, TokenTree,
    TranslationMacro, TranslationsMacrosVisitor,
};

fn strings(v: &[&str]) -> Vec<String> {
    v.iter().map(|s| s.to_string()).collect()
}

fn tm(name: &str, message_name: &str, placeables: &[&str]) -> TranslationMacro {
    TranslationMacro {
        name: name.to_string(),
        message_name: message_name.to_string(),
        placeables: strings(placeables),
        file_path: "src/app.rs".to_string(),
    }
}

fn entry(message_name: &str, placeables: &[&str]) -> FluentEntry {
    FluentEntry { message_name: message_name.to_string(), placeables: strings(placeables) }
}

// cookie attributes

#[test]
fn valid_cookie_attributes() {
    assert!(validate_cookie_attrs("").is_empty());
    assert!(validate_cookie_attrs("Secure; SameSite=Lax; Max-Age=3600; Path=/").is_empty());
    assert!(validate_cookie_attrs("samesite=none; max-age=-1; max-age=+5; HttpOnly; Partitioned").is_empty());
}

#[test]
fn invalid_cookie_attributes() {
    assert_eq!(
        validate_cookie_attrs("SameSite=Foo"),
        vec!["Invalid SameSite value: Foo. Must be Strict, Lax, or None.".to_string()]
    );
    assert_eq!(
        validate_cookie_attrs("Secure=1; HttpOnly=yes; Partitioned=x"),
        strings(&[
            "Secure attribute does not take a value",
            "HttpOnly attribute does not take a value",
            "Partitioned attribute does not take a value",
        ])
    );
    assert_eq!(
        validate_cookie_attrs("Domain; Path; Expires; Max-Age=abc; Max-Age"),
        strings(&[
            "Domain attribute must have a value",
            "Path attribute must have a value",
            "Expires attribute must have a value",
            "Max-Age attribute must be a number",
            "Max-Age attribute must be a number",
        ])
    );
    assert_eq!(
        validate_cookie_attrs(" Foo = bar ;"),
        vec!["Invalid cookie attribute: 'foo '.\n  Valid attributes are: SameSite, Secure, HttpOnly, Domain, Path, Max-Age, Expires, Partitioned.".to_string()]
    );
    assert_eq!(
        validate_cookie_attrs("Max-Age=99999999999999999999"),
        vec!["Max-Age attribute must be a number".to_string()]
    );
}

// languages

#[test]
fn iso639_codes_and_directions() {
    assert_eq!(code_to_iso639("en-US"), "en");
    assert_eq!(code_to_iso639("pt_BR"), "pt");
    assert_eq!(code_to_iso639("ES"), "es");
    assert_eq!(iso639_to_dir("ar"), "rtl");
    assert_eq!(iso639_to_dir("he"), "rtl");
    assert_eq!(iso639_to_dir("en"), "ltr");
    assert_eq!(iso639_to_dir("xx"), "auto");
}

#[test]
fn language_names() {
    assert_eq!(language_name_from_language_code("en-US", false), "English");
    assert_eq!(language_name_from_language_code("en-US", true), "English (United States)");
    assert_eq!(language_name_from_language_code("es_ES", true), "Español (España)");
    assert_eq!(language_name_from_language_code("es", true), "Español");
    assert_eq!(language_name_from_language_code("ar", false), "العربية");
    assert_eq!(known_language_name("xx-YY", false), None);
}

#[test]
fn static_language_code() {
    assert_eq!(
        generate_code_for_static_language("en-US", "English", "ltr"),
        "&::leptos_fluent::Language{id: ::fluent_templates::loader::langid!(\"en-US\"),name: \"English\",dir: &::leptos_fluent::WritingDirection::Ltr}"
    );
    assert_eq!(
        build_languages_quote(&[
            ("ar".to_string(), "العربية".to_string(), "rtl".to_string()),
            ("xx".to_string(), "X".to_string(), "other".to_string()),
        ]),
        "[&::leptos_fluent::Language{id: ::fluent_templates::loader::langid!(\"ar\"),name: \"العربية\",dir: &::leptos_fluent::WritingDirection::Rtl},&::leptos_fluent::Language{id: ::fluent_templates::loader::langid!(\"xx\"),name: \"X\",dir: &::leptos_fluent::WritingDirection::Auto}]"
    );
    assert_eq!(build_languages_quote(&[]), "[]");
}

#[test]
fn languages_from_a_languages_file() {
    let langs = set_dir_to_languages_from_languages_file(&[
        LanguagesFileLanguage::CodeName("ar".to_string(), "Arabic".to_string()),
        LanguagesFileLanguage::CodeNameDir("en".to_string(), "English".to_string(), "auto".to_string()),
    ]);
    assert_eq!(
        langs,
        vec![
            ("ar".to_string(), "Arabic".to_string(), "rtl".to_string()),
            ("en".to_string(), "English".to_string(), "auto".to_string()),
        ]
    );
    assert_eq!(languages_file_extension_error("json"), None);
    assert_eq!(
        languages_file_extension_error("yaml"),
        Some("The languages file should be a JSON file because you've enabled the 'json' feature. Found file extension \"yaml\"".to_string())
    );
}

#[test]
fn languages_from_locale_folders_are_sorted_by_name() {
    let langs = locales_from_folder_names(&strings(&["es-ES", "en-US", "en-GB", "ar"]));
    assert_eq!(
        langs,
        vec![
            ("en-GB".to_string(), "English (United Kingdom)".to_string(), "ltr".to_string()),
            ("en-US".to_string(), "English (United States)".to_string(), "ltr".to_string()),
            ("es-ES".to_string(), "Español".to_string(), "ltr".to_string()),
            ("ar".to_string(), "العربية".to_string(), "rtl".to_string()),
        ]
    );
}

// translation literals

#[test]
fn literal_values() {
    assert_eq!(value_from_literal_str("\"foo\"", "tr"), Ok("foo"));
    assert_eq!(value_from_literal_str("r#\"foo\"#", "tr"), Ok("foo"));
    assert_eq!(value_from_literal_str("c\"foo\"", "tr"), Ok("foo"));
    assert_eq!(value_from_literal_str("cr#\"foo\"#", "tr"), Ok("foo"));
    assert_eq!(
        value_from_literal_str("56", "move_tr"),
        Err("Literal `56` at `move_tr!` macro must be a string literal".to_string())
    );
    assert_eq!(checked_value_from_literal_str("\"", "tr"), None);
}

#[test]
fn raw_literal_values_with_any_number_of_hashes() {
    assert_eq!(value_from_literal_str("r\"foo\"", "tr"), Ok("foo"));
    assert_eq!(value_from_literal_str("r##\"foo\"##", "tr"), Ok("foo"));
    assert_eq!(value_from_literal_str("r###\"a \"# b\"###", "tr"), Ok("a \"# b"));
    assert_eq!(value_from_literal_str("cr\"foo\"", "tr"), Ok("foo"));
    assert_eq!(value_from_literal_str("cr##\"foo\"##", "tr"), Ok("foo"));
    assert_eq!(value_from_literal_str("r\"é\"", "tr"), Ok("é"));
    assert_eq!(value_from_literal("r##\"foo\"##", "tr"), Ok("foo".to_string()));
    assert_eq!(checked_value_from_literal_str("r#\"foo\"", "tr"), None);
    assert_eq!(checked_value_from_literal_str("\"foo", "tr"), None);
    assert_eq!(
        value_from_literal_str("b\"x\"", "tr"),
        Err("Literal `b\"x\"` at `tr!` macro must be a string literal".to_string())
    );
}

// checks

#[test]
fn macro_calls_against_fluent_entries() {
    let macros = vec![tm("tr", "hello", &["name"]), tm("move_tr", "bye", &[])];
    let entries = vec![
        ("en-US".to_string(), vec![entry("hello", &["name"]), entry("bye", &[])]),
        ("es-ES".to_string(), vec![entry("hello", &[]), entry("unused", &["x"])]),
    ];
    assert_eq!(
        checker::run(&macros, &entries),
        strings(&[
            "Variable \"name\" defined at `tr!(\"hello\", { ... })` macro call in src/app.rs not found in message \"hello\" of locale \"es-ES\".",
            "Message \"bye\" defined at `move_tr!(\"bye\")` macro call in src/app.rs not found in files for locale \"es-ES\".",
            "Message \"unused\" of locale \"es-ES\" not found in any `tr!` or `move_tr!` macro calls.",
        ])
    );
}

#[test]
fn agreeing_translations_give_no_messages() {
    let macros = vec![tm("tr", "hello", &["name"]), tm("tr", "bye", &[])];
    let entries = vec![
        ("en-US".to_string(), vec![entry("hello", &["name"]), entry("bye", &[])]),
        ("es-ES".to_string(), vec![entry("bye", &[]), entry("hello", &["name"])]),
    ];
    assert!(checker::run(&macros, &entries).is_empty());
    assert_eq!(
        checker::format_macro_call("tr", "hello", true),
        "`tr!(\"hello\", { ... })`"
    );
}

#[test]
fn entry_variables_missing_in_macro_call() {
    let macros = vec![tm("tr", "hello", &[])];
    let entries = vec![("en-US".to_string(), vec![entry("hello", &["name"])])];
    assert_eq!(
        checker::run(&macros, &entries),
        vec!["Variable \"name\" defined in message \"hello\" of locale \"en-US\" not found in arguments of `tr!(\"hello\")` macro call at file src/app.rs.".to_string()]
    );
}

// filling

#[test]
fn filling_adds_missing_messages() {
    let macros = vec![tm("tr", "hello", &[]), tm("tr", "bye", &[]), tm("tr", "bye", &[])];
    let resources = vec![
        ("en-US".to_string(), strings(&["hello = Hello"])),
        ("es-ES".to_string(), strings(&["hello = Hola\nbye = Adiós\n"])),
    ];
    let paths = vec![
        ("en-US".to_string(), strings(&["./locales/en-US/main.ftl"])),
        ("es-ES".to_string(), strings(&["./locales/es-ES/main.ftl"])),
    ];
    let filled = filler::run(
        &macros,
        &strings(&["error gathering"]),
        &resources,
        &paths,
        "./",
        &None,
        &None,
    );
    assert_eq!(filled.errors, strings(&["error gathering"]));
    assert_eq!(filled.files.len(), 1);
    let f = &filled.files[0];
    assert_eq!(f.file_path, "./locales/en-US/main.ftl");
    assert_eq!(f.rel_file_path, "locales/en-US/main.ftl");
    assert_eq!(
        f.content,
        "hello = Hello\nbye = Unknown localization bye\nbye = Unknown localization bye\n"
    );
    assert_eq!(f.message_names, strings(&["bye", "bye"]));
}

#[test]
fn filling_a_locale_without_resources_is_refused() {
    let resources = vec![("en-US".to_string(), Vec::new())];
    let paths = vec![("en-US".to_string(), strings(&["./locales/en-US/main.ftl"]))];
    assert!(filler::checked_run(&vec![], &vec![], &resources, &paths, "./", &None, &None).is_none());
}

// parameters of the macro

#[test]
fn parameter_kinds() {
    assert!(matches!(param_kind("children"), ParamKind::Children));
    assert!(matches!(param_kind("translations"), ParamKind::Translations));
    assert!(matches!(param_kind("locales"), ParamKind::CompileTimeStr));
    assert!(matches!(param_kind("sync_html_tag_lang"), ParamKind::LitBoolExpr));
    assert!(matches!(param_kind("set_language_to_server_function"), ParamKind::Identifier));
    assert!(matches!(param_kind("cookie_attrs"), ParamKind::LitStrExpr));
    assert!(matches!(param_kind("url_path"), ParamKind::UrlPath));
    assert!(matches!(param_kind("provide_meta_context"), ParamKind::LitBool));
    assert!(matches!(param_kind("initial_language_from_system"), ParamKind::RequiresSystem));
    assert!(matches!(param_kind("foo"), ParamKind::Invalid));
    assert!(accepts_shorthand(&param_kind("url_param")));
    assert!(!accepts_shorthand(&param_kind("locales")));
}

#[test]
fn parameter_messages() {
    assert_eq!(
        loader::invalid_parameter_message("foo"),
        "Invalid parameter 'foo' for leptos_fluent! macro."
    );
    assert_eq!(
        loader::shorthand_not_supported_message("locales"),
        "Struct field initialization shorthand is not supported for the parameter 'locales'."
    );
    assert_eq!(
        loader::system_feature_message("set_language_to_data_file"),
        "The parameter 'set_language_to_data_file' of leptos_fluent! macro requires the feature 'system' enabled."
    );
    assert_eq!(
        loader::exprpath_not_supported_error_message("#[cfg(feature = \"ssr\")]", "cookie_name"),
        "The parameter 'cookie_name' of leptos_fluent! macro does not accept the expression path '#[cfg(feature = \"ssr\")]'. Consider to move your configuration to a variable:\n\n```rust\n#[cfg(feature = \"ssr\")]\n{\n    let cookie_name_dyn = { ... };\n}\n\nleptos_fluent! {\n    // ...\n    cookie_name: cookie_name_dyn,\n};\n```\n"
    );
    assert_eq!(
        loader::litstr_found_bool_message("url_param", true),
        "Invalid value for 'url_param' of leptos_fluent! macro. Must be a literal string or a valid expression. Found a literal boolean 'true'."
    );
    assert_eq!(
        loader::invalid_litbool_message("sync_html_tag_lang", ""),
        "Invalid value for 'sync_html_tag_lang' of leptos_fluent! macro. Must be a literal boolean or a valid expression. Found (empty)"
    );
    assert_eq!(
        loader::invalid_litstr_message("url_param", "3 +"),
        "Invalid value for 'url_param' of leptos_fluent! macro. Must be a literal string or a valid expression. Found '3 +'."
    );
    assert!(loader::expected_expression_message("").starts_with(
        "Expected an expression with 'key: value', '#[...] key: value', 'key,' or `#[...] key,` format. Found: (empty).\n"
    ));
    assert_eq!(
        loader::expected_expression_message("3"),
        "Expected an expression with 'key: value', '#[...] key: value', 'key,' or `#[...] key,` format. Found:\n3"
    );
}

#[test]
fn values_shown_for_invalid_literals() {
    assert_eq!(loader::trimmed_found("foo bar"), Some("foo bar".to_string()));
    assert_eq!(
        loader::trimmed_found("url_param: 3 +,\nother: 4,"),
        Some("3 +".to_string())
    );
    assert_eq!(loader::trimmed_found("a: b\nc, d"), None);
}

#[test]
fn keys_and_predicates_of_configured_entries() {
    assert_eq!(loader::exprpath_key("# [cfg (debug_assertions)] sync_html_tag_lang"), "sync_html_tag_lang");
    assert_eq!(loader::exprpath_key("#[cfg(test)]\nfoo"), "foo");
    assert_eq!(loader::exprpath_predicate("#[cfg(feature = \"ssr\")]"), "feature = \"ssr\"");
    assert_eq!(loader::exprpath_predicate("test"), "test");
}

#[test]
fn translations_code() {
    let parts = vec![
        LoadersPart::Simple(strings(&["TRANSLATIONS", "OTHER"])),
        LoadersPart::Compound("crate::LOADERS".to_string()),
    ];
    assert_eq!(
        translations_quote(&parts),
        Ok("{let mut loaders = Vec::new();loaders.push(&TRANSLATIONS);loaders.push(&OTHER);loaders.extend(crate::LOADERS);loaders}".to_string())
    );
    assert_eq!(
        translations_quote(&vec![]),
        Err("Need to pass at least one translations loader".to_string())
    );
}

#[test]
fn checks_after_the_parameters() {
    assert_eq!(
        loader::missing_params_error(false, false),
        Some("Missing `translations` parameter".to_string())
    );
    assert_eq!(
        loader::missing_params_error(true, false),
        Some("Missing `locales` parameter".to_string())
    );
    assert_eq!(loader::missing_params_error(true, true), None);
    assert_eq!(loader::cookie_attrs_error("Secure"), None);
    assert_eq!(
        loader::cookie_attrs_error("Secure=1; Path"),
        Some("Invalid cookie attributes:\n- Secure attribute does not take a value\n- Path attribute must have a value".to_string())
    );
}

#[test]
fn reports() {
    assert_eq!(loader::check_report(&vec![], &vec![]), "");
    assert_eq!(
        loader::check_report(&strings(&["a", "b"]), &strings(&["c"])),
        "Translations check failed:\n- a\n- b\n\nUnrecoverable errors:\n- c"
    );
    assert_eq!(
        loader::fill_report(&vec![("locales/en/main.ftl".to_string(), strings(&["x", "y"]))]),
        "Translations filled by leptos-fluent:\n  locales/en/main.ftl\n    - x\n    - y\n\n"
    );
    assert_eq!(loader::fill_report(&vec![]), "");
    assert_eq!(
        loader::path_not_found_message(loader::PathParam::Locales, "./locales"),
        "Couldn't read locales folder. This path should be relative to your crate's `Cargo.toml`. Looking for: \"./locales\""
    );
    assert_eq!(
        loader::reading_errors_message(true, "./locales", &strings(&["e1", "e2"])),
        "Errors while reading fluent resources from ./locales:\n- e1\n- e2"
    );
}

// files

#[test]
fn files_tracker() {
    let files = vec![
        ("en-US".to_string(), strings(&["/a/en-US/main.ftl", "/a/en-US/other.ftl"])),
        ("es".to_string(), strings(&["/a/es/main.ftl"])),
    ];
    assert_eq!(
        build_files_tracker_quote(&files, &Some("/a/languages.json".to_string()), &None),
        "{let _sen_US0 = include_bytes!(\"/a/en-US/main.ftl\");let _sen_US1 = include_bytes!(\"/a/en-US/other.ftl\");let _ses0 = include_bytes!(\"/a/es/main.ftl\");let _l = include_bytes!(\"/a/languages.json\");};"
    );
    assert_eq!(build_files_tracker_quote(&vec![], &None, &None), "{};");
}

#[test]
fn fluent_resource_files() {
    assert_eq!(normalize_newlines("a\r\nb\r\n\r"), "a\nb\n\r");
    assert_eq!(normalize_newlines("\r\r\n"), "\r\n");
    assert_eq!(locale_dir_error("en-US"), None);
    assert_eq!(
        locale_dir_error("not a language"),
        Some("Invalid language directory name: not a language".to_string())
    );
    assert!(is_fluent_file("locales/en/main.ftl"));
    assert!(is_fluent_file("locales/en/README"));
    assert!(!is_fluent_file("locales/en/notes.txt"));
}

#[test]
fn literal_values_by_stripping_quotes() {
    assert_eq!(value_from_literal("\"foo\"", "tr"), Ok("foo".to_string()));
    assert_eq!(value_from_literal("r#\"foo\"#", "tr"), Ok("foo".to_string()));
    assert_eq!(value_from_literal("c\"foo\"", "tr"), Ok("foo".to_string()));
    assert_eq!(value_from_literal("cr#\"foo\"#", "tr"), Ok("foo".to_string()));
    assert_eq!(
        value_from_literal("b'7'", "move_tr"),
        Err("Literal `b'7'` at `move_tr!` macro must be a string literal".to_string())
    );
}

#[test]
fn visitor_names_files_relative_to_the_workspace() {
    let mut visitor = TranslationsMacrosVisitor::for_file("/ws/src/app.rs", "/ws");
    let tokens = vec![
        TokenTree::Ident("tr".to_string()),
        TokenTree::Punct('!'),
        TokenTree::Group(vec![TokenTree::Literal("\"hello\"".to_string())]),
    ];
    assert!(visitor.visit_stmt_macro(&tokens));
    assert_eq!(visitor.found_macros().len(), 1);
    assert_eq!(visitor.found_macros()[0].message_name, "hello");
    assert_eq!(visitor.found_macros()[0].file_path, "src/app.rs");
    assert!(TranslationsMacrosVisitor::checked_for_file("src/app.rs", "/ws").is_none());
}

#[test]
fn parameter_errors() {
    assert_eq!(loader::param_error("locales", false), None);
    assert_eq!(
        loader::param_error("locales", true),
        Some("Struct field initialization shorthand is not supported for the parameter 'locales'.".to_string())
    );
    assert_eq!(loader::param_error("cookie_name", true), None);
    assert_eq!(
        loader::param_error("bar", false),
        Some("Invalid parameter 'bar' for leptos_fluent! macro.".to_string())
    );
    assert_eq!(
        loader::param_error("initial_language_from_data_file", true),
        Some("The parameter 'initial_language_from_data_file' of leptos_fluent! macro requires the feature 'system' enabled.".to_string())
    );
}

#[test]
fn cookie_attributes_are_validated_one_after_the_other() {
    let joined = validate_cookie_attrs("Secure=1;Path");
    let mut apart = validate_cookie_attrs("Secure=1");
    apart.extend(validate_cookie_attrs("Path"));
    assert_eq!(joined, apart);
    assert_eq!(joined.len(), 2);
}

#[test]
fn text_without_carriage_returns_is_kept() {
    assert_eq!(normalize_newlines("a\nb\n"), "a\nb\n");
}

#[test]
fn lit_str_value_first_token() {
    assert_eq!(lit_str_value_kind("\"lang\""), LitStrValueToken::StringLiteral);
    assert_eq!(lit_str_value_kind("r#\"lang\"#"), LitStrValueToken::StringLiteral);
    assert_eq!(lit_str_value_kind("r\"lang\""), LitStrValueToken::StringLiteral);
    assert_eq!(lit_str_value_kind("true"), LitStrValueToken::BoolLiteral(true));
    assert_eq!(lit_str_value_kind("false"), LitStrValueToken::BoolLiteral(false));
    assert_eq!(lit_str_value_kind("COOKIE_NAME"), LitStrValueToken::Other);
    assert_eq!(lit_str_value_kind("c\"lang\""), LitStrValueToken::Other);
    assert_eq!(lit_str_value_kind("raw"), LitStrValueToken::Other);
}

#[test]
fn language_name_ignores_case_and_separator() {
    assert_eq!(known_language_name("en-US", true), Some("English (United States)"));
    assert_eq!(known_language_name("en_us", true), Some("English (United States)"));
    assert_eq!(known_language_name("EN-us", true), Some("English (United States)"));
    assert_eq!(known_language_name("es-419", true), Some("Español (Latinoamérica)"));
}

#[test]
fn code_to_iso639_parts() {
    assert_eq!(code_to_iso639("EN_us-x"), "EN");
    assert_eq!(code_to_iso639("pt-BR"), "pt");
    assert_eq!(code_to_iso639("FR"), "fr");
}

#[test]
fn normalize_newlines_single_pass() {
    assert_eq!(normalize_newlines("a\r\nb"), "a\nb");
    assert_eq!(normalize_newlines("\r\r\n"), "\r\n");
    assert_eq!(normalize_newlines("a\rb"), "a\rb");
}
