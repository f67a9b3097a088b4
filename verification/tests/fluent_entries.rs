use leptos_fluent_macros::fluent_entries::{
    build_fluent_entries, checked_build_fluent_entries, line_col_from_index_content, FluentEntry,
};

fn locale(lang: &str, strs: &[&str]) -> (String, Vec<String>) {
    (lang.to_string(), strs.iter().map(|s| s.to_string()).collect())
}

fn entry(message_name: &str, placeables: &[&str]) -> FluentEntry {
    FluentEntry {
        message_name: message_name.to_string(),
        placeables: placeables.iter().map(|s| s.to_string()).collect(),
    }
}

fn build(
    resources: Vec<(String, Vec<String>)>,
    paths: Vec<(String, Vec<String>)>,
) -> (Vec<(String, Vec<FluentEntry>)>, Vec<String>) {
    build_fluent_entries(&resources, &paths, "./", &None, &None)
}

#[test]
fn valid() {
    let (entries, errors) = build(
        vec![
            locale("en-US", &["foo = Bar\nhello = Hello { $name }\n"]),
            locale("es-ES", &["foo = Bar\nhello = Hola { $name }\n"]),
        ],
        vec![
            locale("en-US", &["./locales/en-US/foo.ftl"]),
            locale("es-ES", &["./locales/es-ES/foo.ftl"]),
        ],
    );
    assert!(errors.is_empty());
    assert_eq!(
        entries,
        vec![
            ("en-US".to_string(), vec![entry("foo", &[]), entry("hello", &["name"])]),
            ("es-ES".to_string(), vec![entry("foo", &[]), entry("hello", &["name"])]),
        ]
    );
}

#[test]
fn empty_resource() {
    let (entries, errors) = build(
        vec![locale("en-US", &[""])],
        vec![locale("en-US", &["./locales/en-US/foo.ftl"])],
    );
    assert!(errors.is_empty());
    assert_eq!(entries, vec![("en-US".to_string(), vec![])]);
}

#[test]
fn empty_message_name() {
    let (entries, errors) = build(
        vec![locale("en-US", &["foo =\nbar = Baz"])],
        vec![locale("en-US", &["./locales/en-US/foo.ftl"])],
    );
    assert_eq!(
        errors,
        vec![format!(
            "Error parsing fluent resource in file {} for locale \"en-US\":\n  + Expected a message field for \"foo\" (at line 1, col 1)",
            "locales/en-US/foo.ftl",
        )]
    );
    assert_eq!(entries, vec![("en-US".to_string(), vec![entry("bar", &[])])]);
}

#[test]
fn empty_variable_name() {
    let (entries, errors) = build(
        vec![locale("en-US", &["foo = Bar\nhello = Hello { $ }\n"])],
        vec![locale("en-US", &["./locales/en-US/foo.ftl"])],
    );
    assert_eq!(
        errors,
        vec![format!(
            "Error parsing fluent resource in file {} for locale \"en-US\":\n  + Expected one of \"a-zA-Z\" (at line 2, col 18)",
            "locales/en-US/foo.ftl",
        )]
    );
    assert_eq!(entries, vec![("en-US".to_string(), vec![entry("foo", &[])])]);
}

#[test]
fn fluent_functions() {
    let (entries, errors) = build(
        vec![locale(
            "en-US",
            &[r#"locale-date-format = { DATETIME($date, month: "long", year: "numeric", day: "numeric") }
log-time2 = Entry time: { DATETIME($date) }
emails2 = Number of unread emails { NUMBER($unreadEmails) }
"#],
        )],
        vec![locale("en-US", &["./locales/en-US/foo.ftl"])],
    );
    assert!(errors.is_empty());
    assert_eq!(
        entries,
        vec![(
            "en-US".to_string(),
            vec![
                entry("locale-date-format", &["date"]),
                entry("log-time2", &["date"]),
                entry("emails2", &["unreadEmails"]),
            ]
        )]
    );
}

#[test]
fn fluent_selectors() {
    let (entries, errors) = build(
        vec![locale(
            "en-US",
            &[r#"emails =
    { $unreadEmails ->
        [one] You have one unread email.
       *[other] You have { $unreadEmails } unread emails.
    }
your-score =
    { NUMBER($score, minimumFractionDigits: 1) ->
        [0.0]   You scored zero points. What happened?
       *[other] You scored { NUMBER($score, minimumFractionDigits: 1) } points.
    }
your-rank = { NUMBER($pos, type: "ordinal") ->
   [1] You finished first!
   [one] You finished {$pos}st
   [two] You finished {$pos}nd
   [few] You finished {$pos}rd
  *[other] You finished {$pos}th
}
"#],
        )],
        vec![locale("en-US", &["./locales/en-US/foo.ftl"])],
    );
    assert!(errors.is_empty());
    assert_eq!(
        entries,
        vec![(
            "en-US".to_string(),
            vec![
                entry("emails", &["unreadEmails"]),
                entry("your-score", &["score"]),
                entry("your-rank", &["pos"]),
            ]
        )]
    );
}

#[test]
fn fluent_message_references() {
    let (entries, errors) = build(
        vec![locale(
            "en-US",
            &[r#"units-unit-conversion = {$unit_value} = {$base_unit_value}
units-unit-conversion-continuation = {units-unit-conversion}, where
units-unit-conversion-continuation-recursive = {units-unit-conversion}, where {units-unit-conversion-continuation}
"#],
        )],
        vec![locale("en-US", &["./locales/en-US/foo.ftl"])],
    );
    assert!(errors.is_empty());
    assert_eq!(
        entries,
        vec![(
            "en-US".to_string(),
            vec![
                entry("units-unit-conversion", &["unit_value", "base_unit_value"]),
                entry("units-unit-conversion-continuation", &["unit_value", "base_unit_value"]),
                entry(
                    "units-unit-conversion-continuation-recursive",
                    &["unit_value", "base_unit_value", "unit_value", "base_unit_value"],
                ),
            ]
        )]
    );
}

#[test]
fn fluent_message_reference_not_found() {
    let (entries, errors) = build(
        vec![locale("en-US", &["foo = {$bar}\nbar = My {not-found} message reference\n"])],
        vec![locale("en-US", &["./locales/en-US/foo.ftl"])],
    );
    assert!(!errors.is_empty());
    assert_eq!(
        errors,
        vec![
            "Error parsing fluent resource in file locales/en-US/foo.ftl for locale \"en-US\":\n  + Message reference \"not-found\" of entry \"bar\" is not found"
                .to_string()
        ]
    );
    assert_eq!(
        entries,
        vec![("en-US".to_string(), vec![entry("foo", &["bar"]), entry("bar", &[])])]
    );
}

#[test]
fn core_resource_added_to_each_locale() {
    let resources = vec![locale("en-US", &["foo = Foo\n"]), locale("es-ES", &["foo = Fu\n"])];
    let paths = vec![
        locale("en-US", &["./locales/en-US/foo.ftl"]),
        locale("es-ES", &["./locales/es-ES/foo.ftl"]),
    ];
    let (entries, errors) = build_fluent_entries(
        &resources,
        &paths,
        "./",
        &Some("./locales/core.ftl".to_string()),
        &Some("shared = Shared { $x }\n".to_string()),
    );
    assert!(errors.is_empty());
    assert_eq!(
        entries,
        vec![
            ("en-US".to_string(), vec![entry("foo", &[]), entry("shared", &["x"])]),
            ("es-ES".to_string(), vec![entry("foo", &[]), entry("shared", &["x"])]),
        ]
    );
}

#[test]
fn core_resource_with_errors_is_reported_once() {
    let resources = vec![locale("en-US", &["foo = Foo\n"])];
    let paths = vec![locale("en-US", &["./locales/en-US/foo.ftl"])];
    let (entries, errors) = build_fluent_entries(
        &resources,
        &paths,
        "./",
        &Some("./locales/core.ftl".to_string()),
        &Some("shared =\nother = Other\n".to_string()),
    );
    assert_eq!(
        errors,
        vec![
            "Error parsing core fluent resource in file locales/core.ftl:\n  + Expected a message field for \"shared\" (at line 1, col 1)"
                .to_string()
        ]
    );
    assert_eq!(entries, vec![("en-US".to_string(), vec![entry("foo", &[]), entry("other", &[])])]);
}

#[test]
fn circular_references_are_refused() {
    let resources = vec![locale("en-US", &["a = { b }\nb = { a }\n"])];
    let paths = vec![locale("en-US", &["./locales/en-US/foo.ftl"])];
    assert!(checked_build_fluent_entries(&resources, &paths, "./", &None, &None).is_none());
}

#[test]
fn missing_file_path_is_refused_only_when_needed() {
    let resources = vec![locale("en-US", &["foo = Foo\n"])];
    let (entries, errors) =
        checked_build_fluent_entries(&resources, &vec![], "./", &None, &None).unwrap();
    assert!(errors.is_empty());
    assert_eq!(entries, vec![("en-US".to_string(), vec![entry("foo", &[])])]);
    let broken = vec![locale("en-US", &["foo =\n"])];
    assert!(checked_build_fluent_entries(&broken, &vec![], "./", &None, &None).is_none());
}

#[test]
fn line_and_column_of_offsets() {
    assert_eq!(line_col_from_index_content("", 0), (1, 1));
    assert_eq!(line_col_from_index_content("ab\ncd", 4), (2, 2));
    assert_eq!(line_col_from_index_content("ab\n", 3), (2, 1));
    assert_eq!(line_col_from_index_content("é\né", 5), (2, 2));
}
