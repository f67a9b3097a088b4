use leptos_fluent_macros::expansion::{
    bool_param_values_code, default_key_value, initial_language_lookup_order, key_param_code,
    may_hold_params, sync_html_tag_code, BoolParam, KeyParam, LanguageSource,
};

fn param(expr: Option<&str>, exprpath: Option<&str>) -> BoolParam {
    BoolParam { expr: expr.map(|e| e.to_string()), exprpath: exprpath.map(|p| p.to_string()) }
}

#[test]
fn key_defaults() {
    assert_eq!(default_key_value(KeyParam::CookieName), "lf-lang");
    assert_eq!(default_key_value(KeyParam::CookieAttrs), "");
    assert_eq!(default_key_value(KeyParam::UrlParam), "lang");
    assert_eq!(default_key_value(KeyParam::LocalstorageKey), "lang");
    assert_eq!(default_key_value(KeyParam::SessionstorageKey), "lang");
    assert_eq!(default_key_value(KeyParam::DataFileKey), "leptos-fluent");
}

#[test]
fn key_code_prefers_literal_then_expression_then_default() {
    assert_eq!(key_param_code(KeyParam::CookieName, Some("\"lang\""), Some("NAME")), "\"lang\"");
    assert_eq!(key_param_code(KeyParam::CookieName, None, Some("NAME")), "NAME");
    assert_eq!(key_param_code(KeyParam::CookieName, None, None), "\"lf-lang\"");
    assert_eq!(key_param_code(KeyParam::UrlParam, None, None), "\"lang\"");
    assert_eq!(key_param_code(KeyParam::DataFileKey, None, None), "\"leptos-fluent\"");
    assert_eq!(key_param_code(KeyParam::CookieAttrs, None, None), "\"\"");
}

#[test]
fn bool_param_code_and_may_hold() {
    assert_eq!(bool_param_values_code(&vec![]), "false");
    assert_eq!(bool_param_values_code(&vec![param(Some("true"), None)]), "true ");
    assert_eq!(
        bool_param_values_code(&vec![
            param(Some("true"), Some("#[cfg(debug_assertions)]")),
            param(None, None),
        ]),
        "#[cfg(debug_assertions)]{true} false "
    );
    assert!(!may_hold_params(&vec![]));
    assert!(!may_hold_params(&vec![param(Some("false"), None)]));
    assert!(!may_hold_params(&vec![param(None, None)]));
    assert!(may_hold_params(&vec![param(Some("true"), None)]));
    assert!(may_hold_params(&vec![param(Some("false"), Some("#[cfg(debug_assertions)]"))]));
    assert!(may_hold_params(&vec![param(Some("false"), None), param(Some("false"), None)]));
}

#[test]
fn sync_html_tag() {
    assert_eq!(sync_html_tag_code(&vec![], &vec![param(Some("false"), None)], "i18n()"), "");
    assert_eq!(
        sync_html_tag_code(&vec![param(Some("true"), None)], &vec![], "i18n()"),
        "{ use ::leptos_fluent::leptos_meta::{provide_meta_context, Html}; provide_meta_context(); ::leptos::prelude::view! { <Html attr:lang=|| {i18n().id.to_string()} /> } }"
    );
    assert_eq!(
        sync_html_tag_code(
            &vec![param(Some("true"), None)],
            &vec![param(Some("true"), None)],
            "l"
        ),
        "{ use ::leptos_fluent::leptos_meta::{provide_meta_context, Html}; provide_meta_context(); ::leptos::prelude::view! { <Html attr:lang=|| {l.id.to_string()} attr:dir=|| {l.dir.as_str()} /> } }"
    );
}

#[test]
fn initial_language_lookup() {
    assert_eq!(
        initial_language_lookup_order(false),
        vec![
            LanguageSource::ServerFunction,
            LanguageSource::DataFile,
            LanguageSource::System,
            LanguageSource::UrlParam,
            LanguageSource::UrlPath,
            LanguageSource::Cookie,
            LanguageSource::Localstorage,
            LanguageSource::Sessionstorage,
            LanguageSource::Navigator,
        ]
    );
    assert_eq!(
        initial_language_lookup_order(true),
        vec![
            LanguageSource::ServerFunction,
            LanguageSource::UrlParam,
            LanguageSource::UrlPath,
            LanguageSource::Cookie,
            LanguageSource::AcceptLanguageHeader,
        ]
    );
}
