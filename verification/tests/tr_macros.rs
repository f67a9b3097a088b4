use leptos_fluent_macros::tr_macros::{TokenTree, TranslationMacro, TranslationsMacrosVisitor};
use quote::ToTokens;
use syn::visit::Visit;

fn tokens_of(stream: proc_macro2::TokenStream) -> Vec<TokenTree> {
    stream
        .into_iter()
        .map(|t| match t {
            proc_macro2::TokenTree::Ident(i) => TokenTree::Ident(i.to_string()),
            proc_macro2::TokenTree::Punct(p) => TokenTree::Punct(p.as_char()),
            proc_macro2::TokenTree::Literal(l) => TokenTree::Literal(l.to_string()),
            proc_macro2::TokenTree::Group(g) => TokenTree::Group(tokens_of(g.stream())),
        })
        .collect()
}

struct Collector {
    visitor: TranslationsMacrosVisitor,
}

impl<'ast> Visit<'ast> for Collector {
    fn visit_macro(&mut self, node: &'ast syn::Macro) {
        let tokens = tokens_of(node.to_token_stream());
        let inner = tokens_of(node.tokens.clone());
        assert!(self.visitor.visit_macro(&tokens, &inner));
        syn::visit::visit_macro(self, node);
    }

    fn visit_stmt_macro(&mut self, node: &'ast syn::StmtMacro) {
        assert!(self.visitor.visit_stmt_macro(&tokens_of(node.to_token_stream())));
        syn::visit::visit_stmt_macro(self, node);
    }

    fn visit_stmt(&mut self, node: &'ast syn::Stmt) {
        assert!(self.visitor.visit_stmt(&tokens_of(node.to_token_stream())));
        syn::visit::visit_stmt(self, node);
    }

    fn visit_item_use(&mut self, node: &'ast syn::ItemUse) {
        self.visitor.visit_use_item();
        syn::visit::visit_item_use(self, node);
    }

    fn visit_use_rename(&mut self, node: &'ast syn::UseRename) {
        self.visitor
            .visit_use_rename(&node.ident.to_string(), &node.rename.to_string());
        syn::visit::visit_use_rename(self, node);
    }

    fn visit_use_path(&mut self, node: &'ast syn::UsePath) {
        self.visitor.visit_use_path(&node.ident.to_string());
        syn::visit::visit_use_path(self, node);
    }

    fn visit_use_name(&mut self, node: &'ast syn::UseName) {
        self.visitor.visit_use_name(&node.ident.to_string());
        syn::visit::visit_use_name(self, node);
    }
}

fn parse_file_content(file_content: &str) -> (Vec<TranslationMacro>, Vec<String>) {
    let ast = syn::parse_file(file_content).unwrap();
    let mut collector = Collector { visitor: TranslationsMacrosVisitor::new(String::new()) };
    collector.visit_file(&ast);
    let macros = collector
        .visitor
        .found_macros()
        .iter()
        .map(|m| TranslationMacro {
            name: m.name.clone(),
            message_name: m.message_name.clone(),
            placeables: m.placeables.clone(),
            file_path: m.file_path.clone(),
        })
        .collect();
    (macros, collector.visitor.found_errors().clone())
}

fn tr_macro(name: &str, message_name: &str, placeables: Vec<String>) -> TranslationMacro {
    TranslationMacro {
        name: name.to_string(),
        message_name: message_name.to_string(),
        placeables,
        file_path: String::new(),
    }
}

#[test]
fn tr_macros_view() {
        let content = r##"
        fn App() -> impl IntoView {
            view! {
                <p>{move_tr!("select-a-language")}</p>
                <p>{move_tr!("html-tag-lang-is", { "foo" => "value1", "bar" => "value2" })}</p>
            }
        }
    "##;
        let (tr_macros, errors) = parse_file_content(content);

        assert_eq!(
            tr_macros,
            vec![
                tr_macro("move_tr", "select-a-language", Vec::new()),
                tr_macro(
                    "move_tr",
                    "html-tag-lang-is",
                    vec!["foo".to_string(), "bar".to_string()]
                ),
            ]
        );
        assert_eq!(errors, Vec::<String>::new());
    }

#[test]
fn tr_macros_closure() {
        let content = r##"
        fn App() -> impl IntoView {
            let closure_a = move || tr!("select-a-language");
            let closure_b = move || {
                tr!("html-tag-lang-is", { "foo" => "value1", "bar" => "value2" });
            };
            let closure_c = || tr!("select-another-language");
            let closure_d = || {
                tr!("other-html-tag-lang-is", { "foo" => "value1", "bar" => "value2" });
            };
        }
    "##;
        let (tr_macros, errors) = parse_file_content(content);

        assert_eq!(
            tr_macros,
            vec![
                tr_macro("tr", "select-a-language", Vec::new()),
                tr_macro(
                    "tr",
                    "html-tag-lang-is",
                    vec!["foo".to_string(), "bar".to_string()]
                ),
                tr_macro("tr", "select-another-language", Vec::new()),
                tr_macro(
                    "tr",
                    "other-html-tag-lang-is",
                    vec!["foo".to_string(), "bar".to_string()]
                ),
            ]
        );
        assert_eq!(errors, Vec::<String>::new());
    }

#[test]
fn tr_macros_signal_derive() {
        let content = r##"
        fn App() -> impl IntoView {
            let description = Signal::derive(move || {
                tr!("site-description", {
                    "n-icons" => get_number_of_icons!(),
                    "svg" => tr!("svg"),
                })
            });
        }
    "##;
        let (tr_macros, errors) = parse_file_content(content);

        assert_eq!(
            tr_macros,
            vec![
                tr_macro(
                    "tr",
                    "site-description",
                    vec!["n-icons".to_string(), "svg".to_string()]
                ),
                tr_macro("tr", "svg", Vec::new()),
            ]
        );
        assert_eq!(errors, Vec::<String>::new());
    }

#[test]
fn tr_macros_stmt_macros() {
        let content = r##"
        fn App() -> impl IntoView {
            // for completeness, this is not idiomatic
            tr!("select-a-language");
            tr!("html-tag-lang-is", { "foo" => "value1", "bar" => "value2" });
        }
    "##;
        let (tr_macros, errors) = parse_file_content(content);

        assert_eq!(
            tr_macros,
            vec![
                tr_macro("tr", "select-a-language", Vec::new()),
                tr_macro(
                    "tr",
                    "html-tag-lang-is",
                    vec!["foo".to_string(), "bar".to_string()]
                ),
            ]
        );
        assert_eq!(errors, Vec::<String>::new());
    }

#[test]
fn tr_macros_stmt() {
        let content = r##"
        fn App() -> impl IntoView {
            let a = tr!("select-a-language");
            let b = tr!("html-tag-lang-is", { "foo" => "value1", "bar" => "value2" });
        }
    "##;
        let (tr_macros, errors) = parse_file_content(content);

        assert_eq!(
            tr_macros,
            vec![
                tr_macro("tr", "select-a-language", Vec::new()),
                tr_macro(
                    "tr",
                    "html-tag-lang-is",
                    vec!["foo".to_string(), "bar".to_string()]
                ),
            ]
        );
        assert_eq!(errors, Vec::<String>::new());
    }

#[test]
fn tr_macros_if_inside_view_macro() {
        let content = r##"
        fn App() -> impl IntoView {
            view! {
                <h1>
                    {
                        if errors.len() > 1 {
                            move_tr!("some-errors-happened")
                        } else {
                            move_tr!("an-error-happened")
                        }
                    }
                </h1>
            }
        }
    "##;
        let (tr_macros, errors) = parse_file_content(content);

        assert_eq!(
            tr_macros,
            vec![
                tr_macro("move_tr", "some-errors-happened", Vec::new()),
                tr_macro("move_tr", "an-error-happened", Vec::new()),
            ]
        );
        assert_eq!(errors, Vec::<String>::new());
    }

#[test]
fn tr_macros_component_argument() {
        let content = r##"
        fn App() -> impl IntoView {
            view! {
                <ControlButtonIcon
                    title=move_tr!("light-color-scheme")
                    icon=ChSun
                    active=Signal::derive(move || color_scheme() == ColorMode::Light)
                    on:click=move |_| set_color_scheme(ColorMode::Light)
                />
                <ControlButtonIcon
                    title=move_tr!("dark-color-scheme")
                    icon=ChMoon
                    active=Signal::derive(move || color_scheme() == ColorMode::Dark)
                    on:click=move |_| set_color_scheme(ColorMode::Dark)
                />
            }
        }
    "##;

        let (tr_macros, errors) = parse_file_content(content);

        assert_eq!(
            tr_macros,
            vec![
                tr_macro("move_tr", "light-color-scheme", Vec::new()),
                tr_macro("move_tr", "dark-color-scheme", Vec::new())
            ]
        );
        assert_eq!(errors, Vec::<String>::new());
    }

#[test]
fn tr_macros_tr_html_tag() {
        let content = r##"
        #[component]
        fn ThirdPartyExtensionsTableRow(
            extension: &'static ThirdPartyExtension,
        ) -> impl IntoView {
            view! {
                <tr>
                    <td>
                        <a href=extension.url target="_blank">
                            {extension.name}
                        </a>
                    </td>
                </tr>
            }
        }
    "##;

        let (tr_macros, errors) = parse_file_content(content);

        assert_eq!(tr_macros, Vec::new());
        assert_eq!(errors, Vec::<String>::new());
    }

#[test]
fn tr_macros_tr_non_string_literals_as_text_id() {
        let content = r##"
        #[component]
        fn Foo() -> impl IntoView {
            view! {
                <p>{tr!(56)}</p>
                <p>{move_tr!("foo", {b'7' => "bar"})}</p>
            }
        }
    "##;

        let (tr_macros, errors) = parse_file_content(content);

        assert_eq!(tr_macros, Vec::new());
        assert_eq!(
            errors,
            vec![
                "Literal `56` at `tr!` macro must be a string literal",
                "Literal `b'7'` at `move_tr!` macro must be a string literal",
            ]
        );
    }

#[test]
fn tr_macros_raw_string_literals() {
        let content = r##"
        fn App() -> impl IntoView {
            view! {
                <p>{tr!(r#"select-a-language"#)}</p>
                <p>{move_tr!(r#"html-tag-lang-is"#, { "foo" => r#"value1"#, "bar" => r#"value2"# })}</p>
            }
        }
    "##;
        let (tr_macros, errors) = parse_file_content(content);

        assert_eq!(
            tr_macros,
            vec![
                tr_macro("tr", "select-a-language", Vec::new()),
                tr_macro(
                    "move_tr",
                    "html-tag-lang-is",
                    vec!["foo".to_string(), "bar".to_string()]
                ),
            ]
        );
        assert_eq!(errors, Vec::<String>::new());
    }

#[test]
fn tr_macros_at_return() {
        let content = r##"
        pub fn foo() -> String {
            tr!("now")
        }

        pub fn bar() -> String {
            return move_tr!("after");
        }

        fn baz() -> String {
            (tr!("before"), move_tr!("tomorrow"))
        }
    "##;

        let (tr_macros, errors) = parse_file_content(content);

        assert_eq!(
            tr_macros,
            vec![
                tr_macro("tr", "now", Vec::new()),
                tr_macro("move_tr", "after", Vec::new()),
                tr_macro("tr", "before", Vec::new()),
                tr_macro("move_tr", "tomorrow", Vec::new()),
            ]
        );
        assert_eq!(errors, Vec::<String>::new());
    }

#[test]
fn tr_macros_tr_in_move_tr_params() {
        let content = r##"
        #[component]
        fn App() -> impl IntoView {
            let download_svg_msg =
                move_tr!("download-filetype", {"filetype" => tr!("svg")});
            let download_colored_svg_msg =
                move_tr!("download-filetype", {"filetype" => tr!("colored-svg")});
            let download_pdf_msg =
                move_tr!("download-filetype", {"filetype" => tr!("pdf")});
            let download_jpg_msg =
                move_tr!("download-filetype", {"filetype" => tr!("jpg")});
            let download_png_msg =
                move_tr!("download-filetype", {"filetype" => tr!("png")});
        }
    "##;
        let (tr_macros, errors) = parse_file_content(content);

        assert_eq!(
            tr_macros,
            vec![
                tr_macro(
                    "move_tr",
                    "download-filetype",
                    vec!["filetype".to_string()]
                ),
                tr_macro("tr", "svg", Vec::new()),
                tr_macro("tr", "colored-svg", Vec::new()),
                tr_macro("tr", "pdf", Vec::new()),
                tr_macro("tr", "jpg", Vec::new()),
                tr_macro("tr", "png", Vec::new()),
            ]
        );
        assert_eq!(errors, Vec::<String>::new());
    }

#[test]
fn i18n_as_first_tr_macros_param() {
        let content = r##"
        fn App() -> impl IntoView {
            tr!(i18n, "select-a-language");
            move_tr!(i18n, "html-tag-lang-is", { "foo" => "value1", "bar" => "value2" });
        }
    "##;
        let (tr_macros, errors) = parse_file_content(content);

        assert_eq!(
            tr_macros,
            vec![
                tr_macro("tr", "select-a-language", Vec::new()),
                tr_macro(
                    "move_tr",
                    "html-tag-lang-is",
                    vec!["foo".to_string(), "bar".to_string()]
                ),
            ]
        );
        assert_eq!(errors, Vec::<String>::new());
    }

#[test]
fn use_rename_from_tr_macros() {
        // Forbid importing `tr` and `move_tr` renaming with `use ... as`
        let content = r##"
        use leptos_fluent::tr as tr_alias_1;
        use leptos_fluent::move_tr as move_tr_alias_1;
        use leptos_fluent::{tr as tr_alias_2, move_tr as move_tr_alias_2};

        fn App() -> impl IntoView {
            view! {
                <p>{move_tr!("select-a-language")}</p>
                <p>{move_tr!("html-tag-lang-is", { "foo" => "value1", "bar" => "value2" })}</p>
            }
        }
    "##;
        let (tr_macros, errors) = parse_file_content(content);

        assert_eq!(
            tr_macros,
            vec![
                tr_macro("move_tr", "select-a-language", Vec::new()),
                tr_macro(
                    "move_tr",
                    "html-tag-lang-is",
                    vec!["foo".to_string(), "bar".to_string()]
                ),
            ]
        );
        assert_eq!(
            errors,
            vec![
                "Importing `tr` as `tr_alias_1` is not allowed because breaks leptos-fluent's compile-time checking of translations.",
                "Importing `move_tr` as `move_tr_alias_1` is not allowed because breaks leptos-fluent's compile-time checking of translations.",
                "Importing `tr` as `tr_alias_2` is not allowed because breaks leptos-fluent's compile-time checking of translations.",
                "Importing `move_tr` as `move_tr_alias_2` is not allowed because breaks leptos-fluent's compile-time checking of translations.",
            ]
        );
    }

#[test]
fn use_rename_to_tr_macros_after_leptos_fluent_import() {
    let content = r##"
        use leptos_fluent::move_tr;
        use barbaz as tr;
    "##;
    let (tr_macros, errors) = parse_file_content(content);

    assert_eq!(tr_macros, Vec::new());
    assert_eq!(
        errors,
        vec![
            "Importing as `tr` is not allowed because breaks leptos-fluent's compile-time checking of translations.",
        ]
    );
}

#[test]
fn use_rename_to_tr_macros() {
        // Forbid importing renaming with `use ... as` `tr` and `move_tr`
        let content = r##"
        use foobar::foo as move_tr;
        use barbaz as tr;
        use tr;
        use move_tr;
        use foo::{tr, move_tr};

        fn App() -> impl IntoView {
            view! {
                <p>{move_tr!("select-a-language")}</p>
                <p>{move_tr!("html-tag-lang-is", { "foo" => "value1", "bar" => "value2" })}</p>
            }
        }
    "##;
        let (tr_macros, errors) = parse_file_content(content);

        assert_eq!(
            tr_macros,
            vec![
                tr_macro("move_tr", "select-a-language", Vec::new()),
                tr_macro(
                    "move_tr",
                    "html-tag-lang-is",
                    vec!["foo".to_string(), "bar".to_string()]
                ),
            ]
        );
        assert_eq!(
            errors,
            vec![
                "Importing as `move_tr` is not allowed because breaks leptos-fluent's compile-time checking of translations.",
                "Importing as `tr` is not allowed because breaks leptos-fluent's compile-time checking of translations.",
                "Importing `tr` is not allowed because breaks leptos-fluent's compile-time checking of translations.",
                "Importing `move_tr` is not allowed because breaks leptos-fluent's compile-time checking of translations.",
                "Importing `tr` is not allowed because breaks leptos-fluent's compile-time checking of translations.",
                "Importing `move_tr` is not allowed because breaks leptos-fluent's compile-time checking of translations.",
            ]
        );
    }

#[test]
fn use_rename_leptos_fluent() {
        // Forbid importing `leptos-fluent` renaming with `use ... as`
        let content = r##"
        use leptos_fluent as lf;
        use whatever::leptos_fluent as lf2;

        fn App() -> impl IntoView {
            view! {
                <p>{move_tr!("select-a-language")}</p>
                <p>{move_tr!("html-tag-lang-is", { "foo" => "value1", "bar" => "value2" })}</p>
            }
        }
    "##;
        let (tr_macros, errors) = parse_file_content(content);

        assert_eq!(
            tr_macros,
            vec![
                tr_macro("move_tr", "select-a-language", Vec::new()),
                tr_macro(
                    "move_tr",
                    "html-tag-lang-is",
                    vec!["foo".to_string(), "bar".to_string()]
                ),
            ]
        );
        assert_eq!(
            errors,
            vec![
                "Importing `leptos-fluent` as `lf` is not allowed because breaks leptos-fluent's compile-time checking of translations.",
                "Importing `leptos-fluent` as `lf2` is not allowed because breaks leptos-fluent's compile-time checking of translations.",
            ]
        );
    }

#[test]
fn tr_macros_pass() {
        let content = r##"
        use leptos_fluent::{expect_i18n, move_tr, tr};

        fn App() -> impl IntoView {
            let i18n = expect_i18n();
            _ = move_tr!("foo");

            let (foo, bar) = (false, true);

            _ = tr!(if foo {"foo1"} else {"bar1"});
            _ = tr!(if foo {"foo1"} else {"bar1"});
            _ = move_tr!(if foo {"foo2"} else {"bar2"});
            // i18n
            _ = tr!(i18n, if foo {"foo3"} else {"bar3"});
            _ = move_tr!(i18n, if foo {"foo4"} else {"bar4"});
            // args
            _ = tr!(
                if foo {
                    "foo5"
                } else {
                    "bar5"
                },
                { "foo6" => "value1", "bar6" => "value2" }
            );
            _ = move_tr!(
                if foo {
                    "foo7"
                } else {
                    "bar7"
                },
                { "foo8" => "value2", "bar8" => "value3" }
            );
            // i18n + args
            _ = tr!(
                i18n,
                if foo {
                    "foo9"
                } else {
                    "bar9"
                },
                { "foo10" => "value3", "bar10" => "value4" }
            );
            _ = move_tr!(
                i18n,
                if foo {
                    "foo11"
                } else {
                    "bar11"
                },
                { "foo12" => "value4", "bar12" => "value5" }
            );

            // else if
            _ = tr!(if foo {"foo13"} else if bar {"bar13"} else {"baz13"});
            _ = move_tr!(if foo {"foo14"} else if bar {"bar14"} else {"baz14"});
            // else if + args
            _ = tr!(
                if foo {
                    "foo15"
                } else if bar {
                    "bar15"
                } else {
                    "baz15"
                },
                { "foo16" => "value5", "bar16" => "value6" }
            );
            _ = move_tr!(
                if foo {
                    "foo17"
                } else if bar {
                    "bar17"
                } else {
                    "baz17"
                },
                { "foo18" => "value6", "bar18" => "value7" }
            );

            // tt as condition
            _ = tr!(
                if {signal.get() || fake_fn()} {"foo18"} else {"bar18"}
            );
            _ = move_tr!(
                if {signal.get() || fake_fn()} {"foo19"} else {"bar19"}
            );
            _ = tr!(
                if {other_signal.get() || other_fake_fn()} {"foo20"} else {"bar20"}
            );
            _ = move_tr!(
                if {other_signal.get() || other_fake_fn()} {"foo21"} else {"bar21"}
            );
        }
    "##;
        let (tr_macros, errors) = parse_file_content(content);

        assert_eq!(
            tr_macros,
            vec![
                tr_macro("move_tr", "foo", Vec::new()),
                tr_macro("tr", "foo1", Vec::new()),
                tr_macro("tr", "bar1", Vec::new()),
                tr_macro("move_tr", "foo2", Vec::new()),
                tr_macro("move_tr", "bar2", Vec::new()),
                tr_macro("tr", "foo3", Vec::new()),
                tr_macro("tr", "bar3", Vec::new()),
                tr_macro("move_tr", "foo4", Vec::new()),
                tr_macro("move_tr", "bar4", Vec::new()),
                tr_macro(
                    "tr",
                    "foo5",
                    vec!["foo6".to_string(), "bar6".to_string()]
                ),
                tr_macro(
                    "tr",
                    "bar5",
                    vec!["foo6".to_string(), "bar6".to_string()]
                ),
                tr_macro(
                    "move_tr",
                    "foo7",
                    vec!["foo8".to_string(), "bar8".to_string()]
                ),
                tr_macro(
                    "move_tr",
                    "bar7",
                    vec!["foo8".to_string(), "bar8".to_string()]
                ),
                tr_macro(
                    "tr",
                    "foo9",
                    vec!["foo10".to_string(), "bar10".to_string()]
                ),
                tr_macro(
                    "tr",
                    "bar9",
                    vec!["foo10".to_string(), "bar10".to_string()]
                ),
                tr_macro(
                    "move_tr",
                    "foo11",
                    vec!["foo12".to_string(), "bar12".to_string()]
                ),
                tr_macro(
                    "move_tr",
                    "bar11",
                    vec!["foo12".to_string(), "bar12".to_string()]
                ),
                tr_macro("tr", "foo13", Vec::new()),
                tr_macro("tr", "bar13", Vec::new()),
                tr_macro("tr", "baz13", Vec::new()),
                tr_macro("move_tr", "foo14", Vec::new()),
                tr_macro("move_tr", "bar14", Vec::new()),
                tr_macro("move_tr", "baz14", Vec::new()),
                tr_macro(
                    "tr",
                    "foo15",
                    vec!["foo16".to_string(), "bar16".to_string()]
                ),
                tr_macro(
                    "tr",
                    "bar15",
                    vec!["foo16".to_string(), "bar16".to_string()]
                ),
                tr_macro(
                    "tr",
                    "baz15",
                    vec!["foo16".to_string(), "bar16".to_string()]
                ),
                tr_macro(
                    "move_tr",
                    "foo17",
                    vec!["foo18".to_string(), "bar18".to_string()]
                ),
                tr_macro(
                    "move_tr",
                    "bar17",
                    vec!["foo18".to_string(), "bar18".to_string()]
                ),
                tr_macro(
                    "move_tr",
                    "baz17",
                    vec!["foo18".to_string(), "bar18".to_string()]
                ),
                tr_macro("tr", "foo18", Vec::new()),
                tr_macro("tr", "bar18", Vec::new()),
                tr_macro("move_tr", "foo19", Vec::new()),
                tr_macro("move_tr", "bar19", Vec::new()),
                tr_macro("tr", "foo20", Vec::new()),
                tr_macro("tr", "bar20", Vec::new()),
                tr_macro("move_tr", "foo21", Vec::new()),
                tr_macro("move_tr", "bar21", Vec::new()),
            ]
        );
        assert!(errors.is_empty());
    }

#[test]
fn tr_macros_attributes() {
        let content = r##"
        use leptos_fluent::{tr, move_tr, expect_i18n};

        #[component]
        fn App() -> impl IntoView {
            let i18n = expect_i18n();
            let (foo, bar) = (true, false);

            _ = tr!(
                #[allow(unused_braces)]
                if foo {"foo1"} else {"bar1"}
            );

            _ = move_tr!(
                #[allow(unused_braces)]
                if foo {"foo2"} else {"bar2"}
            );

            _ = tr!(
                #[allow(unused_braces, unused_parens)]
                if foo {
                    "foo3"
                } else {
                    "bar3"
                },
                { "foo4" => "value1", "bar4" => "value2" }
            );
            _ = move_tr!(
                if foo {"foo5"} else {"bar5"}
                #[allow(unused_braces, unused_parens)]
                { "foo6" => {"value1"}, "bar6" => ("value2") }
            );
            _ = tr!(
                "foo7",
                #[allow(unused_braces, unused_parens)]
                { "foo8" => {"value1"}, "bar8" => ("value2") }
            );

            _ = move_tr!(
                i18n,
                "foo9",
                #[allow(unused_braces, unused_parens)]
                { "foo10" => {"value1"}, "bar10" => ("value2") }
            );

            _ = tr!(
                i18n,
                #[allow(unused_braces, unused_parens)]
                if foo {"foo11"} else {"bar11"}
                #[allow(unused_braces, unused_parens)]
                { "foo12" => {"value1"}, "bar12" => ("value2") }
            );

            _ = move_tr!(
                i18n,
                #[allow(unused_braces, unused_parens)]
                if foo {"foo13"} else if bar {"bar13"} else {"baz13"}
                #[allow(unused_braces, unused_parens)]
                { "foo14" => {"value1"}, "bar14" => ("value2") }
            );

            // is not valid to use attrs on literal and the macros
            // parser can't parse the next syntax:
            _ = tr!(
                #[allow(unused_braces, unused_parens)]
                "foo15",
                #[allow(unused_braces, unused_parens)]
                { "foo16" => {"value1"}, "bar16" => ("value2") }
            );

            view! {
                <p></p>
            }
        }
    "##;
        let (tr_macros, errors) = parse_file_content(content);

        assert_eq!(
            tr_macros,
            vec![
                tr_macro("tr", "foo1", Vec::new()),
                tr_macro("tr", "bar1", Vec::new()),
                tr_macro("move_tr", "foo2", Vec::new()),
                tr_macro("move_tr", "bar2", Vec::new()),
                tr_macro(
                    "tr",
                    "foo3",
                    vec!["foo4".to_string(), "bar4".to_string()]
                ),
                tr_macro(
                    "tr",
                    "bar3",
                    vec!["foo4".to_string(), "bar4".to_string()]
                ),
                tr_macro(
                    "move_tr",
                    "foo5",
                    vec!["foo6".to_string(), "bar6".to_string()]
                ),
                tr_macro(
                    "move_tr",
                    "bar5",
                    vec!["foo6".to_string(), "bar6".to_string()]
                ),
                tr_macro(
                    "tr",
                    "foo7",
                    vec!["foo8".to_string(), "bar8".to_string()]
                ),
                tr_macro(
                    "move_tr",
                    "foo9",
                    vec!["foo10".to_string(), "bar10".to_string()]
                ),
                tr_macro(
                    "tr",
                    "foo11",
                    vec!["foo12".to_string(), "bar12".to_string()]
                ),
                tr_macro(
                    "tr",
                    "bar11",
                    vec!["foo12".to_string(), "bar12".to_string()]
                ),
                tr_macro(
                    "move_tr",
                    "foo13",
                    vec!["foo14".to_string(), "bar14".to_string()]
                ),
                tr_macro(
                    "move_tr",
                    "bar13",
                    vec!["foo14".to_string(), "bar14".to_string()]
                ),
                tr_macro(
                    "move_tr",
                    "baz13",
                    vec!["foo14".to_string(), "bar14".to_string()]
                ),
                /* This is not catched: tr_macro(
                    "tr",
                    "foo15",
                    vec!["foo16".to_string(), "bar16".to_string()]
                ),*/
            ],
        );
        assert!(errors.is_empty());
    }

#[test]
fn context_as_first_macro_parameters() {
        let content = r##"
        fn App() -> impl IntoView {
            tr!(i18n, "select-a-language");
            tr!(i18n, "html-tag-lang-is", { "foo" => "value1", "bar" => "value2" });
        }
    "##;
        let (tr_macros, errors) = parse_file_content(content);

        assert_eq!(
            tr_macros,
            vec![
                tr_macro("tr", "select-a-language", Vec::new()),
                tr_macro(
                    "tr",
                    "html-tag-lang-is",
                    vec!["foo".to_string(), "bar".to_string()]
                ),
            ]
        );
        assert_eq!(errors, Vec::<String>::new());
    }

#[test]
fn tr_macros_from_view() {
        let content = r##"
        fn App() -> impl IntoView {
            view! {
                <p>{move_tr!("select-a-language")}</p>
                <p>{move_tr!("html-tag-lang-is", { "foo" => "value1", "bar" => "value2" })}</p>
            }
        }
    "##;
        let (tr_macros, _errors) = parse_file_content(content);

        assert_eq!(
            tr_macros,
            vec![
                tr_macro("move_tr", "select-a-language", Vec::new()),
                tr_macro(
                    "move_tr",
                    "html-tag-lang-is",
                    vec!["foo".to_string(), "bar".to_string(),]
                ),
            ]
        );
    }

#[test]
fn tr_macros_from_closure() {
        let content = r##"
        fn App() -> impl IntoView {
            let closure_a = move || tr!("select-a-language");
            let closure_b = move || {
                tr!("html-tag-lang-is", { "foo" => "value1", "bar" => "value2" });
            };
            let closure_c = || tr!("select-another-language");
            let closure_d = || {
                tr!("other-html-tag-lang-is", { "foo" => "value1", "bar" => "value2" });
            };
        }
    "##;
        let (tr_macros, _errors) = parse_file_content(content);

        assert_eq!(
            tr_macros,
            vec![
                tr_macro("tr", "select-a-language", Vec::new()),
                tr_macro(
                    "tr",
                    "html-tag-lang-is",
                    vec!["foo".to_string(), "bar".to_string(),]
                ),
                tr_macro("tr", "select-another-language", Vec::new()),
                tr_macro(
                    "tr",
                    "other-html-tag-lang-is",
                    vec!["foo".to_string(), "bar".to_string(),]
                ),
            ]
        );
    }

#[test]
fn tr_macros_from_stmt_macros() {
        let content = r##"
        fn App() -> impl IntoView {
            // for completeness, this is not idiomatic
            tr!("select-a-language");
            tr!("html-tag-lang-is", { "foo" => "value1", "bar" => "value2" });
        }
    "##;
        let (tr_macros, _errors) = parse_file_content(content);

        assert_eq!(
            tr_macros,
            vec![
                tr_macro("tr", "select-a-language", Vec::new()),
                tr_macro(
                    "tr",
                    "html-tag-lang-is",
                    vec!["foo".to_string(), "bar".to_string(),]
                ),
            ]
        );
    }

#[test]
fn tr_macros_from_stmt() {
        let content = r##"
        fn App() -> impl IntoView {
            let a = tr!("select-a-language");
            let b = tr!("html-tag-lang-is", { "foo" => "value1", "bar" => "value2" });
        }
    "##;
        let (tr_macros, _errors) = parse_file_content(content);

        assert_eq!(
            tr_macros,
            vec![
                tr_macro("tr", "select-a-language", Vec::new()),
                tr_macro(
                    "tr",
                    "html-tag-lang-is",
                    vec!["foo".to_string(), "bar".to_string(),]
                ),
            ]
        );
    }
