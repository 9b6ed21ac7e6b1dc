use aider_script::command_template::CommandTemplate;
use aider_script::errors::TemplateError;

#[test]
fn command_template_test_parse_markdown_with_frontmatter() {
    let markdown = "---\nargs:\n  - FUNCTION\nread:\n  - src/str.rs\n  - src/args.rs\nedit:\n  - src/main.rs\n---\n# Add unit tests for FUNCTION\n";

    let doc = CommandTemplate::parse_with_name(markdown, "01_args.md").unwrap();

    assert_eq!(doc.argument_names(), &vec!["FUNCTION"]);
    assert_eq!(doc.read_only(), &vec!["src/str.rs", "src/args.rs"]);
    assert_eq!(doc.edit(), &vec!["src/main.rs"]);
}

#[test]
fn errors_if_required_args_are_not_given() {
    let markdown = "---\nargs:\n  - FUNCTION\n---\n# Add unit tests for {{FUNCTION}}\n";

    let doc = CommandTemplate::parse_with_name(markdown, "01_args.md").unwrap();

    let cmd = doc.apply_args(&vec![]).unwrap_err();

    assert!(cmd.describe() == "Missing expected argument \"FUNCTION\".");
}

#[test]
fn test_applies_given_arguments_to_the_template() {
    let markdown = "---\nargs:\n  - FUNCTION\n---\n# Add unit tests for {{FUNCTION}}\n\nRead `{{FUNCTION}}` and think about how to test it.\n";

    let doc = CommandTemplate::parse_with_name(markdown, "01_args.md").unwrap();

    let cmd = doc.apply_args(&vec!["my_func_1".to_string()]).unwrap();

    assert_eq!(
        cmd.message,
        "# Add unit tests for my_func_1\n\nRead `my_func_1` and think about how to test it."
    );
}

#[test]
fn test_templates_file_paths() {
    let markdown = r#"---
args:
  - FUNCTION
read:
  - "src/{{ FUNCTION }}.rs"
edit:
  - "src/{{ FUNCTION }}_test.rs"
---
Test template"#;

    let doc = CommandTemplate::parse_with_name(markdown, "test_template").unwrap();
    let cmd = doc.apply_args(&vec!["utils".to_string()]).unwrap();

    assert_eq!(cmd.read_only, vec!["src/utils.rs"]);
    assert_eq!(cmd.edit, vec!["src/utils_test.rs"]);
}

#[test]
fn test_casing_filters() {
    let markdown = "---\nargs:\n  - NAME\n---\n- Create a new file called `src/component/{{ NAME | kebab }}.tsx`\n- Add a React component in that file which calls the `use{{ NAME | pascal }}Query()` hook and renders the result\n- Render some text above the result saying \"Response from {{ NAME }}\"\n\nSnake case for the hell of it: {{ NAME | snake }}\n";

    let doc = CommandTemplate::parse_with_name(markdown, "02_casing_filters.md").unwrap();

    let cmd = doc.apply_args(&vec!["myQueryName".to_string()]).unwrap();

    assert_eq!(
        cmd.message,
        "- Create a new file called `src/component/my-query-name.tsx`\n- Add a React component in that file which calls the `useMyQueryNameQuery()` hook and renders the result\n- Render some text above the result saying \"Response from myQueryName\"\n\nSnake case for the hell of it: my_query_name"
    );
}

#[test]
fn test_camel_filter_in_template() {
    let markdown = "---\nargs:\n  - NAME\n---\n{{ NAME | camel }}";

    let doc = CommandTemplate::parse_with_name(markdown, "camel.md").unwrap();
    let cmd = doc.apply_args(&vec!["MyQueryName".to_string()]).unwrap();

    assert_eq!(cmd.message, "myQueryName");
}

#[test]
fn test_end_to_end_example() {
    let markdown = "---\nargs:\n  - FUNCTION\n---\n# Add unit tests for {{FUNCTION}}";

    let doc = CommandTemplate::parse_with_name(markdown, "template").unwrap();
    let cmd = doc.apply_args(&vec!["foo".to_string()]).unwrap();

    assert_eq!(cmd.message, "# Add unit tests for foo");
    assert_eq!(cmd.read_only, Vec::<String>::new());
    assert_eq!(cmd.edit, Vec::<String>::new());
}

#[test]
fn test_missing_argument_names_the_first_unbound_name() {
    let markdown = "---\nargs:\n  - FIRST\n  - SECOND\n  - THIRD\n---\n{{ FIRST }}";

    let doc = CommandTemplate::parse_with_name(markdown, "template").unwrap();
    let err = doc.apply_args(&vec!["one".to_string()]).unwrap_err();

    match err {
        TemplateError::MissingArgument(name) => assert_eq!(name, "SECOND"),
        _ => panic!("expected a missing-argument error"),
    }
}

#[test]
fn test_excess_arguments_are_ignored() {
    let markdown = "---\nargs:\n  - NAME\n---\nHello {{ NAME }}";

    let doc = CommandTemplate::parse_with_name(markdown, "template").unwrap();
    let exact = doc.apply_args(&vec!["world".to_string()]).unwrap();
    let excess = doc
        .apply_args(&vec!["world".to_string(), "ignored".to_string(), "extra".to_string()])
        .unwrap();

    assert_eq!(exact.message, "Hello world");
    assert_eq!(excess.message, "Hello world");
    assert_eq!(exact.read_only, excess.read_only);
    assert_eq!(exact.edit, excess.edit);
}

#[test]
fn test_paths_and_body_share_bound_values() {
    let markdown = "---\nargs:\n  - X\nread:\n  - \"a/{{X}}.t\"\n---\nHi {{X}}";

    let doc = CommandTemplate::parse_with_name(markdown, "template").unwrap();
    let cmd = doc.apply_args(&vec!["q".to_string()]).unwrap();

    assert_eq!(cmd.message, "Hi q");
    assert_eq!(cmd.read_only, vec!["a/q.t"]);
    assert_eq!(cmd.edit, Vec::<String>::new());
}

#[test]
fn test_rendering_twice_is_identical() {
    let markdown = "---\nargs:\n  - NAME\nread:\n  - \"src/{{ NAME | snake }}.rs\"\nedit:\n  - \"tests/{{ NAME | kebab }}.rs\"\n---\nDocument {{ NAME | pascal }} twice";

    let doc = CommandTemplate::parse_with_name(markdown, "template").unwrap();
    let first = doc.apply_args(&vec!["someName".to_string()]).unwrap();
    let second = doc.apply_args(&vec!["someName".to_string()]).unwrap();

    assert_eq!(first.message, second.message);
    assert_eq!(first.read_only, second.read_only);
    assert_eq!(first.edit, second.edit);
}

#[test]
fn test_blank_frontmatter_yields_empty_lists() {
    let markdown = "Just a body with no frontmatter at all.";

    let doc = CommandTemplate::parse_with_name(markdown, "template").unwrap();

    assert_eq!(doc.argument_names(), &Vec::<String>::new());
    assert_eq!(doc.read_only(), &Vec::<String>::new());
    assert_eq!(doc.edit(), &Vec::<String>::new());

    let cmd = doc.apply_args(&vec![]).unwrap();
    assert_eq!(cmd.message, "Just a body with no frontmatter at all.");
}

#[test]
fn test_non_string_entries_are_skipped() {
    let markdown = "---\nargs:\n  - NAME\n  - 42\n  - OTHER\n---\n{{ NAME }} and {{ OTHER }}";

    let doc = CommandTemplate::parse_with_name(markdown, "template").unwrap();

    assert_eq!(doc.argument_names(), &vec!["NAME", "OTHER"]);

    let cmd = doc
        .apply_args(&vec!["first".to_string(), "second".to_string()])
        .unwrap();
    assert_eq!(cmd.message, "first and second");
}

#[test]
fn test_invalid_frontmatter_is_a_parse_error() {
    let markdown = "---\nargs: [unclosed\n---\nbody";

    let err = CommandTemplate::parse_with_name(markdown, "template").unwrap_err();

    match err {
        TemplateError::FrontmatterParse(_) => {},
        _ => panic!("expected a frontmatter parse error"),
    }
}

#[test]
fn test_malformed_body_template_is_a_render_error() {
    let markdown = "---\nargs:\n  - NAME\n---\nHello {{ NAME ";

    let doc = CommandTemplate::parse_with_name(markdown, "template").unwrap();
    let err = doc.apply_args(&vec!["world".to_string()]).unwrap_err();

    match err {
        TemplateError::Render(_) => {},
        _ => panic!("expected a render error"),
    }
}

#[test]
fn test_unknown_filter_is_a_render_error() {
    let markdown = "---\nargs:\n  - NAME\n---\nHello {{ NAME | nosuchfilter }}";

    let doc = CommandTemplate::parse_with_name(markdown, "template").unwrap();
    let err = doc.apply_args(&vec!["world".to_string()]).unwrap_err();

    match err {
        TemplateError::Render(_) => {},
        _ => panic!("expected a render error"),
    }
}

#[test]
fn test_malformed_path_template_is_a_render_error() {
    let markdown = "---\nargs:\n  - NAME\nread:\n  - \"src/{{ NAME \"\n---\nHello {{ NAME }}";

    let doc = CommandTemplate::parse_with_name(markdown, "template").unwrap();
    let err = doc.apply_args(&vec!["world".to_string()]).unwrap_err();

    match err {
        TemplateError::Render(_) => {},
        _ => panic!("expected a render error"),
    }
}

#[test]
fn test_repeated_argument_name_takes_the_later_value() {
    let markdown = "---\nargs:\n  - X\n  - X\n---\n{{ X }}";

    let doc = CommandTemplate::parse_with_name(markdown, "template").unwrap();
    let cmd = doc
        .apply_args(&vec!["first".to_string(), "second".to_string()])
        .unwrap();

    assert_eq!(cmd.message, "second");
}

#[test]
fn test_comment_only_frontmatter_yields_empty_lists() {
    let markdown = "---\n# nothing declared here\n---\nbody text";

    let doc = CommandTemplate::parse_with_name(markdown, "template").unwrap();

    assert_eq!(doc.argument_names(), &Vec::<String>::new());
    let cmd = doc.apply_args(&vec![]).unwrap();
    assert_eq!(cmd.message, "body text");
}

#[test]
fn test_whitespace_only_frontmatter_yields_empty_lists() {
    let markdown = "---\n   \n---\nbody text";

    let doc = CommandTemplate::parse_with_name(markdown, "template").unwrap();

    assert_eq!(doc.argument_names(), &Vec::<String>::new());
    let cmd = doc.apply_args(&vec![]).unwrap();
    assert_eq!(cmd.message, "body text");
}

#[test]
fn test_date_filter_is_disabled_and_errors() {
    let markdown = "---\nargs:\n  - NAME\n---\n{{ 10000000000000 | date }}";

    let doc = CommandTemplate::parse_with_name(markdown, "template").unwrap();
    let err = doc.apply_args(&vec!["unused".to_string()]).unwrap_err();

    match err {
        TemplateError::Render(_) => {},
        _ => panic!("expected a render error"),
    }
}

#[test]
fn test_range_function_is_disabled_and_errors() {
    let markdown = "{{ range(end=1, step_by=0) }}";

    let doc = CommandTemplate::parse_with_name(markdown, "template").unwrap();
    let err = doc.apply_args(&vec![]).unwrap_err();

    match err {
        TemplateError::Render(_) => {},
        _ => panic!("expected a render error"),
    }
}

#[test]
fn test_clock_and_environment_functions_are_disabled() {
    let markdown = "{{ now() }}";

    let doc = CommandTemplate::parse_with_name(markdown, "template").unwrap();
    let err = doc.apply_args(&vec![]).unwrap_err();

    match err {
        TemplateError::Render(_) => {},
        _ => panic!("expected a render error"),
    }
}

#[test]
fn test_modulo_arithmetic_is_rejected() {
    let markdown = "{{ (0-9223372036854775807-1) % -1 }}";

    let doc = CommandTemplate::parse_with_name(markdown, "template").unwrap();
    let err = doc.apply_args(&vec![]).unwrap_err();

    assert_eq!(
        err.describe(),
        "unsupported template syntax: only {{ NAME }} interpolations with the kebab, pascal, camel and snake filters are available"
    );
}

#[test]
fn test_recursive_macros_are_rejected() {
    let markdown = "{% import \"template\" as m %}{{ m::boom() }}";

    let doc = CommandTemplate::parse_with_name(markdown, "template").unwrap();
    let err = doc.apply_args(&vec![]).unwrap_err();

    match err {
        TemplateError::Render(_) => {},
        _ => panic!("expected a render error"),
    }
}

#[test]
fn test_statements_are_rejected() {
    let markdown = "{% set x = 1 %}{{ x }}";

    let doc = CommandTemplate::parse_with_name(markdown, "template").unwrap();
    let err = doc.apply_args(&vec![]).unwrap_err();

    match err {
        TemplateError::Render(_) => {},
        _ => panic!("expected a render error"),
    }
}

#[test]
fn test_builtin_filters_are_rejected() {
    let markdown = "---\nargs:\n  - NAME\n---\n{{ NAME | upper }}";

    let doc = CommandTemplate::parse_with_name(markdown, "template").unwrap();
    let err = doc.apply_args(&vec!["hello".to_string()]).unwrap_err();

    match err {
        TemplateError::Render(_) => {},
        _ => panic!("expected a render error"),
    }
}

#[test]
fn test_float_literals_are_rejected() {
    let markdown = "{{ 1.5 }}";

    let doc = CommandTemplate::parse_with_name(markdown, "template").unwrap();
    let err = doc.apply_args(&vec![]).unwrap_err();

    match err {
        TemplateError::Render(_) => {},
        _ => panic!("expected a render error"),
    }
}

#[test]
fn test_plain_text_with_braces_and_percent_is_fine() {
    let markdown = "100% of { this } text } is plain, and }} stays put.";

    let doc = CommandTemplate::parse_with_name(markdown, "template").unwrap();
    let cmd = doc.apply_args(&vec![]).unwrap();

    assert_eq!(cmd.message, "100% of { this } text } is plain, and }} stays put.");
}
