use aider_script::aider_command::AiderCommand;
use aider_script::errors::TemplateError;

#[test]
fn test_message_constructor() {
    let command = AiderCommand::message("Test message".to_string());

    assert_eq!(command.message, "Test message");
    assert_eq!(command.read_only, Vec::<String>::new());
    assert_eq!(command.edit, Vec::<String>::new());
}

#[test]
fn test_missing_argument_description() {
    let err = TemplateError::MissingArgument("FUNCTION".to_string());

    assert_eq!(err.describe(), "Missing expected argument \"FUNCTION\".");
}

#[test]
fn test_render_error_description_carries_the_message() {
    let err = TemplateError::Render("engine message".to_string());

    assert_eq!(err.describe(), "engine message");
}

#[test]
fn test_frontmatter_error_description_carries_the_message() {
    let err = TemplateError::FrontmatterParse("parser message".to_string());

    assert_eq!(err.describe(), "parser message");
}
