use groundhog::cli::commands::explain::execute;
use groundhog::cli::commands::get_command_name;
use groundhog::cli::{Cli, Commands};

#[test]
fn test_explain_command_no_topic() {
    let result = execute(None);
    assert!(result.is_ok());
}

#[test]
fn explain_test_explain_command_with_topic() {
    let result = execute(Some("rust".to_string()));
    assert!(result.is_ok());
}

#[test]
fn explain_prints_the_greeting() {
    assert_eq!(execute(None).unwrap(), "hello world");
}

#[test]
fn explain_prints_the_topic() {
    assert_eq!(
        execute(Some("rust".to_string())).unwrap(),
        "hello world - explaining: rust"
    );
    assert_eq!(execute(Some(String::new())).unwrap(), "hello world - explaining: ");
}

#[test]
fn command_names() {
    assert_eq!(get_command_name(&Commands::Explain { topic: None }), "explain");
    assert_eq!(
        get_command_name(&Commands::Explain { topic: Some("x".to_string()) }),
        "explain"
    );
    assert_eq!(get_command_name(&Commands::Tui { debug: false }), "tui");
    assert_eq!(get_command_name(&Commands::Tui { debug: true }), "tui");
}

#[test]
fn parsed_command_line_holds_its_values() {
    let cli = Cli {
        verbose: 2,
        quiet: false,
        config: Some("custom.toml".to_string()),
        command: Commands::Tui { debug: true },
    };
    assert_eq!(cli.verbose, 2);
    assert!(!cli.quiet);
    assert_eq!(cli.config.as_deref(), Some("custom.toml"));
    assert_eq!(get_command_name(&cli.command), "tui");
}
