use groundhog::domain::models::{CommandContext, CommandResult};
use std::time::Duration;

#[test]
fn test_command_context_new() {
    let context = CommandContext::new("explain");
    assert_eq!(context.command_name, "explain");
    assert!(context.user_input.is_none());
    assert!(context.start_time <= std::time::SystemTime::now());
}

#[test]
fn test_command_context_with_input() {
    let context = CommandContext::new("explain").with_input("test input");

    assert_eq!(context.command_name, "explain");
    assert_eq!(context.user_input, Some("test input".to_string()));
}

#[test]
fn test_command_result_success() {
    let result = CommandResult::success();
    assert!(result.is_success());
    assert!(!result.is_failure());
    assert!(result.message.is_none());
    assert_eq!(result.duration_ms, 0);
}

#[test]
fn test_command_result_success_with_message() {
    let result = CommandResult::success_with_message("Operation completed");
    assert!(result.is_success());
    assert_eq!(result.message, Some("Operation completed".to_string()));
}

#[test]
fn test_command_result_failure() {
    let result = CommandResult::failure("Something went wrong");
    assert!(result.is_failure());
    assert!(!result.is_success());
    assert_eq!(result.message, Some("Something went wrong".to_string()));
}

#[test]
fn test_command_result_with_duration() {
    let duration = Duration::from_millis(150);
    let result = CommandResult::success().with_duration(duration);
    assert_eq!(result.duration_ms, 150);
}

#[test]
fn context_keeps_start_time_when_input_is_set() {
    let context = CommandContext::new("tui");
    let started = context.start_time;
    let context = context.with_input("first").with_input("second");
    assert_eq!(context.start_time, started);
    assert_eq!(context.user_input, Some("second".to_string()));
}

#[test]
fn context_start_is_not_before_its_creation() {
    let before = std::time::SystemTime::now();
    let context = CommandContext::new("explain");
    assert!(before <= context.start_time);
}

#[test]
fn elapsed_is_a_short_span_right_after_the_start() {
    let context = CommandContext::new("explain");
    let elapsed = context.elapsed();
    assert!(elapsed < Duration::from_secs(3600));
}

#[test]
fn elapsed_of_a_start_in_the_future_is_empty() {
    let mut context = CommandContext::new("explain");
    context.start_time = std::time::SystemTime::now() + Duration::from_secs(3600);
    assert_eq!(context.elapsed(), Duration::default());
}

#[test]
fn duration_keeps_success_and_message() {
    let result = CommandResult::failure("no").with_duration(Duration::from_micros(2_999));
    assert!(result.is_failure());
    assert_eq!(result.message, Some("no".to_string()));
    assert_eq!(result.duration_ms, 2);
}

#[test]
fn duration_is_reduced_to_64_bits() {
    let result = CommandResult::success().with_duration(Duration::MAX);
    let millis: u128 = Duration::MAX.as_millis();
    assert_eq!(result.duration_ms as u128, millis % (1u128 << 64));
}

#[test]
fn copy_of_a_context_starts_at_the_same_time() {
    let context = CommandContext::new("explain").with_input("why");
    let copy = context.clone();
    assert_eq!(copy.start_time, context.start_time);
    assert_eq!(copy.command_name, "explain");
    assert_eq!(copy.user_input, Some("why".to_string()));
}

#[test]
fn measured_span_is_kept_and_a_missing_one_is_empty() {
    let measured = Duration::from_millis(1234);
    assert_eq!(CommandContext::span_or_empty(Some(measured)), measured);
    assert_eq!(CommandContext::span_or_empty(None), Duration::ZERO);
    assert_eq!(CommandContext::span_or_empty(None).as_millis(), 0);
}
