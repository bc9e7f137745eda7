use file_bridge::bridge::{format_read_error, read_file_bytes_result};

#[test]
fn ok_outcome_passes_hello_bytes_through() {
    let content: Vec<u8> = vec![0x48, 0x65, 0x6C, 0x6C, 0x6F];
    let result = read_file_bytes_result(Ok(content.clone()));
    assert_eq!(result, Ok(content));
}

#[test]
fn ok_outcome_passes_empty_file_through() {
    let result = read_file_bytes_result(Ok(Vec::new()));
    assert_eq!(result, Ok(Vec::new()));
}

#[test]
fn ok_outcome_passes_single_byte_through() {
    let result = read_file_bytes_result(Ok(vec![0x00]));
    assert_eq!(result, Ok(vec![0x00]));
}

#[test]
fn ok_outcome_passes_large_content_through() {
    let mut content: Vec<u8> = Vec::with_capacity(3_000_000);
    let mut i: usize = 0;
    while i < 3_000_000 {
        content.push((i % 251) as u8);
        i += 1;
    }
    let result = read_file_bytes_result(Ok(content.clone()));
    assert_eq!(result, Ok(content));
}

#[test]
fn missing_file_outcome_formats_error() {
    let cause = "No such file or directory (os error 2)".to_string();
    let result = read_file_bytes_result(Err(cause));
    assert_eq!(
        result,
        Err("Failed to read file: No such file or directory (os error 2)".to_string())
    );
}

#[test]
fn error_message_begins_with_fixed_prefix() {
    let result = read_file_bytes_result(Err("anything at all".to_string()));
    let message = result.unwrap_err();
    assert!(message.starts_with("Failed to read file:"));
}

#[test]
fn directory_outcome_gives_error_not_bytes() {
    let cause = "Is a directory (os error 21)".to_string();
    let result = read_file_bytes_result(Err(cause));
    assert!(result.is_err());
}

#[test]
fn equal_outcomes_give_identical_results() {
    let content: Vec<u8> = vec![1, 2, 3, 4, 5];
    let first = read_file_bytes_result(Ok(content.clone()));
    let second = read_file_bytes_result(Ok(content.clone()));
    assert_eq!(first, second);

    let first_err = read_file_bytes_result(Err("Permission denied (os error 13)".to_string()));
    let second_err = read_file_bytes_result(Err("Permission denied (os error 13)".to_string()));
    assert_eq!(first_err, second_err);
}

#[test]
fn format_read_error_appends_cause_to_prefix() {
    let message = format_read_error("Permission denied (os error 13)");
    assert_eq!(message, "Failed to read file: Permission denied (os error 13)");
}

#[test]
fn format_read_error_of_empty_cause_is_bare_prefix() {
    let message = format_read_error("");
    assert_eq!(message, "Failed to read file: ");
}
