use kusabira::hello_world::{
    hello_world_rust_1_message, hello_world_rust_2_callback_message, message_length,
};
use kusabira::imported::cw_return_values;
use kusabira::imported::wrapper::{LibCwError, LibCwResult};

#[test]
fn test_lib_cw_error() {
    let lib_cw_error = LibCwError {};

    println!("lib_cw_error = {}.", lib_cw_error.to_string());
    println!("lib_cw_error = {:?}.", lib_cw_error);
    assert_eq!(lib_cw_error.to_string(), "LibCwError");
}

#[test]
fn test_lib_cw_result() {
    let lib_cw_result_ok: LibCwResult = cw_return_values(1).into();
    let lib_cw_result_err: LibCwResult = cw_return_values(0).into();

    assert!(lib_cw_result_ok.is_ok());
    assert!(lib_cw_result_err.is_err());
}

#[test]
fn test_lib_cw_result_of_any_nonzero_value() {
    let largest: LibCwResult = cw_return_values(u32::MAX).into();
    assert_eq!(largest, Ok(()));
    let two: LibCwResult = LibCwResult::from(cw_return_values(2));
    assert_eq!(two, Ok(()));
    let zero: LibCwResult = LibCwResult::from(cw_return_values(0));
    assert_eq!(zero, Err(LibCwError {}));
}

#[test]
fn test_hello_world_messages() {
    let msg_str = String::from("called for testing");
    let format = "Hello world 1, printed in Rust, .";
    let text = hello_world_rust_1_message(&msg_str);
    assert_eq!(text, "Hello world 1, printed in Rust, called for testing.");
    assert_eq!(
        message_length(&text),
        Some((format.len() + msg_str.len()) as i32)
    );

    let format = "Hello world 2 callback, printed in Rust, .";
    let text = hello_world_rust_2_callback_message(&msg_str);
    assert_eq!(
        text,
        "Hello world 2 callback, printed in Rust, called for testing."
    );
    assert_eq!(
        message_length(&text),
        Some((format.len() + msg_str.len()) as i32)
    );

    assert_eq!(message_length(""), Some(0));
    assert_eq!(message_length("\u{e9}"), Some(2));
}
