//! The messages of the demonstration.
//!
//! The functions that print them are called from C, which takes the number
//! of bytes that were printed as the return value.

use vstd::prelude::*;

verus! {

/// The message of the first function, with `msg` embedded.
pub open spec fn hello_world_1_text(msg: Seq<char>) -> Seq<char> {
    "Hello world 1, printed in Rust, "@ + msg + "."@
}

/// The message of the callback of the second function, with `msg` embedded.
pub open spec fn hello_world_2_callback_text(msg: Seq<char>) -> Seq<char> {
    "Hello world 2 callback, printed in Rust, "@ + msg + "."@
}

/// Writes the message of the first function, with `msg` embedded.
pub fn hello_world_rust_1_message(msg: &str) -> (text: String)
    ensures
        text@ == hello_world_1_text(msg@),
{
    String::from_str("Hello world 1, printed in Rust, ").concat(msg).concat(".")
}

/// Writes the message of the callback of the second function, with `msg`
/// embedded.
pub fn hello_world_rust_2_callback_message(msg: &str) -> (text: String)
    ensures
        text@ == hello_world_2_callback_text(msg@),
{
    String::from_str("Hello world 2 callback, printed in Rust, ").concat(msg).concat(".")
}

/// The length of a message in bytes, as C takes it.  There is none where
/// the length is more than a C integer holds.
pub fn message_length(text: &str) -> (length: Option<i32>)
    ensures
        match length {
            Some(bytes) => bytes == text.len(),
            None => text.len() > i32::MAX,
        },
{
    let bytes: usize = text.len();
    if bytes <= 0x7fff_ffff {
        Some(bytes as i32)
    } else {
        None
    }
}

} // verus!
