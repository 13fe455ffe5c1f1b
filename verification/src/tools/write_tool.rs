//! The file writer of the first tool set: writing the file is left to the
//! caller; this is the report it gives.
use vstd::prelude::*;
use crate::text::{decimal, decimal_chars, extend_chars, extend_str, str_byte_len, string_of, utf8_fits, utf8_len};

verus! {

/// File writing tool.
#[derive(Debug, Clone, Copy)]
pub struct WriteTool;

impl WriteTool {
    /// The report after writing `content` to `file_path`: the number of
    /// bytes written and the path.
    pub fn written_message(content: &str, file_path: &str) -> (r: String)
        ensures
            r@ == "Successfully wrote "@ + decimal(utf8_len(content@)) + " bytes to "@ + file_path@,
    {
        utf8_fits(content);
        let n = str_byte_len(content);
        let mut m: Vec<char> = Vec::new();
        extend_str(&mut m, "Successfully wrote ");
        extend_chars(&mut m, decimal_chars(n as u64).as_slice());
        extend_str(&mut m, " bytes to ");
        extend_str(&mut m, file_path);
        string_of(m.as_slice())
    }
}

} // verus!
