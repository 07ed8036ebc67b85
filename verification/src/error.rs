use vstd::prelude::*;

use crate::text::{concat_str, i32_to_decimal, signed_decimal};

verus! {

/// Result code that the native API reports for a successful call.
pub const RESULT_SUCCESS: i32 = 0;

/// Result code that the native API reports for an illegal argument.
pub const RESULT_ILLEGAL_ARGUMENT: i32 = -100;

/// An error returned by the native Cronet API.
#[derive(Clone, Copy, Debug, PartialEq, Eq, Structural)]
pub struct Error {
    code: i32,
}

impl Error {
    /// The numeric result code carried by this error.
    pub closed spec fn spec_code(self) -> i32 {
        self.code
    }

    /// Returns Cronet's numeric result code.
    pub fn code(self) -> (r: i32)
        ensures
            r == self.spec_code(),
    {
        self.code
    }

    /// Maps a native result code to `Ok` for success and to an error
    /// carrying the code otherwise.
    pub fn from_result(code: i32) -> (r: Result<(), Error>)
        ensures
            (code == RESULT_SUCCESS) <==> r is Ok,
            r matches Err(e) ==> e.spec_code() == code,
    {
        if code == RESULT_SUCCESS {
            Ok(())
        } else {
            Err(Error { code })
        }
    }

    /// Renders the diagnostic text of this error.
    pub fn to_string(&self) -> (s: String)
        ensures
            s@ == "Cronet operation failed with result code "@ + signed_decimal(
                self.spec_code() as int,
            ),
    {
        let digits = i32_to_decimal(self.code);
        concat_str("Cronet operation failed with result code ", digits.as_str())
    }
}

} // verus!
