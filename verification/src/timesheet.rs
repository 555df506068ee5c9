//! Timesheet documents: opaque files, one per date, named after the date.

use vstd::prelude::*;
use vstd::string::StringExecFns;

verus! {

/// The status of the answer to a request without a date.
pub const STATUS_BAD_REQUEST: u16 = 400;

/// The message of the answer to a request without a date.
pub const DATE_MISSING: &'static str = "The timesheet date, ie 2022-12, must be given!";

/// The name of the file that holds the timesheet of `date`.
pub open spec fn file_of(date: Seq<char>) -> Seq<char> {
    date + ".timesheet"@
}

/// The content disposition under which the file `file` is handed out.
pub open spec fn attachment_of(file: Seq<char>) -> Seq<char> {
    "attachment; filename=\""@ + file + "\""@
}

/// The name of the file that holds the timesheet of `date`. A request
/// without a date is refused with status 400.
pub fn timesheet_file(date: &str) -> (file: Result<String, (u16, String)>)
    ensures
        match file {
            Ok(name) => date@.len() > 0 && name@ == file_of(date@),
            Err(refusal) => date@.len() == 0 && refusal.0 == STATUS_BAD_REQUEST && refusal.1@
                == DATE_MISSING@,
        },
{
    if date.is_empty() {
        Err((STATUS_BAD_REQUEST, String::from_str(DATE_MISSING)))
    } else {
        Ok(String::from_str(date).concat(".timesheet"))
    }
}

/// The content disposition header under which a timesheet file is handed
/// out: an attachment under the file's name.
pub fn attachment_header(file: &str) -> (header: String)
    ensures
        header@ == attachment_of(file@),
{
    String::from_str("attachment; filename=\"").concat(file).concat("\"")
}

/// The message of the answer for a timesheet that cannot be opened.
pub fn not_found_message(cause: &str) -> (message: String)
    ensures
        message@ == "File not found: "@ + cause@,
{
    String::from_str("File not found: ").concat(cause)
}

} // verus!
