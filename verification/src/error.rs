//! The error type of the library and its two renderings as text.

use crate::render::{decimal_text, hex8, push_decimal, push_hex8};
use crate::result_code::{
    description, level, module, r_description, r_level, r_module, r_summary, summary,
    OsResultCode,
};
use crate::raw_result::LibCtruResult;
use vstd::prelude::*;
use vstd::utf8::{decode_utf8, valid_utf8};

verus! {

/// What can go wrong in a call into the system library.
///
/// More kinds may be added: match with a default arm.
#[non_exhaustive]
pub enum Error {
    /// A system call failed with this result code.
    Os(OsResultCode),
    /// A C-library call failed; the payload is the text that the C library
    /// has for its error number.
    Libc(String),
    /// A service was started while it was already running.
    ServiceAlreadyActive,
    /// The output streams were to be redirected while they already were.
    OutputAlreadyRedirected,
}

/// An [`Error`] as a plain value: the message is the sequence of its
/// characters.
pub enum ErrorView {
    Os(OsResultCode),
    Libc(Seq<char>),
    ServiceAlreadyActive,
    OutputAlreadyRedirected,
}

impl View for Error {
    type V = ErrorView;

    open spec fn view(&self) -> ErrorView {
        match self {
            Error::Os(code) => ErrorView::Os(*code),
            Error::Libc(message) => ErrorView::Libc(message@),
            Error::ServiceAlreadyActive => ErrorView::ServiceAlreadyActive,
            Error::OutputAlreadyRedirected => ErrorView::OutputAlreadyRedirected,
        }
    }
}

/// What `message` looks like when the standard library writes it for a
/// developer: between double quotes, with the characters that would not
/// read well escaped.
pub uninterp spec fn debug_quoted(message: Seq<char>) -> Seq<char>;

/// The text of an error for the user.
pub open spec fn display_text(error: ErrorView) -> Seq<char> {
    match error {
        ErrorView::Os(code) => "libctru result code: 0x"@ + hex8(code),
        ErrorView::Libc(message) => message,
        ErrorView::ServiceAlreadyActive => "Service already active"@,
        ErrorView::OutputAlreadyRedirected => "output streams are already redirected to 3dslink"@,
    }
}

/// The text of a failed system call for a developer: the code in
/// hexadecimal, then its four bit-fields in decimal.
pub open spec fn os_debug_text(code: OsResultCode) -> Seq<char> {
    "Error { raw: 0x"@ + hex8(code) + ", description: "@ + decimal_text(description(code) as nat)
        + ", module: "@ + decimal_text(module(code) as nat) + ", summary: "@ + decimal_text(
        summary(code) as nat,
    ) + ", level: "@ + decimal_text(level(code) as nat) + " }"@
}

/// The text of a C-library failure for a developer, around the message as
/// `quoted` gives it.
pub open spec fn libc_debug_text(quoted: Seq<char>) -> Seq<char> {
    "Libc("@ + quoted + ")"@
}

/// The text of an error for a developer.
pub open spec fn debug_text(error: ErrorView) -> Seq<char> {
    match error {
        ErrorView::Os(code) => os_debug_text(code),
        ErrorView::Libc(message) => libc_debug_text(debug_quoted(message)),
        ErrorView::ServiceAlreadyActive => "ServiceAlreadyActive"@,
        ErrorView::OutputAlreadyRedirected => "OutputAlreadyRedirected"@,
    }
}

/// Calls the standard library's `Debug` formatting of a string slice. Trusted
/// to return the same text for the same message; that text is named
/// [`debug_quoted`].
#[verifier::external_body]
fn quote(message: &str) -> (quoted: String)
    ensures
        quoted@ == debug_quoted(message@),
{
    format!("{:?}", message)
}

/// Writes out a failed system call for a developer.
pub fn os_debug_string(code: OsResultCode) -> (text: String)
    ensures
        text@ == os_debug_text(code),
{
    let mut text = String::from_str("Error { raw: 0x");
    push_hex8(&mut text, code);
    text.append(", description: ");
    push_decimal(&mut text, r_description(code) as u32);
    text.append(", module: ");
    push_decimal(&mut text, r_module(code) as u32);
    text.append(", summary: ");
    push_decimal(&mut text, r_summary(code) as u32);
    text.append(", level: ");
    push_decimal(&mut text, r_level(code) as u32);
    text.append(" }");
    text
}

/// Writes out a C-library failure for a developer, around the message as
/// `quoted` gives it.
pub fn libc_debug_string(quoted: &str) -> (text: String)
    ensures
        text@ == libc_debug_text(quoted@),
{
    let mut text = String::from_str("Libc(");
    text.append(quoted);
    text.append(")");
    text
}

impl Error {
    /// The text of this error for a developer.
    pub fn debug_string(&self) -> (text: String)
        ensures
            text@ == debug_text(self@),
    {
        match self {
            Error::Os(code) => os_debug_string(*code),
            Error::Libc(message) => {
                let quoted = quote(message.as_str());
                libc_debug_string(quoted.as_str())
            },
            Error::ServiceAlreadyActive => String::from_str("ServiceAlreadyActive"),
            Error::OutputAlreadyRedirected => String::from_str("OutputAlreadyRedirected"),
        }
    }

    /// The text of this error for the user.
    pub fn to_string(&self) -> (text: String)
        ensures
            text@ == display_text(self@),
    {
        match self {
            Error::Os(code) => {
                let mut text = String::from_str("libctru result code: 0x");
                push_hex8(&mut text, *code);
                text
            },
            Error::Libc(message) => message.clone(),
            Error::ServiceAlreadyActive => String::from_str("Service already active"),
            Error::OutputAlreadyRedirected => String::from_str(
                "output streams are already redirected to 3dslink",
            ),
        }
    }
}

/// What the standard library reads out of `bytes` as UTF-8 text when it puts
/// the replacement character U+FFFD in the place of every malformed part.
pub uninterp spec fn utf8_lossy(bytes: Seq<u8>) -> Seq<char>;

/// Calls the standard library's `String::from_utf8_lossy` and takes the text
/// as an owned string. Trusted to return the same text for the same bytes,
/// named [`utf8_lossy`], and to decode well-formed UTF-8 as it stands.
#[verifier::external_body]
fn lossy_text(bytes: &[u8]) -> (text: String)
    ensures
        text@ == utf8_lossy(bytes@),
        valid_utf8(bytes@) ==> text@ == decode_utf8(bytes@),
{
    String::from_utf8_lossy(bytes).into_owned()
}

impl Error {
    /// The error for a failed C-library call, from the text that the C
    /// library has for its error number: `message` holds the bytes of that C
    /// string, without the terminator.
    ///
    /// The C library may overwrite its text at the next call, so the error
    /// keeps a copy of its own.
    pub fn from_errno(message: &[u8]) -> (error: Error)
        ensures
            error@ == ErrorView::Libc(utf8_lossy(message@)),
            valid_utf8(message@) ==> error@ == ErrorView::Libc(decode_utf8(message@)),
    {
        Error::Libc(lossy_text(message))
    }
}

impl From<OsResultCode> for Error {
    fn from(code: OsResultCode) -> (error: Error) {
        Error::Os(code)
    }
}

impl vstd::std_specs::convert::FromSpecImpl<OsResultCode> for Error {
    open spec fn obeys_from_spec() -> bool {
        true
    }

    open spec fn from_spec(code: OsResultCode) -> Error {
        Error::Os(code)
    }
}

impl From<LibCtruResult> for Error {
    fn from(raw: LibCtruResult) -> (error: Error) {
        Error::Os(raw.0)
    }
}

impl vstd::std_specs::convert::FromSpecImpl<LibCtruResult> for Error {
    open spec fn obeys_from_spec() -> bool {
        true
    }

    open spec fn from_spec(raw: LibCtruResult) -> Error {
        Error::Os(raw.0)
    }
}

impl Error {
    /// A short text that says where errors of this type come from.
    pub fn description(&self) -> (text: &'static str)
        ensures
            text@ == "error originating from a libctru function"@,
    {
        "error originating from a libctru function"
    }
}

} // verus!
