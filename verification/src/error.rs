//! Errors that carry a coarse class tag next to a free-form message, so that a
//! caller across the boundary can recover the category from the value alone.

use vstd::prelude::*;
use vstd::string::*;

verus! {

/// What a [`CustomError`] holds: its class tag and its message, as sequences of
/// characters.
pub struct ErrorView {
    pub class: Seq<char>,
    pub message: Seq<char>,
}

/// An error with a class tag (a fixed label such as `"BadResource"`) and a
/// message.
#[derive(Debug)]
pub struct CustomError {
    class: &'static str,
    message: String,
}

impl View for CustomError {
    type V = ErrorView;

    closed spec fn view(&self) -> ErrorView {
        ErrorView { class: self.class@, message: self.message@ }
    }
}

/// The class and message of the error reported for an id that names no entry,
/// or an entry of another type.
pub open spec fn bad_resource_id_view() -> ErrorView {
    ErrorView { class: "BadResource"@, message: "Bad resource ID"@ }
}

/// The class and message of the error reported by an operation that a resource
/// does not implement.
pub open spec fn not_supported_view() -> ErrorView {
    ErrorView { class: "NotSupported"@, message: "The operation is not supported"@ }
}

/// The class and message of the error reported for a pointer and length that do
/// not lie within the guest's memory.
pub open spec fn out_of_bounds_view() -> ErrorView {
    ErrorView { class: "TypeError"@, message: "Protocol violation: region out of bounds"@ }
}

/// The class and message of the error reported for bytes that are not UTF-8
/// where a string is required.
pub open spec fn invalid_utf8_view() -> ErrorView {
    ErrorView { class: "TypeError"@, message: "Invalid UTF-8 in string argument"@ }
}

/// The text of an error: the class in parentheses, a hyphen, the message.
pub open spec fn display_text(e: ErrorView) -> Seq<char> {
    "("@ + e.class + ")-"@ + e.message
}

impl CustomError {
    /// The class tag.
    pub fn class(&self) -> (class: &'static str)
        ensures
            class@ == self@.class,
    {
        self.class
    }

    /// The message.
    pub fn message(&self) -> (message: &str)
        ensures
            message@ == self@.message,
    {
        self.message.as_str()
    }

    /// The text shown for this error, `(class)-message`.
    pub fn to_string(&self) -> (text: String)
        ensures
            text@ == display_text(self@),
    {
        let mut text = String::from_str("(");
        text.append(self.class);
        text.append(")-");
        text.append(self.message.as_str());
        text
    }
}

/// Creates an error with the given class tag and message.
pub fn custom_error(class: &'static str, message: &str) -> (e: CustomError)
    ensures
        e@ == (ErrorView { class: class@, message: message@ }),
{
    CustomError { class, message: message.to_owned() }
}

/// An error of class `TypeError`: a malformed argument.
pub fn type_error(message: &str) -> (e: CustomError)
    ensures
        e@ == (ErrorView { class: "TypeError"@, message: message@ }),
{
    custom_error("TypeError", message)
}

/// The error for an id that names no entry of the requested type.
pub fn bad_resource_id() -> (e: CustomError)
    ensures
        e@ == bad_resource_id_view(),
{
    custom_error("BadResource", "Bad resource ID")
}

/// The error for an operation that a resource does not implement.
pub fn not_supported() -> (e: CustomError)
    ensures
        e@ == not_supported_view(),
{
    custom_error("NotSupported", "The operation is not supported")
}

/// The error for a region that a guest names and that does not lie within its
/// memory: a malformed argument, and a violation of the call protocol.
pub fn out_of_bounds() -> (e: CustomError)
    ensures
        e@ == out_of_bounds_view(),
{
    type_error("Protocol violation: region out of bounds")
}

/// The error for bytes that are not UTF-8 where a string is required.
pub fn invalid_utf8() -> (e: CustomError)
    ensures
        e@ == invalid_utf8_view(),
{
    type_error("Invalid UTF-8 in string argument")
}

} // verus!
