//! Error codes of the graphics API and the text of driver debug messages.

use vstd::prelude::*;
use vstd::string::*;
use crate::glenum;
use crate::text::{decimal_string, decimal_text};

verus! {

/// An error that the graphics API reported.
#[derive(Clone, Copy, Debug, PartialEq, Eq, Structural)]
pub enum GLError {
    InvalidEnum,
    InvalidValue,
    InvalidOperation,
    StackOverflow,
    StackUnderflow,
    OutOfMemory,
    InvalidFramebufferOperation,
    ContextLost,
}

impl GLError {
    /// The name under which the error is shown.
    pub open spec fn name_spec(self) -> Seq<char> {
        match self {
            GLError::InvalidEnum => "InvalidEnum"@,
            GLError::InvalidValue => "InvalidValue"@,
            GLError::InvalidOperation => "InvalidOperation"@,
            GLError::StackOverflow => "StackOverflow"@,
            GLError::StackUnderflow => "StackUnderflow"@,
            GLError::OutOfMemory => "OutOfMemory"@,
            GLError::InvalidFramebufferOperation => "InvalidFramebufferOperation"@,
            GLError::ContextLost => "ContextLost"@,
        }
    }

    /// The name under which the error is shown.
    pub fn name(&self) -> (s: String)
        ensures
            s@ == self.name_spec(),
    {
        match self {
            GLError::InvalidEnum => String::from_str("InvalidEnum"),
            GLError::InvalidValue => String::from_str("InvalidValue"),
            GLError::InvalidOperation => String::from_str("InvalidOperation"),
            GLError::StackOverflow => String::from_str("StackOverflow"),
            GLError::StackUnderflow => String::from_str("StackUnderflow"),
            GLError::OutOfMemory => String::from_str("OutOfMemory"),
            GLError::InvalidFramebufferOperation => String::from_str("InvalidFramebufferOperation"),
            GLError::ContextLost => String::from_str("ContextLost"),
        }
    }
}

/// The error that an error code stands for; no error for any other code.
pub open spec fn match_error_spec(err: u32) -> Option<GLError> {
    if err == glenum::INVALID_ENUM {
        Some(GLError::InvalidEnum)
    } else if err == glenum::INVALID_VALUE {
        Some(GLError::InvalidValue)
    } else if err == glenum::INVALID_OPERATION {
        Some(GLError::InvalidOperation)
    } else if err == glenum::STACK_OVERFLOW {
        Some(GLError::StackOverflow)
    } else if err == glenum::STACK_UNDERFLOW {
        Some(GLError::StackUnderflow)
    } else if err == glenum::OUT_OF_MEMORY {
        Some(GLError::OutOfMemory)
    } else if err == glenum::INVALID_FRAMEBUFFER_OPERATION {
        Some(GLError::InvalidFramebufferOperation)
    } else if err == glenum::CONTEXT_LOST {
        Some(GLError::ContextLost)
    } else {
        None
    }
}

/// The error, if any, behind the code that the API's error query returned.
pub fn match_error(err: u32) -> (r: Option<GLError>)
    ensures
        r == match_error_spec(err),
        r is Some <==> glenum::INVALID_ENUM <= err <= glenum::CONTEXT_LOST,
{
    if err == glenum::INVALID_ENUM {
        Some(GLError::InvalidEnum)
    } else if err == glenum::INVALID_VALUE {
        Some(GLError::InvalidValue)
    } else if err == glenum::INVALID_OPERATION {
        Some(GLError::InvalidOperation)
    } else if err == glenum::STACK_OVERFLOW {
        Some(GLError::StackOverflow)
    } else if err == glenum::STACK_UNDERFLOW {
        Some(GLError::StackUnderflow)
    } else if err == glenum::OUT_OF_MEMORY {
        Some(GLError::OutOfMemory)
    } else if err == glenum::INVALID_FRAMEBUFFER_OPERATION {
        Some(GLError::InvalidFramebufferOperation)
    } else if err == glenum::CONTEXT_LOST {
        Some(GLError::ContextLost)
    } else {
        None
    }
}

/// Whether a debug message id is one of the four that carry no significance.
pub open spec fn ignored_message(id: u32) -> bool {
    id == 131_169 || id == 131_185 || id == 131_218 || id == 131_204
}

pub open spec fn source_text(source: u32) -> Seq<char> {
    if source == glenum::DEBUG_SOURCE_API {
        "API"@
    } else if source == glenum::DEBUG_SOURCE_WINDOW_SYSTEM {
        "Window System"@
    } else if source == glenum::DEBUG_SOURCE_SHADER_COMPILER {
        "Shader Compiler"@
    } else if source == glenum::DEBUG_SOURCE_THIRD_PARTY {
        "Third Party"@
    } else if source == glenum::DEBUG_SOURCE_APPLICATION {
        "Application"@
    } else if source == glenum::DEBUG_SOURCE_OTHER {
        "Other"@
    } else {
        "Unknown enum value"@
    }
}

pub open spec fn type_text(gltype: u32) -> Seq<char> {
    if gltype == glenum::DEBUG_TYPE_ERROR {
        "Error"@
    } else if gltype == glenum::DEBUG_TYPE_DEPRECATED_BEHAVIOR {
        "Deprecated Behaviour"@
    } else if gltype == glenum::DEBUG_TYPE_UNDEFINED_BEHAVIOR {
        "Undefined Behaviour"@
    } else if gltype == glenum::DEBUG_TYPE_PORTABILITY {
        "Portability"@
    } else if gltype == glenum::DEBUG_TYPE_PERFORMANCE {
        "Performance"@
    } else if gltype == glenum::DEBUG_TYPE_MARKER {
        "Marker"@
    } else if gltype == glenum::DEBUG_TYPE_PUSH_GROUP {
        "Push Group"@
    } else if gltype == glenum::DEBUG_TYPE_POP_GROUP {
        "Pop Group"@
    } else if gltype == glenum::DEBUG_TYPE_OTHER {
        "Other"@
    } else {
        "Unknown enum value"@
    }
}

pub open spec fn severity_text(severity: u32) -> Seq<char> {
    if severity == glenum::DEBUG_SEVERITY_HIGH {
        "high"@
    } else if severity == glenum::DEBUG_SEVERITY_MEDIUM {
        "medium"@
    } else if severity == glenum::DEBUG_SEVERITY_LOW {
        "low"@
    } else if severity == glenum::DEBUG_SEVERITY_NOTIFICATION {
        "notification"@
    } else {
        "Unknown enum value"@
    }
}

/// The two lines that report a debug message.
pub open spec fn report_text(source: u32, gltype: u32, id: u32, severity: u32, message: Seq<char>) -> Seq<char> {
    "Gl error: ("@ + decimal_text(id as nat) + "), Source: "@ + source_text(source) + ", Type: "@
        + type_text(gltype) + ", Severity: "@ + severity_text(severity) + "\nMessage: "@ + message
}

fn source_name(source: u32) -> (s: &'static str)
    ensures
        s@ == source_text(source),
{
    if source == glenum::DEBUG_SOURCE_API {
        "API"
    } else if source == glenum::DEBUG_SOURCE_WINDOW_SYSTEM {
        "Window System"
    } else if source == glenum::DEBUG_SOURCE_SHADER_COMPILER {
        "Shader Compiler"
    } else if source == glenum::DEBUG_SOURCE_THIRD_PARTY {
        "Third Party"
    } else if source == glenum::DEBUG_SOURCE_APPLICATION {
        "Application"
    } else if source == glenum::DEBUG_SOURCE_OTHER {
        "Other"
    } else {
        "Unknown enum value"
    }
}

fn type_label(gltype: u32) -> (s: &'static str)
    ensures
        s@ == type_text(gltype),
{
    if gltype == glenum::DEBUG_TYPE_ERROR {
        "Error"
    } else if gltype == glenum::DEBUG_TYPE_DEPRECATED_BEHAVIOR {
        "Deprecated Behaviour"
    } else if gltype == glenum::DEBUG_TYPE_UNDEFINED_BEHAVIOR {
        "Undefined Behaviour"
    } else if gltype == glenum::DEBUG_TYPE_PORTABILITY {
        "Portability"
    } else if gltype == glenum::DEBUG_TYPE_PERFORMANCE {
        "Performance"
    } else if gltype == glenum::DEBUG_TYPE_MARKER {
        "Marker"
    } else if gltype == glenum::DEBUG_TYPE_PUSH_GROUP {
        "Push Group"
    } else if gltype == glenum::DEBUG_TYPE_POP_GROUP {
        "Pop Group"
    } else if gltype == glenum::DEBUG_TYPE_OTHER {
        "Other"
    } else {
        "Unknown enum value"
    }
}

fn severity_name(severity: u32) -> (s: &'static str)
    ensures
        s@ == severity_text(severity),
{
    if severity == glenum::DEBUG_SEVERITY_HIGH {
        "high"
    } else if severity == glenum::DEBUG_SEVERITY_MEDIUM {
        "medium"
    } else if severity == glenum::DEBUG_SEVERITY_LOW {
        "low"
    } else if severity == glenum::DEBUG_SEVERITY_NOTIFICATION {
        "notification"
    } else {
        "Unknown enum value"
    }
}

/// Decides what to report of a driver debug message: nothing for the ids
/// without significance, else the text to print.
pub fn error_callback(source_: u32, gltype_: u32, id: u32, severity_: u32, message: &str) -> (r: Option<String>)
    ensures
        ignored_message(id) ==> r is None,
        !ignored_message(id) ==> r is Some && r.unwrap()@ == report_text(
            source_,
            gltype_,
            id,
            severity_,
            message@,
        ),
{
    if id == 131_169 || id == 131_185 || id == 131_218 || id == 131_204 {
        return None;
    }
    let mut out = String::from_str("Gl error: (");
    let number = decimal_string(id);
    out.append(number.as_str());
    out.append("), Source: ");
    out.append(source_name(source_));
    out.append(", Type: ");
    out.append(type_label(gltype_));
    out.append(", Severity: ");
    out.append(severity_name(severity_));
    out.append("\nMessage: ");
    out.append(message);
    Some(out)
}

} // verus!
