//! Reading the graphics driver's debug messages: which ones are noise, and
//! the names of their source, type and severity.
use vstd::prelude::*;

use crate::glenum;

verus! {

/// Driver message ids that carry no warning: buffer placement and texture
/// state notifications, and a shader recompilation notice.
pub open spec fn spec_is_ignored(id: u32) -> bool {
    id == 131169 || id == 131185 || id == 131218 || id == 131204
}

/// Whether the message with this id is left unreported.
pub fn is_ignored(id: u32) -> (r: bool)
    ensures
        r == spec_is_ignored(id),
{
    id == 131169 || id == 131185 || id == 131218 || id == 131204
}

pub open spec fn spec_source_name(source: u32) -> Seq<char> {
    if source == glenum::DEBUG_SOURCE_API {
        "API"@
    } else if source == glenum::DEBUG_SOURCE_WINDOW_SYSTEM {
        "Window System"@
    } else if source == glenum::DEBUG_SOURCE_SHADER_COMPILER {
        "Shader Compiler"@
    } else if source == glenum::DEBUG_SOURCE_THIRD_PARTY {
        "Third Party"@
    } else if source == glenum::DEBUG_SOURCE_APPLICATION {
        "Application"@
    } else if source == glenum::DEBUG_SOURCE_OTHER {
        "Other"@
    } else {
        "Unknown enum value"@
    }
}

/// The name of a message's source.
pub fn source_name(source: u32) -> (r: &'static str)
    ensures
        r@ == spec_source_name(source),
{
    if source == glenum::DEBUG_SOURCE_API {
        "API"
    } else if source == glenum::DEBUG_SOURCE_WINDOW_SYSTEM {
        "Window System"
    } else if source == glenum::DEBUG_SOURCE_SHADER_COMPILER {
        "Shader Compiler"
    } else if source == glenum::DEBUG_SOURCE_THIRD_PARTY {
        "Third Party"
    } else if source == glenum::DEBUG_SOURCE_APPLICATION {
        "Application"
    } else if source == glenum::DEBUG_SOURCE_OTHER {
        "Other"
    } else {
        "Unknown enum value"
    }
}

pub open spec fn spec_kind_name(kind: u32) -> Seq<char> {
    if kind == glenum::DEBUG_TYPE_ERROR {
        "Error"@
    } else if kind == glenum::DEBUG_TYPE_DEPRECATED_BEHAVIOR {
        "Deprecated Behaviour"@
    } else if kind == glenum::DEBUG_TYPE_UNDEFINED_BEHAVIOR {
        "Undefined Behaviour"@
    } else if kind == glenum::DEBUG_TYPE_PORTABILITY {
        "Portability"@
    } else if kind == glenum::DEBUG_TYPE_PERFORMANCE {
        "Performance"@
    } else if kind == glenum::DEBUG_TYPE_MARKER {
        "Marker"@
    } else if kind == glenum::DEBUG_TYPE_PUSH_GROUP {
        "Push Group"@
    } else if kind == glenum::DEBUG_TYPE_POP_GROUP {
        "Pop Group"@
    } else if kind == glenum::DEBUG_TYPE_OTHER {
        "Other"@
    } else {
        "Unknown enum value"@
    }
}

/// The name of a message's type.
pub fn kind_name(kind: u32) -> (r: &'static str)
    ensures
        r@ == spec_kind_name(kind),
{
    if kind == glenum::DEBUG_TYPE_ERROR {
        "Error"
    } else if kind == glenum::DEBUG_TYPE_DEPRECATED_BEHAVIOR {
        "Deprecated Behaviour"
    } else if kind == glenum::DEBUG_TYPE_UNDEFINED_BEHAVIOR {
        "Undefined Behaviour"
    } else if kind == glenum::DEBUG_TYPE_PORTABILITY {
        "Portability"
    } else if kind == glenum::DEBUG_TYPE_PERFORMANCE {
        "Performance"
    } else if kind == glenum::DEBUG_TYPE_MARKER {
        "Marker"
    } else if kind == glenum::DEBUG_TYPE_PUSH_GROUP {
        "Push Group"
    } else if kind == glenum::DEBUG_TYPE_POP_GROUP {
        "Pop Group"
    } else if kind == glenum::DEBUG_TYPE_OTHER {
        "Other"
    } else {
        "Unknown enum value"
    }
}

pub open spec fn spec_severity_name(severity: u32) -> Seq<char> {
    if severity == glenum::DEBUG_SEVERITY_HIGH {
        "high"@
    } else if severity == glenum::DEBUG_SEVERITY_MEDIUM {
        "medium"@
    } else if severity == glenum::DEBUG_SEVERITY_LOW {
        "low"@
    } else if severity == glenum::DEBUG_SEVERITY_NOTIFICATION {
        "notification"@
    } else {
        "Unknown enum value"@
    }
}

/// The name of a message's severity.
pub fn severity_name(severity: u32) -> (r: &'static str)
    ensures
        r@ == spec_severity_name(severity),
{
    if severity == glenum::DEBUG_SEVERITY_HIGH {
        "high"
    } else if severity == glenum::DEBUG_SEVERITY_MEDIUM {
        "medium"
    } else if severity == glenum::DEBUG_SEVERITY_LOW {
        "low"
    } else if severity == glenum::DEBUG_SEVERITY_NOTIFICATION {
        "notification"
    } else {
        "Unknown enum value"
    }
}

} // verus!
