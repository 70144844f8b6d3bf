//! Judging the outcome of compiling and linking shaders, and the reports
//! printed when either fails.
use vstd::prelude::*;

use crate::glenum;

verus! {

pub open spec fn spec_compile_report(shader_type: Seq<char>, log: Seq<char>) -> Seq<char> {
    "ERROR::SHADER_COMPILATION_ERROR::"@ + shader_type + "\n"@ + log + "\n"@
}

pub open spec fn spec_link_report(log: Seq<char>) -> Seq<char> {
    "ERROR::PROGRAM_LINKER_ERROR\n"@ + log + "\n"@
}

/// Whether a compile or link status query reported success.
pub fn succeeded(status: i32) -> (r: bool)
    ensures
        r == (status == glenum::TRUE),
{
    status == glenum::TRUE as i32
}

/// The report on a shader stage (`"VERTEX"`, `"FRAGMENT"`) whose compile
/// status is `status`, with the driver's info log: nothing when it compiled.
pub fn compile_report(status: i32, shader_type: &str, log: &str) -> (r: Option<String>)
    ensures
        r matches Some(s) ==> status != glenum::TRUE && s@ == spec_compile_report(shader_type@, log@),
        r is None ==> status == glenum::TRUE,
{
    if succeeded(status) {
        return None;
    }
    let mut report = "ERROR::SHADER_COMPILATION_ERROR::".to_owned();
    report.append(shader_type);
    report.append("\n");
    report.append(log);
    report.append("\n");
    Some(report)
}

/// The report on a program whose link status is `status`, with the
/// driver's info log: nothing when it linked.
pub fn link_report(status: i32, log: &str) -> (r: Option<String>)
    ensures
        r matches Some(s) ==> status != glenum::TRUE && s@ == spec_link_report(log@),
        r is None ==> status == glenum::TRUE,
{
    if succeeded(status) {
        return None;
    }
    let mut report = "ERROR::PROGRAM_LINKER_ERROR\n".to_owned();
    report.append(log);
    report.append("\n");
    Some(report)
}

} // verus!
