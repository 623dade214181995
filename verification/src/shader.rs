//! What goes wrong when a shader is built, and how it is told.

use vstd::prelude::*;
use vstd::string::StringExecFns;

verus! {

/// The number by which the GPU knows a vertex shader.
pub const VERTEX_SHADER: u32 = 0x8b31;

/// The number by which the GPU knows a fragment shader.
pub const FRAGMENT_SHADER: u32 = 0x8b30;

/// Why a shader could not be built.
#[derive(Debug, Clone, PartialEq, Eq)]
pub enum ShaderError {
    /// A stage did not compile; with the stage and the compiler's log.
    CompileError(String),
    /// The stages did not link; with the linker's log.
    LinkError(String),
    /// The GPU gave no reason.
    UnknownError,
}

/// A [`ShaderError`] as contracts see it, with its text as characters.
pub enum ShaderErrorView {
    CompileError(Seq<char>),
    LinkError(Seq<char>),
    UnknownError,
}

impl View for ShaderError {
    type V = ShaderErrorView;

    open spec fn view(&self) -> ShaderErrorView {
        match self {
            ShaderError::CompileError(text) => ShaderErrorView::CompileError(text@),
            ShaderError::LinkError(text) => ShaderErrorView::LinkError(text@),
            ShaderError::UnknownError => ShaderErrorView::UnknownError,
        }
    }
}

/// The error for a stage that did not compile. With a log, and for one of
/// the two stages there are, it names the stage and gives the log; else
/// the reason is unknown.
pub open spec fn compile_failure_of(typ: u32, log: Option<Seq<char>>) -> ShaderErrorView {
    match log {
        None => ShaderErrorView::UnknownError,
        Some(log) => if typ == VERTEX_SHADER {
            ShaderErrorView::CompileError("Vertex shader error: "@ + log)
        } else if typ == FRAGMENT_SHADER {
            ShaderErrorView::CompileError("Fragment shader error: "@ + log)
        } else {
            ShaderErrorView::UnknownError
        },
    }
}

/// The error for stages that did not link: the log where there is one.
pub open spec fn link_failure_of(log: Option<Seq<char>>) -> ShaderErrorView {
    match log {
        None => ShaderErrorView::UnknownError,
        Some(log) => ShaderErrorView::LinkError("Link error: "@ + log),
    }
}

/// The characters of a log, if there is one.
pub open spec fn log_text(log: Option<String>) -> Option<Seq<char>> {
    match log {
        Some(log) => Some(log@),
        None => None,
    }
}

/// The error for a stage of kind `typ` that did not compile, from the log
/// that the GPU gave, if it gave one.
pub fn compile_failure(typ: u32, log: Option<String>) -> (error: ShaderError)
    ensures
        error@ == compile_failure_of(typ, log_text(log)),
{
    match log {
        None => ShaderError::UnknownError,
        Some(log) => {
            if typ == VERTEX_SHADER {
                ShaderError::CompileError(String::from_str("Vertex shader error: ").concat(log.as_str()))
            } else if typ == FRAGMENT_SHADER {
                ShaderError::CompileError(String::from_str("Fragment shader error: ").concat(log.as_str()))
            } else {
                ShaderError::UnknownError
            }
        },
    }
}

/// The error for stages that did not link, from the log that the GPU gave,
/// if it gave one.
pub fn link_failure(log: Option<String>) -> (error: ShaderError)
    ensures
        error@ == link_failure_of(log_text(log)),
{
    match log {
        None => ShaderError::UnknownError,
        Some(log) => ShaderError::LinkError(String::from_str("Link error: ").concat(log.as_str())),
    }
}

} // verus!
