//! The failures that this crate reports.
use crate::params::ParamType;
use crate::text::{decimal, push_decimal};
use vstd::prelude::*;
use vstd::string::*;

verus! {

/// Every failure is returned to the caller; nothing is retried or printed
/// here.
#[derive(Clone, Debug, PartialEq, Eq)]
pub enum TransitionError {
    /// The fit-mode token is none of `contain`, `stretch`, `cover`. Holds the
    /// token.
    InvalidMode(String),
    /// No catalog entry has this name. Holds the name as it was asked for.
    ShaderNotFound(String),
    /// The catalog text is not a list of well-formed shader records. Holds
    /// the diagnostic.
    CatalogParseError(String),
    /// The GPU compiler refused a composed program. Holds its diagnostic;
    /// raised by the caller that owns the compiler.
    ShaderCompileError(String),
    /// The default of parameter `name` does not have the representation that
    /// its declared type asks for.
    ParamTypeMismatch { name: String, expected_type: ParamType },
    /// The default of vector parameter `name` has `actual` elements where
    /// `expected` are needed.
    ParamArityError { name: String, expected: usize, actual: usize },
    /// Parameter `name` is a texture and the caller supplied none.
    MissingSamplerOverride(String),
}

/// A [`TransitionError`] with its texts as character sequences.
pub enum TransitionErrorView {
    InvalidMode(Seq<char>),
    ShaderNotFound(Seq<char>),
    CatalogParseError(Seq<char>),
    ShaderCompileError(Seq<char>),
    ParamTypeMismatch { name: Seq<char>, expected_type: ParamType },
    ParamArityError { name: Seq<char>, expected: usize, actual: usize },
    MissingSamplerOverride(Seq<char>),
}

impl View for TransitionError {
    type V = TransitionErrorView;

    open spec fn view(&self) -> TransitionErrorView {
        match *self {
            TransitionError::InvalidMode(token) => TransitionErrorView::InvalidMode(token@),
            TransitionError::ShaderNotFound(name) => TransitionErrorView::ShaderNotFound(name@),
            TransitionError::CatalogParseError(text) => TransitionErrorView::CatalogParseError(text@),
            TransitionError::ShaderCompileError(text) => TransitionErrorView::ShaderCompileError(text@),
            TransitionError::ParamTypeMismatch { name, expected_type } => TransitionErrorView::ParamTypeMismatch {
                name: name@,
                expected_type,
            },
            TransitionError::ParamArityError { name, expected, actual } => TransitionErrorView::ParamArityError {
                name: name@,
                expected,
                actual,
            },
            TransitionError::MissingSamplerOverride(name) => TransitionErrorView::MissingSamplerOverride(name@),
        }
    }
}

/// What a failure says of itself, in one line.
pub open spec fn message_of(error: TransitionErrorView) -> Seq<char> {
    match error {
        TransitionErrorView::InvalidMode(token) => "Invalid transition mode: "@ + token,
        TransitionErrorView::ShaderNotFound(name) => "Could not find shader: "@ + name,
        TransitionErrorView::CatalogParseError(text) => "Could not parse the shader catalog: "@ + text,
        TransitionErrorView::ShaderCompileError(text) => "Could not compile fragment shader: "@
            + text,
        TransitionErrorView::ParamTypeMismatch { name, expected_type } => "Could not parse defaultParams "@
            + expected_type.tag_of() + ": "@ + name,
        TransitionErrorView::ParamArityError {
            name,
            expected,
            actual,
        } => "Could not parse defaultParams: "@ + name + " needs "@ + decimal(expected as nat)
            + " elements and has "@ + decimal(actual as nat),
        TransitionErrorView::MissingSamplerOverride(name) => "No sampler2D file path provided: "@
            + name,
    }
}

impl TransitionError {
    /// The failure in one line, for whoever presents it.
    pub fn message(&self) -> (r: String)
        ensures
            r@ == message_of(self@),
    {
        match self {
            TransitionError::InvalidMode(token) => {
                String::from_str("Invalid transition mode: ").concat(token.as_str())
            },
            TransitionError::ShaderNotFound(name) => {
                String::from_str("Could not find shader: ").concat(name.as_str())
            },
            TransitionError::CatalogParseError(text) => {
                String::from_str("Could not parse the shader catalog: ").concat(text.as_str())
            },
            TransitionError::ShaderCompileError(text) => {
                String::from_str("Could not compile fragment shader: ").concat(text.as_str())
            },
            TransitionError::ParamTypeMismatch { name, expected_type } => {
                let mut line = String::from_str("Could not parse defaultParams ");
                line.append(expected_type.tag());
                line.append(": ");
                line.append(name.as_str());
                line
            },
            TransitionError::ParamArityError { name, expected, actual } => {
                let mut line = String::from_str("Could not parse defaultParams: ");
                line.append(name.as_str());
                line.append(" needs ");
                push_decimal(&mut line, *expected);
                line.append(" elements and has ");
                push_decimal(&mut line, *actual);
                line
            },
            TransitionError::MissingSamplerOverride(name) => {
                String::from_str("No sampler2D file path provided: ").concat(name.as_str())
            },
        }
    }
}

} // verus!
