//! Error values for the texture cache, the description parser and sprite
//! rendering.
//!
//! Every error here is an ordinary value: the caller decides whether to
//! abort, skip or retry. Each carries the underlying cause as reported by
//! the failing collaborator, and renders itself as `"<operation>: <cause>"`.

use vstd::prelude::*;
use vstd::string::StringExecFns;

verus! {

/// Decode or upload failure while loading the image resource for `path`.
#[derive(Debug)]
pub struct ResourceLoadError {
    pub path: String,
    pub cause: String,
}

/// Malformed or missing sprite sheet description document.
#[derive(Debug)]
pub struct DescriptionParseError {
    pub cause: String,
}

/// Copy-to-target failure while rendering a sprite.
#[derive(Debug)]
pub struct RenderError {
    pub cause: String,
}

/// The error-to-string convention used throughout: `"<operation>: <cause>"`.
pub fn format_error(operation: &str, cause: &str) -> (m: String)
    ensures
        m@ == operation@ + ": "@ + cause@,
{
    let mut m: String = operation.to_owned();
    m.append(": ");
    m.append(cause);
    m
}

impl ResourceLoadError {
    pub fn new(path: String, cause: String) -> (e: ResourceLoadError)
        ensures
            e == (ResourceLoadError { path, cause }),
    {
        ResourceLoadError { path, cause }
    }

    pub fn message(&self) -> (m: String)
        ensures
            m@ == "failed to load "@ + self.path@ + ": "@ + self.cause@,
    {
        let mut m: String = "failed to load ".to_owned();
        m.append(self.path.as_str());
        m.append(": ");
        m.append(self.cause.as_str());
        m
    }
}

impl DescriptionParseError {
    pub fn new(cause: String) -> (e: DescriptionParseError)
        ensures
            e == (DescriptionParseError { cause }),
    {
        DescriptionParseError { cause }
    }

    pub fn message(&self) -> (m: String)
        ensures
            m@ == "failed to parse sprite sheet description"@ + ": "@ + self.cause@,
    {
        format_error("failed to parse sprite sheet description", self.cause.as_str())
    }
}

impl RenderError {
    pub fn new(cause: String) -> (e: RenderError)
        ensures
            e == (RenderError { cause }),
    {
        RenderError { cause }
    }

    pub fn message(&self) -> (m: String)
        ensures
            m@ == "failed to render sprite"@ + ": "@ + self.cause@,
    {
        format_error("failed to render sprite", self.cause.as_str())
    }
}

} // verus!
