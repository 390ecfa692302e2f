//! The session's checked failure kinds.
//!
//! Only two things can fail: decoding an image file and compiling or linking
//! a shader source pair. Both happen in the backends, so the unverified
//! shell constructs these values from the backends' diagnostics. A failure
//! at startup is fatal (the session must not start without its initial
//! texture and program); a failure on a runtime switch is logged and the
//! previously active resource stays bound and unchanged.

use vstd::prelude::*;

verus! {

/// A checked failure, carrying the backend's human-readable diagnostic.
#[derive(Clone, Debug)]
pub enum ResourceError {
    /// The image file was unreadable or its format unsupported.
    Decode(String),
    /// A shader stage failed to compile, or the program failed to link.
    Compile(String),
}

/// The diagnostic text a failure carries.
pub open spec fn spec_message(e: ResourceError) -> Seq<char> {
    match e {
        ResourceError::Decode(m) => m@,
        ResourceError::Compile(m) => m@,
    }
}

impl ResourceError {
    /// The backend's diagnostic text.
    pub fn message(&self) -> (m: &String)
        ensures
            m@ == spec_message(*self),
    {
        match self {
            ResourceError::Decode(m) => m,
            ResourceError::Compile(m) => m,
        }
    }

    /// Whether this failure came from image decoding.
    pub fn is_decode(&self) -> (r: bool)
        ensures
            r == (*self is Decode),
    {
        match self {
            ResourceError::Decode(_) => true,
            ResourceError::Compile(_) => false,
        }
    }
}

} // verus!
