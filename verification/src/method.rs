//! The kinds of request.

use vstd::prelude::*;

verus! {

/// What a request asks for: to read, add, replace, change or remove rows.
#[derive(Debug, Clone, Copy, PartialEq, Eq, Structural)]
pub enum Method {
    Get,
    Post,
    Put,
    Patch,
    Delete,
}

} // verus!
