//! Types shared by every schema version.

use vstd::prelude::*;

verus! {

/// Free-form information: the trimmed text when the element held only
/// text, absent when it held child elements.
#[derive(Debug, Default, Clone)]
pub struct FreeInfo(pub Option<String>);

} // verus!
