use vstd::prelude::*;

verus! {

#[derive(Debug, Clone)]
pub enum UuidMethod {
    V4 { options: UuidOptions },
    V7 { options: UuidOptions },
}

#[derive(Debug, Clone)]
pub struct UuidOptions {
    /// Number of generated UUIDs.
    pub number: Option<u32>,
}

} // verus!
