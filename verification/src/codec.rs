//! What a codec registry asks of a codec: a description and coding errors.

use vstd::prelude::*;

verus! {

/// General coding errors.
#[derive(Clone, Debug, PartialEq, Eq)]
pub enum Error {
    /// The input is not valid.
    InvalidData,
    /// The operation needs more data before it can go on.
    MoreDataNeeded,
    /// The configuration is not complete.
    ConfigurationIncomplete,
    /// The configuration is not valid.
    ConfigurationInvalid,
    /// The feature named is not supported.
    Unsupported(String),
}

/// The description of a codec.
#[derive(Clone, Copy, Debug)]
pub struct Descr {
    /// Name of the codec.
    pub codec: &'static str,
    /// Name of the implementation.
    pub name: &'static str,
    /// What the implementation is.
    pub desc: &'static str,
    /// Media type of the coded data.
    pub mime: &'static str,
}

} // verus!
