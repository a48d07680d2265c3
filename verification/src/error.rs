//! What can go wrong while the persona learns.

use vstd::prelude::*;

verus! {

/// A step of learning that a provider failed at. Such a failure ends the
/// work on one page or one query, never the run.
#[derive(Clone, Copy, PartialEq, Eq, Structural, Debug)]
pub enum ProviderError {
    /// The search gave no reply.
    Search,
    /// The page could not be fetched.
    Fetch,
    /// The page held no text.
    Extract,
    /// The text service gave no reply, or an empty one.
    Normalize,
}

/// A failure of the store on disk. It ends what was under way.
#[derive(Clone, Copy, PartialEq, Eq, Structural, Debug)]
pub enum PersistenceError {
    /// The snapshot on disk could not be read as a store.
    Malformed,
    /// The store could not be written.
    Unwritable,
}

/// A failure of the configuration. It ends the program at its start.
#[derive(Clone, Copy, PartialEq, Eq, Structural, Debug)]
pub enum ConfigError {
    /// A credential or a setting that the program needs is not there.
    Missing,
    /// The configuration on disk could not be read as one.
    Malformed,
}

impl ConfigError {
    /// What to tell the user.
    pub fn describe(&self) -> (out: &'static str)
        ensures
            out@ == match self {
                ConfigError::Missing => "a required setting is missing"@,
                ConfigError::Malformed => "the configuration could not be read"@,
            },
    {
        match self {
            ConfigError::Missing => "a required setting is missing",
            ConfigError::Malformed => "the configuration could not be read",
        }
    }
}

impl ProviderError {
    /// What to tell the user.
    pub fn describe(&self) -> (out: &'static str)
        ensures
            out@ == match self {
                ProviderError::Search => "the search failed"@,
                ProviderError::Fetch => "the page could not be fetched"@,
                ProviderError::Extract => "no content found"@,
                ProviderError::Normalize => "the text could not be rewritten"@,
            },
    {
        match self {
            ProviderError::Search => "the search failed",
            ProviderError::Fetch => "the page could not be fetched",
            ProviderError::Extract => "no content found",
            ProviderError::Normalize => "the text could not be rewritten",
        }
    }
}

impl PersistenceError {
    /// What to tell the user.
    pub fn describe(&self) -> (out: &'static str)
        ensures
            out@ == match self {
                PersistenceError::Malformed => "the saved knowledge could not be read"@,
                PersistenceError::Unwritable => "the knowledge could not be saved"@,
            },
    {
        match self {
            PersistenceError::Malformed => "the saved knowledge could not be read",
            PersistenceError::Unwritable => "the knowledge could not be saved",
        }
    }
}

} // verus!
