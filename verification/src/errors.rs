//! Error taxonomy of the binding.
//!
//! A caller can always tell bad input from bad network: conversion failures
//! are detected before any request is built, transport failures carry the
//! underlying diagnostic text, and a poisoned bridge lock is reported as its
//! own unrecoverable kind, never disguised as a transport failure.

use vstd::prelude::*;

verus! {

/// What a failed operation reports to the caller.
#[derive(Debug)]
pub enum ClientError {
    /// A value offered at the boundary does not convert to an
    /// `EmbeddingEntry`.
    Conversion,
    /// Sending the request or reading the response body failed; carries the
    /// transport layer's diagnostic text.
    Transport(String),
    /// The lock around the execution context was poisoned by an earlier
    /// failure; the client instance is unusable.
    LockPoisoned,
}

/// What the trusted transport layer hands back when a send fails: either the
/// bridge lock was poisoned, or the transport itself failed with a
/// diagnostic.
pub enum SendFailure {
    Poisoned,
    Transport(String),
}

impl ClientError {
    /// A short description of the error; the diagnostic text for a transport
    /// failure, and a fixed non-empty text for the other kinds.
    pub fn message(&self) -> (r: String)
        ensures
            self matches ClientError::Transport(m) ==> r@ == m@,
            self is Conversion ==> r@.len() > 0,
            self is LockPoisoned ==> r@.len() > 0,
    {
        match self {
            ClientError::Conversion => {
                let r = "value does not convert to an embedding entry".to_owned();
                proof {
                    reveal_strlit("value does not convert to an embedding entry");
                }
                r
            },
            ClientError::Transport(m) => m.clone(),
            ClientError::LockPoisoned => {
                let r = "execution context lock is poisoned".to_owned();
                proof {
                    reveal_strlit("execution context lock is poisoned");
                }
                r
            },
        }
    }
}

} // verus!
