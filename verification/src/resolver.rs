//! Resolution of a queue name to a durable queue handle.
//!
//! The lookup call itself is a network call and is made by the surrounding
//! runtime; this module decides, from the outcome of that call, whether the
//! consumer has a usable handle or must fail at startup.

use vstd::prelude::*;

verus! {

/// The resolved location of a queue, obtained once per queue name and
/// immutable for the lifetime of the consumer that owns it.
#[derive(Debug, PartialEq, Eq)]
pub struct QueueHandle {
    pub url: String,
}

impl QueueHandle {
    /// A usable handle holds a non-empty queue location.
    pub open spec fn wf(&self) -> bool {
        self.url@.len() > 0
    }
}

/// Why a queue name could not be resolved. Resolution failure is fatal to
/// the consumer: it is treated as a startup precondition, never retried.
#[derive(Debug, PartialEq, Eq)]
pub enum ResolutionError {
    /// The lookup call itself failed: unknown name, missing permission, or
    /// a network or service error. Carries the error text.
    LookupFailed(String),
    /// The lookup call succeeded but returned no usable queue location.
    NoUrl,
}

impl ResolutionError {
    /// A line of text describing the error, for the startup failure report.
    pub fn describe(&self) -> (r: String)
        ensures
            match self {
                ResolutionError::LookupFailed(e) => r@ == "queue resolution failed: "@ + e@,
                ResolutionError::NoUrl => r@ == "queue resolution returned no queue location"@,
            },
    {
        match self {
            ResolutionError::LookupFailed(e) => {
                let mut r = String::from_str("queue resolution failed: ");
                r.append(e.as_str());
                r
            },
            ResolutionError::NoUrl => String::from_str("queue resolution returned no queue location"),
        }
    }
}

/// Turns the outcome of the one-time queue-location lookup into a handle.
///
/// The lookup outcome is `Ok` with the location the service returned (which
/// the service may omit), or `Err` with the error text of a failed call.
/// Resolution succeeds exactly when the call succeeded and returned a
/// non-empty location; the handle then holds that location unchanged, so
/// equal lookups always resolve to equal handles.
pub fn resolve_handle(lookup: Result<Option<String>, String>) -> (r: Result<
    QueueHandle,
    ResolutionError,
>)
    ensures
        match lookup {
            Ok(Some(url)) => {
                if url@.len() > 0 {
                    r == Ok::<QueueHandle, ResolutionError>(QueueHandle { url })
                } else {
                    r == Err::<QueueHandle, ResolutionError>(ResolutionError::NoUrl)
                }
            },
            Ok(None) => r == Err::<QueueHandle, ResolutionError>(ResolutionError::NoUrl),
            Err(e) => r == Err::<QueueHandle, ResolutionError>(ResolutionError::LookupFailed(e)),
        },
        r matches Ok(h) ==> h.wf(),
{
    match lookup {
        Ok(Some(url)) => {
            if url.as_str().unicode_len() > 0 {
                Ok(QueueHandle { url })
            } else {
                Err(ResolutionError::NoUrl)
            }
        },
        Ok(None) => Err(ResolutionError::NoUrl),
        Err(e) => Err(ResolutionError::LookupFailed(e)),
    }
}

} // verus!
