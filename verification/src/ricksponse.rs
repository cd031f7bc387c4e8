//! The response envelope: a two-variant result container carrying a typed
//! payload or an opaque error, together with an optional transport status
//! code and message.

use vstd::prelude::*;

use crate::payload_error::DebuggableAny;
use crate::payload_error::OpaqueError;
use crate::payload_error::PayloadError;

verus! {

/// The envelope: either a typed payload or an opaque, debuggable error, each
/// with an optional transport status code and an optional message, so the
/// status can be set before the outcome is known.
#[derive(Debug)]
pub enum Ricksponse<T> {
    Data { data: T, http_code: Option<u16>, message: Option<String> },
    Error { error: Option<OpaqueError>, http_code: Option<u16>, message: Option<String> },
}

/// A host for the convenience constructors, usable without naming an
/// envelope value first.
pub struct Response<T> {
    phantom: core::marker::PhantomData<T>,
}

impl<T> Ricksponse<T> {
    /// Wrap a payload with no explicit status.
    pub fn new(t: T) -> (r: Self)
        ensures
            r == (Ricksponse::Data { data: t, http_code: None, message: None::<String> }),
    {
        Self::Data { data: t, http_code: None, message: None }
    }

    /// Wrap a payload with an explicit transport status code.
    pub fn new_with_http(t: T, http: u16) -> (r: Self)
        ensures
            r == (Ricksponse::Data { data: t, http_code: Some(http), message: None::<String> }),
    {
        Self::Data { data: t, http_code: Some(http), message: None }
    }

    /// Wrap a payload with an explicit transport status code and message.
    pub fn new_with_http_and_message(t: T, http: u16, message: &str) -> (r: Self)
        ensures
            r matches Ricksponse::Data { data, http_code, message: m } && data == t && http_code
                == Some(http) && (m matches Some(text) && text@ == message@),
    {
        Self::Data { data: t, http_code: Some(http), message: Some(message.to_owned()) }
    }

    /// Set the transport status code of the active variant, in place.
    pub fn http_code(&mut self, code: u16)
        ensures
            *old(self) matches Ricksponse::Data { data: d, message: m, .. } ==> *final(self)
                == (Ricksponse::Data { data: d, http_code: Some(code), message: m }),
            *old(self) matches Ricksponse::Error { error: e, message: m, .. } ==> *final(self)
                == (Ricksponse::<T>::Error { error: e, http_code: Some(code), message: m }),
    {
        match self {
            Ricksponse::Data { http_code, .. } => *http_code = Some(code),
            Ricksponse::Error { http_code, .. } => *http_code = Some(code),
        }
    }

    /// Set the message of the active variant, in place.
    pub fn message(&mut self, msg: String)
        ensures
            *old(self) matches Ricksponse::Data { data: d, http_code: h, .. } ==> *final(self)
                == (Ricksponse::Data { data: d, http_code: h, message: Some(msg) }),
            *old(self) matches Ricksponse::Error { error: e, http_code: h, .. } ==> *final(self)
                == (Ricksponse::<T>::Error { error: e, http_code: h, message: Some(msg) }),
    {
        match self {
            Ricksponse::Data { message, .. } => *message = Some(msg),
            Ricksponse::Error { message, .. } => *message = Some(msg),
        }
    }

    /// Promote an `Error` envelope to `Data` carrying the given fallback
    /// payload, keeping its status code and message, and hand back the
    /// payload either way. A `Data` envelope is left as it is, so promoting
    /// twice yields the very payload the first promotion yielded.
    pub fn get_or_with_data(&mut self, data: T) -> (r: &mut T)
        ensures
            *old(self) matches Ricksponse::Data { data: d0, http_code: h, message: m } ==> *r == d0
                && *final(self) == (Ricksponse::Data {
                data: *final(r),
                http_code: h,
                message: m,
            }),
            *old(self) matches Ricksponse::Error { http_code: h, message: m, .. } ==> *r == data
                && *final(self) == (Ricksponse::Data {
                data: *final(r),
                http_code: h,
                message: m,
            }),
            *final(self) is Data,
    {
        let mut promote: Option<(Option<u16>, Option<String>)> = None;
        match &mut *self {
            Ricksponse::Error { http_code, message, .. } => {
                promote = Some((*http_code, message.take()));
            },
            _ => {},
        }
        match promote {
            Some((h, m)) => {
                *self = Ricksponse::Data { data, http_code: h, message: m };
            },
            None => {},
        }
        match self {
            Ricksponse::Data { data, .. } => data,
            Ricksponse::Error { .. } => vstd::pervasive::unreached(),
        }
    }

    /// Build an envelope from an application result: a success becomes
    /// `Data`; a failure becomes `Error`, its message defaulted to the
    /// error's rendered description.
    pub fn from_result<E: DebuggableAny>(r: Result<T, E>) -> (res: Ricksponse<T>)
        ensures
            r matches Ok(t) ==> res == (Ricksponse::Data {
                data: t,
                http_code: None,
                message: None::<String>,
            }),
            r matches Err(_) ==> res matches Ricksponse::Error {
                error: Some(oe),
                http_code: None,
                message: Some(m),
            } && m == oe.text && oe.payload is None,
    {
        match r {
            Ok(t) => Self::Data { data: t, http_code: None, message: None },
            Err(e) => {
                let text = e.debug_text();
                let message = text.clone();
                Self::Error {
                    error: Some(OpaqueError { text, payload: None }),
                    http_code: None,
                    message: Some(message),
                }
            },
        }
    }

    /// Build an envelope from the outcome of the inbound pipeline: a decoded
    /// payload becomes `Data`; a pipeline failure becomes `Error` carrying
    /// the failure itself and its short rendering as the message.
    pub fn from_payload_result(r: Result<T, PayloadError>) -> (res: Ricksponse<T>)
        ensures
            r matches Ok(t) ==> res == (Ricksponse::Data {
                data: t,
                http_code: None,
                message: None::<String>,
            }),
            r matches Err(e) ==> res matches Ricksponse::Error {
                error: Some(oe),
                http_code: None,
                message: Some(m),
            } && m@ == crate::payload_error::spec_describe(e) && oe.text@
                == crate::payload_error::spec_describe(e) && oe.payload == Some(e),
    {
        match r {
            Ok(t) => Self::Data { data: t, http_code: None, message: None },
            Err(e) => {
                let text = e.describe();
                let message = text.clone();
                Self::Error {
                    error: Some(OpaqueError { text, payload: Some(e) }),
                    http_code: None,
                    message: Some(message),
                }
            },
        }
    }

    /// Unwrap the envelope into a plain result: the payload of `Data`, or
    /// the opaque error of `Error`.
    pub fn into_result(self) -> (r: Result<T, Option<OpaqueError>>)
        ensures
            self matches Ricksponse::Data { data, .. } ==> r == Ok::<T, Option<OpaqueError>>(data),
            self matches Ricksponse::Error { error, .. } ==> r == Err::<
                T,
                Option<OpaqueError>,
            >(error),
    {
        match self {
            Ricksponse::Data { data, .. } => Ok(data),
            Ricksponse::Error { error, .. } => Err(error),
        }
    }
}

} // verus!
