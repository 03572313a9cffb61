//! The synchronized source: one raw handle, together with the record of its
//! registration with the event notifier.
//!
//! The source is the one owner of its handle. Every registration request goes
//! to the registry, under the raw identity of that handle, and the registry's
//! answer is what the application is told: the source turns nothing away and
//! makes no error of its own. Its record follows the registry, and changes
//! only on the registry's consent. Requests take the source by `&mut`, so none
//! can overlap an operation that borrows it.

use vstd::prelude::*;
use crate::error::RegistryError;
use crate::handle::RawHandle;
use crate::interest::Interest;
use crate::token::Token;

verus! {

/// A live registration: the token under which events are delivered, and the
/// conditions that are watched.
#[derive(Clone, Copy, Debug, PartialEq, Eq, Structural)]
pub struct Registration {
    pub token: Token,
    pub interests: Interest,
}

/// What the application asks of a source.
#[derive(Clone, Copy, Debug, PartialEq, Eq, Structural)]
pub enum Request {
    /// Begin to watch the handle.
    Register { token: Token, interests: Interest },
    /// Watch the handle under another token or for other conditions, without
    /// taking it out of the registry in between.
    Reregister { token: Token, interests: Interest },
    /// Stop watching the handle.
    Deregister,
}

/// What a source asks of the registry: the request, with the raw identity of
/// the handle that it is about.
#[derive(Clone, Copy, Debug, PartialEq, Eq, Structural)]
pub enum RegistryCall {
    Register { handle: RawHandle, token: Token, interests: Interest },
    Reregister { handle: RawHandle, token: Token, interests: Interest },
    Deregister { handle: RawHandle },
}

/// What a source is: its handle, and its registration if it has one.
pub struct SourceState {
    pub handle: RawHandle,
    pub registration: Option<Registration>,
}

/// One raw handle and the record of its registration.
#[derive(Debug, PartialEq, Eq)]
pub struct IoSource {
    handle: RawHandle,
    registration: Option<Registration>,
}

/// The call that carries a request to the registry.
pub open spec fn call_for(handle: RawHandle, request: Request) -> RegistryCall {
    match request {
        Request::Register { token, interests } => RegistryCall::Register { handle, token, interests },
        Request::Reregister { token, interests } => RegistryCall::Reregister {
            handle,
            token,
            interests,
        },
        Request::Deregister => RegistryCall::Deregister { handle },
    }
}

/// The registration that a source has once the registry has consented to a
/// request.
pub open spec fn granted(request: Request) -> Option<Registration> {
    match request {
        Request::Register { token, interests } => Some(Registration { token, interests }),
        Request::Reregister { token, interests } => Some(Registration { token, interests }),
        Request::Deregister => None,
    }
}

/// The registration that a source records after a request: what the request
/// asked for where the registry consented, and else what it was.
pub open spec fn next(
    registration: Option<Registration>,
    request: Request,
    reply: Result<(), RegistryError>,
) -> Option<Registration> {
    if reply is Ok {
        granted(request)
    } else {
        registration
    }
}

/// The source that comes of taking a handle into ownership: it has the
/// handle, and no registration.
pub open spec fn adopted(handle: RawHandle) -> SourceState {
    SourceState { handle, registration: None }
}

impl View for IoSource {
    type V = SourceState;

    closed spec fn view(&self) -> SourceState {
        SourceState { handle: self.handle, registration: self.registration }
    }
}

impl IoSource {
    /// Takes a handle into ownership. The source starts out unregistered.
    ///
    /// The handle has to be in non-blocking mode already: a source does not
    /// look into this, and with a blocking handle the operations stall instead
    /// of reporting `WouldBlock`.
    pub fn new(handle: RawHandle) -> (source: IoSource)
        ensures
            source@ == adopted(handle),
    {
        IoSource { handle, registration: None }
    }

    /// The raw identity of the handle, which stays with the source.
    pub fn as_raw(&self) -> (handle: RawHandle)
        ensures
            handle == self@.handle,
    {
        self.handle
    }

    /// Gives the handle up. The source is gone with this call, and its record
    /// of a registration with it: the registry is not told.
    pub fn into_raw(self) -> (handle: RawHandle)
        ensures
            handle == self@.handle,
    {
        self.handle
    }

    /// The registration that the source has on record, if any.
    pub fn registration(&self) -> (registration: Option<Registration>)
        ensures
            registration == self@.registration,
    {
        self.registration
    }

    /// Whether the source has a registration on record.
    pub fn is_registered(&self) -> (b: bool)
        ensures
            b == (self@.registration is Some),
    {
        self.registration.is_some()
    }

    /// The call that carries a request to the registry. Every request is
    /// carried, whatever the source has on record, with the token and the
    /// interests as they were asked for: whether a request is in order is the
    /// registry's to say.
    pub fn prepare(&self, request: Request) -> (call: RegistryCall)
        ensures
            call == call_for(self@.handle, request),
    {
        match request {
            Request::Register { token, interests } => RegistryCall::Register {
                handle: self.handle,
                token,
                interests,
            },
            Request::Reregister { token, interests } => RegistryCall::Reregister {
                handle: self.handle,
                token,
                interests,
            },
            Request::Deregister => RegistryCall::Deregister { handle: self.handle },
        }
    }

    /// Records the registry's reply to the call that `prepare` gave for
    /// `request`, and returns what the application is told, which is that
    /// reply as it came. The record takes what the request asked for where the
    /// registry consented, and stays as it was where the registry refused.
    pub fn complete(&mut self, request: Request, reply: Result<(), RegistryError>) -> (result:
        Result<(), RegistryError>)
        ensures
            result == reply,
            final(self)@ == (SourceState {
                handle: old(self)@.handle,
                registration: next(old(self)@.registration, request, reply),
            }),
    {
        if reply.is_ok() {
            self.registration = match request {
                Request::Register { token, interests } => Some(Registration { token, interests }),
                Request::Reregister { token, interests } => Some(
                    Registration { token, interests },
                ),
                Request::Deregister => None,
            };
        }
        reply
    }
}

/// Giving a handle up and taking the same raw value in again yields a source
/// that has the handle of the first, and that hands the registry the same
/// calls for the same requests. It is unregistered, so it is the first source
/// over again where that one was unregistered.
pub proof fn lemma_export_then_import(state: SourceState)
    ensures
        adopted(state.handle).handle == state.handle,
        adopted(state.handle).registration is None,
        forall|request: Request| #[trigger]
            call_for(adopted(state.handle).handle, request) == call_for(state.handle, request),
        state.registration is None ==> adopted(state.handle) == state,
{
}

} // verus!
