//! Upstream client: the process-wide session onto the real service.
//!
//! The real backend is reached over IPC outside this library; here the
//! client is the state that owns the root session and its two sub-interface
//! handles, with the lazy-create-once contract made explicit: the handles
//! are installed at most once, never change while valid, and are released
//! only at shutdown. The caller opens the sessions, hands the handle values
//! in, and asks this state which handle to address a forwarded command to.
//! Every backend operation itself is plain request/response forwarding with
//! no retry, caching or local validation, so none of it is modeled here.

use vstd::prelude::*;

verus! {

/// Process-wide upstream session state: the root getter session and the
/// two long-lived sub-interface handles, all opaque handle values.
pub struct UpstreamClient {
    pub root_session: Option<u64>,
    pub control_data_session: Option<u64>,
    pub application_manager_session: Option<u64>,
}

impl UpstreamClient {
    /// Whether the one-time initialization has happened.
    pub open spec fn spec_initialized(&self) -> bool {
        &&& self.root_session is Some
        &&& self.control_data_session is Some
        &&& self.application_manager_session is Some
    }

    /// The not-yet-initialized client a process starts with.
    pub fn new() -> (client: Self)
        ensures
            !client.spec_initialized(),
            client.root_session is None,
            client.control_data_session is None,
            client.application_manager_session is None,
    {
        UpstreamClient {
            root_session: None,
            control_data_session: None,
            application_manager_session: None,
        }
    }

    /// Whether the caller must open the backend sessions before forwarding
    /// anything.
    pub fn needs_initialization(&self) -> (needed: bool)
        ensures
            needed == !self.spec_initialized(),
    {
        self.root_session.is_none() || self.control_data_session.is_none()
            || self.application_manager_session.is_none()
    }

    /// One-time installation of the opened sessions. Idempotent, as the
    /// original lazy initialization is: once initialized, the stored handle
    /// values never change, and a second call leaves everything as it was.
    pub fn initialize(&mut self, root: u64, control_data: u64, application_manager: u64)
        ensures
            final(self).spec_initialized(),
            old(self).spec_initialized() ==> *final(self) == *old(self),
            !old(self).spec_initialized() ==> final(self).root_session == Some(root)
                && final(self).control_data_session == Some(control_data)
                && final(self).application_manager_session == Some(application_manager),
    {
        if self.needs_initialization() {
            self.root_session = Some(root);
            self.control_data_session = Some(control_data);
            self.application_manager_session = Some(application_manager);
        }
    }

    /// The handle a forwarded control-data command is addressed to.
    pub fn get_read_only_application_control_data_interface(&self) -> (handle: u64)
        requires
            self.spec_initialized(),
        ensures
            Some(handle) == self.control_data_session,
    {
        self.control_data_session.unwrap()
    }

    /// The handle a forwarded application-manager command is addressed to.
    pub fn get_application_manager_interface(&self) -> (handle: u64)
        requires
            self.spec_initialized(),
        ensures
            Some(handle) == self.application_manager_session,
    {
        self.application_manager_session.unwrap()
    }

    /// Shutdown: releases the sessions; nothing can be forwarded afterward
    /// until a new initialization.
    pub fn finalize(&mut self)
        ensures
            !final(self).spec_initialized(),
            final(self).root_session is None,
            final(self).control_data_session is None,
            final(self).application_manager_session is None,
    {
        self.root_session = None;
        self.control_data_session = None;
        self.application_manager_session = None;
    }
}

} // verus!
