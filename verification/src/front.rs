//! Service front: the per-session interception state machine and the local
//! sub-interface objects handed to an attached client.
//!
//! Every accepted client session walks Unattached -> Attached ->
//! Dispatching -> (repeat) -> Closed; a command is dispatched only while
//! the session is attached, and never after it closes — the contracts of
//! the transition and handler methods enforce exactly that. The handlers
//! themselves only decide and merge: the backend's answer for the real
//! half of a request comes in as an argument, and a `Disposition::Forward`
//! result directs the caller to relay the command verbatim.

use vstd::prelude::*;
use crate::catalog::spec_is_extra_application;
use crate::catalog::spec_bundled_control_property_data;
use crate::catalog::spec_bundled_icon_data;
use crate::catalog::spec_extra_application_records;
use crate::merge::Disposition;
use crate::merge::spec_merged_view;
use crate::merge::spec_merged_deprecated_view;
use crate::merge::spec_merged_view_with_promotion_info;
use crate::merge::spec_real_application_ids;
use crate::merge::spec_gen_application_rights_on_client;
use crate::merge::merge_application_views;
use crate::merge::merge_deprecated_application_views;
use crate::merge::merge_application_views_with_promotion_info;
use crate::merge::list_application_record_merged;
use crate::merge::generate_application_record_count_merged;
use crate::merge::get_application_control_data_merged;
use crate::merge::get_application_rights_on_client_merged;
use crate::types::ApplicationControlSource;
use crate::types::ApplicationId;
use crate::types::ApplicationRecord;
use crate::types::ApplicationRightsOnClient;
use crate::types::ApplicationView;
use crate::types::ApplicationViewDeprecated;
use crate::types::ApplicationViewWithPromotionInfo;
use crate::types::GetterServiceKind;
use crate::types::MitmProcessInfo;
use crate::types::ResultCode;
use crate::types::Uid;
use crate::types::RESULT_UNIMPLEMENTED_COMMAND;

verus! {

/// Lifecycle of one accepted client session.
#[derive(Copy, Clone, PartialEq, Eq, Structural, Debug)]
pub enum SessionState {
    /// Accepted by the interceptor, no sub-interface handed out yet.
    Unattached,
    /// Bound to a client; between commands.
    Attached,
    /// A command is running to completion.
    Dispatching,
    /// Terminated; nothing may be dispatched any more.
    Closed,
}

/// Locally constructed stand-in for the read-only control-data
/// sub-interface of the real service.
pub struct ReadOnlyApplicationControlDataInterface {
}

impl ReadOnlyApplicationControlDataInterface {
    /// A fresh local sub-interface object.
    pub fn new() -> (intf: Self) {
        ReadOnlyApplicationControlDataInterface {  }
    }

    /// Control-data command: a synthetic identifier is answered locally
    /// with the bundled metadata and icon blobs spliced into one buffer;
    /// any other identifier is forwarded, with `source` relayed unchanged.
    pub fn get_application_control_data(
        &mut self,
        source: ApplicationControlSource,
        app_id: ApplicationId,
    ) -> (result: Result<Disposition<Vec<u8>>, ResultCode>)
        ensures
            !spec_is_extra_application(app_id) ==> result == Ok::<
                Disposition<Vec<u8>>,
                ResultCode,
            >(Disposition::Forward),
            spec_is_extra_application(app_id) ==> (result matches Ok(d) && d
                matches Disposition::Local(buffer) && buffer@
                == spec_bundled_control_property_data() + spec_bundled_icon_data()),
    {
        let _source: ApplicationControlSource = source;
        get_application_control_data_merged(app_id)
    }

    /// Intentionally unimplemented legacy command: answered with the
    /// documented unimplemented-command error instead of aborting, since
    /// the command is reachable by any client.
    pub fn select_application_desired_language(&mut self) -> (result: Result<(), ResultCode>)
        ensures
            result == Err::<(), ResultCode>(ResultCode(RESULT_UNIMPLEMENTED_COMMAND)),
    {
        Err(ResultCode(RESULT_UNIMPLEMENTED_COMMAND))
    }
}

/// Locally constructed stand-in for the application-manager sub-interface
/// of the real service.
pub struct ApplicationManagerInterface {
}

impl ApplicationManagerInterface {
    /// A fresh local sub-interface object.
    pub fn new() -> (intf: Self) {
        ApplicationManagerInterface {  }
    }

    /// Record-listing command (Shape B): the backend already wrote
    /// `real_count` records into the front of `out_records`; the catalog's
    /// records are appended right after them and the combined count is
    /// returned.
    pub fn list_application_record(
        &mut self,
        entry_offset: u32,
        real_count: u32,
        out_records: &mut Vec<ApplicationRecord>,
    ) -> (count: u32)
        requires
            entry_offset == 0,
            real_count + spec_extra_application_records().len() <= old(out_records)@.len(),
            real_count + spec_extra_application_records().len() <= u32::MAX,
        ensures
            final(out_records)@.len() == old(out_records)@.len(),
            count == real_count + spec_extra_application_records().len(),
            forall|k: int| 0 <= k < real_count ==> final(out_records)@[k] == old(out_records)@[k],
            forall|k: int|
                0 <= k < spec_extra_application_records().len() ==> final(out_records)@[real_count
                    + k] == spec_extra_application_records()[k],
            forall|k: int|
                count <= k < final(out_records)@.len() ==> final(out_records)@[k] == old(
                    out_records,
                )@[k],
    {
        list_application_record_merged(entry_offset, real_count, out_records)
    }

    /// Record-count command: the backend's count plus the catalog's.
    pub fn generate_application_record_count(&mut self, real_count: u64) -> (count: u64)
        requires
            real_count + spec_extra_application_records().len() <= u64::MAX,
        ensures
            count == real_count + spec_extra_application_records().len(),
    {
        generate_application_record_count_merged(real_count)
    }

    /// Bulk deprecated-view command (Shape A): one view per requested
    /// identifier, in request order; `real_views` are the backend's answers
    /// for the real sub-sequence of `app_ids`.
    pub fn get_application_view_deprecated(
        &mut self,
        app_ids: &Vec<ApplicationId>,
        real_views: &Vec<ApplicationViewDeprecated>,
    ) -> (views: Vec<ApplicationViewDeprecated>)
        requires
            real_views@.len() == spec_real_application_ids(app_ids@).len(),
        ensures
            views@.len() == app_ids@.len(),
            forall|k: int|
                0 <= k < app_ids@.len() ==> views@[k] == spec_merged_deprecated_view(
                    app_ids@,
                    real_views@,
                    k,
                ),
    {
        merge_deprecated_application_views(app_ids, real_views)
    }

    /// Bulk view command (Shape A), current layout.
    pub fn get_application_view(
        &mut self,
        app_ids: &Vec<ApplicationId>,
        real_views: &Vec<ApplicationView>,
    ) -> (views: Vec<ApplicationView>)
        requires
            real_views@.len() == spec_real_application_ids(app_ids@).len(),
        ensures
            views@.len() == app_ids@.len(),
            forall|k: int|
                0 <= k < app_ids@.len() ==> views@[k] == spec_merged_view(app_ids@, real_views@, k),
    {
        merge_application_views(app_ids, real_views)
    }

    /// Bulk view command (Shape A), promotion-extended layout.
    pub fn get_application_view_with_promotion_info(
        &mut self,
        app_ids: &Vec<ApplicationId>,
        real_views: &Vec<ApplicationViewWithPromotionInfo>,
    ) -> (views: Vec<ApplicationViewWithPromotionInfo>)
        requires
            real_views@.len() == spec_real_application_ids(app_ids@).len(),
        ensures
            views@.len() == app_ids@.len(),
            forall|k: int|
                0 <= k < app_ids@.len() ==> views@[k] == spec_merged_view_with_promotion_info(
                    app_ids@,
                    real_views@,
                    k,
                ),
    {
        merge_application_views_with_promotion_info(app_ids, real_views)
    }

    /// Scalar control-data command, identical in behavior to the one on the
    /// read-only sub-interface.
    pub fn get_application_control_data(
        &mut self,
        source: ApplicationControlSource,
        app_id: ApplicationId,
    ) -> (result: Result<Disposition<Vec<u8>>, ResultCode>)
        ensures
            !spec_is_extra_application(app_id) ==> result == Ok::<
                Disposition<Vec<u8>>,
                ResultCode,
            >(Disposition::Forward),
            spec_is_extra_application(app_id) ==> (result matches Ok(d) && d
                matches Disposition::Local(buffer) && buffer@
                == spec_bundled_control_property_data() + spec_bundled_icon_data()),
    {
        let _source: ApplicationControlSource = source;
        get_application_control_data_merged(app_id)
    }

    /// Rights-on-client command: one fabricated record, count one, for a
    /// synthetic identifier; forwarded untouched otherwise.
    pub fn get_application_rights_on_client(
        &mut self,
        flags: u32,
        app_id: ApplicationId,
        uid: Uid,
    ) -> (result: Disposition<(ApplicationRightsOnClient, u32)>)
        ensures
            spec_is_extra_application(app_id) ==> result == Disposition::Local(
                (spec_gen_application_rights_on_client(app_id, uid), 1u32),
            ),
            !spec_is_extra_application(app_id) ==> result == Disposition::<
                (ApplicationRightsOnClient, u32),
            >::Forward,
    {
        get_application_rights_on_client_merged(flags, app_id, uid)
    }
}

/// The interceptor's per-session getter object: the state machine every
/// accepted client session walks, and the two bootstrap operations.
pub struct ServiceGetterInterface {
    pub kind: GetterServiceKind,
    pub state: SessionState,
}

impl ServiceGetterInterface {
    /// Accepts an incoming session from a client process. The shim
    /// intercepts every process, so acceptance is unconditional.
    pub fn new(kind: GetterServiceKind, info: MitmProcessInfo) -> (session: Self)
        ensures
            session.kind == kind,
            session.state == SessionState::Unattached,
    {
        let _info: MitmProcessInfo = info;
        ServiceGetterInterface { kind, state: SessionState::Unattached }
    }

    /// Binds the accepted session to its client.
    pub fn attach(&mut self)
        requires
            old(self).state == SessionState::Unattached,
        ensures
            final(self).state == SessionState::Attached,
            final(self).kind == old(self).kind,
    {
        self.state = SessionState::Attached;
    }

    /// Starts dispatching one command; only an attached session may
    /// dispatch, so nothing runs after the session closed.
    pub fn begin_command(&mut self)
        requires
            old(self).state == SessionState::Attached,
        ensures
            final(self).state == SessionState::Dispatching,
            final(self).kind == old(self).kind,
    {
        self.state = SessionState::Dispatching;
    }

    /// Finishes the running command; the session is ready for the next one.
    pub fn finish_command(&mut self)
        requires
            old(self).state == SessionState::Dispatching,
        ensures
            final(self).state == SessionState::Attached,
            final(self).kind == old(self).kind,
    {
        self.state = SessionState::Attached;
    }

    /// Terminates the session: the client went away or the server shuts
    /// down. Terminal — no transition leaves the closed state.
    pub fn close(&mut self)
        ensures
            final(self).state == SessionState::Closed,
            final(self).kind == old(self).kind,
    {
        self.state = SessionState::Closed;
    }

    /// Bootstrap operation: a freshly constructed local control-data
    /// sub-interface, distinct from (but answered out of) the process-wide
    /// upstream client.
    pub fn get_read_only_application_control_data_interface(&mut self) -> (intf: ReadOnlyApplicationControlDataInterface)
        requires
            old(self).state == SessionState::Dispatching,
        ensures
            *final(self) == *old(self),
    {
        ReadOnlyApplicationControlDataInterface::new()
    }

    /// Bootstrap operation: a freshly constructed local application-manager
    /// sub-interface.
    pub fn get_application_manager_interface(&mut self) -> (intf: ApplicationManagerInterface)
        requires
            old(self).state == SessionState::Dispatching,
        ensures
            *final(self) == *old(self),
    {
        ApplicationManagerInterface::new()
    }
}

} // verus!
