//! Identity classifier and synthetic catalog.
//!
//! The classifier decides whether an identifier belongs to the synthetic
//! catalog; the catalog fabricates deterministic, constant-shape records,
//! views and control data for identifiers that do. Every catalog output is
//! a pure function of the identifier and compiled-in constants.

use vstd::prelude::*;
use crate::types::ApplicationId;
use crate::types::ApplicationRecord;
use crate::types::ApplicationView;
use crate::types::ApplicationViewDeprecated;
use crate::types::ApplicationViewWithPromotionInfo;
use crate::types::PromotionInfo;
use crate::types::ResultCode;
use crate::types::APPLICATION_CONTROL_PROPERTY_SIZE;
use crate::types::RESULT_CONTROL_PROPERTY_SIZE_MISMATCH;
use crate::types::RESULT_CONTROL_DATA_NOT_EXTRA;
use crate::types::RESULT_NOT_EXTRA_APPLICATION;

verus! {

/// The one reserved identifier value that makes up the synthetic catalog.
pub const EXTRA_APPLICATION_ID_VALUE: u64 = 0x0500ABBACDDCEFFE;

/// The reserved identifier, as the membership test sees it.
pub open spec fn spec_extra_application_id() -> ApplicationId {
    ApplicationId(EXTRA_APPLICATION_ID_VALUE)
}

/// The reserved identifier that the synthetic catalog serves.
pub fn extra_application_id() -> (id: ApplicationId)
    ensures
        id == spec_extra_application_id(),
{
    ApplicationId(EXTRA_APPLICATION_ID_VALUE)
}

/// Membership in the synthetic catalog: equality against the one reserved
/// identifier value.
pub open spec fn spec_is_extra_application(app_id: ApplicationId) -> bool {
    app_id == spec_extra_application_id()
}

/// Decides whether `app_id` belongs to the synthetic catalog or must be
/// forwarded to the real backend. Total and side-effect-free; the result is
/// a function of the identifier alone.
pub fn is_extra_application(app_id: ApplicationId) -> (extra: bool)
    ensures
        extra == spec_is_extra_application(app_id),
{
    app_id.0 == EXTRA_APPLICATION_ID_VALUE
}

/// The classifier is deterministic: any two results that satisfy its
/// contract for the same identifier agree.
pub proof fn lemma_classifier_deterministic(app_id: ApplicationId, first: bool, second: bool)
    requires
        first == spec_is_extra_application(app_id),
        second == spec_is_extra_application(app_id),
    ensures
        first == second,
{
}

/// The reserved identifier is always classified as synthetic.
pub proof fn lemma_reserved_id_is_extra()
    ensures
        spec_is_extra_application(spec_extra_application_id()),
{
}

/// A zero-filled byte array, as spec code sees the zeroed reserved regions.
pub open spec fn spec_zero_bytes<const N: usize>() -> [u8; N] {
    vstd::array::spec_array_fill_for_copy_type::<u8, N>(0u8)
}

/// The constant-shape view the catalog fabricates for `app_id`.
pub open spec fn spec_gen_application_view(app_id: ApplicationId) -> ApplicationView {
    ApplicationView {
        app_id,
        unk_1: 0,
        unk_flags: 0xF13,
        unk_2: spec_zero_bytes(),
        unk_3: 0,
        unk_4: 0,
        unk_reserved: spec_zero_bytes(),
        unk_6: spec_zero_bytes(),
        unk_7: spec_zero_bytes(),
        unk_8: 0,
        unk_9: 0,
        unk_reserved_2: spec_zero_bytes(),
    }
}

/// Fabricates the synthetic view for `app_id`: every field is a fixed
/// placeholder except the identifier, which is the caller's.
pub fn gen_application_view(app_id: ApplicationId) -> (view: ApplicationView)
    ensures
        view == spec_gen_application_view(app_id),
        view.app_id == app_id,
{
    ApplicationView {
        app_id,
        unk_1: 0,
        unk_flags: 0xF13,
        unk_2: [0u8; 16],
        unk_3: 0,
        unk_4: 0,
        unk_reserved: [0u8; 2],
        unk_6: [0u8; 8],
        unk_7: [0u8; 16],
        unk_8: 0,
        unk_9: 0,
        unk_reserved_2: [0u8; 11],
    }
}

/// The field-dropping projection from the current view layout onto the
/// deprecated one: every field shared by both layouts is copied field for
/// field (the two-byte reserved region included), fields absent from the
/// deprecated layout are dropped, and the deprecated layout's own trailing
/// reserved region — which has no counterpart in the current layout — is
/// zeroed.
pub open spec fn spec_convert_application_view_to_deprecated(
    view: ApplicationView,
) -> ApplicationViewDeprecated {
    ApplicationViewDeprecated {
        app_id: view.app_id,
        unk_1: view.unk_1,
        unk_flags: view.unk_flags,
        unk_2: view.unk_2,
        unk_3: view.unk_3,
        unk_4: view.unk_4,
        unk_reserved: view.unk_reserved,
        unk_7: view.unk_7,
        unk_8: view.unk_8,
        unk_9: view.unk_9,
        unk_reserved_3: spec_zero_bytes(),
    }
}

/// Projects a current-layout view onto the deprecated layout, field for field.
pub fn convert_application_view_to_deprecated(view: ApplicationView) -> (deprecated: ApplicationViewDeprecated)
    ensures
        deprecated == spec_convert_application_view_to_deprecated(view),
{
    ApplicationViewDeprecated {
        app_id: view.app_id,
        unk_1: view.unk_1,
        unk_flags: view.unk_flags,
        unk_2: view.unk_2,
        unk_3: view.unk_3,
        unk_4: view.unk_4,
        unk_reserved: view.unk_reserved,
        unk_7: view.unk_7,
        unk_8: view.unk_8,
        unk_9: view.unk_9,
        unk_reserved_3: [0u8; 3],
    }
}

/// The deprecated-layout view the catalog fabricates for `app_id`.
pub open spec fn spec_gen_deprecated_application_view(app_id: ApplicationId) -> ApplicationViewDeprecated {
    spec_convert_application_view_to_deprecated(spec_gen_application_view(app_id))
}

/// Fabricates the synthetic deprecated-layout view for `app_id`. Always the
/// projection of the current-layout synthetic view, never an independent
/// literal, so the two layouts cannot diverge.
pub fn gen_deprecated_application_view(app_id: ApplicationId) -> (deprecated: ApplicationViewDeprecated)
    ensures
        deprecated == spec_gen_deprecated_application_view(app_id),
{
    convert_application_view_to_deprecated(gen_application_view(app_id))
}

/// Derivation law: for every identifier, the synthetic deprecated view
/// equals the structural projection of the synthetic current view.
pub proof fn lemma_deprecated_view_is_projection(app_id: ApplicationId)
    ensures
        spec_gen_deprecated_application_view(app_id) == spec_convert_application_view_to_deprecated(
            spec_gen_application_view(app_id),
        ),
{
}

/// The promotion-extended view the catalog fabricates for `app_id`: the
/// synthetic view plus a zeroed promotion trailer.
pub open spec fn spec_gen_application_view_with_promotion_info(
    app_id: ApplicationId,
) -> ApplicationViewWithPromotionInfo {
    ApplicationViewWithPromotionInfo {
        view: spec_gen_application_view(app_id),
        info: PromotionInfo { todo_data: spec_zero_bytes() },
    }
}

/// Fabricates the synthetic promotion-extended view for `app_id`.
pub fn gen_application_view_with_promotion_info(app_id: ApplicationId) -> (extended: ApplicationViewWithPromotionInfo)
    ensures
        extended == spec_gen_application_view_with_promotion_info(app_id),
        extended.view == spec_gen_application_view(app_id),
{
    ApplicationViewWithPromotionInfo {
        view: gen_application_view(app_id),
        info: PromotionInfo { todo_data: [0u8; 32] },
    }
}

/// The constant-shape catalog record the catalog fabricates for `app_id`.
pub open spec fn spec_gen_application_record(app_id: ApplicationId) -> ApplicationRecord {
    ApplicationRecord {
        app_id,
        unk_type: 0x3,
        unk_2: 2,
        unk_3: spec_zero_bytes(),
        unk_4: 0,
        unk_reserved: spec_zero_bytes(),
    }
}

/// Fabricates the synthetic catalog record for `app_id`.
pub fn gen_application_record(app_id: ApplicationId) -> (record: ApplicationRecord)
    ensures
        record == spec_gen_application_record(app_id),
        record.app_id == app_id,
{
    ApplicationRecord {
        app_id,
        unk_type: 0x3,
        unk_2: 2,
        unk_3: [0u8; 6],
        unk_4: 0,
        unk_reserved: [0u8; 7],
    }
}

/// Serves the synthetic view for `app_id`, or reports that the identifier is
/// outside the synthetic catalog.
pub fn get_extra_application_view(app_id: ApplicationId) -> (result: Result<ApplicationView, ResultCode>)
    ensures
        spec_is_extra_application(app_id) ==> result == Ok::<ApplicationView, ResultCode>(
            spec_gen_application_view(app_id),
        ),
        !spec_is_extra_application(app_id) ==> result == Err::<ApplicationView, ResultCode>(
            ResultCode(RESULT_NOT_EXTRA_APPLICATION),
        ),
{
    if is_extra_application(app_id) {
        Ok(gen_application_view(app_id))
    } else {
        Err(ResultCode(RESULT_NOT_EXTRA_APPLICATION))
    }
}

/// Serves the synthetic promotion-extended view for `app_id`, or reports
/// that the identifier is outside the synthetic catalog.
pub fn get_extra_application_view_with_promotion_info(app_id: ApplicationId) -> (result: Result<
    ApplicationViewWithPromotionInfo,
    ResultCode,
>)
    ensures
        spec_is_extra_application(app_id) ==> result == Ok::<
            ApplicationViewWithPromotionInfo,
            ResultCode,
        >(spec_gen_application_view_with_promotion_info(app_id)),
        !spec_is_extra_application(app_id) ==> result == Err::<
            ApplicationViewWithPromotionInfo,
            ResultCode,
        >(ResultCode(RESULT_NOT_EXTRA_APPLICATION)),
{
    if is_extra_application(app_id) {
        Ok(gen_application_view_with_promotion_info(app_id))
    } else {
        Err(ResultCode(RESULT_NOT_EXTRA_APPLICATION))
    }
}

/// The catalog's full record listing: exactly one record, for the reserved
/// identifier. Finite, restartable and order-stable, so callers may compute
/// splice offsets from its length before materializing it.
pub open spec fn spec_extra_application_records() -> Seq<ApplicationRecord> {
    seq![spec_gen_application_record(spec_extra_application_id())]
}

/// Materializes the catalog's record listing.
pub fn get_extra_application_records() -> (records: Vec<ApplicationRecord>)
    ensures
        records@ == spec_extra_application_records(),
        records@.len() == 1,
{
    let mut records: Vec<ApplicationRecord> = Vec::new();
    records.push(gen_application_record(extra_application_id()));
    proof {
        assert(records@ =~= spec_extra_application_records());
    }
    records
}

/// Contents of the bundled control-property (metadata) blob: a zero-filled
/// structure of exactly the expected fixed size.
pub open spec fn spec_bundled_control_property_data() -> Seq<u8> {
    Seq::new(APPLICATION_CONTROL_PROPERTY_SIZE as nat, |i: int| 0u8)
}

/// Contents of the bundled icon image blob: a minimal image, held as a
/// compiled-in constant.
pub open spec fn spec_bundled_icon_data() -> Seq<u8> {
    seq![0xFFu8, 0xD8u8, 0xFFu8, 0xD9u8]
}

/// Materializes the bundled control-property blob.
pub fn bundled_control_property_data() -> (data: Vec<u8>)
    ensures
        data@ == spec_bundled_control_property_data(),
        data@.len() == APPLICATION_CONTROL_PROPERTY_SIZE,
{
    let mut data: Vec<u8> = Vec::new();
    while data.len() < APPLICATION_CONTROL_PROPERTY_SIZE
        invariant
            data@.len() <= APPLICATION_CONTROL_PROPERTY_SIZE,
            forall|k: int| 0 <= k < data@.len() ==> data@[k] == 0u8,
        decreases APPLICATION_CONTROL_PROPERTY_SIZE - data@.len(),
    {
        data.push(0u8);
    }
    proof {
        assert(data@ =~= spec_bundled_control_property_data());
    }
    data
}

/// Materializes the bundled icon blob.
pub fn bundled_icon_data() -> (data: Vec<u8>)
    ensures
        data@ == spec_bundled_icon_data(),
{
    let mut data: Vec<u8> = Vec::new();
    data.push(0xFFu8);
    data.push(0xD8u8);
    data.push(0xFFu8);
    data.push(0xD9u8);
    proof {
        assert(data@ =~= spec_bundled_icon_data());
    }
    data
}

/// Serves the control-data blob pair for a synthetic identifier: the bundled
/// metadata blob and the bundled icon blob. Fails when the identifier is
/// outside the catalog, and surfaces the integrity error when the metadata
/// blob's length differs from the expected fixed structure size (a defensive
/// check; it cannot trigger for the bundled blob, which the contract proves).
pub fn get_extra_application_control_data(app_id: ApplicationId) -> (result: Result<
    (Vec<u8>, Vec<u8>),
    ResultCode,
>)
    ensures
        spec_is_extra_application(app_id) ==> (result matches Ok(pair)
            && pair.0@ == spec_bundled_control_property_data()
            && pair.1@ == spec_bundled_icon_data()),
        !spec_is_extra_application(app_id) ==> result == Err::<(Vec<u8>, Vec<u8>), ResultCode>(
            ResultCode(RESULT_CONTROL_DATA_NOT_EXTRA),
        ),
{
    if is_extra_application(app_id) {
        let property_data = bundled_control_property_data();
        let icon_data = bundled_icon_data();
        if property_data.len() != APPLICATION_CONTROL_PROPERTY_SIZE {
            Err(ResultCode(RESULT_CONTROL_PROPERTY_SIZE_MISMATCH))
        } else {
            Ok((property_data, icon_data))
        }
    } else {
        Err(ResultCode(RESULT_CONTROL_DATA_NOT_EXTRA))
    }
}

} // verus!
