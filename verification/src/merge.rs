//! Merge engine: splices synthetic catalog results into real backend results.
//!
//! Two merge shapes exist. Shape A translates an ordered identifier sequence
//! into a same-length result sequence: synthetic identifiers are answered by
//! the catalog in place, real ones consume the backend's answers in order.
//! Shape B appends the catalog's listing after the real items the backend
//! already wrote into a caller's buffer and reports the combined count. The
//! backend's calls themselves happen outside the library; its answers come
//! in as arguments, already in the 1:1 positional correspondence with the
//! real-identifier sub-sequence that the backend guarantees.

use vstd::prelude::*;
use crate::catalog::spec_is_extra_application;
use crate::catalog::is_extra_application;
use crate::catalog::spec_gen_application_view;
use crate::catalog::gen_application_view;
use crate::catalog::spec_gen_deprecated_application_view;
use crate::catalog::gen_deprecated_application_view;
use crate::catalog::spec_gen_application_view_with_promotion_info;
use crate::catalog::gen_application_view_with_promotion_info;
use crate::catalog::spec_extra_application_records;
use crate::catalog::get_extra_application_records;
use crate::catalog::spec_bundled_control_property_data;
use crate::catalog::spec_bundled_icon_data;
use crate::catalog::get_extra_application_control_data;
use crate::types::ApplicationId;
use crate::types::ApplicationRecord;
use crate::types::ApplicationRightsOnClient;
use crate::types::ApplicationView;
use crate::types::ApplicationViewDeprecated;
use crate::types::ApplicationViewWithPromotionInfo;
use crate::types::ResultCode;
use crate::types::Uid;
use crate::types::APPLICATION_CONTROL_PROPERTY_SIZE;
use crate::types::RESULT_CONTROL_PROPERTY_SIZE_MISMATCH;

verus! {

/// The sub-sequence of identifiers the classifier calls real (not
/// synthetic), in their original relative order. This is the exact request
/// sequence the upstream backend is asked to answer.
pub open spec fn spec_real_application_ids(app_ids: Seq<ApplicationId>) -> Seq<ApplicationId>
    decreases app_ids.len(),
{
    if app_ids.len() == 0 {
        Seq::empty()
    } else {
        let rest = spec_real_application_ids(app_ids.drop_last());
        if spec_is_extra_application(app_ids.last()) {
            rest
        } else {
            rest.push(app_ids.last())
        }
    }
}

/// Extending the input by one identifier extends the real sub-sequence by
/// that identifier exactly when it is real.
pub proof fn lemma_real_ids_take_succ(app_ids: Seq<ApplicationId>, i: int)
    requires
        0 <= i < app_ids.len(),
    ensures
        spec_real_application_ids(app_ids.take(i + 1)) == if spec_is_extra_application(
            app_ids[i],
        ) {
            spec_real_application_ids(app_ids.take(i))
        } else {
            spec_real_application_ids(app_ids.take(i)).push(app_ids[i])
        },
{
    assert(app_ids.take(i + 1).drop_last() =~= app_ids.take(i));
    assert(app_ids.take(i + 1).last() == app_ids[i]);
}

/// The real sub-sequence of a prefix is never longer than that of a longer
/// prefix.
pub proof fn lemma_real_ids_len_monotonic(app_ids: Seq<ApplicationId>, i: int, j: int)
    requires
        0 <= i <= j <= app_ids.len(),
    ensures
        spec_real_application_ids(app_ids.take(i)).len() <= spec_real_application_ids(
            app_ids.take(j),
        ).len(),
    decreases j - i,
{
    if i < j {
        lemma_real_ids_take_succ(app_ids, j - 1);
        lemma_real_ids_len_monotonic(app_ids, i, j - 1);
    }
}

/// A full-length prefix is the sequence itself.
pub proof fn lemma_real_ids_take_all(app_ids: Seq<ApplicationId>)
    ensures
        spec_real_application_ids(app_ids.take(app_ids.len() as int)) == spec_real_application_ids(
            app_ids,
        ),
{
    assert(app_ids.take(app_ids.len() as int) =~= app_ids);
}

/// Partitions a request: keeps exactly the identifiers that must be
/// forwarded to the real backend, preserving their relative order.
pub fn partition_real_application_ids(app_ids: &Vec<ApplicationId>) -> (real_ids: Vec<ApplicationId>)
    ensures
        real_ids@ == spec_real_application_ids(app_ids@),
{
    let mut real_ids: Vec<ApplicationId> = Vec::new();
    let mut i: usize = 0;
    while i < app_ids.len()
        invariant
            i <= app_ids@.len(),
            real_ids@ == spec_real_application_ids(app_ids@.take(i as int)),
        decreases app_ids@.len() - i,
    {
        let app_id = app_ids[i];
        proof {
            lemma_real_ids_take_succ(app_ids@, i as int);
        }
        if !is_extra_application(app_id) {
            real_ids.push(app_id);
        }
        i = i + 1;
    }
    proof {
        lemma_real_ids_take_all(app_ids@);
    }
    real_ids
}

/// Element `k` of a merged current-layout view sequence: the synthetic view
/// for a synthetic identifier, otherwise the next unconsumed real answer
/// (the one whose position equals the number of real identifiers before `k`).
pub open spec fn spec_merged_view(
    app_ids: Seq<ApplicationId>,
    real_views: Seq<ApplicationView>,
    k: int,
) -> ApplicationView {
    if spec_is_extra_application(app_ids[k]) {
        spec_gen_application_view(app_ids[k])
    } else {
        real_views[spec_real_application_ids(app_ids.take(k)).len() as int]
    }
}

/// Shape A merge for current-layout views. `real_views` are the backend's
/// answers for exactly the real sub-sequence of `app_ids`, in order; the
/// output holds one view per requested identifier, at the identifier's own
/// position.
pub fn merge_application_views(
    app_ids: &Vec<ApplicationId>,
    real_views: &Vec<ApplicationView>,
) -> (views: Vec<ApplicationView>)
    requires
        real_views@.len() == spec_real_application_ids(app_ids@).len(),
    ensures
        views@.len() == app_ids@.len(),
        forall|k: int|
            0 <= k < app_ids@.len() ==> views@[k] == spec_merged_view(app_ids@, real_views@, k),
{
    let mut views: Vec<ApplicationView> = Vec::new();
    let mut next_real: usize = 0;
    let mut i: usize = 0;
    while i < app_ids.len()
        invariant
            i <= app_ids@.len(),
            real_views@.len() == spec_real_application_ids(app_ids@).len(),
            views@.len() == i,
            next_real == spec_real_application_ids(app_ids@.take(i as int)).len(),
            forall|k: int|
                0 <= k < i ==> views@[k] == spec_merged_view(app_ids@, real_views@, k),
        decreases app_ids@.len() - i,
    {
        proof {
            lemma_real_ids_take_succ(app_ids@, i as int);
        }
        let app_id = app_ids[i];
        if is_extra_application(app_id) {
            views.push(gen_application_view(app_id));
        } else {
            proof {
                lemma_real_ids_len_monotonic(app_ids@, i as int + 1, app_ids@.len() as int);
                lemma_real_ids_take_all(app_ids@);
                vstd::std_specs::vec::axiom_spec_len(real_views);
            }
            views.push(real_views[next_real]);
            next_real = next_real + 1;
        }
        i = i + 1;
    }
    views
}

/// Element `k` of a merged deprecated-layout view sequence.
pub open spec fn spec_merged_deprecated_view(
    app_ids: Seq<ApplicationId>,
    real_views: Seq<ApplicationViewDeprecated>,
    k: int,
) -> ApplicationViewDeprecated {
    if spec_is_extra_application(app_ids[k]) {
        spec_gen_deprecated_application_view(app_ids[k])
    } else {
        real_views[spec_real_application_ids(app_ids.take(k)).len() as int]
    }
}

/// Shape A merge for deprecated-layout views.
pub fn merge_deprecated_application_views(
    app_ids: &Vec<ApplicationId>,
    real_views: &Vec<ApplicationViewDeprecated>,
) -> (views: Vec<ApplicationViewDeprecated>)
    requires
        real_views@.len() == spec_real_application_ids(app_ids@).len(),
    ensures
        views@.len() == app_ids@.len(),
        forall|k: int|
            0 <= k < app_ids@.len() ==> views@[k] == spec_merged_deprecated_view(
                app_ids@,
                real_views@,
                k,
            ),
{
    let mut views: Vec<ApplicationViewDeprecated> = Vec::new();
    let mut next_real: usize = 0;
    let mut i: usize = 0;
    while i < app_ids.len()
        invariant
            i <= app_ids@.len(),
            real_views@.len() == spec_real_application_ids(app_ids@).len(),
            views@.len() == i,
            next_real == spec_real_application_ids(app_ids@.take(i as int)).len(),
            forall|k: int|
                0 <= k < i ==> views@[k] == spec_merged_deprecated_view(app_ids@, real_views@, k),
        decreases app_ids@.len() - i,
    {
        proof {
            lemma_real_ids_take_succ(app_ids@, i as int);
        }
        let app_id = app_ids[i];
        if is_extra_application(app_id) {
            views.push(gen_deprecated_application_view(app_id));
        } else {
            proof {
                lemma_real_ids_len_monotonic(app_ids@, i as int + 1, app_ids@.len() as int);
                lemma_real_ids_take_all(app_ids@);
                vstd::std_specs::vec::axiom_spec_len(real_views);
            }
            views.push(real_views[next_real]);
            next_real = next_real + 1;
        }
        i = i + 1;
    }
    views
}

/// Element `k` of a merged promotion-extended view sequence.
pub open spec fn spec_merged_view_with_promotion_info(
    app_ids: Seq<ApplicationId>,
    real_views: Seq<ApplicationViewWithPromotionInfo>,
    k: int,
) -> ApplicationViewWithPromotionInfo {
    if spec_is_extra_application(app_ids[k]) {
        spec_gen_application_view_with_promotion_info(app_ids[k])
    } else {
        real_views[spec_real_application_ids(app_ids.take(k)).len() as int]
    }
}

/// Shape A merge for promotion-extended views.
pub fn merge_application_views_with_promotion_info(
    app_ids: &Vec<ApplicationId>,
    real_views: &Vec<ApplicationViewWithPromotionInfo>,
) -> (views: Vec<ApplicationViewWithPromotionInfo>)
    requires
        real_views@.len() == spec_real_application_ids(app_ids@).len(),
    ensures
        views@.len() == app_ids@.len(),
        forall|k: int|
            0 <= k < app_ids@.len() ==> views@[k] == spec_merged_view_with_promotion_info(
                app_ids@,
                real_views@,
                k,
            ),
{
    let mut views: Vec<ApplicationViewWithPromotionInfo> = Vec::new();
    let mut next_real: usize = 0;
    let mut i: usize = 0;
    while i < app_ids.len()
        invariant
            i <= app_ids@.len(),
            real_views@.len() == spec_real_application_ids(app_ids@).len(),
            views@.len() == i,
            next_real == spec_real_application_ids(app_ids@.take(i as int)).len(),
            forall|k: int|
                0 <= k < i ==> views@[k] == spec_merged_view_with_promotion_info(
                    app_ids@,
                    real_views@,
                    k,
                ),
        decreases app_ids@.len() - i,
    {
        proof {
            lemma_real_ids_take_succ(app_ids@, i as int);
        }
        let app_id = app_ids[i];
        if is_extra_application(app_id) {
            views.push(gen_application_view_with_promotion_info(app_id));
        } else {
            proof {
                lemma_real_ids_len_monotonic(app_ids@, i as int + 1, app_ids@.len() as int);
                lemma_real_ids_take_all(app_ids@);
                vstd::std_specs::vec::axiom_spec_len(real_views);
            }
            views.push(real_views[next_real]);
            next_real = next_real + 1;
        }
        i = i + 1;
    }
    views
}

/// Outcome of a scalar intercepted command: either a locally fabricated
/// reply, or the direction to forward the request to the real backend
/// verbatim and return its answer unchanged.
pub enum Disposition<T> {
    Local(T),
    Forward,
}

/// Shape B merge for the record listing. The backend has already written
/// `real_count` records into the front of the caller's buffer; the
/// catalog's listing is appended right after them, never interleaved, and
/// the combined count is returned. Listing is only supported from the start
/// of the catalog, and the caller's buffer must have room for the combined
/// result — both stated here as explicit preconditions rather than assumed.
pub fn list_application_record_merged(
    entry_offset: u32,
    real_count: u32,
    out_records: &mut Vec<ApplicationRecord>,
) -> (count: u32)
    requires
        entry_offset == 0,
        real_count + spec_extra_application_records().len() <= old(out_records)@.len(),
        real_count + spec_extra_application_records().len() <= u32::MAX,
    ensures
        final(out_records)@.len() == old(out_records)@.len(),
        count == real_count + spec_extra_application_records().len(),
        forall|k: int| 0 <= k < real_count ==> final(out_records)@[k] == old(out_records)@[k],
        forall|k: int|
            0 <= k < spec_extra_application_records().len() ==> final(out_records)@[real_count + k]
                == spec_extra_application_records()[k],
        forall|k: int|
            count <= k < final(out_records)@.len() ==> final(out_records)@[k] == old(
                out_records,
            )@[k],
{
    let extra_records = get_extra_application_records();
    let real_len = real_count as usize;
    let mut i: usize = 0;
    while i < extra_records.len()
        invariant
            extra_records@ == spec_extra_application_records(),
            real_len == real_count,
            i <= extra_records@.len(),
            real_len + extra_records@.len() <= out_records@.len(),
            out_records@.len() == old(out_records)@.len(),
            forall|k: int| 0 <= k < real_len ==> out_records@[k] == old(out_records)@[k],
            forall|k: int| 0 <= k < i ==> out_records@[real_len + k] == extra_records@[k],
            forall|k: int|
                real_len + extra_records@.len() <= k < out_records@.len() ==> out_records@[k]
                    == old(out_records)@[k],
        decreases extra_records@.len() - i,
    {
        out_records[real_len + i] = extra_records[i];
        i = i + 1;
    }
    real_count + (extra_records.len() as u32)
}

/// Combined record count: the backend's count plus the catalog's item count.
pub fn generate_application_record_count_merged(real_count: u64) -> (count: u64)
    requires
        real_count + spec_extra_application_records().len() <= u64::MAX,
    ensures
        count == real_count + spec_extra_application_records().len(),
{
    let extra_records = get_extra_application_records();
    real_count + (extra_records.len() as u64)
}

/// Builds the combined control-data buffer: the metadata blob first, at
/// offset zero, then the icon blob immediately after it, at an offset equal
/// to the metadata blob's exact byte length. The metadata blob's length is
/// checked against the expected fixed structure size first, so the two
/// offset conventions (structure size versus blob length) provably
/// coincide; a mismatch surfaces the integrity error.
pub fn build_control_data_buffer(property_data: &Vec<u8>, icon_data: &Vec<u8>) -> (result: Result<
    Vec<u8>,
    ResultCode,
>)
    ensures
        property_data@.len() == APPLICATION_CONTROL_PROPERTY_SIZE ==> (result matches Ok(buffer)
            && buffer@ == property_data@ + icon_data@),
        property_data@.len() != APPLICATION_CONTROL_PROPERTY_SIZE ==> result == Err::<
            Vec<u8>,
            ResultCode,
        >(ResultCode(RESULT_CONTROL_PROPERTY_SIZE_MISMATCH)),
{
    if property_data.len() != APPLICATION_CONTROL_PROPERTY_SIZE {
        return Err(ResultCode(RESULT_CONTROL_PROPERTY_SIZE_MISMATCH));
    }
    let mut buffer: Vec<u8> = Vec::new();
    let mut i: usize = 0;
    while i < property_data.len()
        invariant
            i <= property_data@.len(),
            buffer@ =~= property_data@.take(i as int),
        decreases property_data@.len() - i,
    {
        buffer.push(property_data[i]);
        i = i + 1;
    }
    proof {
        assert(buffer@ =~= property_data@);
    }
    let mut j: usize = 0;
    while j < icon_data.len()
        invariant
            j <= icon_data@.len(),
            buffer@ =~= property_data@ + icon_data@.take(j as int),
        decreases icon_data@.len() - j,
    {
        buffer.push(icon_data[j]);
        j = j + 1;
    }
    proof {
        assert(buffer@ =~= property_data@ + icon_data@);
    }
    Ok(buffer)
}

/// Layout law of the combined control-data buffer: the first
/// `property.len()` bytes are exactly the metadata blob, the next
/// `icon.len()` bytes are exactly the icon blob, and the whole length is
/// the sum of the two.
pub proof fn lemma_control_data_buffer_layout(property: Seq<u8>, icon: Seq<u8>)
    ensures
        (property + icon).len() == property.len() + icon.len(),
        (property + icon).subrange(0, property.len() as int) == property,
        (property + icon).subrange(property.len() as int, property.len() as int + icon.len() as int) == icon,
{
    assert((property + icon).subrange(0, property.len() as int) =~= property);
    assert((property + icon).subrange(property.len() as int, property.len() as int + icon.len() as int) =~= icon);
}

/// Scalar control-data command: a synthetic identifier is served the
/// bundled blob pair spliced into one buffer (its byte length is the reply's
/// reported size); a real identifier is forwarded to the backend untouched.
pub fn get_application_control_data_merged(app_id: ApplicationId) -> (result: Result<
    Disposition<Vec<u8>>,
    ResultCode,
>)
    ensures
        !spec_is_extra_application(app_id) ==> result == Ok::<Disposition<Vec<u8>>, ResultCode>(
            Disposition::Forward,
        ),
        spec_is_extra_application(app_id) ==> (result matches Ok(d) && d matches Disposition::Local(
            buffer,
        ) && buffer@ == spec_bundled_control_property_data() + spec_bundled_icon_data()),
{
    if is_extra_application(app_id) {
        match get_extra_application_control_data(app_id) {
            Ok((property_data, icon_data)) => {
                match build_control_data_buffer(&property_data, &icon_data) {
                    Ok(buffer) => Ok(Disposition::Local(buffer)),
                    Err(code) => Err(code),
                }
            },
            Err(code) => Err(code),
        }
    } else {
        Ok(Disposition::Forward)
    }
}

/// The fixed-shape rights record fabricated for a synthetic identifier:
/// fixed flag values, identifier and user copied from the caller's request.
pub open spec fn spec_gen_application_rights_on_client(
    app_id: ApplicationId,
    uid: Uid,
) -> ApplicationRightsOnClient {
    ApplicationRightsOnClient {
        app_id,
        uid,
        flags_1: 1,
        flags_2: 0,
        unk: [0u8, 0u8, 1u8, 0u8, 0u8, 0u8],
    }
}

/// Fabricates the rights record for a synthetic identifier.
pub fn gen_application_rights_on_client(app_id: ApplicationId, uid: Uid) -> (rights: ApplicationRightsOnClient)
    ensures
        rights == spec_gen_application_rights_on_client(app_id, uid),
        rights.app_id == app_id,
        rights.uid == uid,
{
    ApplicationRightsOnClient {
        app_id,
        uid,
        flags_1: 1,
        flags_2: 0,
        unk: [0u8, 0u8, 1u8, 0u8, 0u8, 0u8],
    }
}

/// Scalar rights-on-client command: a synthetic identifier is answered
/// locally with exactly one fabricated record, without any backend call; a
/// real identifier is forwarded and the backend's count is returned
/// unchanged.
pub fn get_application_rights_on_client_merged(
    flags: u32,
    app_id: ApplicationId,
    uid: Uid,
) -> (result: Disposition<(ApplicationRightsOnClient, u32)>)
    ensures
        spec_is_extra_application(app_id) ==> result == Disposition::Local(
            (spec_gen_application_rights_on_client(app_id, uid), 1u32),
        ),
        !spec_is_extra_application(app_id) ==> result == Disposition::<
            (ApplicationRightsOnClient, u32),
        >::Forward,
{
    if is_extra_application(app_id) {
        Disposition::Local((gen_application_rights_on_client(app_id, uid), 1))
    } else {
        Disposition::Forward
    }
}

} // verus!
