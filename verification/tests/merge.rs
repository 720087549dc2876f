use nashe::catalog::bundled_control_property_data;
use nashe::catalog::bundled_icon_data;
use nashe::catalog::extra_application_id;
use nashe::catalog::gen_application_record;
use nashe::catalog::gen_application_view;
use nashe::catalog::gen_application_view_with_promotion_info;
use nashe::catalog::gen_deprecated_application_view;
use nashe::merge::build_control_data_buffer;
use nashe::merge::gen_application_rights_on_client;
use nashe::merge::generate_application_record_count_merged;
use nashe::merge::get_application_control_data_merged;
use nashe::merge::get_application_rights_on_client_merged;
use nashe::merge::list_application_record_merged;
use nashe::merge::merge_application_views;
use nashe::merge::merge_application_views_with_promotion_info;
use nashe::merge::merge_deprecated_application_views;
use nashe::merge::partition_real_application_ids;
use nashe::merge::Disposition;
use nashe::types::ApplicationId;
use nashe::types::ApplicationRecord;
use nashe::types::ApplicationView;
use nashe::types::ResultCode;
use nashe::types::Uid;
use nashe::types::APPLICATION_CONTROL_PROPERTY_SIZE;
use nashe::types::RESULT_CONTROL_PROPERTY_SIZE_MISMATCH;

fn real_view(raw_id: u64, marker: u32) -> ApplicationView {
    let mut view = gen_application_view(ApplicationId(raw_id));
    view.unk_1 = marker;
    view
}

#[test]
fn partition_keeps_real_identifiers_in_order() {
    let synth = extra_application_id();
    let ids = vec![
        ApplicationId(1),
        synth,
        ApplicationId(2),
        ApplicationId(2),
        synth,
        ApplicationId(3),
    ];
    let real_ids = partition_real_application_ids(&ids);
    assert_eq!(
        real_ids,
        vec![ApplicationId(1), ApplicationId(2), ApplicationId(2), ApplicationId(3)]
    );
}

#[test]
fn partition_of_all_synthetic_is_empty() {
    let synth = extra_application_id();
    assert_eq!(partition_real_application_ids(&vec![synth, synth]), vec![]);
    assert_eq!(partition_real_application_ids(&vec![]), vec![]);
}

#[test]
fn merged_views_follow_request_order() {
    // A client asks for [A, SYNTH, B]; the stubbed backend answers
    // [viewA, viewB] for [A, B]; the merged reply must be
    // [viewA, synthetic view, viewB].
    let a = ApplicationId(0x0100000000001000);
    let b = ApplicationId(0x0100000000002000);
    let synth = extra_application_id();
    let ids = vec![a, synth, b];
    let view_a = real_view(a.0, 101);
    let view_b = real_view(b.0, 202);
    let real_views = vec![view_a, view_b];
    let merged = merge_application_views(&ids, &real_views);
    assert_eq!(merged.len(), 3);
    assert_eq!(merged[0], view_a);
    assert_eq!(merged[1], gen_application_view(synth));
    assert_eq!(merged[2], view_b);
}

#[test]
fn merged_views_handle_duplicates_and_edges() {
    let synth = extra_application_id();
    let a = ApplicationId(10);

    // Only synthetic identifiers, repeated: no backend answers consumed.
    let merged = merge_application_views(&vec![synth, synth], &vec![]);
    assert_eq!(merged.len(), 2);
    assert_eq!(merged[0], gen_application_view(synth));
    assert_eq!(merged[1], gen_application_view(synth));

    // Only real identifiers, repeated: backend answers pass through in order.
    let first = real_view(a.0, 1);
    let second = real_view(a.0, 2);
    let merged = merge_application_views(&vec![a, a], &vec![first, second]);
    assert_eq!(merged, vec![first, second]);

    // Empty request, empty reply.
    assert_eq!(merge_application_views(&vec![], &vec![]).len(), 0);
}

#[test]
fn merged_deprecated_views_follow_request_order() {
    let a = ApplicationId(21);
    let b = ApplicationId(22);
    let synth = extra_application_id();
    let ids = vec![synth, a, b];
    let mut view_a = gen_deprecated_application_view(a);
    view_a.unk_8 = 7;
    let mut view_b = gen_deprecated_application_view(b);
    view_b.unk_8 = 8;
    let merged = merge_deprecated_application_views(&ids, &vec![view_a, view_b]);
    assert_eq!(merged.len(), 3);
    assert_eq!(merged[0], gen_deprecated_application_view(synth));
    assert_eq!(merged[1], view_a);
    assert_eq!(merged[2], view_b);
}

#[test]
fn merged_promotion_views_follow_request_order() {
    let a = ApplicationId(31);
    let synth = extra_application_id();
    let ids = vec![a, synth];
    let mut view_a = gen_application_view_with_promotion_info(a);
    view_a.view.unk_1 = 99;
    let merged = merge_application_views_with_promotion_info(&ids, &vec![view_a]);
    assert_eq!(merged.len(), 2);
    assert_eq!(merged[0], view_a);
    assert_eq!(merged[1], gen_application_view_with_promotion_info(synth));
}

fn real_record(raw_id: u64) -> ApplicationRecord {
    let mut record = gen_application_record(ApplicationId(raw_id));
    record.unk_type = 0x10;
    record
}

#[test]
fn record_listing_appends_catalog_records_after_real_ones() {
    // The stubbed backend wrote three real records and reported a count of
    // three; the merged listing must report four, with the synthetic record
    // for the reserved identifier at index three.
    let blank = ApplicationRecord {
        app_id: ApplicationId(0),
        unk_type: 0,
        unk_2: 0,
        unk_3: [0u8; 6],
        unk_4: 0,
        unk_reserved: [0u8; 7],
    };
    let mut buffer = vec![blank; 6];
    buffer[0] = real_record(1);
    buffer[1] = real_record(2);
    buffer[2] = real_record(3);
    let count = list_application_record_merged(0, 3, &mut buffer);
    assert_eq!(count, 4);
    assert_eq!(buffer.len(), 6);
    assert_eq!(buffer[0], real_record(1));
    assert_eq!(buffer[1], real_record(2));
    assert_eq!(buffer[2], real_record(3));
    assert_eq!(buffer[3], gen_application_record(extra_application_id()));
    assert_eq!(buffer[4], blank);
    assert_eq!(buffer[5], blank);
}

#[test]
fn record_listing_with_no_real_records() {
    let blank = ApplicationRecord {
        app_id: ApplicationId(0),
        unk_type: 0,
        unk_2: 0,
        unk_3: [0u8; 6],
        unk_4: 0,
        unk_reserved: [0u8; 7],
    };
    let mut buffer = vec![blank; 1];
    let count = list_application_record_merged(0, 0, &mut buffer);
    assert_eq!(count, 1);
    assert_eq!(buffer[0], gen_application_record(extra_application_id()));
}

#[test]
fn record_count_adds_the_catalog_count() {
    assert_eq!(generate_application_record_count_merged(0), 1);
    assert_eq!(generate_application_record_count_merged(3), 4);
    assert_eq!(generate_application_record_count_merged(u64::MAX - 1), u64::MAX);
}

#[test]
fn control_data_buffer_holds_metadata_then_icon() {
    let property_data = bundled_control_property_data();
    let icon_data = bundled_icon_data();
    let buffer = build_control_data_buffer(&property_data, &icon_data).unwrap();
    assert_eq!(buffer.len(), property_data.len() + icon_data.len());
    assert_eq!(&buffer[..property_data.len()], &property_data[..]);
    assert_eq!(&buffer[property_data.len()..], &icon_data[..]);
}

#[test]
fn control_data_buffer_rejects_a_resized_metadata_blob() {
    let icon_data = bundled_icon_data();

    let mut grown = bundled_control_property_data();
    grown.push(0);
    assert_eq!(
        build_control_data_buffer(&grown, &icon_data),
        Err(ResultCode(RESULT_CONTROL_PROPERTY_SIZE_MISMATCH))
    );

    let mut shrunk = bundled_control_property_data();
    shrunk.pop();
    assert_eq!(
        build_control_data_buffer(&shrunk, &icon_data),
        Err(ResultCode(RESULT_CONTROL_PROPERTY_SIZE_MISMATCH))
    );
}

#[test]
fn scalar_control_data_serves_synthetic_and_forwards_real() {
    let synth = extra_application_id();
    match get_application_control_data_merged(synth) {
        Ok(Disposition::Local(buffer)) => {
            let property_data = bundled_control_property_data();
            let icon_data = bundled_icon_data();
            assert_eq!(buffer.len(), APPLICATION_CONTROL_PROPERTY_SIZE + icon_data.len());
            assert_eq!(&buffer[..property_data.len()], &property_data[..]);
            assert_eq!(&buffer[property_data.len()..], &icon_data[..]);
        }
        _ => panic!("synthetic identifier must be served locally"),
    }
    match get_application_control_data_merged(ApplicationId(4)) {
        Ok(Disposition::Forward) => {}
        _ => panic!("real identifier must be forwarded"),
    }
}

#[test]
fn rights_on_client_reports_one_fabricated_record() {
    let synth = extra_application_id();
    let uid = Uid { hi: 0xAB, lo: 0xCD };
    match get_application_rights_on_client_merged(0, synth, uid) {
        Disposition::Local((record, count)) => {
            assert_eq!(count, 1);
            assert_eq!(record.app_id, synth);
            assert_eq!(record.uid, uid);
            assert_eq!(record, gen_application_rights_on_client(synth, uid));
            assert_eq!(record.flags_1, 1);
            assert_eq!(record.flags_2, 0);
            assert_eq!(record.unk, [0, 0, 1, 0, 0, 0]);
        }
        Disposition::Forward => panic!("synthetic identifier must be answered locally"),
    }
    match get_application_rights_on_client_merged(0, ApplicationId(6), uid) {
        Disposition::Forward => {}
        Disposition::Local(_) => panic!("real identifier must be forwarded"),
    }
}
