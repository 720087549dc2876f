use nashe::catalog::bundled_control_property_data;
use nashe::catalog::bundled_icon_data;
use nashe::catalog::convert_application_view_to_deprecated;
use nashe::catalog::extra_application_id;
use nashe::catalog::gen_application_record;
use nashe::catalog::gen_application_view;
use nashe::catalog::gen_application_view_with_promotion_info;
use nashe::catalog::gen_deprecated_application_view;
use nashe::catalog::get_extra_application_control_data;
use nashe::catalog::get_extra_application_records;
use nashe::catalog::get_extra_application_view;
use nashe::catalog::get_extra_application_view_with_promotion_info;
use nashe::catalog::is_extra_application;
use nashe::catalog::EXTRA_APPLICATION_ID_VALUE;
use nashe::types::ApplicationId;
use nashe::types::ResultCode;
use nashe::types::APPLICATION_CONTROL_PROPERTY_SIZE;
use nashe::types::RESULT_CONTROL_DATA_NOT_EXTRA;
use nashe::types::RESULT_NOT_EXTRA_APPLICATION;

#[test]
fn classifier_accepts_exactly_the_reserved_identifier() {
    assert!(is_extra_application(ApplicationId(EXTRA_APPLICATION_ID_VALUE)));
    assert!(is_extra_application(extra_application_id()));
    assert!(!is_extra_application(ApplicationId(0)));
    assert!(!is_extra_application(ApplicationId(1)));
    assert!(!is_extra_application(ApplicationId(u64::MAX)));
    assert!(!is_extra_application(ApplicationId(EXTRA_APPLICATION_ID_VALUE - 1)));
    assert!(!is_extra_application(ApplicationId(EXTRA_APPLICATION_ID_VALUE + 1)));
}

#[test]
fn classifier_is_deterministic_across_calls() {
    let ids = [
        ApplicationId(0),
        ApplicationId(EXTRA_APPLICATION_ID_VALUE),
        ApplicationId(0x0100000000010000),
    ];
    for id in ids {
        let first = is_extra_application(id);
        for _ in 0..4 {
            assert_eq!(is_extra_application(id), first);
        }
    }
}

#[test]
fn synthetic_view_has_fixed_shape_and_callers_identifier() {
    let id = ApplicationId(0x42);
    let view = gen_application_view(id);
    assert_eq!(view.app_id, id);
    assert_eq!(view.unk_1, 0);
    assert_eq!(view.unk_flags, 0xF13);
    assert_eq!(view.unk_2, [0u8; 16]);
    assert_eq!(view.unk_3, 0);
    assert_eq!(view.unk_4, 0);
    assert_eq!(view.unk_reserved, [0u8; 2]);
    assert_eq!(view.unk_6, [0u8; 8]);
    assert_eq!(view.unk_7, [0u8; 16]);
    assert_eq!(view.unk_8, 0);
    assert_eq!(view.unk_9, 0);
    assert_eq!(view.unk_reserved_2, [0u8; 11]);
    // Byte-for-byte identical across repeated calls.
    assert_eq!(gen_application_view(id), view);
}

#[test]
fn deprecated_view_is_projection_of_current_view() {
    for raw in [0u64, 7, EXTRA_APPLICATION_ID_VALUE, u64::MAX] {
        let id = ApplicationId(raw);
        let current = gen_application_view(id);
        assert_eq!(
            gen_deprecated_application_view(id),
            convert_application_view_to_deprecated(current)
        );
    }
}

#[test]
fn projection_copies_shared_fields() {
    let id = ApplicationId(9);
    let mut view = gen_application_view(id);
    view.unk_1 = 11;
    view.unk_2 = [3u8; 16];
    view.unk_reserved = [5u8, 6u8];
    view.unk_8 = 12;
    let deprecated = convert_application_view_to_deprecated(view);
    assert_eq!(deprecated.app_id, id);
    assert_eq!(deprecated.unk_1, 11);
    assert_eq!(deprecated.unk_2, [3u8; 16]);
    assert_eq!(deprecated.unk_flags, 0xF13);
    assert_eq!(deprecated.unk_8, 12);
    // The two-byte reserved region exists in both layouts, so the
    // projection copies it like every other shared field.
    assert_eq!(deprecated.unk_reserved, [5u8, 6u8]);
    // The deprecated layout's own trailing reserved region has no
    // counterpart in the current layout and is zeroed.
    assert_eq!(deprecated.unk_reserved_3, [0u8; 3]);
}

#[test]
fn promotion_view_wraps_the_synthetic_view() {
    let id = ApplicationId(0x77);
    let extended = gen_application_view_with_promotion_info(id);
    assert_eq!(extended.view, gen_application_view(id));
    assert_eq!(extended.info.todo_data, [0u8; 32]);
}

#[test]
fn synthetic_record_has_fixed_shape() {
    let id = ApplicationId(0x1234);
    let record = gen_application_record(id);
    assert_eq!(record.app_id, id);
    assert_eq!(record.unk_type, 0x3);
    assert_eq!(record.unk_2, 2);
    assert_eq!(record.unk_3, [0u8; 6]);
    assert_eq!(record.unk_4, 0);
    assert_eq!(record.unk_reserved, [0u8; 7]);
}

#[test]
fn extra_view_is_served_only_for_the_reserved_identifier() {
    let synth = extra_application_id();
    assert_eq!(get_extra_application_view(synth), Ok(gen_application_view(synth)));
    assert_eq!(
        get_extra_application_view(ApplicationId(5)),
        Err(ResultCode(RESULT_NOT_EXTRA_APPLICATION))
    );
}

#[test]
fn extra_promotion_view_is_served_only_for_the_reserved_identifier() {
    let synth = extra_application_id();
    assert_eq!(
        get_extra_application_view_with_promotion_info(synth),
        Ok(gen_application_view_with_promotion_info(synth))
    );
    assert_eq!(
        get_extra_application_view_with_promotion_info(ApplicationId(5)),
        Err(ResultCode(RESULT_NOT_EXTRA_APPLICATION))
    );
}

#[test]
fn catalog_listing_is_one_reserved_record_and_stable() {
    let records = get_extra_application_records();
    assert_eq!(records.len(), 1);
    assert_eq!(records[0], gen_application_record(extra_application_id()));
    assert_eq!(get_extra_application_records(), records);
}

#[test]
fn bundled_metadata_blob_matches_the_fixed_structure_size() {
    let property_data = bundled_control_property_data();
    assert_eq!(property_data.len(), APPLICATION_CONTROL_PROPERTY_SIZE);
    assert_eq!(APPLICATION_CONTROL_PROPERTY_SIZE, 0x4000);
    assert!(property_data.iter().all(|&b| b == 0));
    assert!(!bundled_icon_data().is_empty());
}

#[test]
fn control_data_is_served_only_for_the_reserved_identifier() {
    let synth = extra_application_id();
    let (property_data, icon_data) = get_extra_application_control_data(synth).unwrap();
    assert_eq!(property_data, bundled_control_property_data());
    assert_eq!(icon_data, bundled_icon_data());
    assert_eq!(
        get_extra_application_control_data(ApplicationId(5)),
        Err(ResultCode(RESULT_CONTROL_DATA_NOT_EXTRA))
    );
}
