//! Tests for the boundary itself: marshaling, error classification, the
//! handle lifecycle, previews, release plans, and the namespace registry.

use rexiv2::errors::{classify_failure, int_bool_to_result, native_bool, GError, Rexiv2Error};
use rexiv2::handle::{ContextAction, HandleState, Metadata};
use rexiv2::marshal::{
    decode_c_string, decode_string_array, encode_c_string, encode_c_string_array,
    has_interior_nul, str_eq,
};
use rexiv2::media_type::MediaType;
use rexiv2::orientation::Orientation;
use rexiv2::preview::PreviewImage;
use rexiv2::registry::XmpNamespaceRegistry;
use rexiv2::release::{free_steps, strategy_for, BufferSource, FreeStep, ReleaseStrategy};
use rexiv2::settings::{test_setup, InitGate};

fn open_handle() -> Metadata {
    let fresh = Metadata::begin_open();
    let (action, result) = fresh.finish_open(1, None);
    assert_eq!(action, ContextAction::KeepContext);
    result.unwrap()
}

#[test]
fn decode_null_reply_is_no_value() {
    assert_eq!(decode_c_string(None), Err(Rexiv2Error::NoValue));
}

#[test]
fn decode_valid_reply_yields_owned_text() {
    assert_eq!(decode_c_string(Some(b"Test Image".to_vec())), Ok("Test Image".to_string()));
    assert_eq!(decode_c_string(Some(Vec::new())), Ok(String::new()));
}

#[test]
fn decode_undecodable_reply_reports_valid_prefix() {
    match decode_c_string(Some(vec![b'a', b'b', 0xFF])) {
        Err(Rexiv2Error::Utf8(details)) => assert_eq!(details.valid_up_to, 2),
        other => panic!("expected a decode failure, got {:?}", other),
    }
}

#[test]
fn decode_array_all_entries() {
    let entries = vec![b"Exif.Image.DateTime".to_vec(), b"Exif.Image.Model".to_vec()];
    let decoded = decode_string_array(entries).unwrap();
    assert_eq!(
        decoded,
        vec!["Exif.Image.DateTime".to_string(), "Exif.Image.Model".to_string()]
    );
    assert_eq!(decode_string_array(Vec::new()), Ok(Vec::new()));
}

#[test]
fn decode_array_fails_atomically_on_first_bad_entry() {
    let entries = vec![b"good".to_vec(), vec![0xC0], b"later".to_vec()];
    match decode_string_array(entries) {
        Err(Rexiv2Error::Utf8(details)) => assert_eq!(details.valid_up_to, 0),
        other => panic!("expected a decode failure, got {:?}", other),
    }
}

#[test]
fn encode_appends_terminator() {
    assert_eq!(encode_c_string("abc"), b"abc\0".to_vec());
    assert_eq!(encode_c_string(""), b"\0".to_vec());
}

#[test]
fn encode_array_terminates_each_value() {
    let values = vec!["a", "bc"];
    assert_eq!(encode_c_string_array(&values), vec![b"a\0".to_vec(), b"bc\0".to_vec()]);
}

#[test]
fn interior_nul_is_detected() {
    assert!(has_interior_nul("a\0b"));
    assert!(!has_interior_nul("ab"));
    assert!(!has_interior_nul(""));
}

#[test]
fn string_views_compare() {
    assert!(str_eq("image/png", "image/png"));
    assert!(!str_eq("image/png", "image/jpeg"));
}

#[test]
fn int_bool_sentinel_classifies() {
    assert_eq!(int_bool_to_result(0), Err(Rexiv2Error::Internal(None)));
    assert_eq!(int_bool_to_result(1), Ok(()));
    assert_eq!(int_bool_to_result(-1), Ok(()));
}

#[test]
fn native_bool_is_exactly_one() {
    assert!(native_bool(1));
    assert!(!native_bool(0));
    assert!(!native_bool(2));
}

#[test]
fn failure_report_message_is_decoded() {
    let err = GError { domain: 1, code: 2, message: Some(b"unsupported format".to_vec()) };
    assert_eq!(
        classify_failure(Some(err)),
        Rexiv2Error::Internal(Some("unsupported format".to_string()))
    );
}

#[test]
fn failure_report_without_message_carries_none() {
    assert_eq!(classify_failure(None), Rexiv2Error::Internal(None));
    let no_message = GError { domain: 1, code: 2, message: None };
    assert_eq!(classify_failure(Some(no_message)), Rexiv2Error::Internal(None));
    let bad_message = GError { domain: 1, code: 2, message: Some(vec![0xFE, 0xFF]) };
    assert_eq!(classify_failure(Some(bad_message)), Rexiv2Error::Internal(None));
}

#[test]
fn open_succeeds_and_handle_is_live() {
    let meta = open_handle();
    assert!(meta.is_open());
    assert_eq!(meta.current_state(), HandleState::Open);
}

#[test]
fn new_from_buffer_error() {
    let fresh = Metadata::begin_open();
    let err = GError { domain: 1, code: 2, message: Some(b"unsupported format".to_vec()) };
    let (action, result) = fresh.finish_open(0, Some(err));
    assert_eq!(action, ContextAction::FreeContext);
    assert_eq!(
        result,
        Err(Rexiv2Error::Internal(Some("unsupported format".to_string())))
    );
}

#[test]
fn release_ends_the_handle() {
    let mut meta = open_handle();
    meta.release();
    assert!(!meta.is_open());
    assert_eq!(meta.current_state(), HandleState::Released);
    meta.release();
    assert_eq!(meta.current_state(), HandleState::Released);
}

#[test]
fn save_classifies_engine_report() {
    let meta = open_handle();
    assert_eq!(meta.save_to_file(1, None), Ok(()));
    let err = GError { domain: 3, code: 9, message: Some(b"no such file".to_vec()) };
    assert_eq!(
        meta.save_to_file(0, Some(err)),
        Err(Rexiv2Error::Internal(Some("no such file".to_string())))
    );
}

#[test]
fn thumbnail_replacement_classifies_engine_report() {
    let meta = open_handle();
    assert_eq!(meta.set_thumbnail_from_file(1, None), Ok(()));
    assert_eq!(
        meta.set_thumbnail_from_file(0, None),
        Err(Rexiv2Error::Internal(None))
    );
}

#[test]
fn media_type_of_open_handle() {
    let meta = open_handle();
    assert_eq!(meta.get_media_type(Some(b"image/png".to_vec())), Ok(MediaType::Png));
    assert_eq!(
        meta.get_media_type(Some(b"image/weird".to_vec())),
        Ok(MediaType::Other("image/weird".to_string()))
    );
    assert_eq!(meta.get_media_type(None), Err(Rexiv2Error::NoValue));
}

#[test]
fn tag_string_accessors_decode() {
    let meta = open_handle();
    assert_eq!(
        meta.get_tag_string(Some(b"Test Image".to_vec())),
        Ok("Test Image".to_string())
    );
    assert_eq!(meta.get_tag_string(None), Err(Rexiv2Error::NoValue));
    assert_eq!(
        meta.get_tag_interpreted_string(Some(b"1/100 s".to_vec())),
        Ok("1/100 s".to_string())
    );
}

#[test]
fn tag_listings_decode_all_or_nothing() {
    let meta = open_handle();
    assert_eq!(
        meta.get_exif_tags(vec![b"Exif.Image.DateTime".to_vec()]),
        Ok(vec!["Exif.Image.DateTime".to_string()])
    );
    assert_eq!(
        meta.get_xmp_tags(vec![b"Xmp.dc.Title".to_vec()]),
        Ok(vec!["Xmp.dc.Title".to_string()])
    );
    assert_eq!(
        meta.get_iptc_tags(vec![b"Iptc.Application2.Subject".to_vec()]),
        Ok(vec!["Iptc.Application2.Subject".to_string()])
    );
    match meta.get_exif_tags(vec![b"ok".to_vec(), vec![0x80]]) {
        Err(Rexiv2Error::Utf8(_)) => {},
        other => panic!("expected a decode failure, got {:?}", other),
    }
}

#[test]
fn multi_valued_reads_distinguish_absence() {
    let meta = open_handle();
    assert_eq!(meta.get_tag_multiple_strings(None), Err(Rexiv2Error::NoValue));
    assert_eq!(
        meta.get_tag_multiple_strings(Some(vec![b"one".to_vec(), b"two".to_vec()])),
        Ok(vec!["one".to_string(), "two".to_string()])
    );
}

#[test]
fn numeric_reads_narrow_the_engine_long() {
    let meta = open_handle();
    assert_eq!(meta.get_tag_numeric(5), 5);
    assert_eq!(meta.get_tag_numeric(-7), -7);
    assert_eq!(meta.get_tag_numeric(0x1_0000_0005), 5);
}

#[test]
fn get_exposure_time_values_are_not_reduced() {
    let meta = open_handle();
    let result = meta.get_exposure_time(1, 10, 1000).unwrap();
    assert_eq!(result.numer(), 10);
    assert_eq!(result.denom(), 1000);
    assert_eq!(meta.get_exposure_time(0, 0, 0), None);
}

#[test]
fn iso_speed_zero_is_absent() {
    let meta = open_handle();
    assert_eq!(meta.get_iso_speed(0), None);
    assert_eq!(meta.get_iso_speed(600), Some(600));
}

#[test]
fn thumbnail_absence_is_decided_by_the_sentinel() {
    let meta = open_handle();
    assert_eq!(meta.get_thumbnail(0, vec![1, 2, 3]), None);
    assert_eq!(meta.get_thumbnail(1, Vec::new()), Some(Vec::new()));
    assert_eq!(meta.get_thumbnail(1, vec![9, 8]), Some(vec![9, 8]));
}

#[test]
fn get_tag_raw() {
    let meta = open_handle();
    assert_eq!(
        meta.get_tag_raw(Some(b"2020:07:12 11:16:35\0".to_vec())),
        Ok(b"2020:07:12 11:16:35\0".to_vec())
    );
    assert_eq!(meta.get_tag_raw(None), Err(Rexiv2Error::NoValue));
}

#[test]
fn gps_absence_is_never_a_zero_fix() {
    let meta = open_handle();
    let zero_fix = (0.0_f64, 0.0_f64, 0.0_f64);
    assert_eq!(meta.get_gps_info(0, zero_fix), None);
    assert_eq!(meta.get_gps_info(1, zero_fix), Some(zero_fix));
}

#[test]
fn orientation_of_open_handle() {
    let meta = open_handle();
    assert_eq!(meta.get_orientation(4), Orientation::VerticalFlip);
    assert_eq!(meta.get_orientation(0), Orientation::Unspecified);
}

#[test]
fn preview_descriptor_reports_captured_values() {
    let meta = open_handle();
    let preview = PreviewImage::from_properties(
        &meta,
        160,
        8,
        6,
        Some(b"image/jpeg".to_vec()),
        Some(b"jpg".to_vec()),
    );
    assert_eq!(preview.get_size(), 160);
    assert_eq!(preview.get_width(), 8);
    assert_eq!(preview.get_height(), 6);
    assert_eq!(preview.get_media_type(), Ok(MediaType::Jpeg));
    assert_eq!(preview.get_extension(), Ok("jpg".to_string()));
}

#[test]
fn preview_without_properties_reports_absence() {
    let meta = open_handle();
    let preview = PreviewImage::from_properties(&meta, 160, 8, 6, None, None);
    assert_eq!(preview.get_media_type(), Err(Rexiv2Error::NoValue));
    assert_eq!(preview.get_extension(), Err(Rexiv2Error::NoValue));
}

#[test]
fn preview_data_and_write_check() {
    let meta = open_handle();
    let preview = PreviewImage::from_properties(&meta, 3, 1, 1, None, None);
    assert_eq!(preview.get_data(&meta, Some(vec![1, 2, 3])), Ok(vec![1, 2, 3]));
    assert_eq!(preview.get_data(&meta, None), Err(Rexiv2Error::NoValue));
    assert_eq!(preview.save_to_file(&meta, 3), Ok(()));
    assert_eq!(preview.save_to_file(&meta, 2), Err(Rexiv2Error::Internal(None)));
}

#[test]
fn release_strategies_are_pinned_per_call() {
    assert_eq!(strategy_for(BufferSource::MimeType), ReleaseStrategy::EngineOwned);
    assert_eq!(strategy_for(BufferSource::TagString), ReleaseStrategy::SingleAllocation);
    assert_eq!(
        strategy_for(BufferSource::TagInterpretedString),
        ReleaseStrategy::SingleAllocation
    );
    assert_eq!(strategy_for(BufferSource::TagNameArray), ReleaseStrategy::SpineAndElements);
    assert_eq!(strategy_for(BufferSource::TagMultiple), ReleaseStrategy::SpineAndElements);
    assert_eq!(strategy_for(BufferSource::TagLabel), ReleaseStrategy::EngineOwned);
    assert_eq!(strategy_for(BufferSource::TagDescription), ReleaseStrategy::EngineOwned);
    assert_eq!(strategy_for(BufferSource::TagTypeName), ReleaseStrategy::EngineOwned);
    assert_eq!(
        strategy_for(BufferSource::PreviewPropertiesArray),
        ReleaseStrategy::EngineOwned
    );
    assert_eq!(strategy_for(BufferSource::PreviewData), ReleaseStrategy::EngineOwned);
    assert_eq!(strategy_for(BufferSource::RawTagBytes), ReleaseStrategy::EngineOwned);
    assert_eq!(
        strategy_for(BufferSource::ThumbnailBuffer),
        ReleaseStrategy::SingleAllocation
    );
}

#[test]
fn free_plans_cover_everything_once() {
    assert_eq!(free_steps(ReleaseStrategy::EngineOwned, 0), Vec::new());
    assert_eq!(free_steps(ReleaseStrategy::SingleAllocation, 0), vec![FreeStep::Single]);
    assert_eq!(
        free_steps(ReleaseStrategy::SpineAndElements, 3),
        vec![
            FreeStep::Element(0),
            FreeStep::Element(1),
            FreeStep::Element(2),
            FreeStep::Spine,
        ]
    );
    assert_eq!(free_steps(ReleaseStrategy::SpineAndElements, 0), vec![FreeStep::Spine]);
}

#[test]
fn initialization_happens_at_most_once() {
    let mut gate = InitGate::new();
    assert!(test_setup(&mut gate));
    assert!(!test_setup(&mut gate));
    assert!(!test_setup(&mut gate));
}

#[test]
fn register_xmp_namespace_scenario() {
    let mut registry = XmpNamespaceRegistry::new();
    assert_eq!(
        registry.register_xmp_namespace("http://creativecommons.org/ns#/", "cc"),
        Ok(())
    );
    assert_eq!(
        registry.register_xmp_namespace("http://creativecommons.org/ns#/", "cc"),
        Err(Rexiv2Error::Internal(None))
    );
    assert_eq!(
        registry.unregister_xmp_namespace("http://creativecommons.org/ns#/"),
        Ok(())
    );
    assert_eq!(
        registry.register_xmp_namespace("http://creativecommons.org/ns#/", "cc"),
        Ok(())
    );
}

#[test]
fn unregister_unknown_namespace_is_an_error() {
    let mut registry = XmpNamespaceRegistry::new();
    assert_eq!(
        registry.unregister_xmp_namespace("http://example.com/ns#"),
        Err(Rexiv2Error::Internal(None))
    );
}

#[test]
fn unregister_all_forgets_everything() {
    let mut registry = XmpNamespaceRegistry::new();
    assert_eq!(registry.register_xmp_namespace("http://example.com/a#", "a"), Ok(()));
    assert_eq!(registry.register_xmp_namespace("http://example.com/b#", "b"), Ok(()));
    registry.unregister_all_xmp_namespaces();
    assert_eq!(registry.register_xmp_namespace("http://example.com/a#", "a"), Ok(()));
    assert_eq!(registry.register_xmp_namespace("http://example.com/b#", "b"), Ok(()));
}
