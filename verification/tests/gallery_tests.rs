use partal_gallery_api::gallery::{
    fetch_reply, gallery_instance, internal_error_problem, plan_upload, remove_reply,
    store_reply, GalleryReply, JsonKind, StoreError, UploadBody, UploadPlan, MAX_BODY_BYTES,
};

#[test]
fn instance_is_gallery_path() {
    assert_eq!(gallery_instance("0xabc"), "/v1/galleries/0xabc");
}

#[test]
fn found_document_is_returned() {
    match fetch_reply("0xabc", Ok(Some(7u32))) {
        GalleryReply::Document(d) => assert_eq!(d, 7),
        other => panic!("unexpected {:?}", other),
    }
}

#[test]
fn missing_document_is_404_with_instance() {
    match fetch_reply::<u32>("0xabc", Ok(None)) {
        GalleryReply::Problem(p) => {
            assert_eq!(p.status, 404);
            assert_eq!(p.title, "Not Found");
            assert_eq!(p.detail.as_deref(), Some("Gallery not found"));
            assert_eq!(p.instance.as_deref(), Some("/v1/galleries/0xabc"));
        }
        other => panic!("unexpected {:?}", other),
    }
}

#[test]
fn store_failure_is_500_without_instance() {
    for reply in [
        fetch_reply::<u32>("0xabc", Err(StoreError)),
        store_reply::<u32>(Err(StoreError)),
        remove_reply::<u32>(Err(StoreError)),
    ] {
        match reply {
            GalleryReply::Problem(p) => {
                assert_eq!(p.status, 500);
                assert_eq!(p.title, "Internal Server Error");
                assert_eq!(p.detail.as_deref(), Some("Internal server error"));
                assert_eq!(p.instance, None);
            }
            other => panic!("unexpected {:?}", other),
        }
    }
    assert_eq!(internal_error_problem().status, 500);
}

#[test]
fn array_upload_is_stored_under_lowercased_key() {
    match plan_upload("0xABC", UploadBody::Read(JsonKind::Array)) {
        UploadPlan::Store { key } => assert_eq!(key, "0xabc"),
        other => panic!("unexpected {:?}", other),
    }
}

#[test]
fn non_array_upload_is_refused_with_400() {
    for kind in [JsonKind::Null, JsonKind::Bool, JsonKind::Number, JsonKind::String, JsonKind::Object] {
        match plan_upload("0xABC", UploadBody::Read(kind)) {
            UploadPlan::Refuse(p) => {
                assert_eq!(p.status, 400);
                assert_eq!(p.title, "Bad Request");
                assert_eq!(p.detail.as_deref(), Some("`data` must be a JSON array of galleries"));
                assert_eq!(p.instance.as_deref(), Some("/v1/galleries/0xabc"));
            }
            other => panic!("unexpected {:?}", other),
        }
    }
}

#[test]
fn rejected_body_is_400_with_rejection_text() {
    let body = UploadBody::Rejected { text: "Expected JSON".to_string() };
    match plan_upload("0xAbC", body) {
        UploadPlan::Refuse(p) => {
            assert_eq!(p.status, 400);
            assert_eq!(p.title, "Bad Request");
            assert_eq!(p.detail.as_deref(), Some("Expected JSON"));
            assert_eq!(p.instance.as_deref(), Some("/v1/galleries/0xabc"));
        }
        other => panic!("unexpected {:?}", other),
    }
}

#[test]
fn stored_document_is_returned() {
    match store_reply(Ok("row")) {
        GalleryReply::Document(d) => assert_eq!(d, "row"),
        other => panic!("unexpected {:?}", other),
    }
}

#[test]
fn delete_is_idempotent_204() {
    assert!(matches!(remove_reply::<u32>(Ok(())), GalleryReply::NoContent));
}

#[test]
fn body_limit_is_ten_mebibytes() {
    assert_eq!(MAX_BODY_BYTES, 10 * 1024 * 1024);
}
