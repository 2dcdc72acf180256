use copilot_proxy::error::AppError;
use copilot_proxy::image::{
    build_image_response, downloaded_image, extract_attachment_id, first_extension_or_bin, image_step,
    mime_to_ext, model_name_or_default, process_data_url, validate_image_request, ImageError, ImageStep,
};
use copilot_proxy::model::CopilotModel;
use copilot_proxy::protocol::{JsonField, Payload, ServerEvent};
use copilot_proxy::types::ImageGenerationRequest;

#[test]
fn known_mime_types_map_directly() {
    assert_eq!(mime_to_ext("image/jpeg"), "jpg");
    assert_eq!(mime_to_ext("image/jpg"), "jpg");
    assert_eq!(mime_to_ext("image/png"), "png");
    assert_eq!(mime_to_ext("image/gif"), "gif");
    assert_eq!(mime_to_ext("image/webp"), "webp");
}

#[test]
fn other_mime_types_are_guessed_or_bin() {
    let bmp = mime_to_ext("image/bmp");
    assert!(!bmp.is_empty() && bmp != "bin", "{bmp}");
    assert_eq!(mime_to_ext("nonsense/type"), "bin");
    assert_eq!(mime_to_ext("no-slash"), "bin");
    assert_eq!(first_extension_or_bin(None), "bin");
    assert_eq!(first_extension_or_bin(Some(vec![])), "bin");
    assert_eq!(first_extension_or_bin(Some(vec!["a".into(), "b".into()])), "a");
}

#[test]
fn base64_data_url_is_decoded() {
    let (data, name, ct) = process_data_url("data:image/png;base64,aGVsbG8=").unwrap().unwrap();
    assert_eq!(data, b"hello");
    assert_eq!(name, "image_1.png");
    assert_eq!(ct, "image/png");
}

#[test]
fn plain_data_url_keeps_text_bytes() {
    let (data, name, ct) = process_data_url("data:image/jpeg,abc,d").unwrap().unwrap();
    assert_eq!(data, b"abc,d");
    assert_eq!(name, "image_1.jpg");
    assert_eq!(ct, "image/jpeg");
}

#[test]
fn data_url_errors() {
    assert!(matches!(process_data_url("data:image/png;base64"), Some(Err(ImageError::InvalidDataUrl))));
    assert!(matches!(process_data_url("data:image/png;base64,@@@"), Some(Err(ImageError::Base64Decode))));
    assert_eq!(ImageError::InvalidDataUrl.message(), "invalid data URL format");
    assert_eq!(ImageError::Base64Decode.message(), "base64 decode failed");
}

#[test]
fn remote_urls_are_left_for_download() {
    assert!(process_data_url("https://example.com/photo.jpg").is_none());
    let (data, name, ct) = downloaded_image(vec![1, 2], None);
    assert_eq!(data, vec![1, 2]);
    assert_eq!(name, "image_1.png");
    assert_eq!(ct, "image/png");
    let (_, name, ct) = downloaded_image(vec![], Some("image/gif".into()));
    assert_eq!((name.as_str(), ct.as_str()), ("image_1.gif", "image/gif"));
}

#[test]
fn attachment_id_from_upload_body() {
    let f = |k: &str, v: Option<&str>| JsonField { key: k.into(), text: v.map(|s| s.into()) };
    let body = Payload { fields: vec![f("attachmentId", Some("c")), f("id", Some("b"))] };
    assert_eq!(extract_attachment_id(&body), "b");
    assert_eq!(extract_attachment_id(&Payload { fields: vec![] }), "");
    let body = Payload { fields: vec![f("attachment_id", Some("a")), f("id", Some("b"))] };
    assert_eq!(extract_attachment_id(&body), "a");
}

fn req(n: i64, fmt: Option<&str>, prompt: &str, model: Option<&str>) -> ImageGenerationRequest {
    ImageGenerationRequest {
        model: model.map(|s| s.into()),
        prompt: prompt.into(),
        n,
        response_format: fmt.map(|s| s.into()),
    }
}

fn invalid_message(r: Result<(String, CopilotModel), AppError>) -> String {
    match r {
        Err(AppError::InvalidRequest(m)) => m,
        other => panic!("{other:?}"),
    }
}

#[test]
fn image_request_checks_in_order() {
    assert_eq!(invalid_message(validate_image_request(&req(2, Some("b64_json"), "", None))), "n must be 1; only n=1 is available");
    assert_eq!(
        invalid_message(validate_image_request(&req(1, Some("b64_json"), "", None))),
        "response_format \"b64_json\" is not supported; only url is available"
    );
    assert_eq!(invalid_message(validate_image_request(&req(1, Some("url"), "", None))), "prompt cannot be empty");
    assert!(matches!(
        validate_image_request(&req(1, None, "a cat", Some("gpt-image"))),
        Err(AppError::UnsupportedModel(_))
    ));
    let (name, m) = validate_image_request(&req(1, None, "a cat", None)).unwrap();
    assert_eq!(name, "default");
    assert_eq!(m, CopilotModel::Default);
    assert_eq!(model_name_or_default(&Some("smart".into())), "smart");
}

#[test]
fn image_wait_steps() {
    match image_step("", Some(ServerEvent::ImageGenerated { url: "u".into() })) {
        ImageStep::Finished(Ok(u)) => assert_eq!(u, "u"),
        other => panic!("{other:?}"),
    }
    match image_step("", Some(ServerEvent::ImageFailed { reason: "policy".into() })) {
        ImageStep::Finished(Err(AppError::CopilotUpstream(m))) => assert_eq!(m, "image generation failed: policy"),
        other => panic!("{other:?}"),
    }
    match image_step("", Some(ServerEvent::Error { message: "e".into(), code: None })) {
        ImageStep::Finished(Err(AppError::CopilotUpstream(m))) => assert_eq!(m, "e"),
        other => panic!("{other:?}"),
    }
    match image_step("", None) {
        ImageStep::Finished(Err(AppError::CopilotUpstream(m))) => {
            assert_eq!(m, "copilot finished without imageGenerated event")
        }
        other => panic!("{other:?}"),
    }
    match image_step("seen", Some(ServerEvent::TurnComplete)) {
        ImageStep::Finished(Ok(u)) => assert_eq!(u, "seen"),
        other => panic!("{other:?}"),
    }
    assert!(matches!(image_step("", Some(ServerEvent::ImageGenerating)), ImageStep::Waiting));
    let r = build_image_response(5, "u".into());
    assert_eq!(r.created, 5);
    assert_eq!(r.data.len(), 1);
    assert_eq!(r.data[0].url, "u");
}

#[test]
fn unsupported_format_error_message() {
    match copilot_proxy::image::unsupported_format_error("\"b64\"") {
        AppError::InvalidRequest(m) => assert_eq!(m, "response_format \"b64\" is not supported; only url is available"),
        other => panic!("{other:?}"),
    }
}
