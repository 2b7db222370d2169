use base64::Engine;
use screenshot_ocr::config::{
    default_endpoint, default_jpeg_quality, default_max_edge, default_model, ApiConfig,
    ImageConfig,
};
use screenshot_ocr::provider::glm::{interpret_response, GlmOcrProvider, GlmRequest};
use screenshot_ocr::provider::{OcrError, OcrProvider};
use screenshot_ocr::wire::{escape_json, make_data_url, render_request_json};

fn provider() -> GlmOcrProvider {
    GlmOcrProvider::new(
        "test-key".to_string(),
        default_endpoint(),
        default_model(),
        100,
        85,
    )
}

fn png_bytes(width: u32, height: u32) -> Vec<u8> {
    let img = image::RgbImage::new(width, height);
    let mut buf = Vec::new();
    image::DynamicImage::ImageRgb8(img)
        .write_to(&mut std::io::Cursor::new(&mut buf), image::ImageFormat::Png)
        .unwrap();
    buf
}

#[test]
fn text_result_is_returned_verbatim() {
    let r = interpret_response("{\"md_results\": \"hello\"}");
    assert_eq!(r, Ok("hello".to_string()));
}

#[test]
fn empty_text_result_is_a_success() {
    let r = interpret_response("{\"md_results\": \"\"}");
    assert_eq!(r, Ok(String::new()));
}

#[test]
fn provider_error_carries_both_fields() {
    let r = interpret_response("{\"error\": {\"code\": \"E1\", \"message\": \"bad key\"}}");
    assert_eq!(
        r,
        Err(OcrError::ProviderError {
            code: "E1".to_string(),
            message: "bad key".to_string()
        })
    );
}

#[test]
fn error_takes_precedence_over_text() {
    let r = interpret_response(
        "{\"error\": {\"code\": \"E1\", \"message\": \"bad key\"}, \"md_results\": \"partial\"}",
    );
    assert!(matches!(r, Err(OcrError::ProviderError { .. })));
}

#[test]
fn neither_field_is_a_missing_result() {
    let r = interpret_response("{}");
    assert_eq!(r, Err(OcrError::MissingResult));
}

#[test]
fn unparseable_body_is_a_transport_failure() {
    let r = interpret_response("this is not json");
    assert!(matches!(r, Err(OcrError::TransportFailure(_))));
}

#[test]
fn request_body_matches_the_wire_contract() {
    let body = render_request_json("glm-ocr", "data:image/jpeg;base64,QUJD");
    assert_eq!(
        body,
        "{\"model\":\"glm-ocr\",\"file\":\"data:image/jpeg;base64,QUJD\"}"
    );
}

#[test]
fn escaping_matches_the_json_serializer() {
    let tricky = "a\"b\\c\nd\te\u{8}f\u{c}g\rh\u{1f}i";
    let quoted = serde_json::to_string(&serde_json::Value::String(tricky.to_string())).unwrap();
    let expected = &quoted[1..quoted.len() - 1];
    assert_eq!(escape_json(tricky), expected);
}

#[test]
fn data_url_has_the_exact_prefix() {
    let url = make_data_url("QUJD");
    assert_eq!(url, "data:image/jpeg;base64,QUJD");
}

#[test]
fn build_request_wraps_the_payload() {
    let p = provider();
    let raw = png_bytes(10, 8);
    let req = p.build_request(&raw).unwrap();
    assert_eq!(req.model, "glm-ocr");
    let payload = req
        .file
        .strip_prefix("data:image/jpeg;base64,")
        .expect("data URL prefix");
    let jpeg = base64::engine::general_purpose::STANDARD
        .decode(payload)
        .unwrap();
    let img = image::load_from_memory(&jpeg).unwrap();
    assert_eq!((img.width(), img.height()), (10, 8));
}

#[test]
fn build_request_rejects_empty_input() {
    let p = provider();
    let r = p.build_request(&Vec::new());
    assert!(r.is_err());
}

#[test]
fn request_json_serializes_model_and_file_in_order() {
    let req = GlmRequest {
        model: "glm-ocr".to_string(),
        file: "data:image/jpeg;base64,AA==".to_string(),
    };
    assert_eq!(
        req.to_json(),
        "{\"model\":\"glm-ocr\",\"file\":\"data:image/jpeg;base64,AA==\"}"
    );
}

#[test]
fn provider_getters_hand_back_the_configuration() {
    let p = provider();
    assert_eq!(p.api_key().as_str(), "test-key");
    assert_eq!(
        p.endpoint().as_str(),
        "https://open.bigmodel.cn/api/paas/v4/layout_parsing"
    );
}

#[test]
fn error_descriptions_name_the_failure() {
    let e = OcrError::ProviderError {
        code: "E1".to_string(),
        message: "bad key".to_string(),
    };
    assert_eq!(e.describe(), "GLM API error: E1 - bad key");
    assert_eq!(
        OcrError::TransportFailure("connection refused".to_string()).describe(),
        "OCR request failed: connection refused"
    );
    assert_eq!(OcrError::MissingResult.describe(), "no OCR result in response");
}

#[test]
fn config_defaults_match_the_documented_values() {
    assert_eq!(default_max_edge(), 1920);
    assert_eq!(default_jpeg_quality(), 85);
    assert_eq!(
        default_endpoint(),
        "https://open.bigmodel.cn/api/paas/v4/layout_parsing"
    );
    assert_eq!(default_model(), "glm-ocr");
    let image = ImageConfig::default();
    assert_eq!((image.max_edge, image.jpeg_quality), (1920, 85));
    let api = ApiConfig::default();
    assert_eq!(api.endpoint, default_endpoint());
    assert_eq!(api.model, default_model());
}

struct FixedProvider(String);

impl OcrProvider for FixedProvider {
    fn extract_text(&self, _image_data: &Vec<u8>) -> Result<String, OcrError> {
        Ok(self.0.clone())
    }
}

#[test]
fn the_capability_is_swappable() {
    let p = FixedProvider("fixed".to_string());
    assert_eq!(p.extract_text(&vec![1u8, 2, 3]), Ok("fixed".to_string()));
}
