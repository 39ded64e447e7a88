use docling_rs::enums::{InputFormat, OcrEngine, OutputFormat, PdfBackend, TargetName};
use docling_rs::requests::{
    upload_form_fields, ConvertDocumentsRequest, ConvertDocumentsRequestOptions, Source, Target,
};
use serde_json::Value;

fn parse(text: &str) -> Value {
    serde_json::from_str(text).unwrap()
}

#[test]
fn source_http_serialization() {
    let source = Source::Http { url: "https://example.com/doc.pdf".to_string(), headers: None };
    let json = parse(&source.to_json());
    assert_eq!(json["kind"], "http");
    assert_eq!(json["url"], "https://example.com/doc.pdf");
    assert!(json.get("headers").is_none());
}

#[test]
fn source_http_with_headers_round_trip() {
    let headers = vec![("Authorization".to_string(), "Bearer token123".to_string())];
    let source = Source::Http {
        url: "https://example.com/doc.pdf".to_string(),
        headers: Some(headers),
    };
    let json = parse(&source.to_json());
    assert_eq!(json["url"], "https://example.com/doc.pdf");
    assert_eq!(json["headers"]["Authorization"], "Bearer token123");
}

#[test]
fn source_file_serialization() {
    let source = Source::File {
        base64_string: "SGVsbG8gV29ybGQ=".to_string(),
        filename: "test.pdf".to_string(),
    };
    let json = parse(&source.to_json());
    assert_eq!(json["kind"], "file");
    assert_eq!(json["base64_string"], "SGVsbG8gV29ybGQ=");
    assert_eq!(json["filename"], "test.pdf");
}

#[test]
fn target_inbody_serialization() {
    assert_eq!(Target::InBody.to_json(), r#"{"kind":"inbody"}"#);
}

#[test]
fn target_zip_serialization() {
    assert_eq!(Target::Zip.to_json(), r#"{"kind":"zip"}"#);
}

#[test]
fn target_default_is_inbody() {
    let json = parse(&Target::default().to_json());
    assert_eq!(json["kind"], "inbody");
}

#[test]
fn options_default_serializes_to_empty_object() {
    let opts = ConvertDocumentsRequestOptions::default();
    assert_eq!(opts.to_json(), "{}", "Default options should serialize to {{}} (all fields None)");
}

#[test]
fn options_with_some_fields_set() {
    let opts = ConvertDocumentsRequestOptions {
        to_formats: Some(vec![OutputFormat::Md, OutputFormat::Text]),
        do_ocr: Some(true),
        ocr_engine: Some(OcrEngine::Easyocr),
        ..Default::default()
    };
    let json = parse(&opts.to_json());
    assert_eq!(json["to_formats"], parse(r#"["md", "text"]"#));
    assert_eq!(json["do_ocr"], Value::Bool(true));
    assert_eq!(json["ocr_engine"], "easyocr");
    assert!(json.get("from_formats").is_none());
    assert!(json.get("force_ocr").is_none());
    assert!(json.get("pdf_backend").is_none());
}

#[test]
fn options_page_range_serializes_as_array() {
    let opts = ConvertDocumentsRequestOptions { page_range: Some((1, 5)), ..Default::default() };
    assert_eq!(opts.to_json(), r#"{"page_range":[1,5]}"#);
    let json = parse(&opts.to_json());
    assert_eq!(json["page_range"], parse("[1, 5]"));
}

#[test]
fn options_page_range_round_trip_large_value() {
    let opts = ConvertDocumentsRequestOptions { page_range: Some((1, i64::MAX)), ..Default::default() };
    let text = opts.to_json();
    assert_eq!(text, r#"{"page_range":[1,9223372036854775807]}"#);
    let json = parse(&text);
    let back = (json["page_range"][0].as_i64(), json["page_range"][1].as_i64());
    assert_eq!(back, (Some(1), Some(i64::MAX)));
}

#[test]
fn options_page_range_negative_and_minimum() {
    let opts = ConvertDocumentsRequestOptions { page_range: Some((i64::MIN, -7)), ..Default::default() };
    assert_eq!(opts.to_json(), r#"{"page_range":[-9223372036854775808,-7]}"#);
}

#[test]
fn options_false_flag_is_kept() {
    let opts = ConvertDocumentsRequestOptions { do_ocr: Some(false), ..Default::default() };
    assert_eq!(opts.to_json(), r#"{"do_ocr":false}"#);
}

#[test]
fn options_single_field_gives_single_key() {
    let cases = vec![
        ConvertDocumentsRequestOptions { from_formats: Some(vec![]), ..Default::default() },
        ConvertDocumentsRequestOptions { pdf_backend: Some(PdfBackend::DlparseV4), ..Default::default() },
        ConvertDocumentsRequestOptions { images_scale: Some("2.0".to_string()), ..Default::default() },
        ConvertDocumentsRequestOptions {
            md_page_break_placeholder: Some("<!-- \"page\" -->".to_string()),
            ..Default::default()
        },
        ConvertDocumentsRequestOptions {
            picture_description_api: Some(r#"{"url":"http://x","timeout":20}"#.to_string()),
            ..Default::default()
        },
    ];
    let keys = ["from_formats", "pdf_backend", "images_scale", "md_page_break_placeholder", "picture_description_api"];
    for (opts, key) in cases.iter().zip(keys.iter()) {
        let json = parse(&opts.to_json());
        let obj = json.as_object().unwrap();
        assert_eq!(obj.len(), 1);
        assert!(obj.contains_key(*key));
    }
}

#[test]
fn options_strings_are_escaped_and_raw_json_passes_through() {
    let opts = ConvertDocumentsRequestOptions {
        ocr_lang: Some(vec!["en".to_string(), "d\"e".to_string()]),
        md_page_break_placeholder: Some("a\\b\n".to_string()),
        vlm_pipeline_model_local: Some(r#"{"repo_id":"m","scale":2.0}"#.to_string()),
        ..Default::default()
    };
    let json = parse(&opts.to_json());
    assert_eq!(json["ocr_lang"][1], "d\"e");
    assert_eq!(json["md_page_break_placeholder"], "a\\b\n");
    assert_eq!(json["vlm_pipeline_model_local"]["repo_id"], "m");
}

#[test]
fn full_request_serialization() {
    let request = ConvertDocumentsRequest {
        sources: vec![Source::Http { url: "https://example.com/doc.pdf".to_string(), headers: None }],
        options: Some(ConvertDocumentsRequestOptions {
            to_formats: Some(vec![OutputFormat::Md]),
            ..Default::default()
        }),
        target: None,
    };
    let json = parse(&request.to_json());
    assert_eq!(json["sources"][0]["kind"], "http");
    assert_eq!(json["sources"][0]["url"], "https://example.com/doc.pdf");
    assert_eq!(json["options"]["to_formats"], parse(r#"["md"]"#));
    assert!(json.get("target").is_none());
}

#[test]
fn request_with_target_zip() {
    let request = ConvertDocumentsRequest {
        sources: vec![Source::Http { url: "https://example.com/doc.pdf".to_string(), headers: None }],
        options: None,
        target: Some(Target::Zip),
    };
    let json = parse(&request.to_json());
    assert_eq!(json["target"]["kind"], "zip");
    assert!(json.get("options").is_none());
}

#[test]
fn request_empty_sources() {
    let request = ConvertDocumentsRequest { sources: vec![], options: None, target: None };
    assert_eq!(request.to_json(), r#"{"sources":[]}"#);
    let json = parse(&request.to_json());
    assert_eq!(json["sources"], parse("[]"));
}

#[test]
fn url_request_has_one_http_source_and_no_target() {
    let request = ConvertDocumentsRequest::from_url("https://arxiv.org/pdf/2206.01062", None);
    assert_eq!(
        request.to_json(),
        r#"{"sources":[{"kind":"http","url":"https://arxiv.org/pdf/2206.01062"}]}"#
    );
}

#[test]
fn form_fields_follow_the_upload_rules() {
    let opts = ConvertDocumentsRequestOptions {
        from_formats: Some(vec![InputFormat::Pdf, InputFormat::Docx]),
        to_formats: Some(vec![OutputFormat::Md]),
        ocr_lang: Some(vec!["en".to_string(), "fr".to_string()]),
        page_range: Some((2, 9)),
        do_ocr: Some(false),
        ocr_engine: Some(OcrEngine::Tesseract),
        document_timeout: Some("120.5".to_string()),
        md_page_break_placeholder: Some("---".to_string()),
        picture_description_local: Some(r#"{"repo_id":"x"}"#.to_string()),
        ..Default::default()
    };
    let fields: Vec<(String, String)> = opts.to_form_fields();
    let expected: Vec<(&str, &str)> = vec![
        ("from_formats", "pdf"),
        ("from_formats", "docx"),
        ("to_formats", "md"),
        ("ocr_lang", "en"),
        ("ocr_lang", "fr"),
        ("page_range", "2"),
        ("page_range", "9"),
        ("ocr_engine", "tesseract"),
        ("do_ocr", "false"),
        ("document_timeout", "120.5"),
        ("md_page_break_placeholder", "---"),
        ("picture_description_local", r#"{"repo_id":"x"}"#),
    ];
    let got: Vec<(&str, &str)> = fields.iter().map(|(k, v)| (k.as_str(), v.as_str())).collect();
    assert_eq!(got, expected);
}

#[test]
fn form_fields_of_unset_options_are_empty() {
    assert!(ConvertDocumentsRequestOptions::default().to_form_fields().is_empty());
}

#[test]
fn target_name_token_is_the_upload_field_value() {
    assert_eq!(TargetName::Zip.as_str(), "zip");
}

#[test]
fn upload_fields_put_target_type_first() {
    let opts = ConvertDocumentsRequestOptions { do_ocr: Some(true), ..Default::default() };
    let fields = upload_form_fields(Some(&opts), Some(TargetName::Zip));
    let got: Vec<(&str, &str)> = fields.iter().map(|(k, v)| (k.as_str(), v.as_str())).collect();
    assert_eq!(got, vec![("target_type", "zip"), ("do_ocr", "true")]);
    assert!(upload_form_fields(None, None).is_empty());
}
