use docling_rs::enums::{
    ConversionStatus, DoclingComponentType, ImageRefMode, InputFormat, OcrEngine, OutputFormat,
    PdfBackend, ProcessingPipeline, ProfilingScope, TableFormerMode, TargetName, TaskType,
    VlmModelType,
};

fn assert_enum_serializes_to<T: PartialEq + std::fmt::Debug + Copy>(
    value: T,
    expected: &str,
    encode: fn(&T) -> &'static str,
    decode: fn(&str) -> Option<T>,
) {
    assert_eq!(encode(&value), expected, "token mismatch for {:?}", value);
    assert_eq!(decode(expected), Some(value), "round-trip mismatch for {:?}", value);
}

#[test]
fn input_format_standard_variants() {
    let e = InputFormat::as_str;
    let d = InputFormat::from_wire;
    assert_enum_serializes_to(InputFormat::Docx, "docx", e, d);
    assert_enum_serializes_to(InputFormat::Pptx, "pptx", e, d);
    assert_enum_serializes_to(InputFormat::Html, "html", e, d);
    assert_enum_serializes_to(InputFormat::Image, "image", e, d);
    assert_enum_serializes_to(InputFormat::Pdf, "pdf", e, d);
    assert_enum_serializes_to(InputFormat::Asciidoc, "asciidoc", e, d);
    assert_enum_serializes_to(InputFormat::Md, "md", e, d);
    assert_enum_serializes_to(InputFormat::Csv, "csv", e, d);
    assert_enum_serializes_to(InputFormat::Xlsx, "xlsx", e, d);
    assert_enum_serializes_to(InputFormat::Audio, "audio", e, d);
    assert_enum_serializes_to(InputFormat::Vtt, "vtt", e, d);
}

#[test]
fn input_format_custom_renamed_variants() {
    let e = InputFormat::as_str;
    let d = InputFormat::from_wire;
    assert_enum_serializes_to(InputFormat::XmlUspto, "xml_uspto", e, d);
    assert_enum_serializes_to(InputFormat::XmlJats, "xml_jats", e, d);
    assert_enum_serializes_to(InputFormat::MetsGbs, "mets_gbs", e, d);
    assert_enum_serializes_to(InputFormat::JsonDocling, "json_docling", e, d);
}

#[test]
fn output_format_all_variants() {
    let e = OutputFormat::as_str;
    let d = OutputFormat::from_wire;
    assert_enum_serializes_to(OutputFormat::Md, "md", e, d);
    assert_enum_serializes_to(OutputFormat::Json, "json", e, d);
    assert_enum_serializes_to(OutputFormat::Yaml, "yaml", e, d);
    assert_enum_serializes_to(OutputFormat::Html, "html", e, d);
    assert_enum_serializes_to(OutputFormat::HtmlSplitPage, "html_split_page", e, d);
    assert_enum_serializes_to(OutputFormat::Text, "text", e, d);
    assert_enum_serializes_to(OutputFormat::Doctags, "doctags", e, d);
}

#[test]
fn image_ref_mode_all_variants() {
    let e = ImageRefMode::as_str;
    let d = ImageRefMode::from_wire;
    assert_enum_serializes_to(ImageRefMode::Placeholder, "placeholder", e, d);
    assert_enum_serializes_to(ImageRefMode::Embedded, "embedded", e, d);
    assert_enum_serializes_to(ImageRefMode::Referenced, "referenced", e, d);
}

#[test]
fn table_former_mode_all_variants() {
    let e = TableFormerMode::as_str;
    let d = TableFormerMode::from_wire;
    assert_enum_serializes_to(TableFormerMode::Fast, "fast", e, d);
    assert_enum_serializes_to(TableFormerMode::Accurate, "accurate", e, d);
}

#[test]
fn pdf_backend_all_variants() {
    let e = PdfBackend::as_str;
    let d = PdfBackend::from_wire;
    assert_enum_serializes_to(PdfBackend::Pypdfium2, "pypdfium2", e, d);
    assert_enum_serializes_to(PdfBackend::DlparseV1, "dlparse_v1", e, d);
    assert_enum_serializes_to(PdfBackend::DlparseV2, "dlparse_v2", e, d);
    assert_enum_serializes_to(PdfBackend::DlparseV4, "dlparse_v4", e, d);
}

#[test]
fn processing_pipeline_all_variants() {
    let e = ProcessingPipeline::as_str;
    let d = ProcessingPipeline::from_wire;
    assert_enum_serializes_to(ProcessingPipeline::Legacy, "legacy", e, d);
    assert_enum_serializes_to(ProcessingPipeline::Standard, "standard", e, d);
    assert_enum_serializes_to(ProcessingPipeline::Vlm, "vlm", e, d);
    assert_enum_serializes_to(ProcessingPipeline::Asr, "asr", e, d);
}

#[test]
fn ocr_engine_all_variants() {
    let e = OcrEngine::as_str;
    let d = OcrEngine::from_wire;
    assert_enum_serializes_to(OcrEngine::Auto, "auto", e, d);
    assert_enum_serializes_to(OcrEngine::Easyocr, "easyocr", e, d);
    assert_enum_serializes_to(OcrEngine::Ocrmac, "ocrmac", e, d);
    assert_enum_serializes_to(OcrEngine::Rapidocr, "rapidocr", e, d);
    assert_enum_serializes_to(OcrEngine::Tesserocr, "tesserocr", e, d);
    assert_enum_serializes_to(OcrEngine::Tesseract, "tesseract", e, d);
}

#[test]
fn conversion_status_all_variants() {
    let e = ConversionStatus::as_str;
    let d = ConversionStatus::from_wire;
    assert_enum_serializes_to(ConversionStatus::Pending, "pending", e, d);
    assert_enum_serializes_to(ConversionStatus::Started, "started", e, d);
    assert_enum_serializes_to(ConversionStatus::Failure, "failure", e, d);
    assert_enum_serializes_to(ConversionStatus::Success, "success", e, d);
    assert_enum_serializes_to(ConversionStatus::PartialSuccess, "partial_success", e, d);
    assert_enum_serializes_to(ConversionStatus::Skipped, "skipped", e, d);
}

#[test]
fn docling_component_type_all_variants() {
    let e = DoclingComponentType::as_str;
    let d = DoclingComponentType::from_wire;
    assert_enum_serializes_to(DoclingComponentType::DocumentBackend, "document_backend", e, d);
    assert_enum_serializes_to(DoclingComponentType::Model, "model", e, d);
    assert_enum_serializes_to(DoclingComponentType::DocAssembler, "doc_assembler", e, d);
    assert_enum_serializes_to(DoclingComponentType::UserInput, "user_input", e, d);
    assert_enum_serializes_to(DoclingComponentType::Pipeline, "pipeline", e, d);
}

#[test]
fn profiling_scope_all_variants() {
    let e = ProfilingScope::as_str;
    let d = ProfilingScope::from_wire;
    assert_enum_serializes_to(ProfilingScope::Page, "page", e, d);
    assert_enum_serializes_to(ProfilingScope::Document, "document", e, d);
}

#[test]
fn task_type_all_variants() {
    let e = TaskType::as_str;
    let d = TaskType::from_wire;
    assert_enum_serializes_to(TaskType::Convert, "convert", e, d);
    assert_enum_serializes_to(TaskType::Chunk, "chunk", e, d);
}

#[test]
fn vlm_model_type_all_variants() {
    let e = VlmModelType::as_str;
    let d = VlmModelType::from_wire;
    assert_enum_serializes_to(VlmModelType::Smoldocling, "smoldocling", e, d);
    assert_enum_serializes_to(VlmModelType::SmoldoclingVllm, "smoldocling_vllm", e, d);
    assert_enum_serializes_to(VlmModelType::GraniteVision, "granite_vision", e, d);
    assert_enum_serializes_to(VlmModelType::GraniteVisionVllm, "granite_vision_vllm", e, d);
    assert_enum_serializes_to(VlmModelType::GraniteVisionOllama, "granite_vision_ollama", e, d);
    assert_enum_serializes_to(VlmModelType::GotOcr2, "got_ocr_2", e, d);
    assert_enum_serializes_to(VlmModelType::GraniteDocling, "granite_docling", e, d);
    assert_enum_serializes_to(VlmModelType::GraniteDoclingVllm, "granite_docling_vllm", e, d);
    assert_enum_serializes_to(VlmModelType::DeepsekocrOllama, "deepseekocr_ollama", e, d);
}

#[test]
fn target_name_all_variants() {
    let e = TargetName::as_str;
    let d = TargetName::from_wire;
    assert_enum_serializes_to(TargetName::Inbody, "inbody", e, d);
    assert_enum_serializes_to(TargetName::Zip, "zip", e, d);
}

#[test]
fn target_name_default_is_inbody() {
    assert_eq!(TargetName::default(), TargetName::Inbody);
}

#[test]
fn target_name_display_matches_serde() {
    assert_eq!(TargetName::Inbody.as_str(), "inbody");
    assert_eq!(TargetName::Zip.as_str(), "zip");
}

#[test]
fn display_impls_match_serde() {
    assert_eq!(InputFormat::XmlUspto.as_str(), "xml_uspto");
    assert_eq!(InputFormat::JsonDocling.as_str(), "json_docling");
    assert_eq!(OutputFormat::HtmlSplitPage.as_str(), "html_split_page");
    assert_eq!(OutputFormat::Md.as_str(), "md");
    assert_eq!(ImageRefMode::Embedded.as_str(), "embedded");
    assert_eq!(TableFormerMode::Accurate.as_str(), "accurate");
    assert_eq!(PdfBackend::DlparseV4.as_str(), "dlparse_v4");
    assert_eq!(ProcessingPipeline::Vlm.as_str(), "vlm");
    assert_eq!(OcrEngine::Easyocr.as_str(), "easyocr");
    assert_eq!(VlmModelType::GotOcr2.as_str(), "got_ocr_2");
    assert_eq!(VlmModelType::DeepsekocrOllama.as_str(), "deepseekocr_ollama");
    assert_eq!(ConversionStatus::Success.as_str(), "success");
    assert_eq!(ConversionStatus::PartialSuccess.as_str(), "partial_success");
}

#[test]
fn unknown_tokens_are_rejected() {
    assert_eq!(InputFormat::from_wire("PDF"), None);
    assert_eq!(VlmModelType::from_wire("got_ocr2"), None);
    assert_eq!(PdfBackend::from_wire("dlparse_v3"), None);
    assert_eq!(TargetName::from_wire(""), None);
}
