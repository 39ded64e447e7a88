//! The service's enumerations and their fixed wire tokens.
//!
//! Each enumeration maps every variant to one lowercase token (`as_str`) and
//! reads tokens back (`from_wire`); the two are inverse on every variant.
use vstd::prelude::*;
use crate::text::text_eq;

verus! {

/// An enumeration whose variants travel as fixed text tokens.
pub trait WireEnum: Sized {
    /// The token of this value.
    spec fn token(&self) -> Seq<char>;

    /// The token of this value, as text.
    fn token_str(&self) -> (r: &'static str)
        ensures
            r@ == self.token(),
    ;
}

/// A document format that the service's parsers accept.
#[derive(Debug, Clone, Copy, PartialEq, Eq, Structural)]
pub enum InputFormat {
    Docx,
    Pptx,
    Html,
    Image,
    Pdf,
    Asciidoc,
    Md,
    Csv,
    Xlsx,
    XmlUspto,
    XmlJats,
    MetsGbs,
    JsonDocling,
    Audio,
    Vtt,
}

impl InputFormat {
    /// The wire token of each variant.
    pub open spec fn wire(self) -> Seq<char> {
        match self {
            InputFormat::Docx => "docx"@,
            InputFormat::Pptx => "pptx"@,
            InputFormat::Html => "html"@,
            InputFormat::Image => "image"@,
            InputFormat::Pdf => "pdf"@,
            InputFormat::Asciidoc => "asciidoc"@,
            InputFormat::Md => "md"@,
            InputFormat::Csv => "csv"@,
            InputFormat::Xlsx => "xlsx"@,
            InputFormat::XmlUspto => "xml_uspto"@,
            InputFormat::XmlJats => "xml_jats"@,
            InputFormat::MetsGbs => "mets_gbs"@,
            InputFormat::JsonDocling => "json_docling"@,
            InputFormat::Audio => "audio"@,
            InputFormat::Vtt => "vtt"@,
        }
    }

    /// The variant whose wire token is `s`, if any.
    pub open spec fn parse_wire(s: Seq<char>) -> Option<Self> {
        if s == "docx"@ {
            Some(InputFormat::Docx)
        } else if s == "pptx"@ {
            Some(InputFormat::Pptx)
        } else if s == "html"@ {
            Some(InputFormat::Html)
        } else if s == "image"@ {
            Some(InputFormat::Image)
        } else if s == "pdf"@ {
            Some(InputFormat::Pdf)
        } else if s == "asciidoc"@ {
            Some(InputFormat::Asciidoc)
        } else if s == "md"@ {
            Some(InputFormat::Md)
        } else if s == "csv"@ {
            Some(InputFormat::Csv)
        } else if s == "xlsx"@ {
            Some(InputFormat::Xlsx)
        } else if s == "xml_uspto"@ {
            Some(InputFormat::XmlUspto)
        } else if s == "xml_jats"@ {
            Some(InputFormat::XmlJats)
        } else if s == "mets_gbs"@ {
            Some(InputFormat::MetsGbs)
        } else if s == "json_docling"@ {
            Some(InputFormat::JsonDocling)
        } else if s == "audio"@ {
            Some(InputFormat::Audio)
        } else if s == "vtt"@ {
            Some(InputFormat::Vtt)
        } else {
            None
        }
    }

    /// The wire token of this variant.
    pub fn as_str(&self) -> (r: &'static str)
        ensures
            r@ == self.wire(),
    {
        match self {
            InputFormat::Docx => "docx",
            InputFormat::Pptx => "pptx",
            InputFormat::Html => "html",
            InputFormat::Image => "image",
            InputFormat::Pdf => "pdf",
            InputFormat::Asciidoc => "asciidoc",
            InputFormat::Md => "md",
            InputFormat::Csv => "csv",
            InputFormat::Xlsx => "xlsx",
            InputFormat::XmlUspto => "xml_uspto",
            InputFormat::XmlJats => "xml_jats",
            InputFormat::MetsGbs => "mets_gbs",
            InputFormat::JsonDocling => "json_docling",
            InputFormat::Audio => "audio",
            InputFormat::Vtt => "vtt",
        }
    }

    /// The variant that a wire token names; `None` for any other text.
    pub fn from_wire(s: &str) -> (r: Option<Self>)
        ensures
            r == Self::parse_wire(s@),
    {
        if text_eq(s, "docx") {
            Some(InputFormat::Docx)
        } else if text_eq(s, "pptx") {
            Some(InputFormat::Pptx)
        } else if text_eq(s, "html") {
            Some(InputFormat::Html)
        } else if text_eq(s, "image") {
            Some(InputFormat::Image)
        } else if text_eq(s, "pdf") {
            Some(InputFormat::Pdf)
        } else if text_eq(s, "asciidoc") {
            Some(InputFormat::Asciidoc)
        } else if text_eq(s, "md") {
            Some(InputFormat::Md)
        } else if text_eq(s, "csv") {
            Some(InputFormat::Csv)
        } else if text_eq(s, "xlsx") {
            Some(InputFormat::Xlsx)
        } else if text_eq(s, "xml_uspto") {
            Some(InputFormat::XmlUspto)
        } else if text_eq(s, "xml_jats") {
            Some(InputFormat::XmlJats)
        } else if text_eq(s, "mets_gbs") {
            Some(InputFormat::MetsGbs)
        } else if text_eq(s, "json_docling") {
            Some(InputFormat::JsonDocling)
        } else if text_eq(s, "audio") {
            Some(InputFormat::Audio)
        } else if text_eq(s, "vtt") {
            Some(InputFormat::Vtt)
        } else {
            None
        }
    }

    /// Decoding the wire token of a variant gives that variant back.
    pub proof fn lemma_wire_round_trip(v: Self)
        ensures
            Self::parse_wire(v.wire()) == Some(v),
    {
        reveal_strlit("docx");
        reveal_strlit("pptx");
        reveal_strlit("html");
        reveal_strlit("image");
        reveal_strlit("pdf");
        reveal_strlit("asciidoc");
        reveal_strlit("md");
        reveal_strlit("csv");
        reveal_strlit("xlsx");
        reveal_strlit("xml_uspto");
        reveal_strlit("xml_jats");
        reveal_strlit("mets_gbs");
        reveal_strlit("json_docling");
        reveal_strlit("audio");
        reveal_strlit("vtt");
        assert("docx"@ =~= seq!['d', 'o', 'c', 'x']);
        assert("pptx"@ =~= seq!['p', 'p', 't', 'x']);
        assert("html"@ =~= seq!['h', 't', 'm', 'l']);
        assert("image"@ =~= seq!['i', 'm', 'a', 'g', 'e']);
        assert("pdf"@ =~= seq!['p', 'd', 'f']);
        assert("asciidoc"@ =~= seq!['a', 's', 'c', 'i', 'i', 'd', 'o', 'c']);
        assert("md"@ =~= seq!['m', 'd']);
        assert("csv"@ =~= seq!['c', 's', 'v']);
        assert("xlsx"@ =~= seq!['x', 'l', 's', 'x']);
        assert("xml_uspto"@ =~= seq!['x', 'm', 'l', '_', 'u', 's', 'p', 't', 'o']);
        assert("xml_jats"@ =~= seq!['x', 'm', 'l', '_', 'j', 'a', 't', 's']);
        assert("mets_gbs"@ =~= seq!['m', 'e', 't', 's', '_', 'g', 'b', 's']);
        assert("json_docling"@ =~= seq!['j', 's', 'o', 'n', '_', 'd', 'o', 'c', 'l', 'i', 'n', 'g']);
        assert("audio"@ =~= seq!['a', 'u', 'd', 'i', 'o']);
        assert("vtt"@ =~= seq!['v', 't', 't']);
    }
}

impl WireEnum for InputFormat {
    open spec fn token(&self) -> Seq<char> {
        self.wire()
    }

    fn token_str(&self) -> (r: &'static str) {
        self.as_str()
    }
}

/// An output format of a conversion.
#[derive(Debug, Clone, Copy, PartialEq, Eq, Structural)]
pub enum OutputFormat {
    Md,
    Json,
    Yaml,
    Html,
    HtmlSplitPage,
    Text,
    Doctags,
}

impl OutputFormat {
    /// The wire token of each variant.
    pub open spec fn wire(self) -> Seq<char> {
        match self {
            OutputFormat::Md => "md"@,
            OutputFormat::Json => "json"@,
            OutputFormat::Yaml => "yaml"@,
            OutputFormat::Html => "html"@,
            OutputFormat::HtmlSplitPage => "html_split_page"@,
            OutputFormat::Text => "text"@,
            OutputFormat::Doctags => "doctags"@,
        }
    }

    /// The variant whose wire token is `s`, if any.
    pub open spec fn parse_wire(s: Seq<char>) -> Option<Self> {
        if s == "md"@ {
            Some(OutputFormat::Md)
        } else if s == "json"@ {
            Some(OutputFormat::Json)
        } else if s == "yaml"@ {
            Some(OutputFormat::Yaml)
        } else if s == "html"@ {
            Some(OutputFormat::Html)
        } else if s == "html_split_page"@ {
            Some(OutputFormat::HtmlSplitPage)
        } else if s == "text"@ {
            Some(OutputFormat::Text)
        } else if s == "doctags"@ {
            Some(OutputFormat::Doctags)
        } else {
            None
        }
    }

    /// The wire token of this variant.
    pub fn as_str(&self) -> (r: &'static str)
        ensures
            r@ == self.wire(),
    {
        match self {
            OutputFormat::Md => "md",
            OutputFormat::Json => "json",
            OutputFormat::Yaml => "yaml",
            OutputFormat::Html => "html",
            OutputFormat::HtmlSplitPage => "html_split_page",
            OutputFormat::Text => "text",
            OutputFormat::Doctags => "doctags",
        }
    }

    /// The variant that a wire token names; `None` for any other text.
    pub fn from_wire(s: &str) -> (r: Option<Self>)
        ensures
            r == Self::parse_wire(s@),
    {
        if text_eq(s, "md") {
            Some(OutputFormat::Md)
        } else if text_eq(s, "json") {
            Some(OutputFormat::Json)
        } else if text_eq(s, "yaml") {
            Some(OutputFormat::Yaml)
        } else if text_eq(s, "html") {
            Some(OutputFormat::Html)
        } else if text_eq(s, "html_split_page") {
            Some(OutputFormat::HtmlSplitPage)
        } else if text_eq(s, "text") {
            Some(OutputFormat::Text)
        } else if text_eq(s, "doctags") {
            Some(OutputFormat::Doctags)
        } else {
            None
        }
    }

    /// Decoding the wire token of a variant gives that variant back.
    pub proof fn lemma_wire_round_trip(v: Self)
        ensures
            Self::parse_wire(v.wire()) == Some(v),
    {
        reveal_strlit("md");
        reveal_strlit("json");
        reveal_strlit("yaml");
        reveal_strlit("html");
        reveal_strlit("html_split_page");
        reveal_strlit("text");
        reveal_strlit("doctags");
        assert("md"@ =~= seq!['m', 'd']);
        assert("json"@ =~= seq!['j', 's', 'o', 'n']);
        assert("yaml"@ =~= seq!['y', 'a', 'm', 'l']);
        assert("html"@ =~= seq!['h', 't', 'm', 'l']);
        assert("html_split_page"@ =~= seq!['h', 't', 'm', 'l', '_', 's', 'p', 'l', 'i', 't', '_', 'p', 'a', 'g', 'e']);
        assert("text"@ =~= seq!['t', 'e', 'x', 't']);
        assert("doctags"@ =~= seq!['d', 'o', 'c', 't', 'a', 'g', 's']);
    }
}

impl WireEnum for OutputFormat {
    open spec fn token(&self) -> Seq<char> {
        self.wire()
    }

    fn token_str(&self) -> (r: &'static str) {
        self.as_str()
    }
}

/// How images are exported with the document.
#[derive(Debug, Clone, Copy, PartialEq, Eq, Structural)]
pub enum ImageRefMode {
    Placeholder,
    Embedded,
    Referenced,
}

impl ImageRefMode {
    /// The wire token of each variant.
    pub open spec fn wire(self) -> Seq<char> {
        match self {
            ImageRefMode::Placeholder => "placeholder"@,
            ImageRefMode::Embedded => "embedded"@,
            ImageRefMode::Referenced => "referenced"@,
        }
    }

    /// The variant whose wire token is `s`, if any.
    pub open spec fn parse_wire(s: Seq<char>) -> Option<Self> {
        if s == "placeholder"@ {
            Some(ImageRefMode::Placeholder)
        } else if s == "embedded"@ {
            Some(ImageRefMode::Embedded)
        } else if s == "referenced"@ {
            Some(ImageRefMode::Referenced)
        } else {
            None
        }
    }

    /// The wire token of this variant.
    pub fn as_str(&self) -> (r: &'static str)
        ensures
            r@ == self.wire(),
    {
        match self {
            ImageRefMode::Placeholder => "placeholder",
            ImageRefMode::Embedded => "embedded",
            ImageRefMode::Referenced => "referenced",
        }
    }

    /// The variant that a wire token names; `None` for any other text.
    pub fn from_wire(s: &str) -> (r: Option<Self>)
        ensures
            r == Self::parse_wire(s@),
    {
        if text_eq(s, "placeholder") {
            Some(ImageRefMode::Placeholder)
        } else if text_eq(s, "embedded") {
            Some(ImageRefMode::Embedded)
        } else if text_eq(s, "referenced") {
            Some(ImageRefMode::Referenced)
        } else {
            None
        }
    }

    /// Decoding the wire token of a variant gives that variant back.
    pub proof fn lemma_wire_round_trip(v: Self)
        ensures
            Self::parse_wire(v.wire()) == Some(v),
    {
        reveal_strlit("placeholder");
        reveal_strlit("embedded");
        reveal_strlit("referenced");
        assert("placeholder"@ =~= seq!['p', 'l', 'a', 'c', 'e', 'h', 'o', 'l', 'd', 'e', 'r']);
        assert("embedded"@ =~= seq!['e', 'm', 'b', 'e', 'd', 'd', 'e', 'd']);
        assert("referenced"@ =~= seq!['r', 'e', 'f', 'e', 'r', 'e', 'n', 'c', 'e', 'd']);
    }
}

impl WireEnum for ImageRefMode {
    open spec fn token(&self) -> Seq<char> {
        self.wire()
    }

    fn token_str(&self) -> (r: &'static str) {
        self.as_str()
    }
}

/// Table structure extraction mode.
#[derive(Debug, Clone, Copy, PartialEq, Eq, Structural)]
pub enum TableFormerMode {
    Fast,
    Accurate,
}

impl TableFormerMode {
    /// The wire token of each variant.
    pub open spec fn wire(self) -> Seq<char> {
        match self {
            TableFormerMode::Fast => "fast"@,
            TableFormerMode::Accurate => "accurate"@,
        }
    }

    /// The variant whose wire token is `s`, if any.
    pub open spec fn parse_wire(s: Seq<char>) -> Option<Self> {
        if s == "fast"@ {
            Some(TableFormerMode::Fast)
        } else if s == "accurate"@ {
            Some(TableFormerMode::Accurate)
        } else {
            None
        }
    }

    /// The wire token of this variant.
    pub fn as_str(&self) -> (r: &'static str)
        ensures
            r@ == self.wire(),
    {
        match self {
            TableFormerMode::Fast => "fast",
            TableFormerMode::Accurate => "accurate",
        }
    }

    /// The variant that a wire token names; `None` for any other text.
    pub fn from_wire(s: &str) -> (r: Option<Self>)
        ensures
            r == Self::parse_wire(s@),
    {
        if text_eq(s, "fast") {
            Some(TableFormerMode::Fast)
        } else if text_eq(s, "accurate") {
            Some(TableFormerMode::Accurate)
        } else {
            None
        }
    }

    /// Decoding the wire token of a variant gives that variant back.
    pub proof fn lemma_wire_round_trip(v: Self)
        ensures
            Self::parse_wire(v.wire()) == Some(v),
    {
        reveal_strlit("fast");
        reveal_strlit("accurate");
        assert("fast"@ =~= seq!['f', 'a', 's', 't']);
        assert("accurate"@ =~= seq!['a', 'c', 'c', 'u', 'r', 'a', 't', 'e']);
    }
}

impl WireEnum for TableFormerMode {
    open spec fn token(&self) -> Seq<char> {
        self.wire()
    }

    fn token_str(&self) -> (r: &'static str) {
        self.as_str()
    }
}

/// A PDF parsing backend.
#[derive(Debug, Clone, Copy, PartialEq, Eq, Structural)]
pub enum PdfBackend {
    Pypdfium2,
    DlparseV1,
    DlparseV2,
    DlparseV4,
}

impl PdfBackend {
    /// The wire token of each variant.
    pub open spec fn wire(self) -> Seq<char> {
        match self {
            PdfBackend::Pypdfium2 => "pypdfium2"@,
            PdfBackend::DlparseV1 => "dlparse_v1"@,
            PdfBackend::DlparseV2 => "dlparse_v2"@,
            PdfBackend::DlparseV4 => "dlparse_v4"@,
        }
    }

    /// The variant whose wire token is `s`, if any.
    pub open spec fn parse_wire(s: Seq<char>) -> Option<Self> {
        if s == "pypdfium2"@ {
            Some(PdfBackend::Pypdfium2)
        } else if s == "dlparse_v1"@ {
            Some(PdfBackend::DlparseV1)
        } else if s == "dlparse_v2"@ {
            Some(PdfBackend::DlparseV2)
        } else if s == "dlparse_v4"@ {
            Some(PdfBackend::DlparseV4)
        } else {
            None
        }
    }

    /// The wire token of this variant.
    pub fn as_str(&self) -> (r: &'static str)
        ensures
            r@ == self.wire(),
    {
        match self {
            PdfBackend::Pypdfium2 => "pypdfium2",
            PdfBackend::DlparseV1 => "dlparse_v1",
            PdfBackend::DlparseV2 => "dlparse_v2",
            PdfBackend::DlparseV4 => "dlparse_v4",
        }
    }

    /// The variant that a wire token names; `None` for any other text.
    pub fn from_wire(s: &str) -> (r: Option<Self>)
        ensures
            r == Self::parse_wire(s@),
    {
        if text_eq(s, "pypdfium2") {
            Some(PdfBackend::Pypdfium2)
        } else if text_eq(s, "dlparse_v1") {
            Some(PdfBackend::DlparseV1)
        } else if text_eq(s, "dlparse_v2") {
            Some(PdfBackend::DlparseV2)
        } else if text_eq(s, "dlparse_v4") {
            Some(PdfBackend::DlparseV4)
        } else {
            None
        }
    }

    /// Decoding the wire token of a variant gives that variant back.
    pub proof fn lemma_wire_round_trip(v: Self)
        ensures
            Self::parse_wire(v.wire()) == Some(v),
    {
        reveal_strlit("pypdfium2");
        reveal_strlit("dlparse_v1");
        reveal_strlit("dlparse_v2");
        reveal_strlit("dlparse_v4");
        assert("pypdfium2"@ =~= seq!['p', 'y', 'p', 'd', 'f', 'i', 'u', 'm', '2']);
        assert("dlparse_v1"@ =~= seq!['d', 'l', 'p', 'a', 'r', 's', 'e', '_', 'v', '1']);
        assert("dlparse_v2"@ =~= seq!['d', 'l', 'p', 'a', 'r', 's', 'e', '_', 'v', '2']);
        assert("dlparse_v4"@ =~= seq!['d', 'l', 'p', 'a', 'r', 's', 'e', '_', 'v', '4']);
    }
}

impl WireEnum for PdfBackend {
    open spec fn token(&self) -> Seq<char> {
        self.wire()
    }

    fn token_str(&self) -> (r: &'static str) {
        self.as_str()
    }
}

/// A document processing pipeline.
#[derive(Debug, Clone, Copy, PartialEq, Eq, Structural)]
pub enum ProcessingPipeline {
    Legacy,
    Standard,
    Vlm,
    Asr,
}

impl ProcessingPipeline {
    /// The wire token of each variant.
    pub open spec fn wire(self) -> Seq<char> {
        match self {
            ProcessingPipeline::Legacy => "legacy"@,
            ProcessingPipeline::Standard => "standard"@,
            ProcessingPipeline::Vlm => "vlm"@,
            ProcessingPipeline::Asr => "asr"@,
        }
    }

    /// The variant whose wire token is `s`, if any.
    pub open spec fn parse_wire(s: Seq<char>) -> Option<Self> {
        if s == "legacy"@ {
            Some(ProcessingPipeline::Legacy)
        } else if s == "standard"@ {
            Some(ProcessingPipeline::Standard)
        } else if s == "vlm"@ {
            Some(ProcessingPipeline::Vlm)
        } else if s == "asr"@ {
            Some(ProcessingPipeline::Asr)
        } else {
            None
        }
    }

    /// The wire token of this variant.
    pub fn as_str(&self) -> (r: &'static str)
        ensures
            r@ == self.wire(),
    {
        match self {
            ProcessingPipeline::Legacy => "legacy",
            ProcessingPipeline::Standard => "standard",
            ProcessingPipeline::Vlm => "vlm",
            ProcessingPipeline::Asr => "asr",
        }
    }

    /// The variant that a wire token names; `None` for any other text.
    pub fn from_wire(s: &str) -> (r: Option<Self>)
        ensures
            r == Self::parse_wire(s@),
    {
        if text_eq(s, "legacy") {
            Some(ProcessingPipeline::Legacy)
        } else if text_eq(s, "standard") {
            Some(ProcessingPipeline::Standard)
        } else if text_eq(s, "vlm") {
            Some(ProcessingPipeline::Vlm)
        } else if text_eq(s, "asr") {
            Some(ProcessingPipeline::Asr)
        } else {
            None
        }
    }

    /// Decoding the wire token of a variant gives that variant back.
    pub proof fn lemma_wire_round_trip(v: Self)
        ensures
            Self::parse_wire(v.wire()) == Some(v),
    {
        reveal_strlit("legacy");
        reveal_strlit("standard");
        reveal_strlit("vlm");
        reveal_strlit("asr");
        assert("legacy"@ =~= seq!['l', 'e', 'g', 'a', 'c', 'y']);
        assert("standard"@ =~= seq!['s', 't', 'a', 'n', 'd', 'a', 'r', 'd']);
        assert("vlm"@ =~= seq!['v', 'l', 'm']);
        assert("asr"@ =~= seq!['a', 's', 'r']);
    }
}

impl WireEnum for ProcessingPipeline {
    open spec fn token(&self) -> Seq<char> {
        self.wire()
    }

    fn token_str(&self) -> (r: &'static str) {
        self.as_str()
    }
}

/// An OCR engine.
#[derive(Debug, Clone, Copy, PartialEq, Eq, Structural)]
pub enum OcrEngine {
    Auto,
    Easyocr,
    Ocrmac,
    Rapidocr,
    Tesserocr,
    Tesseract,
}

impl OcrEngine {
    /// The wire token of each variant.
    pub open spec fn wire(self) -> Seq<char> {
        match self {
            OcrEngine::Auto => "auto"@,
            OcrEngine::Easyocr => "easyocr"@,
            OcrEngine::Ocrmac => "ocrmac"@,
            OcrEngine::Rapidocr => "rapidocr"@,
            OcrEngine::Tesserocr => "tesserocr"@,
            OcrEngine::Tesseract => "tesseract"@,
        }
    }

    /// The variant whose wire token is `s`, if any.
    pub open spec fn parse_wire(s: Seq<char>) -> Option<Self> {
        if s == "auto"@ {
            Some(OcrEngine::Auto)
        } else if s == "easyocr"@ {
            Some(OcrEngine::Easyocr)
        } else if s == "ocrmac"@ {
            Some(OcrEngine::Ocrmac)
        } else if s == "rapidocr"@ {
            Some(OcrEngine::Rapidocr)
        } else if s == "tesserocr"@ {
            Some(OcrEngine::Tesserocr)
        } else if s == "tesseract"@ {
            Some(OcrEngine::Tesseract)
        } else {
            None
        }
    }

    /// The wire token of this variant.
    pub fn as_str(&self) -> (r: &'static str)
        ensures
            r@ == self.wire(),
    {
        match self {
            OcrEngine::Auto => "auto",
            OcrEngine::Easyocr => "easyocr",
            OcrEngine::Ocrmac => "ocrmac",
            OcrEngine::Rapidocr => "rapidocr",
            OcrEngine::Tesserocr => "tesserocr",
            OcrEngine::Tesseract => "tesseract",
        }
    }

    /// The variant that a wire token names; `None` for any other text.
    pub fn from_wire(s: &str) -> (r: Option<Self>)
        ensures
            r == Self::parse_wire(s@),
    {
        if text_eq(s, "auto") {
            Some(OcrEngine::Auto)
        } else if text_eq(s, "easyocr") {
            Some(OcrEngine::Easyocr)
        } else if text_eq(s, "ocrmac") {
            Some(OcrEngine::Ocrmac)
        } else if text_eq(s, "rapidocr") {
            Some(OcrEngine::Rapidocr)
        } else if text_eq(s, "tesserocr") {
            Some(OcrEngine::Tesserocr)
        } else if text_eq(s, "tesseract") {
            Some(OcrEngine::Tesseract)
        } else {
            None
        }
    }

    /// Decoding the wire token of a variant gives that variant back.
    pub proof fn lemma_wire_round_trip(v: Self)
        ensures
            Self::parse_wire(v.wire()) == Some(v),
    {
        reveal_strlit("auto");
        reveal_strlit("easyocr");
        reveal_strlit("ocrmac");
        reveal_strlit("rapidocr");
        reveal_strlit("tesserocr");
        reveal_strlit("tesseract");
        assert("auto"@ =~= seq!['a', 'u', 't', 'o']);
        assert("easyocr"@ =~= seq!['e', 'a', 's', 'y', 'o', 'c', 'r']);
        assert("ocrmac"@ =~= seq!['o', 'c', 'r', 'm', 'a', 'c']);
        assert("rapidocr"@ =~= seq!['r', 'a', 'p', 'i', 'd', 'o', 'c', 'r']);
        assert("tesserocr"@ =~= seq!['t', 'e', 's', 's', 'e', 'r', 'o', 'c', 'r']);
        assert("tesseract"@ =~= seq!['t', 'e', 's', 's', 'e', 'r', 'a', 'c', 't']);
    }
}

impl WireEnum for OcrEngine {
    open spec fn token(&self) -> Seq<char> {
        self.wire()
    }

    fn token_str(&self) -> (r: &'static str) {
        self.as_str()
    }
}

/// Status of a document conversion.
#[derive(Debug, Clone, Copy, PartialEq, Eq, Structural)]
pub enum ConversionStatus {
    Pending,
    Started,
    Failure,
    Success,
    PartialSuccess,
    Skipped,
}

impl ConversionStatus {
    /// The wire token of each variant.
    pub open spec fn wire(self) -> Seq<char> {
        match self {
            ConversionStatus::Pending => "pending"@,
            ConversionStatus::Started => "started"@,
            ConversionStatus::Failure => "failure"@,
            ConversionStatus::Success => "success"@,
            ConversionStatus::PartialSuccess => "partial_success"@,
            ConversionStatus::Skipped => "skipped"@,
        }
    }

    /// The variant whose wire token is `s`, if any.
    pub open spec fn parse_wire(s: Seq<char>) -> Option<Self> {
        if s == "pending"@ {
            Some(ConversionStatus::Pending)
        } else if s == "started"@ {
            Some(ConversionStatus::Started)
        } else if s == "failure"@ {
            Some(ConversionStatus::Failure)
        } else if s == "success"@ {
            Some(ConversionStatus::Success)
        } else if s == "partial_success"@ {
            Some(ConversionStatus::PartialSuccess)
        } else if s == "skipped"@ {
            Some(ConversionStatus::Skipped)
        } else {
            None
        }
    }

    /// The wire token of this variant.
    pub fn as_str(&self) -> (r: &'static str)
        ensures
            r@ == self.wire(),
    {
        match self {
            ConversionStatus::Pending => "pending",
            ConversionStatus::Started => "started",
            ConversionStatus::Failure => "failure",
            ConversionStatus::Success => "success",
            ConversionStatus::PartialSuccess => "partial_success",
            ConversionStatus::Skipped => "skipped",
        }
    }

    /// The variant that a wire token names; `None` for any other text.
    pub fn from_wire(s: &str) -> (r: Option<Self>)
        ensures
            r == Self::parse_wire(s@),
    {
        if text_eq(s, "pending") {
            Some(ConversionStatus::Pending)
        } else if text_eq(s, "started") {
            Some(ConversionStatus::Started)
        } else if text_eq(s, "failure") {
            Some(ConversionStatus::Failure)
        } else if text_eq(s, "success") {
            Some(ConversionStatus::Success)
        } else if text_eq(s, "partial_success") {
            Some(ConversionStatus::PartialSuccess)
        } else if text_eq(s, "skipped") {
            Some(ConversionStatus::Skipped)
        } else {
            None
        }
    }

    /// Decoding the wire token of a variant gives that variant back.
    pub proof fn lemma_wire_round_trip(v: Self)
        ensures
            Self::parse_wire(v.wire()) == Some(v),
    {
        reveal_strlit("pending");
        reveal_strlit("started");
        reveal_strlit("failure");
        reveal_strlit("success");
        reveal_strlit("partial_success");
        reveal_strlit("skipped");
        assert("pending"@ =~= seq!['p', 'e', 'n', 'd', 'i', 'n', 'g']);
        assert("started"@ =~= seq!['s', 't', 'a', 'r', 't', 'e', 'd']);
        assert("failure"@ =~= seq!['f', 'a', 'i', 'l', 'u', 'r', 'e']);
        assert("success"@ =~= seq!['s', 'u', 'c', 'c', 'e', 's', 's']);
        assert("partial_success"@ =~= seq!['p', 'a', 'r', 't', 'i', 'a', 'l', '_', 's', 'u', 'c', 'c', 'e', 's', 's']);
        assert("skipped"@ =~= seq!['s', 'k', 'i', 'p', 'p', 'e', 'd']);
    }
}

impl WireEnum for ConversionStatus {
    open spec fn token(&self) -> Seq<char> {
        self.wire()
    }

    fn token_str(&self) -> (r: &'static str) {
        self.as_str()
    }
}

/// The component that reported a conversion error.
#[derive(Debug, Clone, Copy, PartialEq, Eq, Structural)]
pub enum DoclingComponentType {
    DocumentBackend,
    Model,
    DocAssembler,
    UserInput,
    Pipeline,
}

impl DoclingComponentType {
    /// The wire token of each variant.
    pub open spec fn wire(self) -> Seq<char> {
        match self {
            DoclingComponentType::DocumentBackend => "document_backend"@,
            DoclingComponentType::Model => "model"@,
            DoclingComponentType::DocAssembler => "doc_assembler"@,
            DoclingComponentType::UserInput => "user_input"@,
            DoclingComponentType::Pipeline => "pipeline"@,
        }
    }

    /// The variant whose wire token is `s`, if any.
    pub open spec fn parse_wire(s: Seq<char>) -> Option<Self> {
        if s == "document_backend"@ {
            Some(DoclingComponentType::DocumentBackend)
        } else if s == "model"@ {
            Some(DoclingComponentType::Model)
        } else if s == "doc_assembler"@ {
            Some(DoclingComponentType::DocAssembler)
        } else if s == "user_input"@ {
            Some(DoclingComponentType::UserInput)
        } else if s == "pipeline"@ {
            Some(DoclingComponentType::Pipeline)
        } else {
            None
        }
    }

    /// The wire token of this variant.
    pub fn as_str(&self) -> (r: &'static str)
        ensures
            r@ == self.wire(),
    {
        match self {
            DoclingComponentType::DocumentBackend => "document_backend",
            DoclingComponentType::Model => "model",
            DoclingComponentType::DocAssembler => "doc_assembler",
            DoclingComponentType::UserInput => "user_input",
            DoclingComponentType::Pipeline => "pipeline",
        }
    }

    /// The variant that a wire token names; `None` for any other text.
    pub fn from_wire(s: &str) -> (r: Option<Self>)
        ensures
            r == Self::parse_wire(s@),
    {
        if text_eq(s, "document_backend") {
            Some(DoclingComponentType::DocumentBackend)
        } else if text_eq(s, "model") {
            Some(DoclingComponentType::Model)
        } else if text_eq(s, "doc_assembler") {
            Some(DoclingComponentType::DocAssembler)
        } else if text_eq(s, "user_input") {
            Some(DoclingComponentType::UserInput)
        } else if text_eq(s, "pipeline") {
            Some(DoclingComponentType::Pipeline)
        } else {
            None
        }
    }

    /// Decoding the wire token of a variant gives that variant back.
    pub proof fn lemma_wire_round_trip(v: Self)
        ensures
            Self::parse_wire(v.wire()) == Some(v),
    {
        reveal_strlit("document_backend");
        reveal_strlit("model");
        reveal_strlit("doc_assembler");
        reveal_strlit("user_input");
        reveal_strlit("pipeline");
        assert("document_backend"@ =~= seq!['d', 'o', 'c', 'u', 'm', 'e', 'n', 't', '_', 'b', 'a', 'c', 'k', 'e', 'n', 'd']);
        assert("model"@ =~= seq!['m', 'o', 'd', 'e', 'l']);
        assert("doc_assembler"@ =~= seq!['d', 'o', 'c', '_', 'a', 's', 's', 'e', 'm', 'b', 'l', 'e', 'r']);
        assert("user_input"@ =~= seq!['u', 's', 'e', 'r', '_', 'i', 'n', 'p', 'u', 't']);
        assert("pipeline"@ =~= seq!['p', 'i', 'p', 'e', 'l', 'i', 'n', 'e']);
    }
}

impl WireEnum for DoclingComponentType {
    open spec fn token(&self) -> Seq<char> {
        self.wire()
    }

    fn token_str(&self) -> (r: &'static str) {
        self.as_str()
    }
}

/// Scope of a profiling entry.
#[derive(Debug, Clone, Copy, PartialEq, Eq, Structural)]
pub enum ProfilingScope {
    Page,
    Document,
}

impl ProfilingScope {
    /// The wire token of each variant.
    pub open spec fn wire(self) -> Seq<char> {
        match self {
            ProfilingScope::Page => "page"@,
            ProfilingScope::Document => "document"@,
        }
    }

    /// The variant whose wire token is `s`, if any.
    pub open spec fn parse_wire(s: Seq<char>) -> Option<Self> {
        if s == "page"@ {
            Some(ProfilingScope::Page)
        } else if s == "document"@ {
            Some(ProfilingScope::Document)
        } else {
            None
        }
    }

    /// The wire token of this variant.
    pub fn as_str(&self) -> (r: &'static str)
        ensures
            r@ == self.wire(),
    {
        match self {
            ProfilingScope::Page => "page",
            ProfilingScope::Document => "document",
        }
    }

    /// The variant that a wire token names; `None` for any other text.
    pub fn from_wire(s: &str) -> (r: Option<Self>)
        ensures
            r == Self::parse_wire(s@),
    {
        if text_eq(s, "page") {
            Some(ProfilingScope::Page)
        } else if text_eq(s, "document") {
            Some(ProfilingScope::Document)
        } else {
            None
        }
    }

    /// Decoding the wire token of a variant gives that variant back.
    pub proof fn lemma_wire_round_trip(v: Self)
        ensures
            Self::parse_wire(v.wire()) == Some(v),
    {
        reveal_strlit("page");
        reveal_strlit("document");
        assert("page"@ =~= seq!['p', 'a', 'g', 'e']);
        assert("document"@ =~= seq!['d', 'o', 'c', 'u', 'm', 'e', 'n', 't']);
    }
}

impl WireEnum for ProfilingScope {
    open spec fn token(&self) -> Seq<char> {
        self.wire()
    }

    fn token_str(&self) -> (r: &'static str) {
        self.as_str()
    }
}

/// Kind of an asynchronous task.
#[derive(Debug, Clone, Copy, PartialEq, Eq, Structural)]
pub enum TaskType {
    Convert,
    Chunk,
}

impl TaskType {
    /// The wire token of each variant.
    pub open spec fn wire(self) -> Seq<char> {
        match self {
            TaskType::Convert => "convert"@,
            TaskType::Chunk => "chunk"@,
        }
    }

    /// The variant whose wire token is `s`, if any.
    pub open spec fn parse_wire(s: Seq<char>) -> Option<Self> {
        if s == "convert"@ {
            Some(TaskType::Convert)
        } else if s == "chunk"@ {
            Some(TaskType::Chunk)
        } else {
            None
        }
    }

    /// The wire token of this variant.
    pub fn as_str(&self) -> (r: &'static str)
        ensures
            r@ == self.wire(),
    {
        match self {
            TaskType::Convert => "convert",
            TaskType::Chunk => "chunk",
        }
    }

    /// The variant that a wire token names; `None` for any other text.
    pub fn from_wire(s: &str) -> (r: Option<Self>)
        ensures
            r == Self::parse_wire(s@),
    {
        if text_eq(s, "convert") {
            Some(TaskType::Convert)
        } else if text_eq(s, "chunk") {
            Some(TaskType::Chunk)
        } else {
            None
        }
    }

    /// Decoding the wire token of a variant gives that variant back.
    pub proof fn lemma_wire_round_trip(v: Self)
        ensures
            Self::parse_wire(v.wire()) == Some(v),
    {
        reveal_strlit("convert");
        reveal_strlit("chunk");
        assert("convert"@ =~= seq!['c', 'o', 'n', 'v', 'e', 'r', 't']);
        assert("chunk"@ =~= seq!['c', 'h', 'u', 'n', 'k']);
    }
}

impl WireEnum for TaskType {
    open spec fn token(&self) -> Seq<char> {
        self.wire()
    }

    fn token_str(&self) -> (r: &'static str) {
        self.as_str()
    }
}

/// A preset of the vision-language model pipeline.
#[derive(Debug, Clone, Copy, PartialEq, Eq, Structural)]
pub enum VlmModelType {
    Smoldocling,
    SmoldoclingVllm,
    GraniteVision,
    GraniteVisionVllm,
    GraniteVisionOllama,
    GotOcr2,
    GraniteDocling,
    GraniteDoclingVllm,
    DeepsekocrOllama,
}

impl VlmModelType {
    /// The wire token of each variant.
    pub open spec fn wire(self) -> Seq<char> {
        match self {
            VlmModelType::Smoldocling => "smoldocling"@,
            VlmModelType::SmoldoclingVllm => "smoldocling_vllm"@,
            VlmModelType::GraniteVision => "granite_vision"@,
            VlmModelType::GraniteVisionVllm => "granite_vision_vllm"@,
            VlmModelType::GraniteVisionOllama => "granite_vision_ollama"@,
            VlmModelType::GotOcr2 => "got_ocr_2"@,
            VlmModelType::GraniteDocling => "granite_docling"@,
            VlmModelType::GraniteDoclingVllm => "granite_docling_vllm"@,
            VlmModelType::DeepsekocrOllama => "deepseekocr_ollama"@,
        }
    }

    /// The variant whose wire token is `s`, if any.
    pub open spec fn parse_wire(s: Seq<char>) -> Option<Self> {
        if s == "smoldocling"@ {
            Some(VlmModelType::Smoldocling)
        } else if s == "smoldocling_vllm"@ {
            Some(VlmModelType::SmoldoclingVllm)
        } else if s == "granite_vision"@ {
            Some(VlmModelType::GraniteVision)
        } else if s == "granite_vision_vllm"@ {
            Some(VlmModelType::GraniteVisionVllm)
        } else if s == "granite_vision_ollama"@ {
            Some(VlmModelType::GraniteVisionOllama)
        } else if s == "got_ocr_2"@ {
            Some(VlmModelType::GotOcr2)
        } else if s == "granite_docling"@ {
            Some(VlmModelType::GraniteDocling)
        } else if s == "granite_docling_vllm"@ {
            Some(VlmModelType::GraniteDoclingVllm)
        } else if s == "deepseekocr_ollama"@ {
            Some(VlmModelType::DeepsekocrOllama)
        } else {
            None
        }
    }

    /// The wire token of this variant.
    pub fn as_str(&self) -> (r: &'static str)
        ensures
            r@ == self.wire(),
    {
        match self {
            VlmModelType::Smoldocling => "smoldocling",
            VlmModelType::SmoldoclingVllm => "smoldocling_vllm",
            VlmModelType::GraniteVision => "granite_vision",
            VlmModelType::GraniteVisionVllm => "granite_vision_vllm",
            VlmModelType::GraniteVisionOllama => "granite_vision_ollama",
            VlmModelType::GotOcr2 => "got_ocr_2",
            VlmModelType::GraniteDocling => "granite_docling",
            VlmModelType::GraniteDoclingVllm => "granite_docling_vllm",
            VlmModelType::DeepsekocrOllama => "deepseekocr_ollama",
        }
    }

    /// The variant that a wire token names; `None` for any other text.
    pub fn from_wire(s: &str) -> (r: Option<Self>)
        ensures
            r == Self::parse_wire(s@),
    {
        if text_eq(s, "smoldocling") {
            Some(VlmModelType::Smoldocling)
        } else if text_eq(s, "smoldocling_vllm") {
            Some(VlmModelType::SmoldoclingVllm)
        } else if text_eq(s, "granite_vision") {
            Some(VlmModelType::GraniteVision)
        } else if text_eq(s, "granite_vision_vllm") {
            Some(VlmModelType::GraniteVisionVllm)
        } else if text_eq(s, "granite_vision_ollama") {
            Some(VlmModelType::GraniteVisionOllama)
        } else if text_eq(s, "got_ocr_2") {
            Some(VlmModelType::GotOcr2)
        } else if text_eq(s, "granite_docling") {
            Some(VlmModelType::GraniteDocling)
        } else if text_eq(s, "granite_docling_vllm") {
            Some(VlmModelType::GraniteDoclingVllm)
        } else if text_eq(s, "deepseekocr_ollama") {
            Some(VlmModelType::DeepsekocrOllama)
        } else {
            None
        }
    }

    /// Decoding the wire token of a variant gives that variant back.
    pub proof fn lemma_wire_round_trip(v: Self)
        ensures
            Self::parse_wire(v.wire()) == Some(v),
    {
        reveal_strlit("smoldocling");
        reveal_strlit("smoldocling_vllm");
        reveal_strlit("granite_vision");
        reveal_strlit("granite_vision_vllm");
        reveal_strlit("granite_vision_ollama");
        reveal_strlit("got_ocr_2");
        reveal_strlit("granite_docling");
        reveal_strlit("granite_docling_vllm");
        reveal_strlit("deepseekocr_ollama");
        assert("smoldocling"@ =~= seq!['s', 'm', 'o', 'l', 'd', 'o', 'c', 'l', 'i', 'n', 'g']);
        assert("smoldocling_vllm"@ =~= seq!['s', 'm', 'o', 'l', 'd', 'o', 'c', 'l', 'i', 'n', 'g', '_', 'v', 'l', 'l', 'm']);
        assert("granite_vision"@ =~= seq!['g', 'r', 'a', 'n', 'i', 't', 'e', '_', 'v', 'i', 's', 'i', 'o', 'n']);
        assert("granite_vision_vllm"@ =~= seq!['g', 'r', 'a', 'n', 'i', 't', 'e', '_', 'v', 'i', 's', 'i', 'o', 'n', '_', 'v', 'l', 'l', 'm']);
        assert("granite_vision_ollama"@ =~= seq!['g', 'r', 'a', 'n', 'i', 't', 'e', '_', 'v', 'i', 's', 'i', 'o', 'n', '_', 'o', 'l', 'l', 'a', 'm', 'a']);
        assert("got_ocr_2"@ =~= seq!['g', 'o', 't', '_', 'o', 'c', 'r', '_', '2']);
        assert("granite_docling"@ =~= seq!['g', 'r', 'a', 'n', 'i', 't', 'e', '_', 'd', 'o', 'c', 'l', 'i', 'n', 'g']);
        assert("granite_docling_vllm"@ =~= seq!['g', 'r', 'a', 'n', 'i', 't', 'e', '_', 'd', 'o', 'c', 'l', 'i', 'n', 'g', '_', 'v', 'l', 'l', 'm']);
        assert("deepseekocr_ollama"@ =~= seq!['d', 'e', 'e', 'p', 's', 'e', 'e', 'k', 'o', 'c', 'r', '_', 'o', 'l', 'l', 'a', 'm', 'a']);
    }
}

impl WireEnum for VlmModelType {
    open spec fn token(&self) -> Seq<char> {
        self.wire()
    }

    fn token_str(&self) -> (r: &'static str) {
        self.as_str()
    }
}

/// Delivery mode of results, as the single form field of a file upload.
#[derive(Debug, Clone, Copy, PartialEq, Eq, Structural)]
pub enum TargetName {
    Inbody,
    Zip,
}

impl TargetName {
    /// The wire token of each variant.
    pub open spec fn wire(self) -> Seq<char> {
        match self {
            TargetName::Inbody => "inbody"@,
            TargetName::Zip => "zip"@,
        }
    }

    /// The variant whose wire token is `s`, if any.
    pub open spec fn parse_wire(s: Seq<char>) -> Option<Self> {
        if s == "inbody"@ {
            Some(TargetName::Inbody)
        } else if s == "zip"@ {
            Some(TargetName::Zip)
        } else {
            None
        }
    }

    /// The wire token of this variant.
    pub fn as_str(&self) -> (r: &'static str)
        ensures
            r@ == self.wire(),
    {
        match self {
            TargetName::Inbody => "inbody",
            TargetName::Zip => "zip",
        }
    }

    /// The variant that a wire token names; `None` for any other text.
    pub fn from_wire(s: &str) -> (r: Option<Self>)
        ensures
            r == Self::parse_wire(s@),
    {
        if text_eq(s, "inbody") {
            Some(TargetName::Inbody)
        } else if text_eq(s, "zip") {
            Some(TargetName::Zip)
        } else {
            None
        }
    }

    /// Decoding the wire token of a variant gives that variant back.
    pub proof fn lemma_wire_round_trip(v: Self)
        ensures
            Self::parse_wire(v.wire()) == Some(v),
    {
        reveal_strlit("inbody");
        reveal_strlit("zip");
        assert("inbody"@ =~= seq!['i', 'n', 'b', 'o', 'd', 'y']);
        assert("zip"@ =~= seq!['z', 'i', 'p']);
    }
}

impl WireEnum for TargetName {
    open spec fn token(&self) -> Seq<char> {
        self.wire()
    }

    fn token_str(&self) -> (r: &'static str) {
        self.as_str()
    }
}

impl Default for TargetName {
    /// Results come in the response body unless asked otherwise.
    fn default() -> (r: Self)
        ensures
            r == TargetName::Inbody,
    {
        TargetName::Inbody
    }
}

} // verus!
