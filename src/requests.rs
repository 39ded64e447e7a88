//! Conversion requests and their two encodings: a JSON body for conversions
//! from sources, and flat form fields for file uploads.
use vstd::prelude::*;
use vstd::string::StringExecFns;
use crate::enums::{
    ImageRefMode, InputFormat, OcrEngine, OutputFormat, PdfBackend, ProcessingPipeline,
    TableFormerMode, TargetName, VlmModelType, WireEnum,
};
use crate::json::{
    array_text, entry_texts, json_quoted, object_text, plain_quoted, quote_json, string_map_text,
    texts, write_array, write_object, write_plain_quoted, write_string_map,
};
use crate::text::{int_string, int_text};

verus! {

/// `[(key, v)]` for a value that is there, nothing for one that is not.
pub open spec fn json_member(key: Seq<char>, value: Option<Seq<char>>) -> Seq<(Seq<char>, Seq<char>)> {
    match value {
        Some(v) => seq![(key, v)],
        None => Seq::empty(),
    }
}

/// The text of a flag: `true` or `false`.
pub open spec fn bool_text(b: bool) -> Seq<char> {
    if b {
        seq!['t', 'r', 'u', 'e']
    } else {
        seq!['f', 'a', 'l', 's', 'e']
    }
}

/// The text of a string that may be absent.
pub open spec fn opt_text(v: Option<String>) -> Option<Seq<char>> {
    match v {
        Some(s) => Some(s@),
        None => None,
    }
}

/// The text of a flag that may be absent.
pub open spec fn flag_text(v: Option<bool>) -> Option<Seq<char>> {
    match v {
        Some(b) => Some(bool_text(b)),
        None => None,
    }
}

/// The token of an enumeration value that may be absent.
pub open spec fn token_text<T: WireEnum>(v: Option<T>) -> Option<Seq<char>> {
    match v {
        Some(t) => Some(t.token()),
        None => None,
    }
}

/// The JSON string of an enumeration value that may be absent.
pub open spec fn token_json_text<T: WireEnum>(v: Option<T>) -> Option<Seq<char>> {
    match v {
        Some(t) => Some(plain_quoted(t.token())),
        None => None,
    }
}

/// The JSON array of the tokens of a list that may be absent.
pub open spec fn tokens_json_text<T: WireEnum>(v: Option<Vec<T>>) -> Option<Seq<char>> {
    match v {
        Some(l) => Some(array_text(l@.map_values(|e: T| plain_quoted(e.token())))),
        None => None,
    }
}

/// The JSON array of a list of strings that may be absent.
pub open spec fn strings_json_text(v: Option<Vec<String>>) -> Option<Seq<char>> {
    match v {
        Some(l) => Some(array_text(l@.map_values(|e: String| json_quoted(e@)))),
        None => None,
    }
}

/// The JSON array `[start, end]` of a page range that may be absent.
pub open spec fn range_json_text(v: Option<(i64, i64)>) -> Option<Seq<char>> {
    match v {
        Some(r) => Some(array_text(seq![int_text(r.0 as int), int_text(r.1 as int)])),
        None => None,
    }
}

/// The JSON string of a text that may be absent.
pub open spec fn quoted_json_text(v: Option<String>) -> Option<Seq<char>> {
    match v {
        Some(s) => Some(json_quoted(s@)),
        None => None,
    }
}

/// One form field per token of a list, each under `key`.
pub open spec fn tokens_form<T: WireEnum>(key: Seq<char>, v: Option<Vec<T>>) -> Seq<(Seq<char>, Seq<char>)> {
    match v {
        Some(l) => l@.map_values(|e: T| (key, e.token())),
        None => Seq::empty(),
    }
}

/// One form field per string of a list, each under `key`.
pub open spec fn strings_form(key: Seq<char>, v: Option<Vec<String>>) -> Seq<(Seq<char>, Seq<char>)> {
    match v {
        Some(l) => l@.map_values(|e: String| (key, e@)),
        None => Seq::empty(),
    }
}

/// Two form fields under `key` for a page range, the start first.
pub open spec fn range_form(key: Seq<char>, v: Option<(i64, i64)>) -> Seq<(Seq<char>, Seq<char>)> {
    match v {
        Some(r) => seq![(key, int_text(r.0 as int)), (key, int_text(r.1 as int))],
        None => Seq::empty(),
    }
}

/// Writes a flag.
pub fn bool_str(b: bool) -> (r: &'static str)
    ensures
        r@ == bool_text(b),
{
    proof {
        reveal_strlit("true");
        reveal_strlit("false");
    }
    let r = if b { "true" } else { "false" };
    assert(r@ =~= bool_text(b));
    r
}

/// The text of a flag, when it is set.
fn flag_string(v: &Option<bool>) -> (r: Option<String>)
    ensures
        opt_text(r) == flag_text(*v),
{
    match v {
        Some(b) => Some(String::from_str(bool_str(*b))),
        None => None,
    }
}

/// A copy of a text, when it is set.
fn text_copy(v: &Option<String>) -> (r: Option<String>)
    ensures
        opt_text(r) == opt_text(*v),
{
    match v {
        Some(s) => Some(s.clone()),
        None => None,
    }
}

/// The token of an enumeration value, when it is set.
fn token_string<T: WireEnum>(v: &Option<T>) -> (r: Option<String>)
    ensures
        opt_text(r) == token_text(*v),
{
    match v {
        Some(t) => Some(String::from_str(t.token_str())),
        None => None,
    }
}

/// The JSON string of an enumeration value, when it is set.
fn token_json<T: WireEnum>(v: &Option<T>) -> (r: Option<String>)
    ensures
        opt_text(r) == token_json_text(*v),
{
    match v {
        Some(t) => Some(write_plain_quoted(t.token_str())),
        None => None,
    }
}

/// The JSON string of a text, when it is set.
fn quoted_json(v: &Option<String>) -> (r: Option<String>)
    ensures
        opt_text(r) == quoted_json_text(*v),
{
    match v {
        Some(s) => Some(quote_json(s.as_str())),
        None => None,
    }
}

/// The JSON array of the tokens of a list, when it is set.
fn tokens_json<T: WireEnum>(v: &Option<Vec<T>>) -> (r: Option<String>)
    ensures
        opt_text(r) == tokens_json_text(*v),
{
    match v {
        Some(l) => {
            let mut items: Vec<String> = Vec::new();
            let mut i: usize = 0;
            while i < l.len()
                invariant
                    i <= l@.len(),
                    texts(items@) =~= l@.subrange(0, i as int).map_values(|e: T| plain_quoted(e.token())),
                decreases l@.len() - i,
            {
                let q = write_plain_quoted(l[i].token_str());
                let ghost prev = items@;
                items.push(q);
                assert(texts(items@) =~= texts(prev).push(q@));
                assert(l@.subrange(0, i + 1) =~= l@.subrange(0, i as int).push(l@[i as int]));
                i = i + 1;
            }
            assert(l@.subrange(0, l@.len() as int) =~= l@);
            Some(write_array(&items))
        }
        None => None,
    }
}

/// The JSON array of a list of strings, when it is set.
fn strings_json(v: &Option<Vec<String>>) -> (r: Option<String>)
    ensures
        opt_text(r) == strings_json_text(*v),
{
    match v {
        Some(l) => {
            let mut items: Vec<String> = Vec::new();
            let mut i: usize = 0;
            while i < l.len()
                invariant
                    i <= l@.len(),
                    texts(items@) =~= l@.subrange(0, i as int).map_values(|e: String| json_quoted(e@)),
                decreases l@.len() - i,
            {
                let q = quote_json(l[i].as_str());
                let ghost prev = items@;
                items.push(q);
                assert(texts(items@) =~= texts(prev).push(q@));
                assert(l@.subrange(0, i + 1) =~= l@.subrange(0, i as int).push(l@[i as int]));
                i = i + 1;
            }
            assert(l@.subrange(0, l@.len() as int) =~= l@);
            Some(write_array(&items))
        }
        None => None,
    }
}

/// The JSON array of a page range, when it is set.
fn range_json(v: &Option<(i64, i64)>) -> (r: Option<String>)
    ensures
        opt_text(r) == range_json_text(*v),
{
    match v {
        Some(p) => {
            let mut items: Vec<String> = Vec::new();
            items.push(int_string(p.0));
            items.push(int_string(p.1));
            assert(texts(items@) =~= seq![int_text(p.0 as int), int_text(p.1 as int)]);
            Some(write_array(&items))
        }
        None => None,
    }
}

/// Appends `(key, value)` when the value is there.
pub fn push_member(entries: &mut Vec<(String, String)>, key: &str, value: Option<String>)
    ensures
        entry_texts(final(entries)@) == entry_texts(old(entries)@) + json_member(key@, opt_text(value)),
{
    match value {
        Some(v) => {
            entries.push((String::from_str(key), v));
            assert(entry_texts(final(entries)@) =~= entry_texts(old(entries)@) + json_member(key@, opt_text(value)));
        }
        None => {
            assert(entry_texts(old(entries)@) =~= entry_texts(old(entries)@) + json_member(key@, opt_text(value)));
        }
    }
}

/// Appends one field per token of the list, when it is set.
fn push_tokens<T: WireEnum>(fields: &mut Vec<(String, String)>, key: &str, v: &Option<Vec<T>>)
    ensures
        entry_texts(final(fields)@) == entry_texts(old(fields)@) + tokens_form(key@, *v),
{
    match v {
        Some(l) => {
            let mut i: usize = 0;
            while i < l.len()
                invariant
                    i <= l@.len(),
                    entry_texts(fields@) =~= entry_texts(old(fields)@) + l@.subrange(0, i as int).map_values(|e: T| (key@, e.token())),
                decreases l@.len() - i,
            {
                let k = String::from_str(key);
                let x = String::from_str(l[i].token_str());
                let ghost prev = fields@;
                fields.push((k, x));
                assert(entry_texts(fields@) =~= entry_texts(prev).push((k@, x@)));
                assert(l@.subrange(0, i + 1) =~= l@.subrange(0, i as int).push(l@[i as int]));
                i = i + 1;
            }
            assert(l@.subrange(0, l@.len() as int) =~= l@);
        }
        None => {
            assert(entry_texts(old(fields)@) =~= entry_texts(old(fields)@) + tokens_form(key@, *v));
        }
    }
}

/// Appends one field per string of the list, when it is set.
fn push_strings(fields: &mut Vec<(String, String)>, key: &str, v: &Option<Vec<String>>)
    ensures
        entry_texts(final(fields)@) == entry_texts(old(fields)@) + strings_form(key@, *v),
{
    match v {
        Some(l) => {
            let mut i: usize = 0;
            while i < l.len()
                invariant
                    i <= l@.len(),
                    entry_texts(fields@) =~= entry_texts(old(fields)@) + l@.subrange(0, i as int).map_values(|e: String| (key@, e@)),
                decreases l@.len() - i,
            {
                let k = String::from_str(key);
                let x = l[i].clone();
                let ghost prev = fields@;
                fields.push((k, x));
                assert(entry_texts(fields@) =~= entry_texts(prev).push((k@, x@)));
                assert(l@.subrange(0, i + 1) =~= l@.subrange(0, i as int).push(l@[i as int]));
                i = i + 1;
            }
            assert(l@.subrange(0, l@.len() as int) =~= l@);
        }
        None => {
            assert(entry_texts(old(fields)@) =~= entry_texts(old(fields)@) + strings_form(key@, *v));
        }
    }
}

/// Appends the two ends of the page range, when it is set.
fn push_range(fields: &mut Vec<(String, String)>, key: &str, v: &Option<(i64, i64)>)
    ensures
        entry_texts(final(fields)@) == entry_texts(old(fields)@) + range_form(key@, *v),
{
    match v {
        Some(p) => {
            fields.push((String::from_str(key), int_string(p.0)));
            fields.push((String::from_str(key), int_string(p.1)));
            assert(entry_texts(final(fields)@) =~= entry_texts(old(fields)@) + range_form(key@, *v));
        }
        None => {
            assert(entry_texts(old(fields)@) =~= entry_texts(old(fields)@) + range_form(key@, *v));
        }
    }
}

/// Options of a conversion. Every field is optional: an unset field is left
/// out of the request, so that the service applies its own default.
#[derive(Debug, Clone)]
pub struct ConvertDocumentsRequestOptions {
    /// Input formats to convert from.
    pub from_formats: Option<Vec<InputFormat>>,
    /// Output formats to convert to.
    pub to_formats: Option<Vec<OutputFormat>>,
    /// Image export mode.
    pub image_export_mode: Option<ImageRefMode>,
    /// Whether OCR runs.
    pub do_ocr: Option<bool>,
    /// Whether OCR replaces existing text.
    pub force_ocr: Option<bool>,
    /// The OCR engine.
    pub ocr_engine: Option<OcrEngine>,
    /// Languages for the OCR engine.
    pub ocr_lang: Option<Vec<String>>,
    /// The PDF parsing backend.
    pub pdf_backend: Option<PdfBackend>,
    /// Table structure extraction mode.
    pub table_mode: Option<TableFormerMode>,
    /// Whether table cell predictions are matched back to PDF cells.
    pub table_cell_matching: Option<bool>,
    /// The processing pipeline.
    pub pipeline: Option<ProcessingPipeline>,
    /// Pages to convert, `(start, end)`; pages count from 1.
    pub page_range: Option<(i64, i64)>,
    /// Per-document timeout in seconds, as the JSON text of the number.
    pub document_timeout: Option<String>,
    /// Whether conversion stops at the first error.
    pub abort_on_error: Option<bool>,
    /// Whether table structure is extracted.
    pub do_table_structure: Option<bool>,
    /// Whether images are extracted.
    pub include_images: Option<bool>,
    /// Scale factor for images, as the JSON text of the number.
    pub images_scale: Option<String>,
    /// Placeholder put between pages in markdown output.
    pub md_page_break_placeholder: Option<String>,
    /// Whether code enrichment runs.
    pub do_code_enrichment: Option<bool>,
    /// Whether formula enrichment runs.
    pub do_formula_enrichment: Option<bool>,
    /// Whether pictures are classified.
    pub do_picture_classification: Option<bool>,
    /// Whether chart data is extracted.
    pub do_chart_extraction: Option<bool>,
    /// Whether pictures are described.
    pub do_picture_description: Option<bool>,
    /// Least picture area, as a fraction of the page, for picture processing; the JSON text of the number.
    pub picture_description_area_threshold: Option<String>,
    /// Preset of the vision-language model pipeline.
    pub vlm_pipeline_model: Option<VlmModelType>,
    /// Settings of a local model for picture description, as JSON text.
    pub picture_description_local: Option<String>,
    /// Settings of a remote model for picture description, as JSON text.
    pub picture_description_api: Option<String>,
    /// Settings of a local model for the vision-language pipeline, as JSON text.
    pub vlm_pipeline_model_local: Option<String>,
    /// Settings of a remote model for the vision-language pipeline, as JSON text.
    pub vlm_pipeline_model_api: Option<String>,
}

impl Default for ConvertDocumentsRequestOptions {
    /// Options with every field unset.
    fn default() -> (r: Self)
        ensures
            r.set_count() == 0,
    {
        ConvertDocumentsRequestOptions {
            from_formats: None,
            to_formats: None,
            image_export_mode: None,
            do_ocr: None,
            force_ocr: None,
            ocr_engine: None,
            ocr_lang: None,
            pdf_backend: None,
            table_mode: None,
            table_cell_matching: None,
            pipeline: None,
            page_range: None,
            document_timeout: None,
            abort_on_error: None,
            do_table_structure: None,
            include_images: None,
            images_scale: None,
            md_page_break_placeholder: None,
            do_code_enrichment: None,
            do_formula_enrichment: None,
            do_picture_classification: None,
            do_chart_extraction: None,
            do_picture_description: None,
            picture_description_area_threshold: None,
            vlm_pipeline_model: None,
            picture_description_local: None,
            picture_description_api: None,
            vlm_pipeline_model_local: None,
            vlm_pipeline_model_api: None,
        }
    }
}

impl ConvertDocumentsRequestOptions {
    /// The number of fields that are set.
    pub open spec fn set_count(self) -> nat {
        let o = self;
        (if o.from_formats is Some { 1nat } else { 0nat })
            + (if o.to_formats is Some { 1nat } else { 0nat })
            + (if o.image_export_mode is Some { 1nat } else { 0nat })
            + (if o.do_ocr is Some { 1nat } else { 0nat })
            + (if o.force_ocr is Some { 1nat } else { 0nat })
            + (if o.ocr_engine is Some { 1nat } else { 0nat })
            + (if o.ocr_lang is Some { 1nat } else { 0nat })
            + (if o.pdf_backend is Some { 1nat } else { 0nat })
            + (if o.table_mode is Some { 1nat } else { 0nat })
            + (if o.table_cell_matching is Some { 1nat } else { 0nat })
            + (if o.pipeline is Some { 1nat } else { 0nat })
            + (if o.page_range is Some { 1nat } else { 0nat })
            + (if o.document_timeout is Some { 1nat } else { 0nat })
            + (if o.abort_on_error is Some { 1nat } else { 0nat })
            + (if o.do_table_structure is Some { 1nat } else { 0nat })
            + (if o.include_images is Some { 1nat } else { 0nat })
            + (if o.images_scale is Some { 1nat } else { 0nat })
            + (if o.md_page_break_placeholder is Some { 1nat } else { 0nat })
            + (if o.do_code_enrichment is Some { 1nat } else { 0nat })
            + (if o.do_formula_enrichment is Some { 1nat } else { 0nat })
            + (if o.do_picture_classification is Some { 1nat } else { 0nat })
            + (if o.do_chart_extraction is Some { 1nat } else { 0nat })
            + (if o.do_picture_description is Some { 1nat } else { 0nat })
            + (if o.picture_description_area_threshold is Some { 1nat } else { 0nat })
            + (if o.vlm_pipeline_model is Some { 1nat } else { 0nat })
            + (if o.picture_description_local is Some { 1nat } else { 0nat })
            + (if o.picture_description_api is Some { 1nat } else { 0nat })
            + (if o.vlm_pipeline_model_local is Some { 1nat } else { 0nat })
            + (if o.vlm_pipeline_model_api is Some { 1nat } else { 0nat })
    }

    /// Whether `name` is the name of a field that is set.
    pub open spec fn is_set_field(self, name: Seq<char>) -> bool {
        let o = self;
        (name == "from_formats"@ && o.from_formats is Some)
            || (name == "to_formats"@ && o.to_formats is Some)
            || (name == "image_export_mode"@ && o.image_export_mode is Some)
            || (name == "do_ocr"@ && o.do_ocr is Some)
            || (name == "force_ocr"@ && o.force_ocr is Some)
            || (name == "ocr_engine"@ && o.ocr_engine is Some)
            || (name == "ocr_lang"@ && o.ocr_lang is Some)
            || (name == "pdf_backend"@ && o.pdf_backend is Some)
            || (name == "table_mode"@ && o.table_mode is Some)
            || (name == "table_cell_matching"@ && o.table_cell_matching is Some)
            || (name == "pipeline"@ && o.pipeline is Some)
            || (name == "page_range"@ && o.page_range is Some)
            || (name == "document_timeout"@ && o.document_timeout is Some)
            || (name == "abort_on_error"@ && o.abort_on_error is Some)
            || (name == "do_table_structure"@ && o.do_table_structure is Some)
            || (name == "include_images"@ && o.include_images is Some)
            || (name == "images_scale"@ && o.images_scale is Some)
            || (name == "md_page_break_placeholder"@ && o.md_page_break_placeholder is Some)
            || (name == "do_code_enrichment"@ && o.do_code_enrichment is Some)
            || (name == "do_formula_enrichment"@ && o.do_formula_enrichment is Some)
            || (name == "do_picture_classification"@ && o.do_picture_classification is Some)
            || (name == "do_chart_extraction"@ && o.do_chart_extraction is Some)
            || (name == "do_picture_description"@ && o.do_picture_description is Some)
            || (name == "picture_description_area_threshold"@ && o.picture_description_area_threshold is Some)
            || (name == "vlm_pipeline_model"@ && o.vlm_pipeline_model is Some)
            || (name == "picture_description_local"@ && o.picture_description_local is Some)
            || (name == "picture_description_api"@ && o.picture_description_api is Some)
            || (name == "vlm_pipeline_model_local"@ && o.vlm_pipeline_model_local is Some)
            || (name == "vlm_pipeline_model_api"@ && o.vlm_pipeline_model_api is Some)
    }

    /// The members of the JSON object of the options, in field order: one
    /// for each field that is set, none for a field that is not.
    pub open spec fn json_members(self) -> Seq<(Seq<char>, Seq<char>)> {
        let o = self;
        json_member("from_formats"@, tokens_json_text(o.from_formats))
            + json_member("to_formats"@, tokens_json_text(o.to_formats))
            + json_member("image_export_mode"@, token_json_text(o.image_export_mode))
            + json_member("do_ocr"@, flag_text(o.do_ocr))
            + json_member("force_ocr"@, flag_text(o.force_ocr))
            + json_member("ocr_engine"@, token_json_text(o.ocr_engine))
            + json_member("ocr_lang"@, strings_json_text(o.ocr_lang))
            + json_member("pdf_backend"@, token_json_text(o.pdf_backend))
            + json_member("table_mode"@, token_json_text(o.table_mode))
            + json_member("table_cell_matching"@, flag_text(o.table_cell_matching))
            + json_member("pipeline"@, token_json_text(o.pipeline))
            + json_member("page_range"@, range_json_text(o.page_range))
            + json_member("document_timeout"@, opt_text(o.document_timeout))
            + json_member("abort_on_error"@, flag_text(o.abort_on_error))
            + json_member("do_table_structure"@, flag_text(o.do_table_structure))
            + json_member("include_images"@, flag_text(o.include_images))
            + json_member("images_scale"@, opt_text(o.images_scale))
            + json_member("md_page_break_placeholder"@, quoted_json_text(o.md_page_break_placeholder))
            + json_member("do_code_enrichment"@, flag_text(o.do_code_enrichment))
            + json_member("do_formula_enrichment"@, flag_text(o.do_formula_enrichment))
            + json_member("do_picture_classification"@, flag_text(o.do_picture_classification))
            + json_member("do_chart_extraction"@, flag_text(o.do_chart_extraction))
            + json_member("do_picture_description"@, flag_text(o.do_picture_description))
            + json_member("picture_description_area_threshold"@, opt_text(o.picture_description_area_threshold))
            + json_member("vlm_pipeline_model"@, token_json_text(o.vlm_pipeline_model))
            + json_member("picture_description_local"@, opt_text(o.picture_description_local))
            + json_member("picture_description_api"@, opt_text(o.picture_description_api))
            + json_member("vlm_pipeline_model_local"@, opt_text(o.vlm_pipeline_model_local))
            + json_member("vlm_pipeline_model_api"@, opt_text(o.vlm_pipeline_model_api))
    }

    /// The form fields of the options in a file upload: a list gives one
    /// field per element, the page range two, any other set field one.
    pub open spec fn form_fields(self) -> Seq<(Seq<char>, Seq<char>)> {
        let o = self;
        tokens_form("from_formats"@, o.from_formats)
            + tokens_form("to_formats"@, o.to_formats)
            + strings_form("ocr_lang"@, o.ocr_lang)
            + range_form("page_range"@, o.page_range)
            + json_member("image_export_mode"@, token_text(o.image_export_mode))
            + json_member("ocr_engine"@, token_text(o.ocr_engine))
            + json_member("pdf_backend"@, token_text(o.pdf_backend))
            + json_member("table_mode"@, token_text(o.table_mode))
            + json_member("pipeline"@, token_text(o.pipeline))
            + json_member("vlm_pipeline_model"@, token_text(o.vlm_pipeline_model))
            + json_member("do_ocr"@, flag_text(o.do_ocr))
            + json_member("force_ocr"@, flag_text(o.force_ocr))
            + json_member("table_cell_matching"@, flag_text(o.table_cell_matching))
            + json_member("abort_on_error"@, flag_text(o.abort_on_error))
            + json_member("do_table_structure"@, flag_text(o.do_table_structure))
            + json_member("include_images"@, flag_text(o.include_images))
            + json_member("do_code_enrichment"@, flag_text(o.do_code_enrichment))
            + json_member("do_formula_enrichment"@, flag_text(o.do_formula_enrichment))
            + json_member("do_picture_classification"@, flag_text(o.do_picture_classification))
            + json_member("do_chart_extraction"@, flag_text(o.do_chart_extraction))
            + json_member("do_picture_description"@, flag_text(o.do_picture_description))
            + json_member("document_timeout"@, opt_text(o.document_timeout))
            + json_member("images_scale"@, opt_text(o.images_scale))
            + json_member("picture_description_area_threshold"@, opt_text(o.picture_description_area_threshold))
            + json_member("md_page_break_placeholder"@, opt_text(o.md_page_break_placeholder))
            + json_member("picture_description_local"@, opt_text(o.picture_description_local))
            + json_member("picture_description_api"@, opt_text(o.picture_description_api))
            + json_member("vlm_pipeline_model_local"@, opt_text(o.vlm_pipeline_model_local))
            + json_member("vlm_pipeline_model_api"@, opt_text(o.vlm_pipeline_model_api))
    }

    /// The JSON object of the options.
    pub fn to_json(&self) -> (r: String)
        ensures
            r@ == object_text(self.json_members()),
    {
        let mut entries: Vec<(String, String)> = Vec::new();
        push_member(&mut entries, "from_formats", tokens_json(&self.from_formats));
        assert(entry_texts(entries@) =~= json_member("from_formats"@, tokens_json_text(self.from_formats)));
        push_member(&mut entries, "to_formats", tokens_json(&self.to_formats));
        push_member(&mut entries, "image_export_mode", token_json(&self.image_export_mode));
        push_member(&mut entries, "do_ocr", flag_string(&self.do_ocr));
        push_member(&mut entries, "force_ocr", flag_string(&self.force_ocr));
        push_member(&mut entries, "ocr_engine", token_json(&self.ocr_engine));
        push_member(&mut entries, "ocr_lang", strings_json(&self.ocr_lang));
        push_member(&mut entries, "pdf_backend", token_json(&self.pdf_backend));
        push_member(&mut entries, "table_mode", token_json(&self.table_mode));
        push_member(&mut entries, "table_cell_matching", flag_string(&self.table_cell_matching));
        push_member(&mut entries, "pipeline", token_json(&self.pipeline));
        push_member(&mut entries, "page_range", range_json(&self.page_range));
        push_member(&mut entries, "document_timeout", text_copy(&self.document_timeout));
        push_member(&mut entries, "abort_on_error", flag_string(&self.abort_on_error));
        push_member(&mut entries, "do_table_structure", flag_string(&self.do_table_structure));
        push_member(&mut entries, "include_images", flag_string(&self.include_images));
        push_member(&mut entries, "images_scale", text_copy(&self.images_scale));
        push_member(&mut entries, "md_page_break_placeholder", quoted_json(&self.md_page_break_placeholder));
        push_member(&mut entries, "do_code_enrichment", flag_string(&self.do_code_enrichment));
        push_member(&mut entries, "do_formula_enrichment", flag_string(&self.do_formula_enrichment));
        push_member(&mut entries, "do_picture_classification", flag_string(&self.do_picture_classification));
        push_member(&mut entries, "do_chart_extraction", flag_string(&self.do_chart_extraction));
        push_member(&mut entries, "do_picture_description", flag_string(&self.do_picture_description));
        push_member(&mut entries, "picture_description_area_threshold", text_copy(&self.picture_description_area_threshold));
        push_member(&mut entries, "vlm_pipeline_model", token_json(&self.vlm_pipeline_model));
        push_member(&mut entries, "picture_description_local", text_copy(&self.picture_description_local));
        push_member(&mut entries, "picture_description_api", text_copy(&self.picture_description_api));
        push_member(&mut entries, "vlm_pipeline_model_local", text_copy(&self.vlm_pipeline_model_local));
        push_member(&mut entries, "vlm_pipeline_model_api", text_copy(&self.vlm_pipeline_model_api));
        write_object(&entries)
    }

    /// The form fields of the options, in the order of a file upload.
    pub fn to_form_fields(&self) -> (r: Vec<(String, String)>)
        ensures
            entry_texts(r@) == self.form_fields(),
    {
        let mut fields: Vec<(String, String)> = Vec::new();
        push_tokens(&mut fields, "from_formats", &self.from_formats);
        assert(entry_texts(fields@) =~= tokens_form("from_formats"@, self.from_formats));
        push_tokens(&mut fields, "to_formats", &self.to_formats);
        push_strings(&mut fields, "ocr_lang", &self.ocr_lang);
        push_range(&mut fields, "page_range", &self.page_range);
        push_member(&mut fields, "image_export_mode", token_string(&self.image_export_mode));
        push_member(&mut fields, "ocr_engine", token_string(&self.ocr_engine));
        push_member(&mut fields, "pdf_backend", token_string(&self.pdf_backend));
        push_member(&mut fields, "table_mode", token_string(&self.table_mode));
        push_member(&mut fields, "pipeline", token_string(&self.pipeline));
        push_member(&mut fields, "vlm_pipeline_model", token_string(&self.vlm_pipeline_model));
        push_member(&mut fields, "do_ocr", flag_string(&self.do_ocr));
        push_member(&mut fields, "force_ocr", flag_string(&self.force_ocr));
        push_member(&mut fields, "table_cell_matching", flag_string(&self.table_cell_matching));
        push_member(&mut fields, "abort_on_error", flag_string(&self.abort_on_error));
        push_member(&mut fields, "do_table_structure", flag_string(&self.do_table_structure));
        push_member(&mut fields, "include_images", flag_string(&self.include_images));
        push_member(&mut fields, "do_code_enrichment", flag_string(&self.do_code_enrichment));
        push_member(&mut fields, "do_formula_enrichment", flag_string(&self.do_formula_enrichment));
        push_member(&mut fields, "do_picture_classification", flag_string(&self.do_picture_classification));
        push_member(&mut fields, "do_chart_extraction", flag_string(&self.do_chart_extraction));
        push_member(&mut fields, "do_picture_description", flag_string(&self.do_picture_description));
        push_member(&mut fields, "document_timeout", text_copy(&self.document_timeout));
        push_member(&mut fields, "images_scale", text_copy(&self.images_scale));
        push_member(&mut fields, "picture_description_area_threshold", text_copy(&self.picture_description_area_threshold));
        push_member(&mut fields, "md_page_break_placeholder", text_copy(&self.md_page_break_placeholder));
        push_member(&mut fields, "picture_description_local", text_copy(&self.picture_description_local));
        push_member(&mut fields, "picture_description_api", text_copy(&self.picture_description_api));
        push_member(&mut fields, "vlm_pipeline_model_local", text_copy(&self.vlm_pipeline_model_local));
        push_member(&mut fields, "vlm_pipeline_model_api", text_copy(&self.vlm_pipeline_model_api));
        fields
    }
}

/// The text fields of a file upload: the target type first when one is
/// given, then the fields of the options.
pub open spec fn upload_fields(
    options: Option<ConvertDocumentsRequestOptions>,
    target_type: Option<TargetName>,
) -> Seq<(Seq<char>, Seq<char>)> {
    json_member("target_type"@, token_text(target_type)) + match options {
        Some(o) => o.form_fields(),
        None => Seq::empty(),
    }
}

/// The text fields of a file upload, in order.
pub fn upload_form_fields(
    options: Option<&ConvertDocumentsRequestOptions>,
    target_type: Option<TargetName>,
) -> (r: Vec<(String, String)>)
    ensures
        entry_texts(r@) == upload_fields(
            match options {
                Some(o) => Some(*o),
                None => None,
            },
            target_type,
        ),
{
    let mut fields: Vec<(String, String)> = Vec::new();
    push_member(&mut fields, "target_type", token_string(&target_type));
    match options {
        Some(o) => {
            let mut rest = o.to_form_fields();
            let ghost head = fields@;
            let ghost tail = rest@;
            fields.append(&mut rest);
            assert(entry_texts(fields@) =~= entry_texts(head) + entry_texts(tail));
        }
        None => {
            assert(entry_texts(fields@) =~= entry_texts(fields@) + Seq::empty());
        }
    }
    fields
}

/// Encoding options leaves out every field that is not set: options with no
/// field set encode as the empty object `{}`.
pub proof fn lemma_unset_options_encode_empty(o: ConvertDocumentsRequestOptions)
    requires
        o.set_count() == 0,
    ensures
        o.json_members().len() == 0,
        object_text(o.json_members()) == seq!['{', '}'],
{
    assert(o.json_members() =~= Seq::empty());
    assert(o.json_members().map_values(|e: (Seq<char>, Seq<char>)| crate::json::member_text(e)) =~= Seq::<Seq<char>>::empty());
    assert(object_text(o.json_members()) =~= seq!['{', '}']);
}

/// Options with exactly one field set encode as an object with exactly one
/// member, whose key is the name of that field.
pub proof fn lemma_one_set_field_one_member(o: ConvertDocumentsRequestOptions)
    requires
        o.set_count() == 1,
    ensures
        o.json_members().len() == 1,
        o.is_set_field(o.json_members()[0].0),
{
}

/// Where a document to convert comes from.
#[derive(Debug, Clone)]
pub enum Source {
    /// A document that the service fetches from a URL.
    Http {
        /// The URL of the document.
        url: String,
        /// Extra headers for the fetch, as (name, value) pairs.
        headers: Option<Vec<(String, String)>>,
    },
    /// A document sent inline.
    File {
        /// The file's content in base64.
        base64_string: String,
        /// The file's name.
        filename: String,
    },
}

/// The JSON object of a source: the tag `kind` first, then the variant's
/// fields; absent headers are left out.
pub open spec fn source_json_text(s: Source) -> Seq<char> {
    match s {
        Source::Http { url, headers } => object_text(
            seq![
                ("kind"@, plain_quoted("http"@)),
                ("url"@, json_quoted(url@)),
            ] + json_member(
                "headers"@,
                match headers {
                    Some(h) => Some(string_map_text(entry_texts(h@))),
                    None => None,
                },
            ),
        ),
        Source::File { base64_string, filename } => object_text(
            seq![
                ("kind"@, plain_quoted("file"@)),
                ("base64_string"@, json_quoted(base64_string@)),
                ("filename"@, json_quoted(filename@)),
            ],
        ),
    }
}

impl Source {
    /// The JSON object of this source.
    pub fn to_json(&self) -> (r: String)
        ensures
            r@ == source_json_text(*self),
    {
        let mut entries: Vec<(String, String)> = Vec::new();
        match self {
            Source::Http { url, headers } => {
                entries.push((String::from_str("kind"), write_plain_quoted("http")));
                entries.push((String::from_str("url"), quote_json(url.as_str())));
                let h = match headers {
                    Some(h) => Some(write_string_map(h)),
                    None => None,
                };
                push_member(&mut entries, "headers", h);
            }
            Source::File { base64_string, filename } => {
                entries.push((String::from_str("kind"), write_plain_quoted("file")));
                entries.push((String::from_str("base64_string"), quote_json(base64_string.as_str())));
                entries.push((String::from_str("filename"), quote_json(filename.as_str())));
            }
        }
        assert(entry_texts(entries@) =~= match *self {
            Source::Http { url, headers } => seq![
                ("kind"@, plain_quoted("http"@)),
                ("url"@, json_quoted(url@)),
            ] + json_member(
                "headers"@,
                match headers {
                    Some(h) => Some(string_map_text(entry_texts(h@))),
                    None => None,
                },
            ),
            Source::File { base64_string, filename } => seq![
                ("kind"@, plain_quoted("file"@)),
                ("base64_string"@, json_quoted(base64_string@)),
                ("filename"@, json_quoted(filename@)),
            ],
        });
        write_object(&entries)
    }
}

/// Where the results of a conversion are delivered.
#[derive(Debug, Clone, Copy, PartialEq, Eq, Structural)]
pub enum Target {
    /// In the response body.
    InBody,
    /// As a ZIP archive.
    Zip,
}

impl Target {
    /// The tag of each variant.
    pub open spec fn kind(self) -> Seq<char> {
        match self {
            Target::InBody => "inbody"@,
            Target::Zip => "zip"@,
        }
    }

    /// The JSON object of this target: `{"kind":<tag>}`.
    pub fn to_json(&self) -> (r: String)
        ensures
            r@ == object_text(seq![("kind"@, plain_quoted(self.kind()))]),
    {
        let tag = match self {
            Target::InBody => "inbody",
            Target::Zip => "zip",
        };
        let mut entries: Vec<(String, String)> = Vec::new();
        entries.push((String::from_str("kind"), write_plain_quoted(tag)));
        assert(entry_texts(entries@) =~= seq![("kind"@, plain_quoted(self.kind()))]);
        write_object(&entries)
    }
}

impl Default for Target {
    /// Results come in the response body unless asked otherwise.
    fn default() -> (r: Self)
        ensures
            r == Target::InBody,
    {
        Target::InBody
    }
}

/// A conversion request from one or more sources.
#[derive(Debug, Clone)]
pub struct ConvertDocumentsRequest {
    /// The documents to convert.
    pub sources: Vec<Source>,
    /// Conversion options; absent means the service's defaults.
    pub options: Option<ConvertDocumentsRequestOptions>,
    /// Where results go; absent means in the response body.
    pub target: Option<Target>,
}

/// The JSON body of a request: `sources` always, `options` and `target`
/// only when they are set.
pub open spec fn request_json_text(r: ConvertDocumentsRequest) -> Seq<char> {
    object_text(
        seq![("sources"@, array_text(r.sources@.map_values(|s: Source| source_json_text(s))))]
            + json_member(
            "options"@,
            match r.options {
                Some(o) => Some(object_text(o.json_members())),
                None => None,
            },
        ) + json_member(
            "target"@,
            match r.target {
                Some(t) => Some(object_text(seq![("kind"@, plain_quoted(t.kind()))])),
                None => None,
            },
        ),
    )
}

impl ConvertDocumentsRequest {
    /// A request to convert the document at `url`, with the given options
    /// and the default target.
    pub fn from_url(url: &str, options: Option<ConvertDocumentsRequestOptions>) -> (r: Self)
        ensures
            r.sources@.len() == 1,
            r.sources@[0] matches Source::Http { url: u, headers: None } && u@ == url@,
            r.options == options,
            r.target is None,
    {
        let mut sources: Vec<Source> = Vec::new();
        sources.push(Source::Http { url: String::from_str(url), headers: None });
        ConvertDocumentsRequest { sources, options, target: None }
    }

    /// The JSON body of this request.
    pub fn to_json(&self) -> (r: String)
        ensures
            r@ == request_json_text(*self),
    {
        let mut items: Vec<String> = Vec::new();
        let mut i: usize = 0;
        while i < self.sources.len()
            invariant
                i <= self.sources@.len(),
                texts(items@) =~= self.sources@.subrange(0, i as int).map_values(|s: Source| source_json_text(s)),
            decreases self.sources@.len() - i,
        {
            let q = self.sources[i].to_json();
            let ghost prev = items@;
            items.push(q);
            assert(texts(items@) =~= texts(prev).push(q@));
            assert(self.sources@.subrange(0, i + 1) =~= self.sources@.subrange(0, i as int).push(self.sources@[i as int]));
            i = i + 1;
        }
        assert(self.sources@.subrange(0, self.sources@.len() as int) =~= self.sources@);
        let mut entries: Vec<(String, String)> = Vec::new();
        entries.push((String::from_str("sources"), write_array(&items)));
        let o = match &self.options {
            Some(o) => Some(o.to_json()),
            None => None,
        };
        push_member(&mut entries, "options", o);
        let t = match &self.target {
            Some(t) => Some(t.to_json()),
            None => None,
        };
        push_member(&mut entries, "target", t);
        assert(entry_texts(entries@) =~= seq![("sources"@, array_text(self.sources@.map_values(|s: Source| source_json_text(s))))]
            + json_member(
            "options"@,
            match self.options {
                Some(o) => Some(object_text(o.json_members())),
                None => None,
            },
        ) + json_member(
            "target"@,
            match self.target {
                Some(t) => Some(object_text(seq![("kind"@, plain_quoted(t.kind()))])),
                None => None,
            },
        ));
        write_object(&entries)
    }
}

} // verus!
