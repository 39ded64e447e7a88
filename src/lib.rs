//! Typed client library for a remote document-conversion service.
//!
//! The modules hold the verified core of the client: the wire tokens of the
//! service's enumerations, the request model and its JSON and multipart
//! encodings, the transport rules (URL joining, authorization, response
//! classification) and the state machine that drives an asynchronous task.
use vstd::prelude::*;

pub mod client;
pub mod enums;
pub mod error;
pub mod json;
pub mod requests;
pub mod responses;
pub mod task;
pub mod text;

pub use client::{DoclingClient, Endpoint, HttpRequest, Method};
pub use enums::{
    ConversionStatus, DoclingComponentType, ImageRefMode, InputFormat, OcrEngine, OutputFormat,
    PdfBackend, ProcessingPipeline, ProfilingScope, TableFormerMode, TargetName, TaskType,
    VlmModelType,
};
pub use error::DoclingError;
pub use requests::{ConvertDocumentsRequest, ConvertDocumentsRequestOptions, Source, Target};
pub use responses::{
    ErrorItem, HealthCheckResponse, TaskProcessingMeta, TaskStatusResponse,
};
pub use task::{PollAction, PollEvent, PollPhase, TaskPoller};

verus! {

} // verus!
