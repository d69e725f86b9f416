//! The library's error kinds, each with a short description and a full message.
use vstd::prelude::*;
use vstd::string::StringExecFns;
use crate::element::{pad_debug_text, ElementPad, ElementStreamFormat};

verus! {

/// Why an element or a pipeline operation failed.
#[derive(Debug)]
pub enum ErrorKind {
    /// A plain message.
    Msg(String),
    InvalidParameter(String),
    ElementPadNotInput(String, String),
    ElementPadNotOutput(String, String),
    ElementDataSendError(ElementStreamFormat, String),
    ElementDataReceiveError(String),
    ElementPadIncompatibleFormat(String, String),
    ElementNoSuchProperty(String),
    ElementWrongType(String),
    PipelineNotExist(String),
    PipelineNoSink(String),
    PipelinetDataFormatNotSupported(String, ElementPad),
    PipelineNoSource(String),
    PipelineDuplicateConnection(String, String),
    PipelineMoreThanOneSink(String),
    PipelineNoConnections(String),
    PipelineRunError(String),
    PipelineFileFormatCorrupt(String, String),
    UnknownError(String),
    /// Failures of outside components (input/output, JSON, CSV, dates,
    /// Postgres, channels), each held as the text of the failure.
    Io(String),
    Json(String),
    Csv(String),
    DateTimeError(String),
    PostgresError(String),
    ChannelError(String),
}

/// The text a message of an element is named by in error messages.
pub open spec fn stream_text(data: ElementStreamFormat) -> Seq<char> {
    match data {
        ElementStreamFormat::StringMessage(..) => "StringMessage"@,
        ElementStreamFormat::EndDataMessage(..) => "EndDataMessage"@,
    }
}

/// The full message of an error kind.
pub open spec fn error_text(e: ErrorKind) -> Seq<char> {
    match e {
        ErrorKind::Msg(m) => m@,
        ErrorKind::InvalidParameter(m) => "InvalidParameter: '"@ + m@ + "'"@,
        ErrorKind::ElementPadNotInput(e, p) => "Element pad is not an input: '"@ + e@ + " - "@ + p@ + "'"@,
        ErrorKind::ElementPadNotOutput(e, p) => "Element pad is not an output: '"@ + e@ + " - "@ + p@ + "'"@,
        ErrorKind::ElementDataSendError(d, err) => "Element failed to send data: "@ + stream_text(d) + ". Err: "@ + err@,
        ErrorKind::ElementDataReceiveError(err) => "Element failed to receive data: "@ + err@,
        ErrorKind::ElementPadIncompatibleFormat(p1, p2) => "Element pads have incompatible formats: '"@ + p1@ + " - "@ + p2@ + "'"@,
        ErrorKind::ElementNoSuchProperty(p) => "Property "@ + p@ + " does not exist"@,
        ErrorKind::ElementWrongType(m) => "Element wrong type: "@ + m@,
        ErrorKind::PipelineNotExist(n) => "Pipeline "@ + n@ + " does not exist"@,
        ErrorKind::PipelineNoSink(n) => "Pipeline "@ + n@ + " has no sink element"@,
        ErrorKind::PipelinetDataFormatNotSupported(n, pad) => "Element data format is not supported: 'pipeline_name "@ + n@ + " - pad "@ + pad_debug_text(pad) + "'"@,
        ErrorKind::PipelineNoSource(n) => "Pipeline "@ + n@ + " has no source element"@,
        ErrorKind::PipelineDuplicateConnection(n, c) => "Pipeline "@ + n@ + " element and channel "@ + c@ + " already connected"@,
        ErrorKind::PipelineMoreThanOneSink(n) => "Pipeline "@ + n@ + " has more than one sink element"@,
        ErrorKind::PipelineNoConnections(n) => "Pipeline "@ + n@ + " has no connections"@,
        ErrorKind::PipelineRunError(n) => "Pipeline "@ + n@ + " error when running"@,
        ErrorKind::PipelineFileFormatCorrupt(n, f) => "Pipeline: "@ + n@ + " filepath: "@ + f@ + " file format corrupt"@,
        ErrorKind::UnknownError(m) => "Unknown Error: "@ + m@,
        ErrorKind::Io(m) => m@,
        ErrorKind::Json(m) => m@,
        ErrorKind::Csv(m) => m@,
        ErrorKind::DateTimeError(m) => m@,
        ErrorKind::PostgresError(m) => m@,
        ErrorKind::ChannelError(m) => m@,
    }
}

/// `a` followed by `b`, as a new string.
fn cat2(a: &str, b: &str) -> (s: String)
    ensures
        s@ == a@ + b@,
{
    let mut s = a.to_owned();
    s.append(b);
    s
}

/// `a`, `b` and `c` in a row, as a new string.
fn cat3(a: &str, b: &str, c: &str) -> (s: String)
    ensures
        s@ == a@ + b@ + c@,
{
    let mut s = cat2(a, b);
    s.append(c);
    s
}

/// `a` to `e` in a row, as a new string.
fn cat5(a: &str, b: &str, c: &str, d: &str, e: &str) -> (s: String)
    ensures
        s@ == a@ + b@ + c@ + d@ + e@,
{
    let mut s = cat3(a, b, c);
    s.append(d);
    s.append(e);
    s
}

impl ElementStreamFormat {
    /// The name that error messages give this message.
    pub fn describe(&self) -> (s: String)
        ensures
            s@ == stream_text(*self),
    {
        match self {
            ElementStreamFormat::StringMessage(..) => "StringMessage".to_owned(),
            ElementStreamFormat::EndDataMessage(..) => "EndDataMessage".to_owned(),
        }
    }
}

impl ErrorKind {
    /// The short description of the kind.
    pub fn description(&self) -> (d: &str)
        ensures
            d@ == (match *self {
                ErrorKind::Msg(m) => m@,
                ErrorKind::InvalidParameter(..) => "InvalidParameter"@,
                ErrorKind::ElementPadNotInput(..) => "Element pad is not an input"@,
                ErrorKind::ElementPadNotOutput(..) => "Element pad is not an output"@,
                ErrorKind::ElementDataSendError(..) => "Element failed to send data"@,
                ErrorKind::ElementDataReceiveError(..) => "Element failled to receive data"@,
                ErrorKind::ElementPadIncompatibleFormat(..) => "Element pads have incompatible formats"@,
                ErrorKind::ElementNoSuchProperty(..) => "No such property"@,
                ErrorKind::ElementWrongType(..) => "Element wrong type"@,
                ErrorKind::PipelineNotExist(..) => "Pipeline does not exist with that name"@,
                ErrorKind::PipelineNoSink(..) => "Pipeline has no sink element"@,
                ErrorKind::PipelinetDataFormatNotSupported(..) => "Element data format is not support"@,
                ErrorKind::PipelineNoSource(..) => "Pipeline has no source element"@,
                ErrorKind::PipelineDuplicateConnection(..) => "Pipeline element and channel already connected"@,
                ErrorKind::PipelineMoreThanOneSink(..) => "Pipeline has more than one sink element"@,
                ErrorKind::PipelineNoConnections(..) => "Pipeline has no connections"@,
                ErrorKind::PipelineRunError(..) => "Pipeline error when running"@,
                ErrorKind::PipelineFileFormatCorrupt(..) => "Pipeline file format corrupt"@,
                ErrorKind::UnknownError(..) => "Unknown Error"@,
                ErrorKind::Io(m) => m@,
                ErrorKind::Json(m) => m@,
                ErrorKind::Csv(m) => m@,
                ErrorKind::DateTimeError(m) => m@,
                ErrorKind::PostgresError(m) => m@,
                ErrorKind::ChannelError(m) => m@,
            }),
    {
        match self {
            ErrorKind::Msg(m) => m.as_str(),
            ErrorKind::InvalidParameter(..) => "InvalidParameter",
            ErrorKind::ElementPadNotInput(..) => "Element pad is not an input",
            ErrorKind::ElementPadNotOutput(..) => "Element pad is not an output",
            ErrorKind::ElementDataSendError(..) => "Element failed to send data",
            ErrorKind::ElementDataReceiveError(..) => "Element failled to receive data",
            ErrorKind::ElementPadIncompatibleFormat(..) => "Element pads have incompatible formats",
            ErrorKind::ElementNoSuchProperty(..) => "No such property",
            ErrorKind::ElementWrongType(..) => "Element wrong type",
            ErrorKind::PipelineNotExist(..) => "Pipeline does not exist with that name",
            ErrorKind::PipelineNoSink(..) => "Pipeline has no sink element",
            ErrorKind::PipelinetDataFormatNotSupported(..) => "Element data format is not support",
            ErrorKind::PipelineNoSource(..) => "Pipeline has no source element",
            ErrorKind::PipelineDuplicateConnection(..) => "Pipeline element and channel already connected",
            ErrorKind::PipelineMoreThanOneSink(..) => "Pipeline has more than one sink element",
            ErrorKind::PipelineNoConnections(..) => "Pipeline has no connections",
            ErrorKind::PipelineRunError(..) => "Pipeline error when running",
            ErrorKind::PipelineFileFormatCorrupt(..) => "Pipeline file format corrupt",
            ErrorKind::UnknownError(..) => "Unknown Error",
            ErrorKind::Io(m) => m.as_str(),
            ErrorKind::Json(m) => m.as_str(),
            ErrorKind::Csv(m) => m.as_str(),
            ErrorKind::DateTimeError(m) => m.as_str(),
            ErrorKind::PostgresError(m) => m.as_str(),
            ErrorKind::ChannelError(m) => m.as_str(),
        }
    }

    /// The full message of the error.
    pub fn display(&self) -> (s: String)
        ensures
            s@ == error_text(*self),
    {
        match self {
            ErrorKind::Msg(m) => m.clone(),
            ErrorKind::InvalidParameter(m) => cat3("InvalidParameter: '", m.as_str(), "'"),
            ErrorKind::ElementPadNotInput(e, p) => cat5("Element pad is not an input: '", e.as_str(), " - ", p.as_str(), "'"),
            ErrorKind::ElementPadNotOutput(e, p) => cat5("Element pad is not an output: '", e.as_str(), " - ", p.as_str(), "'"),
            ErrorKind::ElementDataSendError(d, err) => {
                let dt = d.describe();
                let mut s = cat3("Element failed to send data: ", dt.as_str(), ". Err: ");
                s.append(err.as_str());
                s
            },
            ErrorKind::ElementDataReceiveError(err) => cat2("Element failed to receive data: ", err.as_str()),
            ErrorKind::ElementPadIncompatibleFormat(p1, p2) => cat5("Element pads have incompatible formats: '", p1.as_str(), " - ", p2.as_str(), "'"),
            ErrorKind::ElementNoSuchProperty(p) => cat3("Property ", p.as_str(), " does not exist"),
            ErrorKind::ElementWrongType(m) => cat2("Element wrong type: ", m.as_str()),
            ErrorKind::PipelineNotExist(n) => cat3("Pipeline ", n.as_str(), " does not exist"),
            ErrorKind::PipelineNoSink(n) => cat3("Pipeline ", n.as_str(), " has no sink element"),
            ErrorKind::PipelinetDataFormatNotSupported(n, pad) => {
                let pt = pad.debug_text();
                cat5("Element data format is not supported: 'pipeline_name ", n.as_str(), " - pad ", pt.as_str(), "'")
            },
            ErrorKind::PipelineNoSource(n) => cat3("Pipeline ", n.as_str(), " has no source element"),
            ErrorKind::PipelineDuplicateConnection(n, c) => cat5("Pipeline ", n.as_str(), " element and channel ", c.as_str(), " already connected"),
            ErrorKind::PipelineMoreThanOneSink(n) => cat3("Pipeline ", n.as_str(), " has more than one sink element"),
            ErrorKind::PipelineNoConnections(n) => cat3("Pipeline ", n.as_str(), " has no connections"),
            ErrorKind::PipelineRunError(n) => cat3("Pipeline ", n.as_str(), " error when running"),
            ErrorKind::PipelineFileFormatCorrupt(n, f) => cat5("Pipeline: ", n.as_str(), " filepath: ", f.as_str(), " file format corrupt"),
            ErrorKind::UnknownError(m) => cat2("Unknown Error: ", m.as_str()),
            ErrorKind::Io(m) => m.clone(),
            ErrorKind::Json(m) => m.clone(),
            ErrorKind::Csv(m) => m.clone(),
            ErrorKind::DateTimeError(m) => m.clone(),
            ErrorKind::PostgresError(m) => m.clone(),
            ErrorKind::ChannelError(m) => m.clone(),
        }
    }
}

} // verus!
