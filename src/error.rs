use vstd::prelude::*;

verus! {

/// Failures of the service adapter: model lookup, request assembly, and the
/// remote or local resources it reaches.
#[derive(Debug, Clone, PartialEq, Eq)]
pub enum ServiceError {
    /// The configuration is unusable.
    Config(String),
    /// The transport failed before any response arrived.
    Network(String),
    /// A local read failed.
    Io(String),
    /// The request is not UTF-8, or not a JSON object of the expected shape.
    EncodingError(String),
    /// No model is registered under the guest's key.
    UnknownModel(i32),
    /// A header name or value cannot be sent; carries the header's name.
    Header(String),
    /// The remote end answered with a non-success status.
    RequestFailed { status: u16, message: String },
    /// The configured local file does not exist; carries its path.
    FileNotFound(String),
}

/// Failures of a run, classified.
#[derive(Debug, Clone, PartialEq, Eq)]
pub enum HostError {
    /// A length-prefixed buffer is shorter than its header or its declared length.
    MalformedEnvelope,
    /// A guest-supplied region does not lie inside the guest's memory.
    OutOfBounds,
    /// The guest asked for data into a region too small to hold its envelope.
    InsufficientCapacity,
    /// Guest bytes that should be UTF-8 text are not.
    EncodingError,
    /// The module bytes are not a valid module.
    InvalidModule(String),
    /// An import of the module cannot be resolved.
    LinkError(String),
    /// The module does not export the entry point or its memory.
    ExportNotFound(String),
    /// The guest aborted.
    Trap(String),
    /// A capability's service call failed.
    Service(ServiceError),
}

} // verus!
