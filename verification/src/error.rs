use vstd::prelude::*;

verus! {

/// Error kinds of the engine. Initialization failures (adapter, device,
/// surface) are unrecoverable for an engine instance; per-frame render
/// failures are recoverable (the caller skips the frame); a resource lookup
/// miss during pipeline creation is returned to the caller. Each variant
/// carries a short description of what went wrong.
#[derive(Debug)]
pub enum EngineError {
    AdapterRequest(String),
    DeviceRequest(String),
    SurfaceCreation(String),
    RenderError(String),
    ResourceNotFound(String),
    EventLoopCreation(String),
    EventLoopRun(String),
    SceneNotFound(String),
}

pub type EngineResult<T> = Result<T, EngineError>;

impl EngineError {
    /// The description carried by this error, whichever kind it is.
    pub open spec fn spec_message(&self) -> Seq<char> {
        match self {
            EngineError::AdapterRequest(m) => m@,
            EngineError::DeviceRequest(m) => m@,
            EngineError::SurfaceCreation(m) => m@,
            EngineError::RenderError(m) => m@,
            EngineError::ResourceNotFound(m) => m@,
            EngineError::EventLoopCreation(m) => m@,
            EngineError::EventLoopRun(m) => m@,
            EngineError::SceneNotFound(m) => m@,
        }
    }

    /// The description carried by this error, for reporting.
    pub fn message(&self) -> (r: String)
        ensures
            r@ == self.spec_message(),
    {
        match self {
            EngineError::AdapterRequest(m) => m.clone(),
            EngineError::DeviceRequest(m) => m.clone(),
            EngineError::SurfaceCreation(m) => m.clone(),
            EngineError::RenderError(m) => m.clone(),
            EngineError::ResourceNotFound(m) => m.clone(),
            EngineError::EventLoopCreation(m) => m.clone(),
            EngineError::EventLoopRun(m) => m.clone(),
            EngineError::SceneNotFound(m) => m.clone(),
        }
    }
}

} // verus!
