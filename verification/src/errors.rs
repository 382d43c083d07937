use vstd::prelude::*;

verus! {

/// Why construction or linking of a stage graph failed.
#[derive(Clone, Copy, Debug, PartialEq, Eq, Structural)]
pub enum BuildError {
    /// No stage implementation registers the requested kind-name.
    UnknownStageKind,
    /// Another stage in the graph already carries the requested instance-name.
    DuplicateName,
    /// The stage does not recognize the property, or the value's type does
    /// not match the declared property type.
    InvalidProperty,
    /// The upstream output capability and the downstream input capability
    /// have no common negotiated format.
    IncompatibleFormats,
    /// One of the two ports is already connected.
    AlreadyLinked,
}

/// Why a controller operation failed.
#[derive(Clone, Copy, Debug, PartialEq, Eq, Structural)]
pub enum ControlError {
    /// The graph is not a single complete chain from source to sink.
    LinkageIncomplete,
    /// The status-channel watch could not be registered.
    WatchFailed,
}

/// The text that `BuildError::describe` returns for each variant.
pub open spec fn build_error_text(e: BuildError) -> Seq<char> {
    match e {
        BuildError::UnknownStageKind => "unknown stage kind"@,
        BuildError::DuplicateName => "instance name already in use"@,
        BuildError::InvalidProperty => "invalid property"@,
        BuildError::IncompatibleFormats => "incompatible formats"@,
        BuildError::AlreadyLinked => "port already linked"@,
    }
}

/// The text that `ControlError::describe` returns for each variant.
pub open spec fn control_error_text(e: ControlError) -> Seq<char> {
    match e {
        ControlError::LinkageIncomplete => "pipeline linkage incomplete"@,
        ControlError::WatchFailed => "status watch registration failed"@,
    }
}

impl BuildError {
    /// A short human-readable description of the failure.
    pub fn describe(&self) -> (r: &'static str)
        ensures
            r@ == build_error_text(*self),
    {
        match self {
            BuildError::UnknownStageKind => "unknown stage kind",
            BuildError::DuplicateName => "instance name already in use",
            BuildError::InvalidProperty => "invalid property",
            BuildError::IncompatibleFormats => "incompatible formats",
            BuildError::AlreadyLinked => "port already linked",
        }
    }
}

impl ControlError {
    /// A short human-readable description of the failure.
    pub fn describe(&self) -> (r: &'static str)
        ensures
            r@ == control_error_text(*self),
    {
        match self {
            ControlError::LinkageIncomplete => "pipeline linkage incomplete",
            ControlError::WatchFailed => "status watch registration failed",
        }
    }
}

} // verus!
