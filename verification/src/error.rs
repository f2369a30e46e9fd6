//! The ways a resolution can end without a usable result.

use vstd::prelude::*;

verus! {

/// A named input of the resolver.
#[derive(Debug, Clone, Copy, PartialEq, Eq, Structural)]
pub enum Signal {
    TargetOs,
    TargetEnv,
    TargetFamily,
    TargetTriple,
    OutputDir,
    NdkRoot,
}

impl Signal {
    /// The key under which the signal is looked up.
    pub open spec fn key(self) -> Seq<char> {
        match self {
            Signal::TargetOs => "CARGO_CFG_TARGET_OS"@,
            Signal::TargetEnv => "CARGO_CFG_TARGET_ENV"@,
            Signal::TargetFamily => "CARGO_CFG_TARGET_FAMILY"@,
            Signal::TargetTriple => "TARGET"@,
            Signal::OutputDir => "OUT_DIR"@,
            Signal::NdkRoot => "ANDROID_NDK"@,
        }
    }

    /// The key under which the signal is looked up.
    pub fn name(self) -> (r: &'static str)
        ensures
            r@ == self.key(),
    {
        match self {
            Signal::TargetOs => "CARGO_CFG_TARGET_OS",
            Signal::TargetEnv => "CARGO_CFG_TARGET_ENV",
            Signal::TargetFamily => "CARGO_CFG_TARGET_FAMILY",
            Signal::TargetTriple => "TARGET",
            Signal::OutputDir => "OUT_DIR",
            Signal::NdkRoot => "ANDROID_NDK",
        }
    }
}

/// A fatal outcome of resolution. Unsupported flags and unrecognised
/// platform values are not errors: the former are dropped, the latter fall
/// through to the conservative default.
#[derive(Debug, Clone, PartialEq, Eq)]
pub enum ResolveError {
    /// A mandatory input is absent.
    MissingRequiredSignal { signal: Signal },
    /// The chunk-size group does not have exactly one member selected.
    InvalidMutualExclusion { selected: u8 },
    /// The compiler driver or generator ended unsuccessfully.
    BackendProcessFailure { diagnostic: String },
}

/// The mathematical content of a `ResolveError`.
pub enum ErrorModel {
    MissingRequiredSignal { signal: Signal },
    InvalidMutualExclusion { selected: u8 },
    BackendProcessFailure { diagnostic: Seq<char> },
}

impl View for ResolveError {
    type V = ErrorModel;

    open spec fn view(&self) -> ErrorModel {
        match self {
            ResolveError::MissingRequiredSignal { signal } => ErrorModel::MissingRequiredSignal {
                signal: *signal,
            },
            ResolveError::InvalidMutualExclusion { selected } => ErrorModel::InvalidMutualExclusion {
                selected: *selected,
            },
            ResolveError::BackendProcessFailure { diagnostic } => ErrorModel::BackendProcessFailure {
                diagnostic: diagnostic@,
            },
        }
    }
}

impl ErrorModel {
    /// The message that states the error to a person.
    pub open spec fn text(self) -> Seq<char> {
        match self {
            ErrorModel::MissingRequiredSignal { signal } => signal.key()
                + " environment variable not set"@,
            ErrorModel::InvalidMutualExclusion { selected } => if selected == 0 {
                "no chunk size selected: exactly one is required"@
            } else {
                "more than one chunk size selected: exactly one is required"@
            },
            ErrorModel::BackendProcessFailure { diagnostic } => "native build failed: "@
                + diagnostic,
        }
    }
}

impl ResolveError {
    /// The message that states the error to a person. A missing signal is
    /// named by its key; a failure of the backend carries its diagnostic.
    pub fn message(&self) -> (r: String)
        ensures
            r@ == self@.text(),
    {
        match self {
            ResolveError::MissingRequiredSignal { signal } => {
                let mut text = String::from_str(signal.name());
                text.append(" environment variable not set");
                text
            },
            ResolveError::InvalidMutualExclusion { selected } => {
                if *selected == 0 {
                    String::from_str("no chunk size selected: exactly one is required")
                } else {
                    String::from_str("more than one chunk size selected: exactly one is required")
                }
            },
            ResolveError::BackendProcessFailure { diagnostic } => {
                let mut text = String::from_str("native build failed: ");
                text.append(diagnostic.as_str());
                text
            },
        }
    }
}

} // verus!
