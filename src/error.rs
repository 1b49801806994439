use vstd::prelude::*;

verus! {

/// Why an import library cannot be generated.
#[derive(Debug, Clone, PartialEq, Eq)]
pub enum GenerationError {
    /// The target environment ABI is neither `gnu` nor `msvc`.
    UnsupportedTargetEnv { env: String },
    /// No MinGW-w64 `dlltool` is known for the target architecture.
    UnsupportedTargetArch { arch: String },
    /// No definition file exists for the requested Python version.
    UnsupportedVersion,
    /// The requested Python version has no build with these ABI flags.
    UnsupportedAbiFlags,
}

/// What a `GenerationError` says, as plain sequences.
pub enum ErrorModel {
    UnsupportedTargetEnv { env: Seq<char> },
    UnsupportedTargetArch { arch: Seq<char> },
    UnsupportedVersion,
    UnsupportedAbiFlags,
}

impl View for GenerationError {
    type V = ErrorModel;

    open spec fn view(&self) -> ErrorModel {
        match self {
            GenerationError::UnsupportedTargetEnv { env } => ErrorModel::UnsupportedTargetEnv {
                env: env@,
            },
            GenerationError::UnsupportedTargetArch { arch } => ErrorModel::UnsupportedTargetArch {
                arch: arch@,
            },
            GenerationError::UnsupportedVersion => ErrorModel::UnsupportedVersion,
            GenerationError::UnsupportedAbiFlags => ErrorModel::UnsupportedAbiFlags,
        }
    }
}

} // verus!
