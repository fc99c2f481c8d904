use vstd::prelude::*;

verus! {

/// The error conditions surfaced by the tensor core.
///
/// Every failing operation reports exactly one of these to its immediate
/// caller; nothing is retried internally.
#[derive(Clone, Copy, PartialEq, Eq, Structural, Debug)]
pub enum CoreError {
    /// A tensor's dimensions disagree with what an operation declared.
    ShapeMismatch,
    /// A batch size of zero was supplied where a positive one is needed.
    InvalidBatchSize,
    /// A backward pass was requested without a forward pass in the same
    /// batch cycle.
    StaleState,
    /// The resource-context stack was empty at the point of use.
    NoActiveBackend,
    /// A backend could not allocate the storage an operation needed.
    ResourceExhausted,
    /// A native or device routine failed; carries its diagnostic code.
    BackendFailure(u32),
}

/// Configuration for a flatten layer.
///
/// Flattening has no hyperparameters of its own: the shapes it works on
/// are derived entirely from the input shape declared at construction.
#[derive(Clone, Copy, Debug)]
pub struct FlattenLayer {}

} // verus!
