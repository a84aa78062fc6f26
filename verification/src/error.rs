//! The error types of the library.
//!
//! Every fallible operation returns one of the specific error enums below; [`PdError`] is the
//! umbrella type that the high level [`Pd`](crate::Pd) methods return, and each specific error
//! converts into it through `From`.

use vstd::prelude::*;
use vstd::std_specs::convert::FromSpecImpl;

verus! {

/// The umbrella error type for the library.
#[derive(Debug, Clone, PartialEq, Eq)]
pub enum PdError {
    /// An error occurred during initialization.
    InitializationError(InitializationError),
    /// An error occurred during audio initialization.
    AudioInitializationError(AudioInitializationError),
    /// An error occurred during patch lifecycle.
    PatchLifeCycleError(PatchLifeCycleError),
    /// An error occurred during gui lifecycle.
    GuiLifeCycleError(GuiLifeCycleError),
    /// An error occurred during general filesystem access.
    IoError(IoError),
    /// An error occurred during sending messages to a pd patch.
    SendError(SendError),
    /// An error occurred during subscription to senders in a pd patch.
    SubscriptionError(SubscriptionError),
    /// An error occurred related to sizes of entities.
    SizeError(SizeError),
    /// An error occurred related to pd arrays.
    ArrayError(ArrayError),
    /// An error occurred related to pd instances.
    InstanceError(InstanceError),
    /// An error occurred related to string conversion (`CString` or `CStr`).
    StringConversionError(StringConversionError),
}

/// Errors related to initialization.
#[derive(Debug, Clone, PartialEq, Eq)]
pub enum InitializationError {
    /// Error in initializing ring buffers.
    RingBufferInitializationError,
    /// A failure happened in pd initialization with an unknown reason.
    InitializationFailed,
}

/// Errors related to audio initialization.
#[derive(Debug, Clone, PartialEq, Eq)]
pub enum AudioInitializationError {
    /// A failure happened in pd audio initialization with an unknown reason.
    InitializationFailed,
}

/// Errors related to a lifecycle of a pd patch.
#[derive(Debug, Clone, PartialEq, Eq)]
pub enum PatchLifeCycleError {
    /// Failed to open patch for unknown reason.
    FailedToOpenPatch,
    /// Failed to close patch, because the handle which was provided is null.
    FailedToClosePatch,
    /// The string which is passed could not be evaluated as a patch.
    FailedToEvaluateAsPatch { content: String, msg: String },
    /// The patch which is trying to be communicated with is not open.
    PatchIsNotOpen,
    /// The path to the patch which is being opened does not exist.
    PathDoesNotExist(String),
    /// A `CString` or `CStr` conversion error.
    StringConversion(StringConversionError),
}

/// Errors related to a lifecycle of a pd gui.
#[derive(Debug, Clone, PartialEq, Eq)]
pub enum GuiLifeCycleError {
    /// Failed to open gui, most probably because the path to the pd binary is invalid.
    FailedToOpenGui,
    /// A `CString` or `CStr` conversion error.
    StringConversion(StringConversionError),
}

/// Errors related to general filesystem access.
#[derive(Debug, Clone, PartialEq, Eq)]
pub enum IoError {
    /// The path which is provided does not exist in the file system.
    PathDoesNotExist(String),
    /// A `CString` or `CStr` conversion error.
    StringConversion(StringConversionError),
}

/// Errors related to sending messages to a pd patch.
#[derive(Debug, Clone, PartialEq, Eq)]
pub enum SendError {
    /// The pd patch does not contain a receiver with the name provided.
    MissingDestination(String),
    /// The values which are being sent to the receiver are out of range.
    OutOfRange,
    /// A `CString` or `CStr` conversion error.
    StringConversion(StringConversionError),
}

/// Errors related to subscription to senders in a pd patch.
#[derive(Debug, Clone, PartialEq, Eq)]
pub enum SubscriptionError {
    /// A failure of subscription to a sender with an unknown reason.
    FailedToSubscribeToSender(String),
    /// A `CString` or `CStr` conversion error.
    StringConversion(StringConversionError),
}

/// Errors related to sizes of entities.
#[derive(Debug, Clone, PartialEq, Eq)]
pub enum SizeError {
    /// The size of the entity is too large.
    TooLarge,
    /// Could not determine the size of the entity.
    CouldNotDetermine,
    /// A `CString` or `CStr` conversion error.
    StringConversion(StringConversionError),
}

/// Errors related to pd arrays.
#[derive(Debug, Clone, PartialEq, Eq)]
pub enum ArrayError {
    /// The array which is being accessed doesn't exist.
    FailedToFindArray,
    /// The position in the array which is accessed is out of bounds.
    OutOfBounds,
    /// A `CString` or `CStr` conversion error.
    StringConversion(StringConversionError),
}

/// Errors related to pd instances.
#[derive(Debug, Clone, PartialEq, Eq)]
pub enum InstanceError {
    /// The instance which is being created already exists.
    InstanceAlreadyExists(String),
    /// The instance which is being accessed does not exist.
    InstanceDoesNotExist(String),
    /// The instance failed to create.
    InstanceFailedToCreate(String),
    /// An operation needs a current instance but none is set.
    NoCurrentInstanceSet,
}

/// Errors related to string conversion (`CString` or `CStr`).
#[derive(Debug, Clone, PartialEq, Eq)]
pub enum StringConversionError {
    /// An interior null byte was found while converting to a C string:
    /// its position and the bytes of the original string.
    NullTerminatedString(usize, Vec<u8>),
}

} // verus!

verus! {
/// Wraps a [`InitializationError`] into the umbrella [`PdError`].
impl From<InitializationError> for PdError {
    fn from(err: InitializationError) -> (r: Self) {
        PdError::InitializationError(err)
    }
}

impl FromSpecImpl<InitializationError> for PdError {
    open spec fn obeys_from_spec() -> bool {
        true
    }

    open spec fn from_spec(err: InitializationError) -> Self {
        PdError::InitializationError(err)
    }
}
/// Wraps a [`AudioInitializationError`] into the umbrella [`PdError`].
impl From<AudioInitializationError> for PdError {
    fn from(err: AudioInitializationError) -> (r: Self) {
        PdError::AudioInitializationError(err)
    }
}

impl FromSpecImpl<AudioInitializationError> for PdError {
    open spec fn obeys_from_spec() -> bool {
        true
    }

    open spec fn from_spec(err: AudioInitializationError) -> Self {
        PdError::AudioInitializationError(err)
    }
}
/// Wraps a [`PatchLifeCycleError`] into the umbrella [`PdError`].
impl From<PatchLifeCycleError> for PdError {
    fn from(err: PatchLifeCycleError) -> (r: Self) {
        PdError::PatchLifeCycleError(err)
    }
}

impl FromSpecImpl<PatchLifeCycleError> for PdError {
    open spec fn obeys_from_spec() -> bool {
        true
    }

    open spec fn from_spec(err: PatchLifeCycleError) -> Self {
        PdError::PatchLifeCycleError(err)
    }
}
/// Wraps a [`GuiLifeCycleError`] into the umbrella [`PdError`].
impl From<GuiLifeCycleError> for PdError {
    fn from(err: GuiLifeCycleError) -> (r: Self) {
        PdError::GuiLifeCycleError(err)
    }
}

impl FromSpecImpl<GuiLifeCycleError> for PdError {
    open spec fn obeys_from_spec() -> bool {
        true
    }

    open spec fn from_spec(err: GuiLifeCycleError) -> Self {
        PdError::GuiLifeCycleError(err)
    }
}
/// Wraps a [`IoError`] into the umbrella [`PdError`].
impl From<IoError> for PdError {
    fn from(err: IoError) -> (r: Self) {
        PdError::IoError(err)
    }
}

impl FromSpecImpl<IoError> for PdError {
    open spec fn obeys_from_spec() -> bool {
        true
    }

    open spec fn from_spec(err: IoError) -> Self {
        PdError::IoError(err)
    }
}
/// Wraps a [`SendError`] into the umbrella [`PdError`].
impl From<SendError> for PdError {
    fn from(err: SendError) -> (r: Self) {
        PdError::SendError(err)
    }
}

impl FromSpecImpl<SendError> for PdError {
    open spec fn obeys_from_spec() -> bool {
        true
    }

    open spec fn from_spec(err: SendError) -> Self {
        PdError::SendError(err)
    }
}
/// Wraps a [`SubscriptionError`] into the umbrella [`PdError`].
impl From<SubscriptionError> for PdError {
    fn from(err: SubscriptionError) -> (r: Self) {
        PdError::SubscriptionError(err)
    }
}

impl FromSpecImpl<SubscriptionError> for PdError {
    open spec fn obeys_from_spec() -> bool {
        true
    }

    open spec fn from_spec(err: SubscriptionError) -> Self {
        PdError::SubscriptionError(err)
    }
}
/// Wraps a [`SizeError`] into the umbrella [`PdError`].
impl From<SizeError> for PdError {
    fn from(err: SizeError) -> (r: Self) {
        PdError::SizeError(err)
    }
}

impl FromSpecImpl<SizeError> for PdError {
    open spec fn obeys_from_spec() -> bool {
        true
    }

    open spec fn from_spec(err: SizeError) -> Self {
        PdError::SizeError(err)
    }
}
/// Wraps a [`ArrayError`] into the umbrella [`PdError`].
impl From<ArrayError> for PdError {
    fn from(err: ArrayError) -> (r: Self) {
        PdError::ArrayError(err)
    }
}

impl FromSpecImpl<ArrayError> for PdError {
    open spec fn obeys_from_spec() -> bool {
        true
    }

    open spec fn from_spec(err: ArrayError) -> Self {
        PdError::ArrayError(err)
    }
}
/// Wraps a [`InstanceError`] into the umbrella [`PdError`].
impl From<InstanceError> for PdError {
    fn from(err: InstanceError) -> (r: Self) {
        PdError::InstanceError(err)
    }
}

impl FromSpecImpl<InstanceError> for PdError {
    open spec fn obeys_from_spec() -> bool {
        true
    }

    open spec fn from_spec(err: InstanceError) -> Self {
        PdError::InstanceError(err)
    }
}
/// Wraps a [`StringConversionError`] into the umbrella [`PdError`].
impl From<StringConversionError> for PdError {
    fn from(err: StringConversionError) -> (r: Self) {
        PdError::StringConversionError(err)
    }
}

impl FromSpecImpl<StringConversionError> for PdError {
    open spec fn obeys_from_spec() -> bool {
        true
    }

    open spec fn from_spec(err: StringConversionError) -> Self {
        PdError::StringConversionError(err)
    }
}
/// A string conversion failure seen as a [`PatchLifeCycleError`].
impl From<StringConversionError> for PatchLifeCycleError {
    fn from(err: StringConversionError) -> (r: Self) {
        PatchLifeCycleError::StringConversion(err)
    }
}

impl FromSpecImpl<StringConversionError> for PatchLifeCycleError {
    open spec fn obeys_from_spec() -> bool {
        true
    }

    open spec fn from_spec(err: StringConversionError) -> Self {
        PatchLifeCycleError::StringConversion(err)
    }
}
/// A string conversion failure seen as a [`GuiLifeCycleError`].
impl From<StringConversionError> for GuiLifeCycleError {
    fn from(err: StringConversionError) -> (r: Self) {
        GuiLifeCycleError::StringConversion(err)
    }
}

impl FromSpecImpl<StringConversionError> for GuiLifeCycleError {
    open spec fn obeys_from_spec() -> bool {
        true
    }

    open spec fn from_spec(err: StringConversionError) -> Self {
        GuiLifeCycleError::StringConversion(err)
    }
}
/// A string conversion failure seen as a [`IoError`].
impl From<StringConversionError> for IoError {
    fn from(err: StringConversionError) -> (r: Self) {
        IoError::StringConversion(err)
    }
}

impl FromSpecImpl<StringConversionError> for IoError {
    open spec fn obeys_from_spec() -> bool {
        true
    }

    open spec fn from_spec(err: StringConversionError) -> Self {
        IoError::StringConversion(err)
    }
}
/// A string conversion failure seen as a [`SendError`].
impl From<StringConversionError> for SendError {
    fn from(err: StringConversionError) -> (r: Self) {
        SendError::StringConversion(err)
    }
}

impl FromSpecImpl<StringConversionError> for SendError {
    open spec fn obeys_from_spec() -> bool {
        true
    }

    open spec fn from_spec(err: StringConversionError) -> Self {
        SendError::StringConversion(err)
    }
}
/// A string conversion failure seen as a [`SubscriptionError`].
impl From<StringConversionError> for SubscriptionError {
    fn from(err: StringConversionError) -> (r: Self) {
        SubscriptionError::StringConversion(err)
    }
}

impl FromSpecImpl<StringConversionError> for SubscriptionError {
    open spec fn obeys_from_spec() -> bool {
        true
    }

    open spec fn from_spec(err: StringConversionError) -> Self {
        SubscriptionError::StringConversion(err)
    }
}
/// A string conversion failure seen as a [`SizeError`].
impl From<StringConversionError> for SizeError {
    fn from(err: StringConversionError) -> (r: Self) {
        SizeError::StringConversion(err)
    }
}

impl FromSpecImpl<StringConversionError> for SizeError {
    open spec fn obeys_from_spec() -> bool {
        true
    }

    open spec fn from_spec(err: StringConversionError) -> Self {
        SizeError::StringConversion(err)
    }
}
/// A string conversion failure seen as a [`ArrayError`].
impl From<StringConversionError> for ArrayError {
    fn from(err: StringConversionError) -> (r: Self) {
        ArrayError::StringConversion(err)
    }
}

impl FromSpecImpl<StringConversionError> for ArrayError {
    open spec fn obeys_from_spec() -> bool {
        true
    }

    open spec fn from_spec(err: StringConversionError) -> Self {
        ArrayError::StringConversion(err)
    }
}
/// The message of an initialization error.
pub open spec fn initialization_message(err: InitializationError) -> Seq<char> {
    match err {
        InitializationError::RingBufferInitializationError => {
            "Failed to initialize ring buffers which are needed for the message queue."@
        },
        InitializationError::InitializationFailed => {
            "An unknown error occurred in Pure Data initialization."@
        },
    }
}

impl InitializationError {
    /// The message that describes the error.
    pub fn message(&self) -> (r: String)
        ensures
            r@ == initialization_message(*self),
    {
        match self {
            InitializationError::RingBufferInitializationError => {
                "Failed to initialize ring buffers which are needed for the message queue.".to_owned()
            },
            InitializationError::InitializationFailed => {
                "An unknown error occurred in Pure Data initialization.".to_owned()
            },
        }
    }
}

/// A result of the search paths, as the umbrella error type.
pub open spec fn io_result(r: Result<(), IoError>) -> Result<(), PdError> {
    match r {
        Ok(()) => Ok(()),
        Err(e) => Err(PdError::IoError(e)),
    }
}

/// A result of the patch lifecycle, as the umbrella error type.
pub open spec fn patch_result(r: Result<(), PatchLifeCycleError>) -> Result<(), PdError> {
    match r {
        Ok(()) => Ok(()),
        Err(e) => Err(PdError::PatchLifeCycleError(e)),
    }
}

/// A result of subscribing, as the umbrella error type.
pub open spec fn subscription_result(r: Result<(), SubscriptionError>) -> Result<(), PdError> {
    match r {
        Ok(()) => Ok(()),
        Err(e) => Err(PdError::SubscriptionError(e)),
    }
}

} // verus!
