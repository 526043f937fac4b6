use vstd::prelude::*;
use vstd::string::StringExecFns;

verus! {

/// Why an update produced no command.
#[derive(Debug, PartialEq)]
pub enum UpdateError {
    /// The `actor_channel_selected` argument is absent or not text.
    MissingArgument,
    /// The channel's calibration topic could not be read.
    StorageRead,
    /// The calibration topic holds `content`, which did not parse; `detail` says why.
    CalibrationParse { content: String, detail: String },
    /// Neither a usable `raw_value` nor a usable `voltage_value` was given.
    InvalidValueParameters,
    /// The calibration names a channel outside `A` to `H`.
    InvalidChannelIndex,
    /// An event arrived that the update was not waiting for.
    UnexpectedEvent,
}

pub open spec fn missing_argument_text() -> Seq<char> {
    "Error - There is problem in your 'actor_channel_selected', you probably forgot it."@
}

pub open spec fn storage_read_text() -> Seq<char> {
    "Error - Failed to read the file."@
}

pub open spec fn calibration_parse_prefix() -> Seq<char> {
    "Error : Failed to load channel specs.\n"@
}

pub open spec fn invalid_value_text() -> Seq<char> {
    "Error - There is problem in your value linked function parameters."@
}

pub open spec fn invalid_channel_text() -> Seq<char> {
    "Error - Invalid board channel index. Valid is [A-H]."@
}

pub open spec fn unexpected_event_text() -> Seq<char> {
    "Error - The update received an event out of order."@
}

/// The message shown to the user for `e`.
pub open spec fn message_of(e: UpdateError) -> Seq<char> {
    match e {
        UpdateError::MissingArgument => missing_argument_text(),
        UpdateError::StorageRead => storage_read_text(),
        UpdateError::CalibrationParse { content, detail } =>
            calibration_parse_prefix() + content@ + "\n"@ + detail@,
        UpdateError::InvalidValueParameters => invalid_value_text(),
        UpdateError::InvalidChannelIndex => invalid_channel_text(),
        UpdateError::UnexpectedEvent => unexpected_event_text(),
    }
}

impl UpdateError {
    /// The message shown to the user for this error.
    pub fn message(&self) -> (r: String)
        ensures
            r@ == message_of(*self),
    {
        match self {
            UpdateError::MissingArgument => String::from_str(
                "Error - There is problem in your 'actor_channel_selected', you probably forgot it.",
            ),
            UpdateError::StorageRead => String::from_str("Error - Failed to read the file."),
            UpdateError::CalibrationParse { content, detail } => {
                let r = String::from_str("Error : Failed to load channel specs.\n");
                let r = r.concat(content.as_str());
                let r = r.concat("\n");
                r.concat(detail.as_str())
            },
            UpdateError::InvalidValueParameters => String::from_str(
                "Error - There is problem in your value linked function parameters.",
            ),
            UpdateError::InvalidChannelIndex => String::from_str(
                "Error - Invalid board channel index. Valid is [A-H].",
            ),
            UpdateError::UnexpectedEvent => String::from_str(
                "Error - The update received an event out of order.",
            ),
        }
    }
}

} // verus!
