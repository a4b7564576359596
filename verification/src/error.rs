//! What a script call can fail with.

use crate::text::{decimal, push_decimal};
use vstd::prelude::*;
use vstd::string::StringExecFns;

verus! {

/// The failures of the canvas operations and of the functions a script calls.
#[derive(Debug, PartialEq, Eq)]
pub enum ScriptError {
    /// Layer `index` was asked for and the canvas has only `count` layers.
    /// `current` tells whether it was the active layer of the canvas object
    /// or a layer named in the call.
    OutOfRange { index: usize, count: usize, current: bool },
    /// A character was asked for and the text given was empty.
    InvalidInput,
    /// The file to load a canvas from does not exist.
    NotFound { file: String },
    /// The file to load a canvas from could not be read as a canvas.
    LoadFailed { file: String },
    /// A frame was to be captured and the animation is full.
    FrameLimitExceeded,
    /// A canvas object was expected and `found` was given.
    TypeMismatch { found: String },
}

impl Clone for ScriptError {
    fn clone(&self) -> (copy: ScriptError)
        ensures
            copy == *self,
    {
        match self {
            ScriptError::OutOfRange { index, count, current } => ScriptError::OutOfRange {
                index: *index,
                count: *count,
                current: *current,
            },
            ScriptError::InvalidInput => ScriptError::InvalidInput,
            ScriptError::NotFound { file } => ScriptError::NotFound { file: file.clone() },
            ScriptError::LoadFailed { file } => ScriptError::LoadFailed { file: file.clone() },
            ScriptError::FrameLimitExceeded => ScriptError::FrameLimitExceeded,
            ScriptError::TypeMismatch { found } => ScriptError::TypeMismatch {
                found: found.clone(),
            },
        }
    }
}

impl ScriptError {
    /// The text of the error.
    pub open spec fn message_text(self) -> Seq<char> {
        match self {
            ScriptError::OutOfRange { index, count, current } => (if current {
                "Current layer "@
            } else {
                "Layer "@
            }) + decimal(index as nat) + " out of range (0..<"@ + decimal(count as nat) + ")"@,
            ScriptError::InvalidInput => "Empty string"@,
            ScriptError::NotFound { file } => "File not found "@ + file@,
            ScriptError::LoadFailed { file } => "Could not load file "@ + file@,
            ScriptError::FrameLimitExceeded => "Maximum number of frames reached"@,
            ScriptError::TypeMismatch { found } => "UserData parameter required, got: "@ + found@,
        }
    }

    /// True for the errors that a wrong call brings about, as opposed to
    /// those that come up while a right call runs.
    pub open spec fn is_call_error(self) -> bool {
        self is OutOfRange || self is InvalidInput
    }

    /// The text of the error, naming the offending index and the valid range
    /// where there is one.
    pub fn message(&self) -> (text: String)
        ensures
            text@ == self.message_text(),
    {
        match self {
            ScriptError::OutOfRange { index, count, current } => {
                let mut text = if *current {
                    String::from_str("Current layer ")
                } else {
                    String::from_str("Layer ")
                };
                push_decimal(&mut text, *index);
                text.append(" out of range (0..<");
                push_decimal(&mut text, *count);
                text.append(")");
                text
            },
            ScriptError::InvalidInput => String::from_str("Empty string"),
            ScriptError::NotFound { file } => {
                let mut text = String::from_str("File not found ");
                text.append(file.as_str());
                text
            },
            ScriptError::LoadFailed { file } => {
                let mut text = String::from_str("Could not load file ");
                text.append(file.as_str());
                text
            },
            ScriptError::FrameLimitExceeded => String::from_str("Maximum number of frames reached"),
            ScriptError::TypeMismatch { found } => {
                let mut text = String::from_str("UserData parameter required, got: ");
                text.append(found.as_str());
                text
            },
        }
    }

    /// Tells a wrong call from a failure while running.
    pub fn is_syntax_error(&self) -> (yes: bool)
        ensures
            yes == self.is_call_error(),
    {
        match self {
            ScriptError::OutOfRange { .. } => true,
            ScriptError::InvalidInput => true,
            _ => false,
        }
    }
}

} // verus!
