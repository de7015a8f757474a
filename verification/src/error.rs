//! The failures that the library reports.

use crate::text::{decimal_digits, write_decimal};
use vstd::prelude::*;

verus! {

/// Why the configuration flow stopped.
#[derive(Clone, Debug, PartialEq, Eq)]
pub enum NotionError {
    /// The request never got an answer: connectivity, name resolution or
    /// transport security failed. Carries the cause as the transport gave it.
    Transport(String),
    /// The service answered with a status outside the success range.
    RemoteRejected { status: u16, body: String },
    /// The service answered, but what it sent breaks the schema: no list of
    /// databases, a database without a title, or no usable title property.
    MalformedSchema,
    /// The configuration store could not keep the record.
    ConfigStore(String),
}

/// Mathematical model of a [`NotionError`].
pub enum ErrorModel {
    Transport(Seq<char>),
    RemoteRejected { status: u16, body: Seq<char> },
    MalformedSchema,
    ConfigStore(Seq<char>),
}

impl View for NotionError {
    type V = ErrorModel;

    open spec fn view(&self) -> ErrorModel {
        match self {
            NotionError::Transport(cause) => ErrorModel::Transport(cause@),
            NotionError::RemoteRejected { status, body } => ErrorModel::RemoteRejected {
                status: *status,
                body: body@,
            },
            NotionError::MalformedSchema => ErrorModel::MalformedSchema,
            NotionError::ConfigStore(cause) => ErrorModel::ConfigStore(cause@),
        }
    }
}

/// Why one page was not created.
#[derive(Clone, Debug, PartialEq, Eq)]
pub enum CreationError {
    /// The request never got an answer; carries the transport's cause.
    Transport(String),
    /// The service answered with a status outside the success range.
    Rejected { status: u16, body: String },
}

/// Mathematical model of a [`CreationError`].
pub enum CreationErrorModel {
    Transport(Seq<char>),
    Rejected { status: u16, body: Seq<char> },
}

impl View for CreationError {
    type V = CreationErrorModel;

    open spec fn view(&self) -> CreationErrorModel {
        match self {
            CreationError::Transport(cause) => CreationErrorModel::Transport(cause@),
            CreationError::Rejected { status, body } => CreationErrorModel::Rejected {
                status: *status,
                body: body@,
            },
        }
    }
}

/// Model of a text or the error in its place.
pub open spec fn text_or_error(result: Result<String, NotionError>) -> Result<
    Seq<char>,
    ErrorModel,
> {
    match result {
        Ok(text) => Ok(text@),
        Err(error) => Err(error@),
    }
}

/// How a rejection is shown: the status code and the body, both as the
/// service sent them.
pub open spec fn rejection_text(status: u16, body: Seq<char>) -> Seq<char> {
    "Error from Notion ("@ + decimal_digits(status as nat) + "): "@ + body
}

/// How a failure of the configuration flow is shown to the user.
pub open spec fn error_text(error: ErrorModel) -> Seq<char> {
    match error {
        ErrorModel::Transport(cause) => "Could not reach Notion"@,
        ErrorModel::RemoteRejected { status, body } => rejection_text(status, body),
        ErrorModel::MalformedSchema => "Notion sent a listing of databases that cannot be used"@,
        ErrorModel::ConfigStore(cause) => "Could not store the configuration: "@ + cause,
    }
}

/// How a failure to create a page is shown to the user.
pub open spec fn creation_error_text(error: CreationErrorModel) -> Seq<char> {
    match error {
        CreationErrorModel::Transport(cause) => "Could not reach Notion"@,
        CreationErrorModel::Rejected { status, body } => rejection_text(status, body),
    }
}

fn rejection_message(status: u16, body: &str) -> (text: String)
    ensures
        text@ == rejection_text(status, body@),
{
    let mut text = "Error from Notion (".to_owned();
    write_decimal(&mut text, status as usize);
    text.append("): ");
    text.append(body);
    text
}

impl NotionError {
    /// The text to show for this error. A rejection shows the status code
    /// and the body as they came; a transport failure shows a general
    /// message.
    pub fn message(&self) -> (text: String)
        ensures
            text@ == error_text(self@),
    {
        match self {
            NotionError::Transport(_) => "Could not reach Notion".to_owned(),
            NotionError::RemoteRejected { status, body } => rejection_message(
                *status,
                body.as_str(),
            ),
            NotionError::MalformedSchema => {
                "Notion sent a listing of databases that cannot be used".to_owned()
            },
            NotionError::ConfigStore(cause) => {
                let mut text = "Could not store the configuration: ".to_owned();
                text.append(cause.as_str());
                text
            },
        }
    }
}

impl CreationError {
    /// The text to show for this error. A rejection shows the status code
    /// and the body as they came; a transport failure shows a general
    /// message.
    pub fn message(&self) -> (text: String)
        ensures
            text@ == creation_error_text(self@),
    {
        match self {
            CreationError::Transport(_) => "Could not reach Notion".to_owned(),
            CreationError::Rejected { status, body } => rejection_message(*status, body.as_str()),
        }
    }
}

} // verus!
