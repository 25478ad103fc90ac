//! What the answers of the storage service mean.

use vstd::prelude::*;
use vstd::string::*;

use crate::text;

verus! {

/// An error of a request to the storage service, as far as anything is decided by it.
#[derive(Clone, Copy, Debug)]
pub struct RequestError {
    /// The HTTP status that the service answered with, where it answered.
    pub http_status: Option<u16>,
}

/// Whether a status says that the server failed.
pub open spec fn is_server_error(status: u16) -> bool {
    500 <= status < 600
}

/// Which errors are worth another try.
#[derive(Clone, Copy, Debug)]
pub struct AzureBlobRetryLogic;

impl AzureBlobRetryLogic {
    /// A request is tried again where the server failed or was asked too often.
    pub fn is_retriable_error(&self, error: &RequestError) -> (retriable: bool)
        ensures
            retriable <==> (error.http_status matches Some(status) && (is_server_error(status)
                || status == 429)),
    {
        match error.http_status {
            Some(status) => (500 <= status && status < 600) || status == 429,
            None => false,
        }
    }
}

/// Why a container is not healthy.
#[derive(Debug)]
pub enum HealthcheckError {
    /// The service does not let the caller in.
    InvalidCredentials,
    /// There is no such container.
    UnknownContainer { container: String },
    /// The service answered something else.
    Unknown { status: u16 },
}

/// Why a healthcheck failed.
#[derive(Debug)]
pub enum HealthcheckFailure {
    /// For what the service answered.
    Answered(HealthcheckError),
    /// Without an answer.
    NoStatus,
}

/// What `{:?}` makes of a text: the text in quotes, with escapes.
pub uninterp spec fn quoted(value: Seq<char>) -> Seq<char>;

/// A text of printable ASCII characters, without quotes and backslashes.
pub open spec fn plain_text(value: Seq<char>) -> bool {
    forall|i: int|
        0 <= i < value.len() ==> {
            &&& ' ' <= #[trigger] value[i] <= '~'
            &&& value[i] != '"'
            &&& value[i] != '\''
            &&& value[i] != '\\'
        }
}

/// A text in quotes, with escapes where it needs any.
pub open spec fn in_quotes(value: Seq<char>) -> Seq<char> {
    if plain_text(value) {
        seq!['"'] + value + seq!['"']
    } else {
        quoted(value)
    }
}

/// `format!` with `{:?}` of a text. Plain text stands between two quotes unchanged. What is escaped
/// elsewhere and how is left to the name.
#[verifier::external_body]
fn quote(value: &str) -> (shown: String)
    ensures
        shown@ == quoted(value@),
        plain_text(value@) ==> shown@ == seq!['"'] + value@ + seq!['"'],
{
    format!("{:?}", value)
}

impl HealthcheckError {
    /// The message for an error.
    pub open spec fn spec_message(self) -> Seq<char> {
        match self {
            HealthcheckError::InvalidCredentials => "Invalid connection string specified"@,
            HealthcheckError::UnknownContainer { container } => "Container: "@ + in_quotes(
                container@,
            ) + " not found"@,
            HealthcheckError::Unknown { status } => "Unknown status code: "@ + text::decimal(
                status as nat,
            ),
        }
    }

    /// The message for the error.
    pub fn message(&self) -> (message: String)
        ensures
            message@ == self.spec_message(),
    {
        match self {
            HealthcheckError::InvalidCredentials => {
                "Invalid connection string specified".to_owned()
            },
            HealthcheckError::UnknownContainer { container } => {
                let shown: String = quote(container.as_str());
                text::joined(text::joined("Container: ", shown.as_str()).as_str(), " not found")
            },
            HealthcheckError::Unknown { status } => {
                text::joined("Unknown status code: ", text::decimal_text(*status as u64).as_str())
            },
        }
    }
}

impl HealthcheckFailure {
    /// The message for the failure.
    pub fn message(&self) -> (message: String)
        ensures
            message@ == match *self {
                HealthcheckFailure::Answered(error) => error.spec_message(),
                HealthcheckFailure::NoStatus => "unknown status code"@,
            },
    {
        match self {
            HealthcheckFailure::Answered(error) => error.message(),
            HealthcheckFailure::NoStatus => "unknown status code".to_owned(),
        }
    }
}

/// Judges the health of a container by the answer to a request for its properties.
pub fn build_healthcheck(container_name: String, properties: Result<(), RequestError>) -> (health:
    Result<(), HealthcheckFailure>)
    ensures
        match properties {
            Ok(_) => health is Ok,
            Err(error) => match error.http_status {
                Some(403) => health == Err::<(), _>(
                    HealthcheckFailure::Answered(HealthcheckError::InvalidCredentials),
                ),
                Some(404) => health == Err::<(), _>(
                    HealthcheckFailure::Answered(
                        HealthcheckError::UnknownContainer { container: container_name },
                    ),
                ),
                Some(status) => health == Err::<(), _>(
                    HealthcheckFailure::Answered(HealthcheckError::Unknown { status }),
                ),
                None => health == Err::<(), _>(HealthcheckFailure::NoStatus),
            },
        },
{
    match properties {
        Ok(_) => Ok(()),
        Err(error) => Err(
            match error.http_status {
                Some(403) => HealthcheckFailure::Answered(HealthcheckError::InvalidCredentials),
                Some(404) => HealthcheckFailure::Answered(
                    HealthcheckError::UnknownContainer { container: container_name },
                ),
                Some(status) => HealthcheckFailure::Answered(HealthcheckError::Unknown { status }),
                None => HealthcheckFailure::NoStatus,
            },
        ),
    }
}

/// A server failed exactly where the status is one of the five hundreds.
pub proof fn five_hundreds_are_server_errors(status: u16)
    ensures
        is_server_error(status) <==> status / 100 == 5,
{
}

/// Each error has its message. A container's name of printable ASCII without quotes and
/// backslashes, of any length, stands in it between two quotes.
pub proof fn errors_have_their_messages(error: HealthcheckError)
    ensures
        error is InvalidCredentials ==> error.spec_message()
            == "Invalid connection string specified"@,
        error matches HealthcheckError::Unknown { status } ==> error.spec_message()
            == "Unknown status code: "@ + text::decimal(status as nat),
        error matches HealthcheckError::UnknownContainer { container } ==> {
            let plain = forall|c: char| #[trigger]
                container@.contains(c) ==> ' ' <= c <= '~' && c != '"' && c != '\'' && c != '\\';
            &&& plain ==> error.spec_message() == "Container: "@ + (seq!['"'] + container@ + seq![
                '"',
            ]) + " not found"@
            &&& !plain ==> error.spec_message() == "Container: "@ + quoted(container@)
                + " not found"@
        },
{
    if let HealthcheckError::UnknownContainer { container } = error {
        let value = container@;
        if forall|c: char| #[trigger]
            value.contains(c) ==> ' ' <= c <= '~' && c != '"' && c != '\'' && c != '\\' {
            assert forall|i: int| 0 <= i < value.len() implies {
                &&& ' ' <= #[trigger] value[i] <= '~'
                &&& value[i] != '"'
                &&& value[i] != '\''
                &&& value[i] != '\\'
            } by {
                assert(value.contains(value[i]));
            }
            assert(plain_text(value));
        } else {
            let c = choose|c: char| #[trigger]
                value.contains(c) && !(' ' <= c <= '~' && c != '"' && c != '\'' && c != '\\');
            let i = choose|i: int| 0 <= i < value.len() && value[i] == c;
            assert(!plain_text(value));
        }
    }
}

/// A request is tried again exactly where the service answered with one of the five hundreds or
/// with 429.
pub proof fn server_failures_are_tried_again(
    logic: AzureBlobRetryLogic,
    error: RequestError,
    retriable: bool,
)
    requires
        call_ensures(AzureBlobRetryLogic::is_retriable_error, (&logic, &error), retriable),
    ensures
        error.http_status is None ==> !retriable,
        error.http_status matches Some(status) ==> (retriable <==> status / 100 == 5 || status
            == 429),
{
}

/// A container is healthy exactly where its properties were had. Else the failure names what the
/// service answered, and for 404 the container that was asked for.
pub proof fn failures_follow_the_answer(
    container_name: String,
    properties: Result<(), RequestError>,
    health: Result<(), HealthcheckFailure>,
)
    requires
        call_ensures(build_healthcheck, (container_name, properties), health),
    ensures
        health is Ok <==> properties is Ok,
        properties matches Err(error) ==> {
            let status = error.http_status;
            &&& health->Err_0 is NoStatus <==> status is None
            &&& status == Some(403u16) <==> health->Err_0
                == HealthcheckFailure::Answered(HealthcheckError::InvalidCredentials)
            &&& status == Some(404u16) ==> health->Err_0 == HealthcheckFailure::Answered(
                HealthcheckError::UnknownContainer { container: container_name },
            )
            &&& status matches Some(code) ==> (code != 403 && code != 404 ==> health->Err_0
                == HealthcheckFailure::Answered(HealthcheckError::Unknown { status: code }))
        },
{
}

/// A failure without an answer says that the status is not known, and one with an answer says what
/// its error says.
pub proof fn failures_have_their_messages(failure: HealthcheckFailure, message: String)
    requires
        call_ensures(HealthcheckFailure::message, (&failure,), message),
    ensures
        failure is NoStatus ==> message@ == "unknown status code"@,
        failure matches HealthcheckFailure::Answered(error) ==> message@ == error.spec_message(),
{
}

}
