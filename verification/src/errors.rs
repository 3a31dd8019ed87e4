//! The failures of the store, and the text that reports each of them.

use vstd::prelude::*;

verus! {

/// `std::io::Error`, carried through as an opaque value.
#[verifier::external_type_specification]
#[verifier::external_body]
pub struct ExIoError(std::io::Error);

/// `serde_json::Error`, carried through as an opaque value.
#[verifier::external_type_specification]
#[verifier::external_body]
pub struct ExJsonError(serde_json::Error);

/// Why an operation on the registry failed.
#[derive(Debug)]
pub enum ServiceError {
    /// The registry file could not be created, opened, read or written.
    Io(std::io::Error),
    /// The registry file does not hold a sequence of service records.
    SerdeJson(serde_json::Error),
    /// No service carries this identifier.
    _NotFound(usize),
    /// The shell could not be started for this command line.
    _CommandExecutionError(String),
}

impl From<std::io::Error> for ServiceError {
    fn from(error: std::io::Error) -> (wrapped: Self) {
        ServiceError::Io(error)
    }
}

impl vstd::std_specs::convert::FromSpecImpl<std::io::Error> for ServiceError {
    open spec fn obeys_from_spec() -> bool {
        true
    }

    open spec fn from_spec(error: std::io::Error) -> Self {
        ServiceError::Io(error)
    }
}

impl From<serde_json::Error> for ServiceError {
    fn from(error: serde_json::Error) -> (wrapped: Self) {
        ServiceError::SerdeJson(error)
    }
}

impl vstd::std_specs::convert::FromSpecImpl<serde_json::Error> for ServiceError {
    open spec fn obeys_from_spec() -> bool {
        true
    }

    open spec fn from_spec(error: serde_json::Error) -> Self {
        ServiceError::SerdeJson(error)
    }
}

/// The text of `std::io::Error`'s `Display`, through `to_string`. Nothing is
/// claimed of what the text says.
#[verifier::external_body]
fn io_error_text(error: &std::io::Error) -> (text: String) {
    error.to_string()
}

/// The text of `serde_json::Error`'s `Display`, through `to_string`: the
/// parser's message, followed by the line and column where it has them.
/// Nothing is claimed of what the text says.
#[verifier::external_body]
fn json_error_text(error: &serde_json::Error) -> (text: String) {
    error.to_string()
}

/// The character that writes the digit `d`.
pub open spec fn digit(d: nat) -> char {
    if d == 0 {
        '0'
    } else if d == 1 {
        '1'
    } else if d == 2 {
        '2'
    } else if d == 3 {
        '3'
    } else if d == 4 {
        '4'
    } else if d == 5 {
        '5'
    } else if d == 6 {
        '6'
    } else if d == 7 {
        '7'
    } else if d == 8 {
        '8'
    } else {
        '9'
    }
}

/// `n` written in base ten, without leading zeros.
pub open spec fn decimal(n: nat) -> Seq<char>
    decreases n,
{
    if n < 10 {
        seq![digit(n)]
    } else {
        decimal(n / 10).push(digit(n % 10))
    }
}

fn digit_text(d: usize) -> (text: &'static str)
    requires
        d < 10,
    ensures
        text@ == seq![digit(d as nat)],
{
    proof {
        reveal_strlit("0");
        reveal_strlit("1");
        reveal_strlit("2");
        reveal_strlit("3");
        reveal_strlit("4");
        reveal_strlit("5");
        reveal_strlit("6");
        reveal_strlit("7");
        reveal_strlit("8");
        reveal_strlit("9");
    }
    let text = if d == 0 {
        "0"
    } else if d == 1 {
        "1"
    } else if d == 2 {
        "2"
    } else if d == 3 {
        "3"
    } else if d == 4 {
        "4"
    } else if d == 5 {
        "5"
    } else if d == 6 {
        "6"
    } else if d == 7 {
        "7"
    } else if d == 8 {
        "8"
    } else {
        "9"
    };
    assert(text@ =~= seq![digit(d as nat)]);
    text
}

/// Writes `n` in base ten.
pub fn decimal_text(n: usize) -> (text: String)
    ensures
        text@ == decimal(n as nat),
    decreases n,
{
    if n < 10 {
        digit_text(n).to_owned()
    } else {
        let mut text = decimal_text(n / 10);
        text.append(digit_text(n % 10));
        assert(text@ =~= decimal((n / 10) as nat).push(digit((n % 10) as nat)));
        text
    }
}

impl ServiceError {
    /// The report of this failure, where `detail` is the text of the outside
    /// error that it holds, if it holds one.
    pub open spec fn message_view(self, detail: Seq<char>) -> Seq<char> {
        match self {
            ServiceError::Io(_) => "I/O error: "@ + detail,
            ServiceError::SerdeJson(_) => "Serialization error: "@ + detail,
            ServiceError::_NotFound(id) => "Service with ID "@ + decimal(id as nat)
                + " not found"@,
            ServiceError::_CommandExecutionError(command) => "Failed to execute command: "@
                + command@,
        }
    }

    /// Reports this failure, with `detail` as the text of the outside error
    /// that it holds. A failure that holds none ignores `detail`.
    pub fn message_with(&self, detail: &str) -> (text: String)
        ensures
            text@ == self.message_view(detail@),
    {
        match self {
            ServiceError::Io(_) => "I/O error: ".to_owned().concat(detail),
            ServiceError::SerdeJson(_) => "Serialization error: ".to_owned().concat(detail),
            ServiceError::_NotFound(id) => {
                let number = decimal_text(*id);
                "Service with ID ".to_owned().concat(number.as_str()).concat(" not found")
            },
            ServiceError::_CommandExecutionError(command) => "Failed to execute command: "
                .to_owned().concat(command.as_str()),
        }
    }

    /// Reports this failure. The text of an outside error is whatever that
    /// error says of itself; what stands before it is fixed.
    pub fn message(&self) -> (text: String)
        ensures
            exists|detail: Seq<char>| text@ == self.message_view(detail),
    {
        match self {
            ServiceError::Io(error) => {
                let detail = io_error_text(error);
                self.message_with(detail.as_str())
            },
            ServiceError::SerdeJson(error) => {
                let detail = json_error_text(error);
                self.message_with(detail.as_str())
            },
            _ => self.message_with(""),
        }
    }
}

} // verus!
