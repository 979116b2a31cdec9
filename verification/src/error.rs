//! Errors of motor communication.

use vstd::prelude::*;

use crate::text::{decimal_text, hex_text};

verus! {

/// Errors that can occur during motor communication.
///
/// What the operating system or a serial driver reported is kept as its text.
#[derive(Debug)]
pub enum RobstrideError {
    /// The CAN socket failed.
    CanSocket(String),
    /// No answer came in time.
    Timeout { motor_id: u8 },
    /// The answer was not one to the request.
    InvalidResponse { msg: String },
    /// The motor reported a fault.
    MotorFault { code: u8 },
    /// A parameter value is out of range. The numbers are kept as texts.
    OutOfRange { param: String, value: String, min: String, max: String },
    /// The motor has to be enabled first.
    NotEnabled { motor_id: u8 },
    /// The serial port failed.
    SerialPort(String),
    /// Misuse or setup errors without a variant of their own, such as a lock conflict. The
    /// message is shown as it is.
    Other(String),
}

impl RobstrideError {
    /// The message that a user sees.
    pub open spec fn spec_message(self) -> Seq<char> {
        match self {
            RobstrideError::CanSocket(text) => "CAN socket error: "@ + text@,
            RobstrideError::Timeout { motor_id } =>
                "Timeout waiting for motor response (motor_id="@ + crate::text::decimal(
                    motor_id as nat,
                ) + ")"@,
            RobstrideError::InvalidResponse { msg } => "Invalid response from motor: "@ + msg@,
            RobstrideError::MotorFault { code } => "Motor fault detected: code=0x"@
                + crate::text::hex(code as nat, 2),
            RobstrideError::OutOfRange { param, value, min, max } =>
                "Parameter value out of range: "@ + param@ + " = "@ + value@ + " (expected "@
                + min@ + ".."@ + max@ + ")"@,
            RobstrideError::NotEnabled { motor_id } => "Motor not enabled (motor_id="@
                + crate::text::decimal(motor_id as nat) + ")"@,
            RobstrideError::SerialPort(text) => "Serial port error: "@ + text@,
            RobstrideError::Other(text) => text@,
        }
    }

    /// The message that a user sees.
    pub fn message(&self) -> (text: String)
        ensures
            text@ == self.spec_message(),
    {
        match self {
            RobstrideError::CanSocket(text) => "CAN socket error: ".to_owned().concat(
                text.as_str(),
            ),
            RobstrideError::Timeout { motor_id } =>
                "Timeout waiting for motor response (motor_id=".to_owned().concat(
                decimal_text(*motor_id as u64).as_str(),
            ).concat(")"),
            RobstrideError::InvalidResponse { msg } =>
                "Invalid response from motor: ".to_owned().concat(msg.as_str()),
            RobstrideError::MotorFault { code } =>
                "Motor fault detected: code=0x".to_owned().concat(
                hex_text(*code as u64, 2).as_str(),
            ),
            RobstrideError::OutOfRange { param, value, min, max } =>
                "Parameter value out of range: ".to_owned().concat(param.as_str()).concat(
                " = ",
            ).concat(value.as_str()).concat(" (expected ").concat(min.as_str()).concat(
                "..",
            ).concat(max.as_str()).concat(")"),
            RobstrideError::NotEnabled { motor_id } =>
                "Motor not enabled (motor_id=".to_owned().concat(
                decimal_text(*motor_id as u64).as_str(),
            ).concat(")"),
            RobstrideError::SerialPort(text) => "Serial port error: ".to_owned().concat(
                text.as_str(),
            ),
            RobstrideError::Other(text) => text.clone(),
        }
    }
}

/// The result of an operation on a motor.
pub type Result<T> = std::result::Result<T, RobstrideError>;

/// What a user is told: which kind of error it is, in words of its own, and then what is known
/// of it. A reason that is no kind of its own is told as it is.
pub proof fn law_messages(error: RobstrideError)
    ensures
        match error {
            RobstrideError::CanSocket(text) => error.spec_message() == "CAN socket error: "@ + text@,
            RobstrideError::SerialPort(text) => error.spec_message() == "Serial port error: "@
                + text@,
            RobstrideError::InvalidResponse { msg } => error.spec_message()
                == "Invalid response from motor: "@ + msg@,
            RobstrideError::Timeout { motor_id } => error.spec_message()
                == "Timeout waiting for motor response (motor_id="@ + crate::text::decimal(
                motor_id as nat,
            ) + ")"@,
            RobstrideError::NotEnabled { motor_id } => error.spec_message()
                == "Motor not enabled (motor_id="@ + crate::text::decimal(motor_id as nat) + ")"@,
            RobstrideError::MotorFault { code } => error.spec_message()
                == "Motor fault detected: code=0x"@ + crate::text::hex(code as nat, 2),
            RobstrideError::OutOfRange { param, value, min, max } => error.spec_message()
                == "Parameter value out of range: "@ + param@ + " = "@ + value@ + " (expected "@
                + min@ + ".."@ + max@ + ")"@,
            RobstrideError::Other(text) => error.spec_message() == text@,
        },
{
}

} // verus!
