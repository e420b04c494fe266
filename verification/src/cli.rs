//! The command line: three operands in, one line of text out.
//!
//! Nothing here reads arguments or prints; the caller hands over the
//! operands and writes what comes back.

use vstd::prelude::*;
use crate::decimal::{Dec, DecimalModel, parsed, rendered, round_model, parse_decimal, render_decimal};
use crate::payment::{payment_model, checked_monthly_payment};
use crate::term::{years_model, parse_years};

verus! {

/// The number of operands the command takes.
pub const OPERANDS: usize = 3;

/// The fractional digits an amount is shown with.
pub const DISPLAY_DIGITS: u32 = 2;

/// The loan that the operands describe.
#[derive(Clone, Copy, Debug, PartialEq, Eq)]
pub struct Loan {
    pub principal: Dec,
    pub annual_rate_percent: Dec,
    pub years: u32,
}

/// Why the operands describe no loan. Each rejected operand is kept as it
/// was written.
#[derive(Clone, Debug, PartialEq, Eq)]
pub enum InputError {
    /// There are not exactly three operands.
    Usage,
    /// The first operand is no decimal.
    Principal(String),
    /// The second operand is no decimal.
    AnnualRate(String),
    /// The third operand is no whole number of years.
    Years(String),
}

/// What the command answers.
#[derive(Clone, Debug, PartialEq, Eq)]
pub enum Response {
    /// The line for standard output; the command succeeds.
    Payment(String),
    /// The operands were rejected; the command fails with the error's
    /// message.
    Rejected(InputError),
    /// The operands describe a loan whose payment the decimal arithmetic
    /// cannot work out.
    Unrepresentable,
}

/// Whether all three operands are there and each can be read.
pub open spec fn well_formed(operands: Seq<String>) -> bool {
    &&& operands.len() == OPERANDS
    &&& parsed(operands[0]@) is Some
    &&& parsed(operands[1]@) is Some
    &&& years_model(operands[2]@) is Some
}

/// Whether `request` is the reading of `operands`: the loan they write, or
/// the first thing wrong with them, going from the count to the principal,
/// the rate and the years.
pub open spec fn reads_as(operands: Seq<String>, request: Result<Loan, InputError>) -> bool {
    match request {
        Ok(loan) => {
            &&& well_formed(operands)
            &&& parsed(operands[0]@) == Some(loan.principal@)
            &&& parsed(operands[1]@) == Some(loan.annual_rate_percent@)
            &&& years_model(operands[2]@) == Some(loan.years)
        },
        Err(InputError::Usage) => operands.len() != OPERANDS,
        Err(InputError::Principal(raw)) => {
            &&& operands.len() == OPERANDS
            &&& parsed(operands[0]@) is None
            &&& raw@ == operands[0]@
        },
        Err(InputError::AnnualRate(raw)) => {
            &&& operands.len() == OPERANDS
            &&& parsed(operands[0]@) is Some
            &&& parsed(operands[1]@) is None
            &&& raw@ == operands[1]@
        },
        Err(InputError::Years(raw)) => {
            &&& operands.len() == OPERANDS
            &&& parsed(operands[0]@) is Some
            &&& parsed(operands[1]@) is Some
            &&& years_model(operands[2]@) is None
            &&& raw@ == operands[2]@
        },
    }
}

/// The payment of the loan that well-formed operands write.
pub open spec fn quoted_payment(operands: Seq<String>) -> Option<DecimalModel> {
    payment_model(
        parsed(operands[0]@).unwrap(),
        parsed(operands[1]@).unwrap(),
        years_model(operands[2]@).unwrap() as nat,
    )
}

/// The output line for a payment: the amount rounded to two digits, ties to
/// even, behind a fixed label.
pub open spec fn payment_line_model(payment: DecimalModel) -> Seq<char> {
    "Monthly payment: "@ + rendered(round_model(payment, DISPLAY_DIGITS as nat))
}

impl InputError {
    /// The text of the message for standard error.
    pub open spec fn message_model(self, program: Seq<char>) -> Seq<char> {
        match self {
            InputError::Usage => "Usage: "@ + program
                + " <principal> <annual_rate_percent> <years>"@,
            InputError::Principal(raw) => "Invalid principal amount: "@ + raw@,
            InputError::AnnualRate(raw) => "Invalid annual rate: "@ + raw@,
            InputError::Years(raw) => "Invalid years: "@ + raw@,
        }
    }

    /// The message for standard error; `program` is the name the command
    /// was started under.
    pub fn message(&self, program: &str) -> (text: String)
        ensures
            text@ == self.message_model(program@),
    {
        match self {
            InputError::Usage => "Usage: ".to_owned().concat(program).concat(
                " <principal> <annual_rate_percent> <years>",
            ),
            InputError::Principal(raw) => "Invalid principal amount: ".to_owned().concat(
                raw.as_str(),
            ),
            InputError::AnnualRate(raw) => "Invalid annual rate: ".to_owned().concat(raw.as_str()),
            InputError::Years(raw) => "Invalid years: ".to_owned().concat(raw.as_str()),
        }
    }
}

impl Response {
    /// The exit status that goes with an answer: 0 with a payment, 1 with
    /// rejected operands. Where the arithmetic gave out there is none: the
    /// command has nothing to print and aborts.
    pub fn exit_status(&self) -> (status: Option<i32>)
        ensures
            status == match self {
                Response::Payment(_) => Some(0i32),
                Response::Rejected(_) => Some(1i32),
                Response::Unrepresentable => None,
            },
    {
        match self {
            Response::Payment(_) => Some(0),
            Response::Rejected(_) => Some(1),
            Response::Unrepresentable => None,
        }
    }
}

/// Reads the operands of the command, the program's name not among them.
pub fn read_loan(operands: &Vec<String>) -> (request: Result<Loan, InputError>)
    ensures
        reads_as(operands@, request),
{
    if operands.len() != OPERANDS {
        return Err(InputError::Usage);
    }
    let principal = match parse_decimal(operands[0].as_str()) {
        Some(value) => value,
        None => { return Err(InputError::Principal(operands[0].clone())); },
    };
    let annual_rate_percent = match parse_decimal(operands[1].as_str()) {
        Some(value) => value,
        None => { return Err(InputError::AnnualRate(operands[1].clone())); },
    };
    let years = match parse_years(operands[2].as_str()) {
        Some(value) => value,
        None => { return Err(InputError::Years(operands[2].clone())); },
    };
    Ok(Loan { principal, annual_rate_percent, years })
}

/// The output line for a payment.
pub fn payment_line(payment: Dec) -> (line: String)
    ensures
        line@ == payment_line_model(payment@),
{
    let shown = render_decimal(payment.round_dp(DISPLAY_DIGITS));
    "Monthly payment: ".to_owned().concat(shown.as_str())
}

/// Answers the command for the given operands.
pub fn respond(operands: &Vec<String>) -> (response: Response)
    ensures
        match response {
            Response::Payment(line) => {
                &&& well_formed(operands@)
                &&& quoted_payment(operands@) matches Some(payment)
                &&& line@ == payment_line_model(payment)
            },
            Response::Rejected(error) => reads_as(operands@, Err(error)),
            Response::Unrepresentable => {
                &&& well_formed(operands@)
                &&& quoted_payment(operands@) is None
            },
        },
{
    match read_loan(operands) {
        Ok(loan) => match checked_monthly_payment(
            loan.principal,
            loan.annual_rate_percent,
            loan.years,
        ) {
            Some(payment) => Response::Payment(payment_line(payment)),
            None => Response::Unrepresentable,
        },
        Err(error) => Response::Rejected(error),
    }
}

} // verus!
