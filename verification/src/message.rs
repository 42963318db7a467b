//! Failures as text, for a reader.

use vstd::prelude::*;
use vstd::string::StringExecFns;
use crate::error::{attempts_model, DecodeError, Error, ErrorModel, Fault, IntTarget};
use crate::value::Kind;

verus! {

/// The text of a digit.
pub open spec fn digit_text(d: int) -> Seq<char> {
    if d == 0 {
        "0"@
    } else if d == 1 {
        "1"@
    } else if d == 2 {
        "2"@
    } else if d == 3 {
        "3"@
    } else if d == 4 {
        "4"@
    } else if d == 5 {
        "5"@
    } else if d == 6 {
        "6"@
    } else if d == 7 {
        "7"@
    } else if d == 8 {
        "8"@
    } else {
        "9"@
    }
}

/// A natural number in decimal digits, without leading zeros.
pub open spec fn decimal_nat(n: nat) -> Seq<char>
    decreases n,
{
    if n < 10 {
        digit_text(n as int)
    } else {
        decimal_nat(n / 10) + digit_text((n % 10) as int)
    }
}

/// An integer in decimal digits, with a minus sign where it is negative.
pub open spec fn decimal(n: int) -> Seq<char> {
    if n < 0 {
        "-"@ + decimal_nat((-n) as nat)
    } else {
        decimal_nat(n as nat)
    }
}

/// The parts of a text, one after the other.
pub open spec fn joined(parts: Seq<Seq<char>>) -> Seq<char>
    decreases parts.len(),
{
    if parts.len() == 0 {
        Seq::empty()
    } else {
        joined(parts.drop_last()) + parts.last()
    }
}

impl Kind {
    /// The name of this kind in a message.
    pub open spec fn label(self) -> Seq<char> {
        match self {
            Kind::Table => "table"@,
            Kind::Array => "array"@,
            Kind::String => "string"@,
            Kind::Integer => "integer"@,
            Kind::Float => "float"@,
            Kind::Boolean => "boolean"@,
            Kind::DateTime => "datetime"@,
        }
    }

    /// The name of this kind in a message.
    pub fn name(&self) -> (text: &'static str)
        ensures
            text@ == self.label(),
    {
        match self {
            Kind::Table => "table",
            Kind::Array => "array",
            Kind::String => "string",
            Kind::Integer => "integer",
            Kind::Float => "float",
            Kind::Boolean => "boolean",
            Kind::DateTime => "datetime",
        }
    }
}

impl IntTarget {
    /// The name of this integer type in a message.
    pub open spec fn label(self) -> Seq<char> {
        match self {
            IntTarget::U8 => "u8"@,
            IntTarget::U32 => "u32"@,
            IntTarget::I32 => "i32"@,
        }
    }

    /// The name of this integer type in a message.
    pub fn name(&self) -> (text: &'static str)
        ensures
            text@ == self.label(),
    {
        match self {
            IntTarget::U8 => "u8",
            IntTarget::U32 => "u32",
            IntTarget::I32 => "i32",
        }
    }
}

/// What a message says of each failed attempt: the variant and its reason.
pub open spec fn attempt_texts(attempted: Seq<(Seq<char>, Fault)>) -> Seq<Seq<char>>
    decreases attempted,
{
    Seq::new(
        attempted.len(),
        |i: int|
            if 0 <= i < attempted.len() {
                "; "@ + attempted[i].0 + ": "@ + attempted[i].1.text()
            } else {
                Seq::empty()
            },
    )
}

impl Fault {
    /// The message of this failure.
    pub open spec fn text(self) -> Seq<char>
        decreases self,
    {
        match self {
            Fault::MissingField { field, shape } => "missing field `"@ + field + "` in "@ + shape,
            Fault::UnknownField { key } => "unknown field `"@ + key + "`"@,
            Fault::TypeMismatch { expected, found } => "expected "@ + expected.label() + ", found "@
                + found.label(),
            Fault::IntegerOutOfRange { value, target } => "integer "@ + decimal(value as int)
                + " out of range for "@ + target.label(),
            Fault::UnknownVariant { name } => "unknown variant `"@ + name + "`"@,
            Fault::NoMatchingVariant { attempted } => "no variant matched"@ + joined(
                attempt_texts(attempted),
            ),
            Fault::Element { index, cause } => "item "@ + decimal(index) + ": "@ + cause.text(),
            Fault::Entry { key, cause } => key + ": "@ + cause.text(),
        }
    }
}

impl ErrorModel {
    /// The message of this error.
    pub open spec fn text(self) -> Seq<char> {
        match self {
            ErrorModel::Io { path, message } => "failed to read "@ + path + ": "@ + message,
            ErrorModel::Parse { message } => "parse error: "@ + message,
        }
    }
}

/// The text of one digit.
fn digit(d: u64) -> (text: &'static str)
    requires
        d < 10,
    ensures
        text@ == digit_text(d as int),
{
    if d == 0 {
        "0"
    } else if d == 1 {
        "1"
    } else if d == 2 {
        "2"
    } else if d == 3 {
        "3"
    } else if d == 4 {
        "4"
    } else if d == 5 {
        "5"
    } else if d == 6 {
        "6"
    } else if d == 7 {
        "7"
    } else if d == 8 {
        "8"
    } else {
        "9"
    }
}

/// Writes a natural number in decimal digits.
pub fn natural_text(n: u64) -> (text: String)
    ensures
        text@ == decimal_nat(n as nat),
    decreases n,
{
    if n < 10 {
        digit(n).to_owned()
    } else {
        let mut text = natural_text(n / 10);
        text.append(digit(n % 10));
        text
    }
}

/// Writes an integer in decimal digits.
pub fn integer_text(n: i64) -> (text: String)
    ensures
        text@ == decimal(n as int),
{
    if n < 0 {
        let magnitude: u64 = ((-(n + 1)) as u64) + 1;
        let mut text = "-".to_owned();
        let digits = natural_text(magnitude);
        text.append(digits.as_str());
        text
    } else {
        natural_text(n as u64)
    }
}

impl DecodeError {
    /// The message of this failure: what failed and, below a key or an
    /// index, where.
    #[verifier::loop_isolation(false)]
    pub fn message(&self) -> (text: String)
        ensures
            text@ == self.model().text(),
        decreases self,
    {
        match self {
            DecodeError::MissingField { field, shape } => {
                let mut text = "missing field `".to_owned();
                text.append(field.as_str());
                text.append("` in ");
                text.append(shape.as_str());
                text
            },
            DecodeError::UnknownField { key } => {
                let mut text = "unknown field `".to_owned();
                text.append(key.as_str());
                text.append("`");
                text
            },
            DecodeError::TypeMismatch { expected, found } => {
                let mut text = "expected ".to_owned();
                text.append(expected.name());
                text.append(", found ");
                text.append(found.name());
                text
            },
            DecodeError::IntegerOutOfRange { value, target } => {
                let mut text = "integer ".to_owned();
                let digits = integer_text(*value);
                text.append(digits.as_str());
                text.append(" out of range for ");
                text.append(target.name());
                text
            },
            DecodeError::UnknownVariant { name } => {
                let mut text = "unknown variant `".to_owned();
                text.append(name.as_str());
                text.append("`");
                text
            },
            DecodeError::NoMatchingVariant { attempted } => {
                let ghost parts = attempt_texts(attempts_model(*attempted));
                let mut text = "no variant matched".to_owned();
                let mut i: usize = 0;
                assert(parts.take(0) =~= Seq::<Seq<char>>::empty());
                while i < attempted.len()
                    invariant
                        i <= attempted.len(),
                        text@ == "no variant matched"@ + joined(parts.take(i as int)),
                    decreases attempted.len() - i,
                {
                    proof {
                        vstd::std_specs::vec::axiom_vec_index_decreases(*attempted, i as int);
                    }
                    let reason = attempted[i].1.message();
                    text.append("; ");
                    text.append(attempted[i].0.as_str());
                    text.append(": ");
                    text.append(reason.as_str());
                    proof {
                        assert(parts.take(i + 1).drop_last() =~= parts.take(i as int));
                        assert(text@ =~= "no variant matched"@ + joined(parts.take(i + 1)));
                    }
                    i += 1;
                }
                assert(parts.take(i as int) =~= parts);
                text
            },
            DecodeError::Element { index, cause } => {
                let mut text = "item ".to_owned();
                let digits = natural_text(*index as u64);
                let reason = cause.message();
                text.append(digits.as_str());
                text.append(": ");
                text.append(reason.as_str());
                text
            },
            DecodeError::Entry { key, cause } => {
                let mut text = key.clone();
                let reason = cause.message();
                text.append(": ");
                text.append(reason.as_str());
                text
            },
        }
    }
}

impl Error {
    /// The message of this error.
    pub fn message(&self) -> (text: String)
        ensures
            text@ == self.model().text(),
    {
        match self {
            Error::Io { path, source } => {
                let mut text = "failed to read ".to_owned();
                text.append(path.as_str());
                text.append(": ");
                text.append(source.message.as_str());
                text
            },
            Error::Parse { message } => {
                let mut text = "parse error: ".to_owned();
                text.append(message.as_str());
                text
            },
        }
    }
}

} // verus!
