//! The error type shared by every parser of the crate.
use vstd::prelude::*;
use crate::decimal::{Decimal, DecimalV, decimal_text, nat_text, push_nat};
use crate::text::{push_char, push_str};

verus! {

/// Why an input could not be parsed. Positions are byte offsets into the input.
#[derive(Debug, Clone, PartialEq)]
pub enum ParseError {
    UnexpectedEnd,
    UnexpectedChar { expected: char, found: char, pos: usize },
    UnexpectedKeyword { keyword: String, pos: usize },
    ExpectedKeyword { pos: usize },
    UnterminatedString { pos: usize },
    TrailingInput { pos: usize },
    InvalidJson { message: String },
    UnknownEpsgCode { code: i32 },
    /// A WKT1 node that carries information the CRS model cannot hold
    /// (e.g. `TOWGS84`, `EXTENSION`); the lossy WKT1 parser discards it instead.
    LossyWkt1Node { keyword: String, pos: usize },
    /// A WKT1 construct that is not supported at all (e.g. `LOCAL_CS`).
    UnsupportedWkt1Node { keyword: String, pos: usize },
    /// A `PROJECTION` name that is not in the WKT1 method mapping tables.
    UnknownProjectionMethod { name: String },
    /// A `PARAMETER` name that the matched projection method does not define.
    UnknownParameter { method: String, name: String },
    /// A `PARAMETER` whose name is known but whose value no reading of the
    /// projection method accepts.
    UnsupportedParameterValue { method: String, name: String, value: Decimal },
    /// A WKT1 node required to build a complete CRS is absent.
    MissingWkt1Node { keyword: String, parent: String, pos: usize },
}

/// The mathematical content of a [`ParseError`].
pub enum ParseErrorV {
    UnexpectedEnd,
    UnexpectedChar { expected: char, found: char, pos: int },
    UnexpectedKeyword { keyword: Seq<char>, pos: int },
    ExpectedKeyword { pos: int },
    UnterminatedString { pos: int },
    TrailingInput { pos: int },
    InvalidJson { message: Seq<char> },
    UnknownEpsgCode { code: int },
    LossyWkt1Node { keyword: Seq<char>, pos: int },
    UnsupportedWkt1Node { keyword: Seq<char>, pos: int },
    UnknownProjectionMethod { name: Seq<char> },
    UnknownParameter { method: Seq<char>, name: Seq<char> },
    UnsupportedParameterValue { method: Seq<char>, name: Seq<char>, value: DecimalV },
    MissingWkt1Node { keyword: Seq<char>, parent: Seq<char>, pos: int },
}

impl View for ParseError {
    type V = ParseErrorV;

    open spec fn view(&self) -> ParseErrorV {
        match self {
            ParseError::UnexpectedEnd => ParseErrorV::UnexpectedEnd,
            ParseError::UnexpectedChar { expected, found, pos } => ParseErrorV::UnexpectedChar {
                expected: *expected,
                found: *found,
                pos: *pos as int,
            },
            ParseError::UnexpectedKeyword { keyword, pos } => ParseErrorV::UnexpectedKeyword {
                keyword: keyword@,
                pos: *pos as int,
            },
            ParseError::ExpectedKeyword { pos } => ParseErrorV::ExpectedKeyword { pos: *pos as int },
            ParseError::UnterminatedString { pos } => ParseErrorV::UnterminatedString {
                pos: *pos as int,
            },
            ParseError::TrailingInput { pos } => ParseErrorV::TrailingInput { pos: *pos as int },
            ParseError::InvalidJson { message } => ParseErrorV::InvalidJson { message: message@ },
            ParseError::UnknownEpsgCode { code } => ParseErrorV::UnknownEpsgCode {
                code: *code as int,
            },
            ParseError::LossyWkt1Node { keyword, pos } => ParseErrorV::LossyWkt1Node {
                keyword: keyword@,
                pos: *pos as int,
            },
            ParseError::UnsupportedWkt1Node { keyword, pos } => ParseErrorV::UnsupportedWkt1Node {
                keyword: keyword@,
                pos: *pos as int,
            },
            ParseError::UnknownProjectionMethod { name } => ParseErrorV::UnknownProjectionMethod {
                name: name@,
            },
            ParseError::UnknownParameter { method, name } => ParseErrorV::UnknownParameter {
                method: method@,
                name: name@,
            },
            ParseError::UnsupportedParameterValue { method, name, value } =>
                ParseErrorV::UnsupportedParameterValue {
                method: method@,
                name: name@,
                value: value@,
            },
            ParseError::MissingWkt1Node { keyword, parent, pos } => ParseErrorV::MissingWkt1Node {
                keyword: keyword@,
                parent: parent@,
                pos: *pos as int,
            },
        }
    }
}

/// An integer written in decimal.
pub open spec fn int_text(k: int) -> Seq<char> {
    if k < 0 {
        seq!['-'] + nat_text((-k) as nat)
    } else {
        nat_text(k as nat)
    }
}

/// The human-readable description of an error.
pub open spec fn error_text(e: ParseErrorV) -> Seq<char> {
    match e {
        ParseErrorV::UnexpectedEnd => "unexpected end of input"@,
        ParseErrorV::UnexpectedChar { expected, found, pos } => "expected '"@.push(expected)
            + "', found '"@.push(found) + "' at position "@ + nat_text(pos as nat),
        ParseErrorV::UnexpectedKeyword { keyword, pos } => "unexpected keyword '"@ + keyword
            + "' at position "@ + nat_text(pos as nat),
        ParseErrorV::ExpectedKeyword { pos } => "expected keyword at position "@ + nat_text(
            pos as nat,
        ),
        ParseErrorV::UnterminatedString { pos } => "unterminated string starting at position "@
            + nat_text(pos as nat),
        ParseErrorV::TrailingInput { pos } => "trailing input at position "@ + nat_text(pos as nat),
        ParseErrorV::InvalidJson { message } => "invalid PROJJSON: "@ + message,
        ParseErrorV::UnknownEpsgCode { code } => "unknown EPSG code: "@ + int_text(code),
        ParseErrorV::LossyWkt1Node { keyword, pos } => "WKT1 node '"@ + keyword + "' at position "@
            + nat_text(pos as nat)
            + " cannot be represented without data loss (use parse_wkt1_lossy to discard it)"@,
        ParseErrorV::UnsupportedWkt1Node { keyword, pos } => "unsupported WKT1 construct '"@
            + keyword + "' at position "@ + nat_text(pos as nat),
        ParseErrorV::UnknownProjectionMethod { name } => "unknown WKT1 projection method: '"@
            + name + "'"@,
        ParseErrorV::UnsupportedParameterValue { method, name, value } => "unsupported value "@
            + decimal_text(value) + " for parameter '"@ + name + "' of projection method '"@
            + method + "'"@,
        ParseErrorV::MissingWkt1Node { keyword, parent, pos } => "required WKT1 node '"@ + keyword
            + "' is missing from '"@ + parent + "' at position "@ + nat_text(pos as nat),
        ParseErrorV::UnknownParameter { method, name } => "unknown parameter '"@ + name
            + "' for projection method '"@ + method + "'"@,
    }
}

impl ParseError {
    /// The human-readable description of the error.
    pub fn message(&self) -> (r: String)
        ensures
            r@ == error_text(self@),
    {
        let mut out = String::new();
        match self {
            ParseError::UnexpectedEnd => {
                push_str(&mut out, "unexpected end of input");
            },
            ParseError::UnexpectedChar { expected, found, pos } => {
                push_str(&mut out, "expected '");
                push_char(&mut out, *expected);
                push_str(&mut out, "', found '");
                push_char(&mut out, *found);
                push_str(&mut out, "' at position ");
                push_nat(&mut out, *pos as u64);
            },
            ParseError::UnexpectedKeyword { keyword, pos } => {
                push_str(&mut out, "unexpected keyword '");
                push_str(&mut out, keyword.as_str());
                push_str(&mut out, "' at position ");
                push_nat(&mut out, *pos as u64);
            },
            ParseError::ExpectedKeyword { pos } => {
                push_str(&mut out, "expected keyword at position ");
                push_nat(&mut out, *pos as u64);
            },
            ParseError::UnterminatedString { pos } => {
                push_str(&mut out, "unterminated string starting at position ");
                push_nat(&mut out, *pos as u64);
            },
            ParseError::TrailingInput { pos } => {
                push_str(&mut out, "trailing input at position ");
                push_nat(&mut out, *pos as u64);
            },
            ParseError::InvalidJson { message } => {
                push_str(&mut out, "invalid PROJJSON: ");
                push_str(&mut out, message.as_str());
            },
            ParseError::UnknownEpsgCode { code } => {
                push_str(&mut out, "unknown EPSG code: ");
                if *code < 0 {
                    push_char(&mut out, '-');
                    push_nat(&mut out, (-(*code as i64)) as u64);
                } else {
                    push_nat(&mut out, *code as u64);
                }
            },
            ParseError::LossyWkt1Node { keyword, pos } => {
                push_str(&mut out, "WKT1 node '");
                push_str(&mut out, keyword.as_str());
                push_str(&mut out, "' at position ");
                push_nat(&mut out, *pos as u64);
                push_str(
                    &mut out,
                    " cannot be represented without data loss (use parse_wkt1_lossy to discard it)",
                );
            },
            ParseError::UnsupportedWkt1Node { keyword, pos } => {
                push_str(&mut out, "unsupported WKT1 construct '");
                push_str(&mut out, keyword.as_str());
                push_str(&mut out, "' at position ");
                push_nat(&mut out, *pos as u64);
            },
            ParseError::UnknownProjectionMethod { name } => {
                push_str(&mut out, "unknown WKT1 projection method: '");
                push_str(&mut out, name.as_str());
                push_str(&mut out, "'");
            },
            ParseError::UnsupportedParameterValue { method, name, value } => {
                push_str(&mut out, "unsupported value ");
                value.write_text(&mut out);
                push_str(&mut out, " for parameter '");
                push_str(&mut out, name.as_str());
                push_str(&mut out, "' of projection method '");
                push_str(&mut out, method.as_str());
                push_str(&mut out, "'");
            },
            ParseError::MissingWkt1Node { keyword, parent, pos } => {
                push_str(&mut out, "required WKT1 node '");
                push_str(&mut out, keyword.as_str());
                push_str(&mut out, "' is missing from '");
                push_str(&mut out, parent.as_str());
                push_str(&mut out, "' at position ");
                push_nat(&mut out, *pos as u64);
            },
            ParseError::UnknownParameter { method, name } => {
                push_str(&mut out, "unknown parameter '");
                push_str(&mut out, name.as_str());
                push_str(&mut out, "' for projection method '");
                push_str(&mut out, method.as_str());
                push_str(&mut out, "'");
            },
        }
        proof {
            assert(out@ =~= error_text(self@));
        }
        out
    }
}

} // verus!
