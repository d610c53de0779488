//! The failures that a request can end in.

use vstd::prelude::*;

verus! {

/// Why a request was turned down.
#[derive(Debug)]
pub enum Error {
    /// The table is absent at a lower layer.
    NotFound(String),
    /// The operator token of a filter is not a known one.
    InvalidFilter(String),
    /// A filter is malformed; the text says how.
    InvalidFilterSyntax(String),
    /// A parameter does not convert to the expected type: parameter, expected type.
    InvalidFilterType(String, String),
    /// A column value has the wrong type: column, expected type, found type.
    InvalidColumnType(String, String, String),
    /// No table of that name is served.
    UnknownModel(String),
    /// The table has no such column: column, table.
    UnknownColumn(String, String),
    /// The request body cannot be used; the text says why.
    InvalidInputError(String),
    /// The statement failed when it was run.
    InternalError(String),
}

/// An [`Error`] with its texts as character sequences.
pub enum ErrorModel {
    NotFound(Seq<char>),
    InvalidFilter(Seq<char>),
    InvalidFilterSyntax(Seq<char>),
    InvalidFilterType(Seq<char>, Seq<char>),
    InvalidColumnType(Seq<char>, Seq<char>, Seq<char>),
    UnknownModel(Seq<char>),
    UnknownColumn(Seq<char>, Seq<char>),
    InvalidInputError(Seq<char>),
    InternalError(Seq<char>),
}

impl View for Error {
    type V = ErrorModel;

    open spec fn view(&self) -> ErrorModel {
        match self {
            Error::NotFound(s) => ErrorModel::NotFound(s@),
            Error::InvalidFilter(s) => ErrorModel::InvalidFilter(s@),
            Error::InvalidFilterSyntax(s) => ErrorModel::InvalidFilterSyntax(s@),
            Error::InvalidFilterType(c, e) => ErrorModel::InvalidFilterType(c@, e@),
            Error::InvalidColumnType(c, e, f) => ErrorModel::InvalidColumnType(c@, e@, f@),
            Error::UnknownModel(s) => ErrorModel::UnknownModel(s@),
            Error::UnknownColumn(c, t) => ErrorModel::UnknownColumn(c@, t@),
            Error::InvalidInputError(s) => ErrorModel::InvalidInputError(s@),
            Error::InternalError(s) => ErrorModel::InternalError(s@),
        }
    }
}

impl ErrorModel {
    /// The short name of the kind of failure.
    pub open spec fn description(self) -> Seq<char> {
        match self {
            ErrorModel::NotFound(..) => "table not found"@,
            ErrorModel::InvalidFilter(..) => "invalid or unknown filter"@,
            ErrorModel::InvalidFilterSyntax(..) => "invalid filter syntax"@,
            ErrorModel::InvalidFilterType(..) => "invalid type for column"@,
            ErrorModel::InvalidColumnType(..) => "invalid type for column"@,
            ErrorModel::UnknownModel(..) => "unknow model"@,
            ErrorModel::UnknownColumn(..) => "unknow column"@,
            ErrorModel::InvalidInputError(..) => "invalid input"@,
            ErrorModel::InternalError(..) => "internal error"@,
        }
    }

    /// The message shown to the caller.
    pub open spec fn message(self) -> Seq<char> {
        match self {
            ErrorModel::NotFound(s) => "table not found '"@ + s + "'"@,
            ErrorModel::InvalidFilter(s) => "invalid or unknown filter '"@ + s + "'"@,
            ErrorModel::InvalidFilterSyntax(s) => s,
            ErrorModel::InvalidFilterType(c, e) => "invalid type for filter '"@ + c
                + ", expected '"@ + e + "'"@,
            ErrorModel::InvalidColumnType(c, e, f) => "invalid type for column '"@ + c
                + "', expected '"@ + e + "' found '"@ + f + "'"@,
            ErrorModel::UnknownModel(s) => "table '"@ + s + "' do not exist"@,
            ErrorModel::UnknownColumn(c, t) => "column '"@ + c + "' do not exist for table '"@
                + t + "'"@,
            ErrorModel::InvalidInputError(s) => "invalid input: "@ + s,
            ErrorModel::InternalError(s) => "internal error, "@ + s,
        }
    }
}

impl Error {
    /// The short name of the kind of failure.
    pub fn description(&self) -> (text: &'static str)
        ensures
            text@ == self@.description(),
    {
        match self {
            Error::NotFound(..) => "table not found",
            Error::InvalidFilter(..) => "invalid or unknown filter",
            Error::InvalidFilterSyntax(..) => "invalid filter syntax",
            Error::InvalidFilterType(..) => "invalid type for column",
            Error::InvalidColumnType(..) => "invalid type for column",
            Error::UnknownModel(..) => "unknow model",
            Error::UnknownColumn(..) => "unknow column",
            Error::InvalidInputError(..) => "invalid input",
            Error::InternalError(..) => "internal error",
        }
    }

    /// The message shown to the caller.
    pub fn to_string(&self) -> (text: String)
        ensures
            text@ == self@.message(),
    {
        match self {
            Error::NotFound(s) => {
                let mut text = String::from_str("table not found '");
                text.append(s.as_str());
                text.append("'");
                text
            },
            Error::InvalidFilter(s) => {
                let mut text = String::from_str("invalid or unknown filter '");
                text.append(s.as_str());
                text.append("'");
                text
            },
            Error::InvalidFilterSyntax(s) => s.clone(),
            Error::InvalidFilterType(c, e) => {
                let mut text = String::from_str("invalid type for filter '");
                text.append(c.as_str());
                text.append(", expected '");
                text.append(e.as_str());
                text.append("'");
                text
            },
            Error::InvalidColumnType(c, e, f) => {
                let mut text = String::from_str("invalid type for column '");
                text.append(c.as_str());
                text.append("', expected '");
                text.append(e.as_str());
                text.append("' found '");
                text.append(f.as_str());
                text.append("'");
                text
            },
            Error::UnknownModel(s) => {
                let mut text = String::from_str("table '");
                text.append(s.as_str());
                text.append("' do not exist");
                text
            },
            Error::UnknownColumn(c, t) => {
                let mut text = String::from_str("column '");
                text.append(c.as_str());
                text.append("' do not exist for table '");
                text.append(t.as_str());
                text.append("'");
                text
            },
            Error::InvalidInputError(s) => {
                let mut text = String::from_str("invalid input: ");
                text.append(s.as_str());
                text
            },
            Error::InternalError(s) => {
                let mut text = String::from_str("internal error, ");
                text.append(s.as_str());
                text
            },
        }
    }
}

} // verus!
