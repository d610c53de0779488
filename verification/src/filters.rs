//! Filters: one predicate over one column, read from `<operator>.<operand>` and
//! written out as SQL.

use crate::error::{Error, ErrorModel};
use crate::text::{
    find_char, first_index, from_chars, join, join_with, replace, replace_char, split, split_on,
    str_eq, texts, to_chars, to_upper, uppercase,
};
use crate::text::{lemma_first_index_is, lemma_split_not_empty};
use vstd::prelude::*;

verus! {

/// The operand of `IS` and `IS NOT`.
#[derive(Debug, Clone, Copy, PartialEq, Eq, Structural)]
pub enum IsKind {
    Null,
    True,
    False,
}

impl IsKind {
    /// The kind that an upper-case text names.
    pub open spec fn of_upper(upper: Seq<char>) -> Option<IsKind> {
        if upper == "NULL"@ {
            Some(IsKind::Null)
        } else if upper == "TRUE"@ {
            Some(IsKind::True)
        } else if upper == "FALSE"@ {
            Some(IsKind::False)
        } else {
            None
        }
    }

    /// The SQL text of the kind.
    pub open spec fn text(self) -> Seq<char> {
        match self {
            IsKind::Null => "NULL"@,
            IsKind::True => "TRUE"@,
            IsKind::False => "FALSE"@,
        }
    }

    /// The kind that `upper` names, where `upper` is already in upper case.
    pub fn from_upper(upper: &str) -> (kind: Option<IsKind>)
        ensures
            kind == IsKind::of_upper(upper@),
    {
        if str_eq(upper, "NULL") {
            Some(IsKind::Null)
        } else if str_eq(upper, "TRUE") {
            Some(IsKind::True)
        } else if str_eq(upper, "FALSE") {
            Some(IsKind::False)
        } else {
            None
        }
    }

    /// The kind that `s` names, whatever its case.
    pub fn from_str(s: &str) -> (kind: Result<IsKind, ()>)
        ensures
            kind is Ok <==> IsKind::of_upper(uppercase(s@)) is Some,
            kind matches Ok(k) ==> IsKind::of_upper(uppercase(s@)) == Some(k),
    {
        let upper = to_upper(s);
        match IsKind::from_upper(upper.as_str()) {
            Some(k) => Ok(k),
            None => Err(()),
        }
    }

    /// The SQL text of the kind.
    pub fn to_string(&self) -> (s: String)
        ensures
            s@ == self.text(),
    {
        match self {
            IsKind::Null => String::from_str("NULL"),
            IsKind::True => String::from_str("TRUE"),
            IsKind::False => String::from_str("FALSE"),
        }
    }
}

/// The operators that a filter can start with.
#[derive(Debug, Clone, Copy, PartialEq, Eq, Structural)]
pub enum Operator {
    Equal,
    GreaterThanEqual,
    GreaterThan,
    LesserThanEqual,
    LesserThan,
    NotEqual,
    Like,
    ILike,
    In,
    NotIn,
    Is,
    IsNot,
    Not,
}

impl Operator {
    /// The operator that an upper-case token names.
    pub open spec fn of_upper(upper: Seq<char>) -> Option<Operator> {
        if upper == "EQ"@ {
            Some(Operator::Equal)
        } else if upper == "GTE"@ {
            Some(Operator::GreaterThanEqual)
        } else if upper == "GT"@ {
            Some(Operator::GreaterThan)
        } else if upper == "LTE"@ {
            Some(Operator::LesserThanEqual)
        } else if upper == "LT"@ {
            Some(Operator::LesserThan)
        } else if upper == "NE"@ {
            Some(Operator::NotEqual)
        } else if upper == "LIKE"@ {
            Some(Operator::Like)
        } else if upper == "ILIKE"@ {
            Some(Operator::ILike)
        } else if upper == "IN"@ {
            Some(Operator::In)
        } else if upper == "NOTIN"@ {
            Some(Operator::NotIn)
        } else if upper == "IS"@ {
            Some(Operator::Is)
        } else if upper == "ISNOT"@ {
            Some(Operator::IsNot)
        } else if upper == "NOT"@ {
            Some(Operator::Not)
        } else {
            None
        }
    }

    /// The SQL symbol of the operator.
    pub open spec fn symbol(self) -> Seq<char> {
        match self {
            Operator::Equal => "="@,
            Operator::GreaterThanEqual => ">="@,
            Operator::GreaterThan => ">"@,
            Operator::LesserThanEqual => "<="@,
            Operator::LesserThan => "<"@,
            Operator::NotEqual => "!="@,
            Operator::Like => "LIKE"@,
            Operator::ILike => "ILIKE"@,
            Operator::In => "IN"@,
            Operator::NotIn => "NOT IN"@,
            Operator::Is => "IS"@,
            Operator::IsNot => "IS NOT"@,
            Operator::Not => "NOT"@,
        }
    }

    /// The operator that `upper` names, where `upper` is already in upper case.
    pub fn from_upper(upper: &str) -> (op: Option<Operator>)
        ensures
            op == Operator::of_upper(upper@),
    {
        if str_eq(upper, "EQ") {
            Some(Operator::Equal)
        } else if str_eq(upper, "GTE") {
            Some(Operator::GreaterThanEqual)
        } else if str_eq(upper, "GT") {
            Some(Operator::GreaterThan)
        } else if str_eq(upper, "LTE") {
            Some(Operator::LesserThanEqual)
        } else if str_eq(upper, "LT") {
            Some(Operator::LesserThan)
        } else if str_eq(upper, "NE") {
            Some(Operator::NotEqual)
        } else if str_eq(upper, "LIKE") {
            Some(Operator::Like)
        } else if str_eq(upper, "ILIKE") {
            Some(Operator::ILike)
        } else if str_eq(upper, "IN") {
            Some(Operator::In)
        } else if str_eq(upper, "NOTIN") {
            Some(Operator::NotIn)
        } else if str_eq(upper, "IS") {
            Some(Operator::Is)
        } else if str_eq(upper, "ISNOT") {
            Some(Operator::IsNot)
        } else if str_eq(upper, "NOT") {
            Some(Operator::Not)
        } else {
            None
        }
    }

    /// The SQL symbol of the operator.
    pub fn sql(&self) -> (s: &'static str)
        ensures
            s@ == self.symbol(),
    {
        match self {
            Operator::Equal => "=",
            Operator::GreaterThanEqual => ">=",
            Operator::GreaterThan => ">",
            Operator::LesserThanEqual => "<=",
            Operator::LesserThan => "<",
            Operator::NotEqual => "!=",
            Operator::Like => "LIKE",
            Operator::ILike => "ILIKE",
            Operator::In => "IN",
            Operator::NotIn => "NOT IN",
            Operator::Is => "IS",
            Operator::IsNot => "IS NOT",
            Operator::Not => "NOT",
        }
    }
}

/// A predicate over one column, or the negation of another filter.
#[derive(Debug)]
pub enum Filter {
    Equal(String, String),
    GreaterThanEqual(String, String),
    GreaterThan(String, String),
    LesserThanEqual(String, String),
    LesserThan(String, String),
    NotEqual(String, String),
    Like(String, String),
    ILike(String, String),
    In(String, Vec<String>),
    NotIn(String, Vec<String>),
    Is(String, IsKind),
    IsNot(String, IsKind),
    Not(Box<Filter>),
}

/// A [`Filter`] with its texts as character sequences.
pub enum FilterModel {
    Equal(Seq<char>, Seq<char>),
    GreaterThanEqual(Seq<char>, Seq<char>),
    GreaterThan(Seq<char>, Seq<char>),
    LesserThanEqual(Seq<char>, Seq<char>),
    LesserThan(Seq<char>, Seq<char>),
    NotEqual(Seq<char>, Seq<char>),
    Like(Seq<char>, Seq<char>),
    ILike(Seq<char>, Seq<char>),
    In(Seq<char>, Seq<Seq<char>>),
    NotIn(Seq<char>, Seq<Seq<char>>),
    Is(Seq<char>, IsKind),
    IsNot(Seq<char>, IsKind),
    Not(Box<FilterModel>),
}

impl View for Filter {
    type V = FilterModel;

    open spec fn view(&self) -> FilterModel
        decreases self,
    {
        match self {
            Filter::Equal(n, v) => FilterModel::Equal(n@, v@),
            Filter::GreaterThanEqual(n, v) => FilterModel::GreaterThanEqual(n@, v@),
            Filter::GreaterThan(n, v) => FilterModel::GreaterThan(n@, v@),
            Filter::LesserThanEqual(n, v) => FilterModel::LesserThanEqual(n@, v@),
            Filter::LesserThan(n, v) => FilterModel::LesserThan(n@, v@),
            Filter::NotEqual(n, v) => FilterModel::NotEqual(n@, v@),
            Filter::Like(n, v) => FilterModel::Like(n@, v@),
            Filter::ILike(n, v) => FilterModel::ILike(n@, v@),
            Filter::In(n, v) => FilterModel::In(n@, texts(v@)),
            Filter::NotIn(n, v) => FilterModel::NotIn(n@, texts(v@)),
            Filter::Is(n, k) => FilterModel::Is(n@, *k),
            Filter::IsNot(n, k) => FilterModel::IsNot(n@, *k),
            Filter::Not(inner) => FilterModel::Not(Box::new((**inner).view())),
        }
    }
}

/// The message for a filter without a dot.
pub open spec fn invalid_syntax_message() -> Seq<char> {
    "invalid filter syntax, should be a filter and a value at least, separated by a dot"@
}

/// The message for a filter with nothing after the dot.
pub open spec fn empty_value_message() -> Seq<char> {
    "invalid filter, value of a filter cannot be empty"@
}

/// The message for an `IS` or `IS NOT` operand that is none of the three kinds.
pub open spec fn unallowed_is_value_message() -> Seq<char> {
    "invalid filter is / is not, allowed value are true, false, null."@
}

/// The filter that an operator other than `NOT` makes of a column and an operand.
pub open spec fn apply(op: Operator, name: Seq<char>, operand: Seq<char>) -> Result<
    FilterModel,
    ErrorModel,
>
    decreases operand.len(), 1int,
{
    match op {
        Operator::Equal => Ok(FilterModel::Equal(name, operand)),
        Operator::GreaterThanEqual => Ok(FilterModel::GreaterThanEqual(name, operand)),
        Operator::GreaterThan => Ok(FilterModel::GreaterThan(name, operand)),
        Operator::LesserThanEqual => Ok(FilterModel::LesserThanEqual(name, operand)),
        Operator::LesserThan => Ok(FilterModel::LesserThan(name, operand)),
        Operator::NotEqual => Ok(FilterModel::NotEqual(name, operand)),
        Operator::Like => Ok(FilterModel::Like(name, replace_char(operand, '*', '%'))),
        Operator::ILike => Ok(FilterModel::ILike(name, replace_char(operand, '*', '%'))),
        Operator::In => Ok(FilterModel::In(name, split(operand, ','))),
        Operator::NotIn => Ok(FilterModel::NotIn(name, split(operand, ','))),
        Operator::Is => match IsKind::of_upper(uppercase(operand)) {
            Some(k) => Ok(FilterModel::Is(name, k)),
            None => Err(ErrorModel::InvalidFilterSyntax(unallowed_is_value_message())),
        },
        Operator::IsNot => match IsKind::of_upper(uppercase(operand)) {
            Some(k) => Ok(FilterModel::IsNot(name, k)),
            None => Err(ErrorModel::InvalidFilterSyntax(unallowed_is_value_message())),
        },
        Operator::Not => match parse(name, operand) {
            Ok(f) => Ok(FilterModel::Not(Box::new(f))),
            Err(e) => Err(e),
        },
    }
}

/// The filter that `raw` writes for the column `name`: the operator token before
/// the first dot, whatever its case, and the operand after it.
pub open spec fn parse(name: Seq<char>, raw: Seq<char>) -> Result<FilterModel, ErrorModel>
    decreases raw.len(), 0int,
{
    let dot = first_index(raw, '.');
    if !(0 <= dot < raw.len()) {
        Err(ErrorModel::InvalidFilterSyntax(invalid_syntax_message()))
    } else {
        let token = raw.subrange(0, dot);
        let operand = raw.subrange(dot + 1, raw.len() as int);
        if operand.len() == 0 {
            Err(ErrorModel::InvalidFilterSyntax(empty_value_message()))
        } else {
            match Operator::of_upper(uppercase(token)) {
                Some(op) => apply(op, name, operand),
                None => Err(ErrorModel::InvalidFilter(token)),
            }
        }
    }
}

/// A parse result with its texts as character sequences.
pub open spec fn outcome(r: Result<Filter, Error>) -> Result<FilterModel, ErrorModel> {
    match r {
        Ok(f) => Ok(f@),
        Err(e) => Err(e@),
    }
}

/// The text of an optional table prefix.
pub open spec fn prefix_text(table: Option<&str>) -> Option<Seq<char>> {
    match table {
        Some(t) => Some(t@),
        None => None,
    }
}

/// A column name behind its table prefix, if there is one.
pub open spec fn qualified(table: Option<Seq<char>>, column: Seq<char>) -> Seq<char> {
    match table {
        Some(t) => t + "."@ + column,
        None => column,
    }
}

/// A comparison of a column with a quoted value.
pub open spec fn render_basic(
    symbol: Seq<char>,
    column: Seq<char>,
    value: Seq<char>,
    table: Option<Seq<char>>,
) -> Seq<char> {
    qualified(table, column) + " "@ + symbol + " '"@ + value + "'"@
}

/// Each value between single quotes.
pub open spec fn quoted(values: Seq<Seq<char>>) -> Seq<Seq<char>> {
    Seq::new(values.len(), |i: int| "'"@ + values[i] + "'"@)
}

/// A membership test of a column in a list of quoted values.
pub open spec fn render_in(
    symbol: Seq<char>,
    column: Seq<char>,
    values: Seq<Seq<char>>,
    table: Option<Seq<char>>,
) -> Seq<char> {
    qualified(table, column) + " "@ + symbol + " ("@ + join(quoted(values), ", "@) + ")"@
}

/// A test of a column against one of the three kinds, which is not quoted.
pub open spec fn render_is(
    symbol: Seq<char>,
    column: Seq<char>,
    kind: IsKind,
    table: Option<Seq<char>>,
) -> Seq<char> {
    qualified(table, column) + " "@ + symbol + " "@ + kind.text()
}

/// The SQL predicate that a filter stands for.
pub open spec fn render(f: FilterModel, table: Option<Seq<char>>) -> Seq<char>
    decreases f,
{
    match f {
        FilterModel::Equal(n, v) => render_basic(Operator::Equal.symbol(), n, v, table),
        FilterModel::GreaterThanEqual(n, v) => render_basic(
            Operator::GreaterThanEqual.symbol(),
            n,
            v,
            table,
        ),
        FilterModel::GreaterThan(n, v) => render_basic(
            Operator::GreaterThan.symbol(),
            n,
            v,
            table,
        ),
        FilterModel::LesserThanEqual(n, v) => render_basic(
            Operator::LesserThanEqual.symbol(),
            n,
            v,
            table,
        ),
        FilterModel::LesserThan(n, v) => render_basic(Operator::LesserThan.symbol(), n, v, table),
        FilterModel::NotEqual(n, v) => render_basic(Operator::NotEqual.symbol(), n, v, table),
        FilterModel::Like(n, p) => render_basic(Operator::Like.symbol(), n, p, table),
        FilterModel::ILike(n, p) => render_basic(Operator::ILike.symbol(), n, p, table),
        FilterModel::In(n, v) => render_in(Operator::In.symbol(), n, v, table),
        FilterModel::NotIn(n, v) => render_in(Operator::NotIn.symbol(), n, v, table),
        FilterModel::Is(n, k) => render_is(Operator::Is.symbol(), n, k, table),
        FilterModel::IsNot(n, k) => render_is(Operator::IsNot.symbol(), n, k, table),
        FilterModel::Not(inner) => Operator::Not.symbol() + " ("@ + render(*inner, table) + ")"@,
    }
}

/// The column name behind its table prefix, ready to be extended.
fn start_with_column(name: &str, table: Option<&str>) -> (s: String)
    ensures
        s@ == qualified(prefix_text(table), name@),
{
    match table {
        Some(t) => {
            let mut s = String::from_str(t);
            s.append(".");
            s.append(name);
            s
        },
        None => String::from_str(name),
    }
}

/// Writes a comparison of a column with a quoted value.
pub fn fmt_basic_filter(filter: &str, col: &str, val: &str, table: Option<&str>) -> (s: String)
    ensures
        s@ == render_basic(filter@, col@, val@, prefix_text(table)),
{
    let mut s = start_with_column(col, table);
    s.append(" ");
    s.append(filter);
    s.append(" '");
    s.append(val);
    s.append("'");
    s
}

/// Writes a match of a column against a quoted pattern.
pub fn fmt_like_filter(f: &str, name: &str, patt: &str, table: Option<&str>) -> (s: String)
    ensures
        s@ == render_basic(f@, name@, patt@, prefix_text(table)),
{
    fmt_basic_filter(f, name, patt, table)
}

/// Writes a test of a column against one of the three kinds.
pub fn fmt_is_filter(f: &str, name: &str, k: &IsKind, table: Option<&str>) -> (s: String)
    ensures
        s@ == render_is(f@, name@, *k, prefix_text(table)),
{
    let mut s = start_with_column(name, table);
    s.append(" ");
    s.append(f);
    s.append(" ");
    let kind = k.to_string();
    s.append(kind.as_str());
    s
}

/// Each value between single quotes.
fn quote_all(val: &Vec<String>) -> (items: Vec<String>)
    ensures
        texts(items@) == quoted(texts(val@)),
{
    let mut items: Vec<String> = Vec::new();
    let mut i: usize = 0;
    while i < val.len()
        invariant
            i <= val.len(),
            items.len() == i,
            forall|k: int| 0 <= k < i ==> (#[trigger] items@[k])@ == "'"@ + val@[k]@ + "'"@,
        decreases val.len() - i,
    {
        let mut item = String::from_str("'");
        item.append(val[i].as_str());
        item.append("'");
        items.push(item);
        i += 1;
    }
    items
}

/// Writes a membership test of a column in a list of quoted values.
pub fn fmt_in_filter(f: &str, name: &str, val: &Vec<String>, table: Option<&str>) -> (s: String)
    ensures
        s@ == render_in(f@, name@, texts(val@), prefix_text(table)),
{
    let items = quote_all(val);
    let list = join_with(&items, ", ");
    let mut s = start_with_column(name, table);
    s.append(" ");
    s.append(f);
    s.append(" (");
    s.append(list.as_str());
    s.append(")");
    s
}

/// Writes the negation of a filter.
pub fn fmt_not_filter(f: &Filter, table: Option<&str>) -> (s: String)
    ensures
        s@ == render(FilterModel::Not(Box::new(f@)), prefix_text(table)),
    decreases f, 1int,
{
    let inner = f.to_string(table);
    let mut s = String::from_str("NOT");
    s.append(" (");
    s.append(inner.as_str());
    s.append(")");
    s
}

impl Filter {
    /// Reads the filter that `value` writes for the column `name`.
    ///
    /// `value` is an operator token, a dot and an operand. The token is matched in
    /// upper case, so its case does not matter. A value without a dot, or with nothing
    /// after the first dot, is a syntax error; a token that names no operator is an
    /// invalid filter, reported with the token as it was written.
    pub fn new(name: &str, value: &str) -> (r: Result<Filter, Error>)
        ensures
            outcome(r) == parse(name@, value@),
        decreases value@.len(), 0int,
    {
        let chars = to_chars(value);
        let dot = find_char(&chars, 0, '.');
        proof {
            assert(chars@.subrange(0, chars.len() as int) =~= chars@);
        }
        if dot == chars.len() {
            return Err(
                Error::InvalidFilterSyntax(
                    String::from_str(
                        "invalid filter syntax, should be a filter and a value at least, separated by a dot",
                    ),
                ),
            );
        }
        let token = from_chars(&chars, 0, dot);
        let operand = from_chars(&chars, dot + 1, chars.len());
        if dot + 1 == chars.len() {
            return Err(
                Error::InvalidFilterSyntax(
                    String::from_str("invalid filter, value of a filter cannot be empty"),
                ),
            );
        }
        let upper = to_upper(token.as_str());
        match Operator::from_upper(upper.as_str()) {
            Some(op) => Filter::with_operator(op, name, operand.as_str()),
            None => Err(Error::InvalidFilter(token)),
        }
    }

    /// The filter that the operator `op` makes of the column `name` and `operand`.
    ///
    /// `LIKE` and `ILIKE` turn every `*` of the operand into `%`; `IN` and `NOT IN`
    /// split it at each comma and keep the pieces as they are; `IS` and `IS NOT` take
    /// one of `NULL`, `TRUE` and `FALSE`, in any case, and fail on anything else; `NOT`
    /// reads the operand as a filter of its own.
    pub fn with_operator(op: Operator, name: &str, operand: &str) -> (r: Result<Filter, Error>)
        ensures
            outcome(r) == apply(op, name@, operand@),
        decreases operand@.len(), 1int,
    {
        match op {
            Operator::Equal => Ok(Filter::Equal(String::from_str(name), String::from_str(operand))),
            Operator::GreaterThanEqual => Ok(
                Filter::GreaterThanEqual(String::from_str(name), String::from_str(operand)),
            ),
            Operator::GreaterThan => Ok(
                Filter::GreaterThan(String::from_str(name), String::from_str(operand)),
            ),
            Operator::LesserThanEqual => Ok(
                Filter::LesserThanEqual(String::from_str(name), String::from_str(operand)),
            ),
            Operator::LesserThan => Ok(
                Filter::LesserThan(String::from_str(name), String::from_str(operand)),
            ),
            Operator::NotEqual => Ok(
                Filter::NotEqual(String::from_str(name), String::from_str(operand)),
            ),
            Operator::Like => Ok(Filter::Like(String::from_str(name), replace(operand, '*', '%'))),
            Operator::ILike => Ok(
                Filter::ILike(String::from_str(name), replace(operand, '*', '%')),
            ),
            Operator::In => Ok(Filter::In(String::from_str(name), split_on(operand, ','))),
            Operator::NotIn => Ok(Filter::NotIn(String::from_str(name), split_on(operand, ','))),
            Operator::Is => match IsKind::from_str(operand) {
                Ok(k) => Ok(Filter::Is(String::from_str(name), k)),
                Err(_) => Err(
                    Error::InvalidFilterSyntax(
                        String::from_str(
                            "invalid filter is / is not, allowed value are true, false, null.",
                        ),
                    ),
                ),
            },
            Operator::IsNot => match IsKind::from_str(operand) {
                Ok(k) => Ok(Filter::IsNot(String::from_str(name), k)),
                Err(_) => Err(
                    Error::InvalidFilterSyntax(
                        String::from_str(
                            "invalid filter is / is not, allowed value are true, false, null.",
                        ),
                    ),
                ),
            },
            Operator::Not => match Filter::new(name, operand) {
                Ok(f) => Ok(Filter::Not(Box::new(f))),
                Err(e) => Err(e),
            },
        }
    }

    /// The SQL predicate of the filter, with the column behind `table` and a dot when
    /// a table is given. Values are written between single quotes as they are.
    pub fn to_string(&self, table: Option<&str>) -> (s: String)
        ensures
            s@ == render(self@, prefix_text(table)),
        decreases self, 0int,
    {
        match self {
            Filter::Equal(n, v) => fmt_basic_filter("=", n.as_str(), v.as_str(), table),
            Filter::GreaterThanEqual(n, v) => fmt_basic_filter(
                ">=",
                n.as_str(),
                v.as_str(),
                table,
            ),
            Filter::GreaterThan(n, v) => fmt_basic_filter(">", n.as_str(), v.as_str(), table),
            Filter::LesserThanEqual(n, v) => fmt_basic_filter("<=", n.as_str(), v.as_str(), table),
            Filter::LesserThan(n, v) => fmt_basic_filter("<", n.as_str(), v.as_str(), table),
            Filter::NotEqual(n, v) => fmt_basic_filter("!=", n.as_str(), v.as_str(), table),
            Filter::Like(n, patt) => fmt_like_filter("LIKE", n.as_str(), patt.as_str(), table),
            Filter::ILike(n, patt) => fmt_like_filter("ILIKE", n.as_str(), patt.as_str(), table),
            Filter::In(n, v) => fmt_in_filter("IN", n.as_str(), v, table),
            Filter::NotIn(n, v) => fmt_in_filter("NOT IN", n.as_str(), v, table),
            Filter::Is(n, k) => fmt_is_filter("IS", n.as_str(), k, table),
            Filter::IsNot(n, k) => fmt_is_filter("IS NOT", n.as_str(), k, table),
            Filter::Not(f) => fmt_not_filter(f, table),
        }
    }
}

/// Whether every list of values in the filter holds at least one value.
pub open spec fn lists_hold_values(f: FilterModel) -> bool
    decreases f,
{
    match f {
        FilterModel::In(_, values) => values.len() > 0,
        FilterModel::NotIn(_, values) => values.len() > 0,
        FilterModel::Not(inner) => lists_hold_values(*inner),
        _ => true,
    }
}

/// A filter that was read has no empty list of values, however deep it is nested.
pub proof fn lemma_parsed_lists_hold_values(name: Seq<char>, raw: Seq<char>)
    ensures
        parse(name, raw) matches Ok(f) ==> lists_hold_values(f),
    decreases raw.len(),
{
    let dot = first_index(raw, '.');
    if 0 <= dot < raw.len() && dot + 1 < raw.len() {
        let operand = raw.subrange(dot + 1, raw.len() as int);
        lemma_split_not_empty(operand, ',');
        match Operator::of_upper(uppercase(raw.subrange(0, dot))) {
            Some(Operator::Not) => {
                lemma_parsed_lists_hold_values(name, operand);
            },
            Some(op) => {
            },
            None => {},
        }
    }
}

/// What reading and then writing gives for an operator, a column and an operand, with
/// no table prefix: the column, the operator's symbol, and the operand in the form
/// that the operator asks for.
pub open spec fn written(op: Operator, col: Seq<char>, operand: Seq<char>) -> Option<Seq<char>>
    decreases operand.len(), 1int,
{
    match op {
        Operator::Like | Operator::ILike => Some(
            col + " "@ + op.symbol() + " '"@ + replace_char(operand, '*', '%') + "'"@,
        ),
        Operator::In | Operator::NotIn => Some(
            col + " "@ + op.symbol() + " ("@ + join(quoted(split(operand, ',')), ", "@) + ")"@,
        ),
        Operator::Is | Operator::IsNot => match IsKind::of_upper(uppercase(operand)) {
            Some(k) => Some(col + " "@ + op.symbol() + " "@ + k.text()),
            None => None,
        },
        Operator::Not => match written_raw(col, operand) {
            Some(inner) => Some("NOT ("@ + inner + ")"@),
            None => None,
        },
        _ => Some(col + " "@ + op.symbol() + " '"@ + operand + "'"@),
    }
}

/// What reading `raw` for the column `col` and then writing the filter gives, with no
/// table prefix; nothing where `raw` is not a filter.
pub open spec fn written_raw(col: Seq<char>, raw: Seq<char>) -> Option<Seq<char>>
    decreases raw.len(), 0int,
{
    let dot = first_index(raw, '.');
    if 0 <= dot < raw.len() && dot + 1 < raw.len() {
        match Operator::of_upper(uppercase(raw.subrange(0, dot))) {
            Some(op) => written(op, col, raw.subrange(dot + 1, raw.len() as int)),
            None => None,
        }
    } else {
        None
    }
}

/// Reading a filter and writing it out with no table prefix gives exactly the
/// documented text: every text that reads as a filter is written as `written_raw`
/// says, and every text that does not is refused.
pub proof fn lemma_parse_then_render(col: Seq<char>, raw: Seq<char>)
    ensures
        match parse(col, raw) {
            Ok(f) => written_raw(col, raw) == Some(render(f, None)),
            Err(_) => written_raw(col, raw) is None,
        },
    decreases raw.len(),
{
    let dot = first_index(raw, '.');
    if 0 <= dot < raw.len() && dot + 1 < raw.len() {
        let operand = raw.subrange(dot + 1, raw.len() as int);
        match Operator::of_upper(uppercase(raw.subrange(0, dot))) {
            Some(Operator::Not) => {
                lemma_parse_then_render(col, operand);
                if let Ok(inner) = parse(col, operand) {
                    lemma_render_not(inner, None);
                }
            },
            Some(op) => {
            },
            None => {},
        }
    }
}

/// In a token without a dot, a dot and an operand, the first dot is the one behind
/// the token: the token stands before it and the operand after it.
proof fn lemma_token_dot(token: Seq<char>, operand: Seq<char>)
    requires
        !token.contains('.'),
    ensures
        ({
            let raw = token.push('.') + operand;
            &&& first_index(raw, '.') == token.len()
            &&& raw.subrange(0, token.len() as int) == token
            &&& raw.subrange(token.len() as int + 1, raw.len() as int) == operand
        }),
{
    let raw = token.push('.') + operand;
    assert forall|j: int| 0 <= j < token.len() implies raw[j] != '.' by {
        assert(token.contains(raw[j]));
    }
    lemma_first_index_is(raw, '.', token.len() as int);
    assert(raw.subrange(0, token.len() as int) =~= token);
    assert(raw.subrange(token.len() as int + 1, raw.len() as int) =~= operand);
}

/// A token without a dot, a dot and a non-empty operand read as the token's operator
/// applied to the operand; a token that names no operator is an invalid filter.
pub proof fn lemma_parse_token(col: Seq<char>, token: Seq<char>, operand: Seq<char>)
    requires
        !token.contains('.'),
        operand.len() > 0,
    ensures
        parse(col, token.push('.') + operand) == match Operator::of_upper(uppercase(token)) {
            Some(op) => apply(op, col, operand),
            None => Err(ErrorModel::InvalidFilter(token)),
        },
{
    lemma_token_dot(token, operand);
}

/// A token without a dot that names an operator, a dot and a non-empty operand are
/// read and written back, with no table prefix, as the column, the operator's symbol
/// and the operand in the operator's form; where the operand is none that the
/// operator takes, they are refused.
pub proof fn lemma_token_round_trip(
    col: Seq<char>,
    token: Seq<char>,
    operand: Seq<char>,
    op: Operator,
)
    requires
        !token.contains('.'),
        operand.len() > 0,
        Operator::of_upper(uppercase(token)) == Some(op),
    ensures
        match parse(col, token.push('.') + operand) {
            Ok(f) => written(op, col, operand) == Some(render(f, None)),
            Err(_) => written(op, col, operand) is None,
        },
{
    lemma_token_dot(token, operand);
    lemma_parse_then_render(col, token.push('.') + operand);
}

/// Writing a filter is a function of the filter and the prefix alone: two filters
/// that hold the same texts are written the same, however often.
pub proof fn lemma_render_deterministic(a: Filter, b: Filter, table: Option<Seq<char>>)
    requires
        a@ == b@,
    ensures
        render(a@, table) == render(b@, table),
{
}

/// A negation is written as `NOT (`, the filter it wraps, and `)`, at any depth.
pub proof fn lemma_render_not(inner: FilterModel, table: Option<Seq<char>>)
    ensures
        render(FilterModel::Not(Box::new(inner)), table) == "NOT ("@ + render(inner, table)
            + ")"@,
{
    reveal_strlit("NOT");
    reveal_strlit(" (");
    reveal_strlit("NOT (");
    assert("NOT"@ + " ("@ =~= "NOT ("@);
}

} // verus!
