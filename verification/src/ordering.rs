//! Sort orders: a column, ascending or descending.

use crate::filters::prefix_text;
use crate::text::{split, split_on, str_eq, to_upper, uppercase};
use vstd::prelude::*;

verus! {

/// One entry of an `order` parameter.
#[derive(Debug)]
pub enum Order {
    Asc(String),
    Desc(String),
}

/// An [`Order`] with its column as a character sequence.
pub enum OrderModel {
    Asc(Seq<char>),
    Desc(Seq<char>),
}

impl View for Order {
    type V = OrderModel;

    open spec fn view(&self) -> OrderModel {
        match self {
            Order::Asc(c) => OrderModel::Asc(c@),
            Order::Desc(c) => OrderModel::Desc(c@),
        }
    }
}

/// The order that an upper-case direction gives a column.
pub open spec fn directed(column: Seq<char>, upper: Seq<char>) -> Option<OrderModel> {
    if upper == "ASC"@ {
        Some(OrderModel::Asc(column))
    } else if upper == "DESC"@ {
        Some(OrderModel::Desc(column))
    } else {
        None
    }
}

/// The order that an entry writes: a column alone, which is ascending, or a column,
/// a dot and a direction in any case. Anything else is no order.
pub open spec fn parse_order(s: Seq<char>) -> Option<OrderModel> {
    let parts = split(s, '.');
    if parts.len() == 1 {
        Some(OrderModel::Asc(parts[0]))
    } else if parts.len() == 2 {
        directed(parts[0], uppercase(parts[1]))
    } else {
        None
    }
}

/// The SQL text of an order, the column behind its table prefix when one is given.
pub open spec fn render_order(o: OrderModel, prefix: Option<Seq<char>>) -> Seq<char> {
    let text = match o {
        OrderModel::Asc(c) => c + " "@ + "ASC"@,
        OrderModel::Desc(c) => c + " "@ + "DESC"@,
    };
    match prefix {
        Some(p) => p + "."@ + text,
        None => text,
    }
}

impl Order {
    /// The order of `column` in the direction that `upper` names, where `upper` is
    /// already in upper case.
    pub fn with_direction(column: &str, upper: &str) -> (o: Option<Order>)
        ensures
            match o {
                Some(order) => directed(column@, upper@) == Some(order@),
                None => directed(column@, upper@) is None,
            },
    {
        if str_eq(upper, "ASC") {
            Some(Order::Asc(String::from_str(column)))
        } else if str_eq(upper, "DESC") {
            Some(Order::Desc(String::from_str(column)))
        } else {
            None
        }
    }

    /// Reads one entry of an `order` parameter.
    pub fn from_str(s: &str) -> (r: Result<Order, ()>)
        ensures
            match r {
                Ok(order) => parse_order(s@) == Some(order@),
                Err(_) => parse_order(s@) is None,
            },
    {
        let parts = split_on(s, '.');
        if parts.len() == 1 {
            Ok(Order::Asc(parts[0].clone()))
        } else if parts.len() == 2 {
            let upper = to_upper(parts[1].as_str());
            match Order::with_direction(parts[0].as_str(), upper.as_str()) {
                Some(order) => Ok(order),
                None => Err(()),
            }
        } else {
            Err(())
        }
    }
}

/// The SQL text of an order, the column behind `prefix` and a dot when one is given.
pub fn to_string(o: &Order, prefix: Option<&str>) -> (s: String)
    ensures
        s@ == render_order(o@, prefix_text(prefix)),
{
    let mut text = match o {
        Order::Asc(c) => {
            let mut t = c.clone();
            t.append(" ");
            t.append("ASC");
            t
        },
        Order::Desc(c) => {
            let mut t = c.clone();
            t.append(" ");
            t.append("DESC");
            t
        },
    };
    match prefix {
        Some(p) => {
            let mut s = String::from_str(p);
            s.append(".");
            s.append(text.as_str());
            s
        },
        None => text,
    }
}

} // verus!
