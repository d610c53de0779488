//! Query parameters: a map from keys to raw values, kept in the order of its keys.

use crate::error::{Error, ErrorModel};
use crate::filters::{parse, Filter, FilterModel};
use crate::ordering::{parse_order, Order, OrderModel};
use crate::text::{
    find_char, first_index, from_chars, lemma_less_irreflexive, lemma_less_total,
    lemma_less_transitive, less, split, split_on, str_eq, text_less, texts, to_chars,
};
use vstd::prelude::*;

verus! {

/// The key of the columns to return.
pub const SELECT: &'static str = "select";

/// The key of the largest number of rows to return.
pub const LIMIT: &'static str = "limit";

/// The key of the number of rows to skip.
pub const OFFSET: &'static str = "offset";

/// The key of the sort orders.
pub const ORDER: &'static str = "order";

/// Whether a key is one of the four that are no filters.
pub open spec fn reserved(key: Seq<char>) -> bool {
    key == "select"@ || key == "limit"@ || key == "offset"@ || key == "order"@
}

/// The number of leading entries whose key comes before `key`.
pub open spec fn rank(entries: Seq<(Seq<char>, Seq<char>)>, key: Seq<char>) -> int
    decreases entries.len(),
{
    if entries.len() == 0 || !less(entries[0].0, key) {
        0
    } else {
        1 + rank(entries.drop_first(), key)
    }
}

/// The entries with `value` under `key`: in place of the entry that had the key, or
/// behind the entries whose keys come before it.
pub open spec fn put(entries: Seq<(Seq<char>, Seq<char>)>, key: Seq<char>, value: Seq<char>) -> Seq<
    (Seq<char>, Seq<char>),
> {
    let r = rank(entries, key);
    if 0 <= r < entries.len() && entries[r].0 == key {
        entries.update(r, (key, value))
    } else {
        entries.insert(r, (key, value))
    }
}

/// The entries after each pair was put, first to last: a later pair replaces an
/// earlier one with the same key.
pub open spec fn put_each(
    entries: Seq<(Seq<char>, Seq<char>)>,
    pairs: Seq<(Seq<char>, Seq<char>)>,
) -> Seq<(Seq<char>, Seq<char>)>
    decreases pairs.len(),
{
    if pairs.len() == 0 {
        entries
    } else {
        put(put_each(entries, pairs.drop_last()), pairs.last().0, pairs.last().1)
    }
}

/// The value of the first entry with the key.
pub open spec fn lookup(entries: Seq<(Seq<char>, Seq<char>)>, key: Seq<char>) -> Option<
    Seq<char>,
>
    decreases entries.len(),
{
    if entries.len() == 0 {
        None
    } else if entries[0].0 == key {
        Some(entries[0].1)
    } else {
        lookup(entries.drop_first(), key)
    }
}

/// Whether the keys ascend strictly, so that no key occurs twice.
pub open spec fn sorted(entries: Seq<(Seq<char>, Seq<char>)>) -> bool {
    forall|i: int, j: int|
        0 <= i < j < entries.len() ==> less((#[trigger] entries[i]).0, (#[trigger] entries[j]).0)
}

/// The key and the value of one piece of a query string: what stands before and
/// after the first `=`, or the whole piece and nothing.
pub open spec fn pair_of(piece: Seq<char>) -> (Seq<char>, Seq<char>) {
    let eq = first_index(piece, '=');
    if 0 <= eq < piece.len() {
        (piece.subrange(0, eq), piece.subrange(eq + 1, piece.len() as int))
    } else {
        (piece, Seq::empty())
    }
}

/// The pairs of the pieces of a query string.
pub open spec fn pairs_of(pieces: Seq<Seq<char>>) -> Seq<(Seq<char>, Seq<char>)> {
    Seq::new(pieces.len(), |i: int| pair_of(pieces[i]))
}

/// The parameters that a query string writes: its pieces between `&`, each a key and
/// a value; an empty string writes none.
pub open spec fn parsed_queries(text: Seq<char>) -> Seq<(Seq<char>, Seq<char>)> {
    if text.len() == 0 {
        Seq::empty()
    } else {
        put_each(Seq::empty(), pairs_of(split(text, '&')))
    }
}

/// The path and the parameters of a request target: what stands before the first
/// `?`, and the parameters that the rest writes; the whole target and no parameters
/// where there is no `?`.
pub open spec fn parsed_target(target: Seq<char>) -> (Seq<char>, Seq<(Seq<char>, Seq<char>)>) {
    let mark = first_index(target, '?');
    if 0 <= mark < target.len() {
        (target.subrange(0, mark), parsed_queries(target.subrange(mark + 1, target.len() as int)))
    } else {
        (target, Seq::empty())
    }
}

/// Each key with the first of its values.
pub open spec fn first_values(m: Seq<(String, Vec<String>)>) -> Seq<(Seq<char>, Seq<char>)> {
    Seq::new(m.len(), |i: int| (m[i].0@, m[i].1@[0]@))
}

/// The orders that the entries of an `order` parameter write; an entry that writes
/// none is left out.
pub open spec fn kept_orders(parts: Seq<Seq<char>>) -> Seq<OrderModel>
    decreases parts.len(),
{
    if parts.len() == 0 {
        Seq::empty()
    } else {
        let rest = kept_orders(parts.drop_last());
        match parse_order(parts.last()) {
            Some(o) => rest.push(o),
            None => rest,
        }
    }
}

/// The filters of the entries whose keys are not reserved, each with its column, in
/// the order of the entries; the first entry that is no filter decides the error.
pub open spec fn filters_of(entries: Seq<(Seq<char>, Seq<char>)>) -> Result<
    Seq<(Seq<char>, FilterModel)>,
    ErrorModel,
>
    decreases entries.len(),
{
    if entries.len() == 0 {
        Ok(Seq::empty())
    } else {
        match filters_of(entries.drop_last()) {
            Err(e) => Err(e),
            Ok(found) => {
                let (key, value) = entries.last();
                if reserved(key) {
                    Ok(found)
                } else {
                    match parse(key, value) {
                        Ok(f) => Ok(found.push((key, f))),
                        Err(e) => Err(e),
                    }
                }
            },
        }
    }
}

/// The orders that a vector holds.
pub open spec fn order_models(v: Seq<Order>) -> Seq<OrderModel> {
    Seq::new(v.len(), |i: int| v[i]@)
}

/// The columns and filters that a vector holds.
pub open spec fn filter_models(v: Seq<(String, Filter)>) -> Seq<(Seq<char>, FilterModel)> {
    Seq::new(v.len(), |i: int| (v[i].0@, v[i].1@))
}

/// The rank of a key lies among the entries: every entry before it has a key that
/// comes before the key, and the entry at it, if there is one, has not.
pub proof fn lemma_rank_bounds(entries: Seq<(Seq<char>, Seq<char>)>, key: Seq<char>)
    ensures
        0 <= rank(entries, key) <= entries.len(),
        forall|j: int| 0 <= j < rank(entries, key) ==> less((#[trigger] entries[j]).0, key),
        rank(entries, key) < entries.len() ==> !less(entries[rank(entries, key)].0, key),
    decreases entries.len(),
{
    if entries.len() > 0 && less(entries[0].0, key) {
        let rest = entries.drop_first();
        lemma_rank_bounds(rest, key);
        assert forall|j: int| 0 <= j < rank(entries, key) implies less(
            (#[trigger] entries[j]).0,
            key,
        ) by {
            if j > 0 {
                assert(entries[j] == rest[j - 1]);
            }
        }
    }
}

/// An index whose entry does not come before the key, with only earlier keys before
/// it, is the rank of the key.
pub proof fn lemma_rank_is(entries: Seq<(Seq<char>, Seq<char>)>, key: Seq<char>, r: int)
    requires
        0 <= r <= entries.len(),
        forall|j: int| 0 <= j < r ==> less((#[trigger] entries[j]).0, key),
        r < entries.len() ==> !less(entries[r].0, key),
    ensures
        rank(entries, key) == r,
{
    lemma_rank_bounds(entries, key);
}

/// Behind an entry whose key comes before the key, a value is put as it is put into
/// the entries that follow.
proof fn lemma_put_behind_first(
    entries: Seq<(Seq<char>, Seq<char>)>,
    key: Seq<char>,
    value: Seq<char>,
)
    requires
        entries.len() > 0,
        less(entries[0].0, key),
    ensures
        put(entries, key, value) == seq![entries[0]] + put(entries.drop_first(), key, value),
{
    let rest = entries.drop_first();
    lemma_rank_bounds(rest, key);
}

/// After a value was put under a key, the key has that value.
pub proof fn lemma_lookup_put_same(
    entries: Seq<(Seq<char>, Seq<char>)>,
    key: Seq<char>,
    value: Seq<char>,
)
    ensures
        lookup(put(entries, key, value), key) == Some(value),
    decreases entries.len(),
{
    if entries.len() > 0 && less(entries[0].0, key) {
        let rest = entries.drop_first();
        lemma_put_behind_first(entries, key, value);
        lemma_lookup_put_same(rest, key, value);
        lemma_less_irreflexive(key);
        let after = put(entries, key, value);
        assert(after.drop_first() =~= put(rest, key, value));
    }
}

/// Putting a value under a key leaves the value of every other key as it was.
pub proof fn lemma_lookup_put_other(
    entries: Seq<(Seq<char>, Seq<char>)>,
    key: Seq<char>,
    value: Seq<char>,
    other: Seq<char>,
)
    requires
        other != key,
    ensures
        lookup(put(entries, key, value), other) == lookup(entries, other),
    decreases entries.len(),
{
    let after = put(entries, key, value);
    if entries.len() > 0 && less(entries[0].0, key) {
        let rest = entries.drop_first();
        lemma_put_behind_first(entries, key, value);
        lemma_lookup_put_other(rest, key, value, other);
        assert(after.drop_first() =~= put(rest, key, value));
    } else if entries.len() > 0 && entries[0].0 == key {
        assert(after.drop_first() =~= entries.drop_first());
    } else {
        assert(after.drop_first() =~= entries);
    }
}

/// Entries whose keys ascend hold each key once.
pub proof fn lemma_sorted_keys_distinct(entries: Seq<(Seq<char>, Seq<char>)>)
    requires
        sorted(entries),
    ensures
        forall|i: int, j: int|
            0 <= i < j < entries.len() ==> (#[trigger] entries[i]).0 != (#[trigger] entries[j]).0,
{
    assert forall|i: int, j: int| 0 <= i < j < entries.len() implies (#[trigger] entries[i]).0 != (
    #[trigger] entries[j]).0 by {
        lemma_less_irreflexive(entries[i].0);
    }
}

/// Putting a value into entries with ascending keys leaves the keys ascending.
pub proof fn lemma_put_sorted(entries: Seq<(Seq<char>, Seq<char>)>, key: Seq<char>, value: Seq<char>)
    requires
        sorted(entries),
    ensures
        sorted(put(entries, key, value)),
{
    lemma_rank_bounds(entries, key);
    let r = rank(entries, key);
    if !(0 <= r < entries.len() && entries[r].0 == key) {
        // The key comes before every entry from its rank on.
        assert forall|j: int| r <= j < entries.len() implies less(
            key,
            (#[trigger] entries[j]).0,
        ) by {
            lemma_less_total(entries[r].0, key);
            if j > r {
                lemma_less_transitive(key, entries[r].0, entries[j].0);
            }
        }
    }
}

/// The parameters of one request.
#[derive(Debug)]
pub struct Queries {
    entries: Vec<(String, String)>,
}

impl View for Queries {
    type V = Seq<(Seq<char>, Seq<char>)>;

    closed spec fn view(&self) -> Seq<(Seq<char>, Seq<char>)> {
        Seq::new(self.entries@.len(), |i: int| (self.entries@[i].0@, self.entries@[i].1@))
    }
}

impl Queries {
    /// No parameters.
    pub fn new() -> (q: Queries)
        ensures
            q@ == Seq::<(Seq<char>, Seq<char>)>::empty(),
            sorted(q@),
    {
        Queries { entries: Vec::new() }
    }

    /// The number of parameters.
    pub fn len(&self) -> (n: usize)
        ensures
            n == self@.len(),
    {
        self.entries.len()
    }

    /// Sets the value of `key`, in place of the one it had, if any.
    pub fn insert(&mut self, key: &str, value: &str)
        ensures
            final(self)@ == put(old(self)@, key@, value@),
            sorted(old(self)@) ==> sorted(final(self)@),
    {
        let mut i: usize = 0;
        while i < self.entries.len() && text_less(self.entries[i].0.as_str(), key)
            invariant
                i <= self.entries.len(),
                self.entries == old(self).entries,
                forall|j: int| 0 <= j < i ==> less((#[trigger] self@[j]).0, key@),
            decreases self.entries.len() - i,
        {
            i += 1;
        }
        proof {
            lemma_rank_is(self@, key@, i as int);
            if sorted(self@) {
                lemma_put_sorted(self@, key@, value@);
            }
        }
        if i < self.entries.len() && str_eq(self.entries[i].0.as_str(), key) {
            self.entries[i].1 = String::from_str(value);
        } else {
            self.entries.insert(i, (String::from_str(key), String::from_str(value)));
        }
    }

    /// The value of `key`, if it has one.
    pub fn get(&self, key: &str) -> (value: Option<&str>)
        ensures
            match value {
                Some(v) => lookup(self@, key@) == Some(v@),
                None => lookup(self@, key@) is None,
            },
    {
        let mut i: usize = 0;
        proof {
            assert(self@.skip(0) =~= self@);
        }
        while i < self.entries.len()
            invariant
                i <= self.entries.len(),
                lookup(self@, key@) == lookup(self@.skip(i as int), key@),
            decreases self.entries.len() - i,
        {
            proof {
                assert(self@.skip(i as int).drop_first() =~= self@.skip(i + 1));
            }
            if str_eq(self.entries[i].0.as_str(), key) {
                return Some(self.entries[i].1.as_str());
            }
            i += 1;
        }
        None
    }
}

/// The key and the value of one piece of a query string.
fn split_pair(piece: &str) -> (pair: (String, String))
    ensures
        (pair.0@, pair.1@) == pair_of(piece@),
{
    let chars = to_chars(piece);
    let eq = find_char(&chars, 0, '=');
    proof {
        assert(chars@.subrange(0, chars.len() as int) =~= chars@);
    }
    if eq < chars.len() {
        (from_chars(&chars, 0, eq), from_chars(&chars, eq + 1, chars.len()))
    } else {
        (String::from_str(piece), String::new())
    }
}

/// Reads the parameters of a query string: the pieces between `&`, each split at its
/// first `=`. A piece without `=` is a key with an empty value, and a key that comes
/// again replaces the one before.
pub fn parse_queries(queries: &str) -> (q: Queries)
    ensures
        q@ == parsed_queries(queries@),
        sorted(q@),
{
    let mut q = Queries::new();
    if queries.is_empty() {
        return q;
    }
    let pieces = split_on(queries, '&');
    let ghost pairs = pairs_of(split(queries@, '&'));
    let mut i: usize = 0;
    while i < pieces.len()
        invariant
            i <= pieces.len(),
            texts(pieces@) == split(queries@, '&'),
            pairs == pairs_of(split(queries@, '&')),
            q@ == put_each(Seq::empty(), pairs.take(i as int)),
            sorted(q@),
        decreases pieces.len() - i,
    {
        let pair = split_pair(pieces[i].as_str());
        proof {
            assert(pairs.take(i + 1).drop_last() =~= pairs.take(i as int));
        }
        q.insert(pair.0.as_str(), pair.1.as_str());
        i += 1;
    }
    proof {
        assert(pairs.take(pieces.len() as int) =~= pairs);
    }
    q
}

/// Reads the path and the parameters of a request target.
pub fn parse_path_queries(target: &str) -> (r: (String, Queries))
    ensures
        (r.0@, r.1@) == parsed_target(target@),
        sorted(r.1@),
{
    let chars = to_chars(target);
    let mark = find_char(&chars, 0, '?');
    proof {
        assert(chars@.subrange(0, chars.len() as int) =~= chars@);
    }
    if mark < chars.len() {
        let path = from_chars(&chars, 0, mark);
        let rest = from_chars(&chars, mark + 1, chars.len());
        (path, parse_queries(rest.as_str()))
    } else {
        (String::from_str(target), Queries::new())
    }
}

/// The parameters of a decoded query: each key with the first of its values. A key
/// that comes again replaces the one before.
pub fn queries_from_hashmap(m: &Vec<(String, Vec<String>)>) -> (q: Queries)
    requires
        forall|i: int| 0 <= i < m.len() ==> (#[trigger] m[i]).1.len() > 0,
    ensures
        q@ == put_each(Seq::empty(), first_values(m@)),
        sorted(q@),
{
    let mut q = Queries::new();
    let ghost pairs = first_values(m@);
    let mut i: usize = 0;
    while i < m.len()
        invariant
            i <= m.len(),
            forall|k: int| 0 <= k < m.len() ==> (#[trigger] m[k]).1.len() > 0,
            pairs == first_values(m@),
            q@ == put_each(Seq::empty(), pairs.take(i as int)),
            sorted(q@),
        decreases m.len() - i,
    {
        proof {
            assert(pairs.take(i + 1).drop_last() =~= pairs.take(i as int));
        }
        q.insert(m[i].0.as_str(), m[i].1[0].as_str());
        i += 1;
    }
    proof {
        assert(pairs.take(m.len() as int) =~= pairs);
    }
    q
}

/// What the reserved parameters and the filters of a request say.
pub trait FetchQueries {
    /// The columns to return, if the request names any.
    fn select(&self) -> Option<Vec<String>>;

    /// The raw limit, if the request has one.
    fn limit(&self) -> Option<&str>;

    /// The raw offset, if the request has one.
    fn offset(&self) -> Option<&str>;

    /// The sort orders, if the request has an `order` parameter.
    fn order(&self) -> Option<Vec<Order>>;

    /// The filters of the request, each with its column.
    fn filters(&self) -> Result<Vec<(String, Filter)>, Error>;
}

impl FetchQueries for Queries {
    /// The value of `select`, split at each comma.
    fn select(&self) -> (columns: Option<Vec<String>>)
        ensures
            match columns {
                Some(c) => lookup(self@, "select"@) matches Some(v) && texts(c@) == split(v, ','),
                None => lookup(self@, "select"@) is None,
            },
    {
        match self.get(SELECT) {
            Some(val) => Some(split_on(val, ',')),
            None => None,
        }
    }

    /// The value of `limit`, as it was written.
    fn limit(&self) -> (limit: Option<&str>)
        ensures
            match limit {
                Some(v) => lookup(self@, "limit"@) == Some(v@),
                None => lookup(self@, "limit"@) is None,
            },
    {
        self.get(LIMIT)
    }

    /// The value of `offset`, as it was written.
    fn offset(&self) -> (offset: Option<&str>)
        ensures
            match offset {
                Some(v) => lookup(self@, "offset"@) == Some(v@),
                None => lookup(self@, "offset"@) is None,
            },
    {
        self.get(OFFSET)
    }

    /// The orders that the entries of `order` write, split at each comma; an entry
    /// that writes no order is dropped.
    fn order(&self) -> (orders: Option<Vec<Order>>)
        ensures
            match orders {
                Some(o) => lookup(self@, "order"@) matches Some(v) && order_models(o@)
                    == kept_orders(split(v, ',')),
                None => lookup(self@, "order"@) is None,
            },
    {
        match self.get(ORDER) {
            Some(val) => {
                let parts = split_on(val, ',');
                let mut orders: Vec<Order> = Vec::new();
                let mut i: usize = 0;
                while i < parts.len()
                    invariant
                        i <= parts.len(),
                        order_models(orders@) == kept_orders(texts(parts@).take(i as int)),
                    decreases parts.len() - i,
                {
                    proof {
                        assert(texts(parts@).take(i + 1).drop_last() =~= texts(parts@).take(
                            i as int,
                        ));
                    }
                    match Order::from_str(parts[i].as_str()) {
                        Ok(o) => {
                            orders.push(o);
                        },
                        Err(_) => {},
                    }
                    i += 1;
                }
                proof {
                    assert(texts(parts@).take(parts.len() as int) =~= texts(parts@));
                }
                Some(orders)
            },
            None => None,
        }
    }

    /// The filter of every parameter whose key is not reserved, in the order of the
    /// keys, or the error of the first that is no filter.
    fn filters(&self) -> (r: Result<Vec<(String, Filter)>, Error>)
        ensures
            match r {
                Ok(found) => filters_of(self@) == Ok::<Seq<(Seq<char>, FilterModel)>, ErrorModel>(
                    filter_models(found@),
                ),
                Err(e) => filters_of(self@) == Err::<Seq<(Seq<char>, FilterModel)>, ErrorModel>(
                    e@,
                ),
            },
    {
        let mut found: Vec<(String, Filter)> = Vec::new();
        let mut i: usize = 0;
        proof {
            assert(filter_models(found@) =~= Seq::empty());
        }
        while i < self.entries.len()
            invariant
                i <= self.entries.len(),
                filters_of(self@.take(i as int)) == Ok::<Seq<(Seq<char>, FilterModel)>, ErrorModel>(
                    filter_models(found@),
                ),
            decreases self.entries.len() - i,
        {
            let key = self.entries[i].0.as_str();
            proof {
                assert(self@.take(i + 1).drop_last() =~= self@.take(i as int));
            }
            if !(str_eq(key, SELECT) || str_eq(key, LIMIT) || str_eq(key, OFFSET) || str_eq(
                key,
                ORDER,
            )) {
                match Filter::new(key, self.entries[i].1.as_str()) {
                    Ok(f) => {
                        let ghost before = found@;
                        found.push((String::from_str(key), f));
                        proof {
                            assert(filter_models(found@) =~= filter_models(before).push(
                                (key@, f@),
                            ));
                        }
                    },
                    Err(e) => {
                        proof {
                            lemma_filters_of_fails(self@, i + 1);
                        }
                        return Err(e);
                    },
                }
            }
            i += 1;
        }
        proof {
            assert(self@.take(self.entries.len() as int) =~= self@);
        }
        Ok(found)
    }
}

/// Where the filters of the first entries fail, those of all entries fail the same.
pub proof fn lemma_filters_of_fails(entries: Seq<(Seq<char>, Seq<char>)>, n: int)
    requires
        0 <= n <= entries.len(),
        filters_of(entries.take(n)) is Err,
    ensures
        filters_of(entries) == filters_of(entries.take(n)),
    decreases entries.len() - n,
{
    if n == entries.len() {
        assert(entries.take(n) =~= entries);
    } else {
        assert(entries.drop_last().take(n) =~= entries.take(n));
        lemma_filters_of_fails(entries.drop_last(), n);
    }
}

} // verus!
