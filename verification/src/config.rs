//! What a registry is built with: the connection timeout and the tables to serve.

use crate::text::{find_char, split, to_chars};
use vstd::prelude::*;
use vstd::string::StrSliceExecFns;

verus! {

/// The connection timeout in seconds, when none is set.
pub const DEFAULT_CONNECTION_TIMEOUT: u64 = 5;

/// The texts of a sequence of string slices.
pub open spec fn slices<'a>(v: Seq<&'a str>) -> Seq<Seq<char>> {
    Seq::new(v.len(), |i: int| v[i]@)
}

/// The settings of a registry.
#[derive(Debug, Clone)]
pub struct Config<'r> {
    timeout_: u64,
    excluded_: Vec<&'r str>,
    included_: Vec<&'r str>,
}

/// A [`Config`] with its names as character sequences.
pub struct ConfigModel {
    pub timeout: u64,
    pub excluded: Seq<Seq<char>>,
    pub included: Seq<Seq<char>>,
}

impl<'r> View for Config<'r> {
    type V = ConfigModel;

    closed spec fn view(&self) -> ConfigModel {
        ConfigModel {
            timeout: self.timeout_,
            excluded: slices(self.excluded_@),
            included: slices(self.included_@),
        }
    }
}

/// The message for settings that both include and exclude tables.
pub open spec fn both_lists_message() -> Seq<char> {
    "cannot specify both excluded and included schemas"@
}

impl ConfigModel {
    /// Whether the settings both include and exclude tables, which is refused.
    pub open spec fn has_both_lists(self) -> bool {
        self.excluded.len() != 0 && self.included.len() != 0
    }
}

/// The settings of a registry that nothing was set of.
pub open spec fn default_config() -> ConfigModel {
    ConfigModel { timeout: 5, excluded: Seq::empty(), included: Seq::empty() }
}

impl<'r> Config<'r> {
    /// A builder that starts from the default settings.
    pub fn builder() -> (b: Builder<'r>)
        ensures
            b@ == default_config(),
    {
        Builder { config: Config::default() }
    }

    /// The connection timeout in seconds.
    pub fn timeout(&self) -> (t: u64)
        ensures
            t == self@.timeout,
    {
        self.timeout_
    }

    /// The tables that are not served.
    pub fn excluded(&self) -> (names: &[&str])
        ensures
            slices(names@) == self@.excluded,
    {
        self.excluded_.as_slice()
    }

    /// The only tables that are served, when there are any.
    pub fn included(&self) -> (names: &[&str])
        ensures
            slices(names@) == self@.included,
    {
        self.included_.as_slice()
    }

    /// Refuses settings that both include and exclude tables.
    pub fn check(&self) -> (r: Result<(), String>)
        ensures
            match r {
                Ok(_) => !self@.has_both_lists(),
                Err(message) => self@.has_both_lists() && message@ == both_lists_message(),
            },
    {
        if self.excluded_.len() != 0 && self.included_.len() != 0 {
            Err(String::from_str("cannot specify both excluded and included schemas"))
        } else {
            Ok(())
        }
    }
}

impl<'r> Default for Config<'r> {
    fn default() -> (c: Config<'r>)
        ensures
            c@ == default_config(),
    {
        let c = Config {
            timeout_: DEFAULT_CONNECTION_TIMEOUT,
            excluded_: Vec::new(),
            included_: Vec::new(),
        };
        proof {
            assert(c@.excluded =~= Seq::<Seq<char>>::empty());
            assert(c@.included =~= Seq::<Seq<char>>::empty());
        }
        c
    }
}

/// Settings in the making.
pub struct Builder<'r> {
    config: Config<'r>,
}

impl<'r> View for Builder<'r> {
    type V = ConfigModel;

    closed spec fn view(&self) -> ConfigModel {
        self.config@
    }
}

impl<'r> Builder<'r> {
    /// The settings as they were built.
    pub fn build(self) -> (c: Config<'r>)
        ensures
            c@ == self@,
    {
        self.config
    }

    /// Sets the connection timeout in seconds.
    pub fn timeout(self, timeout: u64) -> (b: Builder<'r>)
        ensures
            b@ == (ConfigModel { timeout, ..self@ }),
    {
        let mut b = self;
        b.config.timeout_ = timeout;
        b
    }

    /// Sets the tables that are not served.
    pub fn excluded(self, excluded: Vec<&'r str>) -> (b: Builder<'r>)
        ensures
            b@ == (ConfigModel { excluded: slices(excluded@), ..self@ }),
    {
        let mut b = self;
        b.config.excluded_ = excluded;
        b
    }

    /// Sets the only tables that are served.
    pub fn included(self, included: Vec<&'r str>) -> (b: Builder<'r>)
        ensures
            b@ == (ConfigModel { included: slices(included@), ..self@ }),
    {
        let mut b = self;
        b.config.included_ = included;
        b
    }
}

/// The pieces that are not empty, in their order.
pub open spec fn without_empty(parts: Seq<Seq<char>>) -> Seq<Seq<char>>
    decreases parts.len(),
{
    if parts.len() == 0 {
        Seq::empty()
    } else {
        let rest = without_empty(parts.drop_last());
        if parts.last().len() == 0 {
            rest
        } else {
            rest.push(parts.last())
        }
    }
}

/// The names of a list written with commas: the pieces between the commas that are
/// not empty; none where there is no list.
pub open spec fn listed(l: Option<Seq<char>>) -> Seq<Seq<char>> {
    match l {
        Some(s) => without_empty(split(s, ',')),
        None => Seq::empty(),
    }
}

/// The names of a list written with commas.
pub fn split_list<'a>(l: Option<&'a String>) -> (names: Vec<&'a str>)
    ensures
        slices(names@) == listed(
            match l {
                Some(s) => Some(s@),
                None => None,
            },
        ),
{
    let mut names: Vec<&'a str> = Vec::new();
    let s: &'a str = match l {
        Some(s) => s.as_str(),
        None => {
            return names;
        },
    };
    let chars = to_chars(s);
    let mut start: usize = 0;
    let ghost mut done: Seq<Seq<char>> = Seq::empty();
    proof {
        assert(chars@.subrange(0, chars.len() as int) =~= chars@);
    }
    loop
        invariant_except_break
            start <= chars.len(),
            chars@ == s@,
            slices(names@) == without_empty(done),
            split(s@, ',') == done + split(chars@.subrange(start as int, chars.len() as int), ','),
        ensures
            slices(names@) == without_empty(split(s@, ',')),
        decreases chars.len() - start,
    {
        let at = find_char(&chars, start, ',');
        let ghost rest = chars@.subrange(start as int, chars.len() as int);
        let ghost piece = chars@.subrange(start as int, at as int);
        proof {
            assert(rest.subrange(0, at - start) =~= piece);
            assert(done.push(piece).drop_last() =~= done);
        }
        if at > start {
            names.push(s.substring_char(start, at));
        }
        proof {
            done = done.push(piece);
        }
        if at == chars.len() {
            proof {
                assert(done =~= split(s@, ','));
            }
            break;
        }
        proof {
            assert(rest.subrange(at - start + 1, rest.len() as int) =~= chars@.subrange(
                at + 1,
                chars.len() as int,
            ));
        }
        start = at + 1;
    }
    names
}

} // verus!
