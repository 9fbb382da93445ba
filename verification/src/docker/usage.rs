//! How much disk each volume is using.
//!
//! Docker's volume list never carries this: `GET /volumes` returns no usage
//! data at all, and the only endpoint that computes it is `/system/df`, which
//! walks every volume directory. On a machine with a large build cache that
//! takes tens of seconds, so this is never on the poll loop — the user asks for
//! it, once, and the answer is cached until they ask again.

use vstd::prelude::*;

use crate::docker::{friendly, friendly_error, ApiError};
use crate::names::NameMap;
use crate::text::{owned, same};

verus! {

broadcast use vstd::string::group_string_axioms;

/// A piece of JSON, as far as the report is read.
#[derive(Debug)]
pub enum Json {
    /// A whole number that fits.
    Integer(i64),
    Text(String),
    Object(Vec<(String, Json)>),
    /// Anything else: nothing, a truth value, a list, another number.
    Other,
}

/// The first of some fields, from the `i`th on, that is called `name`.
pub open spec fn field_in(fields: Seq<(String, Json)>, name: Seq<char>, i: int) -> Option<Json>
    decreases fields.len() - i,
{
    if i >= fields.len() {
        None
    } else if fields[i].0@ == name {
        Some(fields[i].1)
    } else {
        field_in(fields, name, i + 1)
    }
}

impl Json {
    /// The field called `name`, if this is an object that has one.
    pub open spec fn field(self, name: Seq<char>) -> Option<Json> {
        match self {
            Json::Object(fields) => field_in(fields@, name, 0),
            _ => None,
        }
    }

    /// The field called `name`, if this is an object that has one.
    pub fn get(&self, name: &str) -> (out: Option<&Json>)
        ensures
            match out {
                Some(j) => self.field(name@) == Some(*j),
                None => self.field(name@) is None,
            },
    {
        match self {
            Json::Object(fields) => {
                let mut i: usize = 0;
                while i < fields.len()
                    invariant
                        i <= fields.len(),
                        field_in(fields@, name@, 0) == field_in(fields@, name@, i as int),
                        self.field(name@) == field_in(fields@, name@, 0),
                    decreases fields.len() - i,
                {
                    if same(&fields[i].0, name) {
                        return Some(&fields[i].1);
                    }
                    i += 1;
                }
                None
            },
            _ => None,
        }
    }
}

/// What the report says of the volumes.
#[derive(Debug)]
pub struct VolumesDiskUsage {
    pub items: Option<Vec<Json>>,
}

/// The name and size that an item gives, if it gives both. A negative size is
/// Docker's way of saying it didn't compute one — a driver that can't be
/// measured, usually. Those are left unknown rather than reported as empty.
pub open spec fn size_of(item: Json) -> Option<(Seq<char>, i64)> {
    match (item.field("Name"@), item.field("UsageData"@)) {
        (Some(Json::Text(name)), Some(data)) => match data.field("Size"@) {
            Some(Json::Integer(size)) => if size >= 0 {
                Some((name@, size))
            } else {
                None
            },
            _ => None,
        },
        _ => None,
    }
}

/// The sizes that the first `n` items give. A name given twice has its last.
pub open spec fn sizes_in(items: Seq<Json>, n: int) -> Map<Seq<char>, i64>
    decreases n,
{
    if n <= 0 {
        Map::empty()
    } else {
        match size_of(items[n - 1]) {
            Some((name, size)) => sizes_in(items, n - 1).insert(name, size),
            None => sizes_in(items, n - 1),
        }
    }
}

/// The sizes that a report gives.
pub open spec fn sizes_of(usage: Option<VolumesDiskUsage>) -> Map<Seq<char>, i64> {
    match usage {
        Some(u) => match u.items {
            Some(items) => sizes_in(items@, items@.len() as int),
            None => Map::empty(),
        },
        None => Map::empty(),
    }
}

fn read_size(item: &Json) -> (out: Option<(String, i64)>)
    ensures
        match out {
            Some((name, size)) => size_of(*item) == Some((name@, size)),
            None => size_of(*item) is None,
        },
{
    match (item.get("Name"), item.get("UsageData")) {
        (Some(Json::Text(name)), Some(data)) => match data.get("Size") {
            Some(Json::Integer(size)) => if *size >= 0 {
                Some((owned(name), *size))
            } else {
                None
            },
            _ => None,
        },
        _ => None,
    }
}

/// Pull `name → size` out of the report.
///
/// The volume items are bare JSON, so this reads the two fields it needs by
/// name. Anything shaped differently is skipped rather than guessed at: a
/// missing size is a volume we don't know the size of, which the table already
/// knows how to say.
pub fn sizes_from(usage: Option<VolumesDiskUsage>) -> (out: NameMap<i64>)
    ensures
        out@ == sizes_of(usage),
{
    let mut out: NameMap<i64> = NameMap::new();
    let items = match usage {
        Some(u) => match u.items {
            Some(items) => items,
            None => {
                return out;
            },
        },
        None => {
            return out;
        },
    };
    let mut i: usize = 0;
    while i < items.len()
        invariant
            i <= items.len(),
            out@ == sizes_in(items@, i as int),
        decreases items.len() - i,
    {
        if let Some((name, size)) = read_size(&items[i]) {
            out.insert(name, size);
        }
        i += 1;
    }
    out
}

/// What came of a measurement.
pub enum Measured {
    Sizes(NameMap<i64>),
    Failed(String),
}

/// What to report of an answer. Older daemons report volumes only under a
/// legacy field, so there is nothing to read; saying that beats reporting every
/// volume as unmeasured.
pub fn measured(answer: Result<Option<VolumesDiskUsage>, ApiError>) -> (out: Measured)
    ensures
        match answer {
            Ok(Some(usage)) => out matches Measured::Sizes(sizes) && sizes@ == sizes_of(
                Some(usage),
            ),
            Ok(None) => out matches Measured::Failed(text) && text@
                == "this daemon's API doesn't report volume usage"@,
            Err(e) => out matches Measured::Failed(text) && text@ == friendly(e.deep_view()),
        },
{
    match answer {
        Ok(Some(usage)) => Measured::Sizes(sizes_from(Some(usage))),
        Ok(None) => Measured::Failed(owned("this daemon's API doesn't report volume usage")),
        Err(e) => Measured::Failed(friendly_error(&e)),
    }
}

/// No size that is reported is negative.
pub proof fn sizes_are_counts(usage: Option<VolumesDiskUsage>, name: Seq<char>)
    requires
        sizes_of(usage).dom().contains(name),
    ensures
        sizes_of(usage)[name] >= 0,
{
    let items = usage->0.items->0@;
    counts_among(items, items.len() as int, name);
}

proof fn counts_among(items: Seq<Json>, n: int, name: Seq<char>)
    requires
        sizes_in(items, n).dom().contains(name),
    ensures
        sizes_in(items, n)[name] >= 0,
    decreases n,
{
    if n > 0 && sizes_in(items, n - 1).dom().contains(name) {
        counts_among(items, n - 1, name);
    }
}

} // verus!
