//! The untyped wire record: a tree of values as they arrive, before any
//! field has been given a type.

use vstd::prelude::*;
use vstd::string::*;

verus! {

/// The kind of a wire value, or the lack of one.
#[derive(Clone, Copy, Debug, PartialEq, Eq, Structural)]
pub enum ValueKind {
    /// The record holds no entry under the key.
    Absent,
    Null,
    Boolean,
    Integer,
    /// A number that is no integer.
    Fraction,
    Text,
    List,
    Record,
}

/// A wire value. A record keeps its entries in the order of arrival.
#[derive(Debug)]
pub enum RawValue {
    Null,
    Boolean(bool),
    Integer(i128),
    /// A number that is no integer; its value is never read.
    Fraction,
    Text(String),
    List(Vec<RawValue>),
    Record(Vec<RawEntry>),
}

/// An entry of a record: a key and the value under it.
#[derive(Debug)]
pub struct RawEntry {
    pub key: String,
    pub value: RawValue,
}

/// What a `RawValue` stands for.
pub enum Wire {
    Null,
    Boolean(bool),
    Integer(int),
    Fraction,
    Text(Seq<char>),
    List(Seq<Wire>),
    Record(Seq<WireEntry>),
}

/// What a `RawEntry` stands for.
pub struct WireEntry {
    pub key: Seq<char>,
    pub value: Wire,
}

impl View for RawValue {
    type V = Wire;

    open spec fn view(&self) -> Wire
        decreases self,
    {
        match self {
            RawValue::Null => Wire::Null,
            RawValue::Boolean(b) => Wire::Boolean(*b),
            RawValue::Integer(n) => Wire::Integer(*n as int),
            RawValue::Fraction => Wire::Fraction,
            RawValue::Text(s) => Wire::Text(s@),
            RawValue::List(items) => Wire::List(
                Seq::new(
                    items@.len(),
                    |i: int|
                        if 0 <= i < items@.len() {
                            items@[i].view()
                        } else {
                            Wire::Null
                        },
                ),
            ),
            RawValue::Record(entries) => Wire::Record(
                Seq::new(
                    entries@.len(),
                    |i: int|
                        if 0 <= i < entries@.len() {
                            WireEntry { key: entries@[i].key@, value: entries@[i].value.view() }
                        } else {
                            WireEntry { key: Seq::empty(), value: Wire::Null }
                        },
                ),
            ),
        }
    }
}

/// The entries of a record; a value that is no record has none.
pub open spec fn entries_of(value: Wire) -> Seq<WireEntry> {
    match value {
        Wire::Record(entries) => entries,
        _ => Seq::empty(),
    }
}

/// The value under `key`: that of the first entry with this key.
pub open spec fn find(entries: Seq<WireEntry>, key: Seq<char>) -> Option<Wire>
    decreases entries.len(),
{
    if entries.len() == 0 {
        None
    } else if entries[0].key == key {
        Some(entries[0].value)
    } else {
        find(entries.drop_first(), key)
    }
}

/// The kind of what a lookup found.
pub open spec fn kind_of(found: Option<Wire>) -> ValueKind {
    match found {
        None => ValueKind::Absent,
        Some(Wire::Null) => ValueKind::Null,
        Some(Wire::Boolean(_)) => ValueKind::Boolean,
        Some(Wire::Integer(_)) => ValueKind::Integer,
        Some(Wire::Fraction) => ValueKind::Fraction,
        Some(Wire::Text(_)) => ValueKind::Text,
        Some(Wire::List(_)) => ValueKind::List,
        Some(Wire::Record(_)) => ValueKind::Record,
    }
}

/// The view of what a lookup found.
pub open spec fn found_view(found: Option<&RawValue>) -> Option<Wire> {
    match found {
        Some(value) => Some(value@),
        None => None,
    }
}

/// The kind of what a lookup found.
pub fn kind_of_found(found: Option<&RawValue>) -> (kind: ValueKind)
    ensures
        kind == kind_of(found_view(found)),
{
    match found {
        None => ValueKind::Absent,
        Some(value) => value.kind(),
    }
}

impl RawValue {
    /// The kind of the value.
    pub fn kind(&self) -> (kind: ValueKind)
        ensures
            kind == kind_of(Some(self@)),
    {
        match self {
            RawValue::Null => ValueKind::Null,
            RawValue::Boolean(_) => ValueKind::Boolean,
            RawValue::Integer(_) => ValueKind::Integer,
            RawValue::Fraction => ValueKind::Fraction,
            RawValue::Text(_) => ValueKind::Text,
            RawValue::List(_) => ValueKind::List,
            RawValue::Record(_) => ValueKind::Record,
        }
    }

    /// The value under `key` in this record: that of the first entry with
    /// this key. A value that is no record holds nothing.
    pub fn get(&self, key: &str) -> (found: Option<&RawValue>)
        ensures
            found_view(found) == find(entries_of(self@), key@),
    {
        match self {
            RawValue::Record(entries) => {
                let wanted = String::from_str(key);
                let ghost all = entries_of(self@);
                proof {
                    assert(all.skip(0) =~= all);
                }
                let mut i: usize = 0;
                while i < entries.len()
                    invariant
                        i <= entries.len(),
                        wanted@ == key@,
                        all == entries_of(self@),
                        all.len() == entries@.len(),
                        forall|j: int|
                            0 <= j < all.len() ==> #[trigger] all[j] == (WireEntry {
                                key: entries@[j].key@,
                                value: entries@[j].value@,
                            }),
                        find(all, key@) == find(all.skip(i as int), key@),
                    decreases entries.len() - i,
                {
                    proof {
                        let rest = all.skip(i as int);
                        assert(rest[0] == all[i as int]);
                        assert(rest.drop_first() =~= all.skip(i + 1));
                    }
                    if entries[i].key == wanted {
                        return Some(&entries[i].value);
                    }
                    i += 1;
                }
                None
            },
            _ => None,
        }
    }
}

} // verus!
