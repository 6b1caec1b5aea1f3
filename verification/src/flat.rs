//! The flat record of one port, and the passage between a buffer of such
//! records and `Ports`.

use crate::ports::{has_name, lemma_map_of_names, map_of, Ports};
use crate::text::{as_c_string, c_string, c_text, lemma_c_string_round_trip, read_c_text};
use crate::value::{
    as_c_port_type, as_c_port_value, lemma_flat_round_trip, CPyPortType, CPyPortValue, Value,
};
use vstd::prelude::*;
use vstd::string::*;

verus! {

/// One port as it crosses the boundary: the name as a C string, the
/// discriminant, and the payload.
///
/// `name` holds the bytes in front of the terminator, and is `None` for a
/// null pointer.
#[derive(Clone, Debug, PartialEq, Eq)]
pub struct CPyPort {
    pub name: Option<Vec<u8>>,
    pub type_: CPyPortType,
    pub value: CPyPortValue,
}

/// What a `CPyPort` holds.
pub struct FlatPort {
    pub name: Option<Seq<u8>>,
    pub type_: CPyPortType,
    pub value: CPyPortValue,
}

impl View for CPyPort {
    type V = FlatPort;

    open spec fn view(&self) -> FlatPort {
        FlatPort {
            name: match self.name {
                Some(bytes) => Some(bytes@),
                None => None,
            },
            type_: self.type_,
            value: self.value,
        }
    }
}

/// What a buffer of records holds.
pub open spec fn records(c_ports: Seq<CPyPort>) -> Seq<FlatPort> {
    Seq::new(c_ports.len(), |i: int| c_ports[i]@)
}

/// The flat record of a named value.
pub open spec fn flat_port(name: Seq<char>, value: Value) -> FlatPort {
    FlatPort { name: c_string(name), type_: value.kind(), value: value.payload() }
}

/// The flat records of a list of named values, one for one.
pub open spec fn flatten(entries: Seq<(Seq<char>, Value)>) -> Seq<FlatPort> {
    Seq::new(entries.len(), |i: int| flat_port(entries[i].0, entries[i].1))
}

/// The named value that a flat record stands for, where its name can be read.
pub open spec fn named_value(record: FlatPort) -> (Seq<char>, Value) {
    (c_text(record.name)->0, Value::of_flat(record.type_, record.value))
}

/// Every name can be read: none is null, and each is UTF-8.
pub open spec fn readable(records: Seq<FlatPort>) -> bool {
    forall|i: int| 0 <= i < records.len() ==> c_text(#[trigger] records[i].name) is Some
}

/// The mapping that a buffer of records stands for: the records written one
/// after the other, or nothing at all if one name cannot be read.
pub open spec fn unflatten(records: Seq<FlatPort>) -> Option<Map<Seq<char>, Value>> {
    if readable(records) {
        Some(map_of(Seq::new(records.len(), |i: int| named_value(records[i]))))
    } else {
        None
    }
}

/// Reads the value of a flat record: the member of the payload that the
/// discriminant names.
pub fn from_c_port(c_port: &CPyPort) -> (value: Value)
    ensures
        value == Value::of_flat(c_port.type_, c_port.value),
{
    match c_port.type_ {
        CPyPortType::Float => Value::Float(c_port.value.d),
        CPyPortType::Int => Value::Integer(c_port.value.i),
        CPyPortType::Bool => Value::Bool(c_port.value.b),
    }
}

/// Lays the ports out as a buffer of flat records, one for each name, each
/// with a copy of the name of its own.
pub fn as_c_ports(ports: &Ports) -> (v: Vec<CPyPort>)
    ensures
        records(v@) == flatten(ports.entries()),
{
    let mut v: Vec<CPyPort> = Vec::new();
    let n = ports.len();
    let mut i: usize = 0;
    while i < n
        invariant
            i <= n,
            n == ports.entries().len(),
            v@.len() == i,
            forall|j: int|
                0 <= j < i ==> (#[trigger] v@[j])@ == flat_port(
                    ports.entries()[j].0,
                    ports.entries()[j].1,
                ),
        decreases n - i,
    {
        let value = ports.value_at(i);
        let c_port = CPyPort {
            name: as_c_string(String::from_str(ports.name_at(i))),
            type_: as_c_port_type(&value),
            value: as_c_port_value(&value),
        };
        v.push(c_port);
        i += 1;
    }
    v
}

/// Builds the ports that a buffer of flat records stands for. The buffer is
/// used up. If one name is null or is not UTF-8 there is no result, not even
/// a part of one.
pub fn from_c_ports(c_ports: Vec<CPyPort>) -> (r: Option<Ports>)
    ensures
        match r {
            Some(ports) => unflatten(records(c_ports@)) == Some(ports@) && ports.wf(),
            None => unflatten(records(c_ports@)) is None,
        },
{
    let mut ports = Ports::new();
    let ghost recs = records(c_ports@);
    let ghost named = Seq::new(recs.len(), |i: int| named_value(recs[i]));
    let mut i: usize = 0;
    while i < c_ports.len()
        invariant
            i <= c_ports@.len(),
            recs == records(c_ports@),
            named == Seq::new(recs.len(), |k: int| named_value(recs[k])),
            forall|j: int| 0 <= j < i ==> c_text(#[trigger] recs[j].name) is Some,
            ports@ == map_of(named.take(i as int)),
            ports.wf(),
        decreases c_ports@.len() - i,
    {
        let port = &c_ports[i];
        let bytes: Option<&[u8]> = match &port.name {
            Some(b) => Some(b.as_slice()),
            None => None,
        };
        let name = match read_c_text(bytes) {
            Some(s) => s,
            None => {
                assert(c_text(recs[i as int].name) is None);
                return None;
            },
        };
        let value = from_c_port(port);
        ports.insert(String::from_str(name), value);
        proof {
            assert(named.take(i + 1).drop_last() =~= named.take(i as int));
        }
        i += 1;
    }
    assert(named.take(i as int) =~= named);
    Some(ports)
}

/// A mapping whose names have no NUL inside comes back from its flat form
/// as it went in.
pub proof fn lemma_flatten_round_trip(entries: Seq<(Seq<char>, Value)>)
    requires
        forall|i: int| 0 <= i < entries.len() ==> c_string(#[trigger] entries[i].0) is Some,
    ensures
        unflatten(flatten(entries)) == Some(map_of(entries)),
{
    let flat = flatten(entries);
    assert forall|i: int| 0 <= i < flat.len() implies c_text(#[trigger] flat[i].name) is Some
        && named_value(flat[i]) == entries[i] by {
        lemma_c_string_round_trip(entries[i].0);
        lemma_flat_round_trip(entries[i].1);
    }
    assert(Seq::new(flat.len(), |i: int| named_value(flat[i])) =~= entries);
}

/// Ports whose names have no NUL inside come back from `as_c_ports` and
/// `from_c_ports` as the mapping that they were.
pub proof fn lemma_ports_round_trip(ports: Ports)
    requires
        forall|name: Seq<char>| ports@.contains_key(name) ==> c_string(name) is Some,
    ensures
        unflatten(flatten(ports.entries())) == Some(ports@),
{
    let entries = ports.entries();
    assert forall|i: int| 0 <= i < entries.len() implies c_string(#[trigger] entries[i].0)
        is Some by {
        lemma_map_of_names(entries, entries[i].0);
        assert(ports@.contains_key(entries[i].0));
    }
    lemma_flatten_round_trip(entries);
}

} // verus!
