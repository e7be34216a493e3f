//! BPF map representations: definitions the generated program declares.

use vstd::prelude::*;

verus! {

use crate::bpf_struct::Struct;
use crate::types::Type;

/// The output ring buffer of one generated program: entries are records of
/// the given struct representation.
#[derive(Debug)]
pub struct RingBuf {
    pub name: String,
    pub s_repr: Struct,
    pub max_entries: u64,
}

/// A map definition to be written into the generated source.
#[derive(Debug)]
pub struct MapDef {
    pub name: String,
    pub map_type: MapType,
    pub key_type: Type,
    pub value_type: String,
    pub max_entries: u64,
    pub flags: MapDefFlags,
    /// A filesystem path identifying a map shared across processes.
    pub pin: Option<String>,
}

/// The map kinds the generator can declare.
#[derive(Clone, Copy, Debug, PartialEq, Eq, Structural)]
pub enum MapType {
    Hash,
    Array,
    RingBuffer,
}

/// The C-level type constant of each map kind.
pub open spec fn spec_map_type_name(t: MapType) -> Seq<char> {
    match t {
        MapType::Hash => "BPF_MAP_TYPE_HASH"@,
        MapType::Array => "BPF_MAP_TYPE_ARRAY"@,
        MapType::RingBuffer => "BPF_MAP_TYPE_RINGBUF"@,
    }
}

impl MapType {
    /// The C-level type constant naming this map kind.
    pub fn c_name(&self) -> (r: &'static str)
        ensures
            r@ == spec_map_type_name(*self),
    {
        match self {
            MapType::Hash => "BPF_MAP_TYPE_HASH",
            MapType::Array => "BPF_MAP_TYPE_ARRAY",
            MapType::RingBuffer => "BPF_MAP_TYPE_RINGBUF",
        }
    }
}

/// Map creation flags, a bit set.
#[derive(Clone, Copy, Debug, PartialEq, Eq, Structural)]
pub struct MapDefFlags {
    pub val: u64,
}

impl MapDefFlags {
    /// No flags set.
    pub fn new() -> (r: Self)
        ensures
            r.val == 0,
    {
        MapDefFlags { val: 0 }
    }

    /// Disables preallocation (`BPF_F_NO_PREALLOC`, bit value 1).
    pub fn no_prealloc(self) -> (r: Self)
        ensures
            r.val == self.val | 1u64,
    {
        MapDefFlags { val: self.val | 1 }
    }

    /// Allows userspace mapping (`BPF_F_MMAPABLE`, bit value 2048).
    pub fn mmapable(self) -> (r: Self)
        ensures
            r.val == self.val | 2048u64,
    {
        MapDefFlags { val: self.val | 2048 }
    }
}

} // verus!
