//! A select over one event: the minimal query form the early single-file
//! generator compiles.

use vstd::prelude::*;

verus! {

use crate::pipeline::TracepointEvent;
use crate::types::{Type, TypeV};

/// One selected field: attached to the event (with its index in the
/// context's argument array), or a system value computed by a helper.
#[derive(Debug)]
pub struct SelectField {
    pub _event: Option<TracepointEvent>,
    pub _off: Option<usize>,
    pub _name: String,
    pub _type: Type,
}

/// Mathematical model of a selected field.
pub struct SelectFieldV {
    pub from_event: bool,
    pub off: Option<int>,
    pub name: Seq<char>,
    pub ty: TypeV,
}

impl View for SelectField {
    type V = SelectFieldV;

    open spec fn view(&self) -> SelectFieldV {
        SelectFieldV {
            from_event: self._event is Some,
            off: match self._off {
                Some(o) => Some(o as int),
                None => None,
            },
            name: self._name@,
            ty: self._type@,
        }
    }
}

/// A select at a specific event.
#[derive(Debug)]
pub struct BpfSelect {
    pub event: TracepointEvent,
    pub fields: Vec<SelectField>,
}

} // verus!
