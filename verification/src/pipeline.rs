//! A hand-assembled event pipeline: events with per-event filters and
//! between-event transformations.

use vstd::prelude::*;

verus! {

/// A named, typed field of a pipeline stage.
#[derive(Debug)]
pub struct Field {
    pub _name: String,
    pub _type: String,
}

/// A tracepoint addressed by its section path.
#[derive(Debug)]
pub struct TracepointEvent {
    pub path: String,
}

impl TracepointEvent {
    /// The ELF section the event's program attaches through.
    pub fn section_name(&self) -> (r: String)
        ensures
            r@ == self.path@,
    {
        self.path.clone()
    }
}

/// Binary operators of filters and transformations.
#[derive(Debug, Clone, Copy, PartialEq, Eq, Structural)]
pub enum BinOp {
    Add,
    Sub,
    Mul,
    Div,
    Eq,
    NotEq,
}

/// A predicate over two fields.
#[derive(Debug)]
pub struct Filter {
    pub op: BinOp,
    pub arg1: Field,
    pub arg2: Field,
}

/// A named computation over two fields.
#[derive(Debug)]
pub struct Transformation {
    pub name: String,
    pub op: BinOp,
    pub arg1: Field,
    pub arg2: Field,
}

/// A pipeline: one filter list per event, one transformation between each
/// consecutive pair of events, and per-field mappings that are either empty
/// or cover every event.
#[derive(Debug)]
pub struct Pipeline {
    pub events: Vec<TracepointEvent>,
    pub fields: Vec<(Field, Vec<Field>)>,
    pub filters: Vec<Vec<Filter>>,
    pub transformations: Vec<Filter>,
}

/// The structural validity a pipeline's parts must satisfy.
pub open spec fn pipeline_shape_ok(
    n_events: int,
    fields: Seq<(Field, Vec<Field>)>,
    n_filters: int,
    n_transformations: int,
) -> bool {
    &&& n_filters == n_events
    &&& n_transformations == n_events + 1
    &&& forall|i: int|
        0 <= i < fields.len() ==> ((#[trigger] fields[i]).1@.len() == 0 || fields[i].1@.len()
            == n_events)
}

impl Pipeline {
    /// Assembles a pipeline after checking its shape: as many filter lists
    /// as events, one more transformation than events, and field mappings
    /// that are empty or cover every event.
    pub fn new(
        events: Vec<TracepointEvent>,
        fields: Vec<(Field, Vec<Field>)>,
        filters: Vec<Vec<Filter>>,
        transformations: Vec<Filter>,
    ) -> (r: Result<Pipeline, crate::errors::EbqlError>)
        ensures
            r is Ok <==> pipeline_shape_ok(
                events@.len() as int,
                fields@,
                filters@.len() as int,
                transformations@.len() as int,
            ),
            r matches Ok(p) ==> p.events@.len() == events@.len(),
            r matches Err(e) ==> e is Plan,
    {
        let n_events = events.len();
        if n_events != filters.len() {
            return Err(crate::errors::EbqlError::Plan("invalid number of filters".to_owned()));
        }
        let t_len = transformations.len();
        if n_events == usize::MAX || t_len != n_events + 1 {
            return Err(
                crate::errors::EbqlError::Plan("invalid number of transformations".to_owned()),
            );
        }
        let mut i: usize = 0;
        while i < fields.len()
            invariant
                i <= fields@.len(),
                n_events == events@.len(),
                filters@.len() == n_events,
                transformations@.len() == n_events + 1,
                forall|j: int|
                    0 <= j < i ==> ((#[trigger] fields@[j]).1@.len() == 0 || fields@[j].1@.len()
                        == events@.len()),
            decreases fields@.len() - i,
        {
            let m = fields[i].1.len();
            if m != 0 && m != n_events {
                proof {
                    assert((#[trigger] fields@[i as int]).1@.len() != 0 && fields@[i as int].1@.len()
                        != events@.len());
                }
                return Err(
                    crate::errors::EbqlError::Plan("invalid number of field mappings".to_owned()),
                );
            }
            i = i + 1;
        }
        proof {
            assert(transformations@.len() == events@.len() + 1);
            assert(filters@.len() == events@.len());
            assert(forall|j: int|
                0 <= j < fields@.len() ==> ((#[trigger] fields@[j]).1@.len() == 0
                    || fields@[j].1@.len() == events@.len()));
        }
        Ok(Pipeline { events, fields, filters, transformations })
    }

    /// The number of events in the pipeline.
    pub fn num_events(&self) -> (r: usize)
        ensures
            r == self.events@.len(),
    {
        self.events.len()
    }
}

} // verus!
