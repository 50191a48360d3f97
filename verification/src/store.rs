//! The parameters of one plugin instance, held row by row of the plugin
//! type's table and reached by index: the accessors that a plugin type's
//! reflection answers with.

use vstd::prelude::*;
use crate::derive::ParamTable;
use crate::error::Violation;
use crate::kinds::ParamType;
use crate::marshal::{
    decode_encode_round_trip, decode_gives_kind, decode_spec, encode_spec, kind_matches, ParamValue, ParamValueView,
    RawSlotView,
};

verus! {

/// The value that a parameter of the given kind starts with: false, zero,
/// black, the origin, the empty text.
pub open spec fn initial_value(kind: ParamType) -> ParamValueView {
    match kind {
        ParamType::Bool => ParamValueView::Bool(false),
        ParamType::Double => ParamValueView::Double(0),
        ParamType::Color => ParamValueView::Color { r: 0, g: 0, b: 0 },
        ParamType::Position => ParamValueView::Position { x: 0, y: 0 },
        ParamType::String => ParamValueView::String(Seq::empty()),
    }
}

impl ParamValue {
    /// The value that a parameter of the given kind starts with.
    pub fn initial(kind: ParamType) -> (value: ParamValue)
        ensures
            value@ == initial_value(kind),
            value@.kind() == kind,
            value@.wf(),
    {
        match kind {
            ParamType::Bool => ParamValue::Bool(false),
            ParamType::Double => ParamValue::Double(0),
            ParamType::Color => ParamValue::Color { r: 0, g: 0, b: 0 },
            ParamType::Position => ParamValue::Position { x: 0, y: 0 },
            ParamType::String => ParamValue::String(Vec::new()),
        }
    }

    /// A copy of the value.
    pub fn duplicate(&self) -> (copy: ParamValue)
        ensures
            copy@ == self@,
    {
        match self {
            ParamValue::Bool(b) => ParamValue::Bool(*b),
            ParamValue::Double(bits) => ParamValue::Double(*bits),
            ParamValue::Color { r, g, b } => ParamValue::Color { r: *r, g: *g, b: *b },
            ParamValue::Position { x, y } => ParamValue::Position { x: *x, y: *y },
            ParamValue::String(text) => ParamValue::String(text.clone()),
        }
    }
}

/// The values of the parameters of one instance, in the order of the table.
pub struct ParamStore {
    values: Vec<ParamValue>,
}

impl View for ParamStore {
    type V = Seq<ParamValueView>;

    closed spec fn view(&self) -> Seq<ParamValueView> {
        Seq::new(self.values@.len(), |i: int| self.values@[i]@)
    }
}

/// What reading the parameter with the given index gives.
pub open spec fn read_spec(values: Seq<ParamValueView>, index: usize) -> Result<ParamValueView, Violation> {
    if index < values.len() {
        Ok(values[index as int])
    } else {
        Err(Violation::IndexOutOfRange)
    }
}

/// The values after a value was written to the parameter with the given
/// index: the index must name a parameter, and the value be of its kind.
pub open spec fn write_spec(values: Seq<ParamValueView>, index: usize, value: ParamValueView) -> Result<Seq<ParamValueView>, Violation> {
    if index >= values.len() {
        Err(Violation::IndexOutOfRange)
    } else if values[index as int].kind() != value.kind() {
        Err(Violation::KindMismatch)
    } else {
        Ok(values.update(index as int, value))
    }
}

impl ParamStore {
    /// The parameters of a new instance of the plugin type with the given
    /// table: one for each row, of the row's kind, with its initial value.
    pub fn new(table: &ParamTable) -> (store: ParamStore)
        ensures
            store@.len() == table.params@.len(),
            forall|i: int| 0 <= i < store@.len() ==> #[trigger] store@[i] == initial_value(table.params@[i].kind),
    {
        let mut values: Vec<ParamValue> = Vec::new();
        let mut i: usize = 0;
        while i < table.params.len()
            invariant
                i <= table.params@.len(),
                values@.len() == i,
                forall|j: int| 0 <= j < i ==> (#[trigger] values@[j])@ == initial_value(table.params@[j].kind),
            decreases table.params@.len() - i,
        {
            values.push(ParamValue::initial(table.params[i].kind));
            i = i + 1;
        }
        ParamStore { values }
    }

    /// The number of parameters.
    pub fn count(&self) -> (count: usize)
        ensures
            count == self@.len(),
    {
        self.values.len()
    }

    /// The kind of the parameter with the given index.
    pub fn kind(&self, index: usize) -> (kind: Result<ParamType, Violation>)
        ensures
            kind == match read_spec(self@, index) {
                Ok(value) => Ok::<ParamType, Violation>(value.kind()),
                Err(e) => Err(e),
            },
    {
        if index < self.values.len() {
            Ok(self.values[index].kind())
        } else {
            Err(Violation::IndexOutOfRange)
        }
    }

    /// The value of the parameter with the given index.
    pub fn read(&self, index: usize) -> (value: Result<ParamValue, Violation>)
        ensures
            match value {
                Ok(v) => read_spec(self@, index) == Ok::<ParamValueView, Violation>(v@),
                Err(e) => read_spec(self@, index) == Err::<ParamValueView, Violation>(e),
            },
    {
        if index < self.values.len() {
            Ok(self.values[index].duplicate())
        } else {
            Err(Violation::IndexOutOfRange)
        }
    }

    /// Stores a value in the parameter with the given index. An error leaves
    /// every parameter as it was.
    pub fn write(&mut self, index: usize, value: ParamValue) -> (done: Result<(), Violation>)
        ensures
            match done {
                Ok(()) => write_spec(old(self)@, index, value@) == Ok::<Seq<ParamValueView>, Violation>(final(self)@),
                Err(e) => write_spec(old(self)@, index, value@) == Err::<Seq<ParamValueView>, Violation>(e) && final(self)@ == old(self)@,
            },
    {
        if index >= self.values.len() {
            return Err(Violation::IndexOutOfRange);
        }
        if !kind_matches(self.values[index].kind(), value.kind()) {
            return Err(Violation::KindMismatch);
        }
        self.values.set(index, value);
        assert(self@ == old(self)@.update(index as int, value@));
        Ok(())
    }
}

/// What was written to a parameter is what is read from it, and a write
/// to one parameter leaves what is read from every other as it was.
pub proof fn read_after_write(values: Seq<ParamValueView>, index: usize, value: ParamValueView, other: usize)
    requires
        write_spec(values, index, value) is Ok,
    ensures
        read_spec((write_spec(values, index, value)->Ok_0), index) == Ok::<ParamValueView, Violation>(value),
        other != index ==> read_spec((write_spec(values, index, value)->Ok_0), other) == read_spec(values, other),
{
}

/// A write keeps the number of parameters and the kind of each, so what an
/// index names does not depend on the calls made before.
pub proof fn write_keeps_kinds(values: Seq<ParamValueView>, index: usize, value: ParamValueView, other: int)
    requires
        write_spec(values, index, value) is Ok,
        0 <= other < values.len(),
    ensures
        (write_spec(values, index, value)->Ok_0).len() == values.len(),
        (write_spec(values, index, value)->Ok_0)[other].kind() == values[other].kind(),
{
}

/// Writes to two parameters give the same values in either order.
pub proof fn writes_commute(values: Seq<ParamValueView>, i: usize, v: ParamValueView, j: usize, w: ParamValueView)
    requires
        i != j,
        write_spec(values, i, v) is Ok,
        write_spec(values, j, w) is Ok,
    ensures
        write_spec(write_spec(values, i, v)->Ok_0, j, w) is Ok,
        write_spec(write_spec(values, j, w)->Ok_0, i, v) is Ok,
        (write_spec(write_spec(values, i, v)->Ok_0, j, w)->Ok_0) == (write_spec(write_spec(values, j, w)->Ok_0, i, v)->Ok_0),
{
    let a = (write_spec(write_spec(values, i, v)->Ok_0, j, w)->Ok_0);
    let b = (write_spec(write_spec(values, j, w)->Ok_0, i, v)->Ok_0);
    assert(a =~= b);
}

/// What a host sets from a slot it gets back: where the value that a slot
/// decodes to is stored in a parameter, the slot that is then written from
/// that parameter decodes to the same value.
pub proof fn set_then_get_gives_back(values: Seq<ParamValueView>, index: usize, kind: ParamType, slot: RawSlotView)
    requires
        decode_spec(kind, slot) is Ok,
        write_spec(values, index, decode_spec(kind, slot)->Ok_0) is Ok,
    ensures
        ({
            let stored = write_spec(values, index, decode_spec(kind, slot)->Ok_0)->Ok_0;
            let back = encode_spec(read_spec(stored, index)->Ok_0);
            decode_spec(kind, back) == decode_spec(kind, slot)
        }),
{
    decode_gives_kind(kind, slot);
    decode_encode_round_trip(decode_spec(kind, slot)->Ok_0);
}

} // verus!
