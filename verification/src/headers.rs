//! Response header fields as plain values.

use vstd::prelude::*;

use crate::bytes::{same_bytes, to_lower};

verus! {

/// One header field, in specifications.
pub struct FieldModel {
    /// Name in lower case.
    pub name: Seq<u8>,
    /// Value.
    pub value: Seq<u8>,
}

/// One header field.
#[derive(Debug)]
pub struct HeaderField {
    name: Vec<u8>,
    value: Vec<u8>,
}

impl View for HeaderField {
    type V = FieldModel;

    closed spec fn view(&self) -> FieldModel {
        FieldModel { name: self.name@, value: self.value@ }
    }
}

impl HeaderField {
    /// Name in lower case.
    pub fn name(&self) -> (name: &[u8])
        ensures
            name@ == self@.name,
    {
        self.name.as_slice()
    }

    /// Value.
    pub fn value(&self) -> (value: &[u8])
        ensures
            value@ == self@.value,
    {
        self.value.as_slice()
    }
}

/// Values of all fields with this name, in order.
pub open spec fn values_of(fields: Seq<FieldModel>, name: Seq<u8>) -> Seq<Seq<u8>>
    decreases fields.len(),
{
    if fields.len() == 0 {
        Seq::empty()
    } else {
        let before = values_of(fields.drop_last(), name);
        if fields.last().name == name {
            before.push(fields.last().value)
        } else {
            before
        }
    }
}

/// Header fields of one response, in order.
#[derive(Debug)]
pub struct Headers {
    fields: Vec<HeaderField>,
}

impl View for Headers {
    type V = Seq<FieldModel>;

    closed spec fn view(&self) -> Seq<FieldModel> {
        Seq::new(self.fields@.len(), |i: int| self.fields@[i]@)
    }
}

/// Byte strings, in specifications.
pub open spec fn byte_strings(values: Seq<&[u8]>) -> Seq<Seq<u8>> {
    Seq::new(values.len(), |i: int| values[i]@)
}

impl Headers {
    /// No fields.
    pub fn new() -> (headers: Self)
        ensures
            headers@ == Seq::<FieldModel>::empty(),
    {
        let headers = Headers { fields: Vec::new() };
        assert(headers@ =~= Seq::<FieldModel>::empty());
        headers
    }

    /// Adds a field behind the others; names do not differ by case.
    pub fn append(&mut self, name: &[u8], value: Vec<u8>)
        ensures
            final(self)@ == old(self)@.push(
                FieldModel { name: crate::bytes::lowered(name@), value: value@ },
            ),
    {
        let mut lowered: Vec<u8> = Vec::with_capacity(name.len());
        let mut at: usize = 0;
        while at < name.len()
            invariant
                at <= name@.len(),
                lowered@.len() == at,
                forall|i: int|
                    0 <= i < at ==> #[trigger] lowered@[i] == crate::bytes::lower(name@[i]),
            decreases name@.len() - at,
        {
            lowered.push(to_lower(name[at]));
            at += 1;
        }
        assert(lowered@ =~= crate::bytes::lowered(name@));
        self.fields.push(HeaderField { name: lowered, value });
        assert(self@ =~= old(self)@.push(
            FieldModel { name: crate::bytes::lowered(name@), value: value@ },
        ));
    }

    /// Number of fields.
    pub fn len(&self) -> (len: usize)
        ensures
            len == self@.len(),
    {
        self.fields.len()
    }

    /// One field.
    pub fn field(&self, index: usize) -> (field: &HeaderField)
        requires
            index < self@.len(),
        ensures
            field@ == self@[index as int],
    {
        &self.fields[index]
    }

    /// Values of all fields with this name, in order; the name is in lower case.
    pub fn values<'a>(&'a self, name: &str) -> (values: Vec<&'a [u8]>)
        ensures
            byte_strings(values@) == values_of(self@, crate::bytes::text(name@)),
    {
        let wanted: &[u8] = name.as_bytes();
        let mut values: Vec<&'a [u8]> = Vec::new();
        let mut at: usize = 0;
        assert(byte_strings(values@) =~= values_of(self@.take(0), wanted@));
        while at < self.fields.len()
            invariant
                at <= self@.len(),
                self@.len() == self.fields@.len(),
                wanted@ == crate::bytes::text(name@),
                byte_strings(values@) == values_of(self@.take(at as int), wanted@),
            decreases self.fields@.len() - at,
        {
            let ghost before = values@;
            assert(self@.take(at + 1).drop_last() =~= self@.take(at as int));
            assert(self@.take(at + 1).last() == self.fields@[at as int]@);
            if same_bytes(self.fields[at].name(), wanted) {
                let value: &'a [u8] = self.fields[at].value();
                values.push(value);
                assert(byte_strings(values@) =~= byte_strings(before).push(value@));
            }
            at += 1;
        }
        assert(self@.take(at as int) =~= self@);
        values
    }
}

} // verus!
