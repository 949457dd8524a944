//! The primitive element types of streams, and ordered collections of them.

use vstd::prelude::*;

verus! {

/// A primitive element type that a stream can carry.
///
/// The variants stand in the order in which a constant's values are tried
/// against them: integers before floats.
#[derive(Clone, Copy, Debug, PartialEq, Eq, Structural)]
pub enum ElemType {
    /// Signed 64-bit integers.
    Int,
    /// 64-bit floating point numbers.
    Float,
}

/// An ordered collection of elements of one primitive type.
///
/// A floating point element is held as the 64 bits of its binary
/// interchange format, so that two collections are equal exactly when they
/// hold the same bits in the same order.
#[derive(Debug, PartialEq, Eq)]
pub enum Values {
    /// Signed 64-bit integers.
    Int(Vec<i64>),
    /// 64-bit floating point numbers, each by its bits.
    Float(Vec<u64>),
}

/// The mathematical value of a [`Values`].
pub ghost enum ValuesView {
    Int(Seq<i64>),
    Float(Seq<u64>),
}

impl ValuesView {
    /// The element type of the collection.
    pub open spec fn elem_type(self) -> ElemType {
        match self {
            ValuesView::Int(_) => ElemType::Int,
            ValuesView::Float(_) => ElemType::Float,
        }
    }

    /// The number of elements.
    pub open spec fn len(self) -> nat {
        match self {
            ValuesView::Int(s) => s.len(),
            ValuesView::Float(s) => s.len(),
        }
    }

    /// The collection of the given type that holds nothing.
    pub open spec fn empty(elem: ElemType) -> ValuesView {
        match elem {
            ElemType::Int => ValuesView::Int(Seq::empty()),
            ElemType::Float => ValuesView::Float(Seq::empty()),
        }
    }

    /// This collection followed by `more`, where both are of one type.
    pub open spec fn concat(self, more: ValuesView) -> Option<ValuesView> {
        match (self, more) {
            (ValuesView::Int(a), ValuesView::Int(b)) => Some(ValuesView::Int(a + b)),
            (ValuesView::Float(a), ValuesView::Float(b)) => Some(ValuesView::Float(a + b)),
            _ => None,
        }
    }
}

impl View for Values {
    type V = ValuesView;

    open spec fn view(&self) -> ValuesView {
        match self {
            Values::Int(v) => ValuesView::Int(v@),
            Values::Float(v) => ValuesView::Float(v@),
        }
    }
}

/// Appends the elements of `items` to `buffer`, one by one and in order.
pub fn append_each<T: Copy>(buffer: &mut Vec<T>, items: &Vec<T>)
    ensures
        final(buffer)@ == old(buffer)@ + items@,
{
    let mut i: usize = 0;
    while i < items.len()
        invariant
            i <= items.len(),
            buffer@ == old(buffer)@ + items@.subrange(0, i as int),
        decreases items.len() - i,
    {
        buffer.push(items[i]);
        i += 1;
    }
}

impl Values {
    /// The element type of the collection.
    pub fn elem_type(&self) -> (elem: ElemType)
        ensures
            elem == self@.elem_type(),
    {
        match self {
            Values::Int(_) => ElemType::Int,
            Values::Float(_) => ElemType::Float,
        }
    }

    /// The number of elements.
    pub fn len(&self) -> (n: usize)
        ensures
            n == self@.len(),
    {
        match self {
            Values::Int(v) => v.len(),
            Values::Float(v) => v.len(),
        }
    }

    /// A collection of the given type that holds nothing.
    pub fn empty(elem: ElemType) -> (values: Values)
        ensures
            values@ == ValuesView::empty(elem),
    {
        match elem {
            ElemType::Int => Values::Int(Vec::new()),
            ElemType::Float => Values::Float(Vec::new()),
        }
    }

    /// A copy that holds the same elements in the same order.
    pub fn duplicate(&self) -> (copy: Values)
        ensures
            copy@ == self@,
    {
        match self {
            Values::Int(v) => Values::Int(v.clone()),
            Values::Float(v) => Values::Float(v.clone()),
        }
    }

    /// Appends `more` in order if it is of this collection's type, and says
    /// whether it was.
    pub fn extend(&mut self, more: &Values) -> (same_type: bool)
        ensures
            same_type == (old(self)@.elem_type() == more@.elem_type()),
            same_type ==> Some(final(self)@) == old(self)@.concat(more@),
            !same_type ==> final(self)@ == old(self)@,
    {
        match self {
            Values::Int(buffer) => match more {
                Values::Int(items) => {
                    append_each(buffer, items);
                    true
                },
                Values::Float(_) => false,
            },
            Values::Float(buffer) => match more {
                Values::Float(items) => {
                    append_each(buffer, items);
                    true
                },
                Values::Int(_) => false,
            },
        }
    }
}

} // verus!
