use vstd::prelude::*;

verus! {

/// Relies on `Vec::capacity`: never less than the vector's length.
#[verifier::external_body]
fn capacity_of<T>(v: &std::vec::Vec<T>) -> (r: usize)
    ensures
        r >= v@.len(),
{
    v.capacity()
}

/// A growable buffer in the form that crosses a library boundary: its
/// elements and the capacity that was allocated for them.
pub struct Vec<T> {
    buf: std::vec::Vec<T>,
    capacity: usize,
}

impl<T> View for Vec<T> {
    type V = Seq<T>;

    closed spec fn view(&self) -> Seq<T> {
        self.buf@
    }
}

impl<T> Vec<T> {
    /// The native buffer that this one holds.
    pub closed spec fn native(&self) -> std::vec::Vec<T> {
        self.buf
    }

    pub closed spec fn spec_capacity(&self) -> usize {
        self.capacity
    }

    /// The capacity covers every element.
    pub open spec fn wf(&self) -> bool {
        self.spec_capacity() >= self@.len()
    }

    /// Takes over a native buffer, with its allocation.
    pub fn from_std(v: std::vec::Vec<T>) -> (r: Vec<T>)
        ensures
            r.native() == v,
            r@ == v@,
            r.wf(),
    {
        let capacity = capacity_of(&v);
        Vec { buf: v, capacity }
    }

    /// Hands the buffer back in native form, with its allocation.
    pub fn into_std(self) -> (r: std::vec::Vec<T>)
        ensures
            r == self.native(),
            r@ == self@,
    {
        self.buf
    }

    pub fn len(&self) -> (r: usize)
        ensures
            r == self@.len(),
    {
        self.buf.len()
    }

    pub fn capacity(&self) -> (r: usize)
        ensures
            r == self.spec_capacity(),
    {
        self.capacity
    }

    /// The elements, as a slice.
    pub fn as_slice(&self) -> (r: &[T])
        ensures
            r@ == self@,
    {
        self.buf.as_slice()
    }
}

/// Turning a native buffer into the stable form and back yields the very
/// buffer that went in: the same elements, length and capacity.
pub proof fn lemma_round_trip<T>(v: std::vec::Vec<T>, s: Vec<T>, w: std::vec::Vec<T>)
    requires
        s.native() == v,
        w == s.native(),
    ensures
        w == v,
        w@ == v@,
        w@.len() == v@.len(),
{
}

} // verus!
