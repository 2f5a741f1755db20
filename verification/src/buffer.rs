//! Inbound data on its way from a frame to a reader.

use std::collections::VecDeque;

use bytes::Bytes;
use vstd::prelude::*;

use crate::bytes_ext::{bytes_from_vec, content};

verus! {

/// Whether two slices hold the same bytes.
pub fn same_bytes(a: &[u8], b: &[u8]) -> (r: bool)
    ensures
        r == (a@ == b@),
{
    if a.len() != b.len() {
        return false;
    }
    let mut i: usize = 0;
    while i < a.len()
        invariant
            a.len() == b.len(),
            0 <= i <= a.len(),
            forall|j: int| 0 <= j < i ==> a@[j] == b@[j],
        decreases a.len() - i,
    {
        if a[i] != b[i] {
            return false;
        }
        i += 1;
    }
    assert(a@ =~= b@);
    true
}

/// Fixed size buffer for reading inbound data frames.
///
/// Meant to be transformed into [`Data`] and stored in [`DataList`].
pub struct Buffer {
    storage: Vec<u8>,
}

impl View for Buffer {
    type V = Seq<u8>;

    closed spec fn view(&self) -> Seq<u8> {
        self.storage@
    }
}

impl Buffer {
    /// Creates a new buffer with the given capacity.
    pub fn with_capactiy(capacity: usize) -> (r: Self)
        requires
            capacity <= isize::MAX,
        ensures
            r@.len() == capacity,
    {
        Buffer { storage: vec![0u8; capacity] }
    }

    /// The whole buffer.
    pub fn as_slice(&self) -> (r: &[u8])
        ensures
            r@ == self@,
    {
        self.storage.as_slice()
    }

    /// The whole buffer, to be written to.
    pub fn as_mut_slice(&mut self) -> (r: &mut [u8])
        ensures
            r@ == old(self)@,
            final(self)@ == final(r)@,
    {
        self.storage.as_mut_slice()
    }

    /// Copies `bytes` into the buffer, from `at` on.
    pub fn fill(&mut self, at: usize, bytes: &[u8])
        requires
            at + bytes@.len() <= old(self)@.len(),
        ensures
            final(self)@ == old(self)@.subrange(0, at as int) + bytes@ + old(self)@.subrange(
                at + bytes@.len() as int,
                old(self)@.len() as int,
            ),
    {
        let total: usize = self.storage.len();
        let mut i: usize = 0;
        while i < bytes.len()
            invariant
                total == self@.len(),
                0 <= i <= bytes@.len(),
                at + bytes@.len() <= old(self)@.len(),
                self@.len() == old(self)@.len(),
                forall|j: int| 0 <= j < at ==> self@[j] == old(self)@[j],
                forall|j: int| at <= j < at + i ==> self@[j] == bytes@[j - at],
                forall|j: int| at + i <= j < self@.len() ==> self@[j] == old(self)@[j],
            decreases bytes@.len() - i,
        {
            self.storage[at + i] = bytes[i];
            i += 1;
        }
        assert(self@ =~= old(self)@.subrange(0, at as int) + bytes@ + old(self)@.subrange(
            at + bytes@.len() as int,
            old(self)@.len() as int,
        ));
    }

    /// Takes the buffer, now filled, as data.
    pub fn assume_init(self) -> (r: Data)
        ensures
            r@ == self@,
    {
        Data { bytes: self.storage }
    }
}

/// Data extracted from an inbound frame.
///
/// Meant to be stored in [`DataList`].
#[derive(Debug)]
pub struct Data {
    bytes: Vec<u8>,
}

impl View for Data {
    type V = Seq<u8>;

    closed spec fn view(&self) -> Seq<u8> {
        self.bytes@
    }
}

impl Default for Data {
    fn default() -> (r: Self)
        ensures
            r@ == Seq::<u8>::empty(),
    {
        Data { bytes: Vec::new() }
    }
}

impl Clone for Data {
    fn clone(&self) -> (r: Self)
        ensures
            r@ == self@,
    {
        Data::copy_from_slice(self.as_slice())
    }
}

impl PartialEq for Data {
    fn eq(&self, other: &Self) -> (r: bool) {
        same_bytes(self.as_slice(), other.as_slice())
    }
}

impl vstd::std_specs::cmp::PartialEqSpecImpl for Data {
    open spec fn obeys_eq_spec() -> bool {
        true
    }

    open spec fn eq_spec(&self, other: &Self) -> bool {
        self@ == other@
    }
}

impl Eq for Data {

}

impl Data {
    /// Data holding a copy of `slice`.
    pub fn copy_from_slice(slice: &[u8]) -> (r: Self)
        ensures
            r@ == slice@,
    {
        let mut bytes: Vec<u8> = Vec::new();
        bytes.extend_from_slice(slice);
        assert(bytes@ =~= slice@);
        Data { bytes }
    }

    /// The bytes themselves.
    pub fn as_slice(&self) -> (r: &[u8])
        ensures
            r@ == self@,
    {
        self.bytes.as_slice()
    }

    /// Number of bytes.
    pub fn len(&self) -> (r: usize)
        ensures
            r == self@.len(),
    {
        self.bytes.len()
    }

    /// Whether there are no bytes.
    pub fn is_empty(&self) -> (r: bool)
        ensures
            r == (self@.len() == 0),
    {
        self.bytes.len() == 0
    }

    /// Hands the bytes over.
    pub fn into_bytes(self) -> (r: Bytes)
        ensures
            content(r) == self@,
    {
        bytes_from_vec(self.bytes)
    }
}

/// Forward list of non-empty [`Data`] nodes.
pub struct DataList {
    nodes: VecDeque<Data>,
}

/// Total number of bytes in a list of chunks.
pub open spec fn total_len(chunks: Seq<Seq<u8>>) -> nat
    decreases chunks.len(),
{
    if chunks.len() == 0 {
        0
    } else {
        chunks[0].len() + total_len(chunks.drop_first())
    }
}

/// The bytes of a list of chunks.
pub open spec fn bytes_of(chunks: Seq<Seq<u8>>) -> Seq<u8>
    decreases chunks.len(),
{
    if chunks.len() == 0 {
        Seq::empty()
    } else {
        chunks[0] + bytes_of(chunks.drop_first())
    }
}

impl View for DataList {
    type V = Seq<Seq<u8>>;

    closed spec fn view(&self) -> Seq<Seq<u8>> {
        Seq::new(self.nodes@.len(), |i: int| self.nodes@[i]@)
    }
}

impl Default for DataList {
    fn default() -> (r: Self)
        ensures
            r@ == Seq::<Seq<u8>>::empty(),
    {
        let r = DataList { nodes: VecDeque::new() };
        assert(r@ =~= Seq::<Seq<u8>>::empty());
        r
    }
}

impl DataList {
    /// No node of the list is empty.
    #[verifier::type_invariant]
    spec fn inv(self) -> bool {
        forall|i: int| 0 <= i < self.nodes@.len() ==> (#[trigger] self.nodes@[i])@.len() > 0
    }

    /// Pops a node from the front of this list.
    pub fn pop_front(&mut self) -> (r: Option<Data>)
        ensures
            old(self)@.len() == 0 ==> r is None && final(self)@ == old(self)@,
            old(self)@.len() > 0 ==> (r matches Some(data) && data@ == old(self)@[0]
                && data@.len() > 0 && final(self)@ == old(self)@.drop_first()),
    {
        proof {
            use_type_invariant(&*self);
        }
        let mut nodes: VecDeque<Data> = VecDeque::new();
        std::mem::swap(&mut nodes, &mut self.nodes);
        let ghost before = nodes@;
        let r = nodes.pop_front();
        proof {
            if before.len() > 0 {
                assert(nodes@ =~= before.drop_first());
            }
        }
        self.nodes = nodes;
        proof {
            if before.len() > 0 {
                assert(self@ =~= old(self)@.drop_first());
            } else {
                assert(self@ =~= old(self)@);
            }
        }
        r
    }

    /// Pushes the given node to the back of this list if the node is not empty.
    /// Otherwise, drops the node.
    pub fn push_back(&mut self, data: Data)
        ensures
            final(self)@ == if data@.len() == 0 {
                old(self)@
            } else {
                old(self)@.push(data@)
            },
    {
        if data.is_empty() {
            return;
        }
        proof {
            use_type_invariant(&*self);
        }
        let mut nodes: VecDeque<Data> = VecDeque::new();
        std::mem::swap(&mut nodes, &mut self.nodes);
        nodes.push_back(data);
        self.nodes = nodes;
        assert(self@ =~= old(self)@.push(data@));
    }

    /// Whether the list holds nothing.
    pub fn is_empty(&self) -> (r: bool)
        ensures
            r == (self@.len() == 0),
    {
        self.nodes.len() == 0
    }
}

} // verus!
