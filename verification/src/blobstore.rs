//! Entries that a worker's blob-store host keeps for containers, outgoing and
//! incoming values and object-name streams, and the byte-stream logic of the
//! value bodies they share.

use vstd::prelude::*;
use std::sync::{Arc, RwLock};

verus! {

/// `std::sync::RwLock`, a reader-writer lock whose contents change through
/// shared references; contracts see only what a lock was created holding.
#[verifier::external_type_specification]
#[verifier::external_body]
#[verifier::reject_recursive_types(T)]
pub struct ExRwLock<T: ?Sized>(std::sync::RwLock<T>);

/// The bytes that a byte lock was created holding. The contents of a lock
/// change through any shared reference to it; what it was created with does not.
pub uninterp spec fn byte_lock_created_with(lock: RwLock<Vec<u8>>) -> Seq<u8>;

/// The names (as texts) that a name lock was created holding.
pub uninterp spec fn name_lock_created_with(lock: RwLock<Vec<String>>) -> Seq<Seq<char>>;

/// `RwLock::new` on bytes: a fresh lock that holds `value`. The contract states
/// what the lock was created with; its later contents are not stated, since
/// they change through shared references.
#[verifier::external_body]
fn new_byte_lock(value: Vec<u8>) -> (res: RwLock<Vec<u8>>)
    ensures
        byte_lock_created_with(res) == value@,
{
    RwLock::new(value)
}

/// `RwLock::new` on names: a fresh lock that holds `value`. The contract states
/// what the lock was created with; its later contents are not stated, since
/// they change through shared references.
#[verifier::external_body]
fn new_name_lock(value: Vec<String>) -> (res: RwLock<Vec<String>>)
    ensures
        name_lock_created_with(res) == value@.map_values(|n: String| n@),
{
    RwLock::new(value)
}

/// The body after a write of `bytes`: the bytes appended.
pub open spec fn body_after_write(body: Seq<u8>, bytes: Seq<u8>) -> Seq<u8> {
    body + bytes
}

/// How many bytes a read of `size` takes from a body of length `len`.
pub open spec fn read_count(len: nat, size: usize) -> int {
    if size < len {
        size as int
    } else {
        len as int
    }
}

/// The result of a read of `size` bytes: `size` bytes, the first `read_count`
/// of them from the front of the body, the rest zero.
pub open spec fn bytes_read(body: Seq<u8>, size: usize) -> Seq<u8> {
    Seq::new(size as nat, |i: int| if i < read_count(body.len(), size) { body[i] } else { 0u8 })
}

/// The body after a read of `size` bytes: the bytes read are gone from its front.
pub open spec fn body_after_read(body: Seq<u8>, size: usize) -> Seq<u8> {
    body.skip(read_count(body.len(), size))
}

/// A blob-store container: its name and creation time.
pub struct ContainerEntry {
    pub name: String,
    pub created_at: u64,
}

impl ContainerEntry {
    /// The entry of a container with the given name and creation time.
    pub fn new(name: String, created_at: u64) -> (res: Self)
        ensures
            res.name == name,
            res.created_at == created_at,
    {
        Self { name, created_at }
    }
}

/// A value being written: its body, shared with the stream that writes it.
pub struct OutgoingValueEntry {
    pub body: Arc<RwLock<Vec<u8>>>,
}

impl Default for OutgoingValueEntry {
    /// Same as `OutgoingValueEntry::new`: a body that is a fresh lock created empty.
    fn default() -> (res: Self)
        ensures
            byte_lock_created_with(*res.body) == Seq::<u8>::empty(),
    {
        Self::new()
    }
}

impl OutgoingValueEntry {
    /// An outgoing value whose body is a fresh lock created empty.
    pub fn new() -> (res: Self)
        ensures
            byte_lock_created_with(*res.body) == Seq::<u8>::empty(),
    {
        Self { body: Arc::new(new_byte_lock(Vec::new())) }
    }
}

/// The output stream that writes an outgoing value's body.
pub struct OutgoingValueBodyAsyncEntry {
    pub body: Arc<RwLock<Vec<u8>>>,
}

impl OutgoingValueBodyAsyncEntry {
    /// The stream writing into the given shared body.
    pub fn new(body: Arc<RwLock<Vec<u8>>>) -> (res: OutgoingValueBodyAsyncEntry)
        ensures
            res.body == body,
    {
        OutgoingValueBodyAsyncEntry { body }
    }

    /// What a write does to the (locked) body: the bytes are appended.
    pub fn write_bytes(body: &mut Vec<u8>, bytes: &[u8])
        ensures
            final(body)@ == body_after_write(old(body)@, bytes@),
            final(body)@.len() == old(body)@.len() + bytes@.len(),
            forall|i: int| 0 <= i < old(body)@.len() ==> final(body)@[i] == old(body)@[i],
            forall|j: int| 0 <= j < bytes@.len() ==> final(body)@[old(body)@.len() + j] == bytes@[j],
    {
        body.extend_from_slice(bytes);
    }

    /// How many bytes the stream accepts at once: any number.
    pub fn check_write() -> (res: usize)
        ensures
            res == usize::MAX,
    {
        usize::MAX
    }
}

/// A value being read: its body.
pub struct IncomingValueEntry {
    pub body: Arc<RwLock<Vec<u8>>>,
}

impl IncomingValueEntry {
    /// An incoming value whose body is a fresh lock created holding the given bytes.
    pub fn new(body: Vec<u8>) -> (res: IncomingValueEntry)
        ensures
            byte_lock_created_with(*res.body) == body@,
    {
        IncomingValueEntry { body: Arc::new(new_byte_lock(body)) }
    }
}

/// The input stream that reads an incoming value's body.
pub struct IncomingValueAsyncBodyEntry {
    pub body: Arc<RwLock<Vec<u8>>>,
}

impl IncomingValueAsyncBodyEntry {
    /// The stream reading from the given shared body.
    pub fn new(body: Arc<RwLock<Vec<u8>>>) -> (res: IncomingValueAsyncBodyEntry)
        ensures
            res.body == body,
    {
        IncomingValueAsyncBodyEntry { body }
    }

    /// What a read of `size` bytes does to the (locked) body: the result has
    /// exactly `size` bytes; its first `min(size, body length)` bytes are taken
    /// from the front of the body, which loses them, and the rest are zero.
    pub fn read_bytes(body: &mut Vec<u8>, size: usize) -> (res: Vec<u8>)
        ensures
            res@ == bytes_read(old(body)@, size),
            final(body)@ == body_after_read(old(body)@, size),
    {
        let mut buf: Vec<u8> = vec![0u8; size];
        let n: usize = if size < body.len() { size } else { body.len() };
        let mut i: usize = 0;
        while i < n
            invariant
                n <= size,
                n <= body@.len(),
                i <= n,
                buf@.len() == size,
                forall|j: int| 0 <= j < i ==> buf@[j] == body@[j],
                forall|j: int| i <= j < size ==> buf@[j] == 0u8,
            decreases n - i,
        {
            buf.set(i, body[i]);
            i = i + 1;
        }
        let rest = body.split_off(n);
        *body = rest;
        assert(buf@ =~= bytes_read(old(body)@, size));
        assert(body@ =~= body_after_read(old(body)@, size));
        buf
    }
}

/// The object names listed for a container, shared with the stream that lists them.
pub struct StreamObjectNamesEntry {
    pub names: Arc<RwLock<Vec<String>>>,
}

impl StreamObjectNamesEntry {
    /// The entry listing the given names, in a fresh lock created holding them.
    pub fn new(names: Vec<String>) -> (res: Self)
        ensures
            name_lock_created_with(*res.names) == names@.map_values(|n: String| n@),
    {
        Self { names: Arc::new(new_name_lock(names)) }
    }
}

/// A write appends every byte given, zero bytes included: the body grows by
/// exactly the number of bytes written, keeps its old bytes in place, and
/// ends with the written bytes in order.
pub proof fn lemma_write_appends_every_byte(body: Seq<u8>, bytes: Seq<u8>)
    ensures
        body_after_write(body, bytes).len() == body.len() + bytes.len(),
        forall|i: int| 0 <= i < body.len() ==> #[trigger] body_after_write(body, bytes)[i] == body[i],
        forall|j: int|
            0 <= j < bytes.len() ==> #[trigger] body_after_write(body, bytes)[body.len() + j]
                == bytes[j],
{
}

/// A read gives back what was written: writing `bytes` into a body and then
/// reading as many bytes as the body then holds yields the old contents
/// followed by the written bytes, and leaves the body empty.
pub proof fn lemma_read_returns_written(body: Seq<u8>, bytes: Seq<u8>, size: usize)
    requires
        size == body.len() + bytes.len(),
    ensures
        bytes_read(body_after_write(body, bytes), size) == body + bytes,
        body_after_read(body_after_write(body, bytes), size) == Seq::<u8>::empty(),
{
    assert(bytes_read(body_after_write(body, bytes), size) =~= body + bytes);
    assert(body_after_read(body_after_write(body, bytes), size) =~= Seq::<u8>::empty());
}

/// Reading in two steps takes the same bytes, in order, as one read of the
/// combined size, when the body holds at least that many.
pub proof fn lemma_reads_compose(body: Seq<u8>, first: usize, second: usize)
    requires
        first + second <= body.len(),
    ensures
        bytes_read(body, first) + bytes_read(body_after_read(body, first), second)
            == body.take(first + second),
        body_after_read(body_after_read(body, first), second) == body.skip(first + second),
{
    assert(bytes_read(body, first) + bytes_read(body_after_read(body, first), second)
        =~= body.take(first + second));
    assert(body_after_read(body_after_read(body, first), second) =~= body.skip(first + second));
}

} // verus!
