//! The pointer codec: byte sequences are staged in a bounded region of linear
//! memory, and each staged sequence is named by one 64-bit host pointer that
//! packs its offset (high 32 bits) and its length (low 32 bits).
use vstd::prelude::*;

verus! {

/// The largest staging capacity the pointer layout can address: every offset
/// must fit in the 31 bits that keep a host pointer non-negative.
pub const MAX_STAGING: usize = 0x7fff_ffff;

/// The number of bytes an identifier occupies once staged.
pub const ID_WIDTH: usize = 8;

/// The factor that moves an offset into the high half of a host pointer.
pub open spec fn offset_unit() -> int {
    0x1_0000_0000
}

/// The host pointer for `len` bytes staged at `offset`.
pub open spec fn host_ptr(offset: int, len: int) -> int {
    offset * offset_unit() + len
}

/// The offset a host pointer names.
pub open spec fn ptr_offset(p: i64) -> int {
    p as int / offset_unit()
}

/// The length a host pointer names.
pub open spec fn ptr_len(p: i64) -> int {
    p as int % offset_unit()
}

/// What the host reads from linear memory `mem` through pointer `p`:
/// the bytes it names, or nothing if they lie outside `mem`.
pub open spec fn decoded(mem: Seq<u8>, p: i64) -> Option<Seq<u8>> {
    if 0 <= p && ptr_offset(p) + ptr_len(p) <= mem.len() {
        Some(mem.subrange(ptr_offset(p), ptr_offset(p) + ptr_len(p)))
    } else {
        None
    }
}

/// Byte `k` (least significant first) of a 64-bit word.
pub open spec fn byte_of(u: u64, k: u64) -> u8 {
    ((u >> (8 * k)) & 0xff) as u8
}

/// The little-endian two's-complement bytes of an identifier.
pub open spec fn id_bytes(id: i64) -> Seq<u8> {
    let u = id as u64;
    seq![
        byte_of(u, 0),
        byte_of(u, 1),
        byte_of(u, 2),
        byte_of(u, 3),
        byte_of(u, 4),
        byte_of(u, 5),
        byte_of(u, 6),
        byte_of(u, 7),
    ]
}

/// The 64-bit word whose little-endian bytes are `b0` to `b7`.
pub open spec fn word_of(b0: u8, b1: u8, b2: u8, b3: u8, b4: u8, b5: u8, b6: u8, b7: u8) -> u64 {
    (b0 as u64) | ((b1 as u64) << 8) | ((b2 as u64) << 16) | ((b3 as u64) << 24) | ((
    b4 as u64) << 32) | ((b5 as u64) << 40) | ((b6 as u64) << 48) | ((b7 as u64) << 56)
}

/// The identifier whose little-endian bytes are `b` (of length `ID_WIDTH`).
pub open spec fn id_of_bytes(b: Seq<u8>) -> i64 {
    word_of(b[0], b[1], b[2], b[3], b[4], b[5], b[6], b[7]) as i64
}

/// The identifier the host reads through pointer `p`, if `p` names
/// exactly `ID_WIDTH` bytes of `mem`.
pub open spec fn decoded_id(mem: Seq<u8>, p: i64) -> Option<i64> {
    match decoded(mem, p) {
        Some(b) => if b.len() == ID_WIDTH {
            Some(id_of_bytes(b))
        } else {
            None
        },
        None => None,
    }
}

/// Decoding an encoded byte sequence gives it back exactly: the pointer for
/// `data` staged after `mem` names `data`, whatever is staged after it.
pub proof fn lemma_round_trip(mem: Seq<u8>, data: Seq<u8>, later: Seq<u8>)
    requires
        mem.len() + data.len() <= MAX_STAGING,
    ensures
        decoded(mem + data + later, host_ptr(mem.len() as int, data.len() as int) as i64)
            == Some(data),
{
    let off = mem.len() as int;
    let len = data.len() as int;
    let p = host_ptr(off, len);
    assert(0 <= p < 0x7fff_ffff_ffff_ffff) by (nonlinear_arith)
        requires
            p == off * 0x1_0000_0000 + len,
            0 <= off <= MAX_STAGING,
            0 <= len <= MAX_STAGING,
    ;
    let q = p as i64;
    assert(q as int == p);
    assert(ptr_offset(q) == off && ptr_len(q) == len) by (nonlinear_arith)
        requires
            q as int == off * 0x1_0000_0000 + len,
            0 <= len < 0x1_0000_0000,
            0 <= off,
    ;
    assert((mem + data + later).subrange(off, off + len) =~= data);
}

/// The bytes of an identifier read back as that identifier.
pub proof fn lemma_id_bytes_inverse(id: i64)
    ensures
        id_bytes(id).len() == ID_WIDTH,
        id_of_bytes(id_bytes(id)) == id,
{
    let u = id as u64;
    assert(word_of(
        byte_of(u, 0),
        byte_of(u, 1),
        byte_of(u, 2),
        byte_of(u, 3),
        byte_of(u, 4),
        byte_of(u, 5),
        byte_of(u, 6),
        byte_of(u, 7),
    ) == u) by (bit_vector);
    assert((id as u64) as i64 == id) by (bit_vector);
}

/// Decoding an encoded identifier gives it back: the pointer for the bytes
/// of `id` staged after `mem` reads as `id`, whatever is staged after it.
pub proof fn lemma_id_round_trip(mem: Seq<u8>, id: i64, later: Seq<u8>)
    requires
        mem.len() + ID_WIDTH <= MAX_STAGING,
    ensures
        decoded_id(mem + id_bytes(id) + later, host_ptr(mem.len() as int, ID_WIDTH as int) as i64)
            == Some(id),
{
    lemma_id_bytes_inverse(id);
    lemma_round_trip(mem, id_bytes(id), later);
}

/// Reported when a value cannot be staged in a host-addressable region.
#[derive(Clone, Copy, Debug, PartialEq, Eq, Structural)]
pub enum EncodingError {
    /// The staging area has too little room left for the value.
    StagingExhausted,
}

/// A bounded region of linear memory that the host can read, filled front
/// to back with the values staged for a host call.
pub struct StagingArea {
    bytes: Vec<u8>,
    capacity: usize,
}

impl View for StagingArea {
    type V = Seq<u8>;

    /// The bytes staged so far.
    closed spec fn view(&self) -> Seq<u8> {
        self.bytes@
    }
}

impl StagingArea {
    /// The most bytes this area may hold.
    pub closed spec fn spec_capacity(&self) -> nat {
        self.capacity as nat
    }

    /// The staged bytes fit within the capacity, and the capacity within
    /// what a host pointer can address.
    pub closed spec fn wf(&self) -> bool {
        self.bytes@.len() <= self.capacity <= MAX_STAGING
    }

    /// An empty staging area that holds at most `capacity` bytes.
    pub fn new(capacity: usize) -> (r: StagingArea)
        requires
            capacity <= MAX_STAGING,
        ensures
            r.wf(),
            r@ == Seq::<u8>::empty(),
            r.spec_capacity() == capacity,
    {
        StagingArea { bytes: Vec::new(), capacity }
    }

    /// The most bytes this area may hold.
    pub fn capacity(&self) -> (r: usize)
        ensures
            r == self.spec_capacity(),
    {
        self.capacity
    }

    /// The number of bytes staged so far.
    pub fn len(&self) -> (r: usize)
        ensures
            r == self@.len(),
    {
        self.bytes.len()
    }

    /// The bytes staged so far, as the host sees them.
    pub fn as_slice(&self) -> (r: &[u8])
        ensures
            r@ == self@,
    {
        self.bytes.as_slice()
    }

    /// Stages `data` after what is already staged and returns the host
    /// pointer that names it; fails, staging nothing, if it does not fit.
    pub fn encode(&mut self, data: &[u8]) -> (r: Result<i64, EncodingError>)
        requires
            old(self).wf(),
        ensures
            final(self).wf(),
            final(self).spec_capacity() == old(self).spec_capacity(),
            old(self)@.len() + data@.len() <= old(self).spec_capacity() ==> {
                &&& r == Ok::<i64, EncodingError>(
                    host_ptr(old(self)@.len() as int, data@.len() as int) as i64,
                )
                &&& final(self)@ == old(self)@ + data@
            },
            old(self)@.len() + data@.len() > old(self).spec_capacity() ==> {
                &&& r == Err::<i64, EncodingError>(EncodingError::StagingExhausted)
                &&& final(self)@ == old(self)@
            },
    {
        let offset = self.bytes.len();
        if data.len() > self.capacity - offset {
            return Err(EncodingError::StagingExhausted);
        }
        self.bytes.extend_from_slice(data);
        proof {
            assert(self.bytes@ =~= old(self).bytes@ + data@);
            assert(offset * offset_unit() + data@.len() < 0x7fff_ffff_ffff_ffff) by (nonlinear_arith)
                requires
                    offset <= MAX_STAGING,
                    data@.len() <= MAX_STAGING,
            ;
        }
        Ok((offset as i64) * 0x1_0000_0000i64 + (data.len() as i64))
    }

    /// Stages the little-endian bytes of `id` and returns the host pointer
    /// that names them; fails, staging nothing, if they do not fit.
    pub fn encode_id(&mut self, id: i64) -> (r: Result<i64, EncodingError>)
        requires
            old(self).wf(),
        ensures
            final(self).wf(),
            final(self).spec_capacity() == old(self).spec_capacity(),
            old(self)@.len() + ID_WIDTH <= old(self).spec_capacity() ==> {
                &&& r == Ok::<i64, EncodingError>(
                    host_ptr(old(self)@.len() as int, ID_WIDTH as int) as i64,
                )
                &&& final(self)@ == old(self)@ + id_bytes(id)
            },
            old(self)@.len() + ID_WIDTH > old(self).spec_capacity() ==> {
                &&& r == Err::<i64, EncodingError>(EncodingError::StagingExhausted)
                &&& final(self)@ == old(self)@
            },
    {
        let u = id as u64;
        let word: Vec<u8> = vec![
            (u & 0xff) as u8,
            ((u >> 8) & 0xff) as u8,
            ((u >> 16) & 0xff) as u8,
            ((u >> 24) & 0xff) as u8,
            ((u >> 32) & 0xff) as u8,
            ((u >> 40) & 0xff) as u8,
            ((u >> 48) & 0xff) as u8,
            ((u >> 56) & 0xff) as u8,
        ];
        proof {
            assert(u >> 0 == u) by (bit_vector);
            assert(word@ =~= id_bytes(id));
        }
        self.encode(word.as_slice())
    }

    /// The bytes the host reads through pointer `p`, if `p` names bytes
    /// that lie within what is staged.
    pub fn decode(&self, p: i64) -> (r: Option<Vec<u8>>)
        ensures
            match r {
                Some(v) => decoded(self@, p) == Some(v@),
                None => decoded(self@, p) is None,
            },
    {
        if p < 0 {
            return None;
        }
        let offset: u64 = (p / 0x1_0000_0000i64) as u64;
        let len: u64 = (p % 0x1_0000_0000i64) as u64;
        let staged = self.bytes.len() as u64;
        if offset > staged || len > staged - offset {
            return None;
        }
        let start = offset as usize;
        let end = (offset + len) as usize;
        let mut out: Vec<u8> = Vec::new();
        let mut i: usize = start;
        while i < end
            invariant
                start <= i <= end <= self.bytes@.len(),
                out@ =~= self.bytes@.subrange(start as int, i as int),
            decreases end - i,
        {
            out.push(self.bytes[i]);
            i = i + 1;
        }
        Some(out)
    }

    /// The identifier the host reads through pointer `p`, if `p` names
    /// exactly `ID_WIDTH` staged bytes.
    pub fn decode_id(&self, p: i64) -> (r: Option<i64>)
        ensures
            r == decoded_id(self@, p),
    {
        match self.decode(p) {
            Some(b) => {
                if b.len() != ID_WIDTH {
                    return None;
                }
                let word: u64 = (b[0] as u64) | ((b[1] as u64) << 8) | ((b[2] as u64) << 16) | ((
                b[3] as u64) << 24) | ((b[4] as u64) << 32) | ((b[5] as u64) << 40) | ((
                b[6] as u64) << 48) | ((b[7] as u64) << 56);
                Some(word as i64)
            },
            None => None,
        }
    }

    /// Stages nothing more: drops everything staged so far, so that the
    /// region can serve the next host call.
    pub fn reset(&mut self)
        requires
            old(self).wf(),
        ensures
            final(self).wf(),
            final(self)@ == Seq::<u8>::empty(),
            final(self).spec_capacity() == old(self).spec_capacity(),
    {
        self.bytes.clear();
    }

    /// Drops the bytes staged after the first `len`.
    pub(crate) fn truncate(&mut self, len: usize)
        requires
            old(self).wf(),
            len <= old(self)@.len(),
        ensures
            final(self).wf(),
            final(self)@ == old(self)@.subrange(0, len as int),
            final(self).spec_capacity() == old(self).spec_capacity(),
    {
        self.bytes.truncate(len);
    }
}

} // verus!
