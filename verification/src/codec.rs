//! Conversion between host vectors of `u32` elements and the flat byte
//! layout that GPU-visible buffers hold, four bytes per element in
//! little-endian order.

use vstd::prelude::*;

verus! {

/// The four bytes that one element occupies in a buffer, least significant
/// byte first.
pub open spec fn elem_bytes(x: u32) -> Seq<u8> {
    seq![
        (x % 256) as u8,
        ((x / 256) % 256) as u8,
        (((x / 256) / 256) % 256) as u8,
        (((x / 256) / 256) / 256) as u8,
    ]
}

/// The element encoded by four buffer bytes, least significant byte first.
pub open spec fn bytes_elem(s: Seq<u8>) -> u32
    recommends
        s.len() == 4,
{
    ((s[0] as int) + 256 * (s[1] as int) + 65536 * (s[2] as int) + 16777216 * (s[3] as int)) as u32
}

/// The byte image of a whole vector: the elements' byte groups, in order.
pub open spec fn vector_bytes(v: Seq<u32>) -> Seq<u8>
    decreases v.len(),
{
    if v.len() == 0 {
        Seq::empty()
    } else {
        vector_bytes(v.drop_last()) + elem_bytes(v.last())
    }
}

/// The vector read back from a byte image: one element per aligned group of
/// four bytes.
pub open spec fn bytes_vector(s: Seq<u8>) -> Seq<u32> {
    Seq::new(s.len() / 4, |i: int| bytes_elem(s.subrange(4 * i, 4 * i + 4)))
}

/// Decoding the four bytes of an element yields the element back.
pub proof fn lemma_elem_round_trip(x: u32)
    ensures
        bytes_elem(elem_bytes(x)) == x,
{
    let q1 = x / 256;
    let q2 = q1 / 256;
    let q3 = q2 / 256;
    assert(x == 256 * q1 + x % 256);
    assert(q1 == 256 * q2 + q1 % 256);
    assert(q2 == 256 * q3 + q2 % 256);
    assert(q3 < 256);
}

/// A vector's byte image holds four bytes per element.
pub proof fn lemma_vector_bytes_len(v: Seq<u32>)
    ensures
        vector_bytes(v).len() == 4 * v.len(),
    decreases v.len(),
{
    if v.len() > 0 {
        lemma_vector_bytes_len(v.drop_last());
    }
}

/// Byte `k` of a vector's image is byte `k % 4` of element `k / 4`.
pub proof fn lemma_vector_bytes_index(v: Seq<u32>, k: int)
    requires
        0 <= k < 4 * v.len(),
    ensures
        vector_bytes(v)[k] == elem_bytes(v[k / 4])[k % 4],
    decreases v.len(),
{
    lemma_vector_bytes_len(v.drop_last());
    if k < 4 * (v.len() - 1) {
        lemma_vector_bytes_index(v.drop_last(), k);
    }
}

/// Appending one element to a vector appends its four bytes to the image.
pub proof fn lemma_vector_bytes_snoc(v: Seq<u32>, i: int)
    requires
        0 <= i < v.len(),
    ensures
        vector_bytes(v.take(i + 1)) == vector_bytes(v.take(i)) + elem_bytes(v[i]),
{
    assert(v.take(i + 1).drop_last() =~= v.take(i));
    assert(v.take(i + 1).last() == v[i]);
}

/// Reading a vector back from its own byte image yields the vector.
pub proof fn lemma_codec_round_trip(v: Seq<u32>)
    ensures
        bytes_vector(vector_bytes(v)) == v,
{
    lemma_vector_bytes_len(v);
    assert forall|i: int| 0 <= i < v.len() implies bytes_vector(vector_bytes(v))[i] == v[i] by {
        let sub = vector_bytes(v).subrange(4 * i, 4 * i + 4);
        assert forall|j: int| 0 <= j < 4 implies sub[j] == elem_bytes(v[i])[j] by {
            lemma_vector_bytes_index(v, 4 * i + j);
            assert((4 * i + j) / 4 == i);
            assert((4 * i + j) % 4 == j);
        };
        assert(sub =~= elem_bytes(v[i]));
        lemma_elem_round_trip(v[i]);
    };
    assert(bytes_vector(vector_bytes(v)) =~= v);
}

/// Lay a host vector out as buffer bytes, four per element, least
/// significant byte first.
pub fn encode_vector(v: &Vec<u32>) -> (r: Vec<u8>)
    ensures
        r@ == vector_bytes(v@),
{
    let mut r: Vec<u8> = Vec::new();
    let mut i: usize = 0;
    while i < v.len()
        invariant
            i <= v@.len(),
            r@ == vector_bytes(v@.take(i as int)),
        decreases v@.len() - i,
    {
        let x: u32 = v[i];
        r.push((x % 256) as u8);
        r.push(((x / 256) % 256) as u8);
        r.push((((x / 256) / 256) % 256) as u8);
        r.push((((x / 256) / 256) / 256) as u8);
        proof {
            lemma_vector_bytes_snoc(v@, i as int);
        }
        i += 1;
    }
    proof {
        assert(v@.take(v@.len() as int) =~= v@);
    }
    r
}

/// Read a host vector out of buffer bytes, one element per aligned group of
/// four bytes.
pub fn decode_vector(b: &Vec<u8>) -> (r: Vec<u32>)
    requires
        b@.len() % 4 == 0,
    ensures
        r@ == bytes_vector(b@),
{
    let mut r: Vec<u32> = Vec::new();
    let mut i: usize = 0;
    while i < b.len() / 4
        invariant
            b@.len() % 4 == 0,
            i <= b@.len() / 4,
            r@ == bytes_vector(b@).take(i as int),
        decreases b@.len() / 4 - i,
    {
        let x: u32 = (b[4 * i] as u32) + 256 * (b[4 * i + 1] as u32) + 65536 * (b[4 * i + 2]
            as u32) + 16777216 * (b[4 * i + 3] as u32);
        r.push(x);
        proof {
            let bs = b@;
            let ii = i as int;
            assert(x == bytes_elem(bs.subrange(4 * ii, 4 * ii + 4)));
            assert(bytes_vector(bs).take(ii + 1) =~= bytes_vector(bs).take(ii).push(
                bytes_vector(bs)[ii],
            ));
        }
        i += 1;
    }
    proof {
        assert(bytes_vector(b@).take((b@.len() / 4) as int) =~= bytes_vector(b@));
    }
    r
}

} // verus!
