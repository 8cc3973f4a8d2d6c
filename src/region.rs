use vstd::prelude::*;

verus! {

/// A rectangle of the base texture to be treated as fully transparent.
/// Coordinates and extents are texture pixels, each in `0..=255`.
#[derive(Clone, Copy, PartialEq, Eq, Structural, Debug)]
pub struct AlfalfaEraseEntryData {
    pub x: u8,
    pub y: u8,
    pub width: u8,
    pub height: u8,
}

/// Width in bytes of one encoded rectangle.
pub const REGION_RECORD_LEN: usize = 4;

/// Byte `j` (`0 <= j < 4`) of the record of `r`: x, y, width, height in that order.
pub open spec fn region_byte(r: AlfalfaEraseEntryData, j: int) -> u8 {
    if j == 0 {
        r.x
    } else if j == 1 {
        r.y
    } else if j == 2 {
        r.width
    } else {
        r.height
    }
}

/// The blob that holds the rectangles `rs`: one four-byte record per rectangle, in order.
pub open spec fn encode_regions_spec(rs: Seq<AlfalfaEraseEntryData>) -> Seq<u8> {
    Seq::new(4 * rs.len(), |i: int| region_byte(rs[i / 4], i % 4))
}

/// The rectangle held by the record that starts at byte `4 * k` of `b`.
pub open spec fn region_at(b: Seq<u8>, k: int) -> AlfalfaEraseEntryData {
    AlfalfaEraseEntryData { x: b[4 * k], y: b[4 * k + 1], width: b[4 * k + 2], height: b[4 * k + 3] }
}

/// The rectangles held by a blob whose length is a multiple of the record width.
pub open spec fn decode_regions_spec(b: Seq<u8>) -> Seq<AlfalfaEraseEntryData> {
    Seq::new(b.len() / 4, |k: int| region_at(b, k))
}

/// Whether a blob has a whole number of records.
pub open spec fn is_region_blob(b: Seq<u8>) -> bool {
    b.len() % 4 == 0
}

proof fn lemma_record_index(k: int, j: int)
    requires
        0 <= j < 4,
    ensures
        (4 * k + j) / 4 == k,
        (4 * k + j) % 4 == j,
{
}

impl AlfalfaEraseEntryData {
    /// Builds a rectangle from wider integers, rejecting any value that does not fit a byte.
    pub fn try_new(x: u32, y: u32, width: u32, height: u32) -> (r: Result<Self, crate::error::EarsError>)
        ensures
            (x <= 255 && y <= 255 && width <= 255 && height <= 255) <==> r is Ok,
            r matches Ok(v) ==> v.x == x && v.y == y && v.width == width && v.height == height,
            r is Err ==> r == Err::<Self, _>(crate::error::EarsError::InvalidArgument),
    {
        if x <= 255 && y <= 255 && width <= 255 && height <= 255 {
            Ok(AlfalfaEraseEntryData { x: x as u8, y: y as u8, width: width as u8, height: height as u8 })
        } else {
            Err(crate::error::EarsError::InvalidArgument)
        }
    }
}

/// Encodes rectangles as consecutive four-byte records (x, y, width, height).
pub fn encode_regions(rs: &Vec<AlfalfaEraseEntryData>) -> (b: Vec<u8>)
    requires
        4 * rs@.len() <= usize::MAX,
    ensures
        b@ == encode_regions_spec(rs@),
{
    let mut b: Vec<u8> = Vec::new();
    let mut i: usize = 0;
    while i < rs.len()
        invariant
            i <= rs@.len(),
            4 * rs@.len() <= usize::MAX,
            b@.len() == 4 * i,
            forall|j: int| 0 <= j < 4 * i ==> b@[j] == region_byte(rs@[j / 4], j % 4),
        decreases rs@.len() - i,
    {
        let r = rs[i];
        proof {
            lemma_record_index(i as int, 0);
            lemma_record_index(i as int, 1);
            lemma_record_index(i as int, 2);
            lemma_record_index(i as int, 3);
        }
        b.push(r.x);
        b.push(r.y);
        b.push(r.width);
        b.push(r.height);
        i = i + 1;
    }
    assert(b@ =~= encode_regions_spec(rs@));
    b
}

/// Decodes a blob of four-byte records. A blob whose length is not a multiple
/// of the record width is corrupt.
pub fn decode_regions(b: &[u8]) -> (r: Result<Vec<AlfalfaEraseEntryData>, crate::error::EarsError>)
    ensures
        is_region_blob(b@) <==> r is Ok,
        r matches Ok(rs) ==> rs@ == decode_regions_spec(b@),
        r is Err ==> r == Err::<Vec<AlfalfaEraseEntryData>, _>(crate::error::EarsError::DecodeError),
{
    if b.len() % REGION_RECORD_LEN != 0 {
        return Err(crate::error::EarsError::DecodeError);
    }
    let n: usize = b.len() / REGION_RECORD_LEN;
    let mut rs: Vec<AlfalfaEraseEntryData> = Vec::new();
    let mut k: usize = 0;
    while k < n
        invariant
            k <= n,
            n == b@.len() / 4,
            b@.len() % 4 == 0,
            b@.len() == b.len(),
            rs@.len() == k,
            forall|m: int| 0 <= m < k ==> rs@[m] == region_at(b@, m),
        decreases n - k,
    {
        assert(4 * k + 3 < b@.len());
        let base: usize = 4 * k;
        rs.push(AlfalfaEraseEntryData { x: b[base], y: b[base + 1], width: b[base + 2], height: b[base + 3] });
        k = k + 1;
    }
    assert(rs@ =~= decode_regions_spec(b@));
    Ok(rs)
}

/// Decoding what was encoded gives back the same rectangles, in the same order.
pub proof fn lemma_regions_round_trip(rs: Seq<AlfalfaEraseEntryData>)
    ensures
        is_region_blob(encode_regions_spec(rs)),
        decode_regions_spec(encode_regions_spec(rs)) == rs,
{
    let b = encode_regions_spec(rs);
    assert(b.len() / 4 == rs.len());
    assert forall|k: int| 0 <= k < rs.len() implies #[trigger] region_at(b, k) == rs[k] by {
        lemma_record_index(k, 0);
        lemma_record_index(k, 1);
        lemma_record_index(k, 2);
        lemma_record_index(k, 3);
    }
    assert(decode_regions_spec(b) =~= rs);
}

/// Encoding what was decoded gives back the same blob.
pub proof fn lemma_blob_round_trip(b: Seq<u8>)
    requires
        is_region_blob(b),
    ensures
        encode_regions_spec(decode_regions_spec(b)) == b,
{
    let rs = decode_regions_spec(b);
    assert(4 * rs.len() == b.len());
    assert forall|i: int| 0 <= i < b.len() implies #[trigger] encode_regions_spec(rs)[i] == b[i] by {
        lemma_record_index(i / 4, i % 4);
    }
    assert(encode_regions_spec(rs) =~= b);
}

} // verus!
