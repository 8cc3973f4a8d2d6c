use vstd::prelude::*;
use crate::container::{
    AlfalfaData, entries_view, erase_key, erase_key_string, erase_regions_of, keys_unique,
    with_erase_regions, cape_key, wing_key, copy_bytes, cape_key_string, wing_key_string,
};
use crate::error::EarsError;
use crate::region::{AlfalfaEraseEntryData, decode_regions, decode_regions_spec, is_region_blob};

verus! {

/// One container entry as an inspector shows it: images and erase rectangles
/// are told apart from opaque blobs by their key.
#[derive(Clone, Debug, PartialEq, Eq)]
pub enum AlfalfaEntryData {
    Binary(Vec<u8>),
    Image(Vec<u8>),
    Erase(Vec<AlfalfaEraseEntryData>),
}

/// `e` shows the blob `v` stored under `k`.
pub open spec fn entry_describes(k: Seq<char>, v: Seq<u8>, e: AlfalfaEntryData) -> bool {
    if k == wing_key() || k == cape_key() {
        e matches AlfalfaEntryData::Image(b) && b@ == v
    } else if k == erase_key() {
        e matches AlfalfaEntryData::Erase(rs) && rs@ == decode_regions_spec(v)
    } else {
        e matches AlfalfaEntryData::Binary(b) && b@ == v
    }
}

/// `l` lists the entries `raw`, in the same order, each shown by its kind.
pub open spec fn lists_entries(l: Seq<(String, AlfalfaEntryData)>, raw: Seq<(String, Vec<u8>)>) -> bool {
    &&& l.len() == raw.len()
    &&& forall|i: int| 0 <= i < l.len() ==> #[trigger] l[i].0@ == raw[i].0@ && entry_describes(raw[i].0@, raw[i].1@, l[i].1)
}

/// Lists the entries of a container. An erase blob that is not a whole number
/// of records makes the listing fail.
pub fn read_entries(alfalfa: &AlfalfaData) -> (r: Result<Vec<(String, AlfalfaEntryData)>, EarsError>)
    requires
        alfalfa.wf(),
    ensures
        r is Ok <==> erase_regions_of(alfalfa@) is Ok,
        r is Err ==> r == Err::<Vec<(String, AlfalfaEntryData)>, _>(EarsError::DecodeError),
        r matches Ok(l) ==> lists_entries(l@, alfalfa.spec_entries()),
{
    let raw = alfalfa.entries();
    proof {
        alfalfa.lemma_entries();
    }
    let wing = wing_key_string();
    let cape = cape_key_string();
    let erase = erase_key_string();
    let mut out: Vec<(String, AlfalfaEntryData)> = Vec::new();
    let mut i: usize = 0;
    while i < raw.len()
        invariant
            raw@ == alfalfa.spec_entries(),
            keys_unique(raw@),
            entries_view(raw@) == alfalfa@,
            wing@ == wing_key(),
            cape@ == cape_key(),
            erase@ == erase_key(),
            i <= raw@.len(),
            lists_entries(out@, raw@.subrange(0, i as int)),
            forall|j: int| 0 <= j < i && raw@[j].0@ == erase_key() ==> is_region_blob(#[trigger] raw@[j].1@),
        decreases raw@.len() - i,
    {
        let key = &raw[i].0;
        let value = &raw[i].1;
        let entry = if *key == wing || *key == cape {
            AlfalfaEntryData::Image(copy_bytes(value))
        } else if *key == erase {
            match decode_regions(value.as_slice()) {
                Ok(rs) => AlfalfaEntryData::Erase(rs),
                Err(e) => {
                    proof {
                        crate::container::lemma_view_index(raw@, i as int);
                    }
                    return Err(e);
                },
            }
        } else {
            AlfalfaEntryData::Binary(copy_bytes(value))
        };
        assert(entry_describes(raw@[i as int].0@, raw@[i as int].1@, entry));
        let k = key.clone();
        assert(k@ == raw@[i as int].0@);
        let ghost before = out@;
        out.push((k, entry));
        i = i + 1;
        assert(lists_entries(out@, raw@.subrange(0, i as int))) by {
            let cur = raw@.subrange(0, i as int);
            let prev = raw@.subrange(0, i - 1);
            assert forall|j: int| 0 <= j < out@.len() implies #[trigger] out@[j].0@ == cur[j].0@
                && entry_describes(cur[j].0@, cur[j].1@, out@[j].1) by {
                if j < i - 1 {
                    assert(cur[j] == prev[j]);
                    assert(out@[j] == before[j]);
                    assert(before[j].0@ == prev[j].0@);
                } else {
                    assert(cur[j] == raw@[i - 1]);
                }
            }
        }
    }
    assert(raw@.subrange(0, raw@.len() as int) =~= raw@);
    proof {
        if alfalfa@.contains_key(erase_key()) {
            let j = crate::container::lemma_view_has_index(raw@, erase_key());
            crate::container::lemma_view_index(raw@, j);
        }
    }
    Ok(out)
}

/// The mapping after taking in one listed entry: erase rectangles are stored
/// only under the erase key, blobs and images only under any other key.
pub open spec fn apply_entry(m: Map<Seq<char>, Seq<u8>>, k: Seq<char>, e: AlfalfaEntryData) -> Map<Seq<char>, Seq<u8>> {
    if k == erase_key() {
        match e {
            AlfalfaEntryData::Erase(rs) => with_erase_regions(m, rs@),
            _ => m,
        }
    } else {
        match e {
            AlfalfaEntryData::Binary(b) => m.insert(k, b@),
            AlfalfaEntryData::Image(b) => m.insert(k, b@),
            AlfalfaEntryData::Erase(_) => m,
        }
    }
}

/// The mapping built from a listing, entry after entry.
pub open spec fn listing_view(l: Seq<(String, AlfalfaEntryData)>) -> Map<Seq<char>, Seq<u8>>
    decreases l.len(),
{
    if l.len() == 0 {
        Map::empty()
    } else {
        apply_entry(listing_view(l.drop_last()), l.last().0@, l.last().1)
    }
}

/// Whether the rectangle list of an entry, if it would be stored, fits the encoder.
pub open spec fn entry_encodable(k: Seq<char>, e: AlfalfaEntryData) -> bool {
    (k == erase_key() && e is Erase) ==> 4 * e->Erase_0@.len() <= usize::MAX
}

/// Whether every rectangle list of a listing that would be stored fits the encoder.
pub open spec fn listing_encodable(l: Seq<(String, AlfalfaEntryData)>) -> bool {
    forall|i: int| 0 <= i < l.len() ==> #[trigger] entry_encodable(l[i].0@, l[i].1)
}

/// Builds a container of version 0 from a listing.
pub fn write_entries(entries: Vec<(String, AlfalfaEntryData)>) -> (r: Result<AlfalfaData, EarsError>)
    ensures
        r is Ok <==> listing_encodable(entries@),
        r is Err ==> r == Err::<AlfalfaData, _>(EarsError::EncodeError),
        r matches Ok(a) ==> a.wf() && a@ == listing_view(entries@) && a.spec_version() == 0,
{
    let ghost all = entries@;
    let erase = erase_key_string();
    let mut a = AlfalfaData::new();
    let mut rest = entries;
    let mut i: usize = 0;
    let n = rest.len();
    while i < n
        invariant
            n == all.len(),
            all == entries@,
            i <= n,
            rest@ == all.subrange(i as int, n as int),
            erase@ == erase_key(),
            a.wf(),
            a.spec_version() == 0,
            a@ == listing_view(all.subrange(0, i as int)),
            listing_encodable(all.subrange(0, i as int)),
        decreases n - i,
    {
        let (key, entry) = rest.remove(0);
        assert(all.subrange(0, i + 1).drop_last() =~= all.subrange(0, i as int));
        assert(all[i as int] == (key, entry));
        if key == erase {
            if let AlfalfaEntryData::Erase(rs) = entry {
                if rs.len() > usize::MAX / 4 {
                    assert(!entry_encodable(all[i as int].0@, all[i as int].1));
                    assert(!listing_encodable(all));
                    return Err(EarsError::EncodeError);
                }
                a.set_erase_regions(&rs);
            }
        } else {
            match entry {
                AlfalfaEntryData::Binary(b) => a.set(key, b),
                AlfalfaEntryData::Image(b) => a.set(key, b),
                AlfalfaEntryData::Erase(_) => {},
            }
        }
        i = i + 1;
        assert(listing_encodable(all.subrange(0, i as int))) by {
            assert forall|j: int| 0 <= j < i implies #[trigger] entry_encodable(all.subrange(0, i as int)[j].0@, all.subrange(0, i as int)[j].1) by {
                if j < i - 1 {
                    assert(all.subrange(0, i as int)[j] == all.subrange(0, i - 1)[j]);
                }
            }
        }
    }
    assert(all.subrange(0, n as int) =~= all);
    Ok(a)
}


/// Whether a stored erase blob, if any, is a non-empty whole number of records.
pub open spec fn erase_blob_canonical(raw: Seq<(String, Vec<u8>)>) -> bool {
    forall|i: int| 0 <= i < raw.len() && #[trigger] raw[i].0@ == erase_key() ==> is_region_blob(raw[i].1@) && raw[i].1@.len() > 0
}

/// Listing a container's entries and building a container from that listing
/// gives back the same entries, custom blobs (empty ones included), images and
/// erase rectangles alike, provided a stored erase blob is non-empty and whole.
pub proof fn lemma_listing_round_trip(raw: Seq<(String, Vec<u8>)>, l: Seq<(String, AlfalfaEntryData)>)
    requires
        lists_entries(l, raw),
        erase_blob_canonical(raw),
    ensures
        listing_view(l) == entries_view(raw),
    decreases raw.len(),
{
    if raw.len() > 0 {
        let n = raw.len() - 1;
        assert(lists_entries(l.drop_last(), raw.drop_last())) by {
            assert forall|i: int| 0 <= i < l.drop_last().len() implies #[trigger] l.drop_last()[i].0@ == raw.drop_last()[i].0@
                && entry_describes(raw.drop_last()[i].0@, raw.drop_last()[i].1@, l.drop_last()[i].1) by {
                assert(l[i].0@ == raw[i].0@);
            }
        }
        assert(erase_blob_canonical(raw.drop_last())) by {
            assert forall|i: int| 0 <= i < raw.drop_last().len() && #[trigger] raw.drop_last()[i].0@ == erase_key() implies
                is_region_blob(raw.drop_last()[i].1@) && raw.drop_last()[i].1@.len() > 0 by {
                assert(raw[i] == raw.drop_last()[i]);
            }
        }
        lemma_listing_round_trip(raw.drop_last(), l.drop_last());
        let k = raw[n].0@;
        let v = raw[n].1@;
        assert(l[n].0@ == k);
        assert(wing_key() != erase_key()) by {
            assert(wing_key().len() != erase_key().len());
        }
        assert(cape_key() != erase_key()) by {
            assert(cape_key().len() != erase_key().len());
        }
        if k == erase_key() {
            crate::region::lemma_blob_round_trip(v);
            assert(decode_regions_spec(v).len() > 0);
        }
    }
}


proof fn lemma_listing_erase_blob(l: Seq<(String, AlfalfaEntryData)>)
    ensures
        listing_view(l).contains_key(erase_key()) ==> is_region_blob(listing_view(l)[erase_key()])
            && listing_view(l)[erase_key()].len() > 0,
    decreases l.len(),
{
    if l.len() > 0 {
        lemma_listing_erase_blob(l.drop_last());
        if l.last().0@ == erase_key() {
            if let AlfalfaEntryData::Erase(rs) = l.last().1 {
                crate::region::lemma_regions_round_trip(rs@);
            }
        }
    }
}

/// Building a container from a listing and listing it again describes the
/// same entries: every key comes back, custom blobs (empty ones included) as
/// the same bytes, images as images, and erase rectangles in their order.
pub proof fn lemma_listing_write_read(
    l: Seq<(String, AlfalfaEntryData)>,
    raw: Seq<(String, Vec<u8>)>,
    back: Seq<(String, AlfalfaEntryData)>,
)
    requires
        keys_unique(raw),
        entries_view(raw) == listing_view(l),
        lists_entries(back, raw),
    ensures
        listing_view(back) == listing_view(l),
{
    lemma_listing_erase_blob(l);
    assert(erase_blob_canonical(raw)) by {
        assert forall|i: int| 0 <= i < raw.len() && #[trigger] raw[i].0@ == erase_key() implies
            is_region_blob(raw[i].1@) && raw[i].1@.len() > 0 by {
            crate::container::lemma_view_index(raw, i);
        }
    }
    lemma_listing_round_trip(raw, back);
}

} // verus!
