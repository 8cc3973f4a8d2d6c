use vstd::prelude::*;
use crate::error::EarsError;
use crate::region::{
    AlfalfaEraseEntryData, decode_regions, decode_regions_spec, encode_regions,
    encode_regions_spec, is_region_blob,
};

verus! {

/// Key of the erase-region blob.
pub open spec fn erase_key() -> Seq<char> {
    seq!['e', 'r', 'a', 's', 'e']
}

/// Key of the wing image bytes.
pub open spec fn wing_key() -> Seq<char> {
    seq!['w', 'i', 'n', 'g']
}

/// Key of the cape image bytes.
pub open spec fn cape_key() -> Seq<char> {
    seq!['c', 'a', 'p', 'e']
}

pub fn erase_key_string() -> (s: String)
    ensures
        s@ == erase_key(),
{
    proof {
        reveal_strlit("erase");
    }
    "erase".to_owned()
}

pub fn wing_key_string() -> (s: String)
    ensures
        s@ == wing_key(),
{
    proof {
        reveal_strlit("wing");
    }
    "wing".to_owned()
}

pub fn cape_key_string() -> (s: String)
    ensures
        s@ == cape_key(),
{
    proof {
        reveal_strlit("cape");
    }
    "cape".to_owned()
}

/// The mapping that a list of entries denotes: a later entry overrides an
/// earlier one with the same key.
pub open spec fn entries_view(s: Seq<(String, Vec<u8>)>) -> Map<Seq<char>, Seq<u8>>
    decreases s.len(),
{
    if s.len() == 0 {
        Map::empty()
    } else {
        entries_view(s.drop_last()).insert(s.last().0@, s.last().1@)
    }
}

/// No two entries share a key.
pub open spec fn keys_unique(s: Seq<(String, Vec<u8>)>) -> bool {
    forall|i: int, j: int| 0 <= i < s.len() && 0 <= j < s.len() && i != j ==> s[i].0@ != s[j].0@
}

proof fn lemma_view_absent(s: Seq<(String, Vec<u8>)>, k: Seq<char>)
    requires
        forall|i: int| 0 <= i < s.len() ==> s[i].0@ != k,
    ensures
        !entries_view(s).contains_key(k),
    decreases s.len(),
{
    if s.len() > 0 {
        lemma_view_absent(s.drop_last(), k);
    }
}

pub(crate) proof fn lemma_view_index(s: Seq<(String, Vec<u8>)>, i: int)
    requires
        keys_unique(s),
        0 <= i < s.len(),
    ensures
        entries_view(s).contains_key(s[i].0@),
        entries_view(s)[s[i].0@] == s[i].1@,
    decreases s.len(),
{
    if i < s.len() - 1 {
        lemma_view_index(s.drop_last(), i);
    }
}

pub(crate) proof fn lemma_view_has_index(s: Seq<(String, Vec<u8>)>, k: Seq<char>) -> (i: int)
    requires
        entries_view(s).contains_key(k),
    ensures
        0 <= i < s.len(),
        s[i].0@ == k,
{
    if exists|i: int| 0 <= i < s.len() && s[i].0@ == k {
        choose|i: int| 0 <= i < s.len() && s[i].0@ == k
    } else {
        lemma_view_absent(s, k);
        0
    }
}

proof fn lemma_view_update(s: Seq<(String, Vec<u8>)>, i: int, e: (String, Vec<u8>))
    requires
        keys_unique(s),
        0 <= i < s.len(),
        s[i].0@ == e.0@,
    ensures
        entries_view(s.update(i, e)) == entries_view(s).insert(e.0@, e.1@),
    decreases s.len(),
{
    let t = s.update(i, e);
    if i == s.len() - 1 {
        assert(t.drop_last() =~= s.drop_last());
        lemma_view_absent(s.drop_last(), e.0@);
        assert(entries_view(t) =~= entries_view(s).insert(e.0@, e.1@));
    } else {
        lemma_view_update(s.drop_last(), i, e);
        assert(t.drop_last() =~= s.drop_last().update(i, e));
        assert(entries_view(t) =~= entries_view(s).insert(e.0@, e.1@));
    }
}

proof fn lemma_view_remove(s: Seq<(String, Vec<u8>)>, i: int)
    requires
        keys_unique(s),
        0 <= i < s.len(),
    ensures
        entries_view(s.remove(i)) == entries_view(s).remove(s[i].0@),
    decreases s.len(),
{
    let t = s.remove(i);
    if i == s.len() - 1 {
        assert(t =~= s.drop_last());
        lemma_view_absent(s.drop_last(), s[i].0@);
        assert(entries_view(t) =~= entries_view(s).remove(s[i].0@));
    } else {
        lemma_view_remove(s.drop_last(), i);
        assert(t.drop_last() =~= s.drop_last().remove(i));
        assert(entries_view(t) =~= entries_view(s).remove(s[i].0@));
    }
}

/// The versioned key/value container carried by a skin. Keys are unique and
/// their order carries no meaning.
#[derive(Clone, Debug)]
pub struct AlfalfaData {
    version: u8,
    entries: Vec<(String, Vec<u8>)>,
}

impl View for AlfalfaData {
    type V = Map<Seq<char>, Seq<u8>>;

    closed spec fn view(&self) -> Map<Seq<char>, Seq<u8>> {
        entries_view(self.entries@)
    }
}

impl AlfalfaData {
    /// Well-formedness: no two entries share a key.
    pub closed spec fn wf(&self) -> bool {
        keys_unique(self.entries@)
    }

    /// The entries in storage order.
    pub closed spec fn spec_entries(&self) -> Seq<(String, Vec<u8>)> {
        self.entries@
    }

    /// The mapping is the one the stored entries denote.
    pub proof fn lemma_entries(&self)
        ensures
            entries_view(self.spec_entries()) == self@,
            self.wf() ==> keys_unique(self.spec_entries()),
    {
    }

    /// The format revision of the container.
    pub closed spec fn spec_version(&self) -> u8 {
        self.version
    }

    /// An empty container of version 0.
    pub fn new() -> (r: Self)
        ensures
            r.wf(),
            r@ == Map::<Seq<char>, Seq<u8>>::empty(),
            r.spec_version() == 0,
    {
        Self::with_version(0)
    }

    /// An empty container of the given version.
    pub fn with_version(version: u8) -> (r: Self)
        ensures
            r.wf(),
            r@ == Map::<Seq<char>, Seq<u8>>::empty(),
            r.spec_version() == version,
    {
        AlfalfaData { version, entries: Vec::new() }
    }

    pub fn version(&self) -> (r: u8)
        ensures
            r == self.spec_version(),
    {
        self.version
    }

    /// The position of the entry with key `key`, if any.
    fn find(&self, key: &String) -> (r: Option<usize>)
        ensures
            r matches Some(i) ==> i < self.entries@.len() && self.entries@[i as int].0@ == key@,
            r is None ==> !self@.contains_key(key@),
            r is None ==> forall|j: int| 0 <= j < self.entries@.len() ==> self.entries@[j].0@ != key@,
    {
        let mut i: usize = 0;
        while i < self.entries.len()
            invariant
                i <= self.entries@.len(),
                forall|j: int| 0 <= j < i ==> self.entries@[j].0@ != key@,
            decreases self.entries@.len() - i,
        {
            if self.entries[i].0 == *key {
                return Some(i);
            }
            i = i + 1;
        }
        proof {
            lemma_view_absent(self.entries@, key@);
        }
        None
    }

    /// The blob stored under `key`, if any.
    pub fn get(&self, key: &String) -> (r: Option<&Vec<u8>>)
        requires
            self.wf(),
        ensures
            r is Some <==> self@.contains_key(key@),
            r matches Some(v) ==> v@ == self@[key@],
    {
        match self.find(key) {
            Some(i) => {
                proof {
                    lemma_view_index(self.entries@, i as int);
                }
                Some(&self.entries[i].1)
            },
            None => None,
        }
    }

    /// Stores `value` under `key`, replacing any earlier value.
    pub fn set(&mut self, key: String, value: Vec<u8>)
        requires
            old(self).wf(),
        ensures
            final(self).wf(),
            final(self)@ == old(self)@.insert(key@, value@),
            final(self).spec_version() == old(self).spec_version(),
    {
        match self.find(&key) {
            Some(i) => {
                proof {
                    lemma_view_update(self.entries@, i as int, (key, value));
                }
                self.entries.set(i, (key, value));
            },
            None => {
                proof {
                    lemma_view_absent(self.entries@, key@);
                }
                self.entries.push((key, value));
                assert(self.entries@.drop_last() =~= old(self).entries@);
            },
        }
    }

    /// Removes the entry with key `key`, if any.
    pub fn remove(&mut self, key: &String)
        requires
            old(self).wf(),
        ensures
            final(self).wf(),
            final(self)@ == old(self)@.remove(key@),
            final(self).spec_version() == old(self).spec_version(),
    {
        match self.find(key) {
            Some(i) => {
                proof {
                    lemma_view_remove(self.entries@, i as int);
                }
                self.entries.remove(i);
            },
            None => {
                assert(old(self)@.remove(key@) =~= old(self)@);
            },
        }
    }

    /// Whether the container holds no entry, whatever its version.
    pub fn is_empty(&self) -> (r: bool)
        requires
            self.wf(),
        ensures
            r <==> self@ == Map::<Seq<char>, Seq<u8>>::empty(),
    {
        if self.entries.len() == 0 {
            assert(self@ =~= Map::<Seq<char>, Seq<u8>>::empty());
            true
        } else {
            proof {
                lemma_view_index(self.entries@, 0);
            }
            assert(self@.contains_key(self.entries@[0].0@));
            false
        }
    }
}


/// What `get_erase_regions` reports for a container whose mapping is `m`.
pub open spec fn erase_regions_of(m: Map<Seq<char>, Seq<u8>>) -> Result<Option<Seq<AlfalfaEraseEntryData>>, EarsError> {
    if !m.contains_key(erase_key()) {
        Ok(None)
    } else if is_region_blob(m[erase_key()]) {
        Ok(Some(decode_regions_spec(m[erase_key()])))
    } else {
        Err(EarsError::DecodeError)
    }
}

/// The mapping after storing the rectangles `rs`: an empty list is held as the
/// absence of the erase key, never as an empty blob.
pub open spec fn with_erase_regions(m: Map<Seq<char>, Seq<u8>>, rs: Seq<AlfalfaEraseEntryData>) -> Map<Seq<char>, Seq<u8>> {
    if rs.len() == 0 {
        m.remove(erase_key())
    } else {
        m.insert(erase_key(), encode_regions_spec(rs))
    }
}

impl AlfalfaData {
    /// A container of the given version holding `entries`; where keys repeat,
    /// the later entry wins.
    pub fn new_raw(version: u8, entries: Vec<(String, Vec<u8>)>) -> (r: Self)
        ensures
            r.wf(),
            r@ == entries_view(entries@),
            r.spec_version() == version,
    {
        let mut r = Self::with_version(version);
        let ghost all = entries@;
        let mut rest = entries;
        let mut i: usize = 0;
        let n = rest.len();
        while i < n
            invariant
                n == all.len(),
                i <= n,
                rest@ == all.subrange(i as int, n as int),
                r.wf(),
                r.spec_version() == version,
                r@ == entries_view(all.subrange(0, i as int)),
            decreases n - i,
        {
            let e = rest.remove(0);
            assert(all.subrange(0, i + 1).drop_last() =~= all.subrange(0, i as int));
            r.set(e.0, e.1);
            i = i + 1;
        }
        assert(all.subrange(0, n as int) =~= all);
        r
    }

    /// The version and the entries, in no particular order.
    pub fn into_raw(self) -> (r: (u8, Vec<(String, Vec<u8>)>))
        requires
            self.wf(),
        ensures
            r.0 == self.spec_version(),
            keys_unique(r.1@),
            entries_view(r.1@) == self@,
    {
        (self.version, self.entries)
    }

    /// The entries, in no particular order.
    pub fn entries(&self) -> (r: &Vec<(String, Vec<u8>)>)
        ensures
            r@ == self.spec_entries(),
    {
        &self.entries
    }

    /// The erase rectangles: `None` when no erase key is stored, an error when
    /// its blob is not a whole number of records.
    pub fn get_erase_regions(&self) -> (r: Result<Option<Vec<AlfalfaEraseEntryData>>, EarsError>)
        requires
            self.wf(),
        ensures
            r matches Ok(Some(rs)) ==> erase_regions_of(self@) == Ok::<_, EarsError>(Some(rs@)),
            r matches Ok(None) ==> erase_regions_of(self@) == Ok::<Option<Seq<AlfalfaEraseEntryData>>, EarsError>(None),
            r matches Err(e) ==> erase_regions_of(self@) == Err::<Option<Seq<AlfalfaEraseEntryData>>, _>(e),
    {
        let key = erase_key_string();
        match self.get(&key) {
            None => Ok(None),
            Some(blob) => match decode_regions(blob.as_slice()) {
                Ok(rs) => Ok(Some(rs)),
                Err(e) => Err(e),
            },
        }
    }

    /// Stores the erase rectangles; an empty list removes the erase key.
    pub fn set_erase_regions(&mut self, rs: &Vec<AlfalfaEraseEntryData>)
        requires
            old(self).wf(),
            4 * rs@.len() <= usize::MAX,
        ensures
            final(self).wf(),
            final(self)@ == with_erase_regions(old(self)@, rs@),
            final(self).spec_version() == old(self).spec_version(),
    {
        let key = erase_key_string();
        if rs.len() == 0 {
            self.remove(&key);
        } else {
            let blob = encode_regions(rs);
            self.set(key, blob);
        }
    }
}


/// Copies a byte blob.
pub fn copy_bytes(b: &Vec<u8>) -> (r: Vec<u8>)
    ensures
        r@ == b@,
{
    let r = b.clone();
    assert(r@ =~= b@);
    r
}

/// Storing rectangles and reading them back gives the same rectangles, in
/// order; storing none leaves no erase key at all.
pub proof fn lemma_erase_regions_round_trip(m: Map<Seq<char>, Seq<u8>>, rs: Seq<AlfalfaEraseEntryData>)
    ensures
        rs.len() == 0 ==> !with_erase_regions(m, rs).contains_key(erase_key()),
        rs.len() == 0 ==> erase_regions_of(with_erase_regions(m, rs)) == Ok::<Option<Seq<AlfalfaEraseEntryData>>, EarsError>(None),
        rs.len() > 0 ==> erase_regions_of(with_erase_regions(m, rs)) == Ok::<_, EarsError>(Some(rs)),
{
    crate::region::lemma_regions_round_trip(rs);
}

} // verus!
