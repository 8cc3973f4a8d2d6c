use vstd::prelude::*;
use crate::container::{AlfalfaData, erase_regions_of, with_erase_regions};
use crate::error::EarsError;
use crate::region::AlfalfaEraseEntryData;
use crate::render::erase_list;
use crate::settings::{map_or_empty, opt_wf};

verus! {

/// An erase-region editing session over one skin: its container and the
/// rectangles being edited.
#[derive(Clone, Debug)]
pub struct EarsImageWorkspace {
    alfalfa: AlfalfaData,
    regions: Vec<AlfalfaEraseEntryData>,
}

fn copy_regions(rs: &Vec<AlfalfaEraseEntryData>) -> (r: Vec<AlfalfaEraseEntryData>)
    ensures
        r@ == rs@,
{
    let mut out: Vec<AlfalfaEraseEntryData> = Vec::new();
    let mut i: usize = 0;
    while i < rs.len()
        invariant
            i <= rs@.len(),
            out@ == rs@.subrange(0, i as int),
        decreases rs@.len() - i,
    {
        out.push(rs[i]);
        i = i + 1;
        assert(out@ =~= rs@.subrange(0, i as int));
    }
    assert(rs@.subrange(0, rs@.len() as int) =~= rs@);
    out
}

impl EarsImageWorkspace {
    pub closed spec fn spec_alfalfa(&self) -> AlfalfaData {
        self.alfalfa
    }

    pub closed spec fn spec_regions(&self) -> Seq<AlfalfaEraseEntryData> {
        self.regions@
    }

    pub open spec fn wf(&self) -> bool {
        self.spec_alfalfa().wf()
    }

    /// Opens a session on the container read from a skin (an empty one when the
    /// skin has none), starting from the rectangles it stores.
    pub fn from_alfalfa(alfalfa: Option<AlfalfaData>) -> (r: Result<Self, EarsError>)
        requires
            opt_wf(alfalfa),
        ensures
            r is Ok <==> erase_regions_of(map_or_empty(alfalfa)) is Ok,
            r is Err ==> r == Err::<Self, _>(EarsError::DecodeError),
            r matches Ok(w) ==> w.wf() && w.spec_alfalfa()@ == map_or_empty(alfalfa)
                && w.spec_regions() == erase_list(alfalfa)
                && w.spec_alfalfa().spec_version() == match alfalfa {
                Some(a) => a.spec_version(),
                None => 0u8,
            },
    {
        let alfalfa = match alfalfa {
            Some(a) => a,
            None => AlfalfaData::new(),
        };
        let regions = match alfalfa.get_erase_regions()? {
            Some(rs) => rs,
            None => Vec::new(),
        };
        Ok(EarsImageWorkspace { alfalfa, regions })
    }

    /// The rectangles being edited.
    pub fn get_regions(&self) -> (r: Vec<AlfalfaEraseEntryData>)
        ensures
            r@ == self.spec_regions(),
    {
        copy_regions(&self.regions)
    }

    /// Replaces the rectangles being edited.
    pub fn set_regions(&mut self, regions: Vec<AlfalfaEraseEntryData>)
        ensures
            final(self).spec_regions() == regions@,
            final(self).spec_alfalfa() == old(self).spec_alfalfa(),
    {
        self.regions = regions;
    }

    /// The container of the session.
    pub fn alfalfa(&self) -> (r: &AlfalfaData)
        ensures
            *r == self.spec_alfalfa(),
    {
        &self.alfalfa
    }

    /// Stores the edited rectangles in the container and tells whether the
    /// container is left empty, in which case the skin needs no transparency
    /// to hide it. Too many rectangles to encode are refused.
    pub fn prepare_encode(&mut self) -> (r: Result<bool, EarsError>)
        requires
            old(self).wf(),
        ensures
            final(self).wf(),
            final(self).spec_regions() == old(self).spec_regions(),
            r is Ok <==> 4 * old(self).spec_regions().len() <= usize::MAX,
            r is Err ==> r == Err::<bool, _>(EarsError::EncodeError) && *final(self) == *old(self),
            r matches Ok(strip) ==> final(self).spec_alfalfa()@ == with_erase_regions(old(self).spec_alfalfa()@, old(self).spec_regions())
                && final(self).spec_alfalfa().spec_version() == old(self).spec_alfalfa().spec_version()
                && (strip <==> final(self).spec_alfalfa()@ == Map::<Seq<char>, Seq<u8>>::empty()),
    {
        if self.regions.len() > usize::MAX / 4 {
            return Err(EarsError::EncodeError);
        }
        self.alfalfa.set_erase_regions(&self.regions);
        Ok(self.alfalfa.is_empty())
    }
}


/// Reopening a session on the container that `prepare_encode` left gives back
/// the same rectangles, in the same order, and the same entries.
pub proof fn lemma_workspace_round_trip(w: EarsImageWorkspace, c: AlfalfaData)
    requires
        c.wf(),
        c@ == with_erase_regions(w.spec_alfalfa()@, w.spec_regions()),
    ensures
        erase_regions_of(map_or_empty(Some(c))) is Ok,
        erase_list(Some(c)) == w.spec_regions(),
        map_or_empty(Some(c)) == c@,
{
    crate::container::lemma_erase_regions_round_trip(w.spec_alfalfa()@, w.spec_regions());
}

} // verus!
