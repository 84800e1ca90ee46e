//! The parameter-set registry: the single point of truth mapping a
//! parameter-set id to the most recently decoded SPS for the current decoding
//! session.  The registry is owned by the caller's long-lived context and is
//! passed by reference into every decoder that needs cross-referenced state.

use vstd::prelude::*;

verus! {

use crate::sps::SeqParameterSet;
use crate::sps::SeqParameterSetView;
use crate::sps::opt_view;
use crate::pps::ParamSetId;

/// A decoding session's registry of parameter sets, keyed by id.  An entry
/// replaces any prior entry with the same id (last write wins, no merge).
pub struct Context {
    sps_by_id: Vec<Option<SeqParameterSet>>,
}

impl View for Context {
    type V = Seq<Option<SeqParameterSetView>>;

    /// One slot per legal id; slot `i` holds the view of the current entry for
    /// id `i`, or nothing.
    closed spec fn view(&self) -> Seq<Option<SeqParameterSetView>> {
        self.sps_by_id@.map_values(|o: Option<SeqParameterSet>| opt_view(o))
    }
}

impl Context {
    /// One slot for each of the 32 legal parameter-set ids.
    pub closed spec fn wf(&self) -> bool {
        self.sps_by_id@.len() == 32
    }

    pub fn new() -> (c: Context)
        ensures
            c.wf(),
            c@.len() == 32,
            forall|i: int| 0 <= i < 32 ==> c@[i] is None,
    {
        let mut v: Vec<Option<SeqParameterSet>> = Vec::new();
        let mut i: usize = 0;
        while i < 32
            invariant
                i <= 32,
                v@.len() == i as nat,
                forall|j: int| 0 <= j < i as int ==> v@[j] is None,
            decreases 32 - i,
        {
            v.push(None);
            i = i + 1;
        }
        let c = Context { sps_by_id: v };
        proof {
            assert(forall|i: int|
                0 <= i < 32 ==> c@[i] == opt_view(c.sps_by_id@[i]) && c.sps_by_id@[i] is None);
        }
        c
    }

    /// The length of the registry's view equals the number of legal ids.
    pub proof fn lemma_view_len(&self)
        requires
            self.wf(),
        ensures
            self@.len() == 32,
    {
    }

    /// Inserts or replaces the entry for the id the SPS itself carries; always
    /// succeeds for the ids decoding can produce.
    pub fn put_seq_param_set(&mut self, sps: SeqParameterSet)
        requires
            old(self).wf(),
        ensures
            final(self).wf(),
            final(self)@ == (if sps.seq_parameter_set_id.0 < 32 {
                old(self)@.update(sps.seq_parameter_set_id.0 as int, Some(sps@))
            } else {
                old(self)@
            }),
    {
        let id = sps.seq_parameter_set_id.0 as usize;
        if id < 32 {
            let ghost svw = sps@;
            self.sps_by_id[id] = Some(sps);
            proof {
                assert(final(self)@ =~= old(self)@.update(id as int, Some(svw)));
            }
        }
    }

    /// Looks up the current entry for an id, or nothing: either the id is out
    /// of the legal range, or no SPS with that id has been committed.
    pub fn sps_by_id(&self, id: ParamSetId) -> (r: Option<&SeqParameterSet>)
        requires
            self.wf(),
        ensures
            match r {
                Some(s) => id.0 < 32 && self@[id.0 as int] == Some(s@),
                None => id.0 >= 32 || self@[id.0 as int] is None,
            },
    {
        if id.0 >= 32 {
            return None;
        }
        match &self.sps_by_id[id.0 as usize] {
            Some(s) => Some(s),
            None => None,
        }
    }
}

} // verus!
