//! State combination for the CXL arbitration/multiplexing layer.
//!
//! Each physical link multiplexes several virtual links, every one with a
//! virtual link state machine (vLSM).  Before a state request is sent the
//! layer combines the states of all connected links into one: the most
//! active state present wins, and a link still in reset defers entirely to
//! the other side.

use vstd::prelude::*;

verus! {

/// States of a virtual link state machine.
#[allow(non_camel_case_types)]
#[derive(Clone, Copy, Debug, PartialEq, Eq, Structural)]
pub enum vlsm_state {
    Reset,
    Active,
    L1_1,
    L1_2,
    L1_3,
    L1_4,
    DAPM,
    SleepL2,
    LinkReset,
    LinkError,
    LinkDisable,
    Retrain,
}

/// One virtual link state machine: an identifier to tell links apart and
/// the state the link currently sits in.
#[allow(non_camel_case_types)]
#[derive(Clone, Copy, Debug, PartialEq, Eq, Structural)]
pub struct vlsm {
    pub id: u8,
    pub current_state: vlsm_state,
}

impl vlsm {
    /// Whether a request to move a link into `new_state` is granted.  The
    /// layer holds every link in its current state, so every request is
    /// declined.
    pub fn try_state_change(new_state: vlsm_state) -> (r: bool)
        ensures
            !r,
    {
        false
    }
}

/// The state two sides combine to: a side in reset defers to the other,
/// and otherwise the most active state present wins, from `Active` down
/// through the L1 substates to `SleepL2`.
pub open spec fn spec_combined_state(a: vlsm_state, b: vlsm_state) -> vlsm_state {
    if a == vlsm_state::Reset {
        b
    } else if b == vlsm_state::Reset {
        a
    } else if a == vlsm_state::Active || b == vlsm_state::Active {
        vlsm_state::Active
    } else if a == vlsm_state::L1_1 || b == vlsm_state::L1_1 {
        vlsm_state::L1_1
    } else if a == vlsm_state::L1_2 || b == vlsm_state::L1_2 {
        vlsm_state::L1_2
    } else if a == vlsm_state::L1_3 || b == vlsm_state::L1_3 {
        vlsm_state::L1_3
    } else if a == vlsm_state::L1_4 || b == vlsm_state::L1_4 {
        vlsm_state::L1_4
    } else if a == vlsm_state::SleepL2 || b == vlsm_state::SleepL2 {
        vlsm_state::SleepL2
    } else {
        vlsm_state::Reset
    }
}

/// The state reached by folding `spec_combined_state` over a run of links,
/// starting from `init`.
pub open spec fn spec_fold_states(init: vlsm_state, links: Seq<vlsm>) -> vlsm_state
    decreases links.len(),
{
    if links.len() == 0 {
        init
    } else {
        spec_fold_states(spec_combined_state(init, links[0].current_state), links.drop_first())
    }
}

/// The arbitration/multiplexing layer of one port: the connected virtual
/// links and the combined state it will send.
#[allow(non_camel_case_types)]
pub struct arb_mux {
    pub connected_links: Vec<vlsm>,
    pub nr_connected_links: u16,
    pub combined_state_to_send: vlsm_state,
    pub is_upstream: bool,
}

impl arb_mux {
    /// Combines an accumulated state with one link's state.
    fn state_calculator(a: vlsm_state, b: &vlsm) -> (r: vlsm_state)
        ensures
            r == spec_combined_state(a, b.current_state),
    {
        if a == vlsm_state::Reset {
            b.current_state
        } else if b.current_state == vlsm_state::Reset {
            a
        } else if a == vlsm_state::Active || b.current_state == vlsm_state::Active {
            vlsm_state::Active
        } else if a == vlsm_state::L1_1 || b.current_state == vlsm_state::L1_1 {
            vlsm_state::L1_1
        } else if a == vlsm_state::L1_2 || b.current_state == vlsm_state::L1_2 {
            vlsm_state::L1_2
        } else if a == vlsm_state::L1_3 || b.current_state == vlsm_state::L1_3 {
            vlsm_state::L1_3
        } else if a == vlsm_state::L1_4 || b.current_state == vlsm_state::L1_4 {
            vlsm_state::L1_4
        } else if a == vlsm_state::SleepL2 || b.current_state == vlsm_state::SleepL2 {
            vlsm_state::SleepL2
        } else {
            vlsm_state::Reset
        }
    }

    /// Folds every connected link's state into the combined state that the
    /// layer will send; the links themselves are left untouched.
    pub fn calc_combined_state_to_send(&mut self)
        ensures
            final(self).combined_state_to_send == spec_fold_states(
                old(self).combined_state_to_send,
                old(self).connected_links@,
            ),
            final(self).connected_links@ == old(self).connected_links@,
            final(self).nr_connected_links == old(self).nr_connected_links,
            final(self).is_upstream == old(self).is_upstream,
    {
        let ghost links = self.connected_links@;
        let ghost start = self.combined_state_to_send;
        proof {
            assert(links.skip(0) =~= links);
        }
        let mut acc = self.combined_state_to_send;
        let mut i: usize = 0;
        while i < self.connected_links.len()
            invariant
                i <= links.len(),
                self.connected_links@ == links,
                spec_fold_states(acc, links.skip(i as int)) == spec_fold_states(start, links),
            decreases links.len() - i,
        {
            proof {
                assert(links.skip(i as int)[0] == links[i as int]);
                assert(links.skip(i as int).drop_first() =~= links.skip(i as int + 1));
            }
            acc = Self::state_calculator(acc, &self.connected_links[i]);
            i = i + 1;
        }
        proof {
            assert(links.skip(links.len() as int) =~= Seq::<vlsm>::empty());
        }
        self.combined_state_to_send = acc;
    }
}

/// The arbitration layer keeps no global state, so there is nothing to set
/// up ahead of the first use.
pub fn init() {
}

} // verus!
