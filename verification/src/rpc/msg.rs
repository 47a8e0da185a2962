//! Protocol messages that peers exchange during a swap.
use vstd::prelude::*;

use farcaster_core::swap::SwapId;

use crate::rpc::request::Params;
use crate::trusted::{
    alice_reveal, bob_reveal, has_punish_key, punish_key_present, reveal_alice_parameters,
    reveal_bob_parameters, AliceReveal, BobReveal,
};

verus! {

/// The parameters that a participant reveals to the other.
#[derive(Clone, Debug)]
pub enum Reveal {
    AliceParameters(AliceReveal),
    BobParameters(BobReveal),
}

/// Parameters can be revealed: Alice's must hold a punish key.
pub open spec fn revealable(params: Params) -> bool {
    params matches Params::Alice(p) ==> has_punish_key(p)
}

/// The reveal message for a swap: each role reveals its own parameters.
pub open spec fn reveal_of(swap_id: SwapId, params: Params) -> Reveal {
    match params {
        Params::Alice(p) => Reveal::AliceParameters(alice_reveal(p, swap_id)),
        Params::Bob(p) => Reveal::BobParameters(bob_reveal(p, swap_id)),
    }
}

impl Reveal {
    /// The message in which the participant with `params` reveals them for
    /// the swap `swap_id`.
    pub fn from_params(swap_id: SwapId, params: Params) -> (r: Reveal)
        requires
            revealable(params),
        ensures
            r == reveal_of(swap_id, params),
    {
        match params {
            Params::Alice(p) => Reveal::AliceParameters(reveal_alice_parameters(p, swap_id)),
            Params::Bob(p) => Reveal::BobParameters(reveal_bob_parameters(p, swap_id)),
        }
    }

    /// The reveal message as `from_params` makes it, or `None` for Alice's
    /// parameters without a punish key.
    pub fn try_from_params(swap_id: SwapId, params: Params) -> (r: Option<Reveal>)
        ensures
            r is None <==> !revealable(params),
            r matches Some(m) ==> m == reveal_of(swap_id, params),
    {
        let ok = match &params {
            Params::Alice(p) => punish_key_present(p),
            Params::Bob(_) => true,
        };
        if ok {
            Some(Reveal::from_params(swap_id, params))
        } else {
            None
        }
    }
}

} // verus!
