//! What holds of the matcher over all inputs.
use vstd::prelude::*;
use crate::matching::{
    lemma_failure_persists, match_prefix, matching, signature_run, ComputationMatchingError,
};
use crate::types::{Argument, Parameter, SIGNATURE_SLOTS, SLOT_BYTES};

verus! {

proof fn lemma_scalar_prefix(args: Seq<Argument>, params: Seq<Parameter>, n: int)
    requires
        0 <= n <= args.len(),
        args.len() == params.len(),
        forall|i: int|
            #![trigger args[i]]
            0 <= i < args.len() ==> args[i].is_scalar() && args[i].satisfies(params[i]),
    ensures
        match_prefix(args, params, n) == Ok::<int, ComputationMatchingError>(n),
    decreases n,
{
    if n > 0 {
        lemma_scalar_prefix(args, params, n - 1);
        assert(args[n - 1].satisfies(params[n - 1]));
    }
}

/// Scalar arguments whose kinds satisfy the parameters one to one, in order,
/// always fit them.
pub proof fn lemma_matching_scalars_succeed(args: Seq<Argument>, params: Seq<Parameter>)
    requires
        args.len() == params.len(),
        forall|i: int|
            #![trigger args[i]]
            0 <= i < args.len() ==> args[i].is_scalar() && args[i].satisfies(params[i]),
    ensures
        matching(args, params) == Ok::<(), ComputationMatchingError>(()),
{
    lemma_scalar_prefix(args, params, args.len() as int);
}

/// An account argument whose length is not a whole number of slots fails
/// the match as soon as it is reached, whatever parameters remain.
pub proof fn lemma_unaligned_account_fails(args: Seq<Argument>, params: Seq<Parameter>, i: int)
    requires
        0 <= i < args.len(),
        args[i] is Account,
        args[i]->Account_2 % SLOT_BYTES != 0,
        match_prefix(args, params, i) is Ok,
    ensures
        matching(args, params) == Err::<(), ComputationMatchingError>(
            ComputationMatchingError::AccountLenNotMultipleOf32(i as usize),
        ),
{
    lemma_failure_persists(args, params, i + 1, args.len() as int);
}

/// An account argument that spans more slots than remain after the cursor
/// fails the match with `AccountLenTooBig`.
pub proof fn lemma_oversized_account_fails(args: Seq<Argument>, params: Seq<Parameter>, i: int)
    requires
        0 <= i < args.len(),
        args[i] is Account,
        args[i]->Account_2 % SLOT_BYTES == 0,
        match_prefix(args, params, i) is Ok,
        match_prefix(args, params, i)->Ok_0 + args[i]->Account_2 / SLOT_BYTES > params.len(),
    ensures
        matching(args, params) == Err::<(), ComputationMatchingError>(
            ComputationMatchingError::AccountLenTooBig(i as usize),
        ),
{
    lemma_failure_persists(args, params, i + 1, args.len() as int);
}

proof fn lemma_signature_runs_out(params: Seq<Parameter>, idx: int, cursor: int, n: nat)
    requires
        0 <= cursor <= params.len(),
        params.len() < cursor + n,
        forall|k: int| cursor <= k < params.len() ==> #[trigger] params[k] == Parameter::PlaintextU8,
    ensures
        signature_run(params, idx, cursor, n) == Err::<int, ComputationMatchingError>(
            ComputationMatchingError::NotEnoughParams(idx as usize),
        ),
    decreases n,
{
    if cursor < params.len() {
        lemma_signature_runs_out(params, idx, cursor + 1, (n - 1) as nat);
    }
}

proof fn lemma_signature_meets_other_kind(
    params: Seq<Parameter>,
    idx: int,
    cursor: int,
    n: nat,
    j: int,
)
    requires
        0 <= cursor <= j < cursor + n,
        j < params.len(),
        params[j] != Parameter::PlaintextU8,
        forall|k: int| cursor <= k < j ==> #[trigger] params[k] == Parameter::PlaintextU8,
    ensures
        signature_run(params, idx, cursor, n) == Err::<int, ComputationMatchingError>(
            ComputationMatchingError::ArgumentMismatch(j as usize, params[j]),
        ),
    decreases n,
{
    if cursor < j {
        lemma_signature_meets_other_kind(params, idx, cursor + 1, (n - 1) as nat, j);
    }
}

/// A signature argument takes the next sixty-four slots, each a single
/// byte. Where fewer remain and all of those are single bytes, the match
/// fails with `NotEnoughParams` at the signature.
pub proof fn lemma_short_signature_fails(args: Seq<Argument>, params: Seq<Parameter>, i: int)
    requires
        0 <= i < args.len(),
        args[i] is ArcisSignature,
        match_prefix(args, params, i) is Ok,
        params.len() - match_prefix(args, params, i)->Ok_0 < SIGNATURE_SLOTS,
        forall|k: int|
            match_prefix(args, params, i)->Ok_0 <= k < params.len() ==> #[trigger] params[k]
                == Parameter::PlaintextU8,
    ensures
        matching(args, params) == Err::<(), ComputationMatchingError>(
            ComputationMatchingError::NotEnoughParams(i as usize),
        ),
{
    let c = match_prefix(args, params, i)->Ok_0;
    crate::matching::lemma_prefix_cursor_in_range(args, params, i);
    lemma_signature_runs_out(params, i, c, SIGNATURE_SLOTS as nat);
    lemma_failure_persists(args, params, i + 1, args.len() as int);
}

/// Where one of a signature's sixty-four slots is of another kind than a
/// single byte, the match fails with `ArgumentMismatch` at the first such
/// slot, naming the parameter found there.
pub proof fn lemma_signature_mismatch_fails(
    args: Seq<Argument>,
    params: Seq<Parameter>,
    i: int,
    j: int,
)
    requires
        0 <= i < args.len(),
        args[i] is ArcisSignature,
        match_prefix(args, params, i) is Ok,
        match_prefix(args, params, i)->Ok_0 <= j < match_prefix(args, params, i)->Ok_0
            + SIGNATURE_SLOTS,
        j < params.len(),
        params[j] != Parameter::PlaintextU8,
        forall|k: int|
            match_prefix(args, params, i)->Ok_0 <= k < j ==> #[trigger] params[k]
                == Parameter::PlaintextU8,
    ensures
        matching(args, params) == Err::<(), ComputationMatchingError>(
            ComputationMatchingError::ArgumentMismatch(j as usize, params[j]),
        ),
{
    let c = match_prefix(args, params, i)->Ok_0;
    crate::matching::lemma_prefix_cursor_in_range(args, params, i);
    lemma_signature_meets_other_kind(params, i, c, SIGNATURE_SLOTS as nat, j);
    lemma_failure_persists(args, params, i + 1, args.len() as int);
}

/// The match depends on the two sequences alone: checking the same
/// arguments against the same parameters again gives the same result.
pub proof fn lemma_matching_deterministic(
    args1: Seq<Argument>,
    params1: Seq<Parameter>,
    args2: Seq<Argument>,
    params2: Seq<Parameter>,
)
    requires
        args1 == args2,
        params1 == params2,
    ensures
        matching(args1, params1) == matching(args2, params2),
{
}

/// The slots taken by the first `n` arguments.
pub open spec fn slots_taken(args: Seq<Argument>, n: int) -> int
    decreases n,
{
    if n <= 0 {
        0
    } else {
        slots_taken(args, n - 1) + args[n - 1].stride()
    }
}

proof fn lemma_prefix_cursor_is_slots_taken(args: Seq<Argument>, params: Seq<Parameter>, n: int)
    requires
        0 <= n <= args.len(),
    ensures
        match_prefix(args, params, n) is Ok ==> match_prefix(args, params, n)->Ok_0
            == slots_taken(args, n),
    decreases n,
{
    if n > 0 {
        lemma_prefix_cursor_is_slots_taken(args, params, n - 1);
        crate::matching::lemma_prefix_cursor_in_range(args, params, n - 1);
        if let Ok(c) = match_prefix(args, params, n - 1) {
            if args[n - 1] is ArcisSignature {
                crate::matching::lemma_signature_run_in_range(
                    params,
                    n - 1,
                    c,
                    SIGNATURE_SLOTS as nat,
                );
            }
        }
    }
}

/// Arguments that fit the parameters take every slot exactly once: their
/// strides add up to the number of parameters.
pub proof fn lemma_success_takes_every_slot(args: Seq<Argument>, params: Seq<Parameter>)
    requires
        matching(args, params) is Ok,
    ensures
        slots_taken(args, args.len() as int) == params.len(),
{
    lemma_prefix_cursor_is_slots_taken(args, params, args.len() as int);
    crate::matching::lemma_prefix_cursor_in_range(args, params, args.len() as int);
}

} // verus!
