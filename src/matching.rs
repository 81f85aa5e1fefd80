//! The sequential matcher: walks the arguments left to right, advancing a
//! cursor over the parameter slots by the stride of each argument.
use vstd::prelude::*;
use crate::types::{arg_match_param, Argument, Parameter, SIGNATURE_SLOTS, SLOT_BYTES};

verus! {

/// Why a list of arguments does not fit a parameter schema.
#[derive(Clone, Copy, Debug, PartialEq, Eq, Structural)]
pub enum ComputationMatchingError {
    /// The account argument at this index has a length that is not a whole
    /// number of slots.
    AccountLenNotMultipleOf32(usize),
    /// The account argument at this index spans more slots than remain.
    AccountLenTooBig(usize),
    /// A slot holds a parameter the argument cannot satisfy. The index is the
    /// scalar argument's index, or for a signature argument the index of the
    /// first parameter slot that is not a single byte.
    ArgumentMismatch(usize, Parameter),
    /// The argument at this index found no parameter slot left.
    NotEnoughParams(usize),
    /// Parameter slots remain after the last argument.
    NotEnoughArguments,
}

impl ComputationMatchingError {
    /// The fixed message of each kind of failure, with no values in it.
    pub open spec fn spec_static_message(self) -> Seq<char> {
        match self {
            ComputationMatchingError::AccountLenNotMultipleOf32(_) =>
                "Invalid argument : account len is not a multiple of 32"@,
            ComputationMatchingError::AccountLenTooBig(_) =>
                "Invalid argument : account is bigger than the circuit size"@,
            ComputationMatchingError::ArgumentMismatch(_, _) =>
                "Invalid argument, mismatch with parameter"@,
            ComputationMatchingError::NotEnoughParams(_) => "Invalid argument : not enough params"@,
            ComputationMatchingError::NotEnoughArguments =>
                "Invalid arguments : not enough arguments"@,
        }
    }

    /// The message with which a check on arguments fixed ahead of time stops
    /// the build.
    pub fn static_message(&self) -> (r: &'static str)
        ensures
            r@ == self.spec_static_message(),
    {
        match self {
            ComputationMatchingError::AccountLenNotMultipleOf32(_) => {
                "Invalid argument : account len is not a multiple of 32"
            },
            ComputationMatchingError::AccountLenTooBig(_) => {
                "Invalid argument : account is bigger than the circuit size"
            },
            ComputationMatchingError::ArgumentMismatch(_, _) => {
                "Invalid argument, mismatch with parameter"
            },
            ComputationMatchingError::NotEnoughParams(_) => "Invalid argument : not enough params",
            ComputationMatchingError::NotEnoughArguments => {
                "Invalid arguments : not enough arguments"
            },
        }
    }
}

/// The outcome of the `n` slots of a signature argument (at index `idx`)
/// that start at slot `cursor`: the cursor after them, or the first failure.
pub open spec fn signature_run(
    params: Seq<Parameter>,
    idx: int,
    cursor: int,
    n: nat,
) -> Result<int, ComputationMatchingError>
    decreases n,
{
    if n == 0 {
        Ok(cursor)
    } else if cursor >= params.len() {
        Err(ComputationMatchingError::NotEnoughParams(idx as usize))
    } else if params[cursor] != Parameter::PlaintextU8 {
        Err(ComputationMatchingError::ArgumentMismatch(cursor as usize, params[cursor]))
    } else {
        signature_run(params, idx, cursor + 1, (n - 1) as nat)
    }
}

/// The effect of the argument at index `idx` on a cursor at slot `cursor`.
pub open spec fn step(
    arg: Argument,
    idx: int,
    params: Seq<Parameter>,
    cursor: int,
) -> Result<int, ComputationMatchingError> {
    match arg {
        Argument::Account(_, _, len) => {
            if len % (SLOT_BYTES as u32) != 0 {
                Err(ComputationMatchingError::AccountLenNotMultipleOf32(idx as usize))
            } else if cursor + len / (SLOT_BYTES as u32) > params.len() {
                Err(ComputationMatchingError::AccountLenTooBig(idx as usize))
            } else {
                Ok(cursor + len / (SLOT_BYTES as u32))
            }
        },
        Argument::ArcisSignature(_) => signature_run(params, idx, cursor, SIGNATURE_SLOTS as nat),
        _ => {
            if cursor >= params.len() {
                Err(ComputationMatchingError::NotEnoughParams(idx as usize))
            } else if !arg.satisfies(params[cursor]) {
                Err(ComputationMatchingError::ArgumentMismatch(idx as usize, params[cursor]))
            } else {
                Ok(cursor + 1)
            }
        },
    }
}

/// The cursor after the first `n` arguments, or the first failure among them.
pub open spec fn match_prefix(
    args: Seq<Argument>,
    params: Seq<Parameter>,
    n: int,
) -> Result<int, ComputationMatchingError>
    decreases n,
{
    if n <= 0 {
        Ok(0)
    } else {
        match match_prefix(args, params, n - 1) {
            Ok(cursor) => step(args[n - 1], n - 1, params, cursor),
            Err(e) => Err(e),
        }
    }
}

/// Whether and why the arguments do not fit the parameters: every argument
/// consumed in turn, and then every slot consumed.
pub open spec fn matching(
    args: Seq<Argument>,
    params: Seq<Parameter>,
) -> Result<(), ComputationMatchingError> {
    match match_prefix(args, params, args.len() as int) {
        Ok(cursor) => if cursor < params.len() {
            Err(ComputationMatchingError::NotEnoughArguments)
        } else {
            Ok(())
        },
        Err(e) => Err(e),
    }
}

/// Every cursor a successful prefix reaches lies within the parameters.
pub proof fn lemma_prefix_cursor_in_range(args: Seq<Argument>, params: Seq<Parameter>, n: int)
    requires
        0 <= n <= args.len(),
    ensures
        match_prefix(args, params, n) is Ok ==> 0 <= match_prefix(args, params, n)->Ok_0
            <= params.len(),
    decreases n,
{
    if n > 0 {
        lemma_prefix_cursor_in_range(args, params, n - 1);
        if let Ok(c) = match_prefix(args, params, n - 1) {
            if args[n - 1] is ArcisSignature {
                lemma_signature_run_in_range(params, n - 1, c, SIGNATURE_SLOTS as nat);
            }
        }
    }
}

/// A signature run that succeeds ends at most at the end of the parameters.
pub proof fn lemma_signature_run_in_range(params: Seq<Parameter>, idx: int, cursor: int, n: nat)
    requires
        0 <= cursor <= params.len(),
    ensures
        signature_run(params, idx, cursor, n) is Ok ==> {
            let c = signature_run(params, idx, cursor, n)->Ok_0;
            &&& cursor <= c <= params.len()
            &&& c == cursor + n
        },
    decreases n,
{
    if n > 0 && cursor < params.len() {
        lemma_signature_run_in_range(params, idx, cursor + 1, (n - 1) as nat);
    }
}

/// Once a prefix of the arguments fails, every longer prefix fails the
/// same way: later arguments are never looked at.
pub proof fn lemma_failure_persists(args: Seq<Argument>, params: Seq<Parameter>, n: int, m: int)
    requires
        0 <= n <= m,
        match_prefix(args, params, n) is Err,
    ensures
        match_prefix(args, params, m) == match_prefix(args, params, n),
    decreases m - n,
{
    if m > n {
        lemma_failure_persists(args, params, n, m - 1);
    }
}

/// Checks that `arguments` fit `parameters` slot for slot, stopping at the
/// first violation.
pub fn args_match_params(arguments: &[Argument], parameters: &[Parameter]) -> (r: Result<
    (),
    ComputationMatchingError,
>)
    ensures
        r == matching(arguments@, parameters@),
{
    let mut param_idx: usize = 0;
    let mut arg_idx: usize = 0;
    while arg_idx < arguments.len()
        invariant
            arg_idx <= arguments@.len(),
            param_idx <= parameters@.len(),
            match_prefix(arguments@, parameters@, arg_idx as int) == Ok::<
                int,
                ComputationMatchingError,
            >(param_idx as int),
        decreases arguments@.len() - arg_idx,
    {
        let arg = &arguments[arg_idx];
        proof {
            assert(match_prefix(arguments@, parameters@, arg_idx + 1) == step(
                *arg,
                arg_idx as int,
                parameters@,
                param_idx as int,
            ));
        }
        match arg {
            Argument::Account(_, _, arg_len) => {
                if *arg_len % SLOT_BYTES != 0 {
                    proof {
                        lemma_failure_persists(
                            arguments@,
                            parameters@,
                            arg_idx + 1,
                            arguments@.len() as int,
                        );
                    }
                    return Err(ComputationMatchingError::AccountLenNotMultipleOf32(arg_idx));
                }
                let stride = (*arg_len / SLOT_BYTES) as usize;
                // An account may end exactly at the last slot.
                if stride > parameters.len() - param_idx {
                    proof {
                        lemma_failure_persists(
                            arguments@,
                            parameters@,
                            arg_idx + 1,
                            arguments@.len() as int,
                        );
                    }
                    return Err(ComputationMatchingError::AccountLenTooBig(arg_idx));
                }
                param_idx = param_idx + stride;
            },
            Argument::ArcisSignature(_) => {
                let ghost start = param_idx as int;
                let mut done: usize = 0;
                while done < SIGNATURE_SLOTS
                    invariant
                        done <= SIGNATURE_SLOTS,
                        arg_idx < arguments@.len(),
                        match_prefix(arguments@, parameters@, arg_idx + 1) == signature_run(
                            parameters@,
                            arg_idx as int,
                            start,
                            SIGNATURE_SLOTS as nat,
                        ),
                        param_idx <= parameters@.len(),
                        param_idx == start + done,
                        signature_run(parameters@, arg_idx as int, start, SIGNATURE_SLOTS as nat)
                            == signature_run(
                            parameters@,
                            arg_idx as int,
                            param_idx as int,
                            (SIGNATURE_SLOTS - done) as nat,
                        ),
                    decreases SIGNATURE_SLOTS - done,
                {
                    if param_idx >= parameters.len() {
                        proof {
                            lemma_failure_persists(
                                arguments@,
                                parameters@,
                                arg_idx + 1,
                                arguments@.len() as int,
                            );
                        }
                        return Err(ComputationMatchingError::NotEnoughParams(arg_idx));
                    }
                    let param = parameters[param_idx];
                    if !matches!(param, Parameter::PlaintextU8) {
                        proof {
                            lemma_failure_persists(
                                arguments@,
                                parameters@,
                                arg_idx + 1,
                                arguments@.len() as int,
                            );
                        }
                        return Err(ComputationMatchingError::ArgumentMismatch(param_idx, param));
                    }
                    param_idx = param_idx + 1;
                    done = done + 1;
                }
            },
            _ => {
                if param_idx >= parameters.len() {
                    proof {
                        lemma_failure_persists(
                            arguments@,
                            parameters@,
                            arg_idx + 1,
                            arguments@.len() as int,
                        );
                    }
                    return Err(ComputationMatchingError::NotEnoughParams(arg_idx));
                }
                let param = &parameters[param_idx];
                if !arg_match_param(arg, param) {
                    proof {
                        lemma_failure_persists(
                            arguments@,
                            parameters@,
                            arg_idx + 1,
                            arguments@.len() as int,
                        );
                    }
                    return Err(ComputationMatchingError::ArgumentMismatch(arg_idx, *param));
                }
                param_idx = param_idx + 1;
            },
        }
        arg_idx = arg_idx + 1;
    }
    if param_idx < parameters.len() {
        return Err(ComputationMatchingError::NotEnoughArguments);
    }
    Ok(())
}

/// The check for arguments known ahead of time. Such a call site verifies
/// only where the arguments are proved to fit the parameters, so a mismatch
/// stops the build rather than the running program.
pub fn const_match_computation(arguments: &[Argument], parameters: &[Parameter])
    requires
        matching(arguments@, parameters@) is Ok,
{
    let r = args_match_params(arguments, parameters);
    assert(r is Ok);
}

} // verus!
