//! The signer that may write oracle quotes into the program's quote account:
//! the first one to do so, kept from then on.
use crate::keys::{lemma_same_bytes_same_key, pubkey_bytes_eq, Pubkey};
use vstd::prelude::*;

verus! {

/// The program's state.
#[derive(Clone, Copy, Debug)]
pub struct ProgramState {
    /// The signer admitted to write quotes, once there is one.
    pub cranker: Option<Pubkey>,
}

impl ProgramState {
    /// Bytes reserved for the state account.
    pub const LEN: usize = 312;
}

/// Refusals of the program.
#[derive(Clone, Copy, Debug, PartialEq, Eq, Structural)]
pub enum ErrorCode {
    /// The signer is not the admitted cranker.
    ConstraintSigner,
}

/// Admits `payer` to write a quote: the first payer becomes the cranker, and
/// only the cranker is admitted after that.
pub fn switchboard_oracle_update(state: &mut ProgramState, payer: Pubkey) -> (r: Result<
    (),
    ErrorCode,
>)
    ensures
        old(state).cranker is None ==> r is Ok && final(state).cranker == Some(payer),
        old(state).cranker matches Some(c) ==> *final(state) == *old(state) && (r is Ok <==> c
            == payer) && (r is Err ==> r == Err::<(), ErrorCode>(ErrorCode::ConstraintSigner)),
{
    let cranker = match state.cranker {
        Some(c) => c,
        None => {
            state.cranker = Some(payer);
            payer
        },
    };
    let same = pubkey_bytes_eq(cranker.as_slice(), payer.as_slice());
    proof {
        assert(cranker@.subrange(0, 32) =~= cranker@ && payer@.subrange(0, 32) =~= payer@);
        if cranker@ == payer@ {
            lemma_same_bytes_same_key(cranker, payer);
        }
    }
    if same {
        Ok(())
    } else {
        Err(ErrorCode::ConstraintSigner)
    }
}

} // verus!
