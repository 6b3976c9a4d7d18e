use crate::instruction::{
    is_refund_instruction, is_spend_instruction, refund as refund_ix, spend as spend_ix, Instruction,
};
use crate::pubkey::Pubkey;
use crate::session::NewConnParams;
use crate::state::{state_bytes, BandwidthPrepayState, STATE_SIZE};
use vstd::prelude::*;

verus! {

/// What base58 decoding makes of the text `s`: its bytes, or `None` where `s` is not base58.
pub uninterp spec fn base58_decoded(s: Seq<char>) -> Option<Seq<u8>>;

/// Relies on `bs58::decode(..).into_vec()` with the default alphabet: the bytes depend on the
/// text alone, and the empty text decodes to no bytes.
#[verifier::external_body]
fn decode_base58(s: &str) -> (r: Option<Vec<u8>>)
    ensures
        base58_decoded(s@) == match r {
            Some(v) => Some(v@),
            None => None::<Seq<u8>>,
        },
        s@.len() == 0 ==> r is Some && r->0@.len() == 0,
{
    bs58::decode(s).into_vec().ok()
}

/// Why a request for a session was refused.
#[derive(Clone, Copy, Debug, PartialEq, Eq, Structural)]
pub enum RequestError {
    /// A key was malformed, or the contract does not allow the session.
    InvalidRequest,
}

/// The key that the text `s` names: base58 for exactly 32 bytes.
pub open spec fn spec_key_of_text(s: Seq<char>) -> Option<Seq<u8>> {
    match base58_decoded(s) {
        Some(b) => if b.len() == 32 {
            Some(b)
        } else {
            None
        },
        None => None,
    }
}

/// Reads a public key written in base58; anything but the text of exactly 32 bytes is an
/// invalid request.
pub fn verify_pubkey(input: String) -> (r: Result<Pubkey, RequestError>)
    ensures
        r matches Ok(k) ==> spec_key_of_text(input@) == Some(k@),
        r is Err ==> spec_key_of_text(input@) is None && r == Err::<Pubkey, RequestError>(
            RequestError::InvalidRequest,
        ),
{
    let decoded = match decode_base58(input.as_str()) {
        Some(v) => v,
        None => {
            return Err(RequestError::InvalidRequest);
        },
    };
    if decoded.len() != 32 {
        return Err(RequestError::InvalidRequest);
    }
    let mut bytes = [0u8; 32];
    let mut i: usize = 0;
    while i < 32
        invariant
            decoded@.len() == 32,
            0 <= i <= 32,
            bytes@.len() == 32,
            forall|j: int| 0 <= j < i ==> bytes@[j] == decoded@[j],
        decreases 32 - i,
    {
        bytes[i] = decoded[i];
        i = i + 1;
    }
    let k = Pubkey { bytes };
    assert(k@ =~= decoded@);
    Ok(k)
}

/// Why the contract account cannot carry a session.
#[derive(Clone, Copy, Debug, PartialEq, Eq, Structural)]
pub enum ContractError {
    /// The account holds no data.
    NoData,
    /// The account data is not a contract record.
    Undecodable,
    /// The record names another gatekeeper.
    WrongGatekeeper,
}

/// Checks the contract account read from the ledger (`data`, `None` where the account holds
/// none, and its balance `lamports`): it must hold a record that names `gatekeeper_id` as
/// gatekeeper. Returns the balance and the record.
pub fn check_contract(data: Option<&[u8]>, lamports: u64, gatekeeper_id: &Pubkey) -> (r: Result<
    (u64, BandwidthPrepayState),
    ContractError,
>)
    ensures
        data is None ==> r == Err::<(u64, BandwidthPrepayState), _>(ContractError::NoData),
        data matches Some(d) ==> {
            &&& d@.len() < STATE_SIZE ==> r == Err::<(u64, BandwidthPrepayState), _>(
                ContractError::Undecodable,
            )
            &&& d@.len() >= STATE_SIZE && d@.subrange(0, 32) != gatekeeper_id@ ==> r == Err::<
                (u64, BandwidthPrepayState),
                _,
            >(ContractError::WrongGatekeeper)
            &&& d@.len() >= STATE_SIZE && d@.subrange(0, 32) == gatekeeper_id@ ==> (r matches Ok(
                (l, s),
            ) && l == lamports && state_bytes(s) == d@.subrange(0, STATE_SIZE as int))
        },
{
    let d = match data {
        Some(d) => d,
        None => {
            return Err(ContractError::NoData);
        },
    };
    let contract_state = match BandwidthPrepayState::deserialize(d) {
        Ok(s) => s,
        Err(_) => {
            return Err(ContractError::Undecodable);
        },
    };
    proof {
        assert(contract_state.gatekeeper_id@ =~= state_bytes(contract_state).subrange(0, 32));
        assert(d@.subrange(0, 32) =~= d@.subrange(0, STATE_SIZE as int).subrange(0, 32));
    }
    if !(*gatekeeper_id == contract_state.gatekeeper_id) {
        return Err(ContractError::WrongGatekeeper);
    }
    Ok((lamports, contract_state))
}

/// Decides whether a checked contract may open a session for `initiator`: its balance must be
/// positive and its record must name `initiator`.
pub fn admit_session(
    lamports: u64,
    contract_state: &BandwidthPrepayState,
    initiator: &Pubkey,
) -> (r: Result<(), RequestError>)
    ensures
        r is Ok <==> lamports > 0 && contract_state.initiator_id@ == initiator@,
        r matches Err(e) ==> e == RequestError::InvalidRequest,
{
    if lamports == 0 {
        return Err(RequestError::InvalidRequest);
    }
    if !(contract_state.initiator_id == *initiator) {
        return Err(RequestError::InvalidRequest);
    }
    Ok(())
}

/// The settlement instruction of a session: the gatekeeper moves `amount` from the contract to
/// the provider that the contract names.
pub fn charge_instruction(
    parsed_params: &NewConnParams,
    contract_state: &BandwidthPrepayState,
    gatekeeper: &Pubkey,
    amount: u64,
) -> (r: Instruction)
    ensures
        is_spend_instruction(
            r,
            *gatekeeper,
            parsed_params.contract_pubkey,
            contract_state.provider_id,
            amount,
        ),
{
    spend_ix(gatekeeper, &parsed_params.contract_pubkey, &contract_state.provider_id, amount)
}

/// The closing instruction of a session: the gatekeeper returns what the contract still holds
/// to the initiator that the contract names.
pub fn refund_instruction(
    parsed_params: &NewConnParams,
    contract_state: &BandwidthPrepayState,
    gatekeeper: &Pubkey,
) -> (r: Instruction)
    ensures
        is_refund_instruction(
            r,
            *gatekeeper,
            parsed_params.contract_pubkey,
            contract_state.initiator_id,
        ),
{
    refund_ix(gatekeeper, &parsed_params.contract_pubkey, &contract_state.initiator_id)
}

} // verus!
