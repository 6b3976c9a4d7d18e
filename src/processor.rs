use crate::instruction::{spec_decode_instruction, BandwidthPrepayInstruction};
use crate::pubkey::Pubkey;
use crate::state::{
    state_bytes, is_default_state, BandwidthPrepayError, BandwidthPrepayState, STATE_SIZE,
};
use vstd::prelude::*;

verus! {

/// A ledger account: its balance in lamports, its data, and the program that owns it.
#[derive(Debug)]
pub struct Account {
    pub lamports: u64,
    pub data: Vec<u8>,
    pub owner: Pubkey,
}

impl Account {
    /// An account with `lamports` and `space` zero bytes of data.
    pub fn new(lamports: u64, space: usize, owner: &Pubkey) -> (r: Account)
        ensures
            r.lamports == lamports,
            r.data@ == Seq::new(space as nat, |_i: int| 0u8),
            r.owner == *owner,
    {
        let mut data: Vec<u8> = Vec::new();
        let mut i: usize = 0;
        while i < space
            invariant
                0 <= i <= space,
                data@ == Seq::new(i as nat, |_j: int| 0u8),
            decreases space - i,
        {
            data.push(0);
            i = i + 1;
            assert(data@ =~= Seq::new(i as nat, |_j: int| 0u8));
        }
        Account { lamports, data, owner: *owner }
    }
}

/// An account as an instruction sees it: its key, whether the transaction was signed with that
/// key, and the account itself.
#[derive(Debug)]
pub struct KeyedAccount {
    pub key: Pubkey,
    pub is_signer: bool,
    pub account: Account,
}

impl KeyedAccount {
    /// The account's key where it signed the transaction.
    pub fn signer_key(&self) -> (r: Option<&Pubkey>)
        ensures
            self.is_signer ==> r == Some(&self.key),
            !self.is_signer ==> r is None,
    {
        if self.is_signer {
            Some(&self.key)
        } else {
            None
        }
    }

    /// The account's key.
    pub fn unsigned_key(&self) -> (r: &Pubkey)
        ensures
            *r == self.key,
    {
        &self.key
    }
}

/// The key recorded at block `i` (0: gatekeeper, 1: provider, 2: initiator) of account data `d`.
pub open spec fn recorded_key(d: Seq<u8>, i: int) -> Seq<u8> {
    d.subrange(32 * i, 32 * i + 32)
}

/// `k` with its balance set to `lamports`.
pub open spec fn with_lamports(k: KeyedAccount, lamports: u64) -> KeyedAccount {
    KeyedAccount { account: Account { lamports, ..k.account }, ..k }
}

/// The error, if any, that the gatekeeper checks of `Spend` and `Refund` give on accounts `a`:
/// the contract data must hold a record, the first account must sign, and with the key that
/// the record names as gatekeeper.
pub open spec fn gatekeeper_check(a: Seq<KeyedAccount>) -> Option<BandwidthPrepayError> {
    if a[1].account.data@.len() < STATE_SIZE {
        Some(BandwidthPrepayError::UserdataDeserializeFailure)
    } else if !a[0].is_signer {
        Some(BandwidthPrepayError::NotSignedByGatekeeper)
    } else if a[0].key@ != recorded_key(a[1].account.data@, 0) {
        Some(BandwidthPrepayError::NoGatekeeperAccount)
    } else {
        None
    }
}

/// The outcome of `Spend(amount)` on accounts `[gatekeeper, contract, provider]`.
pub open spec fn spend_outcome(a: Seq<KeyedAccount>, amount: u64) -> Result<(), BandwidthPrepayError> {
    if let Some(e) = gatekeeper_check(a) {
        Err(e)
    } else if a[2].key@ != recorded_key(a[1].account.data@, 1) {
        Err(BandwidthPrepayError::NoProviderAccount)
    } else if a[1].account.lamports < amount {
        Err(BandwidthPrepayError::BalanceTooLow)
    } else {
        Ok(())
    }
}

/// The accounts after a successful `Spend(amount)`: `amount` moved from the contract to the
/// provider.
pub open spec fn spent(a: Seq<KeyedAccount>, amount: u64) -> Seq<KeyedAccount> {
    a.update(1, with_lamports(a[1], (a[1].account.lamports - amount) as u64)).update(
        2,
        with_lamports(a[2], (a[2].account.lamports + amount) as u64),
    )
}

/// The outcome of `Refund` on accounts `[gatekeeper, contract, initiator]`.
pub open spec fn refund_outcome(a: Seq<KeyedAccount>) -> Result<(), BandwidthPrepayError> {
    if let Some(e) = gatekeeper_check(a) {
        Err(e)
    } else if a[2].key@ != recorded_key(a[1].account.data@, 2) {
        Err(BandwidthPrepayError::NoInitiatorAccount)
    } else {
        Ok(())
    }
}

/// The accounts after a successful `Refund`: the contract's whole balance moved to the initiator.
pub open spec fn refunded(a: Seq<KeyedAccount>) -> Seq<KeyedAccount> {
    a.update(1, with_lamports(a[1], 0)).update(
        2,
        with_lamports(a[2], (a[2].account.lamports + a[1].account.lamports) as u64),
    )
}

/// The balances of the contract (`a[1]`) and of the account paid from it (`a[2]`) fit together
/// in a `u64`, as all lamports of a ledger do.
pub open spec fn balances_fit(a: Seq<KeyedAccount>) -> bool {
    a[1].account.lamports + a[2].account.lamports <= u64::MAX
}

proof fn lemma_recorded_keys(d: Seq<u8>, s: BandwidthPrepayState)
    requires
        d.len() >= STATE_SIZE,
        state_bytes(s) == d.subrange(0, STATE_SIZE as int),
    ensures
        s.gatekeeper_id@ == recorded_key(d, 0),
        s.provider_id@ == recorded_key(d, 1),
        s.initiator_id@ == recorded_key(d, 2),
{
    assert(s.gatekeeper_id@ =~= state_bytes(s).subrange(0, 32));
    assert(s.provider_id@ =~= state_bytes(s).subrange(32, 64));
    assert(s.initiator_id@ =~= state_bytes(s).subrange(64, 96));
    assert(recorded_key(d, 0) =~= d.subrange(0, STATE_SIZE as int).subrange(0, 32));
    assert(recorded_key(d, 1) =~= d.subrange(0, STATE_SIZE as int).subrange(32, 64));
    assert(recorded_key(d, 2) =~= d.subrange(0, STATE_SIZE as int).subrange(64, 96));
}

/// Reads the contract record and runs the gatekeeper checks.
fn check_gatekeeper(keyed_accounts: &Vec<KeyedAccount>) -> (r: Result<
    BandwidthPrepayState,
    BandwidthPrepayError,
>)
    requires
        keyed_accounts@.len() >= 3,
    ensures
        r matches Err(e) ==> gatekeeper_check(keyed_accounts@) == Some(e),
        r matches Ok(s) ==> {
            &&& gatekeeper_check(keyed_accounts@) is None
            &&& s.provider_id@ == recorded_key(keyed_accounts@[1].account.data@, 1)
            &&& s.initiator_id@ == recorded_key(keyed_accounts@[1].account.data@, 2)
        },
{
    let state = BandwidthPrepayState::deserialize(keyed_accounts[1].account.data.as_slice())?;
    proof {
        lemma_recorded_keys(keyed_accounts@[1].account.data@, state);
    }
    match keyed_accounts[0].signer_key() {
        Some(gatekeeper_pubkey) => {
            if !(*gatekeeper_pubkey == state.gatekeeper_id) {
                return Err(BandwidthPrepayError::NoGatekeeperAccount);
            }
        },
        None => {
            return Err(BandwidthPrepayError::NotSignedByGatekeeper);
        },
    }
    Ok(state)
}

/// The outcome of `InitializeAccount` on accounts `[initiator, contract, gatekeeper, provider]`.
pub open spec fn initialize_outcome(a: Seq<KeyedAccount>) -> Result<(), BandwidthPrepayError> {
    let d = a[1].account.data@;
    if d.len() >= STATE_SIZE && d.subrange(0, STATE_SIZE as int) != Seq::new(96, |_i: int| 0u8) {
        Err(BandwidthPrepayError::AlreadyInitialized)
    } else if d.len() < STATE_SIZE {
        Err(BandwidthPrepayError::UserdataTooSmall)
    } else {
        Ok(())
    }
}

/// The contract data after a successful `InitializeAccount`: the record naming gatekeeper
/// `a[2]`, provider `a[3]` and initiator `a[0]`, then the bytes that followed it.
pub open spec fn initialized_data(a: Seq<KeyedAccount>) -> Seq<u8> {
    let d = a[1].account.data@;
    a[2].key@ + a[3].key@ + a[0].key@ + d.subrange(STATE_SIZE as int, d.len() as int)
}

/// `b` is `a` but for the data of account `i`, which is `d`.
pub open spec fn same_but_data(a: Seq<KeyedAccount>, b: Seq<KeyedAccount>, i: int, d: Seq<u8>) -> bool {
    &&& b.len() == a.len()
    &&& forall|j: int| 0 <= j < a.len() && j != i ==> b[j] == a[j]
    &&& b[i].key == a[i].key
    &&& b[i].is_signer == a[i].is_signer
    &&& b[i].account.lamports == a[i].account.lamports
    &&& b[i].account.owner == a[i].account.owner
    &&& b[i].account.data@ == d
}

/// Records the parties in the contract account `keyed_accounts[1]`, unless it already holds a
/// record other than the all-zero one.
fn initialize_account(keyed_accounts: &mut Vec<KeyedAccount>) -> (r: Result<(), BandwidthPrepayError>)
    requires
        old(keyed_accounts)@.len() >= 4,
    ensures
        r == initialize_outcome(old(keyed_accounts)@),
        r is Ok ==> same_but_data(
            old(keyed_accounts)@,
            final(keyed_accounts)@,
            1,
            initialized_data(old(keyed_accounts)@),
        ),
        r is Err ==> final(keyed_accounts)@ == old(keyed_accounts)@,
{
    let ghost d = keyed_accounts@[1].account.data@;
    if let Ok(state) = BandwidthPrepayState::deserialize(keyed_accounts[1].account.data.as_slice()) {
        let empty = BandwidthPrepayState::default();
        if !(state == empty) {
            proof {
                assert(state_bytes(empty) =~= Seq::new(96, |_i: int| 0u8));
                if d.subrange(0, STATE_SIZE as int) == Seq::new(96, |_i: int| 0u8) {
                    assert(state_bytes(state) =~= state_bytes(empty));
                    assert(state.gatekeeper_id@ =~= state_bytes(state).subrange(0, 32));
                    assert(state.provider_id@ =~= state_bytes(state).subrange(32, 64));
                    assert(state.initiator_id@ =~= state_bytes(state).subrange(64, 96));
                    assert(empty.gatekeeper_id@ =~= state_bytes(empty).subrange(0, 32));
                    assert(empty.provider_id@ =~= state_bytes(empty).subrange(32, 64));
                    assert(empty.initiator_id@ =~= state_bytes(empty).subrange(64, 96));
                }
            }
            return Err(BandwidthPrepayError::AlreadyInitialized);
        }
        proof {
            assert(state.gatekeeper_id@ =~= state_bytes(state).subrange(0, 32));
            assert(state.provider_id@ =~= state_bytes(state).subrange(32, 64));
            assert(state.initiator_id@ =~= state_bytes(state).subrange(64, 96));
            assert(d.subrange(0, STATE_SIZE as int) =~= state_bytes(state));
            assert(state_bytes(state) =~= Seq::new(96, |_i: int| 0u8));
        }
    }
    let state = BandwidthPrepayState {
        initiator_id: keyed_accounts[0].key,
        gatekeeper_id: keyed_accounts[2].key,
        provider_id: keyed_accounts[3].key,
    };
    if keyed_accounts[1].account.data.len() < STATE_SIZE {
        return Err(BandwidthPrepayError::UserdataTooSmall);
    }

    let r = state.serialize(keyed_accounts[1].account.data.as_mut_slice());
    proof {
        assert(keyed_accounts@[1].account.data@ =~= initialized_data(old(keyed_accounts)@));
    }
    assert(r is Ok);
    Ok(())
}

/// Moves `amount` from the contract `keyed_accounts[1]` to the provider `keyed_accounts[2]`,
/// when signed by the recorded gatekeeper `keyed_accounts[0]`.
fn spend(keyed_accounts: &mut Vec<KeyedAccount>, amount: u64) -> (r: Result<(), BandwidthPrepayError>)
    requires
        old(keyed_accounts)@.len() >= 3,
        balances_fit(old(keyed_accounts)@),
    ensures
        r == spend_outcome(old(keyed_accounts)@, amount),
        r is Ok ==> final(keyed_accounts)@ == spent(old(keyed_accounts)@, amount),
        r is Err ==> final(keyed_accounts)@ == old(keyed_accounts)@,
{
    let state = check_gatekeeper(keyed_accounts)?;
    if !(*keyed_accounts[2].unsigned_key() == state.provider_id) {
        return Err(BandwidthPrepayError::NoProviderAccount);
    }
    if keyed_accounts[1].account.lamports < amount {
        return Err(BandwidthPrepayError::BalanceTooLow);
    }
    let ghost a = keyed_accounts@;
    keyed_accounts[1].account.lamports = keyed_accounts[1].account.lamports - amount;
    keyed_accounts[2].account.lamports = keyed_accounts[2].account.lamports + amount;
    proof {
        assert(keyed_accounts@ =~= spent(a, amount));
    }
    Ok(())
}

/// Moves the contract's whole balance to the initiator `keyed_accounts[2]`, when signed by the
/// recorded gatekeeper `keyed_accounts[0]`.
fn refund(keyed_accounts: &mut Vec<KeyedAccount>) -> (r: Result<(), BandwidthPrepayError>)
    requires
        old(keyed_accounts)@.len() >= 3,
        balances_fit(old(keyed_accounts)@),
    ensures
        r == refund_outcome(old(keyed_accounts)@),
        r is Ok ==> final(keyed_accounts)@ == refunded(old(keyed_accounts)@),
        r is Err ==> final(keyed_accounts)@ == old(keyed_accounts)@,
{
    let state = check_gatekeeper(keyed_accounts)?;
    if !(*keyed_accounts[2].unsigned_key() == state.initiator_id) {
        return Err(BandwidthPrepayError::NoInitiatorAccount);
    }
    let ghost a = keyed_accounts@;
    keyed_accounts[2].account.lamports = keyed_accounts[2].account.lamports
        + keyed_accounts[1].account.lamports;
    keyed_accounts[1].account.lamports = 0;
    proof {
        assert(keyed_accounts@ =~= refunded(a));
    }
    Ok(())
}

/// How the runtime learns that an instruction failed.
#[derive(Clone, Copy, Debug, PartialEq, Eq, Structural)]
pub enum InstructionError {
    /// The request bytes are not a request of this program.
    InvalidInstructionData,
    /// The instruction names fewer accounts than its request works on.
    NotEnoughAccountKeys,
    /// The account that must sign the instruction did not.
    MissingRequiredSignature,
    /// The program refused the request; the code is that of a [`BandwidthPrepayError`].
    CustomError(u32),
}

/// The number of accounts that a request works on.
pub open spec fn accounts_needed(ix: BandwidthPrepayInstruction) -> nat {
    match ix {
        BandwidthPrepayInstruction::InitializeAccount => 4,
        _ => 3,
    }
}

/// The program's own result as the runtime reports it.
pub open spec fn as_instruction_result(r: Result<(), BandwidthPrepayError>) -> Result<(), InstructionError> {
    match r {
        Ok(()) => Ok(()),
        Err(e) => Err(InstructionError::CustomError(e.spec_code())),
    }
}

/// The outcome of an instruction of the prepay contract program with request bytes `data` on
/// accounts `a`.
pub open spec fn instruction_outcome(a: Seq<KeyedAccount>, data: Seq<u8>) -> Result<(), InstructionError> {
    match spec_decode_instruction(data) {
        None => Err(InstructionError::InvalidInstructionData),
        Some(ix) => if a.len() < accounts_needed(ix) {
            Err(InstructionError::NotEnoughAccountKeys)
        } else {
            match ix {
                BandwidthPrepayInstruction::InitializeAccount => if !a[0].is_signer {
                    Err(InstructionError::MissingRequiredSignature)
                } else {
                    as_instruction_result(initialize_outcome(a))
                },
                BandwidthPrepayInstruction::Spend(amount) => as_instruction_result(
                    spend_outcome(a, amount),
                ),
                BandwidthPrepayInstruction::Refund => as_instruction_result(refund_outcome(a)),
            }
        },
    }
}

/// The accounts after instruction bytes `data` succeeded on accounts `a`.
pub open spec fn instruction_effect(a: Seq<KeyedAccount>, data: Seq<u8>, b: Seq<KeyedAccount>) -> bool {
    match spec_decode_instruction(data) {
        Some(BandwidthPrepayInstruction::InitializeAccount) => same_but_data(a, b, 1, initialized_data(a)),
        Some(BandwidthPrepayInstruction::Spend(amount)) => b == spent(a, amount),
        Some(BandwidthPrepayInstruction::Refund) => b == refunded(a),
        None => b == a,
    }
}

fn to_instruction_result(r: Result<(), BandwidthPrepayError>) -> (o: Result<(), InstructionError>)
    ensures
        o == as_instruction_result(r),
{
    match r {
        Ok(()) => Ok(()),
        Err(e) => Err(InstructionError::CustomError(e.code())),
    }
}

/// Runs one instruction of the prepay contract program: decodes the request in `data` and
/// applies it to `keyed_accounts`. A failed instruction leaves every account as it was.
pub fn process_instruction(
    _program_id: &Pubkey,
    keyed_accounts: &mut Vec<KeyedAccount>,
    data: &[u8],
) -> (r: Result<(), InstructionError>)
    requires
        old(keyed_accounts)@.len() >= 3 ==> balances_fit(old(keyed_accounts)@),
    ensures
        r == instruction_outcome(old(keyed_accounts)@, data@),
        r is Ok ==> instruction_effect(old(keyed_accounts)@, data@, final(keyed_accounts)@),
        r is Err ==> final(keyed_accounts)@ == old(keyed_accounts)@,
{
    let instruction = match BandwidthPrepayInstruction::decode(data) {
        Some(ix) => ix,
        None => {
            return Err(InstructionError::InvalidInstructionData);
        },
    };
    match instruction {
        BandwidthPrepayInstruction::InitializeAccount => {
            if keyed_accounts.len() < 4 {
                return Err(InstructionError::NotEnoughAccountKeys);
            }
            if !keyed_accounts[0].is_signer {
                return Err(InstructionError::MissingRequiredSignature);
            }
            to_instruction_result(initialize_account(keyed_accounts))
        },
        BandwidthPrepayInstruction::Spend(amount) => {
            if keyed_accounts.len() < 3 {
                return Err(InstructionError::NotEnoughAccountKeys);
            }
            to_instruction_result(spend(keyed_accounts, amount))
        },
        BandwidthPrepayInstruction::Refund => {
            if keyed_accounts.len() < 3 {
                return Err(InstructionError::NotEnoughAccountKeys);
            }
            to_instruction_result(refund(keyed_accounts))
        },
    }
}

/// The sum of `s`.
pub open spec fn seq_sum(s: Seq<u64>) -> nat
    decreases s.len(),
{
    if s.len() == 0 {
        0
    } else {
        s[0] as nat + seq_sum(s.drop_first())
    }
}

/// The accounts after running `Spend` with each amount of `spends` in turn, or `None` where one
/// of them fails.
pub open spec fn run_spends(a: Seq<KeyedAccount>, spends: Seq<u64>) -> Option<Seq<KeyedAccount>>
    decreases spends.len(),
{
    if spends.len() == 0 {
        Some(a)
    } else if spend_outcome(a, spends[0]) is Err {
        None
    } else {
        run_spends(spent(a, spends[0]), spends.drop_first())
    }
}

/// Spends that the gatekeeper signs and that together stay within the contract's balance all
/// succeed, and what they move is what they sum to: the provider gains it and the contract
/// loses it.
pub proof fn lemma_spends_conserve(a: Seq<KeyedAccount>, spends: Seq<u64>)
    requires
        a.len() >= 3,
        balances_fit(a),
        gatekeeper_check(a) is None,
        a[2].key@ == recorded_key(a[1].account.data@, 1),
        seq_sum(spends) <= a[1].account.lamports,
    ensures
        run_spends(a, spends) is Some,
        run_spends(a, spends)->0[1].account.lamports == a[1].account.lamports - seq_sum(spends),
        run_spends(a, spends)->0[2].account.lamports == a[2].account.lamports + seq_sum(spends),
    decreases spends.len(),
{
    if spends.len() > 0 {
        let b = spent(a, spends[0]);
        assert(spend_outcome(a, spends[0]) is Ok);
        assert(b[0] == a[0]);
        lemma_spends_conserve(b, spends.drop_first());
    }
}

/// A `Refund` that succeeds leaves the contract with nothing and gives the initiator exactly
/// what the contract held.
pub proof fn lemma_refund_moves_balance(a: Seq<KeyedAccount>, data: Seq<u8>, b: Seq<KeyedAccount>)
    requires
        spec_decode_instruction(data) == Some(BandwidthPrepayInstruction::Refund),
        instruction_outcome(a, data) is Ok,
        instruction_effect(a, data, b),
        balances_fit(a),
    ensures
        b[1].account.lamports == 0,
        b[2].account.lamports == a[2].account.lamports + a[1].account.lamports,
        b.len() == a.len(),
        forall|i: int| 0 <= i < a.len() && i != 1 && i != 2 ==> b[i] == a[i],
{
}

/// A `Spend` of more than the contract holds, otherwise in order, fails with `BalanceTooLow`;
/// `process_instruction` then leaves every account as it was.
pub proof fn lemma_overspend_fails(a: Seq<KeyedAccount>, data: Seq<u8>, amount: u64)
    requires
        spec_decode_instruction(data) == Some(BandwidthPrepayInstruction::Spend(amount)),
        a.len() >= 3,
        gatekeeper_check(a) is None,
        a[2].key@ == recorded_key(a[1].account.data@, 1),
        amount > a[1].account.lamports,
    ensures
        instruction_outcome(a, data) == Err::<(), InstructionError>(
            InstructionError::CustomError(BandwidthPrepayError::BalanceTooLow.spec_code()),
        ),
{
}

/// `Spend` or `Refund` on a contract that holds a record fails with `NotSignedByGatekeeper` or
/// `NoGatekeeperAccount` unless the first account signed with the recorded gatekeeper key.
pub proof fn lemma_gatekeeper_must_sign(a: Seq<KeyedAccount>, data: Seq<u8>)
    requires
        spec_decode_instruction(data) matches Some(ix) && ix != BandwidthPrepayInstruction::InitializeAccount,
        a.len() >= 3,
        a[1].account.data@.len() >= STATE_SIZE,
        !a[0].is_signer || a[0].key@ != recorded_key(a[1].account.data@, 0),
    ensures
        !a[0].is_signer ==> instruction_outcome(a, data) == Err::<(), InstructionError>(
            InstructionError::CustomError(BandwidthPrepayError::NotSignedByGatekeeper.spec_code()),
        ),
        a[0].is_signer ==> instruction_outcome(a, data) == Err::<(), InstructionError>(
            InstructionError::CustomError(BandwidthPrepayError::NoGatekeeperAccount.spec_code()),
        ),
{
}

} // verus!
