use crate::le_bytes::{le_value, lemma_le_value_bound, lemma_pow256_eight, push_le, read_le};
use crate::pubkey::Pubkey;
use crate::state::STATE_SIZE;
use vstd::prelude::*;

verus! {

/// The request that a transaction hands to the prepay contract program.
#[derive(Clone, Copy, Debug, PartialEq, Eq, Structural)]
pub enum BandwidthPrepayInstruction {
    InitializeAccount,
    Spend(u64),
    Refund,
}

/// The variant index that leads an encoded request.
pub open spec fn instruction_tag(ix: BandwidthPrepayInstruction) -> nat {
    match ix {
        BandwidthPrepayInstruction::InitializeAccount => 0,
        BandwidthPrepayInstruction::Spend(_) => 1,
        BandwidthPrepayInstruction::Refund => 2,
    }
}

/// `b` is the encoding of `ix`: the variant index as four little-endian bytes, then, for
/// `Spend`, the amount as eight little-endian bytes.
pub open spec fn encodes_instruction(ix: BandwidthPrepayInstruction, b: Seq<u8>) -> bool {
    &&& le_value(b.subrange(0, 4)) == instruction_tag(ix)
    &&& match ix {
        BandwidthPrepayInstruction::Spend(amount) => b.len() == 12 && le_value(b.subrange(4, 12))
            == amount,
        _ => b.len() == 4,
    }
}

/// The request that leads the bytes `b`, if any; bytes after it are ignored.
pub open spec fn spec_decode_instruction(b: Seq<u8>) -> Option<BandwidthPrepayInstruction> {
    if b.len() < 4 {
        None
    } else if le_value(b.subrange(0, 4)) == 0 {
        Some(BandwidthPrepayInstruction::InitializeAccount)
    } else if le_value(b.subrange(0, 4)) == 2 {
        Some(BandwidthPrepayInstruction::Refund)
    } else if le_value(b.subrange(0, 4)) == 1 && b.len() >= 12 {
        Some(BandwidthPrepayInstruction::Spend(le_value(b.subrange(4, 12)) as u64))
    } else {
        None
    }
}

impl BandwidthPrepayInstruction {
    /// The wire bytes of this request.
    pub fn encode(&self) -> (r: Vec<u8>)
        ensures
            encodes_instruction(*self, r@),
    {
        let mut out: Vec<u8> = Vec::new();
        proof {
            lemma_pow256_eight();
        }
        match self {
            BandwidthPrepayInstruction::InitializeAccount => {
                push_le(&mut out, 0, 4);
                assert(out@.subrange(0, 4) =~= out@);
            },
            BandwidthPrepayInstruction::Spend(amount) => {
                push_le(&mut out, 1, 4);
                let ghost head = out@;
                assert(head.subrange(0, 4) =~= head);
                push_le(&mut out, *amount, 8);
                assert(out@.subrange(0, 4) == head);
            },
            BandwidthPrepayInstruction::Refund => {
                push_le(&mut out, 2, 4);
                assert(out@.subrange(0, 4) =~= out@);
            },
        }
        proof {
            assert(out@.subrange(0, 0) =~= Seq::<u8>::empty());
        }
        out
    }

    /// Reads the request that leads `data`; `None` where no request of this program does.
    pub fn decode(data: &[u8]) -> (r: Option<BandwidthPrepayInstruction>)
        ensures
            r == spec_decode_instruction(data@),
    {
        if data.len() < 4 {
            return None;
        }
        let tag = read_le(data, 0, 4);
        if tag == 0 {
            Some(BandwidthPrepayInstruction::InitializeAccount)
        } else if tag == 2 {
            Some(BandwidthPrepayInstruction::Refund)
        } else if tag == 1 && data.len() >= 12 {
            let amount = read_le(data, 4, 8);
            Some(BandwidthPrepayInstruction::Spend(amount))
        } else {
            None
        }
    }
}

/// A request survives a trip through its bytes, whatever follows them.
pub proof fn lemma_instruction_round_trip(
    ix: BandwidthPrepayInstruction,
    b: Seq<u8>,
    rest: Seq<u8>,
)
    requires
        encodes_instruction(ix, b),
    ensures
        spec_decode_instruction(b + rest) == Some(ix),
{
    let c = b + rest;
    assert(c.subrange(0, 4) =~= b.subrange(0, 4));
    if let BandwidthPrepayInstruction::Spend(amount) = ix {
        assert(c.subrange(4, 12) =~= b.subrange(4, 12));
    }
}

/// One account that an instruction names, and whether it must sign.
#[derive(Clone, Copy, Debug)]
pub struct AccountMeta {
    pub pubkey: Pubkey,
    pub is_signer: bool,
    pub is_writable: bool,
}

impl AccountMeta {
    /// A writable account entry.
    pub fn new(pubkey: Pubkey, is_signer: bool) -> (r: AccountMeta)
        ensures
            r.pubkey == pubkey,
            r.is_signer == is_signer,
            r.is_writable,
    {
        AccountMeta { pubkey, is_signer, is_writable: true }
    }
}

/// A call of a ledger program: the program, the accounts it works on, and its request bytes.
#[derive(Debug)]
pub struct Instruction {
    pub program_id: Pubkey,
    pub accounts: Vec<AccountMeta>,
    pub data: Vec<u8>,
}

/// The identifier of the prepay contract program: `0x80` followed by zero bytes.
pub open spec fn spec_program_id() -> Seq<u8> {
    seq![0x80u8].add(Seq::new(31, |_i: int| 0u8))
}

/// The identifier of the ledger's system program: all zero bytes.
pub open spec fn spec_system_program_id() -> Seq<u8> {
    Seq::new(32, |_i: int| 0u8)
}

/// The prepay contract program's identifier.
pub fn id() -> (r: Pubkey)
    ensures
        r@ == spec_program_id(),
{
    let mut bytes = [0u8; 32];
    bytes[0] = 0x80;
    let r = Pubkey { bytes };
    assert(r@ =~= spec_program_id());
    r
}

/// The account list `metas` names `keys` in order, with the given signer flags, all writable.
pub open spec fn names_accounts(metas: Seq<AccountMeta>, keys: Seq<Pubkey>, signers: Seq<bool>) -> bool {
    &&& metas.len() == keys.len() == signers.len()
    &&& forall|i: int|
        0 <= i < metas.len() ==> metas[i].pubkey == keys[i] && metas[i].is_signer == signers[i]
            && metas[i].is_writable
}

/// `b` is the system program's request to create an account: variant index zero, then the
/// lamports, the space and the owner.
pub open spec fn encodes_create_account(b: Seq<u8>, lamports: u64, space: u64, owner: Seq<u8>) -> bool {
    &&& b.len() == 52
    &&& le_value(b.subrange(0, 4)) == 0
    &&& le_value(b.subrange(4, 12)) == lamports
    &&& le_value(b.subrange(12, 20)) == space
    &&& b.subrange(20, 52) == owner
}

/// The system program instruction that creates account `to`, funded by `from`, with `space`
/// bytes of data owned by `owner`.
pub fn create_account(from: &Pubkey, to: &Pubkey, lamports: u64, space: u64, owner: &Pubkey) -> (r:
    Instruction)
    ensures
        r.program_id@ == spec_system_program_id(),
        names_accounts(r.accounts@, seq![*from, *to], seq![true, true]),
        encodes_create_account(r.data@, lamports, space, owner@),
{
    let program_id = Pubkey::filled(0);
    let accounts = vec![AccountMeta::new(*from, true), AccountMeta::new(*to, true)];
    let mut data: Vec<u8> = Vec::new();
    proof {
        lemma_pow256_eight();
    }
    push_le(&mut data, 0, 4);
    let ghost d0 = data@;
    push_le(&mut data, lamports, 8);
    let ghost d1 = data@;
    push_le(&mut data, space, 8);
    let ghost d2 = data@;
    let mut i: usize = 0;
    while i < 32
        invariant
            0 <= i <= 32,
            data@.len() == 20 + i,
            data@.subrange(0, 20) == d2,
            forall|j: int| 0 <= j < i ==> data@[20 + j] == owner@[j],
        decreases 32 - i,
    {
        data.push(owner.bytes[i]);
        proof {
            assert(data@.subrange(0, 20) =~= d2);
        }
        i = i + 1;
    }
    proof {
        assert(data@.subrange(0, 4) =~= d0);
        assert(d0.subrange(0, 4) =~= d0);
        assert(d1.subrange(0, 4) =~= d0);
        assert(d2.subrange(4, 12) =~= d1.subrange(4, 12));
        assert(data@.subrange(4, 12) =~= d1.subrange(4, 12));
        assert(data@.subrange(12, 20) =~= d2.subrange(12, 20));
        assert(data@.subrange(20, 52) =~= owner@);
        assert(d0.subrange(0, 0) =~= Seq::<u8>::empty());
    }
    Instruction { program_id, accounts, data }
}

/// The instruction that records the contract's three parties in the contract account.
fn initialize_account(
    initiator_id: &Pubkey,
    contract_id: &Pubkey,
    gatekeeper_id: &Pubkey,
    provider_id: &Pubkey,
) -> (r: Instruction)
    ensures
        r.program_id@ == spec_program_id(),
        names_accounts(
            r.accounts@,
            seq![*initiator_id, *contract_id, *gatekeeper_id, *provider_id],
            seq![true, false, false, false],
        ),
        encodes_instruction(BandwidthPrepayInstruction::InitializeAccount, r.data@),
{
    let accounts = vec![
        AccountMeta::new(*initiator_id, true),
        AccountMeta::new(*contract_id, false),
        AccountMeta::new(*gatekeeper_id, false),
        AccountMeta::new(*provider_id, false),
    ];
    let data = BandwidthPrepayInstruction::InitializeAccount.encode();
    Instruction { program_id: id(), accounts, data }
}

/// The two instructions that open a contract: create the contract account with `lamports`,
/// paid by the initiator and sized for one record, then record the parties in it.
pub fn initialize(
    initiator_id: &Pubkey,
    contract_id: &Pubkey,
    gatekeeper_id: &Pubkey,
    provider_id: &Pubkey,
    lamports: u64,
) -> (r: Vec<Instruction>)
    ensures
        r@.len() == 2,
        r@[0].program_id@ == spec_system_program_id(),
        names_accounts(r@[0].accounts@, seq![*initiator_id, *contract_id], seq![true, true]),
        encodes_create_account(r@[0].data@, lamports, STATE_SIZE as u64, spec_program_id()),
        r@[1].program_id@ == spec_program_id(),
        names_accounts(
            r@[1].accounts@,
            seq![*initiator_id, *contract_id, *gatekeeper_id, *provider_id],
            seq![true, false, false, false],
        ),
        encodes_instruction(BandwidthPrepayInstruction::InitializeAccount, r@[1].data@),
{
    let program = id();
    let space = STATE_SIZE as u64;
    vec![
        create_account(initiator_id, contract_id, lamports, space, &program),
        initialize_account(initiator_id, contract_id, gatekeeper_id, provider_id),
    ]
}

/// `r` is the prepay program's `Spend(amount)` on accounts `[gatekeeper, contract, provider]`,
/// signed by the gatekeeper.
pub open spec fn is_spend_instruction(
    r: Instruction,
    gatekeeper_id: Pubkey,
    contract_id: Pubkey,
    provider_id: Pubkey,
    amount: u64,
) -> bool {
    &&& r.program_id@ == spec_program_id()
    &&& names_accounts(
        r.accounts@,
        seq![gatekeeper_id, contract_id, provider_id],
        seq![true, false, false],
    )
    &&& encodes_instruction(BandwidthPrepayInstruction::Spend(amount), r.data@)
}

/// `r` is the prepay program's `Refund` on accounts `[gatekeeper, contract, initiator]`, signed
/// by the gatekeeper.
pub open spec fn is_refund_instruction(
    r: Instruction,
    gatekeeper_id: Pubkey,
    contract_id: Pubkey,
    initiator_id: Pubkey,
) -> bool {
    &&& r.program_id@ == spec_program_id()
    &&& names_accounts(
        r.accounts@,
        seq![gatekeeper_id, contract_id, initiator_id],
        seq![true, false, false],
    )
    &&& encodes_instruction(BandwidthPrepayInstruction::Refund, r.data@)
}

/// The instruction by which the gatekeeper moves `amount` from the contract to the provider.
pub fn spend(gatekeeper_id: &Pubkey, contract_id: &Pubkey, provider_id: &Pubkey, amount: u64) -> (r:
    Instruction)
    ensures
        is_spend_instruction(r, *gatekeeper_id, *contract_id, *provider_id, amount),
{
    let accounts = vec![
        AccountMeta::new(*gatekeeper_id, true),
        AccountMeta::new(*contract_id, false),
        AccountMeta::new(*provider_id, false),
    ];
    let data = BandwidthPrepayInstruction::Spend(amount).encode();
    Instruction { program_id: id(), accounts, data }
}

/// The instruction by which the gatekeeper returns the contract's whole balance to the initiator.
pub fn refund(gatekeeper_id: &Pubkey, contract_id: &Pubkey, initiator_id: &Pubkey) -> (r:
    Instruction)
    ensures
        is_refund_instruction(r, *gatekeeper_id, *contract_id, *initiator_id),
{
    let accounts = vec![
        AccountMeta::new(*gatekeeper_id, true),
        AccountMeta::new(*contract_id, false),
        AccountMeta::new(*initiator_id, false),
    ];
    let data = BandwidthPrepayInstruction::Refund.encode();
    Instruction { program_id: id(), accounts, data }
}

} // verus!
