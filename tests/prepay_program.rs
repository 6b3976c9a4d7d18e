use bandwidth_prepay::contract::{
    admit_session, charge_instruction, check_contract, refund_instruction, ContractError,
    RequestError,
};
use bandwidth_prepay::instruction::{
    id, initialize, refund, spend, BandwidthPrepayInstruction, Instruction,
};
use bandwidth_prepay::processor::{process_instruction, Account, InstructionError, KeyedAccount};
use bandwidth_prepay::pubkey::Pubkey;
use bandwidth_prepay::accumulator::Accumulator;
use bandwidth_prepay::session::{process_data, teardown_plan, MeterAction, NewConnParams};
use bandwidth_prepay::state::{BandwidthPrepayError, BandwidthPrepayState};

/// A small ledger for the tests: the system program's create-account and transfer, and the
/// prepay program through `process_instruction`.
struct Ledger {
    accounts: Vec<(Pubkey, Account)>,
}

fn system_transfer(from: &Pubkey, to: &Pubkey, lamports: u64) -> Instruction {
    let mut data = 2u32.to_le_bytes().to_vec();
    data.extend_from_slice(&lamports.to_le_bytes());
    Instruction {
        program_id: Pubkey::filled(0),
        accounts: vec![
            bandwidth_prepay::instruction::AccountMeta::new(*from, true),
            bandwidth_prepay::instruction::AccountMeta::new(*to, false),
        ],
        data,
    }
}

impl Ledger {
    fn new(mint: &Pubkey, lamports: u64) -> Ledger {
        Ledger { accounts: vec![(*mint, Account::new(lamports, 0, &Pubkey::filled(0)))] }
    }

    fn find(&self, key: &Pubkey) -> Option<usize> {
        self.accounts.iter().position(|(k, _)| k == key)
    }

    fn balance(&self, key: &Pubkey) -> u64 {
        self.find(key).map(|i| self.accounts[i].1.lamports).unwrap_or(0)
    }

    fn data(&self, key: &Pubkey) -> Option<Vec<u8>> {
        self.find(key).map(|i| self.accounts[i].1.data.clone())
    }

    fn entry(&mut self, key: &Pubkey) -> usize {
        match self.find(key) {
            Some(i) => i,
            None => {
                self.accounts.push((*key, Account::new(0, 0, &Pubkey::filled(0))));
                self.accounts.len() - 1
            }
        }
    }

    fn send(&mut self, signers: &[Pubkey], instructions: Vec<Instruction>) -> Result<(), InstructionError> {
        for ix in instructions {
            if ix.program_id == id() {
                let mut keyed: Vec<KeyedAccount> = Vec::new();
                for meta in &ix.accounts {
                    let i = self.entry(&meta.pubkey);
                    let acc = &self.accounts[i].1;
                    keyed.push(KeyedAccount {
                        key: meta.pubkey,
                        is_signer: meta.is_signer && signers.contains(&meta.pubkey),
                        account: Account { lamports: acc.lamports, data: acc.data.clone(), owner: acc.owner },
                    });
                }
                process_instruction(&id(), &mut keyed, &ix.data)?;
                for k in keyed {
                    let i = self.entry(&k.key);
                    self.accounts[i].1 = k.account;
                }
            } else {
                let tag = u32::from_le_bytes([ix.data[0], ix.data[1], ix.data[2], ix.data[3]]);
                let mut word = [0u8; 8];
                word.copy_from_slice(&ix.data[4..12]);
                let lamports = u64::from_le_bytes(word);
                let from = self.entry(&ix.accounts[0].pubkey);
                let to = self.entry(&ix.accounts[1].pubkey);
                self.accounts[from].1.lamports -= lamports;
                self.accounts[to].1.lamports += lamports;
                if tag == 0 {
                    word.copy_from_slice(&ix.data[12..20]);
                    let space = u64::from_le_bytes(word) as usize;
                    let mut owner = [0u8; 32];
                    owner.copy_from_slice(&ix.data[20..52]);
                    self.accounts[to].1.data = vec![0; space];
                    self.accounts[to].1.owner = Pubkey { bytes: owner };
                }
            }
        }
        Ok(())
    }
}

fn alice() -> Pubkey {
    Pubkey::filled(11)
}

/// Opens a ledger where Alice holds 10_000 and funds a contract with 500.
fn opened(contract: &Pubkey, gatekeeper: &Pubkey, provider: &Pubkey) -> Ledger {
    let mut ledger = Ledger::new(&alice(), 10_000);
    let instructions = initialize(&alice(), contract, gatekeeper, provider, 500);
    ledger.send(&[alice(), *contract], instructions).unwrap();
    ledger
}

#[test]
fn test_max_size() {
    let number = BandwidthPrepayState::max_size();
    assert_eq!(number, 96);
}

#[test]
fn test_serializer() {
    let mut a = Account::new(0, 96, &id());
    let b = BandwidthPrepayState::default();
    b.serialize(&mut a.data).unwrap();
    let c = BandwidthPrepayState::deserialize(&a.data).unwrap();
    assert_eq!(b, c);
}

#[test]
fn test_serializer_userdata_too_small() {
    let mut a = Account::new(0, 1, &id());
    let b = BandwidthPrepayState::default();
    assert_eq!(b.serialize(&mut a.data), Err(BandwidthPrepayError::UserdataTooSmall));
}

#[test]
fn test_bandwidth_prepay_initialize() {
    let contract = Pubkey::filled(21);
    let gatekeeper = Pubkey::filled(22);
    let provider = Pubkey::filled(23);
    let ledger = opened(&contract, &gatekeeper, &provider);
    assert_eq!(ledger.balance(&contract), 500);
    assert_eq!(ledger.balance(&alice()), 9_500);
    let account = ledger.data(&contract).unwrap();
    assert_eq!(account.len(), BandwidthPrepayState::max_size());
    let state = BandwidthPrepayState::deserialize(&account).unwrap();
    assert_eq!(state.gatekeeper_id, gatekeeper);
    assert_eq!(state.provider_id, provider);
    assert_eq!(state.initiator_id, alice());
}

#[test]
fn test_bandwidth_prepay_spend() {
    let contract = Pubkey::filled(31);
    let gatekeeper = Pubkey::filled(32);
    let provider = Pubkey::filled(33);
    let mut ledger = opened(&contract, &gatekeeper, &provider);
    ledger.send(&[alice()], vec![system_transfer(&alice(), &gatekeeper, 1)]).unwrap();
    assert_eq!(ledger.balance(&gatekeeper), 1);
    let instruction = spend(&gatekeeper, &contract, &provider, 100);
    ledger.send(&[gatekeeper], vec![instruction]).unwrap();
    assert_eq!(ledger.balance(&contract), 400);
    assert_eq!(ledger.balance(&provider), 100);
}

#[test]
fn test_bandwidth_prepay_refund() {
    let contract = Pubkey::filled(41);
    let gatekeeper = Pubkey::filled(42);
    let provider = Pubkey::filled(43);
    let mut ledger = opened(&contract, &gatekeeper, &provider);
    ledger.send(&[alice()], vec![system_transfer(&alice(), &gatekeeper, 1)]).unwrap();
    assert_eq!(ledger.balance(&gatekeeper), 1);
    let instruction = refund(&gatekeeper, &contract, &alice());
    ledger.send(&[gatekeeper], vec![instruction]).unwrap();
    assert_eq!(ledger.balance(&contract), 0);
    assert_eq!(ledger.balance(&provider), 0);
    assert_eq!(ledger.balance(&alice()), 9_999);
}

#[test]
fn test_check_contract() {
    let contract = Pubkey::filled(51);
    let gatekeeper = Pubkey::filled(52);
    let provider = Pubkey::filled(53);
    let ledger = opened(&contract, &gatekeeper, &provider);
    let expected_state = BandwidthPrepayState {
        gatekeeper_id: gatekeeper,
        provider_id: provider,
        initiator_id: alice(),
    };
    let data = ledger.data(&contract);
    let lamports = ledger.balance(&contract);
    assert_eq!(
        check_contract(data.as_deref(), lamports, &gatekeeper).unwrap(),
        (500, expected_state)
    );
    assert!(check_contract(data.as_deref(), lamports, &Pubkey::filled(4)).is_err());
    let missing = Pubkey::filled(5);
    let data = ledger.data(&missing);
    assert!(check_contract(data.as_deref(), ledger.balance(&missing), &gatekeeper).is_err());
}

fn session_params(contract: &Pubkey) -> NewConnParams {
    NewConnParams {
        contract_pubkey: *contract,
        destination: "127.0.0.1:1234".to_string(),
        fee_interval: 1000,
    }
}

#[test]
fn test_charge_contract() {
    let contract = Pubkey::filled(61);
    let gatekeeper = Pubkey::filled(62);
    let provider = Pubkey::filled(63);
    let mut ledger = opened(&contract, &gatekeeper, &provider);
    ledger.send(&[alice()], vec![system_transfer(&alice(), &gatekeeper, 1)]).unwrap();
    assert_eq!(ledger.balance(&gatekeeper), 1);
    let params = session_params(&contract);
    let state = BandwidthPrepayState { gatekeeper_id: gatekeeper, provider_id: provider, initiator_id: alice() };
    ledger.send(&[gatekeeper], vec![charge_instruction(&params, &state, &gatekeeper, 100)]).unwrap();
    assert_eq!(ledger.balance(&contract), 400);
    let account_data = ledger.data(&contract).unwrap();
    let state = BandwidthPrepayState::deserialize(&account_data).unwrap();
    assert_eq!(state.gatekeeper_id, gatekeeper);
    assert_eq!(state.provider_id, provider);
    assert_eq!(state.initiator_id, alice());
    assert_eq!(ledger.balance(&provider), 100);
}

#[test]
fn test_refund() {
    let contract = Pubkey::filled(71);
    let gatekeeper = Pubkey::filled(72);
    let provider = Pubkey::filled(73);
    let mut ledger = opened(&contract, &gatekeeper, &provider);
    ledger.send(&[alice()], vec![system_transfer(&alice(), &gatekeeper, 1)]).unwrap();
    assert_eq!(ledger.balance(&gatekeeper), 1);
    let params = session_params(&contract);
    let state = BandwidthPrepayState { gatekeeper_id: gatekeeper, provider_id: provider, initiator_id: alice() };
    ledger.send(&[gatekeeper], vec![charge_instruction(&params, &state, &gatekeeper, 100)]).unwrap();
    ledger.send(&[gatekeeper], vec![refund_instruction(&params, &state, &gatekeeper)]).unwrap();
    assert_eq!(ledger.balance(&contract), 0);
    assert_eq!(ledger.balance(&provider), 100);
    assert_eq!(ledger.balance(&alice()), 9_899);
}

#[test]
fn spends_sum_to_what_moves() {
    let contract = Pubkey::filled(81);
    let gatekeeper = Pubkey::filled(82);
    let provider = Pubkey::filled(83);
    let mut ledger = opened(&contract, &gatekeeper, &provider);
    for amount in [10u64, 0, 250, 140] {
        ledger.send(&[gatekeeper], vec![spend(&gatekeeper, &contract, &provider, amount)]).unwrap();
    }
    assert_eq!(ledger.balance(&provider), 400);
    assert_eq!(ledger.balance(&contract), 100);
}

#[test]
fn overspend_fails_and_changes_nothing() {
    let contract = Pubkey::filled(91);
    let gatekeeper = Pubkey::filled(92);
    let provider = Pubkey::filled(93);
    let mut ledger = opened(&contract, &gatekeeper, &provider);
    let r = ledger.send(&[gatekeeper], vec![spend(&gatekeeper, &contract, &provider, 501)]);
    assert_eq!(r, Err(InstructionError::CustomError(BandwidthPrepayError::BalanceTooLow.code())));
    assert_eq!(r, Err(InstructionError::CustomError(4)));
    assert_eq!(ledger.balance(&contract), 500);
    assert_eq!(ledger.balance(&provider), 0);
}

#[test]
fn spend_of_whole_balance_succeeds() {
    let contract = Pubkey::filled(94);
    let gatekeeper = Pubkey::filled(95);
    let provider = Pubkey::filled(96);
    let mut ledger = opened(&contract, &gatekeeper, &provider);
    ledger.send(&[gatekeeper], vec![spend(&gatekeeper, &contract, &provider, 500)]).unwrap();
    assert_eq!(ledger.balance(&contract), 0);
    assert_eq!(ledger.balance(&provider), 500);
}

#[test]
fn unsigned_or_wrong_gatekeeper_is_refused() {
    let contract = Pubkey::filled(101);
    let gatekeeper = Pubkey::filled(102);
    let provider = Pubkey::filled(103);
    let stranger = Pubkey::filled(104);
    let mut ledger = opened(&contract, &gatekeeper, &provider);
    let r = ledger.send(&[], vec![spend(&gatekeeper, &contract, &provider, 10)]);
    assert_eq!(r, Err(InstructionError::CustomError(3)));
    let r = ledger.send(&[stranger], vec![spend(&stranger, &contract, &provider, 10)]);
    assert_eq!(r, Err(InstructionError::CustomError(5)));
    let r = ledger.send(&[stranger], vec![refund(&stranger, &contract, &alice())]);
    assert_eq!(r, Err(InstructionError::CustomError(5)));
    let r = ledger.send(&[], vec![refund(&gatekeeper, &contract, &alice())]);
    assert_eq!(r, Err(InstructionError::CustomError(3)));
    assert_eq!(ledger.balance(&contract), 500);
}

#[test]
fn wrong_provider_or_initiator_is_refused() {
    let contract = Pubkey::filled(111);
    let gatekeeper = Pubkey::filled(112);
    let provider = Pubkey::filled(113);
    let mut ledger = opened(&contract, &gatekeeper, &provider);
    let other = Pubkey::filled(114);
    let r = ledger.send(&[gatekeeper], vec![spend(&gatekeeper, &contract, &other, 10)]);
    assert_eq!(r, Err(InstructionError::CustomError(BandwidthPrepayError::NoProviderAccount.code())));
    let r = ledger.send(&[gatekeeper], vec![refund(&gatekeeper, &contract, &other)]);
    assert_eq!(r, Err(InstructionError::CustomError(BandwidthPrepayError::NoInitiatorAccount.code())));
    assert_eq!(ledger.balance(&contract), 500);
}

#[test]
fn second_initialize_is_refused() {
    let contract = Pubkey::filled(121);
    let gatekeeper = Pubkey::filled(122);
    let provider = Pubkey::filled(123);
    let mut ledger = opened(&contract, &gatekeeper, &provider);
    let again = initialize(&alice(), &contract, &gatekeeper, &provider, 0).remove(1);
    let r = ledger.send(&[alice()], vec![again]);
    assert_eq!(r, Err(InstructionError::CustomError(BandwidthPrepayError::AlreadyInitialized.code())));
}

#[test]
fn spend_on_undecodable_contract_fails() {
    let gatekeeper = Pubkey::filled(131);
    let mut accounts = vec![
        KeyedAccount { key: gatekeeper, is_signer: true, account: Account::new(1, 0, &id()) },
        KeyedAccount { key: Pubkey::filled(132), is_signer: false, account: Account::new(500, 10, &id()) },
        KeyedAccount { key: Pubkey::filled(133), is_signer: false, account: Account::new(0, 0, &id()) },
    ];
    let data = BandwidthPrepayInstruction::Spend(100).encode();
    let r = process_instruction(&id(), &mut accounts, &data);
    assert_eq!(
        r,
        Err(InstructionError::CustomError(BandwidthPrepayError::UserdataDeserializeFailure.code()))
    );
    assert_eq!(accounts[1].account.lamports, 500);
}

#[test]
fn initialize_into_small_account_fails() {
    let mut accounts = vec![
        KeyedAccount { key: alice(), is_signer: true, account: Account::new(1, 0, &id()) },
        KeyedAccount { key: Pubkey::filled(141), is_signer: false, account: Account::new(5, 40, &id()) },
        KeyedAccount { key: Pubkey::filled(142), is_signer: false, account: Account::new(0, 0, &id()) },
        KeyedAccount { key: Pubkey::filled(143), is_signer: false, account: Account::new(0, 0, &id()) },
    ];
    let data = BandwidthPrepayInstruction::InitializeAccount.encode();
    let r = process_instruction(&id(), &mut accounts, &data);
    assert_eq!(r, Err(InstructionError::CustomError(1)));
    assert_eq!(accounts[1].account.data, vec![0u8; 40]);
}

#[test]
fn malformed_requests_are_refused() {
    let mut accounts: Vec<KeyedAccount> = Vec::new();
    assert_eq!(
        process_instruction(&id(), &mut accounts, &[1, 0, 0]),
        Err(InstructionError::InvalidInstructionData)
    );
    assert_eq!(
        process_instruction(&id(), &mut accounts, &[7, 0, 0, 0]),
        Err(InstructionError::InvalidInstructionData)
    );
    assert_eq!(
        process_instruction(&id(), &mut accounts, &[1, 0, 0, 0, 5]),
        Err(InstructionError::InvalidInstructionData)
    );
    assert_eq!(
        process_instruction(&id(), &mut accounts, &[2, 0, 0, 0]),
        Err(InstructionError::NotEnoughAccountKeys)
    );
    let mut accounts = vec![
        KeyedAccount { key: alice(), is_signer: false, account: Account::new(1, 0, &id()) },
        KeyedAccount { key: Pubkey::filled(151), is_signer: false, account: Account::new(5, 96, &id()) },
        KeyedAccount { key: Pubkey::filled(152), is_signer: false, account: Account::new(0, 0, &id()) },
        KeyedAccount { key: Pubkey::filled(153), is_signer: false, account: Account::new(0, 0, &id()) },
    ];
    assert_eq!(
        process_instruction(&id(), &mut accounts, &[0, 0, 0, 0]),
        Err(InstructionError::MissingRequiredSignature)
    );
}

#[test]
fn admit_session_needs_balance_and_initiator() {
    let state = BandwidthPrepayState {
        gatekeeper_id: Pubkey::filled(1),
        provider_id: Pubkey::filled(2),
        initiator_id: Pubkey::filled(3),
    };
    assert_eq!(admit_session(10, &state, &Pubkey::filled(3)), Ok(()));
    assert_eq!(admit_session(0, &state, &Pubkey::filled(3)), Err(RequestError::InvalidRequest));
    assert_eq!(admit_session(10, &state, &Pubkey::filled(4)), Err(RequestError::InvalidRequest));
}

#[test]
fn check_contract_errors() {
    let gatekeeper = Pubkey::filled(9);
    assert_eq!(check_contract(None, 5, &gatekeeper), Err(ContractError::NoData));
    assert_eq!(check_contract(Some(&[9u8; 95]), 5, &gatekeeper), Err(ContractError::Undecodable));
    assert_eq!(check_contract(Some(&[8u8; 96]), 5, &gatekeeper), Err(ContractError::WrongGatekeeper));
    let (lamports, state) = check_contract(Some(&[9u8; 100]), 5, &gatekeeper).unwrap();
    assert_eq!(lamports, 5);
    assert_eq!(state.initiator_id, Pubkey::filled(9));
}

#[test]
fn exhaustion_teardown_empties_contract() {
    let contract = Pubkey::filled(161);
    let gatekeeper = Pubkey::filled(162);
    let provider = Pubkey::filled(163);
    let mut ledger = Ledger::new(&alice(), 10_000);
    let instructions = initialize(&alice(), &contract, &gatekeeper, &provider, 150);
    ledger.send(&[alice(), contract], instructions).unwrap();
    let params = session_params(&contract);
    let state = BandwidthPrepayState { gatekeeper_id: gatekeeper, provider_id: provider, initiator_id: alice() };
    let mut acc = Accumulator::new(150, 0);
    let action = process_data(&params, &mut acc, None, 200, 1);
    assert_eq!(action, MeterAction::Exhausted { charge: 0, refund: true });
    if let MeterAction::Exhausted { charge, refund: give_back } = action {
        ledger.send(&[gatekeeper], vec![charge_instruction(&params, &state, &gatekeeper, charge)]).unwrap();
        if give_back {
            ledger.send(&[gatekeeper], vec![refund_instruction(&params, &state, &gatekeeper)]).unwrap();
        }
    }
    let plan = teardown_plan(&acc, true);
    if let Some(amount) = plan.spend {
        ledger.send(&[gatekeeper], vec![charge_instruction(&params, &state, &gatekeeper, amount)]).unwrap();
    }
    if plan.refund {
        ledger.send(&[gatekeeper], vec![refund_instruction(&params, &state, &gatekeeper)]).unwrap();
    }
    assert_eq!(ledger.balance(&contract), 0);
    assert_eq!(ledger.balance(&provider), 0);
    assert_eq!(ledger.balance(&alice()), 10_000);
}

#[test]
fn settlements_reach_the_provider() {
    let contract = Pubkey::filled(171);
    let gatekeeper = Pubkey::filled(172);
    let provider = Pubkey::filled(173);
    let mut ledger = Ledger::new(&alice(), 10_000);
    ledger.send(&[alice(), contract], initialize(&alice(), &contract, &gatekeeper, &provider, 1000)).unwrap();
    let mut params = session_params(&contract);
    params.fee_interval = 0;
    let state = BandwidthPrepayState { gatekeeper_id: gatekeeper, provider_id: provider, initiator_id: alice() };
    let mut acc = Accumulator::new(1000, 0);
    for (i, n) in [64u64, 128, 8].iter().enumerate() {
        let now = 1 + i as u64;
        if let MeterAction::Settle(amount) = process_data(&params, &mut acc, None, *n, now) {
            ledger.send(&[gatekeeper], vec![charge_instruction(&params, &state, &gatekeeper, amount)]).unwrap();
            acc.settle(now);
        }
    }
    assert_eq!(ledger.balance(&provider), 200);
    assert_eq!(ledger.balance(&contract), 800);
    assert_eq!(acc.amount_charged, 0);
}
