use crate::pubkey::Pubkey;
use vstd::prelude::*;

verus! {

/// Size in bytes of a serialized contract record.
pub const STATE_SIZE: usize = 96;

/// Errors of the prepay contract program.
#[derive(Clone, Copy, Debug, PartialEq, Eq, Structural)]
pub enum BandwidthPrepayError {
    AlreadyInitialized,
    UserdataTooSmall,
    UserdataDeserializeFailure,
    NotSignedByGatekeeper,
    BalanceTooLow,
    NoGatekeeperAccount,
    NoProviderAccount,
    NoInitiatorAccount,
}

impl BandwidthPrepayError {
    /// The small integer through which the runtime reports this error.
    pub open spec fn spec_code(self) -> u32 {
        match self {
            BandwidthPrepayError::AlreadyInitialized => 0,
            BandwidthPrepayError::UserdataTooSmall => 1,
            BandwidthPrepayError::UserdataDeserializeFailure => 2,
            BandwidthPrepayError::NotSignedByGatekeeper => 3,
            BandwidthPrepayError::BalanceTooLow => 4,
            BandwidthPrepayError::NoGatekeeperAccount => 5,
            BandwidthPrepayError::NoProviderAccount => 6,
            BandwidthPrepayError::NoInitiatorAccount => 7,
        }
    }

    /// The error's code: its position in the list of kinds.
    pub fn code(&self) -> (r: u32)
        ensures
            r == self.spec_code(),
    {
        match self {
            BandwidthPrepayError::AlreadyInitialized => 0,
            BandwidthPrepayError::UserdataTooSmall => 1,
            BandwidthPrepayError::UserdataDeserializeFailure => 2,
            BandwidthPrepayError::NotSignedByGatekeeper => 3,
            BandwidthPrepayError::BalanceTooLow => 4,
            BandwidthPrepayError::NoGatekeeperAccount => 5,
            BandwidthPrepayError::NoProviderAccount => 6,
            BandwidthPrepayError::NoInitiatorAccount => 7,
        }
    }

    /// A short description of the error.
    pub fn to_string(&self) -> (r: String)
        ensures
            r@ == "invalid"@,
    {
        String::from_str("invalid")
    }
}

/// The record that a prepay contract account holds.
#[derive(Clone, Copy, Debug)]
pub struct BandwidthPrepayState {
    pub gatekeeper_id: Pubkey,
    pub provider_id: Pubkey,
    pub initiator_id: Pubkey,
}

/// The bytes of a record: the three keys, gatekeeper first, then provider, then initiator.
pub open spec fn state_bytes(s: BandwidthPrepayState) -> Seq<u8> {
    s.gatekeeper_id@ + s.provider_id@ + s.initiator_id@
}

/// The all-zero record of an account that has not been initialized.
pub open spec fn is_default_state(s: BandwidthPrepayState) -> bool {
    state_bytes(s) == Seq::new(96, |_i: int| 0u8)
}

impl PartialEq for BandwidthPrepayState {
    fn eq(&self, o: &BandwidthPrepayState) -> (r: bool) {
        self.gatekeeper_id == o.gatekeeper_id && self.provider_id == o.provider_id
            && self.initiator_id == o.initiator_id
    }
}

impl vstd::std_specs::cmp::PartialEqSpecImpl for BandwidthPrepayState {
    open spec fn obeys_eq_spec() -> bool {
        true
    }

    open spec fn eq_spec(&self, o: &BandwidthPrepayState) -> bool {
        self.gatekeeper_id@ == o.gatekeeper_id@ && self.provider_id@ == o.provider_id@
            && self.initiator_id@ == o.initiator_id@
    }
}

impl Eq for BandwidthPrepayState {
}

/// Reads the 32-byte key that starts at `off`.
fn read_key(input: &[u8], off: usize) -> (r: Pubkey)
    requires
        off + 32 <= input@.len(),
    ensures
        r@ == input@.subrange(off as int, off + 32),
{
    let mut bytes = [0u8; 32];
    let mut i: usize = 0;
    while i < 32
        invariant
            off + 32 <= input@.len(),
            input@.len() == input.len(),
            0 <= i <= 32,
            bytes@.len() == 32,
            forall|j: int| 0 <= j < i ==> bytes@[j] == input@[off + j],
        decreases 32 - i,
    {
        bytes[i] = input[off + i];
        i = i + 1;
    }
    let r = Pubkey { bytes };
    assert(r@ =~= input@.subrange(off as int, off + 32));
    r
}

/// Writes `key` into `output` at `off`, leaving the other bytes as they were.
fn write_key(output: &mut [u8], off: usize, key: &Pubkey)
    requires
        off + 32 <= old(output)@.len(),
    ensures
        final(output)@.len() == old(output)@.len(),
        final(output)@.subrange(off as int, off + 32) == key@,
        forall|j: int|
            0 <= j < old(output)@.len() && !(off <= j < off + 32) ==> final(output)@[j]
                == old(output)@[j],
{
    let mut i: usize = 0;
    while i < 32
        invariant
            off + 32 <= output@.len(),
            output@.len() == old(output)@.len(),
            output@.len() == output.len(),
            0 <= i <= 32,
            forall|j: int| 0 <= j < i ==> output@[off + j] == key@[j],
            forall|j: int|
                0 <= j < output@.len() && !(off <= j < off + i) ==> output@[j]
                    == old(output)@[j],
        decreases 32 - i,
    {
        output[off + i] = key.bytes[i];
        i = i + 1;
    }
    assert(output@.subrange(off as int, off + 32) =~= key@);
}

impl Default for BandwidthPrepayState {
    fn default() -> (r: BandwidthPrepayState)
        ensures
            is_default_state(r),
    {
        let r = BandwidthPrepayState {
            gatekeeper_id: Pubkey::filled(0),
            provider_id: Pubkey::filled(0),
            initiator_id: Pubkey::filled(0),
        };
        assert(state_bytes(r) =~= Seq::new(96, |_i: int| 0u8));
        r
    }
}

impl BandwidthPrepayState {
    /// Reads a record from the first 96 bytes of `input`; fails on a shorter input.
    pub fn deserialize(input: &[u8]) -> (r: Result<BandwidthPrepayState, BandwidthPrepayError>)
        ensures
            input@.len() >= STATE_SIZE <==> r is Ok,
            r matches Ok(s) ==> state_bytes(s) == input@.subrange(0, STATE_SIZE as int),
            r matches Err(e) ==> e == BandwidthPrepayError::UserdataDeserializeFailure,
    {
        if input.len() < STATE_SIZE {
            return Err(BandwidthPrepayError::UserdataDeserializeFailure);
        }
        let gatekeeper_id = read_key(input, 0);
        let provider_id = read_key(input, 32);
        let initiator_id = read_key(input, 64);
        let s = BandwidthPrepayState { gatekeeper_id, provider_id, initiator_id };
        assert(state_bytes(s) =~= input@.subrange(0, STATE_SIZE as int));
        Ok(s)
    }

    /// Writes the record into the first 96 bytes of `output`; on a shorter buffer it fails and
    /// writes nothing.
    pub fn serialize(&self, output: &mut [u8]) -> (r: Result<(), BandwidthPrepayError>)
        ensures
            old(output)@.len() >= STATE_SIZE <==> r is Ok,
            r is Ok ==> final(output)@ == state_bytes(*self) + old(output)@.subrange(
                STATE_SIZE as int,
                old(output)@.len() as int,
            ),
            r matches Err(e) ==> e == BandwidthPrepayError::UserdataTooSmall && final(output)@
                == old(output)@,
    {
        if output.len() < STATE_SIZE {
            return Err(BandwidthPrepayError::UserdataTooSmall);
        }
        write_key(output, 0, &self.gatekeeper_id);
        write_key(output, 32, &self.provider_id);
        write_key(output, 64, &self.initiator_id);
        assert(output@ =~= state_bytes(*self) + old(output)@.subrange(
            STATE_SIZE as int,
            old(output)@.len() as int,
        ));
        Ok(())
    }

    /// The size of a serialized record.
    pub fn max_size() -> (r: usize)
        ensures
            r == STATE_SIZE,
            forall|s: BandwidthPrepayState| state_bytes(s).len() == r,
    {
        STATE_SIZE
    }
}

/// A record survives a trip through its bytes: what `deserialize` reads back from a buffer that
/// `serialize` wrote is the record that was written, whatever the buffer held after it.
pub proof fn lemma_state_round_trip(
    x: BandwidthPrepayState,
    rest: Seq<u8>,
    y: BandwidthPrepayState,
)
    requires
        state_bytes(y) == (state_bytes(x) + rest).subrange(0, STATE_SIZE as int),
    ensures
        y == x,
{
    let b = state_bytes(x) + rest;
    assert(state_bytes(y) =~= state_bytes(x));
    assert(y.gatekeeper_id@ =~= state_bytes(y).subrange(0, 32));
    assert(x.gatekeeper_id@ =~= state_bytes(x).subrange(0, 32));
    assert(y.provider_id@ =~= state_bytes(y).subrange(32, 64));
    assert(x.provider_id@ =~= state_bytes(x).subrange(32, 64));
    assert(y.initiator_id@ =~= state_bytes(y).subrange(64, 96));
    assert(x.initiator_id@ =~= state_bytes(x).subrange(64, 96));
    assert(y.gatekeeper_id.bytes == x.gatekeeper_id.bytes);
    assert(y.provider_id.bytes == x.provider_id.bytes);
    assert(y.initiator_id.bytes == x.initiator_id.bytes);
}

} // verus!
