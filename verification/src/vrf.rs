//! The account of a verifiable-random-function request, and the instruction
//! that asks the oracle queue for new randomness.

use vstd::prelude::*;
use crate::error::SwitchboardError;
use crate::vrf_points::{
    CompletedPointZC,
    EcvrfIntermediate,
    EcvrfProofZC,
    EdwardsPointZC,
    FieldElementZC,
    Scalar,
};

verus! {

/// How far a request for randomness has come.
#[derive(Clone, Copy, Debug, PartialEq, Eq, Structural)]
pub enum VrfStatus {
    StatusNone,
    StatusRequesting,
    StatusVerifying,
    StatusVerified,
    StatusCallbackSuccess,
    StatusVerifyFailure,
}

/// The state of one oracle's verification of a proof, step by step.
#[allow(non_snake_case)]
#[derive(Clone, Copy)]
pub struct VrfBuilder {
    pub producer: [u8; 32],
    pub status: VrfStatus,
    pub repr_proof: [u8; 80],
    pub proof: EcvrfProofZC,
    pub Y_point: [u8; 32],
    pub stage: u32,
    pub stage1_out: EcvrfIntermediate,
    pub R_1: EdwardsPointZC,
    pub R_2: EdwardsPointZC,
    pub stage3_out: EcvrfIntermediate,
    pub H_point: EdwardsPointZC,
    pub s_reduced: Scalar,
    pub Y_point_builder: [FieldElementZC; 3],
    pub Y_ristretto_point: EdwardsPointZC,
    pub mul_round: u8,
    pub hash_points_round: u8,
    pub mul_tmp1: CompletedPointZC,
    pub U_point1: EdwardsPointZC,
    pub U_point2: EdwardsPointZC,
    pub V_point1: EdwardsPointZC,
    pub V_point2: EdwardsPointZC,
    pub U_point: EdwardsPointZC,
    pub V_point: EdwardsPointZC,
    pub u1: FieldElementZC,
    pub u2: FieldElementZC,
    pub invertee: FieldElementZC,
    pub y: FieldElementZC,
    pub z: FieldElementZC,
    pub p1_bytes: [u8; 32],
    pub p2_bytes: [u8; 32],
    pub p3_bytes: [u8; 32],
    pub p4_bytes: [u8; 32],
    pub c_prime_hashbuf: [u8; 16],
    pub m1: FieldElementZC,
    pub m2: FieldElementZC,
    pub tx_remaining: u32,
    pub verified: bool,
    pub result: [u8; 32],
}

impl VrfBuilder {
    /// Every number is zero, every flag unset, and the status is
    /// `StatusNone`.
    pub open spec fn is_zeroed(&self) -> bool {
        &&& forall|i: int| 0 <= i < 32 ==> self.producer[i] == 0
        &&& self.status == VrfStatus::StatusNone
        &&& forall|i: int| 0 <= i < 80 ==> self.repr_proof[i] == 0
        &&& self.proof.is_zeroed()
        &&& forall|i: int| 0 <= i < 32 ==> self.Y_point[i] == 0
        &&& self.stage == 0
        &&& self.stage1_out.is_zeroed()
        &&& self.R_1.is_zeroed()
        &&& self.R_2.is_zeroed()
        &&& self.stage3_out.is_zeroed()
        &&& self.H_point.is_zeroed()
        &&& forall|i: int| 0 <= i < 32 ==> self.s_reduced.bytes[i] == 0
        &&& forall|i: int| 0 <= i < 3 ==> (#[trigger] self.Y_point_builder[i]).is_zeroed()
        &&& self.Y_ristretto_point.is_zeroed()
        &&& self.mul_round == 0
        &&& self.hash_points_round == 0
        &&& self.mul_tmp1.is_zeroed()
        &&& self.U_point1.is_zeroed()
        &&& self.U_point2.is_zeroed()
        &&& self.V_point1.is_zeroed()
        &&& self.V_point2.is_zeroed()
        &&& self.U_point.is_zeroed()
        &&& self.V_point.is_zeroed()
        &&& self.u1.is_zeroed()
        &&& self.u2.is_zeroed()
        &&& self.invertee.is_zeroed()
        &&& self.y.is_zeroed()
        &&& self.z.is_zeroed()
        &&& forall|i: int| 0 <= i < 32 ==> self.p1_bytes[i] == 0
        &&& forall|i: int| 0 <= i < 32 ==> self.p2_bytes[i] == 0
        &&& forall|i: int| 0 <= i < 32 ==> self.p3_bytes[i] == 0
        &&& forall|i: int| 0 <= i < 32 ==> self.p4_bytes[i] == 0
        &&& forall|i: int| 0 <= i < 16 ==> self.c_prime_hashbuf[i] == 0
        &&& self.m1.is_zeroed()
        &&& self.m2.is_zeroed()
        &&& self.tx_remaining == 0
        &&& !self.verified
        &&& forall|i: int| 0 <= i < 32 ==> self.result[i] == 0
    }
}

impl Default for VrfBuilder {
    fn default() -> (b: VrfBuilder)
        ensures
            b.is_zeroed(),
    {
        let fe = FieldElementZC { bytes: [0u64; 5] };
        let point = EdwardsPointZC { X: fe, Y: fe, Z: fe, T: fe };
        let stage = EcvrfIntermediate { r: fe, N_s: fe, D: fe, t13: fe, t15: fe };
        let scalar = Scalar { bytes: [0u8; 32] };
        VrfBuilder {
            producer: [0u8; 32],
            status: VrfStatus::StatusNone,
            repr_proof: [0u8; 80],
            proof: EcvrfProofZC { Gamma: point, c: scalar, s: scalar },
            Y_point: [0u8; 32],
            stage: 0,
            stage1_out: stage,
            R_1: point,
            R_2: point,
            stage3_out: stage,
            H_point: point,
            s_reduced: scalar,
            Y_point_builder: [fe, fe, fe],
            Y_ristretto_point: point,
            mul_round: 0,
            hash_points_round: 0,
            mul_tmp1: CompletedPointZC { X: fe, Y: fe, Z: fe, T: fe },
            U_point1: point,
            U_point2: point,
            V_point1: point,
            V_point2: point,
            U_point: point,
            V_point: point,
            u1: fe,
            u2: fe,
            invertee: fe,
            y: fe,
            z: fe,
            p1_bytes: [0u8; 32],
            p2_bytes: [0u8; 32],
            p3_bytes: [0u8; 32],
            p4_bytes: [0u8; 32],
            c_prime_hashbuf: [0u8; 16],
            m1: fe,
            m2: fe,
            tx_remaining: 0,
            verified: false,
            result: [0u8; 32],
        }
    }
}

/// An account that an instruction touches, as the account stores it.
#[derive(Clone, Copy)]
pub struct AccountMetaZC {
    pub pubkey: [u8; 32],
    pub is_signer: bool,
    pub is_writable: bool,
}

impl AccountMetaZC {
    /// The key is all zero and both flags are unset.
    pub open spec fn is_zeroed(&self) -> bool {
        &&& forall|i: int| 0 <= i < 32 ==> self.pubkey[i] == 0
        &&& !self.is_signer
        &&& !self.is_writable
    }
}

/// An account that an instruction touches: its key, whether it signs, and
/// whether it may be written.
#[derive(Clone, Copy, Debug, PartialEq, Eq)]
pub struct AccountMetaBorsh {
    pub pubkey: [u8; 32],
    pub is_signer: bool,
    pub is_writable: bool,
}

/// The instruction to call once randomness has been produced, as the account
/// stores it.
#[derive(Clone, Copy)]
pub struct CallbackZC {
    pub program_id: [u8; 32],
    pub accounts: [AccountMetaZC; 32],
    pub accounts_len: u32,
    pub ix_data: [u8; 1024],
    pub ix_data_len: u32,
}

impl CallbackZC {
    /// Every number is zero, every flag unset.
    pub open spec fn is_zeroed(&self) -> bool {
        &&& forall|i: int| 0 <= i < 32 ==> self.program_id[i] == 0
        &&& forall|i: int| 0 <= i < 32 ==> (#[trigger] self.accounts[i]).is_zeroed()
        &&& self.accounts_len == 0
        &&& forall|i: int| 0 <= i < 1024 ==> self.ix_data[i] == 0
        &&& self.ix_data_len == 0
    }
}

impl Default for CallbackZC {
    fn default() -> (c: CallbackZC)
        ensures
            c.is_zeroed(),
    {
        let a = AccountMetaZC { pubkey: [0u8; 32], is_signer: false, is_writable: false };
        CallbackZC {
            program_id: [0u8; 32],
            accounts: [
                a,
                a,
                a,
                a,
                a,
                a,
                a,
                a,
                a,
                a,
                a,
                a,
                a,
                a,
                a,
                a,
                a,
                a,
                a,
                a,
                a,
                a,
                a,
                a,
                a,
                a,
                a,
                a,
                a,
                a,
                a,
                a,
            ],
            accounts_len: 0,
            ix_data: [0u8; 1024],
            ix_data_len: 0,
        }
    }
}

/// The instruction to call once randomness has been produced.
#[derive(Clone, Debug, PartialEq, Eq)]
pub struct Callback {
    pub program_id: [u8; 32],
    pub accounts: Vec<AccountMetaBorsh>,
    pub ix_data: Vec<u8>,
}

/// One request for randomness and what came of it.
#[derive(Clone, Copy)]
pub struct VrfRound {
    pub alpha: [u8; 256],
    pub alpha_len: u32,
    pub request_slot: u64,
    pub request_timestamp: i64,
    /// The randomness; all zero until the proof has been verified.
    pub result: [u8; 32],
    pub num_verified: u32,
    pub _ebuf: [u8; 256],
}

impl VrfRound {
    /// Every number is zero.
    pub open spec fn is_zeroed(&self) -> bool {
        &&& forall|i: int| 0 <= i < 256 ==> self.alpha[i] == 0
        &&& self.alpha_len == 0
        &&& self.request_slot == 0
        &&& self.request_timestamp == 0
        &&& forall|i: int| 0 <= i < 32 ==> self.result[i] == 0
        &&& self.num_verified == 0
        &&& forall|i: int| 0 <= i < 256 ==> self._ebuf[i] == 0
    }
}

impl Default for VrfRound {
    fn default() -> (r: VrfRound)
        ensures
            r.is_zeroed(),
    {
        VrfRound {
            alpha: [0u8; 256],
            alpha_len: 0,
            request_slot: 0,
            request_timestamp: 0,
            result: [0u8; 32],
            num_verified: 0,
            _ebuf: [0u8; 256],
        }
    }
}

/// Whether all 32 bytes are zero.
fn all_zero(bytes: &[u8; 32]) -> (b: bool)
    ensures
        b == (forall|i: int| 0 <= i < 32 ==> bytes[i] == 0),
{
    let mut i: usize = 0;
    while i < 32
        invariant
            0 <= i <= 32,
            forall|j: int| 0 <= j < i ==> bytes[j] == 0,
        decreases 32 - i,
    {
        if bytes[i] != 0 {
            return false;
        }
        i = i + 1;
    }
    true
}

/// The state of a randomness account.
#[derive(Clone, Copy)]
pub struct VrfAccountData {
    pub status: VrfStatus,
    /// The number of the current request.
    pub counter: u128,
    pub authority: [u8; 32],
    pub oracle_queue: [u8; 32],
    pub escrow: [u8; 32],
    pub callback: CallbackZC,
    pub batch_size: u32,
    pub builders: [VrfBuilder; 8],
    pub builders_len: u32,
    pub test_mode: bool,
    pub current_round: VrfRound,
    pub _ebuf: [u8; 1024],
}

impl VrfAccountData {
    /// The tag that leads the bytes of a randomness account.
    pub open spec fn discriminator_spec() -> Seq<u8> {
        seq![101u8, 35u8, 62u8, 239u8, 103u8, 151u8, 6u8, 18u8]
    }

    /// Every number is zero, every flag unset, and each status is `StatusNone`.
    pub open spec fn is_zeroed(&self) -> bool {
        &&& self.status == VrfStatus::StatusNone
        &&& self.counter == 0
        &&& forall|i: int| 0 <= i < 32 ==> self.authority[i] == 0
        &&& forall|i: int| 0 <= i < 32 ==> self.oracle_queue[i] == 0
        &&& forall|i: int| 0 <= i < 32 ==> self.escrow[i] == 0
        &&& self.callback.is_zeroed()
        &&& self.batch_size == 0
        &&& forall|i: int| 0 <= i < 8 ==> (#[trigger] self.builders[i]).is_zeroed()
        &&& self.builders_len == 0
        &&& !self.test_mode
        &&& self.current_round.is_zeroed()
        &&& forall|i: int| 0 <= i < 1024 ==> self._ebuf[i] == 0
    }

    /// Whether the current round holds randomness: some byte of its result is
    /// not zero.
    pub open spec fn has_result(&self) -> bool {
        exists|i: int| 0 <= i < 32 && self.current_round.result[i] != 0
    }

    /// The tag that leads the bytes of a randomness account.
    pub fn discriminator() -> (tag: [u8; 8])
        ensures
            tag@ == VrfAccountData::discriminator_spec(),
    {
        let tag = [101, 35, 62, 239, 103, 151, 6, 18];
        assert(tag@ =~= VrfAccountData::discriminator_spec());
        tag
    }

    /// Accepts the bytes of an account exactly when they start with the tag of
    /// a randomness account; any other start gives
    /// `AccountDiscriminatorMismatch`.
    pub fn check_discriminator(data: &[u8]) -> (r: Result<(), SwitchboardError>)
        requires
            data@.len() >= 8,
        ensures
            r == (if data@.subrange(0, 8) == VrfAccountData::discriminator_spec() {
                Ok::<(), SwitchboardError>(())
            } else {
                Err::<(), SwitchboardError>(SwitchboardError::AccountDiscriminatorMismatch)
            }),
    {
        let tag = VrfAccountData::discriminator();
        let mut i: usize = 0;
        while i < 8
            invariant
                0 <= i <= 8,
                data@.len() >= 8,
                tag@ == VrfAccountData::discriminator_spec(),
                forall|j: int| 0 <= j < i ==> data@[j] == tag@[j],
            decreases 8 - i,
        {
            if data[i] != tag[i] {
                proof {
                    assert(data@.subrange(0, 8)[i as int] == data@[i as int]);
                }
                return Err(SwitchboardError::AccountDiscriminatorMismatch);
            }
            i = i + 1;
        }
        proof {
            assert(data@.subrange(0, 8) =~= tag@);
        }
        Ok(())
    }

    /// The number of the current request for randomness.
    pub fn get_current_randomness_round_id(&self) -> (id: u128)
        ensures
            id == self.counter,
    {
        self.counter
    }

    /// The randomness of the current round; `VrfEmptyError` while the result is
    /// still all zero.
    pub fn get_result(&self) -> (r: Result<[u8; 32], SwitchboardError>)
        ensures
            self.has_result() ==> r == Ok::<[u8; 32], SwitchboardError>(self.current_round.result),
            !self.has_result() ==> r == Err::<[u8; 32], SwitchboardError>(
                SwitchboardError::VrfEmptyError,
            ),
    {
        if all_zero(&self.current_round.result) {
            return Err(SwitchboardError::VrfEmptyError);
        }
        Ok(self.current_round.result)
    }
}

impl Default for VrfAccountData {
    fn default() -> (d: VrfAccountData)
        ensures
            d.is_zeroed(),
    {
        let b = VrfBuilder::default();
        VrfAccountData {
            status: VrfStatus::StatusNone,
            counter: 0,
            authority: [0u8; 32],
            oracle_queue: [0u8; 32],
            escrow: [0u8; 32],
            callback: CallbackZC::default(),
            batch_size: 0,
            builders: [b, b, b, b, b, b, b, b],
            builders_len: 0,
            test_mode: false,
            current_round: VrfRound::default(),
            _ebuf: [0u8; 1024],
        }
    }
}

/// The accounts that a request for randomness touches, each with its key and
/// its two flags.
#[derive(Clone, Copy, Debug, PartialEq, Eq)]
pub struct VrfRequestRandomness {
    /// The authority of the randomness account; it has to sign.
    pub authority: AccountMetaBorsh,
    pub vrf: AccountMetaBorsh,
    pub oracle_queue: AccountMetaBorsh,
    pub queue_authority: AccountMetaBorsh,
    pub data_buffer: AccountMetaBorsh,
    pub permission: AccountMetaBorsh,
    pub escrow: AccountMetaBorsh,
    pub payer_wallet: AccountMetaBorsh,
    pub payer_authority: AccountMetaBorsh,
    pub recent_blockhashes: AccountMetaBorsh,
    pub program_state: AccountMetaBorsh,
    pub token_program: AccountMetaBorsh,
}

/// The two bump seeds that the request carries.
#[derive(Clone, Copy, Debug, PartialEq, Eq)]
pub struct VrfRequestRandomnessParams {
    pub permission_bump: u8,
    pub state_bump: u8,
}

/// An instruction for a program: the program's key, the accounts it touches and
/// the bytes it is given.
#[derive(Clone, Debug, PartialEq, Eq)]
pub struct Instruction {
    pub program_id: [u8; 32],
    pub accounts: Vec<AccountMetaBorsh>,
    pub data: Vec<u8>,
}

impl VrfRequestRandomness {
    /// The tag that leads the data of a request for randomness.
    pub open spec fn discriminator_spec() -> Seq<u8> {
        seq![230u8, 121u8, 14u8, 164u8, 28u8, 222u8, 117u8, 118u8]
    }

    /// The accounts in the order in which the program expects them. The
    /// authority is marked as signer, whatever its own flag says.
    pub open spec fn account_metas_spec(&self) -> Seq<AccountMetaBorsh> {
        seq![
            AccountMetaBorsh {
                pubkey: self.authority.pubkey,
                is_signer: true,
                is_writable: self.authority.is_writable,
            },
            self.vrf,
            self.oracle_queue,
            self.queue_authority,
            self.data_buffer,
            self.permission,
            self.escrow,
            self.payer_wallet,
            self.payer_authority,
            self.recent_blockhashes,
            self.program_state,
            self.token_program,
        ]
    }

    /// The data of the instruction: the tag, then the permission bump, then the
    /// state bump.
    pub open spec fn instruction_data_spec(params: VrfRequestRandomnessParams) -> Seq<u8> {
        VrfRequestRandomness::discriminator_spec() + seq![
            params.permission_bump,
            params.state_bump,
        ]
    }

    /// The tag that leads the data of a request for randomness.
    pub fn discriminator() -> (tag: [u8; 8])
        ensures
            tag@ == VrfRequestRandomness::discriminator_spec(),
    {
        let tag = [230, 121, 14, 164, 28, 222, 117, 118];
        assert(tag@ =~= VrfRequestRandomness::discriminator_spec());
        tag
    }

    /// Lists the accounts of the request in the order in which the program
    /// expects them, the authority marked as signer.
    pub fn to_account_metas(&self, is_signer: Option<bool>) -> (metas: Vec<AccountMetaBorsh>)
        ensures
            metas@ == self.account_metas_spec(),
    {
        let mut metas: Vec<AccountMetaBorsh> = Vec::new();
        metas.push(
            AccountMetaBorsh {
                pubkey: self.authority.pubkey,
                is_signer: true,
                is_writable: self.authority.is_writable,
            },
        );
        metas.push(self.vrf);
        metas.push(self.oracle_queue);
        metas.push(self.queue_authority);
        metas.push(self.data_buffer);
        metas.push(self.permission);
        metas.push(self.escrow);
        metas.push(self.payer_wallet);
        metas.push(self.payer_authority);
        metas.push(self.recent_blockhashes);
        metas.push(self.program_state);
        metas.push(self.token_program);
        assert(metas@ =~= self.account_metas_spec());
        metas
    }

    /// Builds the instruction that asks `program_id` for randomness: the
    /// accounts of `to_account_metas`, and as data the tag followed by the two
    /// bumps. It never fails.
    pub fn get_instruction(&self, program_id: [u8; 32], params: VrfRequestRandomnessParams) -> (r:
        Result<Instruction, SwitchboardError>)
        ensures
            r matches Ok(ix) && ix.program_id == program_id && ix.accounts@
                == self.account_metas_spec() && ix.data@
                == VrfRequestRandomness::instruction_data_spec(params),
    {
        let accounts = self.to_account_metas(None);
        let tag = VrfRequestRandomness::discriminator();
        let mut data: Vec<u8> = Vec::new();
        let mut i: usize = 0;
        while i < 8
            invariant
                0 <= i <= 8,
                data@ == tag@.subrange(0, i as int),
            decreases 8 - i,
        {
            data.push(tag[i]);
            proof {
                assert(data@ =~= tag@.subrange(0, i + 1));
            }
            i = i + 1;
        }
        data.push(params.permission_bump);
        data.push(params.state_bump);
        proof {
            assert(data@ =~= VrfRequestRandomness::instruction_data_spec(params));
        }
        Ok(Instruction { program_id, accounts, data })
    }
}

} // verus!
