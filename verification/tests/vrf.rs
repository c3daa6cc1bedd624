use switchboard_v2::vrf::{
    AccountMetaBorsh, Callback, CallbackZC, Instruction, VrfBuilder, VrfRequestRandomnessParams,
    VrfRound, VrfStatus,
};
use switchboard_v2::vrf_points::{
    CompletedPoint, CompletedPointZC, EcvrfProofZC, EdwardsPointZC, FieldElement51,
    FieldElementZC, ProjectivePoint, ProjectivePointZC,
};
use switchboard_v2::{SwitchboardError, VrfAccountData, VrfRequestRandomness};

fn meta(seed: u8, is_signer: bool, is_writable: bool) -> AccountMetaBorsh {
    AccountMetaBorsh {
        pubkey: [seed; 32],
        is_signer,
        is_writable,
    }
}

fn request() -> VrfRequestRandomness {
    VrfRequestRandomness {
        authority: meta(1, false, true),
        vrf: meta(2, false, true),
        oracle_queue: meta(3, false, true),
        queue_authority: meta(4, false, false),
        data_buffer: meta(5, false, false),
        permission: meta(6, false, true),
        escrow: meta(7, false, true),
        payer_wallet: meta(8, false, true),
        payer_authority: meta(9, true, false),
        recent_blockhashes: meta(10, false, false),
        program_state: meta(11, false, false),
        token_program: meta(12, false, false),
    }
}

#[test]
fn account_metas_come_in_order_with_the_authority_signing() {
    let r = request();
    let metas = r.to_account_metas(None);
    assert_eq!(metas.len(), 12);
    for (i, m) in metas.iter().enumerate() {
        assert_eq!(m.pubkey, [i as u8 + 1; 32]);
    }
    // the authority signs although its own flag is unset
    assert_eq!(metas[0], meta(1, true, true));
    assert_eq!(metas[1], r.vrf);
    assert_eq!(metas[2], r.oracle_queue);
    assert_eq!(metas[3], r.queue_authority);
    assert_eq!(metas[4], r.data_buffer);
    assert_eq!(metas[5], r.permission);
    assert_eq!(metas[6], r.escrow);
    assert_eq!(metas[7], r.payer_wallet);
    assert_eq!(metas[8], r.payer_authority);
    assert_eq!(metas[9], r.recent_blockhashes);
    assert_eq!(metas[10], r.program_state);
    assert_eq!(metas[11], r.token_program);
    assert_eq!(r.to_account_metas(Some(false)), metas);
    assert_eq!(r.to_account_metas(Some(true)), metas);
}

#[test]
fn instruction_data_is_tag_then_bumps() {
    let r = request();
    let params = VrfRequestRandomnessParams {
        permission_bump: 254,
        state_bump: 7,
    };
    let ix = r.get_instruction([42u8; 32], params).unwrap();
    assert_eq!(
        ix,
        Instruction {
            program_id: [42u8; 32],
            accounts: r.to_account_metas(None),
            data: vec![230, 121, 14, 164, 28, 222, 117, 118, 254, 7],
        }
    );
    assert_eq!(
        VrfRequestRandomness::discriminator(),
        [230, 121, 14, 164, 28, 222, 117, 118]
    );
}

#[test]
fn vrf_result_is_empty_until_written() {
    let mut data = VrfAccountData::default();
    assert_eq!(data.get_result(), Err(SwitchboardError::VrfEmptyError));
    data.current_round.result[31] = 1;
    let mut expected = [0u8; 32];
    expected[31] = 1;
    assert_eq!(data.get_result(), Ok(expected));
    data.current_round.result = [9u8; 32];
    assert_eq!(data.get_result(), Ok([9u8; 32]));
    data.counter = 77;
    assert_eq!(data.get_current_randomness_round_id(), 77);
    data.counter = u128::MAX;
    assert_eq!(data.get_current_randomness_round_id(), u128::MAX);
}

#[test]
fn vrf_discriminator_is_checked() {
    let tag = [101u8, 35, 62, 239, 103, 151, 6, 18];
    assert_eq!(VrfAccountData::discriminator(), tag);
    let mut bytes = tag.to_vec();
    assert_eq!(VrfAccountData::check_discriminator(&bytes), Ok(()));
    bytes.extend_from_slice(&[1, 2, 3]);
    assert_eq!(VrfAccountData::check_discriminator(&bytes), Ok(()));
    for i in 0..8 {
        let mut wrong = bytes.clone();
        wrong[i] ^= 1;
        assert_eq!(
            VrfAccountData::check_discriminator(&wrong),
            Err(SwitchboardError::AccountDiscriminatorMismatch)
        );
    }
    assert_eq!(
        VrfAccountData::check_discriminator(b"BUFFERxx"),
        Err(SwitchboardError::AccountDiscriminatorMismatch)
    );
}

#[test]
fn vrf_defaults_are_all_zero() {
    let data = VrfAccountData::default();
    assert_eq!(data.status, VrfStatus::StatusNone);
    assert_eq!(data.counter, 0);
    assert_eq!(data.authority, [0u8; 32]);
    assert_eq!(data.callback.accounts_len, 0);
    assert_eq!(data.callback.ix_data, [0u8; 1024]);
    assert_eq!(data.callback.accounts[31].pubkey, [0u8; 32]);
    assert!(!data.callback.accounts[31].is_signer);
    assert_eq!(data.builders[7].status, VrfStatus::StatusNone);
    assert_eq!(data.builders[7].repr_proof, [0u8; 80]);
    assert_eq!(data.builders[7].Y_point_builder[2].bytes, [0u64; 5]);
    assert_eq!(data.current_round.alpha, [0u8; 256]);
    assert_eq!(data._ebuf, [0u8; 1024]);
    assert!(!data.test_mode);

    let b = VrfBuilder::default();
    assert_eq!(b.stage, 0);
    assert_eq!(b.proof.c.bytes, [0u8; 32]);
    assert_eq!(b.mul_tmp1.T.bytes, [0u64; 5]);
    assert!(!b.verified);
    let c = CallbackZC::default();
    assert_eq!(c.program_id, [0u8; 32]);
    assert_eq!(c.ix_data_len, 0);
    let r = VrfRound::default();
    assert_eq!(r.result, [0u8; 32]);
    assert_eq!(r.num_verified, 0);
    let p = EcvrfProofZC::default();
    assert_eq!(p.Gamma.X.bytes, [0u64; 5]);
    assert_eq!(p.s.bytes, [0u8; 32]);
    assert_eq!(EdwardsPointZC::default().T.bytes, [0u64; 5]);
    assert_eq!(CompletedPointZC::default().Z.bytes, [0u64; 5]);
    assert_eq!(ProjectivePointZC::default().Y.bytes, [0u64; 5]);
    assert_eq!(ProjectivePoint::default().Z.0, [0u64; 5]);
    assert_eq!(FieldElementZC::default().bytes, [0u64; 5]);
    assert_eq!(FieldElement51::default().0, [0u64; 5]);
}

#[test]
fn points_keep_their_limbs_in_both_shapes() {
    let x = FieldElement51([1, 2, 3, 4, 5]);
    let y = FieldElement51([6, 7, 8, 9, 10]);
    let z = FieldElement51([11, 12, 13, 14, 15]);
    let t = FieldElement51([16, 17, 18, 19, u64::MAX]);

    let fz: FieldElementZC = x.into();
    assert_eq!(fz.bytes, [1, 2, 3, 4, 5]);
    let back: FieldElement51 = fz.into();
    assert_eq!(back.0, [1, 2, 3, 4, 5]);

    let c = CompletedPoint { X: x, Y: y, Z: z, T: t };
    let cz: CompletedPointZC = c.into();
    assert_eq!(cz.X.bytes, [1, 2, 3, 4, 5]);
    assert_eq!(cz.Y.bytes, [6, 7, 8, 9, 10]);
    assert_eq!(cz.Z.bytes, [11, 12, 13, 14, 15]);
    assert_eq!(cz.T.bytes, [16, 17, 18, 19, u64::MAX]);
    let c2: CompletedPoint = cz.into();
    assert_eq!(c2.X.0, x.0);
    assert_eq!(c2.Y.0, y.0);
    assert_eq!(c2.Z.0, z.0);
    assert_eq!(c2.T.0, t.0);

    let p = ProjectivePoint { X: x, Y: y, Z: z };
    let pz: ProjectivePointZC = p.into();
    assert_eq!(pz.X.bytes, x.0);
    assert_eq!(pz.Y.bytes, y.0);
    assert_eq!(pz.Z.bytes, z.0);
    let back: ProjectivePoint = pz.into();
    assert_eq!(back.X.0, x.0);
    assert_eq!(back.Y.0, y.0);
    assert_eq!(back.Z.0, z.0);
}

#[test]
fn callback_holds_its_accounts_and_data() {
    let c = Callback {
        program_id: [3u8; 32],
        accounts: vec![meta(1, true, false)],
        ix_data: vec![1, 2, 3],
    };
    assert_eq!(c.clone(), c);
    assert_eq!(c.accounts[0].pubkey, [1u8; 32]);
}
