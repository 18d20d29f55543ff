use sbi::{
    AttestationFunction, BaseFunction, Error, HartState, ResetFunction, ResetReason, ResetType,
    SbiFunction, SbiMessage, StateFunction, TeeFunction, EXT_ATTESTATION, EXT_BASE,
    EXT_HART_STATE, EXT_PUT_CHAR, EXT_RESET, EXT_TEE,
};

fn bank(msg: &SbiMessage) -> [u64; 8] {
    [msg.a0(), msg.a1(), msg.a2(), msg.a3(), msg.a4(), msg.a5(), msg.a6(), msg.a7()]
}

fn samples() -> Vec<SbiMessage> {
    vec![
        SbiMessage::Base(BaseFunction::GetSpecificationVersion),
        SbiMessage::Base(BaseFunction::GetImplementationID),
        SbiMessage::Base(BaseFunction::GetImplementationVersion),
        SbiMessage::Base(BaseFunction::ProbeSbiExtension(EXT_RESET)),
        SbiMessage::Base(BaseFunction::ProbeSbiExtension(u64::MAX)),
        SbiMessage::Base(BaseFunction::GetMachineVendorID),
        SbiMessage::Base(BaseFunction::GetMachineArchitectureID),
        SbiMessage::Base(BaseFunction::GetMachineImplementationID),
        SbiMessage::PutChar(0),
        SbiMessage::PutChar(0x41),
        SbiMessage::PutChar(u64::MAX),
        SbiMessage::HartState(StateFunction::HartStart {
            hart_id: 5,
            start_addr: 0x8000_0000,
            opaque: 42,
        }),
        SbiMessage::HartState(StateFunction::HartStop),
        SbiMessage::HartState(StateFunction::HartStatus { hart_id: 3 }),
        SbiMessage::HartState(StateFunction::HartSuspend {
            suspend_type: u32::MAX,
            resume_addr: 0x8020_0000,
            opaque: 9,
        }),
        SbiMessage::Reset(ResetFunction::shutdown()),
        SbiMessage::Tee(TeeFunction {
            function_id: 11,
            arg0: 1,
            arg1: 2,
            arg2: 3,
            arg3: 4,
            arg4: 5,
            arg5: 6,
        }),
        SbiMessage::Attestation(AttestationFunction::GetEvidence {
            csr_addr: 0x1000,
            csr_len: 0x200,
            cert_addr: 0x2000,
            cert_len: 0x800,
        }),
        SbiMessage::Attestation(AttestationFunction::ExtendMeasurement {
            measurement_addr: 0x3000,
            len: 48,
        }),
    ]
}

#[test]
fn extension_constants() {
    assert_eq!(EXT_PUT_CHAR, 0x01);
    assert_eq!(EXT_BASE, 0x10);
    assert_eq!(EXT_HART_STATE, 0x48534D);
    assert_eq!(EXT_RESET, 0x53525354);
    assert_eq!(EXT_TEE, 0x41544545);
    assert_eq!(EXT_ATTESTATION, 0x41545354);
}

#[test]
fn round_trip() {
    for msg in samples() {
        assert_eq!(SbiMessage::from_regs(&bank(&msg)), Ok(msg));
    }
}

#[test]
fn hart_start_bank() {
    let msg = SbiMessage::HartState(StateFunction::HartStart {
        hart_id: 5,
        start_addr: 0x8000_0000,
        opaque: 42,
    });
    assert_eq!(bank(&msg), [5, 0x8000_0000, 42, 0, 0, 0, 0, EXT_HART_STATE]);
    assert_eq!(
        SbiMessage::from_regs(&[5, 0x8000_0000, 42, 0, 0, 0, 0, EXT_HART_STATE]),
        Ok(msg)
    );
}

#[test]
fn banks_of_each_extension() {
    assert_eq!(
        bank(&SbiMessage::Base(BaseFunction::ProbeSbiExtension(0x99))),
        [0x99, 0, 0, 0, 0, 0, 3, EXT_BASE]
    );
    assert_eq!(
        bank(&SbiMessage::Base(BaseFunction::GetMachineImplementationID)),
        [0, 0, 0, 0, 0, 0, 6, EXT_BASE]
    );
    assert_eq!(bank(&SbiMessage::PutChar(0x41)), [0x41, 0, 0, 0, 0, 0, 0, EXT_PUT_CHAR]);
    assert_eq!(
        bank(&SbiMessage::HartState(StateFunction::HartStop)),
        [0, 0, 0, 0, 0, 0, 1, EXT_HART_STATE]
    );
    assert_eq!(
        bank(&SbiMessage::HartState(StateFunction::HartStatus { hart_id: 8 })),
        [8, 0, 0, 0, 0, 0, 2, EXT_HART_STATE]
    );
    assert_eq!(
        bank(&SbiMessage::HartState(StateFunction::HartSuspend {
            suspend_type: 0x8000_0000,
            resume_addr: 0x10,
            opaque: 0x20,
        })),
        [0x8000_0000, 0x10, 0x20, 0, 0, 0, 3, EXT_HART_STATE]
    );
    assert_eq!(
        bank(&SbiMessage::Tee(TeeFunction {
            function_id: 7,
            arg0: 10,
            arg1: 11,
            arg2: 12,
            arg3: 13,
            arg4: 14,
            arg5: 15,
        })),
        [10, 11, 12, 13, 14, 15, 7, EXT_TEE]
    );
    assert_eq!(
        bank(&SbiMessage::Attestation(AttestationFunction::GetEvidence {
            csr_addr: 1,
            csr_len: 2,
            cert_addr: 3,
            cert_len: 4,
        })),
        [1, 2, 3, 4, 0, 0, 0, EXT_ATTESTATION]
    );
    assert_eq!(
        bank(&SbiMessage::Attestation(AttestationFunction::ExtendMeasurement {
            measurement_addr: 0x3000,
            len: 48,
        })),
        [0x3000, 48, 0, 0, 0, 0, 1, EXT_ATTESTATION]
    );
}

#[test]
fn unknown_extension() {
    assert_eq!(
        SbiMessage::from_regs(&[0, 0, 0, 0, 0, 0, 0, 0xFFFF_FFFF]),
        Err(Error::NotSupported)
    );
    assert_eq!(
        SbiMessage::from_regs(&[1, 2, 3, 4, 5, 6, 7, 0]),
        Err(Error::NotSupported)
    );
}

#[test]
fn all_zero_and_maximal_banks() {
    assert_eq!(SbiMessage::from_regs(&[0; 8]), Err(Error::NotSupported));
    assert_eq!(SbiMessage::from_regs(&[u64::MAX; 8]), Err(Error::NotSupported));
}

#[test]
fn unknown_function() {
    assert_eq!(
        SbiMessage::from_regs(&[0, 0, 0, 0, 0, 0, 7, EXT_BASE]),
        Err(Error::NotSupported)
    );
    assert_eq!(
        SbiMessage::from_regs(&[0, 0, 0, 0, 0, 0, 4, EXT_HART_STATE]),
        Err(Error::NotSupported)
    );
    assert_eq!(
        SbiMessage::from_regs(&[0, 0, 0, 0, 0, 0, 1, EXT_RESET]),
        Err(Error::NotSupported)
    );
    assert_eq!(
        SbiMessage::from_regs(&[0, 0, 0, 0, 0, 0, 2, EXT_ATTESTATION]),
        Err(Error::NotSupported)
    );
    assert_eq!(
        AttestationFunction::from_regs(&[0, 0, 0, 0, 0, 0, u64::MAX, EXT_ATTESTATION]),
        Err(Error::NotSupported)
    );
}

#[test]
fn invalid_reset_type() {
    assert_eq!(
        SbiMessage::from_regs(&[99, 0, 0, 0, 0, 0, 0, EXT_RESET]),
        Err(Error::InvalidParam)
    );
    assert_eq!(ResetType::from_reg(99), Err(Error::InvalidParam));
    assert_eq!(ResetType::from_reg(3), Err(Error::InvalidParam));
    assert_eq!(ResetType::from_reg(u64::MAX), Err(Error::InvalidParam));
}

#[test]
fn invalid_reset_reason() {
    assert_eq!(
        SbiMessage::from_regs(&[0, 7, 0, 0, 0, 0, 0, EXT_RESET]),
        Err(Error::InvalidParam)
    );
    assert_eq!(ResetReason::from_reg(3), Err(Error::InvalidParam));
}

#[test]
fn reset_types_and_codes() {
    assert_eq!(ResetType::from_reg(0), Ok(ResetType::Shutdown));
    assert_eq!(ResetType::from_reg(1), Ok(ResetType::ColdReset));
    assert_eq!(ResetType::from_reg(2), Ok(ResetType::WarmReset));
    assert_eq!(ResetType::Shutdown.code(), 0);
    assert_eq!(ResetType::ColdReset.code(), 1);
    assert_eq!(ResetType::WarmReset.code(), 2);
}

#[test]
fn reset_reason_accepts_zero_and_two() {
    assert_eq!(ResetReason::from_reg(0), Ok(ResetReason::NoReason));
    assert_eq!(ResetReason::from_reg(1), Err(Error::InvalidParam));
    assert_eq!(ResetReason::from_reg(2), Ok(ResetReason::SystemFailure));
    assert_eq!(ResetReason::NoReason.code(), 0);
    assert_eq!(ResetReason::SystemFailure.code(), 1);
}

#[test]
fn reset_is_read_type_first() {
    assert_eq!(
        SbiMessage::from_regs(&[1, 2, 0, 0, 0, 0, 0, EXT_RESET]),
        Ok(SbiMessage::Reset(ResetFunction::Reset {
            reset_type: ResetType::ColdReset,
            reason: ResetReason::SystemFailure,
        }))
    );
}

#[test]
fn reset_is_written_reason_first() {
    let msg = SbiMessage::Reset(ResetFunction::Reset {
        reset_type: ResetType::WarmReset,
        reason: ResetReason::SystemFailure,
    });
    assert_eq!(bank(&msg), [1, 2, 0, 0, 0, 0, 0, EXT_RESET]);
}

#[test]
fn reset_round_trip_holds_for_shutdown_only() {
    let types = [ResetType::Shutdown, ResetType::ColdReset, ResetType::WarmReset];
    let reasons = [ResetReason::NoReason, ResetReason::SystemFailure];
    for reset_type in types {
        for reason in reasons {
            let f = ResetFunction::Reset { reset_type, reason };
            let msg = SbiMessage::Reset(f);
            let back = SbiMessage::from_regs(&bank(&msg));
            assert_eq!(back == Ok(msg), f == ResetFunction::shutdown());
        }
    }
    let cold = SbiMessage::Reset(ResetFunction::Reset {
        reset_type: ResetType::ColdReset,
        reason: ResetReason::NoReason,
    });
    assert_eq!(SbiMessage::from_regs(&bank(&cold)), Err(Error::InvalidParam));
    let warm_failure = SbiMessage::Reset(ResetFunction::Reset {
        reset_type: ResetType::WarmReset,
        reason: ResetReason::SystemFailure,
    });
    assert_eq!(
        SbiMessage::from_regs(&bank(&warm_failure)),
        Ok(SbiMessage::Reset(ResetFunction::Reset {
            reset_type: ResetType::ColdReset,
            reason: ResetReason::SystemFailure,
        }))
    );
}

#[test]
fn shutdown_request() {
    assert_eq!(
        ResetFunction::shutdown(),
        ResetFunction::Reset { reset_type: ResetType::Shutdown, reason: ResetReason::NoReason }
    );
    assert_eq!(
        bank(&SbiMessage::Reset(ResetFunction::shutdown())),
        [0, 0, 0, 0, 0, 0, 0, EXT_RESET]
    );
}

#[test]
fn suspend_type_is_the_low_half_of_a0() {
    assert_eq!(
        SbiMessage::from_regs(&[0x1_0000_0002, 0x10, 0x20, 0, 0, 0, 3, EXT_HART_STATE]),
        Ok(SbiMessage::HartState(StateFunction::HartSuspend {
            suspend_type: 2,
            resume_addr: 0x10,
            opaque: 0x20,
        }))
    );
    assert_eq!(
        StateFunction::from_regs(&[u64::MAX, 0, 0, 0, 0, 0, 3]),
        Ok(StateFunction::HartSuspend { suspend_type: u32::MAX, resume_addr: 0, opaque: 0 })
    );
}

#[test]
fn put_char_ignores_the_function_register() {
    assert_eq!(
        SbiMessage::from_regs(&[0x41, 9, 9, 9, 9, 9, 9, EXT_PUT_CHAR]),
        Ok(SbiMessage::PutChar(0x41))
    );
}

#[test]
fn unused_registers_do_not_matter_to_decoding() {
    assert_eq!(
        SbiMessage::from_regs(&[7, 7, 7, 7, 7, 7, 1, EXT_HART_STATE]),
        Ok(SbiMessage::HartState(StateFunction::HartStop))
    );
    assert_eq!(
        SbiMessage::from_regs(&[0x3000, 48, 7, 7, 7, 7, 1, EXT_ATTESTATION]),
        Ok(SbiMessage::Attestation(AttestationFunction::ExtendMeasurement {
            measurement_addr: 0x3000,
            len: 48,
        }))
    );
}

#[test]
fn longer_slices_are_read_by_their_first_eight() {
    assert_eq!(
        SbiMessage::from_regs(&[0x41, 0, 0, 0, 0, 0, 0, EXT_PUT_CHAR, 1, 2, 3]),
        Ok(SbiMessage::PutChar(0x41))
    );
}

#[test]
fn tee_calls_are_carried_as_registers() {
    assert_eq!(
        SbiMessage::from_regs(&[1, 2, 3, 4, 5, 6, u64::MAX, EXT_TEE]),
        Ok(SbiMessage::Tee(TeeFunction {
            function_id: u64::MAX,
            arg0: 1,
            arg1: 2,
            arg2: 3,
            arg3: 4,
            arg4: 5,
            arg5: 6,
        }))
    );
}

#[test]
fn function_decoders() {
    assert_eq!(
        BaseFunction::from_regs(&[0x10, 0, 0, 0, 0, 0, 3]),
        Ok(BaseFunction::ProbeSbiExtension(0x10))
    );
    assert_eq!(BaseFunction::from_regs(&[0, 0, 0, 0, 0, 0, 7]), Err(Error::NotSupported));
    assert_eq!(
        ResetFunction::from_regs(&[2, 0, 0, 0, 0, 0, 0]),
        Ok(ResetFunction::Reset { reset_type: ResetType::WarmReset, reason: ResetReason::NoReason })
    );
    assert_eq!(ResetFunction::from_regs(&[2, 0, 0, 0, 0, 0, 5]), Err(Error::NotSupported));
    assert_eq!(
        AttestationFunction::from_regs(&[1, 2, 3, 4, 0, 0, 0]),
        Ok(AttestationFunction::GetEvidence { csr_addr: 1, csr_len: 2, cert_addr: 3, cert_len: 4 })
    );
}

#[test]
fn function_registers_default_to_zero() {
    let f = BaseFunction::ProbeSbiExtension(9);
    assert_eq!([f.a0(), f.a1(), f.a2(), f.a3(), f.a4(), f.a5(), f.a6()], [9, 0, 0, 0, 0, 0, 3]);
    let f = ResetFunction::Reset {
        reset_type: ResetType::ColdReset,
        reason: ResetReason::SystemFailure,
    };
    assert_eq!([f.a0(), f.a1(), f.a2(), f.a3(), f.a4(), f.a5(), f.a6()], [1, 1, 0, 0, 0, 0, 0]);
    let f = StateFunction::HartStart { hart_id: 1, start_addr: 2, opaque: 3 };
    assert_eq!([f.a0(), f.a1(), f.a2(), f.a3(), f.a4(), f.a5(), f.a6()], [1, 2, 3, 0, 0, 0, 0]);
}

#[test]
fn attestation_registers() {
    let f = AttestationFunction::GetEvidence { csr_addr: 1, csr_len: 2, cert_addr: 3, cert_len: 4 };
    assert_eq!([f.a0(), f.a1(), f.a2(), f.a3(), f.a6()], [1, 2, 3, 4, 0]);
    let f = AttestationFunction::ExtendMeasurement { measurement_addr: 5, len: 6 };
    assert_eq!([f.a0(), f.a1(), f.a2(), f.a3(), f.a6()], [5, 6, 0, 0, 1]);
}

#[test]
fn hart_state_codes() {
    let all = [
        HartState::Started,
        HartState::Stopped,
        HartState::StartPending,
        HartState::StopPending,
        HartState::Suspended,
        HartState::SuspendPending,
        HartState::ResumePending,
    ];
    for (i, state) in all.iter().enumerate() {
        assert_eq!(state.code(), i as u64);
        assert_eq!(HartState::from_reg(i as u64), Ok(*state));
    }
    assert_eq!(HartState::from_reg(7), Err(Error::InvalidParam));
    assert_eq!(HartState::from_reg(u64::MAX), Err(Error::InvalidParam));
}
