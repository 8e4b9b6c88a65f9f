use whirlpool::stage::EscrowStage;

#[test]
fn stage_bytes() {
    assert_eq!(EscrowStage::Deposited.to_u8(), 0);
    assert_eq!(EscrowStage::Complete.to_u8(), 1);
    assert_eq!(EscrowStage::Reversed.to_u8(), 2);
}

#[test]
fn byte_to_stage() {
    assert!(EscrowStage::to_escrow_stage(0) == Some(EscrowStage::Deposited));
    assert!(EscrowStage::to_escrow_stage(1) == Some(EscrowStage::Complete));
    assert!(EscrowStage::to_escrow_stage(2) == Some(EscrowStage::Reversed));
    assert!(EscrowStage::to_escrow_stage(3).is_none());
    assert!(EscrowStage::to_escrow_stage(255).is_none());
}

#[test]
fn stage_round_trip() {
    for stage in [EscrowStage::Deposited, EscrowStage::Complete, EscrowStage::Reversed] {
        let byte = stage.to_u8();
        assert!(EscrowStage::to_escrow_stage(byte) == Some(stage));
    }
    for byte in 0u8..=255 {
        if let Some(stage) = EscrowStage::to_escrow_stage(byte) {
            assert_eq!(stage.to_u8(), byte);
        } else {
            assert!(byte >= 3);
        }
    }
}
