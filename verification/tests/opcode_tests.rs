use mci::Action;
use mci::MciError;
use mci::packet_for;
use mci::resolve_opcode;

fn table_row(action: Action) -> [u8; 5] {
    // Expected opcodes for groups [1, 2, 3, 4, 0].
    match action {
        Action::On => [0x38, 0x3D, 0x37, 0x32, 0x35],
        Action::Off => [0x3B, 0x33, 0x3A, 0x36, 0x39],
        Action::BrightnessUp => [0x3C, 0x3C, 0x3C, 0x3C, 0x3C],
        Action::BrightnessDown => [0x34, 0x34, 0x34, 0x34, 0x34],
        Action::WarmthUp => [0x3E, 0x3E, 0x3E, 0x3E, 0x3E],
        Action::WarmthDown => [0x3F, 0x3F, 0x3F, 0x3F, 0x3F],
        Action::FullBrightness => [0xB8, 0xBD, 0xB7, 0xB2, 0xB5],
        Action::NightMode => [0xBB, 0xB3, 0xBA, 0x0B, 0xB9],
    }
}

const ALL_ACTIONS: [Action; 8] = [
    Action::On,
    Action::Off,
    Action::BrightnessUp,
    Action::BrightnessDown,
    Action::WarmthUp,
    Action::WarmthDown,
    Action::FullBrightness,
    Action::NightMode,
];

#[test]
fn resolution_matches_protocol_table() {
    let groups: [u8; 5] = [1, 2, 3, 4, 0];
    for action in ALL_ACTIONS {
        let row = table_row(action);
        for (i, group) in groups.iter().enumerate() {
            assert_eq!(resolve_opcode(action, *group), Ok(row[i]));
        }
    }
}

#[test]
fn resolution_is_deterministic() {
    for action in ALL_ACTIONS {
        for group in 0u8..=4u8 {
            assert_eq!(resolve_opcode(action, group), resolve_opcode(action, group));
        }
    }
}

#[test]
fn resolution_rejects_group_outside_table() {
    for action in ALL_ACTIONS {
        assert_eq!(resolve_opcode(action, 5), Err(MciError::UnknownAction));
        assert_eq!(resolve_opcode(action, 255), Err(MciError::UnknownAction));
    }
}

#[test]
fn packet_is_three_bytes_with_protocol_constants() {
    for opcode in [0x38u8, 0x39, 0x3C, 0xB3, 0x0B, 0x00, 0xFF] {
        let packet = packet_for(opcode);
        assert_eq!(packet.len(), 3);
        assert_eq!(packet[0], opcode);
        assert_eq!(packet[1], 0x00);
        assert_eq!(packet[2], 0x55);
    }
}
