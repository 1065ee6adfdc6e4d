//! The opcode table of the bridge protocol, and command-packet framing.

use vstd::prelude::*;
use crate::MciError;
use crate::action::Action;

verus! {

/// The highest valid group number. Group 0 addresses all groups at
/// once; groups 1 through 4 address one zone each.
pub const MAX_GROUP: u8 = 4;

/// The protocol's opcode table: the single byte that commands `action`
/// on `group`. The values are fixed by the bridge's radio protocol and
/// must be reproduced bit-exact. Brightness and warmth steps are
/// group-independent; the bridge applies them to the group most
/// recently addressed.
pub open spec fn spec_opcode(action: Action, group: u8) -> u8 {
    match action {
        Action::On => match group {
            1u8 => 0x38u8,
            2u8 => 0x3Du8,
            3u8 => 0x37u8,
            4u8 => 0x32u8,
            _ => 0x35u8,
        },
        Action::Off => match group {
            1u8 => 0x3Bu8,
            2u8 => 0x33u8,
            3u8 => 0x3Au8,
            4u8 => 0x36u8,
            _ => 0x39u8,
        },
        Action::BrightnessUp => 0x3Cu8,
        Action::BrightnessDown => 0x34u8,
        Action::WarmthUp => 0x3Eu8,
        Action::WarmthDown => 0x3Fu8,
        Action::FullBrightness => match group {
            1u8 => 0xB8u8,
            2u8 => 0xBDu8,
            3u8 => 0xB7u8,
            4u8 => 0xB2u8,
            _ => 0xB5u8,
        },
        Action::NightMode => match group {
            1u8 => 0xBBu8,
            2u8 => 0xB3u8,
            3u8 => 0xBAu8,
            4u8 => 0x0Bu8,
            _ => 0xB9u8,
        },
    }
}

/// Resolves `(action, group)` to its opcode. Resolution is total over
/// the five valid groups and deterministic: the result is exactly the
/// table entry. A group outside the table surfaces as an explicit
/// `UnknownAction` failure, never as an arbitrary byte.
pub fn resolve_opcode(action: Action, group: u8) -> (r: Result<u8, MciError>)
    ensures
        group <= MAX_GROUP ==> r == Ok::<u8, MciError>(spec_opcode(action, group)),
        group > MAX_GROUP ==> r == Err::<u8, MciError>(MciError::UnknownAction),
{
    if group > MAX_GROUP {
        return Err(MciError::UnknownAction);
    }
    let op: u8 = match action {
        Action::On => match group {
            1u8 => 0x38u8,
            2u8 => 0x3Du8,
            3u8 => 0x37u8,
            4u8 => 0x32u8,
            _ => 0x35u8,
        },
        Action::Off => match group {
            1u8 => 0x3Bu8,
            2u8 => 0x33u8,
            3u8 => 0x3Au8,
            4u8 => 0x36u8,
            _ => 0x39u8,
        },
        Action::BrightnessUp => 0x3Cu8,
        Action::BrightnessDown => 0x34u8,
        Action::WarmthUp => 0x3Eu8,
        Action::WarmthDown => 0x3Fu8,
        Action::FullBrightness => match group {
            1u8 => 0xB8u8,
            2u8 => 0xBDu8,
            3u8 => 0xB7u8,
            4u8 => 0xB2u8,
            _ => 0xB5u8,
        },
        Action::NightMode => match group {
            1u8 => 0xBBu8,
            2u8 => 0xB3u8,
            3u8 => 0xBAu8,
            4u8 => 0x0Bu8,
            _ => 0xB9u8,
        },
    };
    Ok(op)
}

/// The wire format of one command: the opcode followed by the two
/// protocol constants 0x00 and 0x55, three bytes in all.
pub open spec fn spec_packet(opcode: u8) -> Seq<u8> {
    seq![opcode, 0x00u8, 0x55u8]
}

/// Law: every transmitted packet is exactly three bytes, and its
/// second and third bytes are always 0x00 and 0x55.
pub proof fn lemma_packet_wire_format(opcode: u8)
    ensures
        spec_packet(opcode).len() == 3,
        spec_packet(opcode)[0] == opcode,
        spec_packet(opcode)[1] == 0x00u8,
        spec_packet(opcode)[2] == 0x55u8,
{
}

/// Frames one opcode as the three-byte command packet the bridge
/// expects.
pub fn packet_for(opcode: u8) -> (r: [u8; 3])
    ensures
        r@ == spec_packet(opcode),
{
    let r: [u8; 3] = [opcode, 0x00u8, 0x55u8];
    assert(r@ =~= spec_packet(opcode));
    r
}

} // verus!
