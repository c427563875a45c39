use d2_stash_tracker::d2::models::{CharacterDataStatus, CHARACTER_STATUS_FLAGS};
use d2_stash_tracker::d2::parser::{
    CHARACTER_STATUS_DEAD, CHARACTER_STATUS_EXPANSION, CHARACTER_STATUS_HARDCORE,
    CHARACTER_STATUS_LADDER,
};

#[test]
fn status_bits_are_at_their_places() {
    assert_eq!(CHARACTER_STATUS_HARDCORE, 1 << 2);
    assert_eq!(CHARACTER_STATUS_DEAD, 1 << 3);
    assert_eq!(CHARACTER_STATUS_EXPANSION, 1 << 5);
    assert_eq!(CHARACTER_STATUS_LADDER, 1 << 6);
    assert_eq!(CHARACTER_STATUS_FLAGS, 0b0110_1100);
}

#[test]
fn packing_and_unpacking_gives_the_flags_back() {
    for n in 0u8..16 {
        let status = CharacterDataStatus {
            hardcore: n & 1 != 0,
            died: n & 2 != 0,
            expansion: n & 4 != 0,
            ladder: n & 8 != 0,
        };
        let bits = status.to_bits();
        assert_eq!(CharacterDataStatus::from_bits(bits), status);
        assert_eq!(bits & !CHARACTER_STATUS_FLAGS, 0);
        assert_eq!(bits & CHARACTER_STATUS_HARDCORE != 0, status.hardcore);
        assert_eq!(bits & CHARACTER_STATUS_DEAD != 0, status.died);
        assert_eq!(bits & CHARACTER_STATUS_EXPANSION != 0, status.expansion);
        assert_eq!(bits & CHARACTER_STATUS_LADDER != 0, status.ladder);
    }
}

#[test]
fn packing_gives_exact_bytes() {
    let none = CharacterDataStatus { expansion: false, died: false, hardcore: false, ladder: false };
    assert_eq!(none.to_bits(), 0x00);
    assert_eq!(CharacterDataStatus { hardcore: true, ..none }.to_bits(), 0x04);
    assert_eq!(CharacterDataStatus { died: true, ..none }.to_bits(), 0x08);
    assert_eq!(CharacterDataStatus { expansion: true, ..none }.to_bits(), 0x20);
    assert_eq!(CharacterDataStatus { ladder: true, ..none }.to_bits(), 0x40);
    let all = CharacterDataStatus { expansion: true, died: true, hardcore: true, ladder: true };
    assert_eq!(all.to_bits(), 0x6C);
}

#[test]
fn unpacking_reads_only_the_flag_bits() {
    for bits in 0u8..=255 {
        let status = CharacterDataStatus::from_bits(bits);
        assert_eq!(status.hardcore, bits & 0x04 != 0);
        assert_eq!(status.died, bits & 0x08 != 0);
        assert_eq!(status.expansion, bits & 0x20 != 0);
        assert_eq!(status.ladder, bits & 0x40 != 0);
        assert_eq!(status.to_bits(), bits & 0x6C);
    }
    assert_eq!(
        CharacterDataStatus::from_bits(0x20),
        CharacterDataStatus { expansion: true, died: false, hardcore: false, ladder: false }
    );
    assert_eq!(
        CharacterDataStatus::from_bits(0x93),
        CharacterDataStatus { expansion: false, died: false, hardcore: false, ladder: false }
    );
}
