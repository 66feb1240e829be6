use poe_kitties::dna::{combine_dna, combine_genome};

#[test]
fn combine_dna_takes_bits_by_selector() {
    assert_eq!(combine_dna(0b1010_1010, 0b0101_0101, 0b1111_0000), 0b0101_1010);
    assert_eq!(combine_dna(0x12, 0x34, 0x00), 0x12);
    assert_eq!(combine_dna(0x12, 0x34, 0xff), 0x34);
}

#[test]
fn combine_genome_mixes_each_byte() {
    let dna_1 = [0xaau8; 16];
    let dna_2 = [0x55u8; 16];
    let mut selector = [0u8; 16];
    selector[3] = 0xff;
    selector[7] = 0x0f;
    let child = combine_genome(&dna_1, &dna_2, &selector);
    for i in 0..16 {
        let expected = match i {
            3 => 0x55,
            7 => 0xa5,
            _ => 0xaa,
        };
        assert_eq!(child[i], expected);
    }
}
