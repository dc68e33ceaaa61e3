use ralg::misc::next_power_of_2;

#[test]
fn next_power() {
    assert_eq!(next_power_of_2(0), 1);
    assert_eq!(next_power_of_2(1), 1);
    assert_eq!(next_power_of_2(2), 2);
    assert_eq!(next_power_of_2(3), 4);
    assert_eq!(next_power_of_2(8), 8);
    assert_eq!(next_power_of_2(33), 64);
    assert_eq!(next_power_of_2(55), 64);
    assert_eq!(next_power_of_2(1291), 2048);
}

#[test]
fn next_power_large() {
    assert_eq!(next_power_of_2(0x7fff_ffff_ffff_ffff), 0x8000_0000_0000_0000);
    assert_eq!(next_power_of_2(0x8000_0000_0000_0000), 0x8000_0000_0000_0000);
}
