use churrera_studio::tile_physics::{behaviour_flags, toggle_bit, BehaviourFlags};

#[test]
fn setting_obstacle_clears_platform() {
    let mut v = 4u8 | 1;
    toggle_bit(&mut v, 8, true);
    assert_eq!(v, 8 | 1);
}

#[test]
fn setting_platform_clears_obstacle() {
    let mut v = 8u8 | 2;
    toggle_bit(&mut v, 4, true);
    assert_eq!(v, 4 | 2);
}

#[test]
fn clearing_a_bit_keeps_the_others() {
    let mut v = 1u8 | 2 | 16;
    toggle_bit(&mut v, 2, false);
    assert_eq!(v, 17);
    toggle_bit(&mut v, 16, true);
    assert_eq!(v, 17);
}

#[test]
fn flags_never_both_platform_and_obstacle_after_a_toggle_on() {
    for start in 0u8..=255 {
        for bit in [4u8, 8] {
            let mut v = start;
            toggle_bit(&mut v, bit, true);
            assert_ne!(v & 12, 12);
            assert_eq!(v & bit, bit);
        }
    }
}

#[test]
fn flags_of_a_code() {
    assert_eq!(
        behaviour_flags(24),
        BehaviourFlags { kills: false, hides: false, platform: false, obstacle: true, breakable: true }
    );
    assert_eq!(
        behaviour_flags(10),
        BehaviourFlags { kills: false, hides: true, platform: false, obstacle: true, breakable: false }
    );
}
