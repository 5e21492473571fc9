use nest::visuals::regs::control::ControlRegister;
use nest::visuals::regs::mask::{Color, MaskRegister};

#[test]
fn nametable_addresses() {
    let mut ctrl = ControlRegister::new();
    let expected = [0x2000, 0x2400, 0x2800, 0x2c00];
    for (i, addr) in expected.iter().enumerate() {
        ctrl.update(0b1111_1100 | i as u8);
        assert_eq!(ctrl.nametable_addr(), *addr);
    }
}

#[test]
fn control_flags() {
    let mut ctrl = ControlRegister::new();
    assert_eq!(ctrl.vram_addr_increment(), 1);
    assert_eq!(ctrl.sprite_pattern_addr(), 0);
    assert_eq!(ctrl.bg_pattern_addr(), 0);
    assert_eq!(ctrl.sprite_size(), (8, 8));
    assert!(!ctrl.gen_nmi());
    assert_eq!(ctrl.master_slave_select(), 0);
    ctrl.update(0xff);
    assert_eq!(ctrl.bits(), 0xff);
    assert_eq!(ctrl.vram_addr_increment(), 32);
    assert_eq!(ctrl.sprite_pattern_addr(), 0x1000);
    assert_eq!(ctrl.bg_pattern_addr(), 0x1000);
    assert_eq!(ctrl.sprite_size(), (8, 16));
    assert!(ctrl.gen_nmi());
    assert_eq!(ctrl.master_slave_select(), 1);
}

#[test]
fn mask_flags() {
    let mut mask = MaskRegister::new();
    assert!(!mask.is_greyscale());
    assert!(mask.emphasize().is_empty());
    mask.update(0b0001_1111);
    assert!(mask.is_greyscale());
    assert!(mask.leftmost_8px_bg());
    assert!(mask.leftmost_8px_sprt());
    assert!(mask.bg_rendering());
    assert!(mask.sprt_rendering());
    assert!(mask.emphasize().is_empty());
}

#[test]
fn emphasize_lists_red_green_blue_in_order() {
    let mut mask = MaskRegister::new();
    mask.update(0b1010_0000);
    assert_eq!(mask.emphasize(), vec![Color::Red, Color::Blue]);
    mask.update(0b1110_0000);
    assert_eq!(mask.emphasize(), vec![Color::Red, Color::Green, Color::Blue]);
    mask.update(0b0100_0000);
    assert_eq!(mask.emphasize(), vec![Color::Green]);
}
