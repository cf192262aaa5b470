use arrow_grid::mmio::audio;
use arrow_grid::mmio::dma::{AddressControl, DmaControl, Timing};
use arrow_grid::mmio::interrupts::Interrupts;
use arrow_grid::mmio::keys::KeyInput;
use arrow_grid::mmio::timer;
use arrow_grid::mmio::vram::{
    BackgroundControl, BlendControl, ColorEffect, DisplayControl, DisplayStatus, ObjectAttributes,
    TextScreenEntry,
};
use deranged::{RangedU16, RangedU8};

#[test]
fn dma_control_empty() {
    assert_eq!(DmaControl::new().to_u16(), 0);
}

#[test]
fn dma_control_with_transfer_32bit() {
    assert_eq!(DmaControl::new().with_transfer_32bit().to_u16(), 1024);
}

#[test]
fn dma_control_with_enabled() {
    assert_eq!(DmaControl::new().with_enabled().to_u16(), 32768);
}

#[test]
fn dma_control_with_all() {
    assert_eq!(
        DmaControl::new()
            .with_transfer_32bit()
            .with_enabled()
            .to_u16(),
        33792
    );
}

#[test]
fn dma_control_for_sound() {
    assert_eq!(
        DmaControl::new()
            .with_destination_address_control(AddressControl::Fixed)
            .with_repeat()
            .with_transfer_32bit()
            .with_timing(Timing::Special)
            .with_enabled()
            .to_u16(),
        0b1011_0110_0100_0000
    );
}

#[test]
fn key_input_none_contains_none() {
    assert!(KeyInput::none().contains(KeyInput::none()))
}

#[test]
fn key_input_none_contains_a() {
    assert!(!KeyInput::none().contains(KeyInput::a()))
}

#[test]
fn key_input_a_contains_none() {
    assert!(KeyInput::a().contains(KeyInput::none()))
}

#[test]
fn key_input_a_b_contains_b() {
    assert!(KeyInput(0b0000_0011_1111_1100).contains(KeyInput::b()))
}

#[test]
fn key_input_all_contains_all() {
    assert!(KeyInput(0).contains(KeyInput(0)))
}

#[test]
fn key_input_all_contains_none() {
    assert!(KeyInput(0).contains(KeyInput::none()))
}

#[test]
fn key_input_each_key_has_its_bit() {
    assert_eq!(KeyInput::none(), KeyInput(0x03ff));
    assert_eq!(KeyInput::a(), KeyInput(0x03ff & !(1 << 0)));
    assert_eq!(KeyInput::b(), KeyInput(0x03ff & !(1 << 1)));
    assert_eq!(KeyInput::select(), KeyInput(0x03ff & !(1 << 2)));
    assert_eq!(KeyInput::start(), KeyInput(0x03ff & !(1 << 3)));
    assert_eq!(KeyInput::right(), KeyInput(0x03ff & !(1 << 4)));
    assert_eq!(KeyInput::left(), KeyInput(0x03ff & !(1 << 5)));
    assert_eq!(KeyInput::up(), KeyInput(0x03ff & !(1 << 6)));
    assert_eq!(KeyInput::down(), KeyInput(0x03ff & !(1 << 7)));
    assert_eq!(KeyInput::r(), KeyInput(0x03ff & !(1 << 8)));
    assert_eq!(KeyInput::l(), KeyInput(0x03ff & !(1 << 9)));
    assert!(!KeyInput::a().contains(KeyInput::b()));
}

#[test]
fn background_control_priority() {
    assert_eq!(
        BackgroundControl::new().with_priority(RangedU8::<0, 3>::new_static::<2>().get()),
        BackgroundControl(0b0000_0000_0000_0010)
    );
}

#[test]
fn background_control_charblock() {
    assert_eq!(
        BackgroundControl::new().with_charblock(RangedU8::<0, 3>::new_static::<1>().get()),
        BackgroundControl(0b0000_0000_0000_0100)
    );
}

#[test]
fn background_control_8bpp() {
    assert_eq!(
        BackgroundControl::new().with_8bpp(true),
        BackgroundControl(0b0000_0000_1000_0000)
    );
}

#[test]
fn background_control_screenblock() {
    assert_eq!(
        BackgroundControl::new().with_screenblock(RangedU8::<0, 31>::new_static::<25>().get()),
        BackgroundControl(0b0001_1001_0000_0000)
    );
}

#[test]
fn background_control_screen_size() {
    assert_eq!(
        BackgroundControl::new().with_screen_size(RangedU8::<0, 3>::new_static::<3>().get()),
        BackgroundControl(0b1100_0000_0000_0000)
    );
}

#[test]
fn display_control_bg_mode() {
    assert_eq!(
        DisplayControl::new().with_bg_mode(RangedU8::<0, 5>::new_static::<5>().get()),
        DisplayControl(0b0000_0000_0000_0101)
    )
}

#[test]
fn display_control_obj_vram_1d() {
    assert_eq!(
        DisplayControl::new().with_obj_vram_1d(true),
        DisplayControl(0b0000_0000_0100_0000)
    )
}

#[test]
fn display_control_bg0() {
    assert_eq!(
        DisplayControl::new().with_bg0(true),
        DisplayControl(0b0000_0001_0000_0000)
    )
}

#[test]
fn display_control_bg1() {
    assert_eq!(
        DisplayControl::new().with_bg1(true),
        DisplayControl(0b0000_0010_0000_0000)
    )
}

#[test]
fn display_control_bg2() {
    assert_eq!(
        DisplayControl::new().with_bg2(true),
        DisplayControl(0b0000_0100_0000_0000)
    )
}

#[test]
fn display_control_bg3() {
    assert_eq!(
        DisplayControl::new().with_bg3(true),
        DisplayControl(0b0000_1000_0000_0000)
    )
}

#[test]
fn display_control_obj() {
    assert_eq!(
        DisplayControl::new().with_obj(true),
        DisplayControl(0b0001_0000_0000_0000)
    )
}

#[test]
fn blend_control_target1_bg0() {
    assert_eq!(
        BlendControl::new().with_target1_bg0(true),
        BlendControl(0b0000_0000_0000_0001)
    );
}

#[test]
fn blend_control_target1_bg1() {
    assert_eq!(
        BlendControl::new().with_target1_bg1(true),
        BlendControl(0b0000_0000_0000_0010)
    );
}

#[test]
fn blend_control_target1_bg2() {
    assert_eq!(
        BlendControl::new().with_target1_bg2(true),
        BlendControl(0b0000_0000_0000_0100)
    );
}

#[test]
fn blend_control_target1_bg3() {
    assert_eq!(
        BlendControl::new().with_target1_bg3(true),
        BlendControl(0b0000_0000_0000_1000)
    );
}

#[test]
fn blend_control_target1_obj() {
    assert_eq!(
        BlendControl::new().with_target1_obj(true),
        BlendControl(0b0000_0000_0001_0000)
    );
}

#[test]
fn blend_control_target1_backdrop() {
    assert_eq!(
        BlendControl::new().with_target1_backdrop(true),
        BlendControl(0b0000_0000_0010_0000)
    );
}

#[test]
fn blend_control_color_effect() {
    assert_eq!(
        BlendControl::new().with_color_effect(ColorEffect::Darken),
        BlendControl(0b0000_0000_1100_0000)
    );
}

#[test]
fn blend_control_effect_replaces_effect() {
    assert_eq!(
        BlendControl::new()
            .with_color_effect(ColorEffect::Darken)
            .with_color_effect(ColorEffect::Blend),
        BlendControl(0b0000_0000_0100_0000)
    );
    assert_eq!(
        BlendControl(0xffff).with_color_effect(ColorEffect::NoEffect),
        BlendControl(0b1111_1111_0011_1111)
    );
    assert_eq!(
        BlendControl::new().with_color_effect(ColorEffect::Brighten),
        BlendControl(0b0000_0000_1000_0000)
    );
}

#[test]
fn setting_a_bit_twice_keeps_the_last() {
    assert_eq!(
        DisplayControl::new().with_bg0(true).with_bg0(false),
        DisplayControl(0)
    );
    assert_eq!(
        DisplayControl(0xffff).with_obj(false),
        DisplayControl(0b1110_1111_1111_1111)
    );
    assert_eq!(
        DisplayControl::new().with_bg1(true).with_bg2(true),
        DisplayControl(0b0000_0110_0000_0000)
    );
}

#[test]
fn audio_registers() {
    assert_eq!(audio::Enable::new(), audio::Enable(0));
    assert_eq!(audio::Enable::new().master_enable(true), audio::Enable(1 << 7));
    assert_eq!(audio::Enable(0xffff).master_enable(false), audio::Enable(0xff7f));
    assert_eq!(
        audio::Control::new()
            .sound_a_right(true)
            .sound_a_left(true)
            .sound_a_fifo_reset(true),
        audio::Control(0b0000_1011_0000_0000)
    );
    assert_eq!(
        audio::Control(0b0000_1011_0000_0000).sound_a_left(false),
        audio::Control(0b0000_1001_0000_0000)
    );
}

#[test]
fn timer_control() {
    assert_eq!(timer::Control::new(), timer::Control(0));
    assert_eq!(
        timer::Control::new()
            .with_prescaler(timer::Prescaler::Freq1)
            .with_enable(true),
        timer::Control(0b1000_0000)
    );
    assert_eq!(
        timer::Control(0b1000_0011).with_prescaler(timer::Prescaler::Freq1),
        timer::Control(0b1000_0000)
    );
}

#[test]
fn interrupt_flags() {
    assert_eq!(Interrupts::vblank(), Interrupts(1));
    assert_eq!(DisplayStatus::enable_vblank_interrupts(), DisplayStatus(8));
}

#[test]
fn text_screen_entry_fields() {
    assert_eq!(
        TextScreenEntry::new()
            .with_tile(RangedU16::<0, 1023>::new_static::<37>().get())
            .with_palette(RangedU8::<0, 15>::new_static::<1>().get()),
        TextScreenEntry(0b0001_0000_0010_0101)
    );
    assert_eq!(
        TextScreenEntry::new().with_hflip(true).with_vflip(true),
        TextScreenEntry(0b0000_1100_0000_0000)
    );
    assert_eq!(
        TextScreenEntry(0xffff).with_tile(0),
        TextScreenEntry(0b1111_1100_0000_0000)
    );
    assert_eq!(
        TextScreenEntry(0xffff).with_palette(0),
        TextScreenEntry(0b0000_1111_1111_1111)
    );
}

#[test]
fn object_attribute_fields() {
    assert_eq!(ObjectAttributes::new(), ObjectAttributes(0));
    assert_eq!(ObjectAttributes::new().with_y(42), ObjectAttributes(42));
    assert_eq!(
        ObjectAttributes::new().with_disabled(true),
        ObjectAttributes(1 << 9)
    );
    assert_eq!(
        ObjectAttributes(u64::MAX).with_disabled(false),
        ObjectAttributes(u64::MAX & !(1 << 9))
    );
    assert_eq!(ObjectAttributes::new().with_x(52), ObjectAttributes(52 << 16));
    assert_eq!(
        ObjectAttributes::new().with_x(512),
        ObjectAttributes(512 << 16)
    );
    assert_eq!(
        ObjectAttributes::new()
            .with_x(52)
            .with_y(42)
            .with_tile(0)
            .with_palette(0)
            .with_size(1),
        ObjectAttributes((52 << 16) | 42 | (1 << 30))
    );
    assert_eq!(
        ObjectAttributes::new().with_tile(1023).with_palette(15),
        ObjectAttributes((1023u64 << 32) | (15u64 << 44))
    );
    assert_eq!(
        ObjectAttributes(u64::MAX).with_size(0),
        ObjectAttributes(u64::MAX & !(3u64 << 30))
    );
}
