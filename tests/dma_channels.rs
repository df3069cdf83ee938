use lpc8xx_hal::dma::channels::{
    Channel, Channel0, Channel1, Channel2, Channel24, Channel3, Channel7, ChannelDescriptor,
    Instance, SharedRegisters, NUM_CHANNELS,
};

fn descriptor() -> ChannelDescriptor {
    ChannelDescriptor { config: 0x11, source_end: 0x2000_0100, dest_end: 0x4000_0040, next_desc: 0 }
}

#[test]
fn flags_are_one_bit_at_the_index() {
    assert_eq!(Channel0::index(), 0);
    assert_eq!(Channel0::flag(), 0b1);
    assert_eq!(Channel1::flag(), 0b10);
    assert_eq!(Channel2::index(), 2);
    assert_eq!(Channel2::flag(), 0b100);
    assert_eq!(Channel3::flag(), 0b1000);
    assert_eq!(Channel24::index(), NUM_CHANNELS - 1);
    assert_eq!(Channel24::flag(), 1 << 24);
}

#[test]
fn flags_are_pairwise_disjoint() {
    let flags = [
        Channel0::flag(),
        Channel1::flag(),
        Channel2::flag(),
        Channel3::flag(),
        Channel7::flag(),
        Channel24::flag(),
    ];
    for (i, a) in flags.iter().enumerate() {
        assert_eq!(a.count_ones(), 1);
        for (j, b) in flags.iter().enumerate() {
            if i != j {
                assert_eq!(a & b, 0);
            }
        }
    }
}

#[test]
fn new_registers_are_clear() {
    let regs = SharedRegisters::new();
    let ch0 = Channel::new(Channel0, descriptor()).enable();
    assert_eq!(regs.intenset0, 0);
    assert_eq!(regs.enableset0, 0);
    assert_eq!(regs.settrig0, 0);
    assert!(!ch0.is_active(&regs));
    assert!(!ch0.is_busy(&regs));
}

#[test]
fn enable_then_disable_interrupts_clears_only_own_bit() {
    let mut regs = SharedRegisters::new();
    let mut ch2 = Channel::new(Channel2, descriptor()).enable();
    regs.intenset0 = 0b1_0001;
    ch2.enable_interrupts(&mut regs);
    assert_eq!(regs.intenset0, 0b1_0101);
    ch2.disable_interrupts(&mut regs);
    assert_eq!(regs.intenset0, 0b1_0001);
}

#[test]
fn channel_interrupts_scenario() {
    let mut regs = SharedRegisters::new();
    let mut ch1 = Channel::new(Channel1, descriptor()).enable();
    let mut ch3 = Channel::new(Channel3, descriptor()).enable();
    ch1.enable_interrupts(&mut regs);
    ch3.enable_interrupts(&mut regs);
    ch1.disable_interrupts(&mut regs);
    assert_eq!(regs.intenset0, 0b1000);
}

#[test]
fn trigger_sets_only_own_bit() {
    let mut regs = SharedRegisters::new();
    let mut ch2 = Channel::new(Channel2, descriptor()).enable();
    regs.settrig0 = 0b1000_0001;
    ch2.trigger(&mut regs);
    assert_eq!(regs.settrig0, 0b1000_0101);
    ch2.trigger(&mut regs);
    assert_eq!(regs.settrig0, 0b1000_0101);
}

#[test]
fn status_reflects_only_own_bit() {
    let mut regs = SharedRegisters::new();
    let ch1 = Channel::new(Channel1, descriptor()).enable();
    let ch2 = Channel::new(Channel2, descriptor()).enable();
    let ch3 = Channel::new(Channel3, descriptor()).enable();
    regs.active0 = !0b100;
    regs.busy0 = 0b100;
    assert!(!ch2.is_active(&regs));
    assert!(ch3.is_active(&regs));
    assert!(ch2.is_busy(&regs));
    assert!(!ch1.is_busy(&regs));
    assert!(!ch3.is_busy(&regs));
}

#[test]
fn interrupt_flags_reflect_own_bit() {
    let mut regs = SharedRegisters::new();
    let ch0 = Channel::new(Channel0, descriptor()).enable();
    let ch1 = Channel::new(Channel1, descriptor()).enable();
    let ch3 = Channel::new(Channel3, descriptor()).enable();
    regs.errint0 = 0b10;
    regs.inta0 = 0b1000;
    regs.intb0 = 0b1010;
    assert!(ch1.error_interrupt_fired(&regs));
    assert!(!ch3.error_interrupt_fired(&regs));
    assert!(ch3.a_interrupt_fired(&regs));
    assert!(!ch1.a_interrupt_fired(&regs));
    assert!(ch1.b_interrupt_fired(&regs));
    assert!(ch3.b_interrupt_fired(&regs));
    assert!(!ch0.b_interrupt_fired(&regs));
}

#[test]
fn reset_flags_clears_only_own_bit() {
    let mut regs = SharedRegisters::new();
    let mut ch1 = Channel::new(Channel1, descriptor()).enable();
    let ch3 = Channel::new(Channel3, descriptor()).enable();
    regs.errint0 = 0b1010;
    regs.inta0 = 0b1010;
    regs.intb0 = 0b0010;
    regs.busy0 = 0b1010;
    ch1.reset_flags(&mut regs);
    assert_eq!(regs.errint0, 0b1000);
    assert_eq!(regs.inta0, 0b1000);
    assert_eq!(regs.intb0, 0);
    assert_eq!(regs.busy0, 0b1010);
    assert!(!ch1.error_interrupt_fired(&regs));
    assert!(ch3.error_interrupt_fired(&regs));
}

#[test]
fn busy_channel_isolated_from_idle_channel() {
    let mut regs = SharedRegisters::new();
    let mut ch2 = Channel::new(Channel2, descriptor()).enable();
    let ch0 = Channel::new(Channel0, descriptor()).enable();
    ch2.enable_in_controller(&mut regs);
    ch2.trigger(&mut regs);
    assert_eq!(regs.enableset0, 0b100);
    assert_eq!(regs.settrig0, 0b100);
    // the hardware reports the transfer of channel 2 in progress
    regs.busy0 = 0b100;
    assert!(ch2.is_busy(&regs));
    assert!(!ch0.is_busy(&regs));
    assert_eq!(regs.busy0 & Channel0::flag(), 0);
    assert_eq!(*ch2.descriptor(), descriptor());
}

#[test]
fn lifecycle_keeps_descriptor_and_registers() {
    let mut ch = Channel::new(Channel7, descriptor());
    assert_eq!(ch.cfg(), 0);
    assert_eq!(ch.xfercfg(), 0);
    ch.set_cfg(0x3);
    ch.set_xfercfg(0x0100_0009);
    let enabled = ch.enable();
    assert_eq!(*enabled.descriptor(), descriptor());
    assert_eq!(enabled.cfg(), 0x3);
    let disabled = enabled.disable();
    assert_eq!(*disabled.descriptor(), descriptor());
    assert_eq!(disabled.cfg(), 0x3);
    assert_eq!(disabled.xfercfg(), 0x0100_0009);
    let again = disabled.enable();
    assert_eq!(again.xfercfg(), 0x0100_0009);
    assert_eq!(again.disable().enable().cfg(), 0x3);
}

#[test]
fn set_descriptor_replaces_only_descriptor() {
    let mut ch = Channel::new(Channel1, descriptor()).enable();
    ch.set_cfg(0x5);
    let other = ChannelDescriptor { config: 0x22, source_end: 0x2000_0000, dest_end: 0x2000_1000, next_desc: 0x2000_2000 };
    ch.set_descriptor(other);
    assert_eq!(ch.descriptor().next_desc, 0x2000_2000);
    assert_eq!(ch.descriptor().config, 0x22);
    assert_eq!(ch.cfg(), 0x5);
    assert_eq!(ch.xfercfg(), 0);
}
