//! APIs related to DMA channels
//!
//! Each channel owns its private registers and transfer descriptor, while the
//! registers that control and report on all channels at once are shared. A
//! shared register holds one bit per channel: bit `n` belongs to channel `n`.
//! [`SharedRegisters`] holds the current contents of those registers. A
//! channel reads or changes them through its enabled [`Channel`] handle, and
//! every such operation reads or changes that channel's bit alone.

use vstd::prelude::*;

use crate::init_state::{Disabled, Enabled};

verus! {

/// The number of channels of the DMA controller
pub const NUM_CHANNELS: usize = 25;

/// The bit that addresses channel `index` in the shared registers
pub open spec fn channel_flag(index: nat) -> u32 {
    1u32 << (index as u32)
}

/// Whether the bit of channel `index` is set in `reg`
pub open spec fn bit_set(reg: u32, index: nat) -> bool {
    reg & channel_flag(index) != 0
}

/// Implemented for each DMA channel
///
/// Each channel is a type of its own, so that a handle of one channel cannot
/// be used in place of another's.
pub trait Instance {
    /// The index of the channel, as a mathematical value
    spec fn spec_index() -> nat;

    /// Every channel index addresses a channel of the controller
    proof fn lemma_index_in_range()
        ensures
            Self::spec_index() < NUM_CHANNELS,
    ;

    /// The index of the channel
    ///
    /// This is `0` for channel 0, `1` for channel 1, etc.
    fn index() -> (r: usize)
        ensures
            r == Self::spec_index(),
    ;

    /// The flag for the channel
    ///
    /// This is `0x1` for channel 0, `0x2` for channel 1, `0x4` for channel 2,
    /// etc.
    fn flag() -> (r: u32)
        ensures
            r == channel_flag(Self::spec_index()),
    ;
}

/// Sets the bit of channel `index` in `reg`
pub open spec fn set_bit(reg: u32, index: nat) -> u32 {
    reg | channel_flag(index)
}

/// Clears the bit of channel `index` in `reg`
pub open spec fn clear_bit(reg: u32, index: nat) -> u32 {
    reg & !channel_flag(index)
}

/// The contents of the registers that all DMA channels share
///
/// Each field is one 32-bit register, bit `n` of which belongs to channel `n`.
/// The interrupt-enable state is read through `intenset0`; writing a channel's
/// bit into the clear register clears it there. The hardware itself sets the
/// status bits (`active0`, `busy0`) and latches the interrupt flags
/// (`errint0`, `inta0`, `intb0`).
pub struct SharedRegisters {
    /// Channels with a transfer in progress or pending
    pub active0: u32,
    /// Channels that are currently transferring data
    pub busy0: u32,
    /// Channels that are enabled
    pub enableset0: u32,
    /// Channels whose error interrupt flag is latched
    pub errint0: u32,
    /// Channels whose interrupt A flag is latched
    pub inta0: u32,
    /// Channels whose interrupt B flag is latched
    pub intb0: u32,
    /// Channels whose interrupts are enabled
    pub intenset0: u32,
    /// Channels for which a transfer was requested by software
    pub settrig0: u32,
}

impl SharedRegisters {
    /// The registers after channel `index` was enabled
    pub open spec fn enabled(self, index: nat) -> SharedRegisters {
        SharedRegisters { enableset0: set_bit(self.enableset0, index), ..self }
    }

    /// The registers after a transfer on channel `index` was triggered
    pub open spec fn triggered(self, index: nat) -> SharedRegisters {
        SharedRegisters { settrig0: set_bit(self.settrig0, index), ..self }
    }

    /// The registers after the interrupts of channel `index` were enabled
    pub open spec fn interrupts_enabled(self, index: nat) -> SharedRegisters {
        SharedRegisters { intenset0: set_bit(self.intenset0, index), ..self }
    }

    /// The registers after the interrupts of channel `index` were disabled
    pub open spec fn interrupts_disabled(self, index: nat) -> SharedRegisters {
        SharedRegisters { intenset0: clear_bit(self.intenset0, index), ..self }
    }

    /// The registers after the interrupt flags of channel `index` were reset
    pub open spec fn flags_reset(self, index: nat) -> SharedRegisters {
        SharedRegisters {
            errint0: clear_bit(self.errint0, index),
            inta0: clear_bit(self.inta0, index),
            intb0: clear_bit(self.intb0, index),
            ..self
        }
    }

    /// The registers as they are after a reset of the controller: no channel
    /// enabled, active or busy, no interrupt enabled and no flag latched
    pub fn new() -> (r: Self)
        ensures
            r.active0 == 0,
            r.busy0 == 0,
            r.enableset0 == 0,
            r.errint0 == 0,
            r.inta0 == 0,
            r.intb0 == 0,
            r.intenset0 == 0,
            r.settrig0 == 0,
    {
        SharedRegisters {
            active0: 0,
            busy0: 0,
            enableset0: 0,
            errint0: 0,
            inta0: 0,
            intb0: 0,
            intenset0: 0,
            settrig0: 0,
        }
    }

    /// Enable interrupts for channel `C`
    pub(crate) fn enable_interrupts<C: Instance>(&mut self)
        ensures
            *final(self) == old(self).interrupts_enabled(C::spec_index()),
    {
        self.intenset0 = self.intenset0 | C::flag();
    }

    /// Disable interrupts for channel `C`
    pub(crate) fn disable_interrupts<C: Instance>(&mut self)
        ensures
            *final(self) == old(self).interrupts_disabled(C::spec_index()),
    {
        self.intenset0 = self.intenset0 & !C::flag();
    }

    /// Enable channel `C`, so that it services triggers
    pub(crate) fn enable<C: Instance>(&mut self)
        ensures
            *final(self) == old(self).enabled(C::spec_index()),
    {
        self.enableset0 = self.enableset0 | C::flag();
    }

    /// Request a transfer on channel `C`
    pub(crate) fn trigger<C: Instance>(&mut self)
        ensures
            *final(self) == old(self).triggered(C::spec_index()),
    {
        self.settrig0 = self.settrig0 | C::flag();
    }

    /// Whether channel `C` is active
    pub(crate) fn is_active<C: Instance>(&self) -> (r: bool)
        ensures
            r == bit_set(self.active0, C::spec_index()),
    {
        self.active0 & C::flag() != 0
    }

    /// Whether channel `C` is busy
    pub(crate) fn is_busy<C: Instance>(&self) -> (r: bool)
        ensures
            r == bit_set(self.busy0, C::spec_index()),
    {
        self.busy0 & C::flag() != 0
    }

    /// Whether the error interrupt of channel `C` has fired
    pub(crate) fn error_interrupt_fired<C: Instance>(&self) -> (r: bool)
        ensures
            r == bit_set(self.errint0, C::spec_index()),
    {
        self.errint0 & C::flag() != 0
    }

    /// Whether interrupt A of channel `C` has fired
    pub(crate) fn a_interrupt_fired<C: Instance>(&self) -> (r: bool)
        ensures
            r == bit_set(self.inta0, C::spec_index()),
    {
        self.inta0 & C::flag() != 0
    }

    /// Whether interrupt B of channel `C` has fired
    pub(crate) fn b_interrupt_fired<C: Instance>(&self) -> (r: bool)
        ensures
            r == bit_set(self.intb0, C::spec_index()),
    {
        self.intb0 & C::flag() != 0
    }

    /// Clear the error, A and B interrupt flags of channel `C`
    ///
    /// Must be called after an interrupt was serviced, so that it does not
    /// fire again.
    pub(crate) fn reset_flags<C: Instance>(&mut self)
        ensures
            *final(self) == old(self).flags_reset(C::spec_index()),
    {
        self.errint0 = self.errint0 & !C::flag();
        self.inta0 = self.inta0 & !C::flag();
        self.intb0 = self.intb0 & !C::flag();
    }
}

/// Setting the bit of channel `k` sets it, and leaves every other channel's
/// bit as it was.
pub proof fn lemma_set_bit_isolated(reg: u32, k: nat, j: nat)
    requires
        k < NUM_CHANNELS,
        j < NUM_CHANNELS,
    ensures
        bit_set(set_bit(reg, k), k),
        j != k ==> bit_set(set_bit(reg, k), j) == bit_set(reg, j),
{
    let (kb, jb) = (k as u32, j as u32);
    assert((reg | (1u32 << kb)) & (1u32 << kb) != 0) by (bit_vector)
        requires kb < 32;
    assert(jb != kb ==> ((reg | (1u32 << kb)) & (1u32 << jb) != 0) == (reg & (1u32 << jb) != 0))
        by (bit_vector)
        requires kb < 32, jb < 32;
}

/// Clearing the bit of channel `k` clears it, and leaves every other
/// channel's bit as it was.
pub proof fn lemma_clear_bit_isolated(reg: u32, k: nat, j: nat)
    requires
        k < NUM_CHANNELS,
        j < NUM_CHANNELS,
    ensures
        !bit_set(clear_bit(reg, k), k),
        j != k ==> bit_set(clear_bit(reg, k), j) == bit_set(reg, j),
{
    let (kb, jb) = (k as u32, j as u32);
    assert((reg & !(1u32 << kb)) & (1u32 << kb) == 0) by (bit_vector)
        requires kb < 32;
    assert(jb != kb ==> ((reg & !(1u32 << kb)) & (1u32 << jb) != 0) == (reg & (1u32 << jb) != 0))
        by (bit_vector)
        requires kb < 32, jb < 32;
}

/// The flag of every channel has a bit set, and the flags of two distinct
/// channels have no bit in common.
pub proof fn lemma_flags_disjoint(i: nat, j: nat)
    requires
        i < NUM_CHANNELS,
        j < NUM_CHANNELS,
        i != j,
    ensures
        channel_flag(i) != 0,
        channel_flag(i) & channel_flag(j) == 0,
{
    let (ib, jb) = (i as u32, j as u32);
    assert((1u32 << ib) != 0) by (bit_vector)
        requires ib < 32;
    assert((1u32 << ib) & (1u32 << jb) == 0) by (bit_vector)
        requires ib < 32, jb < 32, ib != jb;
}

/// The flags of two channel types with distinct indices are disjoint.
pub proof fn lemma_instance_flags_disjoint<A: Instance, B: Instance>()
    requires
        A::spec_index() != B::spec_index(),
    ensures
        channel_flag(A::spec_index()) & channel_flag(B::spec_index()) == 0,
{
    A::lemma_index_in_range();
    B::lemma_index_in_range();
    lemma_flags_disjoint(A::spec_index(), B::spec_index());
}

/// Enabling and then disabling the interrupts of channel `k` leaves its bit
/// clear in the interrupt-enable register, and every other channel's bit and
/// every other register as they were.
pub proof fn lemma_enable_disable_interrupts(regs: SharedRegisters, k: nat, j: nat)
    requires
        k < NUM_CHANNELS,
        j < NUM_CHANNELS,
    ensures
        ({
            let after = regs.interrupts_enabled(k).interrupts_disabled(k);
            &&& !bit_set(after.intenset0, k)
            &&& j != k ==> bit_set(after.intenset0, j) == bit_set(regs.intenset0, j)
            &&& after == (SharedRegisters { intenset0: after.intenset0, ..regs })
        }),
{
    lemma_set_bit_isolated(regs.intenset0, k, j);
    lemma_clear_bit_isolated(set_bit(regs.intenset0, k), k, j);
}

/// Triggering channel `k` sets its bit in the software-trigger register and
/// leaves every other channel's bit and every other register as they were.
pub proof fn lemma_trigger_isolated(regs: SharedRegisters, k: nat, j: nat)
    requires
        k < NUM_CHANNELS,
        j < NUM_CHANNELS,
    ensures
        bit_set(regs.triggered(k).settrig0, k),
        j != k ==> bit_set(regs.triggered(k).settrig0, j) == bit_set(regs.settrig0, j),
        regs.triggered(k) == (SharedRegisters { settrig0: regs.triggered(k).settrig0, ..regs }),
{
    lemma_set_bit_isolated(regs.settrig0, k, j);
}

/// A status query of channel `k` depends on bit `k` of its register alone:
/// two register values that agree on that bit give the same answer, whatever
/// the other channels' bits hold.
pub proof fn lemma_status_isolated(a: u32, b: u32, k: nat)
    requires
        k < NUM_CHANNELS,
        a & channel_flag(k) == b & channel_flag(k),
    ensures
        bit_set(a, k) == bit_set(b, k),
{
}

/// Resetting the flags of channel `k` clears its bit in the error, A and B
/// flag registers, leaves the bit of every other channel there as it was,
/// set or not, and leaves the other registers alone.
pub proof fn lemma_reset_flags_isolated(regs: SharedRegisters, k: nat, j: nat)
    requires
        k < NUM_CHANNELS,
        j < NUM_CHANNELS,
    ensures
        ({
            let after = regs.flags_reset(k);
            &&& !bit_set(after.errint0, k)
            &&& !bit_set(after.inta0, k)
            &&& !bit_set(after.intb0, k)
            &&& j != k ==> bit_set(after.errint0, j) == bit_set(regs.errint0, j)
            &&& j != k ==> bit_set(after.inta0, j) == bit_set(regs.inta0, j)
            &&& j != k ==> bit_set(after.intb0, j) == bit_set(regs.intb0, j)
            &&& after == (SharedRegisters {
                errint0: after.errint0,
                inta0: after.inta0,
                intb0: after.intb0,
                ..regs
            })
        }),
{
    lemma_clear_bit_isolated(regs.errint0, k, j);
    lemma_clear_bit_isolated(regs.inta0, k, j);
    lemma_clear_bit_isolated(regs.intb0, k, j);
}

/// The transfer descriptor of a channel, read and written by the DMA hardware
///
/// Addresses are those of the target's 32-bit address space. Each descriptor
/// is owned by one channel handle and never shared, so it cannot be copied.
#[derive(Debug, PartialEq, Eq)]
pub struct ChannelDescriptor {
    /// The transfer configuration that the hardware loads
    pub config: u32,
    /// The address of the last item of the source
    pub source_end: u32,
    /// The address of the last item of the destination
    pub dest_end: u32,
    /// The address of the next descriptor, or 0 where there is none
    pub next_desc: u32,
}

/// A DMA channel
///
/// The `Channel` struct represents a specific DMA channel. It provides methods
/// to control that channel. The state `S` is [`Disabled`] or [`Enabled`];
/// triggering, status queries and interrupt management are only offered on
/// an enabled channel, and only [`Channel::enable`] makes one.
///
/// A `Channel` owns its transfer descriptor and its dedicated configuration
/// registers, CFG and XFERCFG.
pub struct Channel<C: Instance, S> {
    pub(crate) ty: C,
    pub(crate) _state: S,
    pub(crate) descriptor: ChannelDescriptor,
    pub(crate) cfg: u32,
    pub(crate) xfercfg: u32,
}

impl<C: Instance, S> Channel<C, S> {
    /// The channel this handle controls
    pub closed spec fn spec_ty(&self) -> C {
        self.ty
    }

    /// The transfer descriptor this handle owns
    pub closed spec fn spec_descriptor(&self) -> ChannelDescriptor {
        self.descriptor
    }

    /// The contents of the channel's CFG register
    pub closed spec fn spec_cfg(&self) -> u32 {
        self.cfg
    }

    /// The contents of the channel's XFERCFG register
    pub closed spec fn spec_xfercfg(&self) -> u32 {
        self.xfercfg
    }

    /// The transfer descriptor of this channel
    pub fn descriptor(&self) -> (r: &ChannelDescriptor)
        ensures
            *r == self.spec_descriptor(),
    {
        &self.descriptor
    }

    /// Replace the transfer descriptor's contents with `descriptor`
    pub fn set_descriptor(&mut self, descriptor: ChannelDescriptor)
        ensures
            final(self).spec_descriptor() == descriptor,
            final(self).spec_ty() == old(self).spec_ty(),
            final(self).spec_cfg() == old(self).spec_cfg(),
            final(self).spec_xfercfg() == old(self).spec_xfercfg(),
    {
        self.descriptor = descriptor;
    }

    /// Read this channel's CFG register
    pub fn cfg(&self) -> (r: u32)
        ensures
            r == self.spec_cfg(),
    {
        self.cfg
    }

    /// Write this channel's CFG register
    pub fn set_cfg(&mut self, value: u32)
        ensures
            final(self).spec_cfg() == value,
            final(self).spec_ty() == old(self).spec_ty(),
            final(self).spec_descriptor() == old(self).spec_descriptor(),
            final(self).spec_xfercfg() == old(self).spec_xfercfg(),
    {
        self.cfg = value;
    }

    /// Read this channel's XFERCFG register
    pub fn xfercfg(&self) -> (r: u32)
        ensures
            r == self.spec_xfercfg(),
    {
        self.xfercfg
    }

    /// Write this channel's XFERCFG register
    pub fn set_xfercfg(&mut self, value: u32)
        ensures
            final(self).spec_xfercfg() == value,
            final(self).spec_ty() == old(self).spec_ty(),
            final(self).spec_descriptor() == old(self).spec_descriptor(),
            final(self).spec_cfg() == old(self).spec_cfg(),
    {
        self.xfercfg = value;
    }
}

impl<C: Instance> Channel<C, Disabled> {
    /// Create the handle of disabled channel `ty`, owning `descriptor`, with
    /// its dedicated registers at their reset value
    pub fn new(ty: C, descriptor: ChannelDescriptor) -> (r: Self)
        ensures
            r.spec_ty() == ty,
            r.spec_descriptor() == descriptor,
            r.spec_cfg() == 0,
            r.spec_xfercfg() == 0,
    {
        Channel { ty, _state: Disabled, descriptor, cfg: 0, xfercfg: 0 }
    }

    /// Enable the channel
    ///
    /// Hands the channel, its descriptor and its registers on unchanged; the
    /// controller starts servicing the channel at
    /// [`Channel::enable_in_controller`].
    pub fn enable(self) -> (r: Channel<C, Enabled>)
        ensures
            r.spec_ty() == self.spec_ty(),
            r.spec_descriptor() == self.spec_descriptor(),
            r.spec_cfg() == self.spec_cfg(),
            r.spec_xfercfg() == self.spec_xfercfg(),
    {
        Channel {
            ty: self.ty,
            _state: Enabled(()),
            descriptor: self.descriptor,
            cfg: self.cfg,
            xfercfg: self.xfercfg,
        }
    }
}

impl<C: Instance> Channel<C, Enabled> {
    /// Disable the channel
    ///
    /// Hands the channel, its descriptor and its registers on unchanged.
    pub fn disable(self) -> (r: Channel<C, Disabled>)
        ensures
            r.spec_ty() == self.spec_ty(),
            r.spec_descriptor() == self.spec_descriptor(),
            r.spec_cfg() == self.spec_cfg(),
            r.spec_xfercfg() == self.spec_xfercfg(),
    {
        Channel {
            ty: self.ty,
            _state: Disabled,
            descriptor: self.descriptor,
            cfg: self.cfg,
            xfercfg: self.xfercfg,
        }
    }

    /// Enable interrupts for this channel
    pub fn enable_interrupts(&mut self, registers: &mut SharedRegisters)
        ensures
            *final(self) == *old(self),
            *final(registers) == old(registers).interrupts_enabled(C::spec_index()),
    {
        registers.enable_interrupts::<C>();
    }

    /// Disable interrupts for this channel
    pub fn disable_interrupts(&mut self, registers: &mut SharedRegisters)
        ensures
            *final(self) == *old(self),
            *final(registers) == old(registers).interrupts_disabled(C::spec_index()),
    {
        registers.disable_interrupts::<C>();
    }

    /// Enable this channel in the controller, so that it services triggers
    pub fn enable_in_controller(&mut self, registers: &mut SharedRegisters)
        ensures
            *final(self) == *old(self),
            *final(registers) == old(registers).enabled(C::spec_index()),
    {
        registers.enable::<C>();
    }

    /// Request a transfer with this channel's current configuration
    pub fn trigger(&mut self, registers: &mut SharedRegisters)
        ensures
            *final(self) == *old(self),
            *final(registers) == old(registers).triggered(C::spec_index()),
    {
        registers.trigger::<C>();
    }

    /// Whether this channel is active
    pub fn is_active(&self, registers: &SharedRegisters) -> (r: bool)
        ensures
            r == bit_set(registers.active0, C::spec_index()),
    {
        registers.is_active::<C>()
    }

    /// Whether this channel is busy
    pub fn is_busy(&self, registers: &SharedRegisters) -> (r: bool)
        ensures
            r == bit_set(registers.busy0, C::spec_index()),
    {
        registers.is_busy::<C>()
    }

    /// Whether this channel's error interrupt has fired
    pub fn error_interrupt_fired(&self, registers: &SharedRegisters) -> (r: bool)
        ensures
            r == bit_set(registers.errint0, C::spec_index()),
    {
        registers.error_interrupt_fired::<C>()
    }

    /// Whether this channel's interrupt A has fired
    pub fn a_interrupt_fired(&self, registers: &SharedRegisters) -> (r: bool)
        ensures
            r == bit_set(registers.inta0, C::spec_index()),
    {
        registers.a_interrupt_fired::<C>()
    }

    /// Whether this channel's interrupt B has fired
    pub fn b_interrupt_fired(&self, registers: &SharedRegisters) -> (r: bool)
        ensures
            r == bit_set(registers.intb0, C::spec_index()),
    {
        registers.b_interrupt_fired::<C>()
    }

    /// Clear this channel's error, A and B interrupt flags
    ///
    /// Must be called after an interrupt was serviced, so that it does not
    /// fire again.
    pub fn reset_flags(&mut self, registers: &mut SharedRegisters)
        ensures
            *final(self) == *old(self),
            *final(registers) == old(registers).flags_reset(C::spec_index()),
    {
        registers.reset_flags::<C>();
    }
}

/// DMA channel 0
pub struct Channel0;

impl Instance for Channel0 {
    open spec fn spec_index() -> nat {
        0
    }

    proof fn lemma_index_in_range() {
    }

    fn index() -> usize {
        0
    }

    fn flag() -> u32 {
        1 << 0u32
    }
}

/// DMA channel 1
pub struct Channel1;

impl Instance for Channel1 {
    open spec fn spec_index() -> nat {
        1
    }

    proof fn lemma_index_in_range() {
    }

    fn index() -> usize {
        1
    }

    fn flag() -> u32 {
        1 << 1u32
    }
}

/// DMA channel 2
pub struct Channel2;

impl Instance for Channel2 {
    open spec fn spec_index() -> nat {
        2
    }

    proof fn lemma_index_in_range() {
    }

    fn index() -> usize {
        2
    }

    fn flag() -> u32 {
        1 << 2u32
    }
}

/// DMA channel 3
pub struct Channel3;

impl Instance for Channel3 {
    open spec fn spec_index() -> nat {
        3
    }

    proof fn lemma_index_in_range() {
    }

    fn index() -> usize {
        3
    }

    fn flag() -> u32 {
        1 << 3u32
    }
}

/// DMA channel 4
pub struct Channel4;

impl Instance for Channel4 {
    open spec fn spec_index() -> nat {
        4
    }

    proof fn lemma_index_in_range() {
    }

    fn index() -> usize {
        4
    }

    fn flag() -> u32 {
        1 << 4u32
    }
}

/// DMA channel 5
pub struct Channel5;

impl Instance for Channel5 {
    open spec fn spec_index() -> nat {
        5
    }

    proof fn lemma_index_in_range() {
    }

    fn index() -> usize {
        5
    }

    fn flag() -> u32 {
        1 << 5u32
    }
}

/// DMA channel 6
pub struct Channel6;

impl Instance for Channel6 {
    open spec fn spec_index() -> nat {
        6
    }

    proof fn lemma_index_in_range() {
    }

    fn index() -> usize {
        6
    }

    fn flag() -> u32 {
        1 << 6u32
    }
}

/// DMA channel 7
pub struct Channel7;

impl Instance for Channel7 {
    open spec fn spec_index() -> nat {
        7
    }

    proof fn lemma_index_in_range() {
    }

    fn index() -> usize {
        7
    }

    fn flag() -> u32 {
        1 << 7u32
    }
}

/// DMA channel 8
pub struct Channel8;

impl Instance for Channel8 {
    open spec fn spec_index() -> nat {
        8
    }

    proof fn lemma_index_in_range() {
    }

    fn index() -> usize {
        8
    }

    fn flag() -> u32 {
        1 << 8u32
    }
}

/// DMA channel 9
pub struct Channel9;

impl Instance for Channel9 {
    open spec fn spec_index() -> nat {
        9
    }

    proof fn lemma_index_in_range() {
    }

    fn index() -> usize {
        9
    }

    fn flag() -> u32 {
        1 << 9u32
    }
}

/// DMA channel 10
pub struct Channel10;

impl Instance for Channel10 {
    open spec fn spec_index() -> nat {
        10
    }

    proof fn lemma_index_in_range() {
    }

    fn index() -> usize {
        10
    }

    fn flag() -> u32 {
        1 << 10u32
    }
}

/// DMA channel 11
pub struct Channel11;

impl Instance for Channel11 {
    open spec fn spec_index() -> nat {
        11
    }

    proof fn lemma_index_in_range() {
    }

    fn index() -> usize {
        11
    }

    fn flag() -> u32 {
        1 << 11u32
    }
}

/// DMA channel 12
pub struct Channel12;

impl Instance for Channel12 {
    open spec fn spec_index() -> nat {
        12
    }

    proof fn lemma_index_in_range() {
    }

    fn index() -> usize {
        12
    }

    fn flag() -> u32 {
        1 << 12u32
    }
}

/// DMA channel 13
pub struct Channel13;

impl Instance for Channel13 {
    open spec fn spec_index() -> nat {
        13
    }

    proof fn lemma_index_in_range() {
    }

    fn index() -> usize {
        13
    }

    fn flag() -> u32 {
        1 << 13u32
    }
}

/// DMA channel 14
pub struct Channel14;

impl Instance for Channel14 {
    open spec fn spec_index() -> nat {
        14
    }

    proof fn lemma_index_in_range() {
    }

    fn index() -> usize {
        14
    }

    fn flag() -> u32 {
        1 << 14u32
    }
}

/// DMA channel 15
pub struct Channel15;

impl Instance for Channel15 {
    open spec fn spec_index() -> nat {
        15
    }

    proof fn lemma_index_in_range() {
    }

    fn index() -> usize {
        15
    }

    fn flag() -> u32 {
        1 << 15u32
    }
}

/// DMA channel 16
pub struct Channel16;

impl Instance for Channel16 {
    open spec fn spec_index() -> nat {
        16
    }

    proof fn lemma_index_in_range() {
    }

    fn index() -> usize {
        16
    }

    fn flag() -> u32 {
        1 << 16u32
    }
}

/// DMA channel 17
pub struct Channel17;

impl Instance for Channel17 {
    open spec fn spec_index() -> nat {
        17
    }

    proof fn lemma_index_in_range() {
    }

    fn index() -> usize {
        17
    }

    fn flag() -> u32 {
        1 << 17u32
    }
}

/// DMA channel 18
pub struct Channel18;

impl Instance for Channel18 {
    open spec fn spec_index() -> nat {
        18
    }

    proof fn lemma_index_in_range() {
    }

    fn index() -> usize {
        18
    }

    fn flag() -> u32 {
        1 << 18u32
    }
}

/// DMA channel 19
pub struct Channel19;

impl Instance for Channel19 {
    open spec fn spec_index() -> nat {
        19
    }

    proof fn lemma_index_in_range() {
    }

    fn index() -> usize {
        19
    }

    fn flag() -> u32 {
        1 << 19u32
    }
}

/// DMA channel 20
pub struct Channel20;

impl Instance for Channel20 {
    open spec fn spec_index() -> nat {
        20
    }

    proof fn lemma_index_in_range() {
    }

    fn index() -> usize {
        20
    }

    fn flag() -> u32 {
        1 << 20u32
    }
}

/// DMA channel 21
pub struct Channel21;

impl Instance for Channel21 {
    open spec fn spec_index() -> nat {
        21
    }

    proof fn lemma_index_in_range() {
    }

    fn index() -> usize {
        21
    }

    fn flag() -> u32 {
        1 << 21u32
    }
}

/// DMA channel 22
pub struct Channel22;

impl Instance for Channel22 {
    open spec fn spec_index() -> nat {
        22
    }

    proof fn lemma_index_in_range() {
    }

    fn index() -> usize {
        22
    }

    fn flag() -> u32 {
        1 << 22u32
    }
}

/// DMA channel 23
pub struct Channel23;

impl Instance for Channel23 {
    open spec fn spec_index() -> nat {
        23
    }

    proof fn lemma_index_in_range() {
    }

    fn index() -> usize {
        23
    }

    fn flag() -> u32 {
        1 << 23u32
    }
}

/// DMA channel 24
pub struct Channel24;

impl Instance for Channel24 {
    open spec fn spec_index() -> nat {
        24
    }

    proof fn lemma_index_in_range() {
    }

    fn index() -> usize {
        24
    }

    fn flag() -> u32 {
        1 << 24u32
    }
}

} // verus!
