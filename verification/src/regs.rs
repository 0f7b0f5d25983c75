//! Register words of a timer and the fields packed into them.
//!
//! A register is held as its 32-bit word. Fields are read and written through
//! the register types of `stm32_metapac`; the functions here that make those
//! calls state, field by field, what the accessor does to the word.
use vstd::prelude::*;
use crate::mode::{CenterAlignedMode, Channel, OutputCompareMode, PerChannel};
use stm32_metapac::timer::regs::{ArrCore, BdtrAdv, CcerAdv, CcerGp16, CcmrOutputGp16, Ccr1ch, Cr1Gp16};
use stm32_metapac::timer::vals::{Ckd, Cms, Ocm};

verus! {

/// The field of `word` that starts at bit `offset` and is as wide as `mask`.
pub open spec fn field(word: u32, offset: u32, mask: u32) -> u32 {
    (word >> offset) & mask
}

/// `word` with the field at bit `offset` replaced by the low bits of `value`.
pub open spec fn with_field(word: u32, offset: u32, mask: u32, value: u32) -> u32 {
    (word & !(mask << offset)) | ((value & mask) << offset)
}

/// A flag as the one-bit field value that stands for it.
pub open spec fn flag(value: bool) -> u32 {
    if value {
        1
    } else {
        0
    }
}

/// Calls `Cr1Gp16::cen`: the counter-enable flag is bit 0 of control register 1.
#[verifier::external_body]
pub(crate) fn cr1_cen(word: u32) -> (r: bool)
    ensures
        r == (field(word, 0, 1) != 0),
{
    Cr1Gp16(word).cen()
}

/// Calls `Cr1Gp16::set_cen`: writes bit 0 of control register 1 and leaves
/// the other bits as they were.
#[verifier::external_body]
pub(crate) fn cr1_set_cen(word: u32, value: bool) -> (r: u32)
    ensures
        r == with_field(word, 0, 1, flag(value)),
{
    let mut reg = Cr1Gp16(word);
    reg.set_cen(value);
    reg.0
}

/// Calls `Cr1Gp16::cms`: the alignment mode is the two-bit field at bit 5 of
/// control register 1, and each of its four values is one variant of `Cms`.
#[verifier::external_body]
pub(crate) fn cr1_cms(word: u32) -> (r: CenterAlignedMode)
    ensures
        r.encoding() == field(word, 5, 3),
{
    match Cr1Gp16(word).cms() {
        Cms::EDGE_ALIGNED => CenterAlignedMode::EdgeAligned,
        Cms::CENTER_ALIGNED1 => CenterAlignedMode::CenterAlignedMode1,
        Cms::CENTER_ALIGNED2 => CenterAlignedMode::CenterAlignedMode2,
        Cms::CENTER_ALIGNED3 => CenterAlignedMode::CenterAlignedMode3,
    }
}

/// Calls `Cr1Gp16::set_cms` with the `Cms` that `Cms::from_bits` makes of
/// `bits`: writes the low two bits of `bits` to the field at bit 5 of control
/// register 1.
#[verifier::external_body]
pub(crate) fn cr1_set_cms(word: u32, bits: u8) -> (r: u32)
    ensures
        r == with_field(word, 5, 3, bits as u32),
{
    let mut reg = Cr1Gp16(word);
    reg.set_cms(Cms::from_bits(bits));
    reg.0
}

/// Calls `Cr1Gp16::set_ckd` with the `Ckd` that `Ckd::from_bits` makes of
/// `bits`: writes the low two bits of `bits` to the field at bit 8 of control
/// register 1.
#[verifier::external_body]
pub(crate) fn cr1_set_ckd(word: u32, bits: u8) -> (r: u32)
    ensures
        r == with_field(word, 8, 3, bits as u32),
{
    let mut reg = Cr1Gp16(word);
    reg.set_ckd(Ckd::from_bits(bits));
    reg.0
}

/// Calls `ArrCore::arr`: the period is the low half of the auto-reload register.
#[verifier::external_body]
pub(crate) fn arr_value(word: u32) -> (r: u16)
    ensures
        r == field(word, 0, 0xffff),
{
    ArrCore(word).arr()
}

/// Calls `ArrCore::set_arr`: writes the low half of the auto-reload register
/// and leaves the high half as it was.
#[verifier::external_body]
pub(crate) fn arr_set_value(word: u32, value: u16) -> (r: u32)
    ensures
        r == with_field(word, 0, 0xffff, value as u32),
{
    let mut reg = ArrCore(word);
    reg.set_arr(value);
    reg.0
}

/// Calls `Ccr1ch::ccr`: the compare value is the low half of a
/// capture/compare register.
#[verifier::external_body]
pub(crate) fn ccr_value(word: u32) -> (r: u16)
    ensures
        r == field(word, 0, 0xffff),
{
    Ccr1ch(word).ccr()
}

/// Calls `Ccr1ch::set_ccr`: writes the low half of a capture/compare register
/// and leaves the high half as it was.
#[verifier::external_body]
pub(crate) fn ccr_set_value(word: u32, value: u16) -> (r: u32)
    ensures
        r == with_field(word, 0, 0xffff, value as u32),
{
    let mut reg = Ccr1ch(word);
    reg.set_ccr(value);
    reg.0
}

/// Calls `CcmrOutputGp16::set_ocm` with the `Ocm` that `Ocm::from_bits` makes
/// of `bits`: an output-compare mode register holds two channels, eight bits
/// apart, and the mode of the `n`-th is the three-bit field at bit 4 of its
/// byte. The accessor stops on any other `n` than 0 and 1.
#[verifier::external_body]
pub(crate) fn ccmr_set_ocm(word: u32, n: usize, bits: u8) -> (r: u32)
    requires
        n < 2,
    ensures
        r == with_field(word, (4 + 8 * n) as u32, 7, bits as u32),
{
    let mut reg = CcmrOutputGp16(word);
    reg.set_ocm(n, Ocm::from_bits(bits));
    reg.0
}

/// Calls `CcerGp16::set_cce`: the enable flag of the `n`-th channel is bit
/// `4 * n` of the capture/compare enable register. The accessor stops on an
/// `n` above 3.
#[verifier::external_body]
pub(crate) fn ccer_set_cce(word: u32, n: usize, value: bool) -> (r: u32)
    requires
        n < 4,
    ensures
        r == with_field(word, (4 * n) as u32, 1, flag(value)),
{
    let mut reg = CcerGp16(word);
    reg.set_cce(n, value);
    reg.0
}

/// Calls `CcerAdv::set_cce`: on an advanced timer too the enable flag of the
/// `n`-th channel is bit `4 * n` of the capture/compare enable register. The
/// accessor stops on an `n` above 5.
#[verifier::external_body]
pub(crate) fn ccer_adv_set_cce(word: u32, n: usize, value: bool) -> (r: u32)
    requires
        n < 6,
    ensures
        r == with_field(word, (4 * n) as u32, 1, flag(value)),
{
    let mut reg = CcerAdv(word);
    reg.set_cce(n, value);
    reg.0
}

/// Calls `CcerAdv::set_ccne`: the enable flag of the `n`-th complementary
/// output is bit `4 * n + 2` of the capture/compare enable register. Only the
/// first three channels have one: the accessor stops on an `n` above 2.
#[verifier::external_body]
pub(crate) fn ccer_adv_set_ccne(word: u32, n: usize, value: bool) -> (r: u32)
    requires
        n < 3,
    ensures
        r == with_field(word, (4 * n + 2) as u32, 1, flag(value)),
{
    let mut reg = CcerAdv(word);
    reg.set_ccne(n, value);
    reg.0
}

/// Calls `BdtrAdv::set_moe`: the main output enable flag is bit 15 of the
/// break and dead-time register.
#[verifier::external_body]
pub(crate) fn bdtr_set_moe(word: u32, value: bool) -> (r: u32)
    ensures
        r == with_field(word, 15, 1, flag(value)),
{
    let mut reg = BdtrAdv(word);
    reg.set_moe(value);
    reg.0
}

/// Calls `BdtrAdv::set_dtg`: the dead-time generator setup is the low byte of
/// the break and dead-time register.
#[verifier::external_body]
pub(crate) fn bdtr_set_dtg(word: u32, value: u8) -> (r: u32)
    ensures
        r == with_field(word, 0, 0xff, value as u32),
{
    let mut reg = BdtrAdv(word);
    reg.set_dtg(value);
    reg.0
}

/// Whether control register 1 has the counter enabled.
pub open spec fn cr1_running(word: u32) -> bool {
    field(word, 0, 1) != 0
}

/// The counting mode that control register 1 selects.
pub open spec fn cr1_mode(word: u32) -> CenterAlignedMode {
    CenterAlignedMode::decode(field(word, 5, 3) as u8)
}

/// The clock-division field of control register 1.
pub open spec fn cr1_division(word: u32) -> u32 {
    field(word, 8, 3)
}

/// The output-compare mode that a mode register holds for the `n`-th of its
/// two channels.
pub open spec fn ccmr_mode(word: u32, n: int) -> OutputCompareMode {
    OutputCompareMode::decode(field(word, (4 + 8 * n) as u32, 7) as u8)
}

/// Whether the enable register has the output of the `n`-th channel enabled.
pub open spec fn ccer_enabled(word: u32, n: int) -> bool {
    field(word, (4 * n) as u32, 1) != 0
}

/// Whether the enable register has the complementary output of the `n`-th
/// channel enabled.
pub open spec fn ccer_complementary(word: u32, n: int) -> bool {
    field(word, (4 * n + 2) as u32, 1) != 0
}

/// The low half of a register word, where a 16-bit counter keeps its period
/// and its compare values.
pub open spec fn low_half(word: u32) -> u32 {
    field(word, 0, 0xffff)
}

/// Whether the break and dead-time register has the main output enabled.
pub open spec fn bdtr_outputs(word: u32) -> bool {
    field(word, 15, 1) != 0
}

/// The dead-time generator setup in the break and dead-time register.
pub open spec fn bdtr_dead_time(word: u32) -> u32 {
    field(word, 0, 0xff)
}

/// Control register 1: a write to one of the fields for the counter enable,
/// the counting mode and the clock division reads back and leaves the other
/// two as they were.
pub proof fn lemma_cr1_fields(word: u32, value: u32)
    ensures
        field(with_field(word, 0, 1, value), 0, 1) == value & 1,
        field(with_field(word, 0, 1, value), 5, 3) == field(word, 5, 3),
        field(with_field(word, 0, 1, value), 8, 3) == field(word, 8, 3),
        field(with_field(word, 5, 3, value), 0, 1) == field(word, 0, 1),
        field(with_field(word, 5, 3, value), 5, 3) == value & 3,
        field(with_field(word, 5, 3, value), 8, 3) == field(word, 8, 3),
        field(with_field(word, 8, 3, value), 0, 1) == field(word, 0, 1),
        field(with_field(word, 8, 3, value), 5, 3) == field(word, 5, 3),
        field(with_field(word, 8, 3, value), 8, 3) == value & 3,
        field(word, 5, 3) <= 3,
        field(word, 8, 3) <= 3,
        value <= 3 ==> value & 3 == value,
        value <= 1 ==> value & 1 == value,
{
    assert({
        &&& (((word & !(1u32 << 0u32)) | ((value & 1) << 0u32)) >> 0u32) & 1 == value & 1
        &&& (((word & !(1u32 << 0u32)) | ((value & 1) << 0u32)) >> 5u32) & 3 == (word >> 5u32) & 3
        &&& (((word & !(1u32 << 0u32)) | ((value & 1) << 0u32)) >> 8u32) & 3 == (word >> 8u32) & 3
        &&& (((word & !(3u32 << 5u32)) | ((value & 3) << 5u32)) >> 0u32) & 1 == (word >> 0u32) & 1
        &&& (((word & !(3u32 << 5u32)) | ((value & 3) << 5u32)) >> 5u32) & 3 == value & 3
        &&& (((word & !(3u32 << 5u32)) | ((value & 3) << 5u32)) >> 8u32) & 3 == (word >> 8u32) & 3
        &&& (((word & !(3u32 << 8u32)) | ((value & 3) << 8u32)) >> 0u32) & 1 == (word >> 0u32) & 1
        &&& (((word & !(3u32 << 8u32)) | ((value & 3) << 8u32)) >> 5u32) & 3 == (word >> 5u32) & 3
        &&& (((word & !(3u32 << 8u32)) | ((value & 3) << 8u32)) >> 8u32) & 3 == value & 3
        &&& (word >> 5u32) & 3 <= 3
        &&& (word >> 8u32) & 3 <= 3
        &&& (value <= 3 ==> value & 3 == value)
        &&& (value <= 1 ==> value & 1 == value)
    }) by (bit_vector);
}

/// A counting mode that is written to control register 1 is the one that is
/// read from it afterwards, whatever the register held and whichever of the
/// four modes it is; the counter enable stays as it was.
pub proof fn lemma_cr1_mode_round_trip(word: u32, mode: CenterAlignedMode)
    ensures
        cr1_mode(with_field(word, 5, 3, mode.encoding() as u32)) == mode,
        cr1_running(with_field(word, 5, 3, mode.encoding() as u32)) == cr1_running(word),
{
    lemma_cr1_fields(word, mode.encoding() as u32);
    CenterAlignedMode::lemma_encoding_round_trip(mode, 0);
}

/// Output-compare mode register: a write to the mode field of one channel
/// reads back and leaves the mode field of the other channel as it was.
pub proof fn lemma_ccmr_fields(word: u32, value: u32, offset: u32, other: u32)
    requires
        offset == 4 || offset == 12,
        other == 4 || other == 12,
    ensures
        field(with_field(word, offset, 7, value), other, 7) == if offset == other {
            value & 7
        } else {
            field(word, other, 7)
        },
        field(word, other, 7) <= 7,
        value <= 7 ==> value & 7 == value,
{
    assert({
        &&& (((word & !(7u32 << offset)) | ((value & 7) << offset)) >> other) & 7 == if offset
            == other {
            value & 7
        } else {
            (word >> other) & 7
        }
        &&& (word >> other) & 7 <= 7
        &&& (value <= 7 ==> value & 7 == value)
    }) by (bit_vector)
        requires
            offset == 4 || offset == 12,
            other == 4 || other == 12,
    ;
}

/// A write to the output-compare mode of one of the two channels of a mode
/// register reads back and leaves the mode of the other channel as it was.
pub proof fn lemma_ccmr_modes(word: u32, n: int, mode: OutputCompareMode)
    requires
        n == 0 || n == 1,
    ensures
        ccmr_mode(with_field(word, (4 + 8 * n) as u32, 7, mode.encoding() as u32), n) == mode,
        ccmr_mode(with_field(word, (4 + 8 * n) as u32, 7, mode.encoding() as u32), 1 - n)
            == ccmr_mode(word, 1 - n),
{
    let offset: u32 = (4 + 8 * n) as u32;
    let other: u32 = (4 + 8 * (1 - n)) as u32;
    lemma_ccmr_fields(word, mode.encoding() as u32, offset, offset);
    lemma_ccmr_fields(word, mode.encoding() as u32, offset, other);
    OutputCompareMode::lemma_encoding_round_trip(mode, 0);
}

/// A write to a one-bit field reads back and leaves every other bit of the
/// word as it was.
pub proof fn lemma_flag_fields(word: u32, value: u32, offset: u32, other: u32)
    requires
        offset < 32,
        other < 32,
    ensures
        field(with_field(word, offset, 1, value), other, 1) == if offset == other {
            value & 1
        } else {
            field(word, other, 1)
        },
        value <= 1 ==> value & 1 == value,
{
    assert({
        &&& (((word & !(1u32 << offset)) | ((value & 1) << offset)) >> other) & 1 == if offset
            == other {
            value & 1
        } else {
            (word >> other) & 1
        }
        &&& (value <= 1 ==> value & 1 == value)
    }) by (bit_vector)
        requires
            offset < 32,
            other < 32,
    ;
}

/// A write to the low half of a word reads back, leaves the high half as it
/// was, and on an empty word leaves nothing but the value.
pub proof fn lemma_low_half(word: u32, value: u32)
    requires
        value <= 0xffff,
    ensures
        low_half(with_field(word, 0, 0xffff, value)) == value,
        with_field(word, 0, 0xffff, value) >> 16 == word >> 16,
        with_field(0, 0, 0xffff, value) == value,
        low_half(word) <= 0xffff,
        word <= 0xffff ==> low_half(word) == word,
{
    assert({
        &&& (((word & !(0xffffu32 << 0u32)) | ((value & 0xffff) << 0u32)) >> 0u32) & 0xffff
            == value
        &&& ((word & !(0xffffu32 << 0u32)) | ((value & 0xffff) << 0u32)) >> 16u32 == word >> 16u32
        &&& ((0u32 & !(0xffffu32 << 0u32)) | ((value & 0xffff) << 0u32)) == value
        &&& (word >> 0u32) & 0xffff <= 0xffff
        &&& (word <= 0xffff ==> (word >> 0u32) & 0xffff == word)
    }) by (bit_vector)
        requires
            value <= 0xffff,
    ;
}

/// Break and dead-time register: a write to the main output enable or to the
/// dead-time setup reads back and leaves the other as it was.
pub proof fn lemma_bdtr_fields(word: u32, value: u32)
    ensures
        field(with_field(word, 15, 1, value), 15, 1) == value & 1,
        field(with_field(word, 15, 1, value), 0, 0xff) == field(word, 0, 0xff),
        field(with_field(word, 0, 0xff, value), 15, 1) == field(word, 15, 1),
        field(with_field(word, 0, 0xff, value), 0, 0xff) == value & 0xff,
        value <= 0xff ==> value & 0xff == value,
        value <= 1 ==> value & 1 == value,
{
    assert({
        &&& (((word & !(1u32 << 15u32)) | ((value & 1) << 15u32)) >> 15u32) & 1 == value & 1
        &&& (((word & !(1u32 << 15u32)) | ((value & 1) << 15u32)) >> 0u32) & 0xff == (word
            >> 0u32) & 0xff
        &&& (((word & !(0xffu32 << 0u32)) | ((value & 0xff) << 0u32)) >> 15u32) & 1 == (word
            >> 15u32) & 1
        &&& (((word & !(0xffu32 << 0u32)) | ((value & 0xff) << 0u32)) >> 0u32) & 0xff == value
            & 0xff
        &&& (value <= 0xff ==> value & 0xff == value)
        &&& (value <= 1 ==> value & 1 == value)
    }) by (bit_vector);
}

/// Every field of an empty word is empty.
pub proof fn lemma_empty_word(offset: u32, mask: u32)
    requires
        offset < 32,
    ensures
        field(0, offset, mask) == 0,
{
    assert((0u32 >> offset) & mask == 0) by (bit_vector)
        requires
            offset < 32,
    ;
}

/// The channels whose output an enable register has enabled.
pub open spec fn channel_flags(ccer: u32) -> PerChannel<bool> {
    PerChannel {
        ch1: ccer_enabled(ccer, 0),
        ch2: ccer_enabled(ccer, 1),
        ch3: ccer_enabled(ccer, 2),
        ch4: ccer_enabled(ccer, 3),
    }
}

/// A write to the enable flag of one channel reads back and leaves the enable
/// flags of the other channels as they were.
pub proof fn lemma_channel_flags(word: u32, channel: Channel, enable: bool)
    ensures
        channel_flags(with_field(word, (4 * channel.index()) as u32, 1, flag(enable)))
            == channel_flags(word).update(channel, enable),
{
    let offset: u32 = (4 * channel.index()) as u32;
    lemma_flag_fields(word, flag(enable), offset, 0);
    lemma_flag_fields(word, flag(enable), offset, 4);
    lemma_flag_fields(word, flag(enable), offset, 8);
    lemma_flag_fields(word, flag(enable), offset, 12);
}

/// The channels whose complementary output an enable register has enabled.
/// The fourth channel has none.
pub open spec fn complementary_flags(ccer: u32) -> PerChannel<bool> {
    PerChannel {
        ch1: ccer_complementary(ccer, 0),
        ch2: ccer_complementary(ccer, 1),
        ch3: ccer_complementary(ccer, 2),
        ch4: false,
    }
}

/// In the enable register the flags of the outputs and those of the
/// complementary outputs do not touch: a write to one of the first leaves the
/// second as they were, and a write to one of the second reads back and
/// leaves the first and the rest of the second as they were.
pub proof fn lemma_complementary_flags(word: u32, channel: Channel, enable: bool)
    ensures
        complementary_flags(with_field(word, (4 * channel.index()) as u32, 1, flag(enable)))
            == complementary_flags(word),
        channel != Channel::Ch4 ==> complementary_flags(
            with_field(word, (4 * channel.index() + 2) as u32, 1, flag(enable)),
        ) == complementary_flags(word).update(channel, enable),
        channel != Channel::Ch4 ==> channel_flags(
            with_field(word, (4 * channel.index() + 2) as u32, 1, flag(enable)),
        ) == channel_flags(word),
{
    let output: u32 = (4 * channel.index()) as u32;
    lemma_flag_fields(word, flag(enable), output, 2);
    lemma_flag_fields(word, flag(enable), output, 6);
    lemma_flag_fields(word, flag(enable), output, 10);
    if channel != Channel::Ch4 {
        let complementary: u32 = (4 * channel.index() + 2) as u32;
        lemma_flag_fields(word, flag(enable), complementary, 0);
        lemma_flag_fields(word, flag(enable), complementary, 2);
        lemma_flag_fields(word, flag(enable), complementary, 4);
        lemma_flag_fields(word, flag(enable), complementary, 6);
        lemma_flag_fields(word, flag(enable), complementary, 8);
        lemma_flag_fields(word, flag(enable), complementary, 10);
        lemma_flag_fields(word, flag(enable), complementary, 12);
    }
}

/// The low half of a word is what is left of it after division by 2^16, and
/// a write to it leaves the multiples of 2^16 as they were.
pub proof fn lemma_low_half_is_remainder(word: u32)
    ensures
        low_half(word) == word % 0x1_0000,
        forall|value: u32|
            value <= 0xffff ==> #[trigger] with_field(word, 0, 0xffff, value) == (word
                / 0x1_0000) * 0x1_0000 + value,
{
    assert((word >> 0u32) & 0xffff == word % 0x1_0000) by (bit_vector);
    assert forall|value: u32| value <= 0xffff implies #[trigger] with_field(
        word,
        0,
        0xffff,
        value,
    ) == (word / 0x1_0000) * 0x1_0000 + value by {
        assert(((word & !(0xffffu32 << 0u32)) | ((value & 0xffff) << 0u32)) == (word
            / 0x1_0000) * 0x1_0000 + value) by (bit_vector)
            requires
                value <= 0xffff,
        ;
    }
}

} // verus!
