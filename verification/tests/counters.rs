//! Multi-byte counters: big-endian byte order and full-range round-trips.

use ili9341::get_scanline::GetScanline;
use ili9341::nv_memory_protection_key::NvMemoryProtectionKey;
use ili9341::page_address::PageAddressSet;
use ili9341::partial_area::PartialArea;
use ili9341::tear_scanline::SetTearScanline;
use ili9341::vertical_scrolling::VerticalScrollingDefinition;
use ili9341::vertical_scrolling_start_address::VerticalScrollingStartAddress;

#[test]
fn sixteen_bit_counters_are_most_significant_byte_first() {
    let block = PageAddressSet::default().write(|w| w.sp(0x1234).ep(0xABCD));
    assert_eq!(block.data, [0x12, 0x34, 0xAB, 0xCD]);
    assert_eq!(block.read().sp(), 0x1234);
    assert_eq!(block.read().ep(), 0xABCD);
}

#[test]
fn sixteen_bit_counters_roundtrip_at_the_range_ends() {
    for v in [0x0000u16, 0x0001, 0x00FF, 0x0100, 0x7FFF, 0x8000, 0xFFFF] {
        let block = PartialArea::default().write(|w| w.sr(v).er(v));
        assert_eq!(block.read().sr(), v);
        assert_eq!(block.read().er(), v);
        let scroll = VerticalScrollingStartAddress::default().write(|w| w.vsp(v));
        assert_eq!(scroll.read().vsp(), v);
    }
}

#[test]
fn vertical_scrolling_defaults_and_fields() {
    let block = VerticalScrollingDefinition::default();
    assert_eq!(block.data, [0x00, 0x00, 0x01, 0x40, 0x00, 0x00]);
    assert_eq!(block.read().tfa(), 0x0000);
    assert_eq!(block.read().vsa(), 0x0140);
    assert_eq!(block.read().bfa(), 0x0000);
    let written = block.write(|w| w.tfa(0x0002).bfa(0x0003));
    assert_eq!(written.data, [0x00, 0x02, 0x01, 0x40, 0x00, 0x03]);
}

#[test]
fn protection_key_is_24_bit_big_endian() {
    let block = NvMemoryProtectionKey::default();
    assert_eq!(block.data, [0x55, 0xAA, 0x66]);
    assert_eq!(block.read().nv_memory_programming_protection_key(), 0x55AA66);
    let written = NvMemoryProtectionKey::default()
        .write(|w| w.nv_memory_programming_protection_key(0x123456));
    assert_eq!(written.data, [0x12, 0x34, 0x56]);
    assert_eq!(written.read().nv_memory_programming_protection_key(), 0x123456);
    // Bits above the 24-bit width do not reach the wire.
    let truncated = NvMemoryProtectionKey::default()
        .write(|w| w.nv_memory_programming_protection_key(0xFF55AA66));
    assert_eq!(truncated.data, [0x55, 0xAA, 0x66]);
}

#[test]
fn tear_scanline_splits_over_nine_bits() {
    for v in [0u16, 1, 0xFF, 0x100, 0x1FF] {
        let block = SetTearScanline::default().write(|w| w.sts(v));
        assert_eq!(block.read().sts(), v);
    }
    let block = SetTearScanline::default().write(|w| w.sts(0x1FF));
    assert_eq!(block.data, [0x01, 0xFF]);
    // Bits above the 9-bit width do not reach the wire.
    let truncated = SetTearScanline::default().write(|w| w.sts(0x0200));
    assert_eq!(truncated.data, [0x00, 0x00]);
}

#[test]
fn scanline_reads_ten_bits() {
    let block = GetScanline { data: [0x03, 0xFF] };
    assert_eq!(block.read().gts(), 0x03FF);
    let written = GetScanline::default().write(|w| w.gts(0x2A5));
    assert_eq!(written.data, [0x02, 0xA5]);
    assert_eq!(written.read().gts(), 0x2A5);
}
