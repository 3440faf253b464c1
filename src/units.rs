//! Conversions of raw counts into the report's canonical units.

use vstd::prelude::*;

verus! {

/// Bytes in one mebibyte.
pub const BYTES_PER_MIB: u64 = 1_048_576;

/// Microwatt-hours in one watt-hour.
pub const UWH_PER_WH: u64 = 1_000_000;

/// The mebibyte count of `value` bytes, floored and kept to 32 bits.
pub open spec fn mib_of(value: int) -> int {
    (value / BYTES_PER_MIB as int) % 0x1_0000_0000
}

/// Converts a count of units to mebi-units (bytes to MiB): integer division
/// by 1,048,576, which floors. The quotient is kept to 32 bits, which loses
/// nothing below 4 PiB.
pub fn unit_to_mibiunits(value: u64) -> (r: u32)
    ensures
        r as int == mib_of(value as int),
        value < 0x10_0000_0000_0000 ==> r as int == value as int / BYTES_PER_MIB as int,
{
    let q: u64 = value / BYTES_PER_MIB;
    assert(q as u32 as int == q as int % 0x1_0000_0000) by (bit_vector)
        requires q == q;
    q as u32
}

proof fn lemma_product_fits(a: int, b: int)
    requires
        0 <= a <= u64::MAX,
        0 <= b <= u64::MAX,
    ensures
        0 <= a * b <= u128::MAX,
{
    assert(0 <= a * b <= u64::MAX as int * u64::MAX as int) by (nonlinear_arith)
        requires
            0 <= a <= u64::MAX,
            0 <= b <= u64::MAX,
    ;
}

/// The kibibyte capacity of `count` sectors of `width` bytes each.
pub open spec fn capacity_kib(count: int, width: int) -> int {
    (width * count) / 1024
}

/// Capacity in KiB of a device with `sector_count` sectors of
/// `sector_width` bytes: the product divided by 1024. `None` only where the
/// result does not fit in 64 bits.
pub fn sectors_to_kib(sector_count: u64, sector_width: u64) -> (r: Option<u64>)
    ensures
        capacity_kib(sector_count as int, sector_width as int) <= u64::MAX ==> r == Some(
            capacity_kib(sector_count as int, sector_width as int) as u64,
        ),
        capacity_kib(sector_count as int, sector_width as int) > u64::MAX ==> r is None,
{
    proof {
        lemma_product_fits(sector_width as int, sector_count as int);
    }
    let product: u128 = (sector_width as u128) * (sector_count as u128);
    let kib: u128 = product / 1024;
    if kib <= u64::MAX as u128 {
        Some(kib as u64)
    } else {
        None
    }
}

/// The energy in microwatt-hours held by `charge_uah` microamp-hours at
/// `voltage_uv` microvolts.
pub open spec fn energy_uwh(charge_uah: int, voltage_uv: int) -> int {
    (charge_uah * voltage_uv) / 1_000_000
}

/// Derives energy (µWh) from charge (µAh) times voltage (µV). `None` only
/// where the result does not fit in 64 bits.
pub fn charge_to_energy_uwh(charge_uah: u64, voltage_uv: u64) -> (r: Option<u64>)
    ensures
        energy_uwh(charge_uah as int, voltage_uv as int) <= u64::MAX ==> r == Some(
            energy_uwh(charge_uah as int, voltage_uv as int) as u64,
        ),
        energy_uwh(charge_uah as int, voltage_uv as int) > u64::MAX ==> r is None,
{
    proof {
        lemma_product_fits(charge_uah as int, voltage_uv as int);
    }
    let product: u128 = (charge_uah as u128) * (voltage_uv as u128);
    let uwh: u128 = product / 1_000_000;
    if uwh <= u64::MAX as u128 {
        Some(uwh as u64)
    } else {
        None
    }
}

/// Converts milliwatt-hours to microwatt-hours.
pub fn mwh_to_uwh(mwh: u32) -> (r: u64)
    ensures
        r == mwh as int * 1000,
{
    (mwh as u64) * 1000
}

} // verus!
