//! Disk records and the text the dashboard shows for sensor readings.
use vstd::prelude::*;
use vstd::arithmetic::div_mod::lemma_div_denominator;
use vstd::arithmetic::div_mod::lemma_fundamental_div_mod;
use crate::numtext::{decimal, digit_char, digit_str, push_decimal, push_signed_decimal, signed_decimal};

verus! {

/// One disk as the monitoring engine reports it.
#[derive(Clone, Debug)]
pub struct DiskInfo {
    /// Disk kind: `"SSD"`, `"HDD"` or `"Unknown"`.
    pub kind: String,
    /// Device name, such as `"/dev/nvme0n1p1"`.
    pub name: String,
    /// Filesystem type, such as `"ext4"`.
    pub file_system: String,
    /// Mount point path, such as `"/"`.
    pub mount_point: String,
    /// Total space in bytes.
    pub total_space: u64,
    /// Available (free) space in bytes.
    pub available_space: u64,
    /// Whether the disk is removable.
    pub is_removable: bool,
}

impl DiskInfo {
    /// Used space in bytes: total minus available, or zero when more is
    /// available than the total.
    pub fn used_space(&self) -> (r: u64)
        ensures
            r == (if self.available_space <= self.total_space {
                self.total_space - self.available_space
            } else {
                0
            }),
    {
        self.total_space.saturating_sub(self.available_space)
    }
}

impl Default for DiskInfo {
    fn default() -> (r: DiskInfo)
        ensures
            r.kind@ == Seq::<char>::empty(),
            r.name@ == Seq::<char>::empty(),
            r.file_system@ == Seq::<char>::empty(),
            r.mount_point@ == Seq::<char>::empty(),
            r.total_space == 0,
            r.available_space == 0,
            !r.is_removable,
    {
        DiskInfo {
            kind: String::new(),
            name: String::new(),
            file_system: String::new(),
            mount_point: String::new(),
            total_space: 0,
            available_space: 0,
            is_removable: false,
        }
    }
}

/// The text shown where a reading is not available.
pub open spec fn placeholder() -> Seq<char> {
    seq!['-', '-', '-']
}

/// An optional text reading, or `"---"` when it is absent.
pub fn fmt_text(value: &Option<String>) -> (r: &str)
    ensures
        r@ == (match value {
            Some(s) => s@,
            None => placeholder(),
        }),
{
    proof {
        reveal_strlit("---");
    }
    match value {
        Some(s) => s.as_str(),
        None => "---",
    }
}

/// A fan speed in revolutions per minute as `{}` writes it, or `"---"` when
/// the speed is not available.
pub fn fmt_rpm(rpm: Option<i32>) -> (r: String)
    ensures
        r@ == (match rpm {
            Some(v) => signed_decimal(v as int),
            None => placeholder(),
        }),
{
    proof {
        reveal_strlit("---");
    }
    let mut out = String::new();
    match rpm {
        Some(v) => push_signed_decimal(&mut out, v as i64),
        None => out.append("---"),
    }
    proof {
        assert(out@ =~= (match rpm {
            Some(v) => signed_decimal(v as int),
            None => placeholder(),
        }));
    }
    out
}

/// 2^53: below it every integer is exactly a 64-bit float.
pub open spec fn two_53() -> nat {
    9_007_199_254_740_992
}

/// The spacing of the 64-bit floats around `n`: 1 below 2^53, and doubling
/// with each further binary digit of `n`.
pub open spec fn float_grain(n: nat) -> nat
    decreases n,
{
    if n < two_53() {
        1
    } else {
        2 * float_grain(n / 2)
    }
}

/// `num / den` rounded to the nearest integer, ties to the even one.
pub open spec fn round_half_even(num: nat, den: nat) -> nat {
    let q = num / den;
    let r = num % den;
    if 2 * r > den || (2 * r == den && q % 2 == 1) {
        q + 1
    } else {
        q
    }
}

/// The value of `n as f64`: `n` rounded to the nearest float, ties to the
/// float with an even significand.
pub open spec fn as_f64(n: nat) -> nat {
    round_half_even(n, float_grain(n)) * float_grain(n)
}

/// Sizes below 2^53 bytes are held exactly by a float.
pub proof fn lemma_small_sizes_exact(n: nat)
    requires
        n < two_53(),
    ensures
        as_f64(n) == n,
{
    assert(float_grain(n) == 1);
}

/// `bytes` in units of `unit` bytes with one decimal, followed by a space and
/// `suffix`: the float value of `bytes` divided by `unit` (a power of two,
/// so the division is exact) rounded to tenths, ties to even, as `{:.1}`
/// writes a float.
pub open spec fn scaled_text(bytes: nat, unit: nat, suffix: Seq<char>) -> Seq<char> {
    let tenths = round_half_even(10 * as_f64(bytes), unit);
    decimal(tenths / 10) + seq!['.', digit_char(tenths % 10), ' '] + suffix
}

/// The human-readable size that `fmt_bytes` writes.
pub open spec fn bytes_text(bytes: nat) -> Seq<char> {
    if bytes >= 1_099_511_627_776 {
        scaled_text(bytes, 1_099_511_627_776, seq!['T', 'B'])
    } else if bytes >= 1_073_741_824 {
        scaled_text(bytes, 1_073_741_824, seq!['G', 'B'])
    } else if bytes >= 1_048_576 {
        scaled_text(bytes, 1_048_576, seq!['M', 'B'])
    } else if bytes >= 1024 {
        scaled_text(bytes, 1024, seq!['K', 'B'])
    } else {
        decimal(bytes) + seq![' ', 'B']
    }
}

/// `num / den` rounded to the nearest integer, ties to even.
fn round_half_even_exec(num: u128, den: u128) -> (r: u128)
    requires
        den > 0,
        num / den < u128::MAX,
    ensures
        r == round_half_even(num as nat, den as nat),
{
    let q = num / den;
    let rem = num % den;
    let upper = den - rem;
    if rem > upper || (rem == upper && q % 2 == 1) {
        q + 1
    } else {
        q
    }
}

/// The value that `n as f64` holds, as an integer.
fn as_f64_value(n: u64) -> (r: u128)
    ensures
        r == as_f64(n as nat),
        r <= 36_893_488_147_419_103_232,
{
    let wide = n as u128;
    let mut grain: u128 = 1;
    while wide / grain >= 9_007_199_254_740_992
        invariant
            1 <= grain <= 4096,
            wide == n,
            float_grain(n as nat) == grain * float_grain((wide / grain) as nat),
        decreases wide - grain,
    {
        proof {
            let m = (wide / grain) as nat;
            lemma_fundamental_div_mod(wide as int, grain as int);
            assert(grain * m <= wide) by (nonlinear_arith)
                requires
                    grain * m + wide % grain == wide,
                    0 <= wide % grain,
            ;
            assert(grain * two_53() <= grain * m) by (nonlinear_arith)
                requires
                    m >= two_53(),
                    grain >= 1,
            ;
            assert(grain < 2048);
            lemma_div_denominator(wide as int, grain as int, 2);
            assert(float_grain(m) == 2 * float_grain(m / 2));
            assert(grain * (2 * float_grain(m / 2)) == (grain * 2) * float_grain(m / 2))
                by (nonlinear_arith);
        }
        grain = grain * 2;
    }
    proof {
        assert(float_grain((wide / grain) as nat) == 1);
        let fg = float_grain((wide / grain) as nat);
        assert(grain * fg == grain) by (nonlinear_arith)
            requires
                fg == 1,
        ;
        assert(float_grain(n as nat) == grain);
    }
    let rounded = round_half_even_exec(wide, grain);
    proof {
        assert(rounded <= two_53()) by (nonlinear_arith)
            requires
                rounded <= wide / grain + 1,
                wide / grain < two_53(),
        ;
        assert(rounded * grain <= two_53() * 4096) by (nonlinear_arith)
            requires
                rounded <= two_53(),
                grain <= 4096,
                rounded >= 0,
        ;
        assert(as_f64(n as nat) == round_half_even(n as nat, grain as nat) * grain);
    }
    rounded * grain
}

/// Appends `bytes` in units of `unit` with one decimal, a space and `suffix`.
fn push_scaled(out: &mut String, bytes: u64, unit: u128, suffix: &str)
    requires
        unit >= 1024,
    ensures
        final(out)@ == old(out)@ + scaled_text(bytes as nat, unit as nat, suffix@),
{
    proof {
        reveal_strlit(".");
        reveal_strlit(" ");
    }
    let value = as_f64_value(bytes);
    let tenths = round_half_even_exec(value * 10, unit);
    push_decimal(out, tenths / 10);
    out.append(".");
    out.append(digit_str(tenths % 10));
    out.append(" ");
    out.append(suffix);
    proof {
        assert(final(out)@ =~= old(out)@ + scaled_text(bytes as nat, unit as nat, suffix@));
    }
}

/// A byte count as a human-readable size: `"838.9 GB"`, or `"512 B"` below
/// one kibibyte. Units are powers of 1024.
pub fn fmt_bytes(bytes: u64) -> (r: String)
    ensures
        r@ == bytes_text(bytes as nat),
{
    proof {
        reveal_strlit("TB");
        reveal_strlit("GB");
        reveal_strlit("MB");
        reveal_strlit("KB");
        reveal_strlit(" B");
    }
    let mut out = String::new();
    if bytes >= 1_099_511_627_776 {
        push_scaled(&mut out, bytes, 1_099_511_627_776, "TB");
    } else if bytes >= 1_073_741_824 {
        push_scaled(&mut out, bytes, 1_073_741_824, "GB");
    } else if bytes >= 1_048_576 {
        push_scaled(&mut out, bytes, 1_048_576, "MB");
    } else if bytes >= 1024 {
        push_scaled(&mut out, bytes, 1024, "KB");
    } else {
        push_decimal(&mut out, bytes as u128);
        out.append(" B");
    }
    proof {
        assert(out@ =~= bytes_text(bytes as nat));
    }
    out
}

} // verus!
