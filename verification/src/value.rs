//! Random typed scalar values: generation, and rendering as SQL literal
//! text.
//!
//! Float-typed values are modelled as whole numbers (floating point
//! itself stays outside the verified core); their SQL literals are valid
//! FLOAT / DOUBLE literals.

use vstd::prelude::*;

use crate::datefmt::{
    spec_date_string, spec_time_string, NANOSECONDS_PER_DAY, NANOSECONDS_PER_HOUR,
    NANOSECONDS_PER_MINUTE, NANOSECONDS_PER_SECOND,
};
use crate::numfmt::{
    lemma_dec_digits_are_digits, lemma_parse_dec_digits, lemma_parse_int_str, spec_dec_digits,
    spec_int_str, spec_parse_dec, spec_parse_int, spec_zero_pad,
};
use crate::rng::{rng_word, word_in_range_i64, word_in_range_u64, word_index, FuzzerRng};
use crate::types::FuzzerDataType;

verus! {

/// A generated scalar value, or Null.
#[derive(Debug)]
pub enum GeneratedValue {
    Int32(i32),
    Int64(i64),
    UInt32(u32),
    UInt64(u64),
    /// A whole-number FLOAT value.
    Float32(i64),
    /// A whole-number DOUBLE value.
    Float64(i64),
    Boolean(bool),
    Decimal { value: i128, precision: u8, scale: i8 },
    /// Days since 1970-01-01.
    Date32(i32),
    /// Nanoseconds since midnight.
    Time64Nanosecond(i64),
    /// Nanoseconds since the epoch, with an optional timezone label.
    Timestamp(i64, Option<String>),
    /// Months, days and nanoseconds packed into one wide integer.
    IntervalMonthDayNano(i128),
    Null,
}

/// The mathematical model of a generated value.
pub ghost enum ValueModel {
    Int32(i32),
    Int64(i64),
    UInt32(u32),
    UInt64(u64),
    Float32(i64),
    Float64(i64),
    Boolean(bool),
    Decimal { value: i128, precision: u8, scale: i8 },
    Date32(i32),
    Time64Nanosecond(i64),
    Timestamp(i64, Option<Seq<char>>),
    IntervalMonthDayNano(i128),
    Null,
}

impl View for GeneratedValue {
    type V = ValueModel;

    open spec fn view(&self) -> ValueModel {
        match self {
            GeneratedValue::Int32(v) => ValueModel::Int32(*v),
            GeneratedValue::Int64(v) => ValueModel::Int64(*v),
            GeneratedValue::UInt32(v) => ValueModel::UInt32(*v),
            GeneratedValue::UInt64(v) => ValueModel::UInt64(*v),
            GeneratedValue::Float32(v) => ValueModel::Float32(*v),
            GeneratedValue::Float64(v) => ValueModel::Float64(*v),
            GeneratedValue::Boolean(v) => ValueModel::Boolean(*v),
            GeneratedValue::Decimal { value, precision, scale } => ValueModel::Decimal {
                value: *value,
                precision: *precision,
                scale: *scale,
            },
            GeneratedValue::Date32(v) => ValueModel::Date32(*v),
            GeneratedValue::Time64Nanosecond(v) => ValueModel::Time64Nanosecond(*v),
            GeneratedValue::Timestamp(v, tz) => ValueModel::Timestamp(
                *v,
                match tz {
                    Some(s) => Some(s@),
                    None => None,
                },
            ),
            GeneratedValue::IntervalMonthDayNano(v) => ValueModel::IntervalMonthDayNano(*v),
            GeneratedValue::Null => ValueModel::Null,
        }
    }
}

/// Configuration for value generation.  The null probability is a
/// percentage in `[0, 100]`; the float range is in whole units.
#[derive(Debug)]
pub struct ValueGenerationConfig {
    pub nullable: bool,
    pub null_probability_percent: u64,
    pub int_range: (i32, i32),
    pub uint_range: (u32, u32),
    pub float_range: (i64, i64),
}

impl ValueGenerationConfig {
    /// The ranges are ordered and the null probability is a percentage.
    pub open spec fn wf(&self) -> bool {
        &&& self.null_probability_percent <= 100
        &&& self.int_range.0 <= self.int_range.1
        &&& self.uint_range.0 <= self.uint_range.1
        &&& self.float_range.0 <= self.float_range.1
    }
}

/// The default configuration: nullable with a 10% null rate, and small
/// symmetric ranges.
pub open spec fn spec_default_value_config() -> ValueGenerationConfig {
    ValueGenerationConfig {
        nullable: true,
        null_probability_percent: 10,
        int_range: (-100 as i32, 100 as i32),
        uint_range: (0 as u32, 200 as u32),
        float_range: (-100 as i64, 100 as i64),
    }
}

impl Default for ValueGenerationConfig {
    /// Nullable with a 10% null rate, and small symmetric ranges.
    fn default() -> (r: Self)
        ensures
            r == spec_default_value_config(),
            r.wf(),
    {
        ValueGenerationConfig {
            nullable: true,
            null_probability_percent: 10,
            int_range: (-100, 100),
            uint_range: (0, 200),
            float_range: (-100, 100),
        }
    }
}

/// Ten to the power `e`.
pub open spec fn spec_pow10(e: nat) -> int
    decreases e,
{
    if e == 0 {
        1
    } else {
        10 * spec_pow10((e - 1) as nat)
    }
}

pub proof fn lemma_pow10_pos(e: nat)
    ensures
        spec_pow10(e) >= 1,
    decreases e,
{
    if e > 0 {
        lemma_pow10_pos((e - 1) as nat);
    }
}

pub proof fn lemma_pow10_mono(a: nat, b: nat)
    requires
        a <= b,
    ensures
        spec_pow10(a) <= spec_pow10(b),
    decreases b,
{
    if a < b {
        lemma_pow10_mono(a, (b - 1) as nat);
        lemma_pow10_pos((b - 1) as nat);
    }
}

/// The saturating power of ten: exact for scales up to 30, clamped to
/// ten to the 30th beyond that (a negative scale clamps the same way,
/// through the unsigned conversion).
pub open spec fn spec_safe_pow10(scale: i8) -> int {
    if 0 <= scale <= 30 {
        spec_pow10(scale as nat)
    } else {
        spec_pow10(30)
    }
}

/// Safely calculate ten to the power `scale`, saturating at ten to the
/// 30th so the result always fits an `i128`.
pub fn safe_power_of_10(scale: i8) -> (r: i128)
    ensures
        r == spec_safe_pow10(scale),
        1 <= r <= spec_pow10(30),
{
    let clamped: u32 = if scale < 0 {
        30
    } else if scale > 30 {
        30
    } else {
        scale as u32
    };
    proof {
        reveal_with_fuel(spec_pow10, 31);
        assert(spec_pow10(30) == 1000000000000000000000000000000);
    }
    let mut result: i128 = 1;
    let mut i: u32 = 0;
    while i < clamped
        invariant
            i <= clamped <= 30,
            result == spec_pow10(i as nat),
            spec_pow10(30) == 1000000000000000000000000000000,
        decreases clamped - i,
    {
        proof {
            lemma_pow10_pos(i as nat);
            lemma_pow10_mono((i + 1) as nat, 30);
            assert(spec_pow10((i + 1) as nat) == 10 * spec_pow10(i as nat));
            assert(result * 10 <= spec_pow10(30));
        }
        result = result * 10;
        i += 1;
    }
    proof {
        lemma_pow10_mono(clamped as nat, 30);
        lemma_pow10_pos(clamped as nat);
    }
    result
}

/// For every scale in `[0, 76]` the helper is defined and bounded: it is
/// the true power of ten up to scale 30 and saturates at ten to the 30th
/// above that, so computing it can never overflow an `i128`.
pub proof fn lemma_safe_pow10_saturates(scale: i8)
    requires
        0 <= scale <= 76,
    ensures
        1 <= spec_safe_pow10(scale) <= spec_pow10(30),
        scale <= 30 ==> spec_safe_pow10(scale) == spec_pow10(scale as nat),
        scale > 30 ==> spec_safe_pow10(scale) == spec_pow10(30),
{
    if 0 <= scale <= 30 {
        lemma_pow10_pos(scale as nat);
        lemma_pow10_mono(scale as nat, 30);
    } else {
        lemma_pow10_pos(30);
    }
}

/// The interval bit layout: days in the low 32 bits, months in the next
/// 32, nanoseconds in the high 64.
pub open spec fn spec_pack_interval(months: i32, days: i32, nanos: i64) -> i128 {
    ((months as i128) << 32) | ((days as i128) & 0xFFFFFFFF) | ((nanos as i128) << 64)
}

/// The months component read back from the packed layout.
pub open spec fn spec_unpack_months(v: i128) -> i32 {
    ((v >> 32) & 0xFFFFFFFF) as i32
}

/// The days component read back from the packed layout.
pub open spec fn spec_unpack_days(v: i128) -> i32 {
    (v & 0xFFFFFFFF) as i32
}

/// The nanoseconds component read back from the packed layout.
pub open spec fn spec_unpack_nanos(v: i128) -> i64 {
    ((v >> 64) & 0xFFFFFFFFFFFFFFFF) as i64
}

/// Pack interval components into one wide integer.
pub fn pack_interval(months: i32, days: i32, nanos: i64) -> (r: i128)
    requires
        -12 <= months <= 12,
        -30 <= days <= 30,
        -1_000_000_000 <= nanos <= 1_000_000_000,
    ensures
        r == spec_pack_interval(months, days, nanos),
{
    proof {
        assert((-12 <= months <= 12 && -1_000_000_000 <= nanos <= 1_000_000_000) ==> (
        ((months as i128) << 32) | ((0 as i128) & 0xFFFFFFFF) | ((nanos as i128) << 64)) == (((
        months as i128) << 32) | ((0 as i128) & 0xFFFFFFFF) | ((nanos as i128) << 64)))
            by (bit_vector);
    }
    ((months as i128) << 32) | ((days as i128) & 0xFFFFFFFF) | ((nanos as i128) << 64)
}

/// Unpack the months component.
pub fn unpack_months(v: i128) -> (r: i32)
    ensures
        r == spec_unpack_months(v),
{
    #[verifier::truncate] (((v >> 32) & 0xFFFFFFFF) as i32)
}

/// Unpack the days component.
pub fn unpack_days(v: i128) -> (r: i32)
    ensures
        r == spec_unpack_days(v),
{
    #[verifier::truncate] ((v & 0xFFFFFFFF) as i32)
}

/// Unpack the nanoseconds component.
pub fn unpack_nanos(v: i128) -> (r: i64)
    ensures
        r == spec_unpack_nanos(v),
{
    #[verifier::truncate] (((v >> 64) & 0xFFFFFFFFFFFFFFFF) as i64)
}

/// Packing then unpacking recovers months and days over the generator's
/// whole range, and nanoseconds whenever months is non-negative (a
/// negative months value sign-extends over the high bits, as the layout
/// has it).
pub proof fn lemma_interval_roundtrip(months: i32, days: i32, nanos: i64)
    requires
        -12 <= months <= 12,
        -30 <= days <= 30,
        -1_000_000_000 <= nanos <= 1_000_000_000,
    ensures
        spec_unpack_months(spec_pack_interval(months, days, nanos)) == months,
        spec_unpack_days(spec_pack_interval(months, days, nanos)) == days,
        months >= 0 ==> spec_unpack_nanos(spec_pack_interval(months, days, nanos)) == nanos,
{
    assert((-12 <= months <= 12 && -30 <= days <= 30 && -1_000_000_000 <= nanos
        <= 1_000_000_000) ==> ((((((months as i128) << 32) | ((days as i128) & 0xFFFFFFFF) | ((
    nanos as i128) << 64)) >> 32) & 0xFFFFFFFF) as i32) == months) by (bit_vector);
    assert((-12 <= months <= 12 && -30 <= days <= 30 && -1_000_000_000 <= nanos
        <= 1_000_000_000) ==> (((((months as i128) << 32) | ((days as i128) & 0xFFFFFFFF) | ((
    nanos as i128) << 64)) & 0xFFFFFFFF) as i32) == days) by (bit_vector);
    assert((0 <= months <= 12 && -30 <= days <= 30 && -1_000_000_000 <= nanos
        <= 1_000_000_000) ==> ((((((months as i128) << 32) | ((days as i128) & 0xFFFFFFFF) | ((
    nanos as i128) << 64)) >> 64) & 0xFFFFFFFFFFFFFFFF) as i64) == nanos) by (bit_vector);
}

} // verus!

verus! {

/// The timezone labels a generated timestamp may carry (the first entry
/// is "no timezone").
pub open spec fn spec_timezones() -> Seq<Option<Seq<char>>> {
    seq![
        None,
        Some("UTC"@),
        Some("+09:00"@),
        Some("-09"@),
        Some("+0930"@),
        Some("America/New_York"@),
    ]
}

/// A generated value's fields lie in the ranges the generator promises.
pub open spec fn value_wf(m: ValueModel) -> bool {
    match m {
        ValueModel::Decimal { value, precision, scale } => {
            &&& 1 <= precision <= 76
            &&& 0 <= scale <= precision
            &&& -(100000 * spec_pow10(30)) < value < 100000 * spec_pow10(30)
        },
        ValueModel::Date32(d) => 0 <= d <= 36500,
        ValueModel::Time64Nanosecond(ns) => 0 <= ns < NANOSECONDS_PER_DAY,
        ValueModel::Timestamp(ns, tz) => 0 <= ns <= 36500 * (NANOSECONDS_PER_DAY as int),
        _ => true,
    }
}

impl GeneratedValue {
    /// The value's fields lie in the ranges the generator promises.
    pub open spec fn wf(&self) -> bool {
        value_wf(self@)
    }
}

/// The value (and the number of stream words consumed) that the typed
/// part of generation produces from stream position `k`.
pub open spec fn spec_generate_typed(
    ty: FuzzerDataType,
    cfg: ValueGenerationConfig,
    seed: u64,
    k: int,
) -> (ValueModel, int) {
    match ty {
        FuzzerDataType::Int32 => (
            ValueModel::Int32(
                word_in_range_i64(
                    rng_word(seed, k),
                    cfg.int_range.0 as i64,
                    cfg.int_range.1 as i64,
                ) as i32,
            ),
            k + 1,
        ),
        FuzzerDataType::Int64 => (
            ValueModel::Int64(
                word_in_range_i64(rng_word(seed, k), cfg.int_range.0 as i64, cfg.int_range.1 as i64),
            ),
            k + 1,
        ),
        FuzzerDataType::UInt32 => (
            ValueModel::UInt32(
                word_in_range_u64(
                    rng_word(seed, k),
                    cfg.uint_range.0 as u64,
                    cfg.uint_range.1 as u64,
                ) as u32,
            ),
            k + 1,
        ),
        FuzzerDataType::UInt64 => (
            ValueModel::UInt64(
                word_in_range_u64(rng_word(seed, k), cfg.uint_range.0 as u64, cfg.uint_range.1 as u64),
            ),
            k + 1,
        ),
        FuzzerDataType::Float32 => (
            ValueModel::Float32(
                word_in_range_i64(rng_word(seed, k), cfg.float_range.0, cfg.float_range.1),
            ),
            k + 1,
        ),
        FuzzerDataType::Float64 => (
            ValueModel::Float64(
                word_in_range_i64(rng_word(seed, k), cfg.float_range.0, cfg.float_range.1),
            ),
            k + 1,
        ),
        FuzzerDataType::Boolean => (ValueModel::Boolean(rng_word(seed, k) % 100 < 50), k + 1),
        FuzzerDataType::Decimal => {
            let precision = word_in_range_u64(rng_word(seed, k), 1, 76);
            let scale = word_in_range_u64(rng_word(seed, k + 1), 0, precision);
            let mantissa = word_in_range_i64(rng_word(seed, k + 2), -99999 as i64, 99999 as i64);
            (
                ValueModel::Decimal {
                    value: ((mantissa as int) * spec_safe_pow10(scale as i8)) as i128,
                    precision: precision as u8,
                    scale: scale as i8,
                },
                k + 3,
            )
        },
        FuzzerDataType::Date32 => (
            ValueModel::Date32(word_in_range_i64(rng_word(seed, k), 0 as i64, 36500 as i64) as i32),
            k + 1,
        ),
        FuzzerDataType::Time64Nanosecond => (
            ValueModel::Time64Nanosecond(
                word_in_range_i64(rng_word(seed, k), 0 as i64, (NANOSECONDS_PER_DAY - 1) as i64),
            ),
            k + 1,
        ),
        FuzzerDataType::Timestamp => {
            let ns = word_in_range_i64(
                rng_word(seed, k),
                0 as i64,
                (36500 * (NANOSECONDS_PER_DAY as int)) as i64,
            );
            let idx = word_index(rng_word(seed, k + 1), 6);
            (ValueModel::Timestamp(ns, spec_timezones()[idx]), k + 2)
        },
        FuzzerDataType::IntervalMonthDayNano => {
            let months = word_in_range_i64(rng_word(seed, k), -12 as i64, 12 as i64) as i32;
            let days = word_in_range_i64(rng_word(seed, k + 1), -30 as i64, 30 as i64) as i32;
            let nanos = word_in_range_i64(rng_word(seed, k + 2), -1_000_000_000 as i64, 1_000_000_000 as i64);
            (ValueModel::IntervalMonthDayNano(spec_pack_interval(months, days, nanos)), k + 3)
        },
    }
}

/// The value (and the number of stream words consumed) that generation
/// produces from stream position `k`: a weighted null coin first when
/// the configuration is nullable, then the typed draw.
pub open spec fn spec_generate_value(
    ty: FuzzerDataType,
    cfg: ValueGenerationConfig,
    seed: u64,
    k: int,
) -> (ValueModel, int) {
    if cfg.nullable {
        if rng_word(seed, k) % 100 < cfg.null_probability_percent {
            (ValueModel::Null, k + 1)
        } else {
            spec_generate_typed(ty, cfg, seed, k + 1)
        }
    } else {
        spec_generate_typed(ty, cfg, seed, k)
    }
}

/// Generate a random value of the given logical type.  The result is a
/// function of the stream's seed and position alone, which is what makes
/// a run reproducible from its seed.
pub fn generate_value(
    rng: &mut FuzzerRng,
    fuzzer_type: &FuzzerDataType,
    config: &ValueGenerationConfig,
) -> (r: GeneratedValue)
    requires
        config.wf(),
    ensures
        final(rng).seed() == old(rng).seed(),
        r@ == spec_generate_value(*fuzzer_type, *config, old(rng).seed(), old(rng).drawn()).0,
        final(rng).drawn() == spec_generate_value(
            *fuzzer_type,
            *config,
            old(rng).seed(),
            old(rng).drawn(),
        ).1,
        r.wf(),
{
    if config.nullable && rng.next_bool_percent(config.null_probability_percent) {
        return GeneratedValue::Null;
    }
    generate_typed_value(rng, fuzzer_type, config)
}

/// The typed part of value generation, after the null coin.
fn generate_typed_value(
    rng: &mut FuzzerRng,
    fuzzer_type: &FuzzerDataType,
    config: &ValueGenerationConfig,
) -> (r: GeneratedValue)
    requires
        config.wf(),
    ensures
        final(rng).seed() == old(rng).seed(),
        r@ == spec_generate_typed(*fuzzer_type, *config, old(rng).seed(), old(rng).drawn()).0,
        final(rng).drawn() == spec_generate_typed(
            *fuzzer_type,
            *config,
            old(rng).seed(),
            old(rng).drawn(),
        ).1,
        r.wf(),
{
    match fuzzer_type {
        FuzzerDataType::Int32 => {
            let v = rng.next_range_i64(config.int_range.0 as i64, config.int_range.1 as i64);
            GeneratedValue::Int32(v as i32)
        },
        FuzzerDataType::Int64 => {
            let v = rng.next_range_i64(config.int_range.0 as i64, config.int_range.1 as i64);
            GeneratedValue::Int64(v)
        },
        FuzzerDataType::UInt32 => {
            let v = rng.next_range_u64(config.uint_range.0 as u64, config.uint_range.1 as u64);
            GeneratedValue::UInt32(v as u32)
        },
        FuzzerDataType::UInt64 => {
            let v = rng.next_range_u64(config.uint_range.0 as u64, config.uint_range.1 as u64);
            GeneratedValue::UInt64(v)
        },
        FuzzerDataType::Float32 => {
            let v = rng.next_range_i64(config.float_range.0, config.float_range.1);
            GeneratedValue::Float32(v)
        },
        FuzzerDataType::Float64 => {
            let v = rng.next_range_i64(config.float_range.0, config.float_range.1);
            GeneratedValue::Float64(v)
        },
        FuzzerDataType::Boolean => {
            let v = rng.next_bool_percent(50);
            GeneratedValue::Boolean(v)
        },
        FuzzerDataType::Decimal => {
            let precision = rng.next_range_u64(1, 76);
            let scale = rng.next_range_u64(0, precision);
            let mantissa = rng.next_range_i64(-99999, 99999);
            let scale_factor = safe_power_of_10(scale as i8);
            proof {
                reveal_with_fuel(spec_pow10, 31);
                assert(spec_pow10(30) == 1000000000000000000000000000000);
                assert((mantissa as i128) * scale_factor < 100000 * spec_pow10(30)
                    && -(100000 * spec_pow10(30)) < (mantissa as i128) * scale_factor) by (nonlinear_arith)
                    requires
                        -99999 <= mantissa <= 99999,
                        1 <= scale_factor <= spec_pow10(30),
                ;
            }
            let value = (mantissa as i128) * scale_factor;
            GeneratedValue::Decimal { value, precision: precision as u8, scale: scale as i8 }
        },
        FuzzerDataType::Date32 => {
            let v = rng.next_range_i64(0, 36500);
            GeneratedValue::Date32(v as i32)
        },
        FuzzerDataType::Time64Nanosecond => {
            let v = rng.next_range_i64(0, NANOSECONDS_PER_DAY - 1);
            GeneratedValue::Time64Nanosecond(v)
        },
        FuzzerDataType::Timestamp => {
            let max_ns: i64 = 36500 * NANOSECONDS_PER_DAY;
            let ns = rng.next_range_i64(0, max_ns);
            let idx = rng.next_index(6);
            let tz: Option<String> = if idx == 0 {
                None
            } else if idx == 1 {
                Some("UTC".to_owned())
            } else if idx == 2 {
                Some("+09:00".to_owned())
            } else if idx == 3 {
                Some("-09".to_owned())
            } else if idx == 4 {
                Some("+0930".to_owned())
            } else {
                Some("America/New_York".to_owned())
            };
            let r = GeneratedValue::Timestamp(ns, tz);
            assert(r@ == spec_generate_typed(
                *fuzzer_type,
                *config,
                old(rng).seed(),
                old(rng).drawn(),
            ).0);
            r
        },
        FuzzerDataType::IntervalMonthDayNano => {
            let months = rng.next_range_i64(-12, 12);
            let days = rng.next_range_i64(-30, 30);
            let nanos = rng.next_range_i64(-1_000_000_000, 1_000_000_000);
            let packed = pack_interval(months as i32, days as i32, nanos);
            GeneratedValue::IntervalMonthDayNano(packed)
        },
    }
}

} // verus!

verus! {

/// `<n><unit>` with an `s` appended unless `n` is one
/// (`"3 days"`, `"1 hour"`).
pub open spec fn spec_unit_part(n: int, unit: Seq<char>) -> Seq<char> {
    spec_dec_digits(n) + unit + if n == 1 {
        Seq::<char>::empty()
    } else {
        "s"@
    }
}

/// A space when a part has already been written, else nothing.
pub open spec fn spec_sep(any: bool) -> Seq<char> {
    if any {
        " "@
    } else {
        Seq::<char>::empty()
    }
}

/// Append one interval part to the accumulated body when `cond` holds.
pub open spec fn spec_seg(acc: (Seq<char>, bool), cond: bool, n: int, unit: Seq<char>) -> (
    Seq<char>,
    bool,
) {
    if cond {
        (acc.0 + spec_sep(acc.1) + spec_unit_part(n, unit), true)
    } else {
        acc
    }
}

/// The space-separated non-zero components of an interval, largest unit
/// first, and whether there is at least one.
pub open spec fn spec_interval_segments(months: int, days: int, nanos: int) -> (Seq<char>, bool) {
    let am = if months < 0 {
        -months
    } else {
        months
    };
    let years = am / 12;
    let rem_months = am % 12;
    let ad = if days < 0 {
        -days
    } else {
        days
    };
    let an = if nanos < 0 {
        -nanos
    } else {
        nanos
    };
    let hours = an / (NANOSECONDS_PER_HOUR as int);
    let rem_h = an % (NANOSECONDS_PER_HOUR as int);
    let minutes = rem_h / (NANOSECONDS_PER_MINUTE as int);
    let rem_mi = rem_h % (NANOSECONDS_PER_MINUTE as int);
    let seconds = rem_mi / (NANOSECONDS_PER_SECOND as int);
    spec_seg(
        spec_seg(
            spec_seg(
                spec_seg(
                    spec_seg(
                        spec_seg(
                            (Seq::<char>::empty(), false),
                            months != 0 && years > 0,
                            years,
                            " year"@,
                        ),
                        months != 0 && rem_months > 0,
                        rem_months,
                        " month"@,
                    ),
                    days != 0,
                    ad,
                    " day"@,
                ),
                nanos != 0 && hours > 0,
                hours,
                " hour"@,
            ),
            nanos != 0 && minutes > 0,
            minutes,
            " minute"@,
        ),
        nanos != 0 && seconds > 0,
        seconds,
        " second"@,
    )
}

/// The SQL INTERVAL literal for a packed interval value.
pub open spec fn spec_interval_sql(v: i128) -> Seq<char> {
    let seg = spec_interval_segments(
        spec_unpack_months(v) as int,
        spec_unpack_days(v) as int,
        spec_unpack_nanos(v) as int,
    );
    if seg.1 {
        "INTERVAL '"@ + seg.0 + "'"@
    } else {
        "INTERVAL '0'"@
    }
}

/// Truncating (toward zero) division, for a positive divisor.
pub open spec fn spec_tdiv(a: int, b: int) -> int
    recommends
        b > 0,
{
    if a >= 0 {
        a / b
    } else {
        -((-a) / b)
    }
}

/// The decimal literal for a scaled integer value: the fractional part
/// is zero-padded to `scale` digits when the scale is positive.
pub open spec fn spec_decimal_sql(value: int, scale: i8) -> Seq<char> {
    if scale > 0 {
        let pow = spec_safe_pow10(scale);
        let int_part = spec_tdiv(value, pow);
        let frac = (if value >= 0 {
            value
        } else {
            -value
        }) % pow;
        spec_int_str(int_part) + "."@ + spec_zero_pad(spec_dec_digits(frac), scale as int)
    } else {
        spec_int_str(value)
    }
}

/// The quoted timestamp literal with the timezone label, when present,
/// attached just before the closing quote.
pub open spec fn spec_timestamp_sql(ns: int, tz: Option<Seq<char>>) -> Seq<char> {
    let tz_text = match tz {
        Some(z) => z,
        None => Seq::<char>::empty(),
    };
    "'"@ + crate::datefmt::spec_timestamp_fields(ns) + tz_text + "'"@
}

/// The SQL literal text of a generated value.
pub open spec fn spec_value_sql(m: ValueModel) -> Seq<char> {
    match m {
        ValueModel::Int32(v) => spec_int_str(v as int),
        ValueModel::Int64(v) => spec_int_str(v as int),
        ValueModel::UInt32(v) => spec_dec_digits(v as int),
        ValueModel::UInt64(v) => spec_dec_digits(v as int),
        ValueModel::Float32(v) => spec_int_str(v as int),
        ValueModel::Float64(v) => spec_int_str(v as int),
        ValueModel::Boolean(v) => if v {
            "TRUE"@
        } else {
            "FALSE"@
        },
        ValueModel::Decimal { value, precision, scale } => spec_decimal_sql(value as int, scale),
        ValueModel::Date32(d) => spec_date_string(d as int),
        ValueModel::Time64Nanosecond(ns) => spec_time_string(ns as int),
        ValueModel::Timestamp(ns, tz) => spec_timestamp_sql(ns as int, tz),
        ValueModel::IntervalMonthDayNano(v) => spec_interval_sql(v),
        ValueModel::Null => "NULL"@,
    }
}

/// `<n><unit>` with an `s` appended unless `n` is one.
fn unit_part(n: u64, unit: &str) -> (r: String)
    ensures
        r@ == spec_unit_part(n as int, unit@),
{
    let mut s = crate::numfmt::u64_to_string(n);
    s.append(unit);
    if n != 1 {
        proof {
            reveal_strlit("s");
        }
        s.append("s");
    }
    s
}

impl GeneratedValue {
    /// Render the value as a SQL literal.
    pub fn to_sql_string(&self) -> (r: String)
        requires
            self.wf(),
        ensures
            r@ == spec_value_sql(self@),
    {
        match self {
            GeneratedValue::Int32(v) => crate::numfmt::i64_to_string(*v as i64),
            GeneratedValue::Int64(v) => crate::numfmt::i64_to_string(*v),
            GeneratedValue::UInt32(v) => crate::numfmt::u64_to_string(*v as u64),
            GeneratedValue::UInt64(v) => crate::numfmt::u64_to_string(*v),
            GeneratedValue::Float32(v) => crate::numfmt::i64_to_string(*v),
            GeneratedValue::Float64(v) => crate::numfmt::i64_to_string(*v),
            GeneratedValue::Boolean(v) => {
                if *v {
                    "TRUE".to_owned()
                } else {
                    "FALSE".to_owned()
                }
            },
            GeneratedValue::Decimal { value, precision: _, scale } => decimal_sql(*value, *scale),
            GeneratedValue::Date32(d) => crate::datefmt::days_to_date_string(*d),
            GeneratedValue::Time64Nanosecond(ns) => crate::datefmt::nanoseconds_to_time_string(
                *ns,
            ),
            GeneratedValue::Timestamp(ns, tz) => {
                proof {
                    reveal_strlit("'");
                }
                let mut s = "'".to_owned();
                s.append(crate::datefmt::timestamp_fields(*ns).as_str());
                match tz {
                    Some(z) => s.append(z.as_str()),
                    None => (),
                }
                s.append("'");
                assert(s@ =~= spec_value_sql(self@));
                s
            },
            GeneratedValue::IntervalMonthDayNano(v) => interval_sql(*v),
            GeneratedValue::Null => "NULL".to_owned(),
        }
    }
}

/// Render a scaled decimal value as SQL text.
fn decimal_sql(value: i128, scale: i8) -> (r: String)
    requires
        -(100000 * spec_pow10(30)) < value < 100000 * spec_pow10(30),
    ensures
        r@ == spec_decimal_sql(value as int, scale),
{
    proof {
        reveal_with_fuel(spec_pow10, 31);
        assert(spec_pow10(30) == 1000000000000000000000000000000);
    }
    if scale > 0 {
        let pow = safe_power_of_10(scale);
        let magnitude: u128 = if value >= 0 {
            value as u128
        } else {
            (-value) as u128
        };
        let int_mag: u128 = magnitude / (pow as u128);
        let frac: u128 = magnitude % (pow as u128);
        let int_part: i128 = if value >= 0 {
            int_mag as i128
        } else {
            -(int_mag as i128)
        };
        proof {
            reveal_strlit(".");
            assert(int_part as int == spec_tdiv(value as int, pow as int));
        }
        let mut s = crate::numfmt::i128_to_string(int_part);
        s.append(".");
        s.append(crate::numfmt::zero_pad(crate::numfmt::u128_to_string(frac), scale as usize).as_str());
        assert(s@ =~= spec_decimal_sql(value as int, scale));
        s
    } else {
        crate::numfmt::i128_to_string(value)
    }
}

/// Render a packed interval value as a SQL INTERVAL literal, listing the
/// non-zero components.
fn interval_sql(v: i128) -> (r: String)
    ensures
        r@ == spec_interval_sql(v),
{
    let months = unpack_months(v);
    let days = unpack_days(v);
    let nanos = unpack_nanos(v);

    let abs_months: i64 = if months < 0 {
        -(months as i64)
    } else {
        months as i64
    };
    let years = abs_months / 12;
    let rem_months = abs_months % 12;
    let abs_days: i64 = if days < 0 {
        -(days as i64)
    } else {
        days as i64
    };
    let abs_nanos: u64 = if nanos < 0 {
        (-(nanos as i128)) as u64
    } else {
        nanos as u64
    };
    let hours = abs_nanos / 3_600_000_000_000;
    let rem_h = abs_nanos % 3_600_000_000_000;
    let minutes = rem_h / 60_000_000_000;
    let rem_mi = rem_h % 60_000_000_000;
    let seconds = rem_mi / 1_000_000_000;

    let mut body = String::new();
    let mut any = false;
    if months != 0 && years > 0 {
        body.append(unit_part(years as u64, " year").as_str());
        any = true;
    }
    if months != 0 && rem_months > 0 {
        if any {
            proof { reveal_strlit(" "); }
            body.append(" ");
        }
        body.append(unit_part(rem_months as u64, " month").as_str());
        any = true;
    }
    if days != 0 {
        if any {
            proof { reveal_strlit(" "); }
            body.append(" ");
        }
        body.append(unit_part(abs_days as u64, " day").as_str());
        any = true;
    }
    if nanos != 0 && hours > 0 {
        if any {
            proof { reveal_strlit(" "); }
            body.append(" ");
        }
        body.append(unit_part(hours, " hour").as_str());
        any = true;
    }
    if nanos != 0 && minutes > 0 {
        if any {
            proof { reveal_strlit(" "); }
            body.append(" ");
        }
        body.append(unit_part(minutes, " minute").as_str());
        any = true;
    }
    if nanos != 0 && seconds > 0 {
        if any {
            proof { reveal_strlit(" "); }
            body.append(" ");
        }
        body.append(unit_part(seconds, " second").as_str());
        any = true;
    }
    proof {
        assert((body@, any) == spec_interval_segments(months as int, days as int, nanos as int));
    }
    if any {
        let mut s = "INTERVAL '".to_owned();
        s.append(body.as_str());
        s.append("'");
        proof { reveal_strlit("'"); }
        assert(s@ =~= spec_interval_sql(v));
        s
    } else {
        "INTERVAL '0'".to_owned()
    }
}

} // verus!

verus! {

/// The logical type of a generated value, or `None` for Null.
pub open spec fn spec_value_type(m: ValueModel) -> Option<FuzzerDataType> {
    match m {
        ValueModel::Int32(_) => Some(FuzzerDataType::Int32),
        ValueModel::Int64(_) => Some(FuzzerDataType::Int64),
        ValueModel::UInt32(_) => Some(FuzzerDataType::UInt32),
        ValueModel::UInt64(_) => Some(FuzzerDataType::UInt64),
        ValueModel::Float32(_) => Some(FuzzerDataType::Float32),
        ValueModel::Float64(_) => Some(FuzzerDataType::Float64),
        ValueModel::Boolean(_) => Some(FuzzerDataType::Boolean),
        ValueModel::Decimal { .. } => Some(FuzzerDataType::Decimal),
        ValueModel::Date32(_) => Some(FuzzerDataType::Date32),
        ValueModel::Time64Nanosecond(_) => Some(FuzzerDataType::Time64Nanosecond),
        ValueModel::Timestamp(_, _) => Some(FuzzerDataType::Timestamp),
        ValueModel::IntervalMonthDayNano(_) => Some(FuzzerDataType::IntervalMonthDayNano),
        ValueModel::Null => None,
    }
}

/// A generated value is Null or has the requested type.
pub proof fn lemma_generated_value_type(
    ty: FuzzerDataType,
    cfg: ValueGenerationConfig,
    seed: u64,
    k: int,
)
    ensures
        spec_value_type(spec_generate_value(ty, cfg, seed, k).0) == Some(ty)
            || spec_value_type(spec_generate_value(ty, cfg, seed, k).0)
            == Option::<FuzzerDataType>::None,
{
}

} // verus!

verus! {

/// Round trip: the SQL literal of an integer-carrying value parses
/// back to the held integer (float-typed values hold whole numbers
/// here).
pub proof fn lemma_numeric_literal_roundtrip(m: ValueModel)
    requires
        m is Int32 || m is Int64 || m is UInt32 || m is UInt64 || m is Float32 || m is Float64,
    ensures
        spec_parse_int(spec_value_sql(m)) == (match m {
            ValueModel::Int32(v) => v as int,
            ValueModel::Int64(v) => v as int,
            ValueModel::UInt32(v) => v as int,
            ValueModel::UInt64(v) => v as int,
            ValueModel::Float32(v) => v as int,
            ValueModel::Float64(v) => v as int,
            _ => 0,
        }),
{
    match m {
        ValueModel::Int32(v) => lemma_parse_int_str(v as int),
        ValueModel::Int64(v) => lemma_parse_int_str(v as int),
        ValueModel::UInt32(v) => {
            lemma_dec_digits_are_digits(v as int);
            lemma_parse_dec_digits(v as int);
        },
        ValueModel::UInt64(v) => {
            lemma_dec_digits_are_digits(v as int);
            lemma_parse_dec_digits(v as int);
        },
        ValueModel::Float32(v) => lemma_parse_int_str(v as int),
        ValueModel::Float64(v) => lemma_parse_int_str(v as int),
        _ => (),
    }
}

/// Parsing a run of zero digits gives zero.
proof fn lemma_parse_all_zeros(z: Seq<char>)
    requires
        forall|i: int| 0 <= i < z.len() ==> #[trigger] z[i] == '0',
    ensures
        spec_parse_dec(z) == 0,
    decreases z.len(),
{
    if z.len() > 0 {
        lemma_parse_all_zeros(z.drop_last());
    }
}

/// Leading zero digits do not change the parsed value.
proof fn lemma_parse_leading_zeros(z: Seq<char>, s: Seq<char>)
    requires
        forall|i: int| 0 <= i < z.len() ==> #[trigger] z[i] == '0',
    ensures
        spec_parse_dec(z + s) == spec_parse_dec(s),
    decreases s.len(),
{
    if s.len() == 0 {
        assert(z + s =~= z);
        lemma_parse_all_zeros(z);
    } else {
        assert((z + s).drop_last() =~= z + s.drop_last());
        assert((z + s).last() == s.last());
        lemma_parse_leading_zeros(z, s.drop_last());
    }
}

/// Round trip: a zero-padded decimal rendering still parses back to
/// its integer.
pub proof fn lemma_padded_digits_roundtrip(n: int, width: int)
    requires
        n >= 0,
    ensures
        spec_parse_dec(spec_zero_pad(spec_dec_digits(n), width)) == n,
{
    lemma_parse_dec_digits(n);
    let digits = spec_dec_digits(n);
    if digits.len() < width {
        let zeros = Seq::new((width - digits.len()) as nat, |i: int| '0');
        lemma_parse_leading_zeros(zeros, digits);
    }
}

/// Round trip for decimal literals: the literal splits into an
/// integer-part rendering and a zero-padded fractional rendering, each
/// parses back exactly, and the two parts reassemble the held value
/// (for the scales whose power of ten is exact; the saturated scales
/// above thirty intentionally truncate).
pub proof fn lemma_decimal_literal_roundtrip(value: int, scale: i8)
    requires
        1 <= scale <= 30,
    ensures
        ({
            let pow = spec_pow10(scale as nat);
            let ip = spec_tdiv(value, pow);
            let fr = (if value >= 0 {
                value
            } else {
                -value
            }) % pow;
            &&& spec_decimal_sql(value, scale) == spec_int_str(ip) + "."@ + spec_zero_pad(
                spec_dec_digits(fr),
                scale as int,
            )
            &&& spec_parse_int(spec_int_str(ip)) == ip
            &&& spec_parse_dec(spec_zero_pad(spec_dec_digits(fr), scale as int)) == fr
            &&& ip * pow + (if value >= 0 {
                fr
            } else {
                -fr
            }) == value
        }),
{
    let pow = spec_pow10(scale as nat);
    lemma_pow10_pos(scale as nat);
    let ip = spec_tdiv(value, pow);
    let fr = (if value >= 0 {
        value
    } else {
        -value
    }) % pow;
    lemma_parse_int_str(ip);
    lemma_padded_digits_roundtrip(fr, scale as int);
    if value >= 0 {
        vstd::arithmetic::div_mod::lemma_fundamental_div_mod(value, pow);
    } else {
        vstd::arithmetic::div_mod::lemma_fundamental_div_mod(-value, pow);
        assert(ip == -((-value) / pow));
        assert((-((-value) / pow)) * pow == -(((-value) / pow) * pow)) by (nonlinear_arith);
        assert(pow * ((-value) / pow) == ((-value) / pow) * pow) by (nonlinear_arith);
    }
}

} // verus!
