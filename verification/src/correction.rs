//! The empirical constants of the estimate: the constant of the harmonic
//! mean, the thresholds below which linear counting is preferred, and the
//! tables from which the bias of a raw estimate is looked up.
//!
//! The published constants are decimal fractions. They are held here as whole
//! numbers of a fixed unit, so that every one of them is exact.

use crate::error::HllppError;
use vstd::arithmetic::power2::*;
use vstd::bits::*;
use vstd::prelude::*;

verus! {

/// A non-negative fraction.
#[derive(Clone, Copy, Debug, PartialEq, Eq, Structural)]
pub struct Fraction {
    pub numerator: u128,
    pub denominator: u128,
}

/// The constant `k(m)` of the harmonic mean for `m` buckets, as a numerator
/// and a denominator: `0.673`, `0.697` and `0.709` for 16, 32 and 64 buckets,
/// and otherwise `0.7213 / (1 + 1.079 / m)`, which is
/// `7213 m / (10 (1000 m + 1079))`.
pub open spec fn harmonic_constant(num_buckets: nat) -> (nat, nat) {
    if num_buckets == 16 {
        (673, 1000)
    } else if num_buckets == 32 {
        (697, 1000)
    } else if num_buckets == 64 {
        (709, 1000)
    } else {
        (7213 * num_buckets, 10 * (1000 * num_buckets + 1079))
    }
}

/// The constant `k(m)` by which `m^2` is multiplied to give the numerator of
/// the raw estimate, exactly.
pub fn compute_bias_correction_value(num_buckets: u64) -> (constant: Fraction)
    ensures
        constant.numerator == harmonic_constant(num_buckets as nat).0,
        constant.denominator == harmonic_constant(num_buckets as nat).1,
        constant.denominator > 0,
{
    if num_buckets == 16 {
        Fraction { numerator: 673, denominator: 1000 }
    } else if num_buckets == 32 {
        Fraction { numerator: 697, denominator: 1000 }
    } else if num_buckets == 64 {
        Fraction { numerator: 709, denominator: 1000 }
    } else {
        let buckets = num_buckets as u128;
        Fraction { numerator: 7213 * buckets, denominator: 10 * (1000 * buckets + 1079) }
    }
}

/// The linear-counting estimate up to which it is preferred to the corrected
/// raw estimate, by precision. Precisions without a published threshold get
/// a large one.
pub open spec fn linear_counting_threshold(precision: nat) -> nat {
    if precision == 4 {
        10
    } else if precision == 5 {
        20
    } else if precision == 6 {
        40
    } else if precision == 7 {
        80
    } else if precision == 8 {
        220
    } else if precision == 9 {
        400
    } else if precision == 10 {
        900
    } else if precision == 11 {
        1800
    } else if precision == 12 {
        3100
    } else if precision == 13 {
        6500
    } else if precision == 14 {
        11500
    } else if precision == 15 {
        20000
    } else if precision == 16 {
        50000
    } else if precision == 17 {
        120000
    } else if precision == 18 {
        350000
    } else {
        500000
    }
}

/// The threshold of linear counting for a precision.
pub fn threashold(precision: usize) -> (threshold: u64)
    ensures
        threshold == linear_counting_threshold(precision as nat),
{
    match precision {
        4 => 10,
        5 => 20,
        6 => 40,
        7 => 80,
        8 => 220,
        9 => 400,
        10 => 900,
        11 => 1800,
        12 => 3100,
        13 => 6500,
        14 => 11500,
        15 => 20000,
        16 => 50000,
        17 => 120000,
        18 => 350000,
        _ => 500000,
    }
}

/// Number of entries of a correction table.
pub const TABLE_LEN: usize = 201;

/// The only precision for which correction tables are held.
pub const TABLE_PRECISION: usize = 14;

/// A raw estimate is given in units of `1 / RAW_ESTIMATE_SCALE`.
pub const RAW_ESTIMATE_SCALE: u64 = 10_000;

/// A tabulated bias is held in units of `1 / BIAS_TABLE_SCALE`.
pub const BIAS_TABLE_SCALE: u64 = 100_000_000_000_000;

/// An estimated bias is returned in units of `1 / BIAS_SCALE`, half the unit
/// of the table, so that half a difference of two entries is a whole number.
pub const BIAS_SCALE: u64 = 200_000_000_000_000;

/// Raw estimates at which the bias was measured for precision 14, ascending,
/// in units of `1 / RAW_ESTIMATE_SCALE`.
pub const RAW_ESTIMATE_DATA_14: [u64; 201] = [
    118_174_750, 120_150_046, 122_153_792, 124_177_504, 126_231_814, 128_300_086,
    130_400_072, 132_525_030, 134_661_780, 136_832_738, 139_020_344, 141_239_798,
    143_473_940, 145_737_784, 148_026_894, 150_336_824, 152_669_134, 155_028_624,
    157_414_944, 159_807_956, 162_238_916, 164_686_316, 167_157_330, 169_655_726,
    172_172_040, 174_706_660, 177_278_516, 179_867_886, 182_476_902, 185_109_632,
    187_753_040, 190_447_486, 193_144_408, 195_872_020, 198_622_576, 201_359_240,
    204_170_324, 206_979_788, 209_796_112, 212_650_274, 215_507_230, 218_416_906,
    221_321_620, 224_281_406, 227_221_270, 230_205_606, 233_197_394, 236_204_014,
    239_252_728, 242_269_224, 245_355_810, 248_455_050, 251_559_618, 254_703_828,
    257_859_702, 261_037_764, 264_204_132, 267_420_186, 270_628_852, 273_884_150,
    277_146_024, 280_422_960, 283_654_494, 287_011_526, 290_318_008, 293_642_156,
    297_044_970, 300_371_458, 303_801_110, 307_238_168, 310_595_114, 314_049_498,
    317_516_752, 320_952_686, 324_447_792, 327_947_670, 331_452_040, 334_984_226,
    338_476_502, 342_090_060, 345_608_490, 349_194_838, 352_749_778, 356_351_322,
    359_963_266, 363_591_394, 367_228_266, 370_828_516, 374_477_354, 378_159_606,
    381_910_692, 385_594_106, 389_248_112, 392_946_726, 396_639_730, 400_422_610,
    404_162_036, 407_792_036, 411_616_436, 415_409_014, 419_211_998, 422_947_698,
    426_785_264, 430_613_464, 434_323_750, 438_184_320, 441_986_598, 445_830_138,
    449_704_794, 453_539_240, 457_298_580, 461_182_224, 465_115_724, 469_007_386,
    472_806_964, 476_681_472, 480_556_796, 484_469_436, 488_387_146, 492_177_296,
    496_137_796, 500_107_508, 504_100_208, 507_937_886, 511_902_456, 515_831_882,
    519_710_796, 523_765_338, 527_633_190, 531_655_534, 535_565_594, 539_482_702,
    543_463_520, 547_487_914, 551_385_770, 555_434_824, 559_411_748, 563_337_746,
    567_451_552, 571_427_944, 575_452_236, 579_359_956, 583_485_268, 587_375_474,
    591_585_962, 595_426_896, 599_588_004, 603_493_788, 607_550_212, 611_476_144,
    615_481_940, 619_460_696, 623_486_042, 627_636_030, 631_627_810, 635_606_350,
    639_743_482, 643_664_908, 647_715_876, 651_767_346, 655_973_916, 659_959_150,
    663_940_384, 668_229_396, 672_036_336, 676_122_032, 680_190_078, 684_200_388,
    688_212_200, 692_358_388, 696_400_724, 700_551_550, 704_663_570, 708_634_266,
    712_762_482, 716_770_306, 720_802_006, 724_930_214, 728_935_952, 733_145_856,
    737_149_852, 741_253_022, 745_212_122, 749_336_814, 753_415_904, 757_430_244,
    761_660_278, 765_721_322, 769_731_028, 773_816_284, 778_006_092, 781_893_280,
    786_070_962, 790_122_508, 794_078_358, 798_257_250, 802_387_010, 806_468_910,
    810_356_436, 814_600_448, 818_763_884,
];

/// The bias measured at each raw estimate of `RAW_ESTIMATE_DATA_14`, in units
/// of `1 / BIAS_TABLE_SCALE`.
pub const BIAS_DATA_14: [i64; 201] = [
    1_181_647_500_000_000_000, 1_160_500_460_000_000_000, 1_139_537_920_000_000_000, 1_118_875_040_000_000_000,
    1_098_418_140_000_000_000, 1_078_200_860_000_000_000, 1_058_200_720_000_000_000, 1_038_450_300_000_000_000,
    1_018_917_800_000_000_000, 999_627_380_000_000_000, 980_603_440_000_000_000, 961_797_980_000_000_000,
    943_139_400_000_000_000, 924_877_840_000_000_000, 906_768_940_000_000_000, 888_968_240_000_000_000,
    871_291_340_000_000_000, 853_886_240_000_000_000, 836_849_440_000_000_000, 819_779_560_000_000_000,
    803_189_160_000_000_000, 786_663_160_000_000_000, 770_373_300_000_000_000, 754_457_260_000_000_000,
    738_620_400_000_000_000, 723_066_600_000_000_000, 707_785_160_000_000_000, 692_678_860_000_000_000,
    677_869_020_000_000_000, 663_196_320_000_000_000, 648_730_400_000_000_000, 634_674_860_000_000_000,
    620_644_080_000_000_000, 607_020_200_000_000_000, 593_525_760_000_000_000, 579_992_400_000_000_000,
    567_103_240_000_000_000, 554_197_880_000_000_000, 541_461_120_000_000_000, 529_002_740_000_000_000,
    516_672_300_000_000_000, 504_769_060_000_000_000, 492_916_200_000_000_000, 481_514_060_000_000_000,
    469_912_700_000_000_000, 458_856_060_000_000_000, 447_773_940_000_000_000, 436_940_140_000_000_000,
    426_427_280_000_000_000, 415_592_240_000_000_000, 405_558_100_000_000_000, 395_550_500_000_000_000,
    385_696_180_000_000_000, 376_138_280_000_000_000, 366_697_020_000_000_000, 357_577_640_000_000_000,
    348_241_320_000_000_000, 339_501_860_000_000_000, 330_588_520_000_000_000, 322_141_500_000_000_000,
    313_860_240_000_000_000, 305_629_600_000_000_000, 297_044_940_000_000_000, 289_615_260_000_000_000,
    281_680_080_000_000_000, 274_021_560_000_000_000, 267_049_700_000_000_000, 259_414_580_000_000_000,
    252_711_100_000_000_000, 246_081_680_000_000_000, 238_751_140_000_000_000, 232_294_980_000_000_000,
    226_067_520_000_000_000, 219_426_860_000_000_000, 213_377_920_000_000_000, 207_476_700_000_000_000,
    201_520_400_000_000_000, 195_942_260_000_000_000, 189_865_020_000_000_000, 185_000_600_000_000_000,
    179_284_900_000_000_000, 174_148_380_000_000_000, 168_797_780_000_000_000, 163_813_220_000_000_000,
    158_932_660_000_000_000, 154_313_940_000_000_000, 149_682_660_000_000_000, 144_785_160_000_000_000,
    140_273_540_000_000_000, 136_196_060_000_000_000, 132_706_920_000_000_000, 128_541_060_000_000_000,
    124_181_120_000_000_000, 120_167_260_000_000_000, 116_197_300_000_000_000, 113_026_100_000_000_000,
    109_420_360_000_000_000, 104_820_360_000_000_000, 102_064_360_000_000_000, 99_090_140_000_000_200,
    96_119_980_000_000_200, 92_476_980_000_000_200, 89_952_640_000_000_200, 87_234_640_000_000_200,
    83_437_500_000_000_000, 81_043_200_000_000_100, 78_065_980_000_000_100, 75_601_380_000_000_100,
    73_347_939_999_999_700, 70_792_399_999_999_900, 67_385_800_000_000_000, 65_222_239_999_999_900,
    63_657_239_999_999_700, 61_573_859_999_999_700, 58_669_640_000_000_100, 56_414_719_999_999_900,
    54_167_960_000_000_300, 52_394_359_999_999_900, 50_571_459_999_999_900, 47_572_959_999_999_900,
    46_177_960_000_000_200, 44_975_080_000_000_200, 43_902_079_999_999_800, 41_278_860_000_000_000,
    40_024_560_000_000_200, 38_318_819_999_999_700, 36_207_959_999_999_700, 35_753_379_999_999_700,
    33_431_900_000_000_300, 32_755_339_999_999_700, 30_855_939_999_999_800, 29_127_019_999_999_900,
    27_935_199_999_999_900, 27_179_140_000_000_200, 25_257_699_999_999_700, 24_748_240_000_000_100,
    23_617_480_000_000_100, 21_877_459_999_999_700, 22_015_520_000_000_100, 20_879_439_999_999_900,
    20_122_359_999_999_800, 18_299_560_000_000_200, 18_552_680_000_000_000, 16_454_740_000_000_300,
    17_659_620_000_000_000, 15_068_959_999_999_800, 15_780_040_000_000_000, 13_837_879_999_999_900,
    13_402_120_000_000_300, 11_761_439_999_999_900, 10_819_400_000_000_300, 9_706_960_000_000_250,
    8_960_420_000_000_160, 9_560_300_000_000_280, 8_478_100_000_000_270, 7_263_500_000_000_200,
    7_734_820_000_000_040, 5_949_079_999_999_960, 5_558_759_999_999_890, 5_073_460_000_000_340,
    6_139_160_000_000_270, 5_091_499_999_999_360, 3_903_840_000_000_490, 5_893_959_999_999_790,
    2_963_360_000_000_100, 2_820_320_000_000_360, 2_600_780_000_000_670, 1_703_879_999_999_480,
    922_000_000_000_116, 1_383_879_999_999_770, 807_240_000_000_456, 1_415_499_999_999_880,
    1_535_700_000_000_360, 342_660_000_000_615, 624_820_000_000_182, -296_940_000_000_177,
    -879_940_000_000_352, -597_860_000_000_219, -1_440_480_000_000_390, -341_439_999_999_420,
    -1_301_480_000_000_450, -1_169_779_999_999_450, -2_578_780_000_000_550, -2_231_859_999_999_870,
    -2_440_959_999_999_900, -3_197_560_000_000_520, -1_897_220_000_000_380, -2_286_780_000_000_730,
    -3_089_720_000_000_670, -3_237_159_999_999_860, -2_239_079_999_999_380, -4_367_200_000_000_590,
    -3_590_380_000_000_000, -3_974_920_000_000_570, -5_416_419_999_999_930, -4_527_499_999_999_420,
    -4_229_899_999_999_910, -4_410_899_999_999_670, -6_435_640_000_000_420, -4_995_519_999_999_670,
    -4_261_160_000_000_380,
];

/// The first index, the last one left out, whose entry is strictly below
/// `raw_estimates`, searching from `from`; the last index where there is none.
pub open spec fn first_entry_below(table: Seq<u64>, raw_estimates: u64, from: int) -> int
    decreases table.len() - from,
{
    if from >= table.len() - 1 {
        table.len() - 1
    } else if table[from] < raw_estimates {
        from
    } else {
        first_entry_below(table, raw_estimates, from + 1)
    }
}

/// The bias that the tables give for a raw estimate, in units of
/// `1 / BIAS_SCALE`: half the distance between the bias at the first entry
/// strictly below the raw estimate and the bias at the entry after it, or,
/// where only the last entry or none is below it, the last bias.
pub open spec fn table_bias(raw_table: Seq<u64>, bias_table: Seq<i64>, raw_estimates: u64) -> int {
    let found = first_entry_below(raw_table, raw_estimates, 0);
    if found < raw_table.len() - 1 {
        if bias_table[found] >= bias_table[found + 1] {
            bias_table[found] - bias_table[found + 1]
        } else {
            bias_table[found + 1] - bias_table[found]
        }
    } else {
        2 * bias_table[bias_table.len() - 1]
    }
}

/// The bias to subtract from a raw estimate, looked up in the tables of the
/// precision. The raw estimate is given in units of `1 / RAW_ESTIMATE_SCALE`,
/// rounded up; the bias comes back in units of `1 / BIAS_SCALE`.
///
/// Fails with `UnsupportedPrecision` for every precision but 14.
pub fn estimate_bias(precision: usize, raw_estimates: u64) -> (bias: Result<i128, HllppError>)
    ensures
        precision == TABLE_PRECISION ==> bias == Ok::<i128, HllppError>(
            table_bias(RAW_ESTIMATE_DATA_14@, BIAS_DATA_14@, raw_estimates) as i128,
        ),
        precision != TABLE_PRECISION ==> bias == Err::<i128, HllppError>(
            HllppError::UnsupportedPrecision,
        ),
{
    if precision != TABLE_PRECISION {
        return Err(HllppError::UnsupportedPrecision);
    }
    let raw_estimates_data = RAW_ESTIMATE_DATA_14;
    let bias_data = BIAS_DATA_14;
    let mut idx: usize = 0;
    while idx < TABLE_LEN - 1
        invariant
            idx <= TABLE_LEN - 1,
            precision == TABLE_PRECISION,
            raw_estimates_data == RAW_ESTIMATE_DATA_14,
            bias_data == BIAS_DATA_14,
            first_entry_below(raw_estimates_data@, raw_estimates, 0) == first_entry_below(
                raw_estimates_data@,
                raw_estimates,
                idx as int,
            ),
        decreases TABLE_LEN - idx,
    {
        if raw_estimates > raw_estimates_data[idx] {
            let here = bias_data[idx] as i128;
            let next = bias_data[idx + 1] as i128;
            return Ok(
                if here >= next {
                    here - next
                } else {
                    next - here
                },
            );
        }
        idx = idx + 1;
    }
    Ok(2 * (bias_data[TABLE_LEN - 1] as i128))
}

/// Which of the candidates is the estimate of a dense estimator.
#[derive(Clone, Copy, Debug, PartialEq, Eq, Structural)]
pub enum Selection {
    /// The linear-counting estimate over the empty buckets.
    LinearCounting,
    /// The raw estimate less `bias`, which is in units of `1 / BIAS_SCALE`.
    Corrected { bias: i128 },
    /// The raw estimate as it is.
    Raw,
}

/// Whether a raw estimate, in units of `1 / RAW_ESTIMATE_SCALE`, is small
/// enough to have its bias corrected: at most five per bucket.
pub open spec fn is_bias_corrected(precision: nat, raw_estimates: u64) -> bool {
    raw_estimates <= 5 * pow2(precision) * RAW_ESTIMATE_SCALE
}

/// The estimate of a dense estimator of the given precision, from its raw
/// estimate, the number of its empty buckets and its linear-counting
/// estimate, both estimates in units of `1 / RAW_ESTIMATE_SCALE`.
///
/// A raw estimate of at most five per bucket has its bias subtracted, which
/// takes a table for the precision. Where there are empty buckets and linear
/// counting gives no more than the threshold of the precision, linear counting
/// is the estimate; otherwise it is the raw estimate, corrected or not.
pub open spec fn selection(
    precision: nat,
    raw_estimates: u64,
    empty_buckets: nat,
    linear_counting_estimates: u64,
) -> Result<Selection, HllppError> {
    if is_bias_corrected(precision, raw_estimates) && precision != TABLE_PRECISION {
        Err(HllppError::UnsupportedPrecision)
    } else if empty_buckets != 0 && linear_counting_estimates <= linear_counting_threshold(
        precision,
    ) * RAW_ESTIMATE_SCALE {
        Ok(Selection::LinearCounting)
    } else if is_bias_corrected(precision, raw_estimates) {
        Ok(
            Selection::Corrected {
                bias: table_bias(RAW_ESTIMATE_DATA_14@, BIAS_DATA_14@, raw_estimates) as i128,
            },
        )
    } else {
        Ok(Selection::Raw)
    }
}

/// Selects the estimate of a dense estimator. Both estimates are given in
/// units of `1 / RAW_ESTIMATE_SCALE`, rounded up; the linear-counting estimate
/// is not looked at where no bucket is empty.
///
/// Fails with `UnsupportedPrecision` where the raw estimate is to be corrected
/// and the precision is not 14.
pub fn select_estimate(
    precision: usize,
    raw_estimates: u64,
    empty_buckets: usize,
    linear_counting_estimates: u64,
) -> (selected: Result<Selection, HllppError>)
    ensures
        selected == selection(
            precision as nat,
            raw_estimates,
            empty_buckets as nat,
            linear_counting_estimates,
        ),
{
    let corrected = if precision >= 64 {
        proof {
            lemma2_to64();
            if precision > 64 {
                lemma_pow2_strictly_increases(64, precision as nat);
            }
            assert(5 * pow2(precision as nat) * RAW_ESTIMATE_SCALE >= pow2(precision as nat))
                by (nonlinear_arith)
                requires
                    RAW_ESTIMATE_SCALE == 10_000,
            ;
        }
        true
    } else {
        proof {
            lemma2_to64();
            lemma_pow2_strictly_increases(precision as nat, 64);
            lemma_u64_shl_is_mul(1, precision as u64);
        }
        let num_buckets = (1u64 << (precision as u64)) as u128;
        raw_estimates as u128 <= 5 * num_buckets * (RAW_ESTIMATE_SCALE as u128)
    };
    let bias = if corrected {
        match estimate_bias(precision, raw_estimates) {
            Ok(bias) => Some(bias),
            Err(error) => {
                return Err(error);
            },
        }
    } else {
        None
    };
    if empty_buckets != 0 && linear_counting_estimates as u128 <= threashold(precision) as u128
        * (RAW_ESTIMATE_SCALE as u128) {
        return Ok(Selection::LinearCounting);
    }
    match bias {
        Some(bias) => Ok(Selection::Corrected { bias }),
        None => Ok(Selection::Raw),
    }
}

} // verus!
