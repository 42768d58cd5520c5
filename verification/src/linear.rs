//! Linear-light intensities of the 256 channel values, as a table of
//! fixed-point numbers, and the proof that each entry is the rounded-down value
//! of the defining formula.

use vstd::prelude::*;

verus! {

/// The number of units that make up the intensity 1.
pub const SCALE: u64 = 1_000_000_000_000_000_000;

/// The linear-light intensity of each channel value, in units of `1 / SCALE`,
/// rounded down.
pub const LINEAR_LEVELS: [u64; 256] = [
    0, 303_526_983_548_837, 607_053_967_097_674, 910_580_950_646_512,
    1_214_107_934_195_349, 1_517_634_917_744_187, 1_821_161_901_293_024, 2_124_688_884_841_862,
    2_428_215_868_390_699, 2_731_742_851_939_537, 3_035_269_835_488_374, 3_346_535_763_899_158,
    3_676_507_324_047_434, 4_024_717_018_496_304, 4_391_442_037_410_292, 4_776_953_480_693_727,
    5_181_516_702_338_385, 5_605_391_624_202_720, 6_048_833_022_857_052, 6_512_090_792_594_471,
    6_995_410_187_265_385, 7_499_032_043_226_170, 8_023_192_985_384_993, 8_568_125_618_069_301,
    9_134_058_702_220_786, 9_721_217_320_237_843, 10_329_823_029_626_937, 10_960_094_006_488_240,
    11_612_245_179_743_881, 12_286_488_356_915_867, 12_983_032_342_173_007, 13_702_083_047_289_683,
    14_443_843_596_092_540, 15_208_514_422_912_705, 15_996_293_365_509_628, 16_807_375_752_887_376,
    17_641_954_488_384_076, 18_500_220_128_379_688, 19_382_360_956_935_722, 20_288_563_056_652_390,
    21_219_010_376_003_555, 22_173_884_793_387_375, 23_153_366_178_110_404, 24_157_632_448_504_748,
    25_186_859_627_361_622, 26_241_221_894_849_890, 27_320_891_639_074_889, 28_426_039_504_420_788,
    29_556_834_437_808_797, 30_713_443_732_993_621, 31_896_033_073_011_515, 33_104_766_570_885_045,
    34_339_806_808_682_165, 35_601_314_875_020_321, 36_889_450_401_100_016, 38_204_371_595_346_482,
    39_546_235_276_732_833, 40_915_196_906_853_168, 42_311_410_620_809_653, 43_735_029_256_973_448,
    45_186_204_385_675_543, 46_665_086_336_880_077, 48_171_824_226_889_403, 49_706_565_984_127_216,
    51_269_458_374_043_221, 52_860_647_023_180_253, 54_480_276_442_442_353, 56_128_490_049_600_076,
    57_805_430_191_067_211, 59_511_238_162_981_182, 61_246_054_231_617_591, 63_010_017_653_167_654,
    64_803_266_692_905_760, 66_625_938_643_772_875, 68_478_169_844_400_157, 70_360_095_696_595_871,
    72_271_850_682_317_472, 74_213_568_380_149_618, 76_185_381_481_307_806, 78_187_421_805_186_325,
    80_219_820_314_468_312, 82_282_707_129_814_791, 84_376_211_544_148_777, 86_500_462_036_549_730,
    88_655_586_285_772_937, 90_841_711_183_407_677, 93_058_962_846_687_422, 95_307_466_630_964_665,
    97_587_347_141_862_421, 99_898_728_247_113_897, 102_241_733_088_101_281, 104_616_484_091_104_165,
    107_023_102_978_267_592, 109_461_710_778_299_336, 111_932_427_836_905_573, 114_435_373_826_973_712,
    116_970_667_758_510_809, 119_538_427_988_345_597, 122_138_772_229_601_846, 124_771_817_560_950_465,
    127_437_680_435_647_420, 130_136_476_690_364_277, 132_868_321_553_817_914, 135_633_329_655_205_648,
    138_431_615_032_451_822, 141_263_291_140_271_627, 144_128_470_858_057_716, 147_027_266_497_594_970,
    149_959_789_810_608_545, 152_926_151_996_150_155, 155_926_463_707_827_347, 158_960_835_060_880_362,
    162_029_375_639_110_976, 165_132_194_501_667_598, 168_269_400_189_690_700, 171_441_100_732_822_541,
    174_647_403_655_584_994, 177_888_415_983_629_128, 181_164_244_249_860_124, 184_474_994_500_440_897,
    187_820_772_300_677_772, 191_201_682_740_791_356, 194_617_830_441_575_717, 198_069_319_559_948_815,
    201_556_253_794_397_080, 205_078_736_390_316_892, 208_636_870_145_255_661, 212_230_757_414_055_095,
    215_860_500_113_899_163, 219_526_199_729_269_190, 223_227_957_316_808_421, 226_965_873_510_098_342,
    230_740_048_524_348_943, 234_550_582_161_005_074, 238_397_573_812_270_936, 242_281_122_465_554_732,
    246_201_326_707_835_397, 250_158_284_729_953_291, 254_152_094_330_826_683, 258_182_852_921_595_780,
    262_250_657_529_696_026, 266_355_604_802_862_317, 270_497_791_013_065_760, 274_677_312_060_384_527,
    278_894_263_476_810_326, 283_148_740_429_991_963, 287_440_837_726_917_428, 291_770_649_817_535_884,
    296_138_270_798_320_928, 300_543_794_415_776_405, 304_987_314_069_886_084, 309_468_922_817_508_403,
    313_988_713_375_717_506, 318_546_778_125_091_732, 323_143_209_112_950_699, 327_778_098_056_542_082,
    332_451_536_346_179_168, 337_163_615_048_330_236, 341_914_424_908_660_764, 346_704_056_355_029_482,
    351_532_599_500_439_206, 356_400_144_145_943_415, 361_306_779_783_509_471, 366_252_595_598_839_379,
    371_237_680_474_148_953, 376_262_122_990_906_228, 381_326_011_432_529_949, 386_429_433_787_048_929,
    391_572_477_749_723_069, 396_755_230_725_626_785, 401_977_779_832_195_602, 407_240_211_901_736_624,
    412_542_613_483_903_596, 417_885_070_848_137_238, 423_267_669_986_071_527, 428_690_496_613_906_578,
    434_153_636_174_748_768, 439_657_173_840_918_715, 445_201_194_516_227_739, 450_785_782_838_223_370,
    456_411_023_180_404_517, 462_076_999_654_406_829, 467_783_796_112_158_823, 473_531_496_148_009_312,
    479_320_183_100_826_657, 485_149_940_056_070_352, 491_020_849_847_835_459, 496_932_995_060_870_371,
    502_886_458_032_568_385, 508_881_320_854_933_552, 514_917_665_376_521_273, 520_995_573_204_354_070,
    527_115_125_705_812_980, 533_276_404_010_505_004, 539_479_489_012_107_015, 545_724_461_370_186_549,
    552_011_401_511_999_862, 558_340_389_634_267_663, 564_711_505_704_928_889, 571_124_829_464_872_902,
    577_580_440_429_650_479, 584_078_417_891_163_941, 590_618_840_919_336_786, 597_201_788_363_763_157,
    603_827_338_855_337_480, 610_495_570_807_864_619, 617_206_562_419_650_837, 623_960_391_675_075_915,
    630_757_136_346_146_703, 637_596_873_994_032_430, 644_479_681_970_582_058, 651_405_637_419_823_962,
    658_374_817_279_448_238, 665_387_298_282_271_905, 672_443_156_957_687_264, 679_542_469_633_093_708,
    686_685_312_435_313_212, 693_871_761_291_989_784, 701_101_891_932_973_114, 708_375_779_891_686_674,
    715_693_500_506_480_501, 723_055_128_921_968_914, 730_460_740_090_353_379, 737_910_408_772_730_765,
    745_404_209_540_387_203, 752_942_216_776_077_770, 760_524_504_675_292_214, 768_151_147_247_506_925,
    775_822_218_317_423_366, 783_537_791_526_193_153, 791_297_940_332_630_000, 799_102_738_014_408_709,
    806_952_257_669_251_396, 814_846_572_216_101_156, 822_785_754_396_283_328, 830_769_876_774_654_563,
    838_799_011_740_739_848, 846_873_231_509_857_688, 854_992_608_124_233_585, 863_157_213_454_102_014,
    871_367_119_198_797_029, 879_622_396_887_831_684, 887_923_117_881_966_420, 896_269_353_374_266_563,
    904_661_174_391_149_107, 913_098_651_793_418_912, 921_581_856_277_294_476, 930_110_858_375_423_419,
    938_685_728_457_887_832, 947_306_536_733_199_615, 955_973_353_249_285_954, 964_686_247_894_465_069,
    973_445_290_398_412_358, 982_250_550_333_117_081, 991_102_097_113_829_699, 1_000_000_000_000_000_000,
];

/// The fifth power of `x`.
pub open spec fn pow5(x: int) -> int {
    x * x * x * x * x
}

/// The twelfth power of `x`.
pub open spec fn pow12(x: int) -> int {
    (x * x * x * x) * (x * x * x * x) * (x * x * x * x)
}

/// Whether `level` is the linear-light intensity of the channel value `c`, in
/// units of `1 / SCALE` and rounded down.
///
/// With `x = c / 255`, the intensity is `x / 12.92` where `x <= 0.03928`, and
/// `(x + 0.055) / 1.055` raised to the power 2.4 above that. Both are stated
/// here without fractions: `x / 12.92` is `100 c / (255 * 1292)`; the base of
/// the power is `n / d` with `n = 1000 c + 55 * 255` and `d = 1055 * 255`, and
/// `level / SCALE` stays below its power 12/5 exactly when
/// `level^5 * d^12 <= SCALE^5 * n^12`.
pub open spec fn is_linear_level(c: int, level: int) -> bool {
    let n: int = 1_000 * c + 55 * 255;
    let d: int = 1_055int * 255;
    let low: int = 255int * 1_292;
    if 100_000 * c <= 3_928 * 255 {
        level == (SCALE * 100 * c) / low
    } else {
        &&& 0 <= level
        &&& pow5(level) * pow12(d) <= pow5(SCALE as int) * pow12(n)
        &&& pow5(SCALE as int) * pow12(n) < pow5(level + 1) * pow12(d)
    }
}

/// The linear-light intensity of the channel value `c`, in units of `1 / SCALE`.
pub open spec fn linear_level(c: u8) -> int {
    LINEAR_LEVELS[c as int] as int
}

/// The table's entries for the channel values from 0 to 15 are the levels that
/// `is_linear_level` defines.
proof fn lemma_levels_from_0(c: u8)
    requires
        0 <= c <= 15,
    ensures
        is_linear_level(c as int, linear_level(c)),
        linear_level(c) <= SCALE,
{
    assert({
        &&& is_linear_level(0, 0)
        &&& is_linear_level(1, 303_526_983_548_837)
        &&& is_linear_level(2, 607_053_967_097_674)
        &&& is_linear_level(3, 910_580_950_646_512)
        &&& is_linear_level(4, 1_214_107_934_195_349)
        &&& is_linear_level(5, 1_517_634_917_744_187)
        &&& is_linear_level(6, 1_821_161_901_293_024)
        &&& is_linear_level(7, 2_124_688_884_841_862)
        &&& is_linear_level(8, 2_428_215_868_390_699)
        &&& is_linear_level(9, 2_731_742_851_939_537)
        &&& is_linear_level(10, 3_035_269_835_488_374)
        &&& is_linear_level(11, 3_346_535_763_899_158)
        &&& is_linear_level(12, 3_676_507_324_047_434)
        &&& is_linear_level(13, 4_024_717_018_496_304)
        &&& is_linear_level(14, 4_391_442_037_410_292)
        &&& is_linear_level(15, 4_776_953_480_693_727)
    }) by (nonlinear_arith);
}

/// The table's entries for the channel values from 16 to 31 are the levels that
/// `is_linear_level` defines.
proof fn lemma_levels_from_16(c: u8)
    requires
        16 <= c <= 31,
    ensures
        is_linear_level(c as int, linear_level(c)),
        linear_level(c) <= SCALE,
{
    assert({
        &&& is_linear_level(16, 5_181_516_702_338_385)
        &&& is_linear_level(17, 5_605_391_624_202_720)
        &&& is_linear_level(18, 6_048_833_022_857_052)
        &&& is_linear_level(19, 6_512_090_792_594_471)
        &&& is_linear_level(20, 6_995_410_187_265_385)
        &&& is_linear_level(21, 7_499_032_043_226_170)
        &&& is_linear_level(22, 8_023_192_985_384_993)
        &&& is_linear_level(23, 8_568_125_618_069_301)
        &&& is_linear_level(24, 9_134_058_702_220_786)
        &&& is_linear_level(25, 9_721_217_320_237_843)
        &&& is_linear_level(26, 10_329_823_029_626_937)
        &&& is_linear_level(27, 10_960_094_006_488_240)
        &&& is_linear_level(28, 11_612_245_179_743_881)
        &&& is_linear_level(29, 12_286_488_356_915_867)
        &&& is_linear_level(30, 12_983_032_342_173_007)
        &&& is_linear_level(31, 13_702_083_047_289_683)
    }) by (nonlinear_arith);
}

/// The table's entries for the channel values from 32 to 47 are the levels that
/// `is_linear_level` defines.
proof fn lemma_levels_from_32(c: u8)
    requires
        32 <= c <= 47,
    ensures
        is_linear_level(c as int, linear_level(c)),
        linear_level(c) <= SCALE,
{
    assert({
        &&& is_linear_level(32, 14_443_843_596_092_540)
        &&& is_linear_level(33, 15_208_514_422_912_705)
        &&& is_linear_level(34, 15_996_293_365_509_628)
        &&& is_linear_level(35, 16_807_375_752_887_376)
        &&& is_linear_level(36, 17_641_954_488_384_076)
        &&& is_linear_level(37, 18_500_220_128_379_688)
        &&& is_linear_level(38, 19_382_360_956_935_722)
        &&& is_linear_level(39, 20_288_563_056_652_390)
        &&& is_linear_level(40, 21_219_010_376_003_555)
        &&& is_linear_level(41, 22_173_884_793_387_375)
        &&& is_linear_level(42, 23_153_366_178_110_404)
        &&& is_linear_level(43, 24_157_632_448_504_748)
        &&& is_linear_level(44, 25_186_859_627_361_622)
        &&& is_linear_level(45, 26_241_221_894_849_890)
        &&& is_linear_level(46, 27_320_891_639_074_889)
        &&& is_linear_level(47, 28_426_039_504_420_788)
    }) by (nonlinear_arith);
}

/// The table's entries for the channel values from 48 to 63 are the levels that
/// `is_linear_level` defines.
proof fn lemma_levels_from_48(c: u8)
    requires
        48 <= c <= 63,
    ensures
        is_linear_level(c as int, linear_level(c)),
        linear_level(c) <= SCALE,
{
    assert({
        &&& is_linear_level(48, 29_556_834_437_808_797)
        &&& is_linear_level(49, 30_713_443_732_993_621)
        &&& is_linear_level(50, 31_896_033_073_011_515)
        &&& is_linear_level(51, 33_104_766_570_885_045)
        &&& is_linear_level(52, 34_339_806_808_682_165)
        &&& is_linear_level(53, 35_601_314_875_020_321)
        &&& is_linear_level(54, 36_889_450_401_100_016)
        &&& is_linear_level(55, 38_204_371_595_346_482)
        &&& is_linear_level(56, 39_546_235_276_732_833)
        &&& is_linear_level(57, 40_915_196_906_853_168)
        &&& is_linear_level(58, 42_311_410_620_809_653)
        &&& is_linear_level(59, 43_735_029_256_973_448)
        &&& is_linear_level(60, 45_186_204_385_675_543)
        &&& is_linear_level(61, 46_665_086_336_880_077)
        &&& is_linear_level(62, 48_171_824_226_889_403)
        &&& is_linear_level(63, 49_706_565_984_127_216)
    }) by (nonlinear_arith);
}

/// The table's entries for the channel values from 64 to 79 are the levels that
/// `is_linear_level` defines.
proof fn lemma_levels_from_64(c: u8)
    requires
        64 <= c <= 79,
    ensures
        is_linear_level(c as int, linear_level(c)),
        linear_level(c) <= SCALE,
{
    assert({
        &&& is_linear_level(64, 51_269_458_374_043_221)
        &&& is_linear_level(65, 52_860_647_023_180_253)
        &&& is_linear_level(66, 54_480_276_442_442_353)
        &&& is_linear_level(67, 56_128_490_049_600_076)
        &&& is_linear_level(68, 57_805_430_191_067_211)
        &&& is_linear_level(69, 59_511_238_162_981_182)
        &&& is_linear_level(70, 61_246_054_231_617_591)
        &&& is_linear_level(71, 63_010_017_653_167_654)
        &&& is_linear_level(72, 64_803_266_692_905_760)
        &&& is_linear_level(73, 66_625_938_643_772_875)
        &&& is_linear_level(74, 68_478_169_844_400_157)
        &&& is_linear_level(75, 70_360_095_696_595_871)
        &&& is_linear_level(76, 72_271_850_682_317_472)
        &&& is_linear_level(77, 74_213_568_380_149_618)
        &&& is_linear_level(78, 76_185_381_481_307_806)
        &&& is_linear_level(79, 78_187_421_805_186_325)
    }) by (nonlinear_arith);
}

/// The table's entries for the channel values from 80 to 95 are the levels that
/// `is_linear_level` defines.
proof fn lemma_levels_from_80(c: u8)
    requires
        80 <= c <= 95,
    ensures
        is_linear_level(c as int, linear_level(c)),
        linear_level(c) <= SCALE,
{
    assert({
        &&& is_linear_level(80, 80_219_820_314_468_312)
        &&& is_linear_level(81, 82_282_707_129_814_791)
        &&& is_linear_level(82, 84_376_211_544_148_777)
        &&& is_linear_level(83, 86_500_462_036_549_730)
        &&& is_linear_level(84, 88_655_586_285_772_937)
        &&& is_linear_level(85, 90_841_711_183_407_677)
        &&& is_linear_level(86, 93_058_962_846_687_422)
        &&& is_linear_level(87, 95_307_466_630_964_665)
        &&& is_linear_level(88, 97_587_347_141_862_421)
        &&& is_linear_level(89, 99_898_728_247_113_897)
        &&& is_linear_level(90, 102_241_733_088_101_281)
        &&& is_linear_level(91, 104_616_484_091_104_165)
        &&& is_linear_level(92, 107_023_102_978_267_592)
        &&& is_linear_level(93, 109_461_710_778_299_336)
        &&& is_linear_level(94, 111_932_427_836_905_573)
        &&& is_linear_level(95, 114_435_373_826_973_712)
    }) by (nonlinear_arith);
}

/// The table's entries for the channel values from 96 to 111 are the levels that
/// `is_linear_level` defines.
proof fn lemma_levels_from_96(c: u8)
    requires
        96 <= c <= 111,
    ensures
        is_linear_level(c as int, linear_level(c)),
        linear_level(c) <= SCALE,
{
    assert({
        &&& is_linear_level(96, 116_970_667_758_510_809)
        &&& is_linear_level(97, 119_538_427_988_345_597)
        &&& is_linear_level(98, 122_138_772_229_601_846)
        &&& is_linear_level(99, 124_771_817_560_950_465)
        &&& is_linear_level(100, 127_437_680_435_647_420)
        &&& is_linear_level(101, 130_136_476_690_364_277)
        &&& is_linear_level(102, 132_868_321_553_817_914)
        &&& is_linear_level(103, 135_633_329_655_205_648)
        &&& is_linear_level(104, 138_431_615_032_451_822)
        &&& is_linear_level(105, 141_263_291_140_271_627)
        &&& is_linear_level(106, 144_128_470_858_057_716)
        &&& is_linear_level(107, 147_027_266_497_594_970)
        &&& is_linear_level(108, 149_959_789_810_608_545)
        &&& is_linear_level(109, 152_926_151_996_150_155)
        &&& is_linear_level(110, 155_926_463_707_827_347)
        &&& is_linear_level(111, 158_960_835_060_880_362)
    }) by (nonlinear_arith);
}

/// The table's entries for the channel values from 112 to 127 are the levels that
/// `is_linear_level` defines.
proof fn lemma_levels_from_112(c: u8)
    requires
        112 <= c <= 127,
    ensures
        is_linear_level(c as int, linear_level(c)),
        linear_level(c) <= SCALE,
{
    assert({
        &&& is_linear_level(112, 162_029_375_639_110_976)
        &&& is_linear_level(113, 165_132_194_501_667_598)
        &&& is_linear_level(114, 168_269_400_189_690_700)
        &&& is_linear_level(115, 171_441_100_732_822_541)
        &&& is_linear_level(116, 174_647_403_655_584_994)
        &&& is_linear_level(117, 177_888_415_983_629_128)
        &&& is_linear_level(118, 181_164_244_249_860_124)
        &&& is_linear_level(119, 184_474_994_500_440_897)
        &&& is_linear_level(120, 187_820_772_300_677_772)
        &&& is_linear_level(121, 191_201_682_740_791_356)
        &&& is_linear_level(122, 194_617_830_441_575_717)
        &&& is_linear_level(123, 198_069_319_559_948_815)
        &&& is_linear_level(124, 201_556_253_794_397_080)
        &&& is_linear_level(125, 205_078_736_390_316_892)
        &&& is_linear_level(126, 208_636_870_145_255_661)
        &&& is_linear_level(127, 212_230_757_414_055_095)
    }) by (nonlinear_arith);
}

/// The table's entries for the channel values from 128 to 143 are the levels that
/// `is_linear_level` defines.
proof fn lemma_levels_from_128(c: u8)
    requires
        128 <= c <= 143,
    ensures
        is_linear_level(c as int, linear_level(c)),
        linear_level(c) <= SCALE,
{
    assert({
        &&& is_linear_level(128, 215_860_500_113_899_163)
        &&& is_linear_level(129, 219_526_199_729_269_190)
        &&& is_linear_level(130, 223_227_957_316_808_421)
        &&& is_linear_level(131, 226_965_873_510_098_342)
        &&& is_linear_level(132, 230_740_048_524_348_943)
        &&& is_linear_level(133, 234_550_582_161_005_074)
        &&& is_linear_level(134, 238_397_573_812_270_936)
        &&& is_linear_level(135, 242_281_122_465_554_732)
        &&& is_linear_level(136, 246_201_326_707_835_397)
        &&& is_linear_level(137, 250_158_284_729_953_291)
        &&& is_linear_level(138, 254_152_094_330_826_683)
        &&& is_linear_level(139, 258_182_852_921_595_780)
        &&& is_linear_level(140, 262_250_657_529_696_026)
        &&& is_linear_level(141, 266_355_604_802_862_317)
        &&& is_linear_level(142, 270_497_791_013_065_760)
        &&& is_linear_level(143, 274_677_312_060_384_527)
    }) by (nonlinear_arith);
}

/// The table's entries for the channel values from 144 to 159 are the levels that
/// `is_linear_level` defines.
proof fn lemma_levels_from_144(c: u8)
    requires
        144 <= c <= 159,
    ensures
        is_linear_level(c as int, linear_level(c)),
        linear_level(c) <= SCALE,
{
    assert({
        &&& is_linear_level(144, 278_894_263_476_810_326)
        &&& is_linear_level(145, 283_148_740_429_991_963)
        &&& is_linear_level(146, 287_440_837_726_917_428)
        &&& is_linear_level(147, 291_770_649_817_535_884)
        &&& is_linear_level(148, 296_138_270_798_320_928)
        &&& is_linear_level(149, 300_543_794_415_776_405)
        &&& is_linear_level(150, 304_987_314_069_886_084)
        &&& is_linear_level(151, 309_468_922_817_508_403)
        &&& is_linear_level(152, 313_988_713_375_717_506)
        &&& is_linear_level(153, 318_546_778_125_091_732)
        &&& is_linear_level(154, 323_143_209_112_950_699)
        &&& is_linear_level(155, 327_778_098_056_542_082)
        &&& is_linear_level(156, 332_451_536_346_179_168)
        &&& is_linear_level(157, 337_163_615_048_330_236)
        &&& is_linear_level(158, 341_914_424_908_660_764)
        &&& is_linear_level(159, 346_704_056_355_029_482)
    }) by (nonlinear_arith);
}

/// The table's entries for the channel values from 160 to 175 are the levels that
/// `is_linear_level` defines.
proof fn lemma_levels_from_160(c: u8)
    requires
        160 <= c <= 175,
    ensures
        is_linear_level(c as int, linear_level(c)),
        linear_level(c) <= SCALE,
{
    assert({
        &&& is_linear_level(160, 351_532_599_500_439_206)
        &&& is_linear_level(161, 356_400_144_145_943_415)
        &&& is_linear_level(162, 361_306_779_783_509_471)
        &&& is_linear_level(163, 366_252_595_598_839_379)
        &&& is_linear_level(164, 371_237_680_474_148_953)
        &&& is_linear_level(165, 376_262_122_990_906_228)
        &&& is_linear_level(166, 381_326_011_432_529_949)
        &&& is_linear_level(167, 386_429_433_787_048_929)
        &&& is_linear_level(168, 391_572_477_749_723_069)
        &&& is_linear_level(169, 396_755_230_725_626_785)
        &&& is_linear_level(170, 401_977_779_832_195_602)
        &&& is_linear_level(171, 407_240_211_901_736_624)
        &&& is_linear_level(172, 412_542_613_483_903_596)
        &&& is_linear_level(173, 417_885_070_848_137_238)
        &&& is_linear_level(174, 423_267_669_986_071_527)
        &&& is_linear_level(175, 428_690_496_613_906_578)
    }) by (nonlinear_arith);
}

/// The table's entries for the channel values from 176 to 191 are the levels that
/// `is_linear_level` defines.
proof fn lemma_levels_from_176(c: u8)
    requires
        176 <= c <= 191,
    ensures
        is_linear_level(c as int, linear_level(c)),
        linear_level(c) <= SCALE,
{
    assert({
        &&& is_linear_level(176, 434_153_636_174_748_768)
        &&& is_linear_level(177, 439_657_173_840_918_715)
        &&& is_linear_level(178, 445_201_194_516_227_739)
        &&& is_linear_level(179, 450_785_782_838_223_370)
        &&& is_linear_level(180, 456_411_023_180_404_517)
        &&& is_linear_level(181, 462_076_999_654_406_829)
        &&& is_linear_level(182, 467_783_796_112_158_823)
        &&& is_linear_level(183, 473_531_496_148_009_312)
        &&& is_linear_level(184, 479_320_183_100_826_657)
        &&& is_linear_level(185, 485_149_940_056_070_352)
        &&& is_linear_level(186, 491_020_849_847_835_459)
        &&& is_linear_level(187, 496_932_995_060_870_371)
        &&& is_linear_level(188, 502_886_458_032_568_385)
        &&& is_linear_level(189, 508_881_320_854_933_552)
        &&& is_linear_level(190, 514_917_665_376_521_273)
        &&& is_linear_level(191, 520_995_573_204_354_070)
    }) by (nonlinear_arith);
}

/// The table's entries for the channel values from 192 to 207 are the levels that
/// `is_linear_level` defines.
proof fn lemma_levels_from_192(c: u8)
    requires
        192 <= c <= 207,
    ensures
        is_linear_level(c as int, linear_level(c)),
        linear_level(c) <= SCALE,
{
    assert({
        &&& is_linear_level(192, 527_115_125_705_812_980)
        &&& is_linear_level(193, 533_276_404_010_505_004)
        &&& is_linear_level(194, 539_479_489_012_107_015)
        &&& is_linear_level(195, 545_724_461_370_186_549)
        &&& is_linear_level(196, 552_011_401_511_999_862)
        &&& is_linear_level(197, 558_340_389_634_267_663)
        &&& is_linear_level(198, 564_711_505_704_928_889)
        &&& is_linear_level(199, 571_124_829_464_872_902)
        &&& is_linear_level(200, 577_580_440_429_650_479)
        &&& is_linear_level(201, 584_078_417_891_163_941)
        &&& is_linear_level(202, 590_618_840_919_336_786)
        &&& is_linear_level(203, 597_201_788_363_763_157)
        &&& is_linear_level(204, 603_827_338_855_337_480)
        &&& is_linear_level(205, 610_495_570_807_864_619)
        &&& is_linear_level(206, 617_206_562_419_650_837)
        &&& is_linear_level(207, 623_960_391_675_075_915)
    }) by (nonlinear_arith);
}

/// The table's entries for the channel values from 208 to 223 are the levels that
/// `is_linear_level` defines.
proof fn lemma_levels_from_208(c: u8)
    requires
        208 <= c <= 223,
    ensures
        is_linear_level(c as int, linear_level(c)),
        linear_level(c) <= SCALE,
{
    assert({
        &&& is_linear_level(208, 630_757_136_346_146_703)
        &&& is_linear_level(209, 637_596_873_994_032_430)
        &&& is_linear_level(210, 644_479_681_970_582_058)
        &&& is_linear_level(211, 651_405_637_419_823_962)
        &&& is_linear_level(212, 658_374_817_279_448_238)
        &&& is_linear_level(213, 665_387_298_282_271_905)
        &&& is_linear_level(214, 672_443_156_957_687_264)
        &&& is_linear_level(215, 679_542_469_633_093_708)
        &&& is_linear_level(216, 686_685_312_435_313_212)
        &&& is_linear_level(217, 693_871_761_291_989_784)
        &&& is_linear_level(218, 701_101_891_932_973_114)
        &&& is_linear_level(219, 708_375_779_891_686_674)
        &&& is_linear_level(220, 715_693_500_506_480_501)
        &&& is_linear_level(221, 723_055_128_921_968_914)
        &&& is_linear_level(222, 730_460_740_090_353_379)
        &&& is_linear_level(223, 737_910_408_772_730_765)
    }) by (nonlinear_arith);
}

/// The table's entries for the channel values from 224 to 239 are the levels that
/// `is_linear_level` defines.
proof fn lemma_levels_from_224(c: u8)
    requires
        224 <= c <= 239,
    ensures
        is_linear_level(c as int, linear_level(c)),
        linear_level(c) <= SCALE,
{
    assert({
        &&& is_linear_level(224, 745_404_209_540_387_203)
        &&& is_linear_level(225, 752_942_216_776_077_770)
        &&& is_linear_level(226, 760_524_504_675_292_214)
        &&& is_linear_level(227, 768_151_147_247_506_925)
        &&& is_linear_level(228, 775_822_218_317_423_366)
        &&& is_linear_level(229, 783_537_791_526_193_153)
        &&& is_linear_level(230, 791_297_940_332_630_000)
        &&& is_linear_level(231, 799_102_738_014_408_709)
        &&& is_linear_level(232, 806_952_257_669_251_396)
        &&& is_linear_level(233, 814_846_572_216_101_156)
        &&& is_linear_level(234, 822_785_754_396_283_328)
        &&& is_linear_level(235, 830_769_876_774_654_563)
        &&& is_linear_level(236, 838_799_011_740_739_848)
        &&& is_linear_level(237, 846_873_231_509_857_688)
        &&& is_linear_level(238, 854_992_608_124_233_585)
        &&& is_linear_level(239, 863_157_213_454_102_014)
    }) by (nonlinear_arith);
}

/// The table's entries for the channel values from 240 to 255 are the levels that
/// `is_linear_level` defines.
proof fn lemma_levels_from_240(c: u8)
    requires
        240 <= c <= 255,
    ensures
        is_linear_level(c as int, linear_level(c)),
        linear_level(c) <= SCALE,
{
    assert({
        &&& is_linear_level(240, 871_367_119_198_797_029)
        &&& is_linear_level(241, 879_622_396_887_831_684)
        &&& is_linear_level(242, 887_923_117_881_966_420)
        &&& is_linear_level(243, 896_269_353_374_266_563)
        &&& is_linear_level(244, 904_661_174_391_149_107)
        &&& is_linear_level(245, 913_098_651_793_418_912)
        &&& is_linear_level(246, 921_581_856_277_294_476)
        &&& is_linear_level(247, 930_110_858_375_423_419)
        &&& is_linear_level(248, 938_685_728_457_887_832)
        &&& is_linear_level(249, 947_306_536_733_199_615)
        &&& is_linear_level(250, 955_973_353_249_285_954)
        &&& is_linear_level(251, 964_686_247_894_465_069)
        &&& is_linear_level(252, 973_445_290_398_412_358)
        &&& is_linear_level(253, 982_250_550_333_117_081)
        &&& is_linear_level(254, 991_102_097_113_829_699)
        &&& is_linear_level(255, 1_000_000_000_000_000_000)
    }) by (nonlinear_arith);
}

/// Every entry of the table is the level that `is_linear_level` defines for its
/// channel value, and none is above `SCALE`.
pub proof fn lemma_linear_levels(c: u8)
    ensures
        is_linear_level(c as int, linear_level(c)),
        0 <= linear_level(c) <= SCALE,
{
    if c < 16 {
        lemma_levels_from_0(c);
    } else if c < 32 {
        lemma_levels_from_16(c);
    } else if c < 48 {
        lemma_levels_from_32(c);
    } else if c < 64 {
        lemma_levels_from_48(c);
    } else if c < 80 {
        lemma_levels_from_64(c);
    } else if c < 96 {
        lemma_levels_from_80(c);
    } else if c < 112 {
        lemma_levels_from_96(c);
    } else if c < 128 {
        lemma_levels_from_112(c);
    } else if c < 144 {
        lemma_levels_from_128(c);
    } else if c < 160 {
        lemma_levels_from_144(c);
    } else if c < 176 {
        lemma_levels_from_160(c);
    } else if c < 192 {
        lemma_levels_from_176(c);
    } else if c < 208 {
        lemma_levels_from_192(c);
    } else if c < 224 {
        lemma_levels_from_208(c);
    } else if c < 240 {
        lemma_levels_from_224(c);
    } else {
        lemma_levels_from_240(c);
    }
}

} // verus!
