//! The LED drive levels of the keyboard and their relation to logical colors.
use vstd::prelude::*;

verus! {

/// One physical LED drive level: a 4-bit brightness step and a PWM byte.
#[derive(Clone, Copy, Debug, PartialEq, Eq)]
pub struct HardwareColor {
    pub brightness: u8,
    /// Pulse Width Modulation
    pub pwm: u8,
}

/// The drive level packed in a table entry: brightness in the high byte, PWM in
/// the low byte.
pub open spec fn hardware_of(packed: u16) -> HardwareColor {
    HardwareColor { brightness: (packed / 256) as u8, pwm: (packed % 256) as u8 }
}

/// The hardware color that stands for a logical color.
pub open spec fn spec_from_color(color: u8) -> HardwareColor {
    hardware_of(color_to_hardware(color))
}

/// The combined drive level of a hardware color, which indexes the inverse table.
pub open spec fn level_of(hardware: HardwareColor) -> int {
    hardware.pwm as int * (hardware.brightness as int + 1)
}

/// The logical color that a hardware color shows.
pub open spec fn spec_to_color(hardware: HardwareColor) -> u8 {
    level_to_color(level_of(hardware) as u16)
}

/// A logical color's hardware color has a 4-bit brightness, stays inside the
/// inverse table, and shows that same logical color again.
pub open spec fn round_trips(color: u8) -> bool {
    &&& spec_from_color(color).brightness < 16
    &&& level_of(spec_from_color(color)) < 1009
    &&& spec_to_color(spec_from_color(color)) == color
}

impl Default for HardwareColor {
    fn default() -> (r: Self)
        ensures
            r.brightness == 0 && r.pwm == 0,
    {
        HardwareColor { brightness: 0, pwm: 0 }
    }
}

impl HardwareColor {
    /// Splits a packed table entry into brightness and PWM.
    pub fn from_u16(hardware: u16) -> (r: Self)
        ensures
            r == hardware_of(hardware),
    {
        assert((hardware >> 8) as u8 == (hardware / 256) as u8) by (bit_vector);
        assert((hardware & 0xff) as u8 == (hardware % 256) as u8) by (bit_vector);
        Self { brightness: (hardware >> 8) as u8, pwm: (hardware & 0xff) as u8 }
    }

    /// The hardware color that drives a key at the given logical color.
    pub fn from_color(color: u8) -> (r: Self)
        ensures
            r == spec_from_color(color),
    {
        Self::from_u16(color_to_hardware_lookup(color))
    }

    /// The logical color that this drive level shows.
    pub fn to_color(&self) -> (r: u8)
        requires
            level_of(*self) < 1009,
        ensures
            r == spec_to_color(*self),
    {
        let level: u16 = self.pwm as u16 * (self.brightness as u16 + 1);
        level_to_color_lookup(level)
    }
}

proof fn lemma_level(hardware: HardwareColor, brightness: int, pwm: int)
    requires
        hardware.brightness == brightness,
        hardware.pwm == pwm,
    ensures
        level_of(hardware) == pwm * (brightness + 1),
{
}

/// Converting a logical color to hardware and back gives the same color, for
/// every logical color.
pub proof fn lemma_color_round_trip(color: u8)
    ensures
        round_trips(color),
{
    if color < 64 {
        lemma_round_trip_0(color);
    } else if color < 128 {
        lemma_round_trip_1(color);
    } else if color < 192 {
        lemma_round_trip_2(color);
    } else {
        lemma_round_trip_3(color);
    }
}

proof fn lemma_round_trip_0(color: u8)
    requires
        color < 64,
    ensures
        round_trips(color),
{
    match color {
        0 => lemma_level(spec_from_color(0), 0, 0),
        1 => lemma_level(spec_from_color(1), 0, 1),
        2 => lemma_level(spec_from_color(2), 0, 2),
        3 => lemma_level(spec_from_color(3), 0, 3),
        4 => lemma_level(spec_from_color(4), 0, 4),
        5 => lemma_level(spec_from_color(5), 0, 5),
        6 => lemma_level(spec_from_color(6), 0, 6),
        7 => lemma_level(spec_from_color(7), 0, 7),
        8 => lemma_level(spec_from_color(8), 0, 8),
        9 => lemma_level(spec_from_color(9), 0, 9),
        10 => lemma_level(spec_from_color(10), 0, 10),
        11 => lemma_level(spec_from_color(11), 0, 11),
        12 => lemma_level(spec_from_color(12), 0, 12),
        13 => lemma_level(spec_from_color(13), 0, 13),
        14 => lemma_level(spec_from_color(14), 0, 14),
        15 => lemma_level(spec_from_color(15), 0, 15),
        16 => lemma_level(spec_from_color(16), 0, 16),
        17 => lemma_level(spec_from_color(17), 0, 17),
        18 => lemma_level(spec_from_color(18), 0, 18),
        19 => lemma_level(spec_from_color(19), 0, 19),
        20 => lemma_level(spec_from_color(20), 0, 20),
        21 => lemma_level(spec_from_color(21), 0, 21),
        22 => lemma_level(spec_from_color(22), 0, 22),
        23 => lemma_level(spec_from_color(23), 0, 23),
        24 => lemma_level(spec_from_color(24), 0, 24),
        25 => lemma_level(spec_from_color(25), 0, 25),
        26 => lemma_level(spec_from_color(26), 0, 26),
        27 => lemma_level(spec_from_color(27), 0, 27),
        28 => lemma_level(spec_from_color(28), 0, 28),
        29 => lemma_level(spec_from_color(29), 0, 29),
        30 => lemma_level(spec_from_color(30), 0, 30),
        31 => lemma_level(spec_from_color(31), 0, 31),
        32 => lemma_level(spec_from_color(32), 0, 32),
        33 => lemma_level(spec_from_color(33), 0, 33),
        34 => lemma_level(spec_from_color(34), 0, 34),
        35 => lemma_level(spec_from_color(35), 0, 35),
        36 => lemma_level(spec_from_color(36), 0, 36),
        37 => lemma_level(spec_from_color(37), 0, 37),
        38 => lemma_level(spec_from_color(38), 0, 38),
        39 => lemma_level(spec_from_color(39), 0, 39),
        40 => lemma_level(spec_from_color(40), 0, 40),
        41 => lemma_level(spec_from_color(41), 0, 41),
        42 => lemma_level(spec_from_color(42), 0, 42),
        43 => lemma_level(spec_from_color(43), 0, 43),
        44 => lemma_level(spec_from_color(44), 0, 44),
        45 => lemma_level(spec_from_color(45), 0, 45),
        46 => lemma_level(spec_from_color(46), 0, 46),
        47 => lemma_level(spec_from_color(47), 0, 47),
        48 => lemma_level(spec_from_color(48), 0, 48),
        49 => lemma_level(spec_from_color(49), 0, 49),
        50 => lemma_level(spec_from_color(50), 0, 50),
        51 => lemma_level(spec_from_color(51), 0, 51),
        52 => lemma_level(spec_from_color(52), 0, 52),
        53 => lemma_level(spec_from_color(53), 0, 53),
        54 => lemma_level(spec_from_color(54), 0, 54),
        55 => lemma_level(spec_from_color(55), 0, 55),
        56 => lemma_level(spec_from_color(56), 0, 56),
        57 => lemma_level(spec_from_color(57), 0, 57),
        58 => lemma_level(spec_from_color(58), 0, 58),
        59 => lemma_level(spec_from_color(59), 0, 59),
        60 => lemma_level(spec_from_color(60), 0, 60),
        61 => lemma_level(spec_from_color(61), 0, 61),
        62 => lemma_level(spec_from_color(62), 0, 62),
        63 => lemma_level(spec_from_color(63), 0, 63),
        _ => {},
    }
}

proof fn lemma_round_trip_1(color: u8)
    requires
        64 <= color < 128,
    ensures
        round_trips(color),
{
    match color {
        64 => lemma_level(spec_from_color(64), 1, 32),
        65 => lemma_level(spec_from_color(65), 4, 13),
        66 => lemma_level(spec_from_color(66), 5, 11),
        67 => lemma_level(spec_from_color(67), 3, 17),
        68 => lemma_level(spec_from_color(68), 2, 23),
        69 => lemma_level(spec_from_color(69), 4, 14),
        70 => lemma_level(spec_from_color(70), 5, 12),
        71 => lemma_level(spec_from_color(71), 1, 37),
        72 => lemma_level(spec_from_color(72), 4, 15),
        73 => lemma_level(spec_from_color(73), 3, 19),
        74 => lemma_level(spec_from_color(74), 6, 11),
        75 => lemma_level(spec_from_color(75), 5, 13),
        76 => lemma_level(spec_from_color(76), 7, 10),
        77 => lemma_level(spec_from_color(77), 8, 9),
        78 => lemma_level(spec_from_color(78), 11, 7),
        79 => lemma_level(spec_from_color(79), 10, 8),
        80 => lemma_level(spec_from_color(80), 9, 9),
        81 => lemma_level(spec_from_color(81), 12, 7),
        82 => lemma_level(spec_from_color(82), 11, 8),
        83 => lemma_level(spec_from_color(83), 12, 8),
        84 => lemma_level(spec_from_color(84), 14, 7),
        85 => lemma_level(spec_from_color(85), 11, 9),
        86 => lemma_level(spec_from_color(86), 10, 10),
        87 => lemma_level(spec_from_color(87), 13, 8),
        88 => lemma_level(spec_from_color(88), 12, 9),
        89 => lemma_level(spec_from_color(89), 11, 10),
        90 => lemma_level(spec_from_color(90), 13, 9),
        91 => lemma_level(spec_from_color(91), 9, 13),
        92 => lemma_level(spec_from_color(92), 10, 12),
        93 => lemma_level(spec_from_color(93), 15, 8),
        94 => lemma_level(spec_from_color(94), 9, 14),
        95 => lemma_level(spec_from_color(95), 10, 13),
        96 => lemma_level(spec_from_color(96), 8, 16),
        97 => lemma_level(spec_from_color(97), 9, 15),
        98 => lemma_level(spec_from_color(98), 7, 19),
        99 => lemma_level(spec_from_color(99), 8, 17),
        100 => lemma_level(spec_from_color(100), 10, 14),
        101 => lemma_level(spec_from_color(101), 11, 13),
        102 => lemma_level(spec_from_color(102), 9, 16),
        103 => lemma_level(spec_from_color(103), 8, 18),
        104 => lemma_level(spec_from_color(104), 10, 15),
        105 => lemma_level(spec_from_color(105), 11, 14),
        106 => lemma_level(spec_from_color(106), 12, 13),
        107 => lemma_level(spec_from_color(107), 9, 17),
        108 => lemma_level(spec_from_color(108), 8, 19),
        109 => lemma_level(spec_from_color(109), 10, 16),
        110 => lemma_level(spec_from_color(110), 9, 18),
        111 => lemma_level(spec_from_color(111), 6, 26),
        112 => lemma_level(spec_from_color(112), 7, 23),
        113 => lemma_level(spec_from_color(113), 8, 21),
        114 => lemma_level(spec_from_color(114), 9, 19),
        115 => lemma_level(spec_from_color(115), 11, 16),
        116 => lemma_level(spec_from_color(116), 12, 15),
        117 => lemma_level(spec_from_color(117), 13, 14),
        118 => lemma_level(spec_from_color(118), 10, 18),
        119 => lemma_level(spec_from_color(119), 9, 20),
        120 => lemma_level(spec_from_color(120), 11, 17),
        121 => lemma_level(spec_from_color(121), 12, 16),
        122 => lemma_level(spec_from_color(122), 10, 19),
        123 => lemma_level(spec_from_color(123), 9, 21),
        124 => lemma_level(spec_from_color(124), 8, 24),
        125 => lemma_level(spec_from_color(125), 6, 31),
        126 => lemma_level(spec_from_color(126), 9, 22),
        127 => lemma_level(spec_from_color(127), 12, 17),
        _ => {},
    }
}

proof fn lemma_round_trip_2(color: u8)
    requires
        128 <= color < 192,
    ensures
        round_trips(color),
{
    match color {
        128 => lemma_level(spec_from_color(128), 13, 16),
        129 => lemma_level(spec_from_color(129), 11, 19),
        130 => lemma_level(spec_from_color(130), 9, 23),
        131 => lemma_level(spec_from_color(131), 10, 21),
        132 => lemma_level(spec_from_color(132), 8, 26),
        133 => lemma_level(spec_from_color(133), 6, 34),
        134 => lemma_level(spec_from_color(134), 7, 30),
        135 => lemma_level(spec_from_color(135), 10, 22),
        136 => lemma_level(spec_from_color(136), 8, 27),
        137 => lemma_level(spec_from_color(137), 6, 35),
        138 => lemma_level(spec_from_color(138), 7, 31),
        139 => lemma_level(spec_from_color(139), 9, 25),
        140 => lemma_level(spec_from_color(140), 8, 28),
        141 => lemma_level(spec_from_color(141), 7, 32),
        142 => lemma_level(spec_from_color(142), 9, 26),
        143 => lemma_level(spec_from_color(143), 10, 24),
        144 => lemma_level(spec_from_color(144), 9, 27),
        145 => lemma_level(spec_from_color(145), 10, 25),
        146 => lemma_level(spec_from_color(146), 11, 23),
        147 => lemma_level(spec_from_color(147), 9, 28),
        148 => lemma_level(spec_from_color(148), 10, 26),
        149 => lemma_level(spec_from_color(149), 11, 24),
        150 => lemma_level(spec_from_color(150), 9, 29),
        151 => lemma_level(spec_from_color(151), 13, 21),
        152 => lemma_level(spec_from_color(152), 10, 27),
        153 => lemma_level(spec_from_color(153), 11, 25),
        154 => lemma_level(spec_from_color(154), 8, 34),
        155 => lemma_level(spec_from_color(155), 10, 28),
        156 => lemma_level(spec_from_color(156), 11, 26),
        157 => lemma_level(spec_from_color(157), 10, 29),
        158 => lemma_level(spec_from_color(158), 11, 27),
        159 => lemma_level(spec_from_color(159), 10, 30),
        160 => lemma_level(spec_from_color(160), 11, 28),
        161 => lemma_level(spec_from_color(161), 10, 31),
        162 => lemma_level(spec_from_color(162), 7, 43),
        163 => lemma_level(spec_from_color(163), 11, 29),
        164 => lemma_level(spec_from_color(164), 9, 35),
        165 => lemma_level(spec_from_color(165), 10, 32),
        166 => lemma_level(spec_from_color(166), 9, 36),
        167 => lemma_level(spec_from_color(167), 13, 26),
        168 => lemma_level(spec_from_color(168), 8, 41),
        169 => lemma_level(spec_from_color(169), 11, 31),
        170 => lemma_level(spec_from_color(170), 14, 25),
        171 => lemma_level(spec_from_color(171), 13, 27),
        172 => lemma_level(spec_from_color(172), 12, 30),
        173 => lemma_level(spec_from_color(173), 11, 33),
        174 => lemma_level(spec_from_color(174), 12, 31),
        175 => lemma_level(spec_from_color(175), 11, 34),
        176 => lemma_level(spec_from_color(176), 12, 32),
        177 => lemma_level(spec_from_color(177), 11, 35),
        178 => lemma_level(spec_from_color(178), 8, 47),
        179 => lemma_level(spec_from_color(179), 10, 39),
        180 => lemma_level(spec_from_color(180), 11, 36),
        181 => lemma_level(spec_from_color(181), 10, 40),
        182 => lemma_level(spec_from_color(182), 11, 37),
        183 => lemma_level(spec_from_color(183), 9, 45),
        184 => lemma_level(spec_from_color(184), 12, 35),
        185 => lemma_level(spec_from_color(185), 7, 57),
        186 => lemma_level(spec_from_color(186), 10, 42),
        187 => lemma_level(spec_from_color(187), 11, 39),
        188 => lemma_level(spec_from_color(188), 13, 34),
        189 => lemma_level(spec_from_color(189), 11, 40),
        190 => lemma_level(spec_from_color(190), 10, 44),
        191 => lemma_level(spec_from_color(191), 11, 41),
        _ => {},
    }
}

proof fn lemma_round_trip_3(color: u8)
    requires
        192 <= color,
    ensures
        round_trips(color),
{
    match color {
        192 => lemma_level(spec_from_color(192), 10, 45),
        193 => lemma_level(spec_from_color(193), 9, 50),
        194 => lemma_level(spec_from_color(194), 11, 42),
        195 => lemma_level(spec_from_color(195), 12, 39),
        196 => lemma_level(spec_from_color(196), 11, 43),
        197 => lemma_level(spec_from_color(197), 12, 40),
        198 => lemma_level(spec_from_color(198), 11, 44),
        199 => lemma_level(spec_from_color(199), 12, 41),
        200 => lemma_level(spec_from_color(200), 11, 45),
        201 => lemma_level(spec_from_color(201), 12, 42),
        202 => lemma_level(spec_from_color(202), 11, 46),
        203 => lemma_level(spec_from_color(203), 12, 43),
        204 => lemma_level(spec_from_color(204), 11, 47),
        205 => lemma_level(spec_from_color(205), 14, 38),
        206 => lemma_level(spec_from_color(206), 12, 44),
        207 => lemma_level(spec_from_color(207), 11, 48),
        208 => lemma_level(spec_from_color(208), 12, 45),
        209 => lemma_level(spec_from_color(209), 10, 54),
        210 => lemma_level(spec_from_color(210), 12, 46),
        211 => lemma_level(spec_from_color(211), 11, 50),
        212 => lemma_level(spec_from_color(212), 12, 47),
        213 => lemma_level(spec_from_color(213), 13, 44),
        214 => lemma_level(spec_from_color(214), 12, 48),
        215 => lemma_level(spec_from_color(215), 13, 45),
        216 => lemma_level(spec_from_color(216), 11, 53),
        217 => lemma_level(spec_from_color(217), 13, 46),
        218 => lemma_level(spec_from_color(218), 12, 50),
        219 => lemma_level(spec_from_color(219), 13, 47),
        220 => lemma_level(spec_from_color(220), 12, 51),
        221 => lemma_level(spec_from_color(221), 13, 48),
        222 => lemma_level(spec_from_color(222), 12, 52),
        223 => lemma_level(spec_from_color(223), 13, 49),
        224 => lemma_level(spec_from_color(224), 14, 46),
        225 => lemma_level(spec_from_color(225), 13, 50),
        226 => lemma_level(spec_from_color(226), 13, 51),
        227 => lemma_level(spec_from_color(227), 13, 52),
        228 => lemma_level(spec_from_color(228), 14, 49),
        229 => lemma_level(spec_from_color(229), 13, 53),
        230 => lemma_level(spec_from_color(230), 13, 54),
        231 => lemma_level(spec_from_color(231), 12, 59),
        232 => lemma_level(spec_from_color(232), 13, 55),
        233 => lemma_level(spec_from_color(233), 13, 56),
        234 => lemma_level(spec_from_color(234), 12, 61),
        235 => lemma_level(spec_from_color(235), 13, 57),
        236 => lemma_level(spec_from_color(236), 14, 54),
        237 => lemma_level(spec_from_color(237), 12, 63),
        238 => lemma_level(spec_from_color(238), 13, 59),
        239 => lemma_level(spec_from_color(239), 13, 60),
        240 => lemma_level(spec_from_color(240), 13, 61),
        241 => lemma_level(spec_from_color(241), 14, 58),
        242 => lemma_level(spec_from_color(242), 13, 63),
        243 => lemma_level(spec_from_color(243), 14, 59),
        244 => lemma_level(spec_from_color(244), 15, 56),
        245 => lemma_level(spec_from_color(245), 14, 60),
        246 => lemma_level(spec_from_color(246), 15, 57),
        247 => lemma_level(spec_from_color(247), 14, 61),
        248 => lemma_level(spec_from_color(248), 15, 58),
        249 => lemma_level(spec_from_color(249), 14, 62),
        250 => lemma_level(spec_from_color(250), 15, 59),
        251 => lemma_level(spec_from_color(251), 14, 63),
        252 => lemma_level(spec_from_color(252), 15, 60),
        253 => lemma_level(spec_from_color(253), 15, 61),
        254 => lemma_level(spec_from_color(254), 15, 62),
        255 => lemma_level(spec_from_color(255), 15, 63),
        _ => {},
    }
}

/// Forward table: a logical color to its packed hardware level, brightness in
/// the high byte and PWM in the low byte.
pub open spec fn color_to_hardware(i: u8) -> u16 {
    if i < 64 {
        color_to_hardware_0(i)
    } else if i < 128 {
        color_to_hardware_1(i)
    } else if i < 192 {
        color_to_hardware_2(i)
    } else {
        color_to_hardware_3(i)
    }
}

pub open spec fn color_to_hardware_0(i: u8) -> u16 {
    match i {
        0 => 0x0000, 1 => 0x0001, 2 => 0x0002, 3 => 0x0003, 4 => 0x0004, 5 => 0x0005, 6 => 0x0006, 7 => 0x0007,
        8 => 0x0008, 9 => 0x0009, 10 => 0x000a, 11 => 0x000b, 12 => 0x000c, 13 => 0x000d, 14 => 0x000e, 15 => 0x000f,
        16 => 0x0010, 17 => 0x0011, 18 => 0x0012, 19 => 0x0013, 20 => 0x0014, 21 => 0x0015, 22 => 0x0016, 23 => 0x0017,
        24 => 0x0018, 25 => 0x0019, 26 => 0x001a, 27 => 0x001b, 28 => 0x001c, 29 => 0x001d, 30 => 0x001e, 31 => 0x001f,
        32 => 0x0020, 33 => 0x0021, 34 => 0x0022, 35 => 0x0023, 36 => 0x0024, 37 => 0x0025, 38 => 0x0026, 39 => 0x0027,
        40 => 0x0028, 41 => 0x0029, 42 => 0x002a, 43 => 0x002b, 44 => 0x002c, 45 => 0x002d, 46 => 0x002e, 47 => 0x002f,
        48 => 0x0030, 49 => 0x0031, 50 => 0x0032, 51 => 0x0033, 52 => 0x0034, 53 => 0x0035, 54 => 0x0036, 55 => 0x0037,
        56 => 0x0038, 57 => 0x0039, 58 => 0x003a, 59 => 0x003b, 60 => 0x003c, 61 => 0x003d, 62 => 0x003e, 63 => 0x003f,
        _ => 0,
    }
}

pub open spec fn color_to_hardware_1(i: u8) -> u16 {
    match i {
        64 => 0x0120, 65 => 0x040d, 66 => 0x050b, 67 => 0x0311, 68 => 0x0217, 69 => 0x040e, 70 => 0x050c, 71 => 0x0125,
        72 => 0x040f, 73 => 0x0313, 74 => 0x060b, 75 => 0x050d, 76 => 0x070a, 77 => 0x0809, 78 => 0x0b07, 79 => 0x0a08,
        80 => 0x0909, 81 => 0x0c07, 82 => 0x0b08, 83 => 0x0c08, 84 => 0x0e07, 85 => 0x0b09, 86 => 0x0a0a, 87 => 0x0d08,
        88 => 0x0c09, 89 => 0x0b0a, 90 => 0x0d09, 91 => 0x090d, 92 => 0x0a0c, 93 => 0x0f08, 94 => 0x090e, 95 => 0x0a0d,
        96 => 0x0810, 97 => 0x090f, 98 => 0x0713, 99 => 0x0811, 100 => 0x0a0e, 101 => 0x0b0d, 102 => 0x0910, 103 => 0x0812,
        104 => 0x0a0f, 105 => 0x0b0e, 106 => 0x0c0d, 107 => 0x0911, 108 => 0x0813, 109 => 0x0a10, 110 => 0x0912, 111 => 0x061a,
        112 => 0x0717, 113 => 0x0815, 114 => 0x0913, 115 => 0x0b10, 116 => 0x0c0f, 117 => 0x0d0e, 118 => 0x0a12, 119 => 0x0914,
        120 => 0x0b11, 121 => 0x0c10, 122 => 0x0a13, 123 => 0x0915, 124 => 0x0818, 125 => 0x061f, 126 => 0x0916, 127 => 0x0c11,
        _ => 0,
    }
}

pub open spec fn color_to_hardware_2(i: u8) -> u16 {
    match i {
        128 => 0x0d10, 129 => 0x0b13, 130 => 0x0917, 131 => 0x0a15, 132 => 0x081a, 133 => 0x0622, 134 => 0x071e, 135 => 0x0a16,
        136 => 0x081b, 137 => 0x0623, 138 => 0x071f, 139 => 0x0919, 140 => 0x081c, 141 => 0x0720, 142 => 0x091a, 143 => 0x0a18,
        144 => 0x091b, 145 => 0x0a19, 146 => 0x0b17, 147 => 0x091c, 148 => 0x0a1a, 149 => 0x0b18, 150 => 0x091d, 151 => 0x0d15,
        152 => 0x0a1b, 153 => 0x0b19, 154 => 0x0822, 155 => 0x0a1c, 156 => 0x0b1a, 157 => 0x0a1d, 158 => 0x0b1b, 159 => 0x0a1e,
        160 => 0x0b1c, 161 => 0x0a1f, 162 => 0x072b, 163 => 0x0b1d, 164 => 0x0923, 165 => 0x0a20, 166 => 0x0924, 167 => 0x0d1a,
        168 => 0x0829, 169 => 0x0b1f, 170 => 0x0e19, 171 => 0x0d1b, 172 => 0x0c1e, 173 => 0x0b21, 174 => 0x0c1f, 175 => 0x0b22,
        176 => 0x0c20, 177 => 0x0b23, 178 => 0x082f, 179 => 0x0a27, 180 => 0x0b24, 181 => 0x0a28, 182 => 0x0b25, 183 => 0x092d,
        184 => 0x0c23, 185 => 0x0739, 186 => 0x0a2a, 187 => 0x0b27, 188 => 0x0d22, 189 => 0x0b28, 190 => 0x0a2c, 191 => 0x0b29,
        _ => 0,
    }
}

pub open spec fn color_to_hardware_3(i: u8) -> u16 {
    match i {
        192 => 0x0a2d, 193 => 0x0932, 194 => 0x0b2a, 195 => 0x0c27, 196 => 0x0b2b, 197 => 0x0c28, 198 => 0x0b2c, 199 => 0x0c29,
        200 => 0x0b2d, 201 => 0x0c2a, 202 => 0x0b2e, 203 => 0x0c2b, 204 => 0x0b2f, 205 => 0x0e26, 206 => 0x0c2c, 207 => 0x0b30,
        208 => 0x0c2d, 209 => 0x0a36, 210 => 0x0c2e, 211 => 0x0b32, 212 => 0x0c2f, 213 => 0x0d2c, 214 => 0x0c30, 215 => 0x0d2d,
        216 => 0x0b35, 217 => 0x0d2e, 218 => 0x0c32, 219 => 0x0d2f, 220 => 0x0c33, 221 => 0x0d30, 222 => 0x0c34, 223 => 0x0d31,
        224 => 0x0e2e, 225 => 0x0d32, 226 => 0x0d33, 227 => 0x0d34, 228 => 0x0e31, 229 => 0x0d35, 230 => 0x0d36, 231 => 0x0c3b,
        232 => 0x0d37, 233 => 0x0d38, 234 => 0x0c3d, 235 => 0x0d39, 236 => 0x0e36, 237 => 0x0c3f, 238 => 0x0d3b, 239 => 0x0d3c,
        240 => 0x0d3d, 241 => 0x0e3a, 242 => 0x0d3f, 243 => 0x0e3b, 244 => 0x0f38, 245 => 0x0e3c, 246 => 0x0f39, 247 => 0x0e3d,
        248 => 0x0f3a, 249 => 0x0e3e, 250 => 0x0f3b, 251 => 0x0e3f, 252 => 0x0f3c, 253 => 0x0f3d, 254 => 0x0f3e, 255 => 0x0f3f,
        _ => 0,
    }
}

/// Inverse table: a combined drive level `pwm * (brightness + 1)` to the logical
/// color it shows; levels past the table read as 0.
pub open spec fn level_to_color(i: u16) -> u8 {
    if i < 64 {
        level_to_color_0(i)
    } else if i < 128 {
        level_to_color_1(i)
    } else if i < 192 {
        level_to_color_2(i)
    } else if i < 256 {
        level_to_color_3(i)
    } else if i < 320 {
        level_to_color_4(i)
    } else if i < 384 {
        level_to_color_5(i)
    } else if i < 448 {
        level_to_color_6(i)
    } else if i < 512 {
        level_to_color_7(i)
    } else if i < 576 {
        level_to_color_8(i)
    } else if i < 640 {
        level_to_color_9(i)
    } else if i < 704 {
        level_to_color_10(i)
    } else if i < 768 {
        level_to_color_11(i)
    } else if i < 832 {
        level_to_color_12(i)
    } else if i < 896 {
        level_to_color_13(i)
    } else if i < 960 {
        level_to_color_14(i)
    } else {
        level_to_color_15(i)
    }
}

pub open spec fn level_to_color_0(i: u16) -> u8 {
    match i {
        0 => 0x00, 1 => 0x01, 2 => 0x02, 3 => 0x03, 4 => 0x04, 5 => 0x05, 6 => 0x06, 7 => 0x07,
        8 => 0x08, 9 => 0x09, 10 => 0x0a, 11 => 0x0b, 12 => 0x0c, 13 => 0x0d, 14 => 0x0e, 15 => 0x0f,
        16 => 0x10, 17 => 0x11, 18 => 0x12, 19 => 0x13, 20 => 0x14, 21 => 0x15, 22 => 0x16, 23 => 0x17,
        24 => 0x18, 25 => 0x19, 26 => 0x1a, 27 => 0x1b, 28 => 0x1c, 29 => 0x1d, 30 => 0x1e, 31 => 0x1f,
        32 => 0x20, 33 => 0x21, 34 => 0x22, 35 => 0x23, 36 => 0x24, 37 => 0x25, 38 => 0x26, 39 => 0x27,
        40 => 0x28, 41 => 0x29, 42 => 0x2a, 43 => 0x2b, 44 => 0x2c, 45 => 0x2d, 46 => 0x2e, 47 => 0x2f,
        48 => 0x30, 49 => 0x31, 50 => 0x32, 51 => 0x33, 52 => 0x34, 53 => 0x35, 54 => 0x36, 55 => 0x37,
        56 => 0x38, 57 => 0x39, 58 => 0x3a, 59 => 0x3b, 60 => 0x3c, 61 => 0x3d, 62 => 0x3e, 63 => 0x3f,
        _ => 0,
    }
}

pub open spec fn level_to_color_1(i: u16) -> u8 {
    match i {
        64 => 0x40, 65 => 0x41, 66 => 0x42, 67 => 0x42, 68 => 0x43, 69 => 0x44, 70 => 0x45, 71 => 0x45,
        72 => 0x46, 73 => 0x46, 74 => 0x47, 75 => 0x48, 76 => 0x49, 77 => 0x4a, 78 => 0x4b, 79 => 0x4b,
        80 => 0x4c, 81 => 0x4d, 82 => 0x4d, 83 => 0x4e, 84 => 0x4e, 85 => 0x4e, 86 => 0x4e, 87 => 0x4f,
        88 => 0x4f, 89 => 0x4f, 90 => 0x50, 91 => 0x51, 92 => 0x51, 93 => 0x51, 94 => 0x52, 95 => 0x52,
        96 => 0x52, 97 => 0x52, 98 => 0x52, 99 => 0x52, 100 => 0x52, 101 => 0x53, 102 => 0x53, 103 => 0x53,
        104 => 0x53, 105 => 0x54, 106 => 0x54, 107 => 0x55, 108 => 0x55, 109 => 0x55, 110 => 0x56, 111 => 0x56,
        112 => 0x57, 113 => 0x57, 114 => 0x57, 115 => 0x58, 116 => 0x58, 117 => 0x58, 118 => 0x58, 119 => 0x59,
        120 => 0x59, 121 => 0x59, 122 => 0x59, 123 => 0x59, 124 => 0x5a, 125 => 0x5a, 126 => 0x5a, 127 => 0x5a,
        _ => 0,
    }
}

pub open spec fn level_to_color_2(i: u16) -> u8 {
    match i {
        128 => 0x5d, 129 => 0x5b, 130 => 0x5b, 131 => 0x5b, 132 => 0x5c, 133 => 0x5c, 134 => 0x5d, 135 => 0x5d,
        136 => 0x5d, 137 => 0x5d, 138 => 0x5e, 139 => 0x5e, 140 => 0x5e, 141 => 0x5e, 142 => 0x5f, 143 => 0x5f,
        144 => 0x60, 145 => 0x60, 146 => 0x60, 147 => 0x60, 148 => 0x61, 149 => 0x61, 150 => 0x61, 151 => 0x61,
        152 => 0x62, 153 => 0x63, 154 => 0x64, 155 => 0x64, 156 => 0x65, 157 => 0x65, 158 => 0x65, 159 => 0x66,
        160 => 0x66, 161 => 0x66, 162 => 0x67, 163 => 0x67, 164 => 0x68, 165 => 0x68, 166 => 0x68, 167 => 0x69,
        168 => 0x69, 169 => 0x6a, 170 => 0x6b, 171 => 0x6c, 172 => 0x6c, 173 => 0x6c, 174 => 0x6d, 175 => 0x6d,
        176 => 0x6d, 177 => 0x6d, 178 => 0x6d, 179 => 0x6e, 180 => 0x6e, 181 => 0x6e, 182 => 0x6f, 183 => 0x6f,
        184 => 0x70, 185 => 0x70, 186 => 0x70, 187 => 0x71, 188 => 0x71, 189 => 0x71, 190 => 0x72, 191 => 0x72,
        _ => 0,
    }
}

pub open spec fn level_to_color_3(i: u16) -> u8 {
    match i {
        192 => 0x73, 193 => 0x73, 194 => 0x74, 195 => 0x74, 196 => 0x75, 197 => 0x75, 198 => 0x76, 199 => 0x76,
        200 => 0x77, 201 => 0x77, 202 => 0x77, 203 => 0x78, 204 => 0x78, 205 => 0x78, 206 => 0x78, 207 => 0x79,
        208 => 0x79, 209 => 0x7a, 210 => 0x7b, 211 => 0x7b, 212 => 0x7b, 213 => 0x7b, 214 => 0x7c, 215 => 0x7c,
        216 => 0x7c, 217 => 0x7d, 218 => 0x7d, 219 => 0x7e, 220 => 0x7e, 221 => 0x7f, 222 => 0x7f, 223 => 0x80,
        224 => 0x80, 225 => 0x80, 226 => 0x80, 227 => 0x81, 228 => 0x81, 229 => 0x81, 230 => 0x82, 231 => 0x83,
        232 => 0x83, 233 => 0x84, 234 => 0x84, 235 => 0x84, 236 => 0x84, 237 => 0x85, 238 => 0x85, 239 => 0x85,
        240 => 0x86, 241 => 0x86, 242 => 0x87, 243 => 0x88, 244 => 0x88, 245 => 0x89, 246 => 0x89, 247 => 0x8a,
        248 => 0x8a, 249 => 0x8a, 250 => 0x8b, 251 => 0x8b, 252 => 0x8c, 253 => 0x8c, 254 => 0x8c, 255 => 0x8d,
        _ => 0,
    }
}

pub open spec fn level_to_color_4(i: u16) -> u8 {
    match i {
        256 => 0x8d, 257 => 0x8d, 258 => 0x8d, 259 => 0x8e, 260 => 0x8e, 261 => 0x8e, 262 => 0x8e, 263 => 0x8f,
        264 => 0x8f, 265 => 0x8f, 266 => 0x8f, 267 => 0x8f, 268 => 0x90, 269 => 0x90, 270 => 0x90, 271 => 0x90,
        272 => 0x90, 273 => 0x91, 274 => 0x91, 275 => 0x91, 276 => 0x92, 277 => 0x92, 278 => 0x92, 279 => 0x93,
        280 => 0x93, 281 => 0x93, 282 => 0x93, 283 => 0x93, 284 => 0x94, 285 => 0x94, 286 => 0x94, 287 => 0x94,
        288 => 0x95, 289 => 0x95, 290 => 0x96, 291 => 0x96, 292 => 0x96, 293 => 0x97, 294 => 0x97, 295 => 0x97,
        296 => 0x98, 297 => 0x98, 298 => 0x98, 299 => 0x99, 300 => 0x99, 301 => 0x99, 302 => 0x99, 303 => 0x99,
        304 => 0x9a, 305 => 0x9a, 306 => 0x9a, 307 => 0x9a, 308 => 0x9b, 309 => 0x9b, 310 => 0x9b, 311 => 0x9c,
        312 => 0x9c, 313 => 0x9c, 314 => 0x9c, 315 => 0x9c, 316 => 0x9d, 317 => 0x9d, 318 => 0x9d, 319 => 0x9d,
        _ => 0,
    }
}

pub open spec fn level_to_color_5(i: u16) -> u8 {
    match i {
        320 => 0x9d, 321 => 0x9d, 322 => 0x9e, 323 => 0x9e, 324 => 0x9e, 325 => 0x9e, 326 => 0x9e, 327 => 0x9e,
        328 => 0x9f, 329 => 0x9f, 330 => 0x9f, 331 => 0x9f, 332 => 0x9f, 333 => 0x9f, 334 => 0xa0, 335 => 0xa0,
        336 => 0xa0, 337 => 0xa0, 338 => 0xa0, 339 => 0xa1, 340 => 0xa1, 341 => 0xa1, 342 => 0xa1, 343 => 0xa2,
        344 => 0xa2, 345 => 0xa2, 346 => 0xa2, 347 => 0xa3, 348 => 0xa3, 349 => 0xa3, 350 => 0xa4, 351 => 0xa4,
        352 => 0xa5, 353 => 0xa5, 354 => 0xa5, 355 => 0xa5, 356 => 0xa5, 357 => 0xa6, 358 => 0xa6, 359 => 0xa6,
        360 => 0xa6, 361 => 0xa6, 362 => 0xa6, 363 => 0xa7, 364 => 0xa7, 365 => 0xa7, 366 => 0xa7, 367 => 0xa8,
        368 => 0xa8, 369 => 0xa8, 370 => 0xa8, 371 => 0xa9, 372 => 0xa9, 373 => 0xa9, 374 => 0xaa, 375 => 0xaa,
        376 => 0xaa, 377 => 0xab, 378 => 0xab, 379 => 0xab, 380 => 0xab, 381 => 0xab, 382 => 0xab, 383 => 0xab,
        _ => 0,
    }
}

pub open spec fn level_to_color_6(i: u16) -> u8 {
    match i {
        384 => 0xab, 385 => 0xac, 386 => 0xac, 387 => 0xac, 388 => 0xac, 389 => 0xac, 390 => 0xac, 391 => 0xac,
        392 => 0xac, 393 => 0xac, 394 => 0xad, 395 => 0xad, 396 => 0xad, 397 => 0xad, 398 => 0xad, 399 => 0xad,
        400 => 0xae, 401 => 0xae, 402 => 0xae, 403 => 0xae, 404 => 0xae, 405 => 0xae, 406 => 0xaf, 407 => 0xaf,
        408 => 0xaf, 409 => 0xaf, 410 => 0xaf, 411 => 0xaf, 412 => 0xaf, 413 => 0xb0, 414 => 0xb0, 415 => 0xb0,
        416 => 0xb0, 417 => 0xb0, 418 => 0xb0, 419 => 0xb1, 420 => 0xb1, 421 => 0xb1, 422 => 0xb2, 423 => 0xb2,
        424 => 0xb2, 425 => 0xb2, 426 => 0xb2, 427 => 0xb3, 428 => 0xb3, 429 => 0xb3, 430 => 0xb3, 431 => 0xb4,
        432 => 0xb4, 433 => 0xb4, 434 => 0xb4, 435 => 0xb4, 436 => 0xb4, 437 => 0xb5, 438 => 0xb5, 439 => 0xb5,
        440 => 0xb5, 441 => 0xb5, 442 => 0xb5, 443 => 0xb6, 444 => 0xb6, 445 => 0xb6, 446 => 0xb6, 447 => 0xb6,
        _ => 0,
    }
}

pub open spec fn level_to_color_7(i: u16) -> u8 {
    match i {
        448 => 0xb7, 449 => 0xb7, 450 => 0xb7, 451 => 0xb7, 452 => 0xb7, 453 => 0xb8, 454 => 0xb8, 455 => 0xb8,
        456 => 0xb9, 457 => 0xb9, 458 => 0xb9, 459 => 0xb9, 460 => 0xba, 461 => 0xba, 462 => 0xba, 463 => 0xba,
        464 => 0xba, 465 => 0xba, 466 => 0xbb, 467 => 0xbb, 468 => 0xbb, 469 => 0xbb, 470 => 0xbb, 471 => 0xbb,
        472 => 0xbb, 473 => 0xbc, 474 => 0xbc, 475 => 0xbc, 476 => 0xbc, 477 => 0xbc, 478 => 0xbc, 479 => 0xbd,
        480 => 0xbd, 481 => 0xbd, 482 => 0xbd, 483 => 0xbe, 484 => 0xbe, 485 => 0xbe, 486 => 0xbe, 487 => 0xbe,
        488 => 0xbe, 489 => 0xbf, 490 => 0xbf, 491 => 0xbf, 492 => 0xbf, 493 => 0xbf, 494 => 0xc0, 495 => 0xc0,
        496 => 0xc0, 497 => 0xc0, 498 => 0xc1, 499 => 0xc1, 500 => 0xc1, 501 => 0xc1, 502 => 0xc1, 503 => 0xc2,
        504 => 0xc2, 505 => 0xc2, 506 => 0xc3, 507 => 0xc3, 508 => 0xc3, 509 => 0xc3, 510 => 0xc3, 511 => 0xc3,
        _ => 0,
    }
}

pub open spec fn level_to_color_8(i: u16) -> u8 {
    match i {
        512 => 0xc4, 513 => 0xc4, 514 => 0xc4, 515 => 0xc4, 516 => 0xc4, 517 => 0xc4, 518 => 0xc4, 519 => 0xc5,
        520 => 0xc5, 521 => 0xc5, 522 => 0xc5, 523 => 0xc5, 524 => 0xc5, 525 => 0xc6, 526 => 0xc6, 527 => 0xc6,
        528 => 0xc6, 529 => 0xc6, 530 => 0xc6, 531 => 0xc7, 532 => 0xc7, 533 => 0xc7, 534 => 0xc7, 535 => 0xc7,
        536 => 0xc7, 537 => 0xc8, 538 => 0xc8, 539 => 0xc8, 540 => 0xc8, 541 => 0xc8, 542 => 0xc8, 543 => 0xc8,
        544 => 0xc9, 545 => 0xc9, 546 => 0xc9, 547 => 0xc9, 548 => 0xc9, 549 => 0xc9, 550 => 0xca, 551 => 0xca,
        552 => 0xca, 553 => 0xca, 554 => 0xca, 555 => 0xca, 556 => 0xcb, 557 => 0xcb, 558 => 0xcb, 559 => 0xcb,
        560 => 0xcb, 561 => 0xcb, 562 => 0xcc, 563 => 0xcc, 564 => 0xcc, 565 => 0xcc, 566 => 0xcc, 567 => 0xcc,
        568 => 0xcd, 569 => 0xcd, 570 => 0xcd, 571 => 0xcd, 572 => 0xce, 573 => 0xce, 574 => 0xce, 575 => 0xcf,
        _ => 0,
    }
}

pub open spec fn level_to_color_9(i: u16) -> u8 {
    match i {
        576 => 0xcf, 577 => 0xcf, 578 => 0xcf, 579 => 0xcf, 580 => 0xcf, 581 => 0xd0, 582 => 0xd0, 583 => 0xd0,
        584 => 0xd0, 585 => 0xd0, 586 => 0xd0, 587 => 0xd0, 588 => 0xd0, 589 => 0xd0, 590 => 0xd1, 591 => 0xd1,
        592 => 0xd1, 593 => 0xd1, 594 => 0xd1, 595 => 0xd1, 596 => 0xd1, 597 => 0xd2, 598 => 0xd2, 599 => 0xd2,
        600 => 0xd3, 601 => 0xd3, 602 => 0xd3, 603 => 0xd3, 604 => 0xd3, 605 => 0xd3, 606 => 0xd4, 607 => 0xd4,
        608 => 0xd4, 609 => 0xd4, 610 => 0xd4, 611 => 0xd4, 612 => 0xd4, 613 => 0xd4, 614 => 0xd5, 615 => 0xd5,
        616 => 0xd5, 617 => 0xd5, 618 => 0xd5, 619 => 0xd5, 620 => 0xd5, 621 => 0xd6, 622 => 0xd6, 623 => 0xd6,
        624 => 0xd6, 625 => 0xd6, 626 => 0xd6, 627 => 0xd6, 628 => 0xd7, 629 => 0xd7, 630 => 0xd7, 631 => 0xd7,
        632 => 0xd7, 633 => 0xd7, 634 => 0xd8, 635 => 0xd8, 636 => 0xd8, 637 => 0xd8, 638 => 0xd8, 639 => 0xd8,
        _ => 0,
    }
}

pub open spec fn level_to_color_10(i: u16) -> u8 {
    match i {
        640 => 0xd8, 641 => 0xd9, 642 => 0xd9, 643 => 0xd9, 644 => 0xd9, 645 => 0xd9, 646 => 0xd9, 647 => 0xd9,
        648 => 0xda, 649 => 0xda, 650 => 0xda, 651 => 0xda, 652 => 0xda, 653 => 0xda, 654 => 0xda, 655 => 0xdb,
        656 => 0xdb, 657 => 0xdb, 658 => 0xdb, 659 => 0xdb, 660 => 0xdb, 661 => 0xdc, 662 => 0xdc, 663 => 0xdc,
        664 => 0xdc, 665 => 0xdc, 666 => 0xdc, 667 => 0xdc, 668 => 0xdd, 669 => 0xdd, 670 => 0xdd, 671 => 0xdd,
        672 => 0xdd, 673 => 0xdd, 674 => 0xdd, 675 => 0xde, 676 => 0xde, 677 => 0xde, 678 => 0xde, 679 => 0xde,
        680 => 0xde, 681 => 0xde, 682 => 0xdf, 683 => 0xdf, 684 => 0xdf, 685 => 0xdf, 686 => 0xdf, 687 => 0xdf,
        688 => 0xdf, 689 => 0xe0, 690 => 0xe0, 691 => 0xe0, 692 => 0xe0, 693 => 0xe0, 694 => 0xe0, 695 => 0xe0,
        696 => 0xe1, 697 => 0xe1, 698 => 0xe1, 699 => 0xe1, 700 => 0xe1, 701 => 0xe1, 702 => 0xe1, 703 => 0xe1,
        _ => 0,
    }
}

pub open spec fn level_to_color_11(i: u16) -> u8 {
    match i {
        704 => 0xe1, 705 => 0xe1, 706 => 0xe1, 707 => 0xe1, 708 => 0xe2, 709 => 0xe2, 710 => 0xe2, 711 => 0xe2,
        712 => 0xe2, 713 => 0xe2, 714 => 0xe2, 715 => 0xe2, 716 => 0xe2, 717 => 0xe2, 718 => 0xe2, 719 => 0xe2,
        720 => 0xe2, 721 => 0xe2, 722 => 0xe3, 723 => 0xe3, 724 => 0xe3, 725 => 0xe3, 726 => 0xe3, 727 => 0xe3,
        728 => 0xe3, 729 => 0xe3, 730 => 0xe3, 731 => 0xe3, 732 => 0xe4, 733 => 0xe4, 734 => 0xe4, 735 => 0xe4,
        736 => 0xe4, 737 => 0xe4, 738 => 0xe4, 739 => 0xe5, 740 => 0xe5, 741 => 0xe5, 742 => 0xe5, 743 => 0xe5,
        744 => 0xe5, 745 => 0xe5, 746 => 0xe5, 747 => 0xe5, 748 => 0xe5, 749 => 0xe5, 750 => 0xe6, 751 => 0xe6,
        752 => 0xe6, 753 => 0xe6, 754 => 0xe6, 755 => 0xe6, 756 => 0xe6, 757 => 0xe6, 758 => 0xe6, 759 => 0xe6,
        760 => 0xe6, 761 => 0xe6, 762 => 0xe7, 763 => 0xe7, 764 => 0xe7, 765 => 0xe7, 766 => 0xe7, 767 => 0xe7,
        _ => 0,
    }
}

pub open spec fn level_to_color_12(i: u16) -> u8 {
    match i {
        768 => 0xe7, 769 => 0xe8, 770 => 0xe8, 771 => 0xe8, 772 => 0xe8, 773 => 0xe8, 774 => 0xe8, 775 => 0xe8,
        776 => 0xe8, 777 => 0xe8, 778 => 0xe9, 779 => 0xe9, 780 => 0xe9, 781 => 0xe9, 782 => 0xe9, 783 => 0xe9,
        784 => 0xe9, 785 => 0xe9, 786 => 0xe9, 787 => 0xe9, 788 => 0xe9, 789 => 0xea, 790 => 0xea, 791 => 0xea,
        792 => 0xea, 793 => 0xea, 794 => 0xea, 795 => 0xea, 796 => 0xeb, 797 => 0xeb, 798 => 0xeb, 799 => 0xeb,
        800 => 0xeb, 801 => 0xeb, 802 => 0xeb, 803 => 0xeb, 804 => 0xeb, 805 => 0xec, 806 => 0xec, 807 => 0xec,
        808 => 0xec, 809 => 0xec, 810 => 0xec, 811 => 0xec, 812 => 0xec, 813 => 0xec, 814 => 0xec, 815 => 0xed,
        816 => 0xed, 817 => 0xed, 818 => 0xed, 819 => 0xed, 820 => 0xed, 821 => 0xed, 822 => 0xed, 823 => 0xee,
        824 => 0xee, 825 => 0xee, 826 => 0xee, 827 => 0xee, 828 => 0xee, 829 => 0xee, 830 => 0xee, 831 => 0xee,
        _ => 0,
    }
}

pub open spec fn level_to_color_13(i: u16) -> u8 {
    match i {
        832 => 0xee, 833 => 0xee, 834 => 0xef, 835 => 0xef, 836 => 0xef, 837 => 0xef, 838 => 0xef, 839 => 0xef,
        840 => 0xef, 841 => 0xef, 842 => 0xef, 843 => 0xef, 844 => 0xef, 845 => 0xef, 846 => 0xef, 847 => 0xef,
        848 => 0xf0, 849 => 0xf0, 850 => 0xf0, 851 => 0xf0, 852 => 0xf0, 853 => 0xf0, 854 => 0xf0, 855 => 0xf0,
        856 => 0xf0, 857 => 0xf0, 858 => 0xf0, 859 => 0xf0, 860 => 0xf0, 861 => 0xf0, 862 => 0xf0, 863 => 0xf1,
        864 => 0xf1, 865 => 0xf1, 866 => 0xf1, 867 => 0xf1, 868 => 0xf1, 869 => 0xf1, 870 => 0xf1, 871 => 0xf1,
        872 => 0xf1, 873 => 0xf1, 874 => 0xf1, 875 => 0xf1, 876 => 0xf1, 877 => 0xf2, 878 => 0xf2, 879 => 0xf2,
        880 => 0xf2, 881 => 0xf2, 882 => 0xf2, 883 => 0xf2, 884 => 0xf3, 885 => 0xf3, 886 => 0xf3, 887 => 0xf3,
        888 => 0xf3, 889 => 0xf3, 890 => 0xf3, 891 => 0xf4, 892 => 0xf4, 893 => 0xf4, 894 => 0xf4, 895 => 0xf4,
        _ => 0,
    }
}

pub open spec fn level_to_color_14(i: u16) -> u8 {
    match i {
        896 => 0xf4, 897 => 0xf4, 898 => 0xf4, 899 => 0xf5, 900 => 0xf5, 901 => 0xf5, 902 => 0xf5, 903 => 0xf5,
        904 => 0xf5, 905 => 0xf5, 906 => 0xf5, 907 => 0xf6, 908 => 0xf6, 909 => 0xf6, 910 => 0xf6, 911 => 0xf6,
        912 => 0xf6, 913 => 0xf6, 914 => 0xf7, 915 => 0xf7, 916 => 0xf7, 917 => 0xf7, 918 => 0xf7, 919 => 0xf7,
        920 => 0xf7, 921 => 0xf7, 922 => 0xf8, 923 => 0xf8, 924 => 0xf8, 925 => 0xf8, 926 => 0xf8, 927 => 0xf8,
        928 => 0xf8, 929 => 0xf8, 930 => 0xf9, 931 => 0xf9, 932 => 0xf9, 933 => 0xf9, 934 => 0xf9, 935 => 0xf9,
        936 => 0xf9, 937 => 0xf9, 938 => 0xfa, 939 => 0xfa, 940 => 0xfa, 941 => 0xfa, 942 => 0xfa, 943 => 0xfa,
        944 => 0xfa, 945 => 0xfb, 946 => 0xfb, 947 => 0xfb, 948 => 0xfb, 949 => 0xfb, 950 => 0xfb, 951 => 0xfb,
        952 => 0xfb, 953 => 0xfc, 954 => 0xfc, 955 => 0xfc, 956 => 0xfc, 957 => 0xfc, 958 => 0xfc, 959 => 0xfc,
        _ => 0,
    }
}

pub open spec fn level_to_color_15(i: u16) -> u8 {
    match i {
        960 => 0xfc, 961 => 0xfc, 962 => 0xfc, 963 => 0xfc, 964 => 0xfc, 965 => 0xfc, 966 => 0xfc, 967 => 0xfc,
        968 => 0xfc, 969 => 0xfd, 970 => 0xfd, 971 => 0xfd, 972 => 0xfd, 973 => 0xfd, 974 => 0xfd, 975 => 0xfd,
        976 => 0xfd, 977 => 0xfd, 978 => 0xfd, 979 => 0xfd, 980 => 0xfd, 981 => 0xfd, 982 => 0xfd, 983 => 0xfd,
        984 => 0xfd, 985 => 0xfe, 986 => 0xfe, 987 => 0xfe, 988 => 0xfe, 989 => 0xfe, 990 => 0xfe, 991 => 0xfe,
        992 => 0xfe, 993 => 0xfe, 994 => 0xfe, 995 => 0xfe, 996 => 0xfe, 997 => 0xfe, 998 => 0xfe, 999 => 0xfe,
        1000 => 0xfe, 1001 => 0xff, 1002 => 0xff, 1003 => 0xff, 1004 => 0xff, 1005 => 0xff, 1006 => 0xff, 1007 => 0xff,
        1008 => 0xff,
        _ => 0,
    }
}

/// Reads the forward table.
fn color_to_hardware_lookup(i: u8) -> (r: u16)
    ensures
        r == color_to_hardware(i),
{
    if i < 64 {
        color_to_hardware_lookup_0(i)
    } else if i < 128 {
        color_to_hardware_lookup_1(i)
    } else if i < 192 {
        color_to_hardware_lookup_2(i)
    } else {
        color_to_hardware_lookup_3(i)
    }
}

fn color_to_hardware_lookup_0(i: u8) -> (r: u16)
    requires
        i < 64,
    ensures
        r == color_to_hardware(i),
{
    match i {
        0 => 0x0000, 1 => 0x0001, 2 => 0x0002, 3 => 0x0003, 4 => 0x0004, 5 => 0x0005, 6 => 0x0006, 7 => 0x0007,
        8 => 0x0008, 9 => 0x0009, 10 => 0x000a, 11 => 0x000b, 12 => 0x000c, 13 => 0x000d, 14 => 0x000e, 15 => 0x000f,
        16 => 0x0010, 17 => 0x0011, 18 => 0x0012, 19 => 0x0013, 20 => 0x0014, 21 => 0x0015, 22 => 0x0016, 23 => 0x0017,
        24 => 0x0018, 25 => 0x0019, 26 => 0x001a, 27 => 0x001b, 28 => 0x001c, 29 => 0x001d, 30 => 0x001e, 31 => 0x001f,
        32 => 0x0020, 33 => 0x0021, 34 => 0x0022, 35 => 0x0023, 36 => 0x0024, 37 => 0x0025, 38 => 0x0026, 39 => 0x0027,
        40 => 0x0028, 41 => 0x0029, 42 => 0x002a, 43 => 0x002b, 44 => 0x002c, 45 => 0x002d, 46 => 0x002e, 47 => 0x002f,
        48 => 0x0030, 49 => 0x0031, 50 => 0x0032, 51 => 0x0033, 52 => 0x0034, 53 => 0x0035, 54 => 0x0036, 55 => 0x0037,
        56 => 0x0038, 57 => 0x0039, 58 => 0x003a, 59 => 0x003b, 60 => 0x003c, 61 => 0x003d, 62 => 0x003e, 63 => 0x003f,
        _ => 0,
    }
}

fn color_to_hardware_lookup_1(i: u8) -> (r: u16)
    requires
        64 <= i < 128,
    ensures
        r == color_to_hardware(i),
{
    match i {
        64 => 0x0120, 65 => 0x040d, 66 => 0x050b, 67 => 0x0311, 68 => 0x0217, 69 => 0x040e, 70 => 0x050c, 71 => 0x0125,
        72 => 0x040f, 73 => 0x0313, 74 => 0x060b, 75 => 0x050d, 76 => 0x070a, 77 => 0x0809, 78 => 0x0b07, 79 => 0x0a08,
        80 => 0x0909, 81 => 0x0c07, 82 => 0x0b08, 83 => 0x0c08, 84 => 0x0e07, 85 => 0x0b09, 86 => 0x0a0a, 87 => 0x0d08,
        88 => 0x0c09, 89 => 0x0b0a, 90 => 0x0d09, 91 => 0x090d, 92 => 0x0a0c, 93 => 0x0f08, 94 => 0x090e, 95 => 0x0a0d,
        96 => 0x0810, 97 => 0x090f, 98 => 0x0713, 99 => 0x0811, 100 => 0x0a0e, 101 => 0x0b0d, 102 => 0x0910, 103 => 0x0812,
        104 => 0x0a0f, 105 => 0x0b0e, 106 => 0x0c0d, 107 => 0x0911, 108 => 0x0813, 109 => 0x0a10, 110 => 0x0912, 111 => 0x061a,
        112 => 0x0717, 113 => 0x0815, 114 => 0x0913, 115 => 0x0b10, 116 => 0x0c0f, 117 => 0x0d0e, 118 => 0x0a12, 119 => 0x0914,
        120 => 0x0b11, 121 => 0x0c10, 122 => 0x0a13, 123 => 0x0915, 124 => 0x0818, 125 => 0x061f, 126 => 0x0916, 127 => 0x0c11,
        _ => 0,
    }
}

fn color_to_hardware_lookup_2(i: u8) -> (r: u16)
    requires
        128 <= i < 192,
    ensures
        r == color_to_hardware(i),
{
    match i {
        128 => 0x0d10, 129 => 0x0b13, 130 => 0x0917, 131 => 0x0a15, 132 => 0x081a, 133 => 0x0622, 134 => 0x071e, 135 => 0x0a16,
        136 => 0x081b, 137 => 0x0623, 138 => 0x071f, 139 => 0x0919, 140 => 0x081c, 141 => 0x0720, 142 => 0x091a, 143 => 0x0a18,
        144 => 0x091b, 145 => 0x0a19, 146 => 0x0b17, 147 => 0x091c, 148 => 0x0a1a, 149 => 0x0b18, 150 => 0x091d, 151 => 0x0d15,
        152 => 0x0a1b, 153 => 0x0b19, 154 => 0x0822, 155 => 0x0a1c, 156 => 0x0b1a, 157 => 0x0a1d, 158 => 0x0b1b, 159 => 0x0a1e,
        160 => 0x0b1c, 161 => 0x0a1f, 162 => 0x072b, 163 => 0x0b1d, 164 => 0x0923, 165 => 0x0a20, 166 => 0x0924, 167 => 0x0d1a,
        168 => 0x0829, 169 => 0x0b1f, 170 => 0x0e19, 171 => 0x0d1b, 172 => 0x0c1e, 173 => 0x0b21, 174 => 0x0c1f, 175 => 0x0b22,
        176 => 0x0c20, 177 => 0x0b23, 178 => 0x082f, 179 => 0x0a27, 180 => 0x0b24, 181 => 0x0a28, 182 => 0x0b25, 183 => 0x092d,
        184 => 0x0c23, 185 => 0x0739, 186 => 0x0a2a, 187 => 0x0b27, 188 => 0x0d22, 189 => 0x0b28, 190 => 0x0a2c, 191 => 0x0b29,
        _ => 0,
    }
}

fn color_to_hardware_lookup_3(i: u8) -> (r: u16)
    requires
        192 <= i < 256,
    ensures
        r == color_to_hardware(i),
{
    match i {
        192 => 0x0a2d, 193 => 0x0932, 194 => 0x0b2a, 195 => 0x0c27, 196 => 0x0b2b, 197 => 0x0c28, 198 => 0x0b2c, 199 => 0x0c29,
        200 => 0x0b2d, 201 => 0x0c2a, 202 => 0x0b2e, 203 => 0x0c2b, 204 => 0x0b2f, 205 => 0x0e26, 206 => 0x0c2c, 207 => 0x0b30,
        208 => 0x0c2d, 209 => 0x0a36, 210 => 0x0c2e, 211 => 0x0b32, 212 => 0x0c2f, 213 => 0x0d2c, 214 => 0x0c30, 215 => 0x0d2d,
        216 => 0x0b35, 217 => 0x0d2e, 218 => 0x0c32, 219 => 0x0d2f, 220 => 0x0c33, 221 => 0x0d30, 222 => 0x0c34, 223 => 0x0d31,
        224 => 0x0e2e, 225 => 0x0d32, 226 => 0x0d33, 227 => 0x0d34, 228 => 0x0e31, 229 => 0x0d35, 230 => 0x0d36, 231 => 0x0c3b,
        232 => 0x0d37, 233 => 0x0d38, 234 => 0x0c3d, 235 => 0x0d39, 236 => 0x0e36, 237 => 0x0c3f, 238 => 0x0d3b, 239 => 0x0d3c,
        240 => 0x0d3d, 241 => 0x0e3a, 242 => 0x0d3f, 243 => 0x0e3b, 244 => 0x0f38, 245 => 0x0e3c, 246 => 0x0f39, 247 => 0x0e3d,
        248 => 0x0f3a, 249 => 0x0e3e, 250 => 0x0f3b, 251 => 0x0e3f, 252 => 0x0f3c, 253 => 0x0f3d, 254 => 0x0f3e, 255 => 0x0f3f,
        _ => 0,
    }
}

/// Reads the inverse table.
fn level_to_color_lookup(i: u16) -> (r: u8)
    requires
        i < 1009,
    ensures
        r == level_to_color(i),
{
    if i < 64 {
        level_to_color_lookup_0(i)
    } else if i < 128 {
        level_to_color_lookup_1(i)
    } else if i < 192 {
        level_to_color_lookup_2(i)
    } else if i < 256 {
        level_to_color_lookup_3(i)
    } else if i < 320 {
        level_to_color_lookup_4(i)
    } else if i < 384 {
        level_to_color_lookup_5(i)
    } else if i < 448 {
        level_to_color_lookup_6(i)
    } else if i < 512 {
        level_to_color_lookup_7(i)
    } else if i < 576 {
        level_to_color_lookup_8(i)
    } else if i < 640 {
        level_to_color_lookup_9(i)
    } else if i < 704 {
        level_to_color_lookup_10(i)
    } else if i < 768 {
        level_to_color_lookup_11(i)
    } else if i < 832 {
        level_to_color_lookup_12(i)
    } else if i < 896 {
        level_to_color_lookup_13(i)
    } else if i < 960 {
        level_to_color_lookup_14(i)
    } else {
        level_to_color_lookup_15(i)
    }
}

fn level_to_color_lookup_0(i: u16) -> (r: u8)
    requires
        i < 64,
    ensures
        r == level_to_color(i),
{
    match i {
        0 => 0x00, 1 => 0x01, 2 => 0x02, 3 => 0x03, 4 => 0x04, 5 => 0x05, 6 => 0x06, 7 => 0x07,
        8 => 0x08, 9 => 0x09, 10 => 0x0a, 11 => 0x0b, 12 => 0x0c, 13 => 0x0d, 14 => 0x0e, 15 => 0x0f,
        16 => 0x10, 17 => 0x11, 18 => 0x12, 19 => 0x13, 20 => 0x14, 21 => 0x15, 22 => 0x16, 23 => 0x17,
        24 => 0x18, 25 => 0x19, 26 => 0x1a, 27 => 0x1b, 28 => 0x1c, 29 => 0x1d, 30 => 0x1e, 31 => 0x1f,
        32 => 0x20, 33 => 0x21, 34 => 0x22, 35 => 0x23, 36 => 0x24, 37 => 0x25, 38 => 0x26, 39 => 0x27,
        40 => 0x28, 41 => 0x29, 42 => 0x2a, 43 => 0x2b, 44 => 0x2c, 45 => 0x2d, 46 => 0x2e, 47 => 0x2f,
        48 => 0x30, 49 => 0x31, 50 => 0x32, 51 => 0x33, 52 => 0x34, 53 => 0x35, 54 => 0x36, 55 => 0x37,
        56 => 0x38, 57 => 0x39, 58 => 0x3a, 59 => 0x3b, 60 => 0x3c, 61 => 0x3d, 62 => 0x3e, 63 => 0x3f,
        _ => 0,
    }
}

fn level_to_color_lookup_1(i: u16) -> (r: u8)
    requires
        64 <= i < 128,
    ensures
        r == level_to_color(i),
{
    match i {
        64 => 0x40, 65 => 0x41, 66 => 0x42, 67 => 0x42, 68 => 0x43, 69 => 0x44, 70 => 0x45, 71 => 0x45,
        72 => 0x46, 73 => 0x46, 74 => 0x47, 75 => 0x48, 76 => 0x49, 77 => 0x4a, 78 => 0x4b, 79 => 0x4b,
        80 => 0x4c, 81 => 0x4d, 82 => 0x4d, 83 => 0x4e, 84 => 0x4e, 85 => 0x4e, 86 => 0x4e, 87 => 0x4f,
        88 => 0x4f, 89 => 0x4f, 90 => 0x50, 91 => 0x51, 92 => 0x51, 93 => 0x51, 94 => 0x52, 95 => 0x52,
        96 => 0x52, 97 => 0x52, 98 => 0x52, 99 => 0x52, 100 => 0x52, 101 => 0x53, 102 => 0x53, 103 => 0x53,
        104 => 0x53, 105 => 0x54, 106 => 0x54, 107 => 0x55, 108 => 0x55, 109 => 0x55, 110 => 0x56, 111 => 0x56,
        112 => 0x57, 113 => 0x57, 114 => 0x57, 115 => 0x58, 116 => 0x58, 117 => 0x58, 118 => 0x58, 119 => 0x59,
        120 => 0x59, 121 => 0x59, 122 => 0x59, 123 => 0x59, 124 => 0x5a, 125 => 0x5a, 126 => 0x5a, 127 => 0x5a,
        _ => 0,
    }
}

fn level_to_color_lookup_2(i: u16) -> (r: u8)
    requires
        128 <= i < 192,
    ensures
        r == level_to_color(i),
{
    match i {
        128 => 0x5d, 129 => 0x5b, 130 => 0x5b, 131 => 0x5b, 132 => 0x5c, 133 => 0x5c, 134 => 0x5d, 135 => 0x5d,
        136 => 0x5d, 137 => 0x5d, 138 => 0x5e, 139 => 0x5e, 140 => 0x5e, 141 => 0x5e, 142 => 0x5f, 143 => 0x5f,
        144 => 0x60, 145 => 0x60, 146 => 0x60, 147 => 0x60, 148 => 0x61, 149 => 0x61, 150 => 0x61, 151 => 0x61,
        152 => 0x62, 153 => 0x63, 154 => 0x64, 155 => 0x64, 156 => 0x65, 157 => 0x65, 158 => 0x65, 159 => 0x66,
        160 => 0x66, 161 => 0x66, 162 => 0x67, 163 => 0x67, 164 => 0x68, 165 => 0x68, 166 => 0x68, 167 => 0x69,
        168 => 0x69, 169 => 0x6a, 170 => 0x6b, 171 => 0x6c, 172 => 0x6c, 173 => 0x6c, 174 => 0x6d, 175 => 0x6d,
        176 => 0x6d, 177 => 0x6d, 178 => 0x6d, 179 => 0x6e, 180 => 0x6e, 181 => 0x6e, 182 => 0x6f, 183 => 0x6f,
        184 => 0x70, 185 => 0x70, 186 => 0x70, 187 => 0x71, 188 => 0x71, 189 => 0x71, 190 => 0x72, 191 => 0x72,
        _ => 0,
    }
}

fn level_to_color_lookup_3(i: u16) -> (r: u8)
    requires
        192 <= i < 256,
    ensures
        r == level_to_color(i),
{
    match i {
        192 => 0x73, 193 => 0x73, 194 => 0x74, 195 => 0x74, 196 => 0x75, 197 => 0x75, 198 => 0x76, 199 => 0x76,
        200 => 0x77, 201 => 0x77, 202 => 0x77, 203 => 0x78, 204 => 0x78, 205 => 0x78, 206 => 0x78, 207 => 0x79,
        208 => 0x79, 209 => 0x7a, 210 => 0x7b, 211 => 0x7b, 212 => 0x7b, 213 => 0x7b, 214 => 0x7c, 215 => 0x7c,
        216 => 0x7c, 217 => 0x7d, 218 => 0x7d, 219 => 0x7e, 220 => 0x7e, 221 => 0x7f, 222 => 0x7f, 223 => 0x80,
        224 => 0x80, 225 => 0x80, 226 => 0x80, 227 => 0x81, 228 => 0x81, 229 => 0x81, 230 => 0x82, 231 => 0x83,
        232 => 0x83, 233 => 0x84, 234 => 0x84, 235 => 0x84, 236 => 0x84, 237 => 0x85, 238 => 0x85, 239 => 0x85,
        240 => 0x86, 241 => 0x86, 242 => 0x87, 243 => 0x88, 244 => 0x88, 245 => 0x89, 246 => 0x89, 247 => 0x8a,
        248 => 0x8a, 249 => 0x8a, 250 => 0x8b, 251 => 0x8b, 252 => 0x8c, 253 => 0x8c, 254 => 0x8c, 255 => 0x8d,
        _ => 0,
    }
}

fn level_to_color_lookup_4(i: u16) -> (r: u8)
    requires
        256 <= i < 320,
    ensures
        r == level_to_color(i),
{
    match i {
        256 => 0x8d, 257 => 0x8d, 258 => 0x8d, 259 => 0x8e, 260 => 0x8e, 261 => 0x8e, 262 => 0x8e, 263 => 0x8f,
        264 => 0x8f, 265 => 0x8f, 266 => 0x8f, 267 => 0x8f, 268 => 0x90, 269 => 0x90, 270 => 0x90, 271 => 0x90,
        272 => 0x90, 273 => 0x91, 274 => 0x91, 275 => 0x91, 276 => 0x92, 277 => 0x92, 278 => 0x92, 279 => 0x93,
        280 => 0x93, 281 => 0x93, 282 => 0x93, 283 => 0x93, 284 => 0x94, 285 => 0x94, 286 => 0x94, 287 => 0x94,
        288 => 0x95, 289 => 0x95, 290 => 0x96, 291 => 0x96, 292 => 0x96, 293 => 0x97, 294 => 0x97, 295 => 0x97,
        296 => 0x98, 297 => 0x98, 298 => 0x98, 299 => 0x99, 300 => 0x99, 301 => 0x99, 302 => 0x99, 303 => 0x99,
        304 => 0x9a, 305 => 0x9a, 306 => 0x9a, 307 => 0x9a, 308 => 0x9b, 309 => 0x9b, 310 => 0x9b, 311 => 0x9c,
        312 => 0x9c, 313 => 0x9c, 314 => 0x9c, 315 => 0x9c, 316 => 0x9d, 317 => 0x9d, 318 => 0x9d, 319 => 0x9d,
        _ => 0,
    }
}

fn level_to_color_lookup_5(i: u16) -> (r: u8)
    requires
        320 <= i < 384,
    ensures
        r == level_to_color(i),
{
    match i {
        320 => 0x9d, 321 => 0x9d, 322 => 0x9e, 323 => 0x9e, 324 => 0x9e, 325 => 0x9e, 326 => 0x9e, 327 => 0x9e,
        328 => 0x9f, 329 => 0x9f, 330 => 0x9f, 331 => 0x9f, 332 => 0x9f, 333 => 0x9f, 334 => 0xa0, 335 => 0xa0,
        336 => 0xa0, 337 => 0xa0, 338 => 0xa0, 339 => 0xa1, 340 => 0xa1, 341 => 0xa1, 342 => 0xa1, 343 => 0xa2,
        344 => 0xa2, 345 => 0xa2, 346 => 0xa2, 347 => 0xa3, 348 => 0xa3, 349 => 0xa3, 350 => 0xa4, 351 => 0xa4,
        352 => 0xa5, 353 => 0xa5, 354 => 0xa5, 355 => 0xa5, 356 => 0xa5, 357 => 0xa6, 358 => 0xa6, 359 => 0xa6,
        360 => 0xa6, 361 => 0xa6, 362 => 0xa6, 363 => 0xa7, 364 => 0xa7, 365 => 0xa7, 366 => 0xa7, 367 => 0xa8,
        368 => 0xa8, 369 => 0xa8, 370 => 0xa8, 371 => 0xa9, 372 => 0xa9, 373 => 0xa9, 374 => 0xaa, 375 => 0xaa,
        376 => 0xaa, 377 => 0xab, 378 => 0xab, 379 => 0xab, 380 => 0xab, 381 => 0xab, 382 => 0xab, 383 => 0xab,
        _ => 0,
    }
}

fn level_to_color_lookup_6(i: u16) -> (r: u8)
    requires
        384 <= i < 448,
    ensures
        r == level_to_color(i),
{
    match i {
        384 => 0xab, 385 => 0xac, 386 => 0xac, 387 => 0xac, 388 => 0xac, 389 => 0xac, 390 => 0xac, 391 => 0xac,
        392 => 0xac, 393 => 0xac, 394 => 0xad, 395 => 0xad, 396 => 0xad, 397 => 0xad, 398 => 0xad, 399 => 0xad,
        400 => 0xae, 401 => 0xae, 402 => 0xae, 403 => 0xae, 404 => 0xae, 405 => 0xae, 406 => 0xaf, 407 => 0xaf,
        408 => 0xaf, 409 => 0xaf, 410 => 0xaf, 411 => 0xaf, 412 => 0xaf, 413 => 0xb0, 414 => 0xb0, 415 => 0xb0,
        416 => 0xb0, 417 => 0xb0, 418 => 0xb0, 419 => 0xb1, 420 => 0xb1, 421 => 0xb1, 422 => 0xb2, 423 => 0xb2,
        424 => 0xb2, 425 => 0xb2, 426 => 0xb2, 427 => 0xb3, 428 => 0xb3, 429 => 0xb3, 430 => 0xb3, 431 => 0xb4,
        432 => 0xb4, 433 => 0xb4, 434 => 0xb4, 435 => 0xb4, 436 => 0xb4, 437 => 0xb5, 438 => 0xb5, 439 => 0xb5,
        440 => 0xb5, 441 => 0xb5, 442 => 0xb5, 443 => 0xb6, 444 => 0xb6, 445 => 0xb6, 446 => 0xb6, 447 => 0xb6,
        _ => 0,
    }
}

fn level_to_color_lookup_7(i: u16) -> (r: u8)
    requires
        448 <= i < 512,
    ensures
        r == level_to_color(i),
{
    match i {
        448 => 0xb7, 449 => 0xb7, 450 => 0xb7, 451 => 0xb7, 452 => 0xb7, 453 => 0xb8, 454 => 0xb8, 455 => 0xb8,
        456 => 0xb9, 457 => 0xb9, 458 => 0xb9, 459 => 0xb9, 460 => 0xba, 461 => 0xba, 462 => 0xba, 463 => 0xba,
        464 => 0xba, 465 => 0xba, 466 => 0xbb, 467 => 0xbb, 468 => 0xbb, 469 => 0xbb, 470 => 0xbb, 471 => 0xbb,
        472 => 0xbb, 473 => 0xbc, 474 => 0xbc, 475 => 0xbc, 476 => 0xbc, 477 => 0xbc, 478 => 0xbc, 479 => 0xbd,
        480 => 0xbd, 481 => 0xbd, 482 => 0xbd, 483 => 0xbe, 484 => 0xbe, 485 => 0xbe, 486 => 0xbe, 487 => 0xbe,
        488 => 0xbe, 489 => 0xbf, 490 => 0xbf, 491 => 0xbf, 492 => 0xbf, 493 => 0xbf, 494 => 0xc0, 495 => 0xc0,
        496 => 0xc0, 497 => 0xc0, 498 => 0xc1, 499 => 0xc1, 500 => 0xc1, 501 => 0xc1, 502 => 0xc1, 503 => 0xc2,
        504 => 0xc2, 505 => 0xc2, 506 => 0xc3, 507 => 0xc3, 508 => 0xc3, 509 => 0xc3, 510 => 0xc3, 511 => 0xc3,
        _ => 0,
    }
}

fn level_to_color_lookup_8(i: u16) -> (r: u8)
    requires
        512 <= i < 576,
    ensures
        r == level_to_color(i),
{
    match i {
        512 => 0xc4, 513 => 0xc4, 514 => 0xc4, 515 => 0xc4, 516 => 0xc4, 517 => 0xc4, 518 => 0xc4, 519 => 0xc5,
        520 => 0xc5, 521 => 0xc5, 522 => 0xc5, 523 => 0xc5, 524 => 0xc5, 525 => 0xc6, 526 => 0xc6, 527 => 0xc6,
        528 => 0xc6, 529 => 0xc6, 530 => 0xc6, 531 => 0xc7, 532 => 0xc7, 533 => 0xc7, 534 => 0xc7, 535 => 0xc7,
        536 => 0xc7, 537 => 0xc8, 538 => 0xc8, 539 => 0xc8, 540 => 0xc8, 541 => 0xc8, 542 => 0xc8, 543 => 0xc8,
        544 => 0xc9, 545 => 0xc9, 546 => 0xc9, 547 => 0xc9, 548 => 0xc9, 549 => 0xc9, 550 => 0xca, 551 => 0xca,
        552 => 0xca, 553 => 0xca, 554 => 0xca, 555 => 0xca, 556 => 0xcb, 557 => 0xcb, 558 => 0xcb, 559 => 0xcb,
        560 => 0xcb, 561 => 0xcb, 562 => 0xcc, 563 => 0xcc, 564 => 0xcc, 565 => 0xcc, 566 => 0xcc, 567 => 0xcc,
        568 => 0xcd, 569 => 0xcd, 570 => 0xcd, 571 => 0xcd, 572 => 0xce, 573 => 0xce, 574 => 0xce, 575 => 0xcf,
        _ => 0,
    }
}

fn level_to_color_lookup_9(i: u16) -> (r: u8)
    requires
        576 <= i < 640,
    ensures
        r == level_to_color(i),
{
    match i {
        576 => 0xcf, 577 => 0xcf, 578 => 0xcf, 579 => 0xcf, 580 => 0xcf, 581 => 0xd0, 582 => 0xd0, 583 => 0xd0,
        584 => 0xd0, 585 => 0xd0, 586 => 0xd0, 587 => 0xd0, 588 => 0xd0, 589 => 0xd0, 590 => 0xd1, 591 => 0xd1,
        592 => 0xd1, 593 => 0xd1, 594 => 0xd1, 595 => 0xd1, 596 => 0xd1, 597 => 0xd2, 598 => 0xd2, 599 => 0xd2,
        600 => 0xd3, 601 => 0xd3, 602 => 0xd3, 603 => 0xd3, 604 => 0xd3, 605 => 0xd3, 606 => 0xd4, 607 => 0xd4,
        608 => 0xd4, 609 => 0xd4, 610 => 0xd4, 611 => 0xd4, 612 => 0xd4, 613 => 0xd4, 614 => 0xd5, 615 => 0xd5,
        616 => 0xd5, 617 => 0xd5, 618 => 0xd5, 619 => 0xd5, 620 => 0xd5, 621 => 0xd6, 622 => 0xd6, 623 => 0xd6,
        624 => 0xd6, 625 => 0xd6, 626 => 0xd6, 627 => 0xd6, 628 => 0xd7, 629 => 0xd7, 630 => 0xd7, 631 => 0xd7,
        632 => 0xd7, 633 => 0xd7, 634 => 0xd8, 635 => 0xd8, 636 => 0xd8, 637 => 0xd8, 638 => 0xd8, 639 => 0xd8,
        _ => 0,
    }
}

fn level_to_color_lookup_10(i: u16) -> (r: u8)
    requires
        640 <= i < 704,
    ensures
        r == level_to_color(i),
{
    match i {
        640 => 0xd8, 641 => 0xd9, 642 => 0xd9, 643 => 0xd9, 644 => 0xd9, 645 => 0xd9, 646 => 0xd9, 647 => 0xd9,
        648 => 0xda, 649 => 0xda, 650 => 0xda, 651 => 0xda, 652 => 0xda, 653 => 0xda, 654 => 0xda, 655 => 0xdb,
        656 => 0xdb, 657 => 0xdb, 658 => 0xdb, 659 => 0xdb, 660 => 0xdb, 661 => 0xdc, 662 => 0xdc, 663 => 0xdc,
        664 => 0xdc, 665 => 0xdc, 666 => 0xdc, 667 => 0xdc, 668 => 0xdd, 669 => 0xdd, 670 => 0xdd, 671 => 0xdd,
        672 => 0xdd, 673 => 0xdd, 674 => 0xdd, 675 => 0xde, 676 => 0xde, 677 => 0xde, 678 => 0xde, 679 => 0xde,
        680 => 0xde, 681 => 0xde, 682 => 0xdf, 683 => 0xdf, 684 => 0xdf, 685 => 0xdf, 686 => 0xdf, 687 => 0xdf,
        688 => 0xdf, 689 => 0xe0, 690 => 0xe0, 691 => 0xe0, 692 => 0xe0, 693 => 0xe0, 694 => 0xe0, 695 => 0xe0,
        696 => 0xe1, 697 => 0xe1, 698 => 0xe1, 699 => 0xe1, 700 => 0xe1, 701 => 0xe1, 702 => 0xe1, 703 => 0xe1,
        _ => 0,
    }
}

fn level_to_color_lookup_11(i: u16) -> (r: u8)
    requires
        704 <= i < 768,
    ensures
        r == level_to_color(i),
{
    match i {
        704 => 0xe1, 705 => 0xe1, 706 => 0xe1, 707 => 0xe1, 708 => 0xe2, 709 => 0xe2, 710 => 0xe2, 711 => 0xe2,
        712 => 0xe2, 713 => 0xe2, 714 => 0xe2, 715 => 0xe2, 716 => 0xe2, 717 => 0xe2, 718 => 0xe2, 719 => 0xe2,
        720 => 0xe2, 721 => 0xe2, 722 => 0xe3, 723 => 0xe3, 724 => 0xe3, 725 => 0xe3, 726 => 0xe3, 727 => 0xe3,
        728 => 0xe3, 729 => 0xe3, 730 => 0xe3, 731 => 0xe3, 732 => 0xe4, 733 => 0xe4, 734 => 0xe4, 735 => 0xe4,
        736 => 0xe4, 737 => 0xe4, 738 => 0xe4, 739 => 0xe5, 740 => 0xe5, 741 => 0xe5, 742 => 0xe5, 743 => 0xe5,
        744 => 0xe5, 745 => 0xe5, 746 => 0xe5, 747 => 0xe5, 748 => 0xe5, 749 => 0xe5, 750 => 0xe6, 751 => 0xe6,
        752 => 0xe6, 753 => 0xe6, 754 => 0xe6, 755 => 0xe6, 756 => 0xe6, 757 => 0xe6, 758 => 0xe6, 759 => 0xe6,
        760 => 0xe6, 761 => 0xe6, 762 => 0xe7, 763 => 0xe7, 764 => 0xe7, 765 => 0xe7, 766 => 0xe7, 767 => 0xe7,
        _ => 0,
    }
}

fn level_to_color_lookup_12(i: u16) -> (r: u8)
    requires
        768 <= i < 832,
    ensures
        r == level_to_color(i),
{
    match i {
        768 => 0xe7, 769 => 0xe8, 770 => 0xe8, 771 => 0xe8, 772 => 0xe8, 773 => 0xe8, 774 => 0xe8, 775 => 0xe8,
        776 => 0xe8, 777 => 0xe8, 778 => 0xe9, 779 => 0xe9, 780 => 0xe9, 781 => 0xe9, 782 => 0xe9, 783 => 0xe9,
        784 => 0xe9, 785 => 0xe9, 786 => 0xe9, 787 => 0xe9, 788 => 0xe9, 789 => 0xea, 790 => 0xea, 791 => 0xea,
        792 => 0xea, 793 => 0xea, 794 => 0xea, 795 => 0xea, 796 => 0xeb, 797 => 0xeb, 798 => 0xeb, 799 => 0xeb,
        800 => 0xeb, 801 => 0xeb, 802 => 0xeb, 803 => 0xeb, 804 => 0xeb, 805 => 0xec, 806 => 0xec, 807 => 0xec,
        808 => 0xec, 809 => 0xec, 810 => 0xec, 811 => 0xec, 812 => 0xec, 813 => 0xec, 814 => 0xec, 815 => 0xed,
        816 => 0xed, 817 => 0xed, 818 => 0xed, 819 => 0xed, 820 => 0xed, 821 => 0xed, 822 => 0xed, 823 => 0xee,
        824 => 0xee, 825 => 0xee, 826 => 0xee, 827 => 0xee, 828 => 0xee, 829 => 0xee, 830 => 0xee, 831 => 0xee,
        _ => 0,
    }
}

fn level_to_color_lookup_13(i: u16) -> (r: u8)
    requires
        832 <= i < 896,
    ensures
        r == level_to_color(i),
{
    match i {
        832 => 0xee, 833 => 0xee, 834 => 0xef, 835 => 0xef, 836 => 0xef, 837 => 0xef, 838 => 0xef, 839 => 0xef,
        840 => 0xef, 841 => 0xef, 842 => 0xef, 843 => 0xef, 844 => 0xef, 845 => 0xef, 846 => 0xef, 847 => 0xef,
        848 => 0xf0, 849 => 0xf0, 850 => 0xf0, 851 => 0xf0, 852 => 0xf0, 853 => 0xf0, 854 => 0xf0, 855 => 0xf0,
        856 => 0xf0, 857 => 0xf0, 858 => 0xf0, 859 => 0xf0, 860 => 0xf0, 861 => 0xf0, 862 => 0xf0, 863 => 0xf1,
        864 => 0xf1, 865 => 0xf1, 866 => 0xf1, 867 => 0xf1, 868 => 0xf1, 869 => 0xf1, 870 => 0xf1, 871 => 0xf1,
        872 => 0xf1, 873 => 0xf1, 874 => 0xf1, 875 => 0xf1, 876 => 0xf1, 877 => 0xf2, 878 => 0xf2, 879 => 0xf2,
        880 => 0xf2, 881 => 0xf2, 882 => 0xf2, 883 => 0xf2, 884 => 0xf3, 885 => 0xf3, 886 => 0xf3, 887 => 0xf3,
        888 => 0xf3, 889 => 0xf3, 890 => 0xf3, 891 => 0xf4, 892 => 0xf4, 893 => 0xf4, 894 => 0xf4, 895 => 0xf4,
        _ => 0,
    }
}

fn level_to_color_lookup_14(i: u16) -> (r: u8)
    requires
        896 <= i < 960,
    ensures
        r == level_to_color(i),
{
    match i {
        896 => 0xf4, 897 => 0xf4, 898 => 0xf4, 899 => 0xf5, 900 => 0xf5, 901 => 0xf5, 902 => 0xf5, 903 => 0xf5,
        904 => 0xf5, 905 => 0xf5, 906 => 0xf5, 907 => 0xf6, 908 => 0xf6, 909 => 0xf6, 910 => 0xf6, 911 => 0xf6,
        912 => 0xf6, 913 => 0xf6, 914 => 0xf7, 915 => 0xf7, 916 => 0xf7, 917 => 0xf7, 918 => 0xf7, 919 => 0xf7,
        920 => 0xf7, 921 => 0xf7, 922 => 0xf8, 923 => 0xf8, 924 => 0xf8, 925 => 0xf8, 926 => 0xf8, 927 => 0xf8,
        928 => 0xf8, 929 => 0xf8, 930 => 0xf9, 931 => 0xf9, 932 => 0xf9, 933 => 0xf9, 934 => 0xf9, 935 => 0xf9,
        936 => 0xf9, 937 => 0xf9, 938 => 0xfa, 939 => 0xfa, 940 => 0xfa, 941 => 0xfa, 942 => 0xfa, 943 => 0xfa,
        944 => 0xfa, 945 => 0xfb, 946 => 0xfb, 947 => 0xfb, 948 => 0xfb, 949 => 0xfb, 950 => 0xfb, 951 => 0xfb,
        952 => 0xfb, 953 => 0xfc, 954 => 0xfc, 955 => 0xfc, 956 => 0xfc, 957 => 0xfc, 958 => 0xfc, 959 => 0xfc,
        _ => 0,
    }
}

fn level_to_color_lookup_15(i: u16) -> (r: u8)
    requires
        960 <= i < 1009,
    ensures
        r == level_to_color(i),
{
    match i {
        960 => 0xfc, 961 => 0xfc, 962 => 0xfc, 963 => 0xfc, 964 => 0xfc, 965 => 0xfc, 966 => 0xfc, 967 => 0xfc,
        968 => 0xfc, 969 => 0xfd, 970 => 0xfd, 971 => 0xfd, 972 => 0xfd, 973 => 0xfd, 974 => 0xfd, 975 => 0xfd,
        976 => 0xfd, 977 => 0xfd, 978 => 0xfd, 979 => 0xfd, 980 => 0xfd, 981 => 0xfd, 982 => 0xfd, 983 => 0xfd,
        984 => 0xfd, 985 => 0xfe, 986 => 0xfe, 987 => 0xfe, 988 => 0xfe, 989 => 0xfe, 990 => 0xfe, 991 => 0xfe,
        992 => 0xfe, 993 => 0xfe, 994 => 0xfe, 995 => 0xfe, 996 => 0xfe, 997 => 0xfe, 998 => 0xfe, 999 => 0xfe,
        1000 => 0xfe, 1001 => 0xff, 1002 => 0xff, 1003 => 0xff, 1004 => 0xff, 1005 => 0xff, 1006 => 0xff, 1007 => 0xff,
        1008 => 0xff,
        _ => 0,
    }
}

} // verus!
