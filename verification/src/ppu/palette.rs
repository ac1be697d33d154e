use vstd::prelude::*;

verus! {

/// The RGBA colour of each of the 64 hues the NES can display.
pub open spec fn hue_color(hue: u8) -> [u8; 4] {
    match hue {
        0 => [0x80, 0x80, 0x80, 0xff],
        1 => [0x00, 0x3d, 0xa6, 0xff],
        2 => [0x00, 0x12, 0xb0, 0xff],
        3 => [0x44, 0x00, 0x96, 0xff],
        4 => [0xa1, 0x00, 0x5e, 0xff],
        5 => [0xc7, 0x00, 0x28, 0xff],
        6 => [0xba, 0x06, 0x00, 0xff],
        7 => [0x8c, 0x17, 0x00, 0xff],
        8 => [0x5c, 0x2f, 0x00, 0xff],
        9 => [0x10, 0x45, 0x00, 0xff],
        10 => [0x05, 0x4a, 0x00, 0xff],
        11 => [0x00, 0x47, 0x2e, 0xff],
        12 => [0x00, 0x41, 0x66, 0xff],
        13 => [0x00, 0x00, 0x00, 0xff],
        14 => [0x05, 0x05, 0x05, 0xff],
        15 => [0x05, 0x05, 0x05, 0xff],
        16 => [0xc7, 0xc7, 0xc7, 0xff],
        17 => [0x00, 0x77, 0xff, 0xff],
        18 => [0x21, 0x55, 0xff, 0xff],
        19 => [0x82, 0x37, 0xfa, 0xff],
        20 => [0xeb, 0x2f, 0xb5, 0xff],
        21 => [0xff, 0x29, 0x50, 0xff],
        22 => [0xff, 0x22, 0x00, 0xff],
        23 => [0xd6, 0x32, 0x00, 0xff],
        24 => [0xc4, 0x62, 0x00, 0xff],
        25 => [0x35, 0x80, 0x00, 0xff],
        26 => [0x05, 0x8f, 0x00, 0xff],
        27 => [0x00, 0x8a, 0x55, 0xff],
        28 => [0x00, 0x99, 0xcc, 0xff],
        29 => [0x21, 0x21, 0x21, 0xff],
        30 => [0x09, 0x09, 0x09, 0xff],
        31 => [0x09, 0x09, 0x09, 0xff],
        32 => [0xff, 0xff, 0xff, 0xff],
        33 => [0x0f, 0xd7, 0xff, 0xff],
        34 => [0x69, 0xa2, 0xff, 0xff],
        35 => [0xd4, 0x80, 0xff, 0xff],
        36 => [0xff, 0x45, 0xf3, 0xff],
        37 => [0xff, 0x61, 0x8b, 0xff],
        38 => [0xff, 0x88, 0x33, 0xff],
        39 => [0xff, 0x9c, 0x12, 0xff],
        40 => [0xfa, 0xbc, 0x20, 0xff],
        41 => [0x9f, 0xe3, 0x0e, 0xff],
        42 => [0x2b, 0xf0, 0x35, 0xff],
        43 => [0x0c, 0xf0, 0xa4, 0xff],
        44 => [0x05, 0xfb, 0xff, 0xff],
        45 => [0x5e, 0x5e, 0x5e, 0xff],
        46 => [0x0d, 0x0d, 0x0d, 0xff],
        47 => [0x0d, 0x0d, 0x0d, 0xff],
        48 => [0xff, 0xff, 0xff, 0xff],
        49 => [0xa6, 0xfc, 0xff, 0xff],
        50 => [0xb3, 0xec, 0xff, 0xff],
        51 => [0xda, 0xab, 0xeb, 0xff],
        52 => [0xff, 0xa8, 0xf9, 0xff],
        53 => [0xff, 0xab, 0xb3, 0xff],
        54 => [0xff, 0xd2, 0xb0, 0xff],
        55 => [0xff, 0xef, 0xa6, 0xff],
        56 => [0xff, 0xf7, 0x9c, 0xff],
        57 => [0xd7, 0xe8, 0x95, 0xff],
        58 => [0xa6, 0xed, 0xaf, 0xff],
        59 => [0xa2, 0xf2, 0xda, 0xff],
        60 => [0x99, 0xff, 0xfc, 0xff],
        61 => [0xdd, 0xdd, 0xdd, 0xff],
        62 => [0x11, 0x11, 0x11, 0xff],
        _ => [0x11, 0x11, 0x11, 0xff],
    }
}

/// Four hues: entry 0 is the transparent/background slot, entries 1 to 3 are the colours that
/// pixel brightnesses 1 to 3 select.
#[derive(Debug, Clone, Copy)]
pub struct Palette {
    pub hues: [u8; 4],
}

impl Palette {
    pub fn new(palette_data: [u8; 4]) -> (r: Palette)
        ensures
            r.hues == palette_data,
    {
        Palette { hues: palette_data }
    }

    /// The colour of a hue; only the low six bits of the hue count.
    pub fn hue_lookup(hue: u8) -> (r: [u8; 4])
        ensures
            r == hue_color(hue % 64),
    {
        proof {
            assert(hue & 0x3f == hue % 64) by (bit_vector);
        }
        let h = hue & 0x3f;
        match h {
            0 => [0x80, 0x80, 0x80, 0xff],
            1 => [0x00, 0x3d, 0xa6, 0xff],
            2 => [0x00, 0x12, 0xb0, 0xff],
            3 => [0x44, 0x00, 0x96, 0xff],
            4 => [0xa1, 0x00, 0x5e, 0xff],
            5 => [0xc7, 0x00, 0x28, 0xff],
            6 => [0xba, 0x06, 0x00, 0xff],
            7 => [0x8c, 0x17, 0x00, 0xff],
            8 => [0x5c, 0x2f, 0x00, 0xff],
            9 => [0x10, 0x45, 0x00, 0xff],
            10 => [0x05, 0x4a, 0x00, 0xff],
            11 => [0x00, 0x47, 0x2e, 0xff],
            12 => [0x00, 0x41, 0x66, 0xff],
            13 => [0x00, 0x00, 0x00, 0xff],
            14 => [0x05, 0x05, 0x05, 0xff],
            15 => [0x05, 0x05, 0x05, 0xff],
            16 => [0xc7, 0xc7, 0xc7, 0xff],
            17 => [0x00, 0x77, 0xff, 0xff],
            18 => [0x21, 0x55, 0xff, 0xff],
            19 => [0x82, 0x37, 0xfa, 0xff],
            20 => [0xeb, 0x2f, 0xb5, 0xff],
            21 => [0xff, 0x29, 0x50, 0xff],
            22 => [0xff, 0x22, 0x00, 0xff],
            23 => [0xd6, 0x32, 0x00, 0xff],
            24 => [0xc4, 0x62, 0x00, 0xff],
            25 => [0x35, 0x80, 0x00, 0xff],
            26 => [0x05, 0x8f, 0x00, 0xff],
            27 => [0x00, 0x8a, 0x55, 0xff],
            28 => [0x00, 0x99, 0xcc, 0xff],
            29 => [0x21, 0x21, 0x21, 0xff],
            30 => [0x09, 0x09, 0x09, 0xff],
            31 => [0x09, 0x09, 0x09, 0xff],
            32 => [0xff, 0xff, 0xff, 0xff],
            33 => [0x0f, 0xd7, 0xff, 0xff],
            34 => [0x69, 0xa2, 0xff, 0xff],
            35 => [0xd4, 0x80, 0xff, 0xff],
            36 => [0xff, 0x45, 0xf3, 0xff],
            37 => [0xff, 0x61, 0x8b, 0xff],
            38 => [0xff, 0x88, 0x33, 0xff],
            39 => [0xff, 0x9c, 0x12, 0xff],
            40 => [0xfa, 0xbc, 0x20, 0xff],
            41 => [0x9f, 0xe3, 0x0e, 0xff],
            42 => [0x2b, 0xf0, 0x35, 0xff],
            43 => [0x0c, 0xf0, 0xa4, 0xff],
            44 => [0x05, 0xfb, 0xff, 0xff],
            45 => [0x5e, 0x5e, 0x5e, 0xff],
            46 => [0x0d, 0x0d, 0x0d, 0xff],
            47 => [0x0d, 0x0d, 0x0d, 0xff],
            48 => [0xff, 0xff, 0xff, 0xff],
            49 => [0xa6, 0xfc, 0xff, 0xff],
            50 => [0xb3, 0xec, 0xff, 0xff],
            51 => [0xda, 0xab, 0xeb, 0xff],
            52 => [0xff, 0xa8, 0xf9, 0xff],
            53 => [0xff, 0xab, 0xb3, 0xff],
            54 => [0xff, 0xd2, 0xb0, 0xff],
            55 => [0xff, 0xef, 0xa6, 0xff],
            56 => [0xff, 0xf7, 0x9c, 0xff],
            57 => [0xd7, 0xe8, 0x95, 0xff],
            58 => [0xa6, 0xed, 0xaf, 0xff],
            59 => [0xa2, 0xf2, 0xda, 0xff],
            60 => [0x99, 0xff, 0xfc, 0xff],
            61 => [0xdd, 0xdd, 0xdd, 0xff],
            62 => [0x11, 0x11, 0x11, 0xff],
            _ => [0x11, 0x11, 0x11, 0xff],
        }
    }

    /// The colour that a pixel brightness (0 to 3) selects from this palette.
    pub fn brightness_to_pixels(&self, brightness: u8) -> (r: [u8; 4])
        requires
            brightness < 4,
        ensures
            r == hue_color(self.hues[brightness as int] % 64),
    {
        Palette::hue_lookup(self.hues[brightness as usize])
    }
}

} // verus!
