//! Key numbering: the SDK index that users address keys by, the physical light
//! index of the light layer, and the effect index that key events carry.
use vstd::prelude::*;

verus! {

/// Light index of each SDK index; 0xff marks an SDK index with no light.
pub open spec fn spec_sdk_index_to_light_index(i: u8) -> u8 {
    if i < 64 {
        spec_sdk_index_to_light_index_0(i)
    } else {
        spec_sdk_index_to_light_index_1(i)
    }
}

pub open spec fn spec_sdk_index_to_light_index_0(i: u8) -> u8 {
    match i {
        0 => 0x01, 1 => 0x02, 2 => 0x0e, 3 => 0x03, 4 => 0x0f, 5 => 0x04, 6 => 0x10, 7 => 0x05,
        8 => 0x11, 9 => 0x06, 10 => 0x07, 11 => 0x08, 12 => 0x14, 13 => 0x09, 14 => 0x15, 15 => 0x21,
        16 => 0x00, 17 => 0x0c, 18 => 0x0d, 19 => 0x19, 20 => 0x1a, 21 => 0x1b, 22 => 0x27, 23 => 0x1c,
        24 => 0x28, 25 => 0x1d, 26 => 0x29, 27 => 0x12, 28 => 0x1e, 29 => 0x13, 30 => 0x2c, 31 => 0x2d,
        32 => 0x39, 33 => 0x45, 34 => 0x0a, 35 => 0x16, 36 => 0x0b, 37 => 0x17, 38 => 0x18, 39 => 0x24,
        40 => 0x25, 41 => 0x31, 42 => 0x26, 43 => 0x32, 44 => 0x33, 45 => 0x34, 46 => 0x40, 47 => 0x35,
        48 => 0x2a, 49 => 0x36, 50 => 0x1f, 51 => 0x2b, 52 => 0x38, 53 => 0x51, 54 => 0x5d, 55 => 0x69,
        56 => 0x22, 57 => 0x2e, 58 => 0x23, 59 => 0x2f, 60 => 0x30, 61 => 0x3c, 62 => 0x3d, 63 => 0x49,
        _ => 0xff,
    }
}

pub open spec fn spec_sdk_index_to_light_index_1(i: u8) -> u8 {
    match i {
        64 => 0x3e, 65 => 0x4a, 66 => 0x3f, 67 => 0x4b, 68 => 0x4c, 69 => 0x41, 70 => 0x42, 71 => 0x4e,
        72 => 0x37, 73 => 0x44, 74 => 0x3a, 75 => 0x46, 76 => 0x3b, 77 => 0x48, 78 => 0x54, 79 => 0x55,
        80 => 0x61, 81 => 0x56, 82 => 0x62, 83 => 0x57, 84 => 0x63, 85 => 0x58, 86 => 0x4d, 87 => 0x59,
        88 => 0x5a, 89 => 0x4f, 90 => 0x50, 91 => 0x75, 92 => 0x52, 93 => 0x5e, 94 => 0x53, 95 => 0x5f,
        96 => 0x60, 97 => 0x6c, 98 => 0x6d, 99 => 0x6e, 100 => 0x70, 101 => 0x72, 102 => 0x73, 103 => 0x67,
        104 => 0x5c, 105 => 0x68, 106 => 0x74, 107 => 0x76, 108 => 0x6a, 109 => 0x6b, 110 => 0xff, 111 => 0xff,
        112 => 0xff, 113 => 0xff, 114 => 0xff, 115 => 0xff, 116 => 0xff, 117 => 0xff, 118 => 0xff, 119 => 0xff,
        _ => 0xff,
    }
}

/// The light index of the key with the given SDK index.
pub fn sdk_index_to_light_index(i: u8) -> (r: u8)
    requires
        i < 120,
    ensures
        r == spec_sdk_index_to_light_index(i),
{
    if i < 64 {
        sdk_index_to_light_index_0(i)
    } else {
        sdk_index_to_light_index_1(i)
    }
}

fn sdk_index_to_light_index_0(i: u8) -> (r: u8)
    requires
        i < 64,
    ensures
        r == spec_sdk_index_to_light_index(i),
{
    match i {
        0 => 0x01, 1 => 0x02, 2 => 0x0e, 3 => 0x03, 4 => 0x0f, 5 => 0x04, 6 => 0x10, 7 => 0x05,
        8 => 0x11, 9 => 0x06, 10 => 0x07, 11 => 0x08, 12 => 0x14, 13 => 0x09, 14 => 0x15, 15 => 0x21,
        16 => 0x00, 17 => 0x0c, 18 => 0x0d, 19 => 0x19, 20 => 0x1a, 21 => 0x1b, 22 => 0x27, 23 => 0x1c,
        24 => 0x28, 25 => 0x1d, 26 => 0x29, 27 => 0x12, 28 => 0x1e, 29 => 0x13, 30 => 0x2c, 31 => 0x2d,
        32 => 0x39, 33 => 0x45, 34 => 0x0a, 35 => 0x16, 36 => 0x0b, 37 => 0x17, 38 => 0x18, 39 => 0x24,
        40 => 0x25, 41 => 0x31, 42 => 0x26, 43 => 0x32, 44 => 0x33, 45 => 0x34, 46 => 0x40, 47 => 0x35,
        48 => 0x2a, 49 => 0x36, 50 => 0x1f, 51 => 0x2b, 52 => 0x38, 53 => 0x51, 54 => 0x5d, 55 => 0x69,
        56 => 0x22, 57 => 0x2e, 58 => 0x23, 59 => 0x2f, 60 => 0x30, 61 => 0x3c, 62 => 0x3d, 63 => 0x49,
        _ => 0xff,
    }
}

fn sdk_index_to_light_index_1(i: u8) -> (r: u8)
    requires
        64 <= i < 120,
    ensures
        r == spec_sdk_index_to_light_index(i),
{
    match i {
        64 => 0x3e, 65 => 0x4a, 66 => 0x3f, 67 => 0x4b, 68 => 0x4c, 69 => 0x41, 70 => 0x42, 71 => 0x4e,
        72 => 0x37, 73 => 0x44, 74 => 0x3a, 75 => 0x46, 76 => 0x3b, 77 => 0x48, 78 => 0x54, 79 => 0x55,
        80 => 0x61, 81 => 0x56, 82 => 0x62, 83 => 0x57, 84 => 0x63, 85 => 0x58, 86 => 0x4d, 87 => 0x59,
        88 => 0x5a, 89 => 0x4f, 90 => 0x50, 91 => 0x75, 92 => 0x52, 93 => 0x5e, 94 => 0x53, 95 => 0x5f,
        96 => 0x60, 97 => 0x6c, 98 => 0x6d, 99 => 0x6e, 100 => 0x70, 101 => 0x72, 102 => 0x73, 103 => 0x67,
        104 => 0x5c, 105 => 0x68, 106 => 0x74, 107 => 0x76, 108 => 0x6a, 109 => 0x6b, 110 => 0xff, 111 => 0xff,
        112 => 0xff, 113 => 0xff, 114 => 0xff, 115 => 0xff, 116 => 0xff, 117 => 0xff, 118 => 0xff, 119 => 0xff,
        _ => 0xff,
    }
}

/// SDK index of each effect index; 0xff marks an effect index with no key.
pub open spec fn spec_effect_index_to_sdk_index(i: u8) -> u8 {
    if i < 64 {
        spec_effect_index_to_sdk_index_0(i)
    } else if i < 128 {
        spec_effect_index_to_sdk_index_1(i)
    } else if i < 192 {
        spec_effect_index_to_sdk_index_2(i)
    } else {
        spec_effect_index_to_sdk_index_3(i)
    }
}

pub open spec fn spec_effect_index_to_sdk_index_0(i: u8) -> u8 {
    match i {
        0 => 0xff, 1 => 0xff, 2 => 0xff, 3 => 0xff, 4 => 0xff, 5 => 0xff, 6 => 0xff, 7 => 0xff,
        8 => 0xff, 9 => 0xff, 10 => 0xff, 11 => 0xff, 12 => 0xff, 13 => 0xff, 14 => 0xff, 15 => 0xff,
        16 => 0x10, 17 => 0x00, 18 => 0x01, 19 => 0x03, 20 => 0x05, 21 => 0x07, 22 => 0x09, 23 => 0x0a,
        24 => 0x0b, 25 => 0x0d, 26 => 0x22, 27 => 0x24, 28 => 0x11, 29 => 0x12, 30 => 0x02, 31 => 0x04,
        32 => 0x06, 33 => 0x08, 34 => 0x1b, 35 => 0x1d, 36 => 0x0c, 37 => 0x0e, 38 => 0x23, 39 => 0x25,
        40 => 0x26, 41 => 0x13, 42 => 0x14, 43 => 0x15, 44 => 0x17, 45 => 0x19, 46 => 0x1c, 47 => 0x32,
        48 => 0xff, 49 => 0x0f, 50 => 0x38, 51 => 0x3a, 52 => 0x27, 53 => 0x28, 54 => 0x2a, 55 => 0x16,
        56 => 0x18, 57 => 0x1a, 58 => 0x30, 59 => 0x33, 60 => 0x1e, 61 => 0x1f, 62 => 0x39, 63 => 0x3b,
        _ => 0xff,
    }
}

pub open spec fn spec_effect_index_to_sdk_index_1(i: u8) -> u8 {
    match i {
        64 => 0x3c, 65 => 0x29, 66 => 0x2b, 67 => 0x2c, 68 => 0x2d, 69 => 0x2f, 70 => 0x31, 71 => 0x48,
        72 => 0x49, 73 => 0x20, 74 => 0x4a, 75 => 0x4c, 76 => 0x3d, 77 => 0x3e, 78 => 0x40, 79 => 0x42,
        80 => 0x2e, 81 => 0x45, 82 => 0x46, 83 => 0xff, 84 => 0x34, 85 => 0x21, 86 => 0x4b, 87 => 0xff,
        88 => 0x4d, 89 => 0x3f, 90 => 0x41, 91 => 0x43, 92 => 0x44, 93 => 0x56, 94 => 0x47, 95 => 0x59,
        96 => 0x5a, 97 => 0x35, 98 => 0x5c, 99 => 0x5e, 100 => 0x4e, 101 => 0x4f, 102 => 0x51, 103 => 0x53,
        104 => 0x55, 105 => 0x57, 106 => 0x58, 107 => 0xff, 108 => 0x68, 109 => 0x36, 110 => 0x5d, 111 => 0x5f,
        112 => 0x60, 113 => 0x50, 114 => 0x52, 115 => 0x54, 116 => 0xff, 117 => 0xff, 118 => 0xff, 119 => 0x67,
        120 => 0x69, 121 => 0x37, 122 => 0x6c, 123 => 0x6d, 124 => 0x61, 125 => 0x62, 126 => 0x63, 127 => 0xff,
        _ => 0xff,
    }
}

pub open spec fn spec_effect_index_to_sdk_index_2(i: u8) -> u8 {
    match i {
        128 => 0x64, 129 => 0xff, 130 => 0x65, 131 => 0x66, 132 => 0x6a, 133 => 0x5b, 134 => 0x6b, 135 => 0xff,
        136 => 0xff, 137 => 0xff, 138 => 0xff, 139 => 0xff, 140 => 0xff, 141 => 0xff, 142 => 0xff, 143 => 0xff,
        144 => 0xff, 145 => 0xff, 146 => 0xff, 147 => 0xff, 148 => 0xff, 149 => 0xff, 150 => 0xff, 151 => 0xff,
        152 => 0xff, 153 => 0xff, 154 => 0xff, 155 => 0xff, 156 => 0xff, 157 => 0xff, 158 => 0xff, 159 => 0xff,
        160 => 0xff, 161 => 0xff, 162 => 0xff, 163 => 0xff, 164 => 0xff, 165 => 0xff, 166 => 0xff, 167 => 0xff,
        168 => 0xff, 169 => 0xff, 170 => 0xff, 171 => 0xff, 172 => 0xff, 173 => 0xff, 174 => 0xff, 175 => 0xff,
        176 => 0xff, 177 => 0xff, 178 => 0xff, 179 => 0xff, 180 => 0xff, 181 => 0xff, 182 => 0xff, 183 => 0xff,
        184 => 0xff, 185 => 0xff, 186 => 0xff, 187 => 0xff, 188 => 0xff, 189 => 0xff, 190 => 0xff, 191 => 0xff,
        _ => 0xff,
    }
}

pub open spec fn spec_effect_index_to_sdk_index_3(i: u8) -> u8 {
    match i {
        192 => 0xff, 193 => 0xff, 194 => 0xff, 195 => 0xff, 196 => 0xff, 197 => 0xff, 198 => 0xff, 199 => 0xff,
        200 => 0xff, 201 => 0xff, 202 => 0xff, 203 => 0xff, 204 => 0xff, 205 => 0xff, 206 => 0xff, 207 => 0xff,
        208 => 0xff, 209 => 0xff, 210 => 0xff, 211 => 0xff, 212 => 0xff, 213 => 0xff, 214 => 0xff, 215 => 0xff,
        216 => 0xff, 217 => 0xff, 218 => 0xff, 219 => 0xff, 220 => 0xff, 221 => 0xff, 222 => 0xff, 223 => 0xff,
        224 => 0xff, 225 => 0xff, 226 => 0xff, 227 => 0xff, 228 => 0xff, 229 => 0xff, 230 => 0xff, 231 => 0xff,
        232 => 0xff, 233 => 0xff, 234 => 0xff, 235 => 0xff, 236 => 0xff, 237 => 0xff, 238 => 0xff, 239 => 0xff,
        240 => 0xff, 241 => 0xff, 242 => 0xff, 243 => 0xff, 244 => 0xff, 245 => 0xff, 246 => 0xff, 247 => 0xff,
        248 => 0xff, 249 => 0xff, 250 => 0xff, 251 => 0xff, 252 => 0xff, 253 => 0xff, 254 => 0xff, 255 => 0xff,
        _ => 0xff,
    }
}

/// The SDK index of the key that an effect index names (0xff for none).
pub fn effect_index_to_sdk_index(i: u8) -> (r: u8)
    ensures
        r == spec_effect_index_to_sdk_index(i),
{
    if i < 64 {
        effect_index_to_sdk_index_0(i)
    } else if i < 128 {
        effect_index_to_sdk_index_1(i)
    } else if i < 192 {
        effect_index_to_sdk_index_2(i)
    } else {
        effect_index_to_sdk_index_3(i)
    }
}

fn effect_index_to_sdk_index_0(i: u8) -> (r: u8)
    requires
        i < 64,
    ensures
        r == spec_effect_index_to_sdk_index(i),
{
    match i {
        0 => 0xff, 1 => 0xff, 2 => 0xff, 3 => 0xff, 4 => 0xff, 5 => 0xff, 6 => 0xff, 7 => 0xff,
        8 => 0xff, 9 => 0xff, 10 => 0xff, 11 => 0xff, 12 => 0xff, 13 => 0xff, 14 => 0xff, 15 => 0xff,
        16 => 0x10, 17 => 0x00, 18 => 0x01, 19 => 0x03, 20 => 0x05, 21 => 0x07, 22 => 0x09, 23 => 0x0a,
        24 => 0x0b, 25 => 0x0d, 26 => 0x22, 27 => 0x24, 28 => 0x11, 29 => 0x12, 30 => 0x02, 31 => 0x04,
        32 => 0x06, 33 => 0x08, 34 => 0x1b, 35 => 0x1d, 36 => 0x0c, 37 => 0x0e, 38 => 0x23, 39 => 0x25,
        40 => 0x26, 41 => 0x13, 42 => 0x14, 43 => 0x15, 44 => 0x17, 45 => 0x19, 46 => 0x1c, 47 => 0x32,
        48 => 0xff, 49 => 0x0f, 50 => 0x38, 51 => 0x3a, 52 => 0x27, 53 => 0x28, 54 => 0x2a, 55 => 0x16,
        56 => 0x18, 57 => 0x1a, 58 => 0x30, 59 => 0x33, 60 => 0x1e, 61 => 0x1f, 62 => 0x39, 63 => 0x3b,
        _ => 0xff,
    }
}

fn effect_index_to_sdk_index_1(i: u8) -> (r: u8)
    requires
        64 <= i < 128,
    ensures
        r == spec_effect_index_to_sdk_index(i),
{
    match i {
        64 => 0x3c, 65 => 0x29, 66 => 0x2b, 67 => 0x2c, 68 => 0x2d, 69 => 0x2f, 70 => 0x31, 71 => 0x48,
        72 => 0x49, 73 => 0x20, 74 => 0x4a, 75 => 0x4c, 76 => 0x3d, 77 => 0x3e, 78 => 0x40, 79 => 0x42,
        80 => 0x2e, 81 => 0x45, 82 => 0x46, 83 => 0xff, 84 => 0x34, 85 => 0x21, 86 => 0x4b, 87 => 0xff,
        88 => 0x4d, 89 => 0x3f, 90 => 0x41, 91 => 0x43, 92 => 0x44, 93 => 0x56, 94 => 0x47, 95 => 0x59,
        96 => 0x5a, 97 => 0x35, 98 => 0x5c, 99 => 0x5e, 100 => 0x4e, 101 => 0x4f, 102 => 0x51, 103 => 0x53,
        104 => 0x55, 105 => 0x57, 106 => 0x58, 107 => 0xff, 108 => 0x68, 109 => 0x36, 110 => 0x5d, 111 => 0x5f,
        112 => 0x60, 113 => 0x50, 114 => 0x52, 115 => 0x54, 116 => 0xff, 117 => 0xff, 118 => 0xff, 119 => 0x67,
        120 => 0x69, 121 => 0x37, 122 => 0x6c, 123 => 0x6d, 124 => 0x61, 125 => 0x62, 126 => 0x63, 127 => 0xff,
        _ => 0xff,
    }
}

fn effect_index_to_sdk_index_2(i: u8) -> (r: u8)
    requires
        128 <= i < 192,
    ensures
        r == spec_effect_index_to_sdk_index(i),
{
    match i {
        128 => 0x64, 129 => 0xff, 130 => 0x65, 131 => 0x66, 132 => 0x6a, 133 => 0x5b, 134 => 0x6b, 135 => 0xff,
        136 => 0xff, 137 => 0xff, 138 => 0xff, 139 => 0xff, 140 => 0xff, 141 => 0xff, 142 => 0xff, 143 => 0xff,
        144 => 0xff, 145 => 0xff, 146 => 0xff, 147 => 0xff, 148 => 0xff, 149 => 0xff, 150 => 0xff, 151 => 0xff,
        152 => 0xff, 153 => 0xff, 154 => 0xff, 155 => 0xff, 156 => 0xff, 157 => 0xff, 158 => 0xff, 159 => 0xff,
        160 => 0xff, 161 => 0xff, 162 => 0xff, 163 => 0xff, 164 => 0xff, 165 => 0xff, 166 => 0xff, 167 => 0xff,
        168 => 0xff, 169 => 0xff, 170 => 0xff, 171 => 0xff, 172 => 0xff, 173 => 0xff, 174 => 0xff, 175 => 0xff,
        176 => 0xff, 177 => 0xff, 178 => 0xff, 179 => 0xff, 180 => 0xff, 181 => 0xff, 182 => 0xff, 183 => 0xff,
        184 => 0xff, 185 => 0xff, 186 => 0xff, 187 => 0xff, 188 => 0xff, 189 => 0xff, 190 => 0xff, 191 => 0xff,
        _ => 0xff,
    }
}

fn effect_index_to_sdk_index_3(i: u8) -> (r: u8)
    requires
        192 <= i,
    ensures
        r == spec_effect_index_to_sdk_index(i),
{
    match i {
        192 => 0xff, 193 => 0xff, 194 => 0xff, 195 => 0xff, 196 => 0xff, 197 => 0xff, 198 => 0xff, 199 => 0xff,
        200 => 0xff, 201 => 0xff, 202 => 0xff, 203 => 0xff, 204 => 0xff, 205 => 0xff, 206 => 0xff, 207 => 0xff,
        208 => 0xff, 209 => 0xff, 210 => 0xff, 211 => 0xff, 212 => 0xff, 213 => 0xff, 214 => 0xff, 215 => 0xff,
        216 => 0xff, 217 => 0xff, 218 => 0xff, 219 => 0xff, 220 => 0xff, 221 => 0xff, 222 => 0xff, 223 => 0xff,
        224 => 0xff, 225 => 0xff, 226 => 0xff, 227 => 0xff, 228 => 0xff, 229 => 0xff, 230 => 0xff, 231 => 0xff,
        232 => 0xff, 233 => 0xff, 234 => 0xff, 235 => 0xff, 236 => 0xff, 237 => 0xff, 238 => 0xff, 239 => 0xff,
        240 => 0xff, 241 => 0xff, 242 => 0xff, 243 => 0xff, 244 => 0xff, 245 => 0xff, 246 => 0xff, 247 => 0xff,
        248 => 0xff, 249 => 0xff, 250 => 0xff, 251 => 0xff, 252 => 0xff, 253 => 0xff, 254 => 0xff, 255 => 0xff,
        _ => 0xff,
    }
}

} // verus!
