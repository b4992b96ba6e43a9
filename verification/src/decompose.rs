//! Canonical decomposition (Unicode 14 data), as NFD does it: every
//! character with a canonical decomposition is replaced by its full
//! decomposition, Hangul syllables by their jamo, and the combining marks are
//! put in canonical order.

use vstd::prelude::*;

verus! {

/// The canonical decompositions of the characters U+0000 to U+0FFF, as
/// (length, characters padded with U+0000).
pub open spec fn decomposition_0(u: u32) -> Option<(u8, char, char, char, char)> {
    match u {
        0xC0 => Some((2, 'A', '\u{300}', '\u{0}', '\u{0}')),
        0xC1 => Some((2, 'A', '\u{301}', '\u{0}', '\u{0}')),
        0xC2 => Some((2, 'A', '\u{302}', '\u{0}', '\u{0}')),
        0xC3 => Some((2, 'A', '\u{303}', '\u{0}', '\u{0}')),
        0xC4 => Some((2, 'A', '\u{308}', '\u{0}', '\u{0}')),
        0xC5 => Some((2, 'A', '\u{30a}', '\u{0}', '\u{0}')),
        0xC7 => Some((2, 'C', '\u{327}', '\u{0}', '\u{0}')),
        0xC8 => Some((2, 'E', '\u{300}', '\u{0}', '\u{0}')),
        0xC9 => Some((2, 'E', '\u{301}', '\u{0}', '\u{0}')),
        0xCA => Some((2, 'E', '\u{302}', '\u{0}', '\u{0}')),
        0xCB => Some((2, 'E', '\u{308}', '\u{0}', '\u{0}')),
        0xCC => Some((2, 'I', '\u{300}', '\u{0}', '\u{0}')),
        0xCD => Some((2, 'I', '\u{301}', '\u{0}', '\u{0}')),
        0xCE => Some((2, 'I', '\u{302}', '\u{0}', '\u{0}')),
        0xCF => Some((2, 'I', '\u{308}', '\u{0}', '\u{0}')),
        0xD1 => Some((2, 'N', '\u{303}', '\u{0}', '\u{0}')),
        0xD2 => Some((2, 'O', '\u{300}', '\u{0}', '\u{0}')),
        0xD3 => Some((2, 'O', '\u{301}', '\u{0}', '\u{0}')),
        0xD4 => Some((2, 'O', '\u{302}', '\u{0}', '\u{0}')),
        0xD5 => Some((2, 'O', '\u{303}', '\u{0}', '\u{0}')),
        0xD6 => Some((2, 'O', '\u{308}', '\u{0}', '\u{0}')),
        0xD9 => Some((2, 'U', '\u{300}', '\u{0}', '\u{0}')),
        0xDA => Some((2, 'U', '\u{301}', '\u{0}', '\u{0}')),
        0xDB => Some((2, 'U', '\u{302}', '\u{0}', '\u{0}')),
        0xDC => Some((2, 'U', '\u{308}', '\u{0}', '\u{0}')),
        0xDD => Some((2, 'Y', '\u{301}', '\u{0}', '\u{0}')),
        0xE0 => Some((2, 'a', '\u{300}', '\u{0}', '\u{0}')),
        0xE1 => Some((2, 'a', '\u{301}', '\u{0}', '\u{0}')),
        0xE2 => Some((2, 'a', '\u{302}', '\u{0}', '\u{0}')),
        0xE3 => Some((2, 'a', '\u{303}', '\u{0}', '\u{0}')),
        0xE4 => Some((2, 'a', '\u{308}', '\u{0}', '\u{0}')),
        0xE5 => Some((2, 'a', '\u{30a}', '\u{0}', '\u{0}')),
        0xE7 => Some((2, 'c', '\u{327}', '\u{0}', '\u{0}')),
        0xE8 => Some((2, 'e', '\u{300}', '\u{0}', '\u{0}')),
        0xE9 => Some((2, 'e', '\u{301}', '\u{0}', '\u{0}')),
        0xEA => Some((2, 'e', '\u{302}', '\u{0}', '\u{0}')),
        0xEB => Some((2, 'e', '\u{308}', '\u{0}', '\u{0}')),
        0xEC => Some((2, 'i', '\u{300}', '\u{0}', '\u{0}')),
        0xED => Some((2, 'i', '\u{301}', '\u{0}', '\u{0}')),
        0xEE => Some((2, 'i', '\u{302}', '\u{0}', '\u{0}')),
        0xEF => Some((2, 'i', '\u{308}', '\u{0}', '\u{0}')),
        0xF1 => Some((2, 'n', '\u{303}', '\u{0}', '\u{0}')),
        0xF2 => Some((2, 'o', '\u{300}', '\u{0}', '\u{0}')),
        0xF3 => Some((2, 'o', '\u{301}', '\u{0}', '\u{0}')),
        0xF4 => Some((2, 'o', '\u{302}', '\u{0}', '\u{0}')),
        0xF5 => Some((2, 'o', '\u{303}', '\u{0}', '\u{0}')),
        0xF6 => Some((2, 'o', '\u{308}', '\u{0}', '\u{0}')),
        0xF9 => Some((2, 'u', '\u{300}', '\u{0}', '\u{0}')),
        0xFA => Some((2, 'u', '\u{301}', '\u{0}', '\u{0}')),
        0xFB => Some((2, 'u', '\u{302}', '\u{0}', '\u{0}')),
        0xFC => Some((2, 'u', '\u{308}', '\u{0}', '\u{0}')),
        0xFD => Some((2, 'y', '\u{301}', '\u{0}', '\u{0}')),
        0xFF => Some((2, 'y', '\u{308}', '\u{0}', '\u{0}')),
        0x100 => Some((2, 'A', '\u{304}', '\u{0}', '\u{0}')),
        0x101 => Some((2, 'a', '\u{304}', '\u{0}', '\u{0}')),
        0x102 => Some((2, 'A', '\u{306}', '\u{0}', '\u{0}')),
        0x103 => Some((2, 'a', '\u{306}', '\u{0}', '\u{0}')),
        0x104 => Some((2, 'A', '\u{328}', '\u{0}', '\u{0}')),
        0x105 => Some((2, 'a', '\u{328}', '\u{0}', '\u{0}')),
        0x106 => Some((2, 'C', '\u{301}', '\u{0}', '\u{0}')),
        0x107 => Some((2, 'c', '\u{301}', '\u{0}', '\u{0}')),
        0x108 => Some((2, 'C', '\u{302}', '\u{0}', '\u{0}')),
        0x109 => Some((2, 'c', '\u{302}', '\u{0}', '\u{0}')),
        0x10A => Some((2, 'C', '\u{307}', '\u{0}', '\u{0}')),
        0x10B => Some((2, 'c', '\u{307}', '\u{0}', '\u{0}')),
        0x10C => Some((2, 'C', '\u{30c}', '\u{0}', '\u{0}')),
        0x10D => Some((2, 'c', '\u{30c}', '\u{0}', '\u{0}')),
        0x10E => Some((2, 'D', '\u{30c}', '\u{0}', '\u{0}')),
        0x10F => Some((2, 'd', '\u{30c}', '\u{0}', '\u{0}')),
        0x112 => Some((2, 'E', '\u{304}', '\u{0}', '\u{0}')),
        0x113 => Some((2, 'e', '\u{304}', '\u{0}', '\u{0}')),
        0x114 => Some((2, 'E', '\u{306}', '\u{0}', '\u{0}')),
        0x115 => Some((2, 'e', '\u{306}', '\u{0}', '\u{0}')),
        0x116 => Some((2, 'E', '\u{307}', '\u{0}', '\u{0}')),
        0x117 => Some((2, 'e', '\u{307}', '\u{0}', '\u{0}')),
        0x118 => Some((2, 'E', '\u{328}', '\u{0}', '\u{0}')),
        0x119 => Some((2, 'e', '\u{328}', '\u{0}', '\u{0}')),
        0x11A => Some((2, 'E', '\u{30c}', '\u{0}', '\u{0}')),
        0x11B => Some((2, 'e', '\u{30c}', '\u{0}', '\u{0}')),
        0x11C => Some((2, 'G', '\u{302}', '\u{0}', '\u{0}')),
        0x11D => Some((2, 'g', '\u{302}', '\u{0}', '\u{0}')),
        0x11E => Some((2, 'G', '\u{306}', '\u{0}', '\u{0}')),
        0x11F => Some((2, 'g', '\u{306}', '\u{0}', '\u{0}')),
        0x120 => Some((2, 'G', '\u{307}', '\u{0}', '\u{0}')),
        0x121 => Some((2, 'g', '\u{307}', '\u{0}', '\u{0}')),
        0x122 => Some((2, 'G', '\u{327}', '\u{0}', '\u{0}')),
        0x123 => Some((2, 'g', '\u{327}', '\u{0}', '\u{0}')),
        0x124 => Some((2, 'H', '\u{302}', '\u{0}', '\u{0}')),
        0x125 => Some((2, 'h', '\u{302}', '\u{0}', '\u{0}')),
        0x128 => Some((2, 'I', '\u{303}', '\u{0}', '\u{0}')),
        0x129 => Some((2, 'i', '\u{303}', '\u{0}', '\u{0}')),
        0x12A => Some((2, 'I', '\u{304}', '\u{0}', '\u{0}')),
        0x12B => Some((2, 'i', '\u{304}', '\u{0}', '\u{0}')),
        0x12C => Some((2, 'I', '\u{306}', '\u{0}', '\u{0}')),
        0x12D => Some((2, 'i', '\u{306}', '\u{0}', '\u{0}')),
        0x12E => Some((2, 'I', '\u{328}', '\u{0}', '\u{0}')),
        0x12F => Some((2, 'i', '\u{328}', '\u{0}', '\u{0}')),
        0x130 => Some((2, 'I', '\u{307}', '\u{0}', '\u{0}')),
        0x134 => Some((2, 'J', '\u{302}', '\u{0}', '\u{0}')),
        0x135 => Some((2, 'j', '\u{302}', '\u{0}', '\u{0}')),
        0x136 => Some((2, 'K', '\u{327}', '\u{0}', '\u{0}')),
        0x137 => Some((2, 'k', '\u{327}', '\u{0}', '\u{0}')),
        0x139 => Some((2, 'L', '\u{301}', '\u{0}', '\u{0}')),
        0x13A => Some((2, 'l', '\u{301}', '\u{0}', '\u{0}')),
        0x13B => Some((2, 'L', '\u{327}', '\u{0}', '\u{0}')),
        0x13C => Some((2, 'l', '\u{327}', '\u{0}', '\u{0}')),
        0x13D => Some((2, 'L', '\u{30c}', '\u{0}', '\u{0}')),
        0x13E => Some((2, 'l', '\u{30c}', '\u{0}', '\u{0}')),
        0x143 => Some((2, 'N', '\u{301}', '\u{0}', '\u{0}')),
        0x144 => Some((2, 'n', '\u{301}', '\u{0}', '\u{0}')),
        0x145 => Some((2, 'N', '\u{327}', '\u{0}', '\u{0}')),
        0x146 => Some((2, 'n', '\u{327}', '\u{0}', '\u{0}')),
        0x147 => Some((2, 'N', '\u{30c}', '\u{0}', '\u{0}')),
        0x148 => Some((2, 'n', '\u{30c}', '\u{0}', '\u{0}')),
        0x14C => Some((2, 'O', '\u{304}', '\u{0}', '\u{0}')),
        0x14D => Some((2, 'o', '\u{304}', '\u{0}', '\u{0}')),
        0x14E => Some((2, 'O', '\u{306}', '\u{0}', '\u{0}')),
        0x14F => Some((2, 'o', '\u{306}', '\u{0}', '\u{0}')),
        0x150 => Some((2, 'O', '\u{30b}', '\u{0}', '\u{0}')),
        0x151 => Some((2, 'o', '\u{30b}', '\u{0}', '\u{0}')),
        0x154 => Some((2, 'R', '\u{301}', '\u{0}', '\u{0}')),
        0x155 => Some((2, 'r', '\u{301}', '\u{0}', '\u{0}')),
        0x156 => Some((2, 'R', '\u{327}', '\u{0}', '\u{0}')),
        0x157 => Some((2, 'r', '\u{327}', '\u{0}', '\u{0}')),
        0x158 => Some((2, 'R', '\u{30c}', '\u{0}', '\u{0}')),
        0x159 => Some((2, 'r', '\u{30c}', '\u{0}', '\u{0}')),
        0x15A => Some((2, 'S', '\u{301}', '\u{0}', '\u{0}')),
        0x15B => Some((2, 's', '\u{301}', '\u{0}', '\u{0}')),
        0x15C => Some((2, 'S', '\u{302}', '\u{0}', '\u{0}')),
        0x15D => Some((2, 's', '\u{302}', '\u{0}', '\u{0}')),
        0x15E => Some((2, 'S', '\u{327}', '\u{0}', '\u{0}')),
        0x15F => Some((2, 's', '\u{327}', '\u{0}', '\u{0}')),
        0x160 => Some((2, 'S', '\u{30c}', '\u{0}', '\u{0}')),
        0x161 => Some((2, 's', '\u{30c}', '\u{0}', '\u{0}')),
        0x162 => Some((2, 'T', '\u{327}', '\u{0}', '\u{0}')),
        0x163 => Some((2, 't', '\u{327}', '\u{0}', '\u{0}')),
        0x164 => Some((2, 'T', '\u{30c}', '\u{0}', '\u{0}')),
        0x165 => Some((2, 't', '\u{30c}', '\u{0}', '\u{0}')),
        0x168 => Some((2, 'U', '\u{303}', '\u{0}', '\u{0}')),
        0x169 => Some((2, 'u', '\u{303}', '\u{0}', '\u{0}')),
        0x16A => Some((2, 'U', '\u{304}', '\u{0}', '\u{0}')),
        0x16B => Some((2, 'u', '\u{304}', '\u{0}', '\u{0}')),
        0x16C => Some((2, 'U', '\u{306}', '\u{0}', '\u{0}')),
        0x16D => Some((2, 'u', '\u{306}', '\u{0}', '\u{0}')),
        0x16E => Some((2, 'U', '\u{30a}', '\u{0}', '\u{0}')),
        0x16F => Some((2, 'u', '\u{30a}', '\u{0}', '\u{0}')),
        0x170 => Some((2, 'U', '\u{30b}', '\u{0}', '\u{0}')),
        0x171 => Some((2, 'u', '\u{30b}', '\u{0}', '\u{0}')),
        0x172 => Some((2, 'U', '\u{328}', '\u{0}', '\u{0}')),
        0x173 => Some((2, 'u', '\u{328}', '\u{0}', '\u{0}')),
        0x174 => Some((2, 'W', '\u{302}', '\u{0}', '\u{0}')),
        0x175 => Some((2, 'w', '\u{302}', '\u{0}', '\u{0}')),
        0x176 => Some((2, 'Y', '\u{302}', '\u{0}', '\u{0}')),
        0x177 => Some((2, 'y', '\u{302}', '\u{0}', '\u{0}')),
        0x178 => Some((2, 'Y', '\u{308}', '\u{0}', '\u{0}')),
        0x179 => Some((2, 'Z', '\u{301}', '\u{0}', '\u{0}')),
        0x17A => Some((2, 'z', '\u{301}', '\u{0}', '\u{0}')),
        0x17B => Some((2, 'Z', '\u{307}', '\u{0}', '\u{0}')),
        0x17C => Some((2, 'z', '\u{307}', '\u{0}', '\u{0}')),
        0x17D => Some((2, 'Z', '\u{30c}', '\u{0}', '\u{0}')),
        0x17E => Some((2, 'z', '\u{30c}', '\u{0}', '\u{0}')),
        0x1A0 => Some((2, 'O', '\u{31b}', '\u{0}', '\u{0}')),
        0x1A1 => Some((2, 'o', '\u{31b}', '\u{0}', '\u{0}')),
        0x1AF => Some((2, 'U', '\u{31b}', '\u{0}', '\u{0}')),
        0x1B0 => Some((2, 'u', '\u{31b}', '\u{0}', '\u{0}')),
        0x1CD => Some((2, 'A', '\u{30c}', '\u{0}', '\u{0}')),
        0x1CE => Some((2, 'a', '\u{30c}', '\u{0}', '\u{0}')),
        0x1CF => Some((2, 'I', '\u{30c}', '\u{0}', '\u{0}')),
        0x1D0 => Some((2, 'i', '\u{30c}', '\u{0}', '\u{0}')),
        0x1D1 => Some((2, 'O', '\u{30c}', '\u{0}', '\u{0}')),
        0x1D2 => Some((2, 'o', '\u{30c}', '\u{0}', '\u{0}')),
        0x1D3 => Some((2, 'U', '\u{30c}', '\u{0}', '\u{0}')),
        0x1D4 => Some((2, 'u', '\u{30c}', '\u{0}', '\u{0}')),
        0x1D5 => Some((3, 'U', '\u{308}', '\u{304}', '\u{0}')),
        0x1D6 => Some((3, 'u', '\u{308}', '\u{304}', '\u{0}')),
        0x1D7 => Some((3, 'U', '\u{308}', '\u{301}', '\u{0}')),
        0x1D8 => Some((3, 'u', '\u{308}', '\u{301}', '\u{0}')),
        0x1D9 => Some((3, 'U', '\u{308}', '\u{30c}', '\u{0}')),
        0x1DA => Some((3, 'u', '\u{308}', '\u{30c}', '\u{0}')),
        0x1DB => Some((3, 'U', '\u{308}', '\u{300}', '\u{0}')),
        0x1DC => Some((3, 'u', '\u{308}', '\u{300}', '\u{0}')),
        0x1DE => Some((3, 'A', '\u{308}', '\u{304}', '\u{0}')),
        0x1DF => Some((3, 'a', '\u{308}', '\u{304}', '\u{0}')),
        0x1E0 => Some((3, 'A', '\u{307}', '\u{304}', '\u{0}')),
        0x1E1 => Some((3, 'a', '\u{307}', '\u{304}', '\u{0}')),
        0x1E2 => Some((2, '\u{c6}', '\u{304}', '\u{0}', '\u{0}')),
        0x1E3 => Some((2, '\u{e6}', '\u{304}', '\u{0}', '\u{0}')),
        0x1E6 => Some((2, 'G', '\u{30c}', '\u{0}', '\u{0}')),
        0x1E7 => Some((2, 'g', '\u{30c}', '\u{0}', '\u{0}')),
        0x1E8 => Some((2, 'K', '\u{30c}', '\u{0}', '\u{0}')),
        0x1E9 => Some((2, 'k', '\u{30c}', '\u{0}', '\u{0}')),
        0x1EA => Some((2, 'O', '\u{328}', '\u{0}', '\u{0}')),
        0x1EB => Some((2, 'o', '\u{328}', '\u{0}', '\u{0}')),
        0x1EC => Some((3, 'O', '\u{328}', '\u{304}', '\u{0}')),
        0x1ED => Some((3, 'o', '\u{328}', '\u{304}', '\u{0}')),
        0x1EE => Some((2, '\u{1b7}', '\u{30c}', '\u{0}', '\u{0}')),
        0x1EF => Some((2, '\u{292}', '\u{30c}', '\u{0}', '\u{0}')),
        0x1F0 => Some((2, 'j', '\u{30c}', '\u{0}', '\u{0}')),
        0x1F4 => Some((2, 'G', '\u{301}', '\u{0}', '\u{0}')),
        0x1F5 => Some((2, 'g', '\u{301}', '\u{0}', '\u{0}')),
        0x1F8 => Some((2, 'N', '\u{300}', '\u{0}', '\u{0}')),
        0x1F9 => Some((2, 'n', '\u{300}', '\u{0}', '\u{0}')),
        0x1FA => Some((3, 'A', '\u{30a}', '\u{301}', '\u{0}')),
        0x1FB => Some((3, 'a', '\u{30a}', '\u{301}', '\u{0}')),
        0x1FC => Some((2, '\u{c6}', '\u{301}', '\u{0}', '\u{0}')),
        0x1FD => Some((2, '\u{e6}', '\u{301}', '\u{0}', '\u{0}')),
        0x1FE => Some((2, '\u{d8}', '\u{301}', '\u{0}', '\u{0}')),
        0x1FF => Some((2, '\u{f8}', '\u{301}', '\u{0}', '\u{0}')),
        0x200 => Some((2, 'A', '\u{30f}', '\u{0}', '\u{0}')),
        0x201 => Some((2, 'a', '\u{30f}', '\u{0}', '\u{0}')),
        0x202 => Some((2, 'A', '\u{311}', '\u{0}', '\u{0}')),
        0x203 => Some((2, 'a', '\u{311}', '\u{0}', '\u{0}')),
        0x204 => Some((2, 'E', '\u{30f}', '\u{0}', '\u{0}')),
        0x205 => Some((2, 'e', '\u{30f}', '\u{0}', '\u{0}')),
        0x206 => Some((2, 'E', '\u{311}', '\u{0}', '\u{0}')),
        0x207 => Some((2, 'e', '\u{311}', '\u{0}', '\u{0}')),
        0x208 => Some((2, 'I', '\u{30f}', '\u{0}', '\u{0}')),
        0x209 => Some((2, 'i', '\u{30f}', '\u{0}', '\u{0}')),
        0x20A => Some((2, 'I', '\u{311}', '\u{0}', '\u{0}')),
        0x20B => Some((2, 'i', '\u{311}', '\u{0}', '\u{0}')),
        0x20C => Some((2, 'O', '\u{30f}', '\u{0}', '\u{0}')),
        0x20D => Some((2, 'o', '\u{30f}', '\u{0}', '\u{0}')),
        0x20E => Some((2, 'O', '\u{311}', '\u{0}', '\u{0}')),
        0x20F => Some((2, 'o', '\u{311}', '\u{0}', '\u{0}')),
        0x210 => Some((2, 'R', '\u{30f}', '\u{0}', '\u{0}')),
        0x211 => Some((2, 'r', '\u{30f}', '\u{0}', '\u{0}')),
        0x212 => Some((2, 'R', '\u{311}', '\u{0}', '\u{0}')),
        0x213 => Some((2, 'r', '\u{311}', '\u{0}', '\u{0}')),
        0x214 => Some((2, 'U', '\u{30f}', '\u{0}', '\u{0}')),
        0x215 => Some((2, 'u', '\u{30f}', '\u{0}', '\u{0}')),
        0x216 => Some((2, 'U', '\u{311}', '\u{0}', '\u{0}')),
        0x217 => Some((2, 'u', '\u{311}', '\u{0}', '\u{0}')),
        0x218 => Some((2, 'S', '\u{326}', '\u{0}', '\u{0}')),
        0x219 => Some((2, 's', '\u{326}', '\u{0}', '\u{0}')),
        0x21A => Some((2, 'T', '\u{326}', '\u{0}', '\u{0}')),
        0x21B => Some((2, 't', '\u{326}', '\u{0}', '\u{0}')),
        0x21E => Some((2, 'H', '\u{30c}', '\u{0}', '\u{0}')),
        0x21F => Some((2, 'h', '\u{30c}', '\u{0}', '\u{0}')),
        0x226 => Some((2, 'A', '\u{307}', '\u{0}', '\u{0}')),
        0x227 => Some((2, 'a', '\u{307}', '\u{0}', '\u{0}')),
        0x228 => Some((2, 'E', '\u{327}', '\u{0}', '\u{0}')),
        0x229 => Some((2, 'e', '\u{327}', '\u{0}', '\u{0}')),
        0x22A => Some((3, 'O', '\u{308}', '\u{304}', '\u{0}')),
        0x22B => Some((3, 'o', '\u{308}', '\u{304}', '\u{0}')),
        0x22C => Some((3, 'O', '\u{303}', '\u{304}', '\u{0}')),
        0x22D => Some((3, 'o', '\u{303}', '\u{304}', '\u{0}')),
        0x22E => Some((2, 'O', '\u{307}', '\u{0}', '\u{0}')),
        0x22F => Some((2, 'o', '\u{307}', '\u{0}', '\u{0}')),
        0x230 => Some((3, 'O', '\u{307}', '\u{304}', '\u{0}')),
        0x231 => Some((3, 'o', '\u{307}', '\u{304}', '\u{0}')),
        0x232 => Some((2, 'Y', '\u{304}', '\u{0}', '\u{0}')),
        0x233 => Some((2, 'y', '\u{304}', '\u{0}', '\u{0}')),
        0x340 => Some((1, '\u{300}', '\u{0}', '\u{0}', '\u{0}')),
        0x341 => Some((1, '\u{301}', '\u{0}', '\u{0}', '\u{0}')),
        0x343 => Some((1, '\u{313}', '\u{0}', '\u{0}', '\u{0}')),
        0x344 => Some((2, '\u{308}', '\u{301}', '\u{0}', '\u{0}')),
        0x374 => Some((1, '\u{2b9}', '\u{0}', '\u{0}', '\u{0}')),
        0x37E => Some((1, ';', '\u{0}', '\u{0}', '\u{0}')),
        0x385 => Some((2, '\u{a8}', '\u{301}', '\u{0}', '\u{0}')),
        0x386 => Some((2, '\u{391}', '\u{301}', '\u{0}', '\u{0}')),
        0x387 => Some((1, '\u{b7}', '\u{0}', '\u{0}', '\u{0}')),
        0x388 => Some((2, '\u{395}', '\u{301}', '\u{0}', '\u{0}')),
        0x389 => Some((2, '\u{397}', '\u{301}', '\u{0}', '\u{0}')),
        0x38A => Some((2, '\u{399}', '\u{301}', '\u{0}', '\u{0}')),
        0x38C => Some((2, '\u{39f}', '\u{301}', '\u{0}', '\u{0}')),
        0x38E => Some((2, '\u{3a5}', '\u{301}', '\u{0}', '\u{0}')),
        0x38F => Some((2, '\u{3a9}', '\u{301}', '\u{0}', '\u{0}')),
        0x390 => Some((3, '\u{3b9}', '\u{308}', '\u{301}', '\u{0}')),
        0x3AA => Some((2, '\u{399}', '\u{308}', '\u{0}', '\u{0}')),
        0x3AB => Some((2, '\u{3a5}', '\u{308}', '\u{0}', '\u{0}')),
        0x3AC => Some((2, '\u{3b1}', '\u{301}', '\u{0}', '\u{0}')),
        0x3AD => Some((2, '\u{3b5}', '\u{301}', '\u{0}', '\u{0}')),
        0x3AE => Some((2, '\u{3b7}', '\u{301}', '\u{0}', '\u{0}')),
        0x3AF => Some((2, '\u{3b9}', '\u{301}', '\u{0}', '\u{0}')),
        0x3B0 => Some((3, '\u{3c5}', '\u{308}', '\u{301}', '\u{0}')),
        0x3CA => Some((2, '\u{3b9}', '\u{308}', '\u{0}', '\u{0}')),
        0x3CB => Some((2, '\u{3c5}', '\u{308}', '\u{0}', '\u{0}')),
        0x3CC => Some((2, '\u{3bf}', '\u{301}', '\u{0}', '\u{0}')),
        0x3CD => Some((2, '\u{3c5}', '\u{301}', '\u{0}', '\u{0}')),
        0x3CE => Some((2, '\u{3c9}', '\u{301}', '\u{0}', '\u{0}')),
        0x3D3 => Some((2, '\u{3d2}', '\u{301}', '\u{0}', '\u{0}')),
        0x3D4 => Some((2, '\u{3d2}', '\u{308}', '\u{0}', '\u{0}')),
        0x400 => Some((2, '\u{415}', '\u{300}', '\u{0}', '\u{0}')),
        0x401 => Some((2, '\u{415}', '\u{308}', '\u{0}', '\u{0}')),
        0x403 => Some((2, '\u{413}', '\u{301}', '\u{0}', '\u{0}')),
        0x407 => Some((2, '\u{406}', '\u{308}', '\u{0}', '\u{0}')),
        0x40C => Some((2, '\u{41a}', '\u{301}', '\u{0}', '\u{0}')),
        0x40D => Some((2, '\u{418}', '\u{300}', '\u{0}', '\u{0}')),
        0x40E => Some((2, '\u{423}', '\u{306}', '\u{0}', '\u{0}')),
        0x419 => Some((2, '\u{418}', '\u{306}', '\u{0}', '\u{0}')),
        0x439 => Some((2, '\u{438}', '\u{306}', '\u{0}', '\u{0}')),
        0x450 => Some((2, '\u{435}', '\u{300}', '\u{0}', '\u{0}')),
        0x451 => Some((2, '\u{435}', '\u{308}', '\u{0}', '\u{0}')),
        0x453 => Some((2, '\u{433}', '\u{301}', '\u{0}', '\u{0}')),
        0x457 => Some((2, '\u{456}', '\u{308}', '\u{0}', '\u{0}')),
        0x45C => Some((2, '\u{43a}', '\u{301}', '\u{0}', '\u{0}')),
        0x45D => Some((2, '\u{438}', '\u{300}', '\u{0}', '\u{0}')),
        0x45E => Some((2, '\u{443}', '\u{306}', '\u{0}', '\u{0}')),
        0x476 => Some((2, '\u{474}', '\u{30f}', '\u{0}', '\u{0}')),
        0x477 => Some((2, '\u{475}', '\u{30f}', '\u{0}', '\u{0}')),
        0x4C1 => Some((2, '\u{416}', '\u{306}', '\u{0}', '\u{0}')),
        0x4C2 => Some((2, '\u{436}', '\u{306}', '\u{0}', '\u{0}')),
        0x4D0 => Some((2, '\u{410}', '\u{306}', '\u{0}', '\u{0}')),
        0x4D1 => Some((2, '\u{430}', '\u{306}', '\u{0}', '\u{0}')),
        0x4D2 => Some((2, '\u{410}', '\u{308}', '\u{0}', '\u{0}')),
        0x4D3 => Some((2, '\u{430}', '\u{308}', '\u{0}', '\u{0}')),
        0x4D6 => Some((2, '\u{415}', '\u{306}', '\u{0}', '\u{0}')),
        0x4D7 => Some((2, '\u{435}', '\u{306}', '\u{0}', '\u{0}')),
        0x4DA => Some((2, '\u{4d8}', '\u{308}', '\u{0}', '\u{0}')),
        0x4DB => Some((2, '\u{4d9}', '\u{308}', '\u{0}', '\u{0}')),
        0x4DC => Some((2, '\u{416}', '\u{308}', '\u{0}', '\u{0}')),
        0x4DD => Some((2, '\u{436}', '\u{308}', '\u{0}', '\u{0}')),
        0x4DE => Some((2, '\u{417}', '\u{308}', '\u{0}', '\u{0}')),
        0x4DF => Some((2, '\u{437}', '\u{308}', '\u{0}', '\u{0}')),
        0x4E2 => Some((2, '\u{418}', '\u{304}', '\u{0}', '\u{0}')),
        0x4E3 => Some((2, '\u{438}', '\u{304}', '\u{0}', '\u{0}')),
        0x4E4 => Some((2, '\u{418}', '\u{308}', '\u{0}', '\u{0}')),
        0x4E5 => Some((2, '\u{438}', '\u{308}', '\u{0}', '\u{0}')),
        0x4E6 => Some((2, '\u{41e}', '\u{308}', '\u{0}', '\u{0}')),
        0x4E7 => Some((2, '\u{43e}', '\u{308}', '\u{0}', '\u{0}')),
        0x4EA => Some((2, '\u{4e8}', '\u{308}', '\u{0}', '\u{0}')),
        0x4EB => Some((2, '\u{4e9}', '\u{308}', '\u{0}', '\u{0}')),
        0x4EC => Some((2, '\u{42d}', '\u{308}', '\u{0}', '\u{0}')),
        0x4ED => Some((2, '\u{44d}', '\u{308}', '\u{0}', '\u{0}')),
        0x4EE => Some((2, '\u{423}', '\u{304}', '\u{0}', '\u{0}')),
        0x4EF => Some((2, '\u{443}', '\u{304}', '\u{0}', '\u{0}')),
        0x4F0 => Some((2, '\u{423}', '\u{308}', '\u{0}', '\u{0}')),
        0x4F1 => Some((2, '\u{443}', '\u{308}', '\u{0}', '\u{0}')),
        0x4F2 => Some((2, '\u{423}', '\u{30b}', '\u{0}', '\u{0}')),
        0x4F3 => Some((2, '\u{443}', '\u{30b}', '\u{0}', '\u{0}')),
        0x4F4 => Some((2, '\u{427}', '\u{308}', '\u{0}', '\u{0}')),
        0x4F5 => Some((2, '\u{447}', '\u{308}', '\u{0}', '\u{0}')),
        0x4F8 => Some((2, '\u{42b}', '\u{308}', '\u{0}', '\u{0}')),
        0x4F9 => Some((2, '\u{44b}', '\u{308}', '\u{0}', '\u{0}')),
        0x622 => Some((2, '\u{627}', '\u{653}', '\u{0}', '\u{0}')),
        0x623 => Some((2, '\u{627}', '\u{654}', '\u{0}', '\u{0}')),
        0x624 => Some((2, '\u{648}', '\u{654}', '\u{0}', '\u{0}')),
        0x625 => Some((2, '\u{627}', '\u{655}', '\u{0}', '\u{0}')),
        0x626 => Some((2, '\u{64a}', '\u{654}', '\u{0}', '\u{0}')),
        0x6C0 => Some((2, '\u{6d5}', '\u{654}', '\u{0}', '\u{0}')),
        0x6C2 => Some((2, '\u{6c1}', '\u{654}', '\u{0}', '\u{0}')),
        0x6D3 => Some((2, '\u{6d2}', '\u{654}', '\u{0}', '\u{0}')),
        0x929 => Some((2, '\u{928}', '\u{93c}', '\u{0}', '\u{0}')),
        0x931 => Some((2, '\u{930}', '\u{93c}', '\u{0}', '\u{0}')),
        0x934 => Some((2, '\u{933}', '\u{93c}', '\u{0}', '\u{0}')),
        0x958 => Some((2, '\u{915}', '\u{93c}', '\u{0}', '\u{0}')),
        0x959 => Some((2, '\u{916}', '\u{93c}', '\u{0}', '\u{0}')),
        0x95A => Some((2, '\u{917}', '\u{93c}', '\u{0}', '\u{0}')),
        0x95B => Some((2, '\u{91c}', '\u{93c}', '\u{0}', '\u{0}')),
        0x95C => Some((2, '\u{921}', '\u{93c}', '\u{0}', '\u{0}')),
        0x95D => Some((2, '\u{922}', '\u{93c}', '\u{0}', '\u{0}')),
        0x95E => Some((2, '\u{92b}', '\u{93c}', '\u{0}', '\u{0}')),
        0x95F => Some((2, '\u{92f}', '\u{93c}', '\u{0}', '\u{0}')),
        0x9CB => Some((2, '\u{9c7}', '\u{9be}', '\u{0}', '\u{0}')),
        0x9CC => Some((2, '\u{9c7}', '\u{9d7}', '\u{0}', '\u{0}')),
        0x9DC => Some((2, '\u{9a1}', '\u{9bc}', '\u{0}', '\u{0}')),
        0x9DD => Some((2, '\u{9a2}', '\u{9bc}', '\u{0}', '\u{0}')),
        0x9DF => Some((2, '\u{9af}', '\u{9bc}', '\u{0}', '\u{0}')),
        0xA33 => Some((2, '\u{a32}', '\u{a3c}', '\u{0}', '\u{0}')),
        0xA36 => Some((2, '\u{a38}', '\u{a3c}', '\u{0}', '\u{0}')),
        0xA59 => Some((2, '\u{a16}', '\u{a3c}', '\u{0}', '\u{0}')),
        0xA5A => Some((2, '\u{a17}', '\u{a3c}', '\u{0}', '\u{0}')),
        0xA5B => Some((2, '\u{a1c}', '\u{a3c}', '\u{0}', '\u{0}')),
        0xA5E => Some((2, '\u{a2b}', '\u{a3c}', '\u{0}', '\u{0}')),
        0xB48 => Some((2, '\u{b47}', '\u{b56}', '\u{0}', '\u{0}')),
        0xB4B => Some((2, '\u{b47}', '\u{b3e}', '\u{0}', '\u{0}')),
        0xB4C => Some((2, '\u{b47}', '\u{b57}', '\u{0}', '\u{0}')),
        0xB5C => Some((2, '\u{b21}', '\u{b3c}', '\u{0}', '\u{0}')),
        0xB5D => Some((2, '\u{b22}', '\u{b3c}', '\u{0}', '\u{0}')),
        0xB94 => Some((2, '\u{b92}', '\u{bd7}', '\u{0}', '\u{0}')),
        0xBCA => Some((2, '\u{bc6}', '\u{bbe}', '\u{0}', '\u{0}')),
        0xBCB => Some((2, '\u{bc7}', '\u{bbe}', '\u{0}', '\u{0}')),
        0xBCC => Some((2, '\u{bc6}', '\u{bd7}', '\u{0}', '\u{0}')),
        0xC48 => Some((2, '\u{c46}', '\u{c56}', '\u{0}', '\u{0}')),
        0xCC0 => Some((2, '\u{cbf}', '\u{cd5}', '\u{0}', '\u{0}')),
        0xCC7 => Some((2, '\u{cc6}', '\u{cd5}', '\u{0}', '\u{0}')),
        0xCC8 => Some((2, '\u{cc6}', '\u{cd6}', '\u{0}', '\u{0}')),
        0xCCA => Some((2, '\u{cc6}', '\u{cc2}', '\u{0}', '\u{0}')),
        0xCCB => Some((3, '\u{cc6}', '\u{cc2}', '\u{cd5}', '\u{0}')),
        0xD4A => Some((2, '\u{d46}', '\u{d3e}', '\u{0}', '\u{0}')),
        0xD4B => Some((2, '\u{d47}', '\u{d3e}', '\u{0}', '\u{0}')),
        0xD4C => Some((2, '\u{d46}', '\u{d57}', '\u{0}', '\u{0}')),
        0xDDA => Some((2, '\u{dd9}', '\u{dca}', '\u{0}', '\u{0}')),
        0xDDC => Some((2, '\u{dd9}', '\u{dcf}', '\u{0}', '\u{0}')),
        0xDDD => Some((3, '\u{dd9}', '\u{dcf}', '\u{dca}', '\u{0}')),
        0xDDE => Some((2, '\u{dd9}', '\u{ddf}', '\u{0}', '\u{0}')),
        0xF43 => Some((2, '\u{f42}', '\u{fb7}', '\u{0}', '\u{0}')),
        0xF4D => Some((2, '\u{f4c}', '\u{fb7}', '\u{0}', '\u{0}')),
        0xF52 => Some((2, '\u{f51}', '\u{fb7}', '\u{0}', '\u{0}')),
        0xF57 => Some((2, '\u{f56}', '\u{fb7}', '\u{0}', '\u{0}')),
        0xF5C => Some((2, '\u{f5b}', '\u{fb7}', '\u{0}', '\u{0}')),
        0xF69 => Some((2, '\u{f40}', '\u{fb5}', '\u{0}', '\u{0}')),
        0xF73 => Some((2, '\u{f71}', '\u{f72}', '\u{0}', '\u{0}')),
        0xF75 => Some((2, '\u{f71}', '\u{f74}', '\u{0}', '\u{0}')),
        0xF76 => Some((2, '\u{fb2}', '\u{f80}', '\u{0}', '\u{0}')),
        0xF78 => Some((2, '\u{fb3}', '\u{f80}', '\u{0}', '\u{0}')),
        0xF81 => Some((2, '\u{f71}', '\u{f80}', '\u{0}', '\u{0}')),
        0xF93 => Some((2, '\u{f92}', '\u{fb7}', '\u{0}', '\u{0}')),
        0xF9D => Some((2, '\u{f9c}', '\u{fb7}', '\u{0}', '\u{0}')),
        0xFA2 => Some((2, '\u{fa1}', '\u{fb7}', '\u{0}', '\u{0}')),
        0xFA7 => Some((2, '\u{fa6}', '\u{fb7}', '\u{0}', '\u{0}')),
        0xFAC => Some((2, '\u{fab}', '\u{fb7}', '\u{0}', '\u{0}')),
        0xFB9 => Some((2, '\u{f90}', '\u{fb5}', '\u{0}', '\u{0}')),
        _ => None,
    }
}

fn decomposition_0_of(u: u32) -> (r: Option<(u8, char, char, char, char)>)
    ensures
        r == decomposition_0(u),
{
    match u {
        0xC0 => Some((2, 'A', '\u{300}', '\u{0}', '\u{0}')),
        0xC1 => Some((2, 'A', '\u{301}', '\u{0}', '\u{0}')),
        0xC2 => Some((2, 'A', '\u{302}', '\u{0}', '\u{0}')),
        0xC3 => Some((2, 'A', '\u{303}', '\u{0}', '\u{0}')),
        0xC4 => Some((2, 'A', '\u{308}', '\u{0}', '\u{0}')),
        0xC5 => Some((2, 'A', '\u{30a}', '\u{0}', '\u{0}')),
        0xC7 => Some((2, 'C', '\u{327}', '\u{0}', '\u{0}')),
        0xC8 => Some((2, 'E', '\u{300}', '\u{0}', '\u{0}')),
        0xC9 => Some((2, 'E', '\u{301}', '\u{0}', '\u{0}')),
        0xCA => Some((2, 'E', '\u{302}', '\u{0}', '\u{0}')),
        0xCB => Some((2, 'E', '\u{308}', '\u{0}', '\u{0}')),
        0xCC => Some((2, 'I', '\u{300}', '\u{0}', '\u{0}')),
        0xCD => Some((2, 'I', '\u{301}', '\u{0}', '\u{0}')),
        0xCE => Some((2, 'I', '\u{302}', '\u{0}', '\u{0}')),
        0xCF => Some((2, 'I', '\u{308}', '\u{0}', '\u{0}')),
        0xD1 => Some((2, 'N', '\u{303}', '\u{0}', '\u{0}')),
        0xD2 => Some((2, 'O', '\u{300}', '\u{0}', '\u{0}')),
        0xD3 => Some((2, 'O', '\u{301}', '\u{0}', '\u{0}')),
        0xD4 => Some((2, 'O', '\u{302}', '\u{0}', '\u{0}')),
        0xD5 => Some((2, 'O', '\u{303}', '\u{0}', '\u{0}')),
        0xD6 => Some((2, 'O', '\u{308}', '\u{0}', '\u{0}')),
        0xD9 => Some((2, 'U', '\u{300}', '\u{0}', '\u{0}')),
        0xDA => Some((2, 'U', '\u{301}', '\u{0}', '\u{0}')),
        0xDB => Some((2, 'U', '\u{302}', '\u{0}', '\u{0}')),
        0xDC => Some((2, 'U', '\u{308}', '\u{0}', '\u{0}')),
        0xDD => Some((2, 'Y', '\u{301}', '\u{0}', '\u{0}')),
        0xE0 => Some((2, 'a', '\u{300}', '\u{0}', '\u{0}')),
        0xE1 => Some((2, 'a', '\u{301}', '\u{0}', '\u{0}')),
        0xE2 => Some((2, 'a', '\u{302}', '\u{0}', '\u{0}')),
        0xE3 => Some((2, 'a', '\u{303}', '\u{0}', '\u{0}')),
        0xE4 => Some((2, 'a', '\u{308}', '\u{0}', '\u{0}')),
        0xE5 => Some((2, 'a', '\u{30a}', '\u{0}', '\u{0}')),
        0xE7 => Some((2, 'c', '\u{327}', '\u{0}', '\u{0}')),
        0xE8 => Some((2, 'e', '\u{300}', '\u{0}', '\u{0}')),
        0xE9 => Some((2, 'e', '\u{301}', '\u{0}', '\u{0}')),
        0xEA => Some((2, 'e', '\u{302}', '\u{0}', '\u{0}')),
        0xEB => Some((2, 'e', '\u{308}', '\u{0}', '\u{0}')),
        0xEC => Some((2, 'i', '\u{300}', '\u{0}', '\u{0}')),
        0xED => Some((2, 'i', '\u{301}', '\u{0}', '\u{0}')),
        0xEE => Some((2, 'i', '\u{302}', '\u{0}', '\u{0}')),
        0xEF => Some((2, 'i', '\u{308}', '\u{0}', '\u{0}')),
        0xF1 => Some((2, 'n', '\u{303}', '\u{0}', '\u{0}')),
        0xF2 => Some((2, 'o', '\u{300}', '\u{0}', '\u{0}')),
        0xF3 => Some((2, 'o', '\u{301}', '\u{0}', '\u{0}')),
        0xF4 => Some((2, 'o', '\u{302}', '\u{0}', '\u{0}')),
        0xF5 => Some((2, 'o', '\u{303}', '\u{0}', '\u{0}')),
        0xF6 => Some((2, 'o', '\u{308}', '\u{0}', '\u{0}')),
        0xF9 => Some((2, 'u', '\u{300}', '\u{0}', '\u{0}')),
        0xFA => Some((2, 'u', '\u{301}', '\u{0}', '\u{0}')),
        0xFB => Some((2, 'u', '\u{302}', '\u{0}', '\u{0}')),
        0xFC => Some((2, 'u', '\u{308}', '\u{0}', '\u{0}')),
        0xFD => Some((2, 'y', '\u{301}', '\u{0}', '\u{0}')),
        0xFF => Some((2, 'y', '\u{308}', '\u{0}', '\u{0}')),
        0x100 => Some((2, 'A', '\u{304}', '\u{0}', '\u{0}')),
        0x101 => Some((2, 'a', '\u{304}', '\u{0}', '\u{0}')),
        0x102 => Some((2, 'A', '\u{306}', '\u{0}', '\u{0}')),
        0x103 => Some((2, 'a', '\u{306}', '\u{0}', '\u{0}')),
        0x104 => Some((2, 'A', '\u{328}', '\u{0}', '\u{0}')),
        0x105 => Some((2, 'a', '\u{328}', '\u{0}', '\u{0}')),
        0x106 => Some((2, 'C', '\u{301}', '\u{0}', '\u{0}')),
        0x107 => Some((2, 'c', '\u{301}', '\u{0}', '\u{0}')),
        0x108 => Some((2, 'C', '\u{302}', '\u{0}', '\u{0}')),
        0x109 => Some((2, 'c', '\u{302}', '\u{0}', '\u{0}')),
        0x10A => Some((2, 'C', '\u{307}', '\u{0}', '\u{0}')),
        0x10B => Some((2, 'c', '\u{307}', '\u{0}', '\u{0}')),
        0x10C => Some((2, 'C', '\u{30c}', '\u{0}', '\u{0}')),
        0x10D => Some((2, 'c', '\u{30c}', '\u{0}', '\u{0}')),
        0x10E => Some((2, 'D', '\u{30c}', '\u{0}', '\u{0}')),
        0x10F => Some((2, 'd', '\u{30c}', '\u{0}', '\u{0}')),
        0x112 => Some((2, 'E', '\u{304}', '\u{0}', '\u{0}')),
        0x113 => Some((2, 'e', '\u{304}', '\u{0}', '\u{0}')),
        0x114 => Some((2, 'E', '\u{306}', '\u{0}', '\u{0}')),
        0x115 => Some((2, 'e', '\u{306}', '\u{0}', '\u{0}')),
        0x116 => Some((2, 'E', '\u{307}', '\u{0}', '\u{0}')),
        0x117 => Some((2, 'e', '\u{307}', '\u{0}', '\u{0}')),
        0x118 => Some((2, 'E', '\u{328}', '\u{0}', '\u{0}')),
        0x119 => Some((2, 'e', '\u{328}', '\u{0}', '\u{0}')),
        0x11A => Some((2, 'E', '\u{30c}', '\u{0}', '\u{0}')),
        0x11B => Some((2, 'e', '\u{30c}', '\u{0}', '\u{0}')),
        0x11C => Some((2, 'G', '\u{302}', '\u{0}', '\u{0}')),
        0x11D => Some((2, 'g', '\u{302}', '\u{0}', '\u{0}')),
        0x11E => Some((2, 'G', '\u{306}', '\u{0}', '\u{0}')),
        0x11F => Some((2, 'g', '\u{306}', '\u{0}', '\u{0}')),
        0x120 => Some((2, 'G', '\u{307}', '\u{0}', '\u{0}')),
        0x121 => Some((2, 'g', '\u{307}', '\u{0}', '\u{0}')),
        0x122 => Some((2, 'G', '\u{327}', '\u{0}', '\u{0}')),
        0x123 => Some((2, 'g', '\u{327}', '\u{0}', '\u{0}')),
        0x124 => Some((2, 'H', '\u{302}', '\u{0}', '\u{0}')),
        0x125 => Some((2, 'h', '\u{302}', '\u{0}', '\u{0}')),
        0x128 => Some((2, 'I', '\u{303}', '\u{0}', '\u{0}')),
        0x129 => Some((2, 'i', '\u{303}', '\u{0}', '\u{0}')),
        0x12A => Some((2, 'I', '\u{304}', '\u{0}', '\u{0}')),
        0x12B => Some((2, 'i', '\u{304}', '\u{0}', '\u{0}')),
        0x12C => Some((2, 'I', '\u{306}', '\u{0}', '\u{0}')),
        0x12D => Some((2, 'i', '\u{306}', '\u{0}', '\u{0}')),
        0x12E => Some((2, 'I', '\u{328}', '\u{0}', '\u{0}')),
        0x12F => Some((2, 'i', '\u{328}', '\u{0}', '\u{0}')),
        0x130 => Some((2, 'I', '\u{307}', '\u{0}', '\u{0}')),
        0x134 => Some((2, 'J', '\u{302}', '\u{0}', '\u{0}')),
        0x135 => Some((2, 'j', '\u{302}', '\u{0}', '\u{0}')),
        0x136 => Some((2, 'K', '\u{327}', '\u{0}', '\u{0}')),
        0x137 => Some((2, 'k', '\u{327}', '\u{0}', '\u{0}')),
        0x139 => Some((2, 'L', '\u{301}', '\u{0}', '\u{0}')),
        0x13A => Some((2, 'l', '\u{301}', '\u{0}', '\u{0}')),
        0x13B => Some((2, 'L', '\u{327}', '\u{0}', '\u{0}')),
        0x13C => Some((2, 'l', '\u{327}', '\u{0}', '\u{0}')),
        0x13D => Some((2, 'L', '\u{30c}', '\u{0}', '\u{0}')),
        0x13E => Some((2, 'l', '\u{30c}', '\u{0}', '\u{0}')),
        0x143 => Some((2, 'N', '\u{301}', '\u{0}', '\u{0}')),
        0x144 => Some((2, 'n', '\u{301}', '\u{0}', '\u{0}')),
        0x145 => Some((2, 'N', '\u{327}', '\u{0}', '\u{0}')),
        0x146 => Some((2, 'n', '\u{327}', '\u{0}', '\u{0}')),
        0x147 => Some((2, 'N', '\u{30c}', '\u{0}', '\u{0}')),
        0x148 => Some((2, 'n', '\u{30c}', '\u{0}', '\u{0}')),
        0x14C => Some((2, 'O', '\u{304}', '\u{0}', '\u{0}')),
        0x14D => Some((2, 'o', '\u{304}', '\u{0}', '\u{0}')),
        0x14E => Some((2, 'O', '\u{306}', '\u{0}', '\u{0}')),
        0x14F => Some((2, 'o', '\u{306}', '\u{0}', '\u{0}')),
        0x150 => Some((2, 'O', '\u{30b}', '\u{0}', '\u{0}')),
        0x151 => Some((2, 'o', '\u{30b}', '\u{0}', '\u{0}')),
        0x154 => Some((2, 'R', '\u{301}', '\u{0}', '\u{0}')),
        0x155 => Some((2, 'r', '\u{301}', '\u{0}', '\u{0}')),
        0x156 => Some((2, 'R', '\u{327}', '\u{0}', '\u{0}')),
        0x157 => Some((2, 'r', '\u{327}', '\u{0}', '\u{0}')),
        0x158 => Some((2, 'R', '\u{30c}', '\u{0}', '\u{0}')),
        0x159 => Some((2, 'r', '\u{30c}', '\u{0}', '\u{0}')),
        0x15A => Some((2, 'S', '\u{301}', '\u{0}', '\u{0}')),
        0x15B => Some((2, 's', '\u{301}', '\u{0}', '\u{0}')),
        0x15C => Some((2, 'S', '\u{302}', '\u{0}', '\u{0}')),
        0x15D => Some((2, 's', '\u{302}', '\u{0}', '\u{0}')),
        0x15E => Some((2, 'S', '\u{327}', '\u{0}', '\u{0}')),
        0x15F => Some((2, 's', '\u{327}', '\u{0}', '\u{0}')),
        0x160 => Some((2, 'S', '\u{30c}', '\u{0}', '\u{0}')),
        0x161 => Some((2, 's', '\u{30c}', '\u{0}', '\u{0}')),
        0x162 => Some((2, 'T', '\u{327}', '\u{0}', '\u{0}')),
        0x163 => Some((2, 't', '\u{327}', '\u{0}', '\u{0}')),
        0x164 => Some((2, 'T', '\u{30c}', '\u{0}', '\u{0}')),
        0x165 => Some((2, 't', '\u{30c}', '\u{0}', '\u{0}')),
        0x168 => Some((2, 'U', '\u{303}', '\u{0}', '\u{0}')),
        0x169 => Some((2, 'u', '\u{303}', '\u{0}', '\u{0}')),
        0x16A => Some((2, 'U', '\u{304}', '\u{0}', '\u{0}')),
        0x16B => Some((2, 'u', '\u{304}', '\u{0}', '\u{0}')),
        0x16C => Some((2, 'U', '\u{306}', '\u{0}', '\u{0}')),
        0x16D => Some((2, 'u', '\u{306}', '\u{0}', '\u{0}')),
        0x16E => Some((2, 'U', '\u{30a}', '\u{0}', '\u{0}')),
        0x16F => Some((2, 'u', '\u{30a}', '\u{0}', '\u{0}')),
        0x170 => Some((2, 'U', '\u{30b}', '\u{0}', '\u{0}')),
        0x171 => Some((2, 'u', '\u{30b}', '\u{0}', '\u{0}')),
        0x172 => Some((2, 'U', '\u{328}', '\u{0}', '\u{0}')),
        0x173 => Some((2, 'u', '\u{328}', '\u{0}', '\u{0}')),
        0x174 => Some((2, 'W', '\u{302}', '\u{0}', '\u{0}')),
        0x175 => Some((2, 'w', '\u{302}', '\u{0}', '\u{0}')),
        0x176 => Some((2, 'Y', '\u{302}', '\u{0}', '\u{0}')),
        0x177 => Some((2, 'y', '\u{302}', '\u{0}', '\u{0}')),
        0x178 => Some((2, 'Y', '\u{308}', '\u{0}', '\u{0}')),
        0x179 => Some((2, 'Z', '\u{301}', '\u{0}', '\u{0}')),
        0x17A => Some((2, 'z', '\u{301}', '\u{0}', '\u{0}')),
        0x17B => Some((2, 'Z', '\u{307}', '\u{0}', '\u{0}')),
        0x17C => Some((2, 'z', '\u{307}', '\u{0}', '\u{0}')),
        0x17D => Some((2, 'Z', '\u{30c}', '\u{0}', '\u{0}')),
        0x17E => Some((2, 'z', '\u{30c}', '\u{0}', '\u{0}')),
        0x1A0 => Some((2, 'O', '\u{31b}', '\u{0}', '\u{0}')),
        0x1A1 => Some((2, 'o', '\u{31b}', '\u{0}', '\u{0}')),
        0x1AF => Some((2, 'U', '\u{31b}', '\u{0}', '\u{0}')),
        0x1B0 => Some((2, 'u', '\u{31b}', '\u{0}', '\u{0}')),
        0x1CD => Some((2, 'A', '\u{30c}', '\u{0}', '\u{0}')),
        0x1CE => Some((2, 'a', '\u{30c}', '\u{0}', '\u{0}')),
        0x1CF => Some((2, 'I', '\u{30c}', '\u{0}', '\u{0}')),
        0x1D0 => Some((2, 'i', '\u{30c}', '\u{0}', '\u{0}')),
        0x1D1 => Some((2, 'O', '\u{30c}', '\u{0}', '\u{0}')),
        0x1D2 => Some((2, 'o', '\u{30c}', '\u{0}', '\u{0}')),
        0x1D3 => Some((2, 'U', '\u{30c}', '\u{0}', '\u{0}')),
        0x1D4 => Some((2, 'u', '\u{30c}', '\u{0}', '\u{0}')),
        0x1D5 => Some((3, 'U', '\u{308}', '\u{304}', '\u{0}')),
        0x1D6 => Some((3, 'u', '\u{308}', '\u{304}', '\u{0}')),
        0x1D7 => Some((3, 'U', '\u{308}', '\u{301}', '\u{0}')),
        0x1D8 => Some((3, 'u', '\u{308}', '\u{301}', '\u{0}')),
        0x1D9 => Some((3, 'U', '\u{308}', '\u{30c}', '\u{0}')),
        0x1DA => Some((3, 'u', '\u{308}', '\u{30c}', '\u{0}')),
        0x1DB => Some((3, 'U', '\u{308}', '\u{300}', '\u{0}')),
        0x1DC => Some((3, 'u', '\u{308}', '\u{300}', '\u{0}')),
        0x1DE => Some((3, 'A', '\u{308}', '\u{304}', '\u{0}')),
        0x1DF => Some((3, 'a', '\u{308}', '\u{304}', '\u{0}')),
        0x1E0 => Some((3, 'A', '\u{307}', '\u{304}', '\u{0}')),
        0x1E1 => Some((3, 'a', '\u{307}', '\u{304}', '\u{0}')),
        0x1E2 => Some((2, '\u{c6}', '\u{304}', '\u{0}', '\u{0}')),
        0x1E3 => Some((2, '\u{e6}', '\u{304}', '\u{0}', '\u{0}')),
        0x1E6 => Some((2, 'G', '\u{30c}', '\u{0}', '\u{0}')),
        0x1E7 => Some((2, 'g', '\u{30c}', '\u{0}', '\u{0}')),
        0x1E8 => Some((2, 'K', '\u{30c}', '\u{0}', '\u{0}')),
        0x1E9 => Some((2, 'k', '\u{30c}', '\u{0}', '\u{0}')),
        0x1EA => Some((2, 'O', '\u{328}', '\u{0}', '\u{0}')),
        0x1EB => Some((2, 'o', '\u{328}', '\u{0}', '\u{0}')),
        0x1EC => Some((3, 'O', '\u{328}', '\u{304}', '\u{0}')),
        0x1ED => Some((3, 'o', '\u{328}', '\u{304}', '\u{0}')),
        0x1EE => Some((2, '\u{1b7}', '\u{30c}', '\u{0}', '\u{0}')),
        0x1EF => Some((2, '\u{292}', '\u{30c}', '\u{0}', '\u{0}')),
        0x1F0 => Some((2, 'j', '\u{30c}', '\u{0}', '\u{0}')),
        0x1F4 => Some((2, 'G', '\u{301}', '\u{0}', '\u{0}')),
        0x1F5 => Some((2, 'g', '\u{301}', '\u{0}', '\u{0}')),
        0x1F8 => Some((2, 'N', '\u{300}', '\u{0}', '\u{0}')),
        0x1F9 => Some((2, 'n', '\u{300}', '\u{0}', '\u{0}')),
        0x1FA => Some((3, 'A', '\u{30a}', '\u{301}', '\u{0}')),
        0x1FB => Some((3, 'a', '\u{30a}', '\u{301}', '\u{0}')),
        0x1FC => Some((2, '\u{c6}', '\u{301}', '\u{0}', '\u{0}')),
        0x1FD => Some((2, '\u{e6}', '\u{301}', '\u{0}', '\u{0}')),
        0x1FE => Some((2, '\u{d8}', '\u{301}', '\u{0}', '\u{0}')),
        0x1FF => Some((2, '\u{f8}', '\u{301}', '\u{0}', '\u{0}')),
        0x200 => Some((2, 'A', '\u{30f}', '\u{0}', '\u{0}')),
        0x201 => Some((2, 'a', '\u{30f}', '\u{0}', '\u{0}')),
        0x202 => Some((2, 'A', '\u{311}', '\u{0}', '\u{0}')),
        0x203 => Some((2, 'a', '\u{311}', '\u{0}', '\u{0}')),
        0x204 => Some((2, 'E', '\u{30f}', '\u{0}', '\u{0}')),
        0x205 => Some((2, 'e', '\u{30f}', '\u{0}', '\u{0}')),
        0x206 => Some((2, 'E', '\u{311}', '\u{0}', '\u{0}')),
        0x207 => Some((2, 'e', '\u{311}', '\u{0}', '\u{0}')),
        0x208 => Some((2, 'I', '\u{30f}', '\u{0}', '\u{0}')),
        0x209 => Some((2, 'i', '\u{30f}', '\u{0}', '\u{0}')),
        0x20A => Some((2, 'I', '\u{311}', '\u{0}', '\u{0}')),
        0x20B => Some((2, 'i', '\u{311}', '\u{0}', '\u{0}')),
        0x20C => Some((2, 'O', '\u{30f}', '\u{0}', '\u{0}')),
        0x20D => Some((2, 'o', '\u{30f}', '\u{0}', '\u{0}')),
        0x20E => Some((2, 'O', '\u{311}', '\u{0}', '\u{0}')),
        0x20F => Some((2, 'o', '\u{311}', '\u{0}', '\u{0}')),
        0x210 => Some((2, 'R', '\u{30f}', '\u{0}', '\u{0}')),
        0x211 => Some((2, 'r', '\u{30f}', '\u{0}', '\u{0}')),
        0x212 => Some((2, 'R', '\u{311}', '\u{0}', '\u{0}')),
        0x213 => Some((2, 'r', '\u{311}', '\u{0}', '\u{0}')),
        0x214 => Some((2, 'U', '\u{30f}', '\u{0}', '\u{0}')),
        0x215 => Some((2, 'u', '\u{30f}', '\u{0}', '\u{0}')),
        0x216 => Some((2, 'U', '\u{311}', '\u{0}', '\u{0}')),
        0x217 => Some((2, 'u', '\u{311}', '\u{0}', '\u{0}')),
        0x218 => Some((2, 'S', '\u{326}', '\u{0}', '\u{0}')),
        0x219 => Some((2, 's', '\u{326}', '\u{0}', '\u{0}')),
        0x21A => Some((2, 'T', '\u{326}', '\u{0}', '\u{0}')),
        0x21B => Some((2, 't', '\u{326}', '\u{0}', '\u{0}')),
        0x21E => Some((2, 'H', '\u{30c}', '\u{0}', '\u{0}')),
        0x21F => Some((2, 'h', '\u{30c}', '\u{0}', '\u{0}')),
        0x226 => Some((2, 'A', '\u{307}', '\u{0}', '\u{0}')),
        0x227 => Some((2, 'a', '\u{307}', '\u{0}', '\u{0}')),
        0x228 => Some((2, 'E', '\u{327}', '\u{0}', '\u{0}')),
        0x229 => Some((2, 'e', '\u{327}', '\u{0}', '\u{0}')),
        0x22A => Some((3, 'O', '\u{308}', '\u{304}', '\u{0}')),
        0x22B => Some((3, 'o', '\u{308}', '\u{304}', '\u{0}')),
        0x22C => Some((3, 'O', '\u{303}', '\u{304}', '\u{0}')),
        0x22D => Some((3, 'o', '\u{303}', '\u{304}', '\u{0}')),
        0x22E => Some((2, 'O', '\u{307}', '\u{0}', '\u{0}')),
        0x22F => Some((2, 'o', '\u{307}', '\u{0}', '\u{0}')),
        0x230 => Some((3, 'O', '\u{307}', '\u{304}', '\u{0}')),
        0x231 => Some((3, 'o', '\u{307}', '\u{304}', '\u{0}')),
        0x232 => Some((2, 'Y', '\u{304}', '\u{0}', '\u{0}')),
        0x233 => Some((2, 'y', '\u{304}', '\u{0}', '\u{0}')),
        0x340 => Some((1, '\u{300}', '\u{0}', '\u{0}', '\u{0}')),
        0x341 => Some((1, '\u{301}', '\u{0}', '\u{0}', '\u{0}')),
        0x343 => Some((1, '\u{313}', '\u{0}', '\u{0}', '\u{0}')),
        0x344 => Some((2, '\u{308}', '\u{301}', '\u{0}', '\u{0}')),
        0x374 => Some((1, '\u{2b9}', '\u{0}', '\u{0}', '\u{0}')),
        0x37E => Some((1, ';', '\u{0}', '\u{0}', '\u{0}')),
        0x385 => Some((2, '\u{a8}', '\u{301}', '\u{0}', '\u{0}')),
        0x386 => Some((2, '\u{391}', '\u{301}', '\u{0}', '\u{0}')),
        0x387 => Some((1, '\u{b7}', '\u{0}', '\u{0}', '\u{0}')),
        0x388 => Some((2, '\u{395}', '\u{301}', '\u{0}', '\u{0}')),
        0x389 => Some((2, '\u{397}', '\u{301}', '\u{0}', '\u{0}')),
        0x38A => Some((2, '\u{399}', '\u{301}', '\u{0}', '\u{0}')),
        0x38C => Some((2, '\u{39f}', '\u{301}', '\u{0}', '\u{0}')),
        0x38E => Some((2, '\u{3a5}', '\u{301}', '\u{0}', '\u{0}')),
        0x38F => Some((2, '\u{3a9}', '\u{301}', '\u{0}', '\u{0}')),
        0x390 => Some((3, '\u{3b9}', '\u{308}', '\u{301}', '\u{0}')),
        0x3AA => Some((2, '\u{399}', '\u{308}', '\u{0}', '\u{0}')),
        0x3AB => Some((2, '\u{3a5}', '\u{308}', '\u{0}', '\u{0}')),
        0x3AC => Some((2, '\u{3b1}', '\u{301}', '\u{0}', '\u{0}')),
        0x3AD => Some((2, '\u{3b5}', '\u{301}', '\u{0}', '\u{0}')),
        0x3AE => Some((2, '\u{3b7}', '\u{301}', '\u{0}', '\u{0}')),
        0x3AF => Some((2, '\u{3b9}', '\u{301}', '\u{0}', '\u{0}')),
        0x3B0 => Some((3, '\u{3c5}', '\u{308}', '\u{301}', '\u{0}')),
        0x3CA => Some((2, '\u{3b9}', '\u{308}', '\u{0}', '\u{0}')),
        0x3CB => Some((2, '\u{3c5}', '\u{308}', '\u{0}', '\u{0}')),
        0x3CC => Some((2, '\u{3bf}', '\u{301}', '\u{0}', '\u{0}')),
        0x3CD => Some((2, '\u{3c5}', '\u{301}', '\u{0}', '\u{0}')),
        0x3CE => Some((2, '\u{3c9}', '\u{301}', '\u{0}', '\u{0}')),
        0x3D3 => Some((2, '\u{3d2}', '\u{301}', '\u{0}', '\u{0}')),
        0x3D4 => Some((2, '\u{3d2}', '\u{308}', '\u{0}', '\u{0}')),
        0x400 => Some((2, '\u{415}', '\u{300}', '\u{0}', '\u{0}')),
        0x401 => Some((2, '\u{415}', '\u{308}', '\u{0}', '\u{0}')),
        0x403 => Some((2, '\u{413}', '\u{301}', '\u{0}', '\u{0}')),
        0x407 => Some((2, '\u{406}', '\u{308}', '\u{0}', '\u{0}')),
        0x40C => Some((2, '\u{41a}', '\u{301}', '\u{0}', '\u{0}')),
        0x40D => Some((2, '\u{418}', '\u{300}', '\u{0}', '\u{0}')),
        0x40E => Some((2, '\u{423}', '\u{306}', '\u{0}', '\u{0}')),
        0x419 => Some((2, '\u{418}', '\u{306}', '\u{0}', '\u{0}')),
        0x439 => Some((2, '\u{438}', '\u{306}', '\u{0}', '\u{0}')),
        0x450 => Some((2, '\u{435}', '\u{300}', '\u{0}', '\u{0}')),
        0x451 => Some((2, '\u{435}', '\u{308}', '\u{0}', '\u{0}')),
        0x453 => Some((2, '\u{433}', '\u{301}', '\u{0}', '\u{0}')),
        0x457 => Some((2, '\u{456}', '\u{308}', '\u{0}', '\u{0}')),
        0x45C => Some((2, '\u{43a}', '\u{301}', '\u{0}', '\u{0}')),
        0x45D => Some((2, '\u{438}', '\u{300}', '\u{0}', '\u{0}')),
        0x45E => Some((2, '\u{443}', '\u{306}', '\u{0}', '\u{0}')),
        0x476 => Some((2, '\u{474}', '\u{30f}', '\u{0}', '\u{0}')),
        0x477 => Some((2, '\u{475}', '\u{30f}', '\u{0}', '\u{0}')),
        0x4C1 => Some((2, '\u{416}', '\u{306}', '\u{0}', '\u{0}')),
        0x4C2 => Some((2, '\u{436}', '\u{306}', '\u{0}', '\u{0}')),
        0x4D0 => Some((2, '\u{410}', '\u{306}', '\u{0}', '\u{0}')),
        0x4D1 => Some((2, '\u{430}', '\u{306}', '\u{0}', '\u{0}')),
        0x4D2 => Some((2, '\u{410}', '\u{308}', '\u{0}', '\u{0}')),
        0x4D3 => Some((2, '\u{430}', '\u{308}', '\u{0}', '\u{0}')),
        0x4D6 => Some((2, '\u{415}', '\u{306}', '\u{0}', '\u{0}')),
        0x4D7 => Some((2, '\u{435}', '\u{306}', '\u{0}', '\u{0}')),
        0x4DA => Some((2, '\u{4d8}', '\u{308}', '\u{0}', '\u{0}')),
        0x4DB => Some((2, '\u{4d9}', '\u{308}', '\u{0}', '\u{0}')),
        0x4DC => Some((2, '\u{416}', '\u{308}', '\u{0}', '\u{0}')),
        0x4DD => Some((2, '\u{436}', '\u{308}', '\u{0}', '\u{0}')),
        0x4DE => Some((2, '\u{417}', '\u{308}', '\u{0}', '\u{0}')),
        0x4DF => Some((2, '\u{437}', '\u{308}', '\u{0}', '\u{0}')),
        0x4E2 => Some((2, '\u{418}', '\u{304}', '\u{0}', '\u{0}')),
        0x4E3 => Some((2, '\u{438}', '\u{304}', '\u{0}', '\u{0}')),
        0x4E4 => Some((2, '\u{418}', '\u{308}', '\u{0}', '\u{0}')),
        0x4E5 => Some((2, '\u{438}', '\u{308}', '\u{0}', '\u{0}')),
        0x4E6 => Some((2, '\u{41e}', '\u{308}', '\u{0}', '\u{0}')),
        0x4E7 => Some((2, '\u{43e}', '\u{308}', '\u{0}', '\u{0}')),
        0x4EA => Some((2, '\u{4e8}', '\u{308}', '\u{0}', '\u{0}')),
        0x4EB => Some((2, '\u{4e9}', '\u{308}', '\u{0}', '\u{0}')),
        0x4EC => Some((2, '\u{42d}', '\u{308}', '\u{0}', '\u{0}')),
        0x4ED => Some((2, '\u{44d}', '\u{308}', '\u{0}', '\u{0}')),
        0x4EE => Some((2, '\u{423}', '\u{304}', '\u{0}', '\u{0}')),
        0x4EF => Some((2, '\u{443}', '\u{304}', '\u{0}', '\u{0}')),
        0x4F0 => Some((2, '\u{423}', '\u{308}', '\u{0}', '\u{0}')),
        0x4F1 => Some((2, '\u{443}', '\u{308}', '\u{0}', '\u{0}')),
        0x4F2 => Some((2, '\u{423}', '\u{30b}', '\u{0}', '\u{0}')),
        0x4F3 => Some((2, '\u{443}', '\u{30b}', '\u{0}', '\u{0}')),
        0x4F4 => Some((2, '\u{427}', '\u{308}', '\u{0}', '\u{0}')),
        0x4F5 => Some((2, '\u{447}', '\u{308}', '\u{0}', '\u{0}')),
        0x4F8 => Some((2, '\u{42b}', '\u{308}', '\u{0}', '\u{0}')),
        0x4F9 => Some((2, '\u{44b}', '\u{308}', '\u{0}', '\u{0}')),
        0x622 => Some((2, '\u{627}', '\u{653}', '\u{0}', '\u{0}')),
        0x623 => Some((2, '\u{627}', '\u{654}', '\u{0}', '\u{0}')),
        0x624 => Some((2, '\u{648}', '\u{654}', '\u{0}', '\u{0}')),
        0x625 => Some((2, '\u{627}', '\u{655}', '\u{0}', '\u{0}')),
        0x626 => Some((2, '\u{64a}', '\u{654}', '\u{0}', '\u{0}')),
        0x6C0 => Some((2, '\u{6d5}', '\u{654}', '\u{0}', '\u{0}')),
        0x6C2 => Some((2, '\u{6c1}', '\u{654}', '\u{0}', '\u{0}')),
        0x6D3 => Some((2, '\u{6d2}', '\u{654}', '\u{0}', '\u{0}')),
        0x929 => Some((2, '\u{928}', '\u{93c}', '\u{0}', '\u{0}')),
        0x931 => Some((2, '\u{930}', '\u{93c}', '\u{0}', '\u{0}')),
        0x934 => Some((2, '\u{933}', '\u{93c}', '\u{0}', '\u{0}')),
        0x958 => Some((2, '\u{915}', '\u{93c}', '\u{0}', '\u{0}')),
        0x959 => Some((2, '\u{916}', '\u{93c}', '\u{0}', '\u{0}')),
        0x95A => Some((2, '\u{917}', '\u{93c}', '\u{0}', '\u{0}')),
        0x95B => Some((2, '\u{91c}', '\u{93c}', '\u{0}', '\u{0}')),
        0x95C => Some((2, '\u{921}', '\u{93c}', '\u{0}', '\u{0}')),
        0x95D => Some((2, '\u{922}', '\u{93c}', '\u{0}', '\u{0}')),
        0x95E => Some((2, '\u{92b}', '\u{93c}', '\u{0}', '\u{0}')),
        0x95F => Some((2, '\u{92f}', '\u{93c}', '\u{0}', '\u{0}')),
        0x9CB => Some((2, '\u{9c7}', '\u{9be}', '\u{0}', '\u{0}')),
        0x9CC => Some((2, '\u{9c7}', '\u{9d7}', '\u{0}', '\u{0}')),
        0x9DC => Some((2, '\u{9a1}', '\u{9bc}', '\u{0}', '\u{0}')),
        0x9DD => Some((2, '\u{9a2}', '\u{9bc}', '\u{0}', '\u{0}')),
        0x9DF => Some((2, '\u{9af}', '\u{9bc}', '\u{0}', '\u{0}')),
        0xA33 => Some((2, '\u{a32}', '\u{a3c}', '\u{0}', '\u{0}')),
        0xA36 => Some((2, '\u{a38}', '\u{a3c}', '\u{0}', '\u{0}')),
        0xA59 => Some((2, '\u{a16}', '\u{a3c}', '\u{0}', '\u{0}')),
        0xA5A => Some((2, '\u{a17}', '\u{a3c}', '\u{0}', '\u{0}')),
        0xA5B => Some((2, '\u{a1c}', '\u{a3c}', '\u{0}', '\u{0}')),
        0xA5E => Some((2, '\u{a2b}', '\u{a3c}', '\u{0}', '\u{0}')),
        0xB48 => Some((2, '\u{b47}', '\u{b56}', '\u{0}', '\u{0}')),
        0xB4B => Some((2, '\u{b47}', '\u{b3e}', '\u{0}', '\u{0}')),
        0xB4C => Some((2, '\u{b47}', '\u{b57}', '\u{0}', '\u{0}')),
        0xB5C => Some((2, '\u{b21}', '\u{b3c}', '\u{0}', '\u{0}')),
        0xB5D => Some((2, '\u{b22}', '\u{b3c}', '\u{0}', '\u{0}')),
        0xB94 => Some((2, '\u{b92}', '\u{bd7}', '\u{0}', '\u{0}')),
        0xBCA => Some((2, '\u{bc6}', '\u{bbe}', '\u{0}', '\u{0}')),
        0xBCB => Some((2, '\u{bc7}', '\u{bbe}', '\u{0}', '\u{0}')),
        0xBCC => Some((2, '\u{bc6}', '\u{bd7}', '\u{0}', '\u{0}')),
        0xC48 => Some((2, '\u{c46}', '\u{c56}', '\u{0}', '\u{0}')),
        0xCC0 => Some((2, '\u{cbf}', '\u{cd5}', '\u{0}', '\u{0}')),
        0xCC7 => Some((2, '\u{cc6}', '\u{cd5}', '\u{0}', '\u{0}')),
        0xCC8 => Some((2, '\u{cc6}', '\u{cd6}', '\u{0}', '\u{0}')),
        0xCCA => Some((2, '\u{cc6}', '\u{cc2}', '\u{0}', '\u{0}')),
        0xCCB => Some((3, '\u{cc6}', '\u{cc2}', '\u{cd5}', '\u{0}')),
        0xD4A => Some((2, '\u{d46}', '\u{d3e}', '\u{0}', '\u{0}')),
        0xD4B => Some((2, '\u{d47}', '\u{d3e}', '\u{0}', '\u{0}')),
        0xD4C => Some((2, '\u{d46}', '\u{d57}', '\u{0}', '\u{0}')),
        0xDDA => Some((2, '\u{dd9}', '\u{dca}', '\u{0}', '\u{0}')),
        0xDDC => Some((2, '\u{dd9}', '\u{dcf}', '\u{0}', '\u{0}')),
        0xDDD => Some((3, '\u{dd9}', '\u{dcf}', '\u{dca}', '\u{0}')),
        0xDDE => Some((2, '\u{dd9}', '\u{ddf}', '\u{0}', '\u{0}')),
        0xF43 => Some((2, '\u{f42}', '\u{fb7}', '\u{0}', '\u{0}')),
        0xF4D => Some((2, '\u{f4c}', '\u{fb7}', '\u{0}', '\u{0}')),
        0xF52 => Some((2, '\u{f51}', '\u{fb7}', '\u{0}', '\u{0}')),
        0xF57 => Some((2, '\u{f56}', '\u{fb7}', '\u{0}', '\u{0}')),
        0xF5C => Some((2, '\u{f5b}', '\u{fb7}', '\u{0}', '\u{0}')),
        0xF69 => Some((2, '\u{f40}', '\u{fb5}', '\u{0}', '\u{0}')),
        0xF73 => Some((2, '\u{f71}', '\u{f72}', '\u{0}', '\u{0}')),
        0xF75 => Some((2, '\u{f71}', '\u{f74}', '\u{0}', '\u{0}')),
        0xF76 => Some((2, '\u{fb2}', '\u{f80}', '\u{0}', '\u{0}')),
        0xF78 => Some((2, '\u{fb3}', '\u{f80}', '\u{0}', '\u{0}')),
        0xF81 => Some((2, '\u{f71}', '\u{f80}', '\u{0}', '\u{0}')),
        0xF93 => Some((2, '\u{f92}', '\u{fb7}', '\u{0}', '\u{0}')),
        0xF9D => Some((2, '\u{f9c}', '\u{fb7}', '\u{0}', '\u{0}')),
        0xFA2 => Some((2, '\u{fa1}', '\u{fb7}', '\u{0}', '\u{0}')),
        0xFA7 => Some((2, '\u{fa6}', '\u{fb7}', '\u{0}', '\u{0}')),
        0xFAC => Some((2, '\u{fab}', '\u{fb7}', '\u{0}', '\u{0}')),
        0xFB9 => Some((2, '\u{f90}', '\u{fb5}', '\u{0}', '\u{0}')),
        _ => None,
    }
}

/// The canonical decompositions of the characters U+1000 to U+1FFF, as
/// (length, characters padded with U+0000).
pub open spec fn decomposition_1(u: u32) -> Option<(u8, char, char, char, char)> {
    match u {
        0x1026 => Some((2, '\u{1025}', '\u{102e}', '\u{0}', '\u{0}')),
        0x1B06 => Some((2, '\u{1b05}', '\u{1b35}', '\u{0}', '\u{0}')),
        0x1B08 => Some((2, '\u{1b07}', '\u{1b35}', '\u{0}', '\u{0}')),
        0x1B0A => Some((2, '\u{1b09}', '\u{1b35}', '\u{0}', '\u{0}')),
        0x1B0C => Some((2, '\u{1b0b}', '\u{1b35}', '\u{0}', '\u{0}')),
        0x1B0E => Some((2, '\u{1b0d}', '\u{1b35}', '\u{0}', '\u{0}')),
        0x1B12 => Some((2, '\u{1b11}', '\u{1b35}', '\u{0}', '\u{0}')),
        0x1B3B => Some((2, '\u{1b3a}', '\u{1b35}', '\u{0}', '\u{0}')),
        0x1B3D => Some((2, '\u{1b3c}', '\u{1b35}', '\u{0}', '\u{0}')),
        0x1B40 => Some((2, '\u{1b3e}', '\u{1b35}', '\u{0}', '\u{0}')),
        0x1B41 => Some((2, '\u{1b3f}', '\u{1b35}', '\u{0}', '\u{0}')),
        0x1B43 => Some((2, '\u{1b42}', '\u{1b35}', '\u{0}', '\u{0}')),
        0x1E00 => Some((2, 'A', '\u{325}', '\u{0}', '\u{0}')),
        0x1E01 => Some((2, 'a', '\u{325}', '\u{0}', '\u{0}')),
        0x1E02 => Some((2, 'B', '\u{307}', '\u{0}', '\u{0}')),
        0x1E03 => Some((2, 'b', '\u{307}', '\u{0}', '\u{0}')),
        0x1E04 => Some((2, 'B', '\u{323}', '\u{0}', '\u{0}')),
        0x1E05 => Some((2, 'b', '\u{323}', '\u{0}', '\u{0}')),
        0x1E06 => Some((2, 'B', '\u{331}', '\u{0}', '\u{0}')),
        0x1E07 => Some((2, 'b', '\u{331}', '\u{0}', '\u{0}')),
        0x1E08 => Some((3, 'C', '\u{327}', '\u{301}', '\u{0}')),
        0x1E09 => Some((3, 'c', '\u{327}', '\u{301}', '\u{0}')),
        0x1E0A => Some((2, 'D', '\u{307}', '\u{0}', '\u{0}')),
        0x1E0B => Some((2, 'd', '\u{307}', '\u{0}', '\u{0}')),
        0x1E0C => Some((2, 'D', '\u{323}', '\u{0}', '\u{0}')),
        0x1E0D => Some((2, 'd', '\u{323}', '\u{0}', '\u{0}')),
        0x1E0E => Some((2, 'D', '\u{331}', '\u{0}', '\u{0}')),
        0x1E0F => Some((2, 'd', '\u{331}', '\u{0}', '\u{0}')),
        0x1E10 => Some((2, 'D', '\u{327}', '\u{0}', '\u{0}')),
        0x1E11 => Some((2, 'd', '\u{327}', '\u{0}', '\u{0}')),
        0x1E12 => Some((2, 'D', '\u{32d}', '\u{0}', '\u{0}')),
        0x1E13 => Some((2, 'd', '\u{32d}', '\u{0}', '\u{0}')),
        0x1E14 => Some((3, 'E', '\u{304}', '\u{300}', '\u{0}')),
        0x1E15 => Some((3, 'e', '\u{304}', '\u{300}', '\u{0}')),
        0x1E16 => Some((3, 'E', '\u{304}', '\u{301}', '\u{0}')),
        0x1E17 => Some((3, 'e', '\u{304}', '\u{301}', '\u{0}')),
        0x1E18 => Some((2, 'E', '\u{32d}', '\u{0}', '\u{0}')),
        0x1E19 => Some((2, 'e', '\u{32d}', '\u{0}', '\u{0}')),
        0x1E1A => Some((2, 'E', '\u{330}', '\u{0}', '\u{0}')),
        0x1E1B => Some((2, 'e', '\u{330}', '\u{0}', '\u{0}')),
        0x1E1C => Some((3, 'E', '\u{327}', '\u{306}', '\u{0}')),
        0x1E1D => Some((3, 'e', '\u{327}', '\u{306}', '\u{0}')),
        0x1E1E => Some((2, 'F', '\u{307}', '\u{0}', '\u{0}')),
        0x1E1F => Some((2, 'f', '\u{307}', '\u{0}', '\u{0}')),
        0x1E20 => Some((2, 'G', '\u{304}', '\u{0}', '\u{0}')),
        0x1E21 => Some((2, 'g', '\u{304}', '\u{0}', '\u{0}')),
        0x1E22 => Some((2, 'H', '\u{307}', '\u{0}', '\u{0}')),
        0x1E23 => Some((2, 'h', '\u{307}', '\u{0}', '\u{0}')),
        0x1E24 => Some((2, 'H', '\u{323}', '\u{0}', '\u{0}')),
        0x1E25 => Some((2, 'h', '\u{323}', '\u{0}', '\u{0}')),
        0x1E26 => Some((2, 'H', '\u{308}', '\u{0}', '\u{0}')),
        0x1E27 => Some((2, 'h', '\u{308}', '\u{0}', '\u{0}')),
        0x1E28 => Some((2, 'H', '\u{327}', '\u{0}', '\u{0}')),
        0x1E29 => Some((2, 'h', '\u{327}', '\u{0}', '\u{0}')),
        0x1E2A => Some((2, 'H', '\u{32e}', '\u{0}', '\u{0}')),
        0x1E2B => Some((2, 'h', '\u{32e}', '\u{0}', '\u{0}')),
        0x1E2C => Some((2, 'I', '\u{330}', '\u{0}', '\u{0}')),
        0x1E2D => Some((2, 'i', '\u{330}', '\u{0}', '\u{0}')),
        0x1E2E => Some((3, 'I', '\u{308}', '\u{301}', '\u{0}')),
        0x1E2F => Some((3, 'i', '\u{308}', '\u{301}', '\u{0}')),
        0x1E30 => Some((2, 'K', '\u{301}', '\u{0}', '\u{0}')),
        0x1E31 => Some((2, 'k', '\u{301}', '\u{0}', '\u{0}')),
        0x1E32 => Some((2, 'K', '\u{323}', '\u{0}', '\u{0}')),
        0x1E33 => Some((2, 'k', '\u{323}', '\u{0}', '\u{0}')),
        0x1E34 => Some((2, 'K', '\u{331}', '\u{0}', '\u{0}')),
        0x1E35 => Some((2, 'k', '\u{331}', '\u{0}', '\u{0}')),
        0x1E36 => Some((2, 'L', '\u{323}', '\u{0}', '\u{0}')),
        0x1E37 => Some((2, 'l', '\u{323}', '\u{0}', '\u{0}')),
        0x1E38 => Some((3, 'L', '\u{323}', '\u{304}', '\u{0}')),
        0x1E39 => Some((3, 'l', '\u{323}', '\u{304}', '\u{0}')),
        0x1E3A => Some((2, 'L', '\u{331}', '\u{0}', '\u{0}')),
        0x1E3B => Some((2, 'l', '\u{331}', '\u{0}', '\u{0}')),
        0x1E3C => Some((2, 'L', '\u{32d}', '\u{0}', '\u{0}')),
        0x1E3D => Some((2, 'l', '\u{32d}', '\u{0}', '\u{0}')),
        0x1E3E => Some((2, 'M', '\u{301}', '\u{0}', '\u{0}')),
        0x1E3F => Some((2, 'm', '\u{301}', '\u{0}', '\u{0}')),
        0x1E40 => Some((2, 'M', '\u{307}', '\u{0}', '\u{0}')),
        0x1E41 => Some((2, 'm', '\u{307}', '\u{0}', '\u{0}')),
        0x1E42 => Some((2, 'M', '\u{323}', '\u{0}', '\u{0}')),
        0x1E43 => Some((2, 'm', '\u{323}', '\u{0}', '\u{0}')),
        0x1E44 => Some((2, 'N', '\u{307}', '\u{0}', '\u{0}')),
        0x1E45 => Some((2, 'n', '\u{307}', '\u{0}', '\u{0}')),
        0x1E46 => Some((2, 'N', '\u{323}', '\u{0}', '\u{0}')),
        0x1E47 => Some((2, 'n', '\u{323}', '\u{0}', '\u{0}')),
        0x1E48 => Some((2, 'N', '\u{331}', '\u{0}', '\u{0}')),
        0x1E49 => Some((2, 'n', '\u{331}', '\u{0}', '\u{0}')),
        0x1E4A => Some((2, 'N', '\u{32d}', '\u{0}', '\u{0}')),
        0x1E4B => Some((2, 'n', '\u{32d}', '\u{0}', '\u{0}')),
        0x1E4C => Some((3, 'O', '\u{303}', '\u{301}', '\u{0}')),
        0x1E4D => Some((3, 'o', '\u{303}', '\u{301}', '\u{0}')),
        0x1E4E => Some((3, 'O', '\u{303}', '\u{308}', '\u{0}')),
        0x1E4F => Some((3, 'o', '\u{303}', '\u{308}', '\u{0}')),
        0x1E50 => Some((3, 'O', '\u{304}', '\u{300}', '\u{0}')),
        0x1E51 => Some((3, 'o', '\u{304}', '\u{300}', '\u{0}')),
        0x1E52 => Some((3, 'O', '\u{304}', '\u{301}', '\u{0}')),
        0x1E53 => Some((3, 'o', '\u{304}', '\u{301}', '\u{0}')),
        0x1E54 => Some((2, 'P', '\u{301}', '\u{0}', '\u{0}')),
        0x1E55 => Some((2, 'p', '\u{301}', '\u{0}', '\u{0}')),
        0x1E56 => Some((2, 'P', '\u{307}', '\u{0}', '\u{0}')),
        0x1E57 => Some((2, 'p', '\u{307}', '\u{0}', '\u{0}')),
        0x1E58 => Some((2, 'R', '\u{307}', '\u{0}', '\u{0}')),
        0x1E59 => Some((2, 'r', '\u{307}', '\u{0}', '\u{0}')),
        0x1E5A => Some((2, 'R', '\u{323}', '\u{0}', '\u{0}')),
        0x1E5B => Some((2, 'r', '\u{323}', '\u{0}', '\u{0}')),
        0x1E5C => Some((3, 'R', '\u{323}', '\u{304}', '\u{0}')),
        0x1E5D => Some((3, 'r', '\u{323}', '\u{304}', '\u{0}')),
        0x1E5E => Some((2, 'R', '\u{331}', '\u{0}', '\u{0}')),
        0x1E5F => Some((2, 'r', '\u{331}', '\u{0}', '\u{0}')),
        0x1E60 => Some((2, 'S', '\u{307}', '\u{0}', '\u{0}')),
        0x1E61 => Some((2, 's', '\u{307}', '\u{0}', '\u{0}')),
        0x1E62 => Some((2, 'S', '\u{323}', '\u{0}', '\u{0}')),
        0x1E63 => Some((2, 's', '\u{323}', '\u{0}', '\u{0}')),
        0x1E64 => Some((3, 'S', '\u{301}', '\u{307}', '\u{0}')),
        0x1E65 => Some((3, 's', '\u{301}', '\u{307}', '\u{0}')),
        0x1E66 => Some((3, 'S', '\u{30c}', '\u{307}', '\u{0}')),
        0x1E67 => Some((3, 's', '\u{30c}', '\u{307}', '\u{0}')),
        0x1E68 => Some((3, 'S', '\u{323}', '\u{307}', '\u{0}')),
        0x1E69 => Some((3, 's', '\u{323}', '\u{307}', '\u{0}')),
        0x1E6A => Some((2, 'T', '\u{307}', '\u{0}', '\u{0}')),
        0x1E6B => Some((2, 't', '\u{307}', '\u{0}', '\u{0}')),
        0x1E6C => Some((2, 'T', '\u{323}', '\u{0}', '\u{0}')),
        0x1E6D => Some((2, 't', '\u{323}', '\u{0}', '\u{0}')),
        0x1E6E => Some((2, 'T', '\u{331}', '\u{0}', '\u{0}')),
        0x1E6F => Some((2, 't', '\u{331}', '\u{0}', '\u{0}')),
        0x1E70 => Some((2, 'T', '\u{32d}', '\u{0}', '\u{0}')),
        0x1E71 => Some((2, 't', '\u{32d}', '\u{0}', '\u{0}')),
        0x1E72 => Some((2, 'U', '\u{324}', '\u{0}', '\u{0}')),
        0x1E73 => Some((2, 'u', '\u{324}', '\u{0}', '\u{0}')),
        0x1E74 => Some((2, 'U', '\u{330}', '\u{0}', '\u{0}')),
        0x1E75 => Some((2, 'u', '\u{330}', '\u{0}', '\u{0}')),
        0x1E76 => Some((2, 'U', '\u{32d}', '\u{0}', '\u{0}')),
        0x1E77 => Some((2, 'u', '\u{32d}', '\u{0}', '\u{0}')),
        0x1E78 => Some((3, 'U', '\u{303}', '\u{301}', '\u{0}')),
        0x1E79 => Some((3, 'u', '\u{303}', '\u{301}', '\u{0}')),
        0x1E7A => Some((3, 'U', '\u{304}', '\u{308}', '\u{0}')),
        0x1E7B => Some((3, 'u', '\u{304}', '\u{308}', '\u{0}')),
        0x1E7C => Some((2, 'V', '\u{303}', '\u{0}', '\u{0}')),
        0x1E7D => Some((2, 'v', '\u{303}', '\u{0}', '\u{0}')),
        0x1E7E => Some((2, 'V', '\u{323}', '\u{0}', '\u{0}')),
        0x1E7F => Some((2, 'v', '\u{323}', '\u{0}', '\u{0}')),
        0x1E80 => Some((2, 'W', '\u{300}', '\u{0}', '\u{0}')),
        0x1E81 => Some((2, 'w', '\u{300}', '\u{0}', '\u{0}')),
        0x1E82 => Some((2, 'W', '\u{301}', '\u{0}', '\u{0}')),
        0x1E83 => Some((2, 'w', '\u{301}', '\u{0}', '\u{0}')),
        0x1E84 => Some((2, 'W', '\u{308}', '\u{0}', '\u{0}')),
        0x1E85 => Some((2, 'w', '\u{308}', '\u{0}', '\u{0}')),
        0x1E86 => Some((2, 'W', '\u{307}', '\u{0}', '\u{0}')),
        0x1E87 => Some((2, 'w', '\u{307}', '\u{0}', '\u{0}')),
        0x1E88 => Some((2, 'W', '\u{323}', '\u{0}', '\u{0}')),
        0x1E89 => Some((2, 'w', '\u{323}', '\u{0}', '\u{0}')),
        0x1E8A => Some((2, 'X', '\u{307}', '\u{0}', '\u{0}')),
        0x1E8B => Some((2, 'x', '\u{307}', '\u{0}', '\u{0}')),
        0x1E8C => Some((2, 'X', '\u{308}', '\u{0}', '\u{0}')),
        0x1E8D => Some((2, 'x', '\u{308}', '\u{0}', '\u{0}')),
        0x1E8E => Some((2, 'Y', '\u{307}', '\u{0}', '\u{0}')),
        0x1E8F => Some((2, 'y', '\u{307}', '\u{0}', '\u{0}')),
        0x1E90 => Some((2, 'Z', '\u{302}', '\u{0}', '\u{0}')),
        0x1E91 => Some((2, 'z', '\u{302}', '\u{0}', '\u{0}')),
        0x1E92 => Some((2, 'Z', '\u{323}', '\u{0}', '\u{0}')),
        0x1E93 => Some((2, 'z', '\u{323}', '\u{0}', '\u{0}')),
        0x1E94 => Some((2, 'Z', '\u{331}', '\u{0}', '\u{0}')),
        0x1E95 => Some((2, 'z', '\u{331}', '\u{0}', '\u{0}')),
        0x1E96 => Some((2, 'h', '\u{331}', '\u{0}', '\u{0}')),
        0x1E97 => Some((2, 't', '\u{308}', '\u{0}', '\u{0}')),
        0x1E98 => Some((2, 'w', '\u{30a}', '\u{0}', '\u{0}')),
        0x1E99 => Some((2, 'y', '\u{30a}', '\u{0}', '\u{0}')),
        0x1E9B => Some((2, '\u{17f}', '\u{307}', '\u{0}', '\u{0}')),
        0x1EA0 => Some((2, 'A', '\u{323}', '\u{0}', '\u{0}')),
        0x1EA1 => Some((2, 'a', '\u{323}', '\u{0}', '\u{0}')),
        0x1EA2 => Some((2, 'A', '\u{309}', '\u{0}', '\u{0}')),
        0x1EA3 => Some((2, 'a', '\u{309}', '\u{0}', '\u{0}')),
        0x1EA4 => Some((3, 'A', '\u{302}', '\u{301}', '\u{0}')),
        0x1EA5 => Some((3, 'a', '\u{302}', '\u{301}', '\u{0}')),
        0x1EA6 => Some((3, 'A', '\u{302}', '\u{300}', '\u{0}')),
        0x1EA7 => Some((3, 'a', '\u{302}', '\u{300}', '\u{0}')),
        0x1EA8 => Some((3, 'A', '\u{302}', '\u{309}', '\u{0}')),
        0x1EA9 => Some((3, 'a', '\u{302}', '\u{309}', '\u{0}')),
        0x1EAA => Some((3, 'A', '\u{302}', '\u{303}', '\u{0}')),
        0x1EAB => Some((3, 'a', '\u{302}', '\u{303}', '\u{0}')),
        0x1EAC => Some((3, 'A', '\u{323}', '\u{302}', '\u{0}')),
        0x1EAD => Some((3, 'a', '\u{323}', '\u{302}', '\u{0}')),
        0x1EAE => Some((3, 'A', '\u{306}', '\u{301}', '\u{0}')),
        0x1EAF => Some((3, 'a', '\u{306}', '\u{301}', '\u{0}')),
        0x1EB0 => Some((3, 'A', '\u{306}', '\u{300}', '\u{0}')),
        0x1EB1 => Some((3, 'a', '\u{306}', '\u{300}', '\u{0}')),
        0x1EB2 => Some((3, 'A', '\u{306}', '\u{309}', '\u{0}')),
        0x1EB3 => Some((3, 'a', '\u{306}', '\u{309}', '\u{0}')),
        0x1EB4 => Some((3, 'A', '\u{306}', '\u{303}', '\u{0}')),
        0x1EB5 => Some((3, 'a', '\u{306}', '\u{303}', '\u{0}')),
        0x1EB6 => Some((3, 'A', '\u{323}', '\u{306}', '\u{0}')),
        0x1EB7 => Some((3, 'a', '\u{323}', '\u{306}', '\u{0}')),
        0x1EB8 => Some((2, 'E', '\u{323}', '\u{0}', '\u{0}')),
        0x1EB9 => Some((2, 'e', '\u{323}', '\u{0}', '\u{0}')),
        0x1EBA => Some((2, 'E', '\u{309}', '\u{0}', '\u{0}')),
        0x1EBB => Some((2, 'e', '\u{309}', '\u{0}', '\u{0}')),
        0x1EBC => Some((2, 'E', '\u{303}', '\u{0}', '\u{0}')),
        0x1EBD => Some((2, 'e', '\u{303}', '\u{0}', '\u{0}')),
        0x1EBE => Some((3, 'E', '\u{302}', '\u{301}', '\u{0}')),
        0x1EBF => Some((3, 'e', '\u{302}', '\u{301}', '\u{0}')),
        0x1EC0 => Some((3, 'E', '\u{302}', '\u{300}', '\u{0}')),
        0x1EC1 => Some((3, 'e', '\u{302}', '\u{300}', '\u{0}')),
        0x1EC2 => Some((3, 'E', '\u{302}', '\u{309}', '\u{0}')),
        0x1EC3 => Some((3, 'e', '\u{302}', '\u{309}', '\u{0}')),
        0x1EC4 => Some((3, 'E', '\u{302}', '\u{303}', '\u{0}')),
        0x1EC5 => Some((3, 'e', '\u{302}', '\u{303}', '\u{0}')),
        0x1EC6 => Some((3, 'E', '\u{323}', '\u{302}', '\u{0}')),
        0x1EC7 => Some((3, 'e', '\u{323}', '\u{302}', '\u{0}')),
        0x1EC8 => Some((2, 'I', '\u{309}', '\u{0}', '\u{0}')),
        0x1EC9 => Some((2, 'i', '\u{309}', '\u{0}', '\u{0}')),
        0x1ECA => Some((2, 'I', '\u{323}', '\u{0}', '\u{0}')),
        0x1ECB => Some((2, 'i', '\u{323}', '\u{0}', '\u{0}')),
        0x1ECC => Some((2, 'O', '\u{323}', '\u{0}', '\u{0}')),
        0x1ECD => Some((2, 'o', '\u{323}', '\u{0}', '\u{0}')),
        0x1ECE => Some((2, 'O', '\u{309}', '\u{0}', '\u{0}')),
        0x1ECF => Some((2, 'o', '\u{309}', '\u{0}', '\u{0}')),
        0x1ED0 => Some((3, 'O', '\u{302}', '\u{301}', '\u{0}')),
        0x1ED1 => Some((3, 'o', '\u{302}', '\u{301}', '\u{0}')),
        0x1ED2 => Some((3, 'O', '\u{302}', '\u{300}', '\u{0}')),
        0x1ED3 => Some((3, 'o', '\u{302}', '\u{300}', '\u{0}')),
        0x1ED4 => Some((3, 'O', '\u{302}', '\u{309}', '\u{0}')),
        0x1ED5 => Some((3, 'o', '\u{302}', '\u{309}', '\u{0}')),
        0x1ED6 => Some((3, 'O', '\u{302}', '\u{303}', '\u{0}')),
        0x1ED7 => Some((3, 'o', '\u{302}', '\u{303}', '\u{0}')),
        0x1ED8 => Some((3, 'O', '\u{323}', '\u{302}', '\u{0}')),
        0x1ED9 => Some((3, 'o', '\u{323}', '\u{302}', '\u{0}')),
        0x1EDA => Some((3, 'O', '\u{31b}', '\u{301}', '\u{0}')),
        0x1EDB => Some((3, 'o', '\u{31b}', '\u{301}', '\u{0}')),
        0x1EDC => Some((3, 'O', '\u{31b}', '\u{300}', '\u{0}')),
        0x1EDD => Some((3, 'o', '\u{31b}', '\u{300}', '\u{0}')),
        0x1EDE => Some((3, 'O', '\u{31b}', '\u{309}', '\u{0}')),
        0x1EDF => Some((3, 'o', '\u{31b}', '\u{309}', '\u{0}')),
        0x1EE0 => Some((3, 'O', '\u{31b}', '\u{303}', '\u{0}')),
        0x1EE1 => Some((3, 'o', '\u{31b}', '\u{303}', '\u{0}')),
        0x1EE2 => Some((3, 'O', '\u{31b}', '\u{323}', '\u{0}')),
        0x1EE3 => Some((3, 'o', '\u{31b}', '\u{323}', '\u{0}')),
        0x1EE4 => Some((2, 'U', '\u{323}', '\u{0}', '\u{0}')),
        0x1EE5 => Some((2, 'u', '\u{323}', '\u{0}', '\u{0}')),
        0x1EE6 => Some((2, 'U', '\u{309}', '\u{0}', '\u{0}')),
        0x1EE7 => Some((2, 'u', '\u{309}', '\u{0}', '\u{0}')),
        0x1EE8 => Some((3, 'U', '\u{31b}', '\u{301}', '\u{0}')),
        0x1EE9 => Some((3, 'u', '\u{31b}', '\u{301}', '\u{0}')),
        0x1EEA => Some((3, 'U', '\u{31b}', '\u{300}', '\u{0}')),
        0x1EEB => Some((3, 'u', '\u{31b}', '\u{300}', '\u{0}')),
        0x1EEC => Some((3, 'U', '\u{31b}', '\u{309}', '\u{0}')),
        0x1EED => Some((3, 'u', '\u{31b}', '\u{309}', '\u{0}')),
        0x1EEE => Some((3, 'U', '\u{31b}', '\u{303}', '\u{0}')),
        0x1EEF => Some((3, 'u', '\u{31b}', '\u{303}', '\u{0}')),
        0x1EF0 => Some((3, 'U', '\u{31b}', '\u{323}', '\u{0}')),
        0x1EF1 => Some((3, 'u', '\u{31b}', '\u{323}', '\u{0}')),
        0x1EF2 => Some((2, 'Y', '\u{300}', '\u{0}', '\u{0}')),
        0x1EF3 => Some((2, 'y', '\u{300}', '\u{0}', '\u{0}')),
        0x1EF4 => Some((2, 'Y', '\u{323}', '\u{0}', '\u{0}')),
        0x1EF5 => Some((2, 'y', '\u{323}', '\u{0}', '\u{0}')),
        0x1EF6 => Some((2, 'Y', '\u{309}', '\u{0}', '\u{0}')),
        0x1EF7 => Some((2, 'y', '\u{309}', '\u{0}', '\u{0}')),
        0x1EF8 => Some((2, 'Y', '\u{303}', '\u{0}', '\u{0}')),
        0x1EF9 => Some((2, 'y', '\u{303}', '\u{0}', '\u{0}')),
        0x1F00 => Some((2, '\u{3b1}', '\u{313}', '\u{0}', '\u{0}')),
        0x1F01 => Some((2, '\u{3b1}', '\u{314}', '\u{0}', '\u{0}')),
        0x1F02 => Some((3, '\u{3b1}', '\u{313}', '\u{300}', '\u{0}')),
        0x1F03 => Some((3, '\u{3b1}', '\u{314}', '\u{300}', '\u{0}')),
        0x1F04 => Some((3, '\u{3b1}', '\u{313}', '\u{301}', '\u{0}')),
        0x1F05 => Some((3, '\u{3b1}', '\u{314}', '\u{301}', '\u{0}')),
        0x1F06 => Some((3, '\u{3b1}', '\u{313}', '\u{342}', '\u{0}')),
        0x1F07 => Some((3, '\u{3b1}', '\u{314}', '\u{342}', '\u{0}')),
        0x1F08 => Some((2, '\u{391}', '\u{313}', '\u{0}', '\u{0}')),
        0x1F09 => Some((2, '\u{391}', '\u{314}', '\u{0}', '\u{0}')),
        0x1F0A => Some((3, '\u{391}', '\u{313}', '\u{300}', '\u{0}')),
        0x1F0B => Some((3, '\u{391}', '\u{314}', '\u{300}', '\u{0}')),
        0x1F0C => Some((3, '\u{391}', '\u{313}', '\u{301}', '\u{0}')),
        0x1F0D => Some((3, '\u{391}', '\u{314}', '\u{301}', '\u{0}')),
        0x1F0E => Some((3, '\u{391}', '\u{313}', '\u{342}', '\u{0}')),
        0x1F0F => Some((3, '\u{391}', '\u{314}', '\u{342}', '\u{0}')),
        0x1F10 => Some((2, '\u{3b5}', '\u{313}', '\u{0}', '\u{0}')),
        0x1F11 => Some((2, '\u{3b5}', '\u{314}', '\u{0}', '\u{0}')),
        0x1F12 => Some((3, '\u{3b5}', '\u{313}', '\u{300}', '\u{0}')),
        0x1F13 => Some((3, '\u{3b5}', '\u{314}', '\u{300}', '\u{0}')),
        0x1F14 => Some((3, '\u{3b5}', '\u{313}', '\u{301}', '\u{0}')),
        0x1F15 => Some((3, '\u{3b5}', '\u{314}', '\u{301}', '\u{0}')),
        0x1F18 => Some((2, '\u{395}', '\u{313}', '\u{0}', '\u{0}')),
        0x1F19 => Some((2, '\u{395}', '\u{314}', '\u{0}', '\u{0}')),
        0x1F1A => Some((3, '\u{395}', '\u{313}', '\u{300}', '\u{0}')),
        0x1F1B => Some((3, '\u{395}', '\u{314}', '\u{300}', '\u{0}')),
        0x1F1C => Some((3, '\u{395}', '\u{313}', '\u{301}', '\u{0}')),
        0x1F1D => Some((3, '\u{395}', '\u{314}', '\u{301}', '\u{0}')),
        0x1F20 => Some((2, '\u{3b7}', '\u{313}', '\u{0}', '\u{0}')),
        0x1F21 => Some((2, '\u{3b7}', '\u{314}', '\u{0}', '\u{0}')),
        0x1F22 => Some((3, '\u{3b7}', '\u{313}', '\u{300}', '\u{0}')),
        0x1F23 => Some((3, '\u{3b7}', '\u{314}', '\u{300}', '\u{0}')),
        0x1F24 => Some((3, '\u{3b7}', '\u{313}', '\u{301}', '\u{0}')),
        0x1F25 => Some((3, '\u{3b7}', '\u{314}', '\u{301}', '\u{0}')),
        0x1F26 => Some((3, '\u{3b7}', '\u{313}', '\u{342}', '\u{0}')),
        0x1F27 => Some((3, '\u{3b7}', '\u{314}', '\u{342}', '\u{0}')),
        0x1F28 => Some((2, '\u{397}', '\u{313}', '\u{0}', '\u{0}')),
        0x1F29 => Some((2, '\u{397}', '\u{314}', '\u{0}', '\u{0}')),
        0x1F2A => Some((3, '\u{397}', '\u{313}', '\u{300}', '\u{0}')),
        0x1F2B => Some((3, '\u{397}', '\u{314}', '\u{300}', '\u{0}')),
        0x1F2C => Some((3, '\u{397}', '\u{313}', '\u{301}', '\u{0}')),
        0x1F2D => Some((3, '\u{397}', '\u{314}', '\u{301}', '\u{0}')),
        0x1F2E => Some((3, '\u{397}', '\u{313}', '\u{342}', '\u{0}')),
        0x1F2F => Some((3, '\u{397}', '\u{314}', '\u{342}', '\u{0}')),
        0x1F30 => Some((2, '\u{3b9}', '\u{313}', '\u{0}', '\u{0}')),
        0x1F31 => Some((2, '\u{3b9}', '\u{314}', '\u{0}', '\u{0}')),
        0x1F32 => Some((3, '\u{3b9}', '\u{313}', '\u{300}', '\u{0}')),
        0x1F33 => Some((3, '\u{3b9}', '\u{314}', '\u{300}', '\u{0}')),
        0x1F34 => Some((3, '\u{3b9}', '\u{313}', '\u{301}', '\u{0}')),
        0x1F35 => Some((3, '\u{3b9}', '\u{314}', '\u{301}', '\u{0}')),
        0x1F36 => Some((3, '\u{3b9}', '\u{313}', '\u{342}', '\u{0}')),
        0x1F37 => Some((3, '\u{3b9}', '\u{314}', '\u{342}', '\u{0}')),
        0x1F38 => Some((2, '\u{399}', '\u{313}', '\u{0}', '\u{0}')),
        0x1F39 => Some((2, '\u{399}', '\u{314}', '\u{0}', '\u{0}')),
        0x1F3A => Some((3, '\u{399}', '\u{313}', '\u{300}', '\u{0}')),
        0x1F3B => Some((3, '\u{399}', '\u{314}', '\u{300}', '\u{0}')),
        0x1F3C => Some((3, '\u{399}', '\u{313}', '\u{301}', '\u{0}')),
        0x1F3D => Some((3, '\u{399}', '\u{314}', '\u{301}', '\u{0}')),
        0x1F3E => Some((3, '\u{399}', '\u{313}', '\u{342}', '\u{0}')),
        0x1F3F => Some((3, '\u{399}', '\u{314}', '\u{342}', '\u{0}')),
        0x1F40 => Some((2, '\u{3bf}', '\u{313}', '\u{0}', '\u{0}')),
        0x1F41 => Some((2, '\u{3bf}', '\u{314}', '\u{0}', '\u{0}')),
        0x1F42 => Some((3, '\u{3bf}', '\u{313}', '\u{300}', '\u{0}')),
        0x1F43 => Some((3, '\u{3bf}', '\u{314}', '\u{300}', '\u{0}')),
        0x1F44 => Some((3, '\u{3bf}', '\u{313}', '\u{301}', '\u{0}')),
        0x1F45 => Some((3, '\u{3bf}', '\u{314}', '\u{301}', '\u{0}')),
        0x1F48 => Some((2, '\u{39f}', '\u{313}', '\u{0}', '\u{0}')),
        0x1F49 => Some((2, '\u{39f}', '\u{314}', '\u{0}', '\u{0}')),
        0x1F4A => Some((3, '\u{39f}', '\u{313}', '\u{300}', '\u{0}')),
        0x1F4B => Some((3, '\u{39f}', '\u{314}', '\u{300}', '\u{0}')),
        0x1F4C => Some((3, '\u{39f}', '\u{313}', '\u{301}', '\u{0}')),
        0x1F4D => Some((3, '\u{39f}', '\u{314}', '\u{301}', '\u{0}')),
        0x1F50 => Some((2, '\u{3c5}', '\u{313}', '\u{0}', '\u{0}')),
        0x1F51 => Some((2, '\u{3c5}', '\u{314}', '\u{0}', '\u{0}')),
        0x1F52 => Some((3, '\u{3c5}', '\u{313}', '\u{300}', '\u{0}')),
        0x1F53 => Some((3, '\u{3c5}', '\u{314}', '\u{300}', '\u{0}')),
        0x1F54 => Some((3, '\u{3c5}', '\u{313}', '\u{301}', '\u{0}')),
        0x1F55 => Some((3, '\u{3c5}', '\u{314}', '\u{301}', '\u{0}')),
        0x1F56 => Some((3, '\u{3c5}', '\u{313}', '\u{342}', '\u{0}')),
        0x1F57 => Some((3, '\u{3c5}', '\u{314}', '\u{342}', '\u{0}')),
        0x1F59 => Some((2, '\u{3a5}', '\u{314}', '\u{0}', '\u{0}')),
        0x1F5B => Some((3, '\u{3a5}', '\u{314}', '\u{300}', '\u{0}')),
        0x1F5D => Some((3, '\u{3a5}', '\u{314}', '\u{301}', '\u{0}')),
        0x1F5F => Some((3, '\u{3a5}', '\u{314}', '\u{342}', '\u{0}')),
        0x1F60 => Some((2, '\u{3c9}', '\u{313}', '\u{0}', '\u{0}')),
        0x1F61 => Some((2, '\u{3c9}', '\u{314}', '\u{0}', '\u{0}')),
        0x1F62 => Some((3, '\u{3c9}', '\u{313}', '\u{300}', '\u{0}')),
        0x1F63 => Some((3, '\u{3c9}', '\u{314}', '\u{300}', '\u{0}')),
        0x1F64 => Some((3, '\u{3c9}', '\u{313}', '\u{301}', '\u{0}')),
        0x1F65 => Some((3, '\u{3c9}', '\u{314}', '\u{301}', '\u{0}')),
        0x1F66 => Some((3, '\u{3c9}', '\u{313}', '\u{342}', '\u{0}')),
        0x1F67 => Some((3, '\u{3c9}', '\u{314}', '\u{342}', '\u{0}')),
        0x1F68 => Some((2, '\u{3a9}', '\u{313}', '\u{0}', '\u{0}')),
        0x1F69 => Some((2, '\u{3a9}', '\u{314}', '\u{0}', '\u{0}')),
        0x1F6A => Some((3, '\u{3a9}', '\u{313}', '\u{300}', '\u{0}')),
        0x1F6B => Some((3, '\u{3a9}', '\u{314}', '\u{300}', '\u{0}')),
        0x1F6C => Some((3, '\u{3a9}', '\u{313}', '\u{301}', '\u{0}')),
        0x1F6D => Some((3, '\u{3a9}', '\u{314}', '\u{301}', '\u{0}')),
        0x1F6E => Some((3, '\u{3a9}', '\u{313}', '\u{342}', '\u{0}')),
        0x1F6F => Some((3, '\u{3a9}', '\u{314}', '\u{342}', '\u{0}')),
        0x1F70 => Some((2, '\u{3b1}', '\u{300}', '\u{0}', '\u{0}')),
        0x1F71 => Some((2, '\u{3b1}', '\u{301}', '\u{0}', '\u{0}')),
        0x1F72 => Some((2, '\u{3b5}', '\u{300}', '\u{0}', '\u{0}')),
        0x1F73 => Some((2, '\u{3b5}', '\u{301}', '\u{0}', '\u{0}')),
        0x1F74 => Some((2, '\u{3b7}', '\u{300}', '\u{0}', '\u{0}')),
        0x1F75 => Some((2, '\u{3b7}', '\u{301}', '\u{0}', '\u{0}')),
        0x1F76 => Some((2, '\u{3b9}', '\u{300}', '\u{0}', '\u{0}')),
        0x1F77 => Some((2, '\u{3b9}', '\u{301}', '\u{0}', '\u{0}')),
        0x1F78 => Some((2, '\u{3bf}', '\u{300}', '\u{0}', '\u{0}')),
        0x1F79 => Some((2, '\u{3bf}', '\u{301}', '\u{0}', '\u{0}')),
        0x1F7A => Some((2, '\u{3c5}', '\u{300}', '\u{0}', '\u{0}')),
        0x1F7B => Some((2, '\u{3c5}', '\u{301}', '\u{0}', '\u{0}')),
        0x1F7C => Some((2, '\u{3c9}', '\u{300}', '\u{0}', '\u{0}')),
        0x1F7D => Some((2, '\u{3c9}', '\u{301}', '\u{0}', '\u{0}')),
        0x1F80 => Some((3, '\u{3b1}', '\u{313}', '\u{345}', '\u{0}')),
        0x1F81 => Some((3, '\u{3b1}', '\u{314}', '\u{345}', '\u{0}')),
        0x1F82 => Some((4, '\u{3b1}', '\u{313}', '\u{300}', '\u{345}')),
        0x1F83 => Some((4, '\u{3b1}', '\u{314}', '\u{300}', '\u{345}')),
        0x1F84 => Some((4, '\u{3b1}', '\u{313}', '\u{301}', '\u{345}')),
        0x1F85 => Some((4, '\u{3b1}', '\u{314}', '\u{301}', '\u{345}')),
        0x1F86 => Some((4, '\u{3b1}', '\u{313}', '\u{342}', '\u{345}')),
        0x1F87 => Some((4, '\u{3b1}', '\u{314}', '\u{342}', '\u{345}')),
        0x1F88 => Some((3, '\u{391}', '\u{313}', '\u{345}', '\u{0}')),
        0x1F89 => Some((3, '\u{391}', '\u{314}', '\u{345}', '\u{0}')),
        0x1F8A => Some((4, '\u{391}', '\u{313}', '\u{300}', '\u{345}')),
        0x1F8B => Some((4, '\u{391}', '\u{314}', '\u{300}', '\u{345}')),
        0x1F8C => Some((4, '\u{391}', '\u{313}', '\u{301}', '\u{345}')),
        0x1F8D => Some((4, '\u{391}', '\u{314}', '\u{301}', '\u{345}')),
        0x1F8E => Some((4, '\u{391}', '\u{313}', '\u{342}', '\u{345}')),
        0x1F8F => Some((4, '\u{391}', '\u{314}', '\u{342}', '\u{345}')),
        0x1F90 => Some((3, '\u{3b7}', '\u{313}', '\u{345}', '\u{0}')),
        0x1F91 => Some((3, '\u{3b7}', '\u{314}', '\u{345}', '\u{0}')),
        0x1F92 => Some((4, '\u{3b7}', '\u{313}', '\u{300}', '\u{345}')),
        0x1F93 => Some((4, '\u{3b7}', '\u{314}', '\u{300}', '\u{345}')),
        0x1F94 => Some((4, '\u{3b7}', '\u{313}', '\u{301}', '\u{345}')),
        0x1F95 => Some((4, '\u{3b7}', '\u{314}', '\u{301}', '\u{345}')),
        0x1F96 => Some((4, '\u{3b7}', '\u{313}', '\u{342}', '\u{345}')),
        0x1F97 => Some((4, '\u{3b7}', '\u{314}', '\u{342}', '\u{345}')),
        0x1F98 => Some((3, '\u{397}', '\u{313}', '\u{345}', '\u{0}')),
        0x1F99 => Some((3, '\u{397}', '\u{314}', '\u{345}', '\u{0}')),
        0x1F9A => Some((4, '\u{397}', '\u{313}', '\u{300}', '\u{345}')),
        0x1F9B => Some((4, '\u{397}', '\u{314}', '\u{300}', '\u{345}')),
        0x1F9C => Some((4, '\u{397}', '\u{313}', '\u{301}', '\u{345}')),
        0x1F9D => Some((4, '\u{397}', '\u{314}', '\u{301}', '\u{345}')),
        0x1F9E => Some((4, '\u{397}', '\u{313}', '\u{342}', '\u{345}')),
        0x1F9F => Some((4, '\u{397}', '\u{314}', '\u{342}', '\u{345}')),
        0x1FA0 => Some((3, '\u{3c9}', '\u{313}', '\u{345}', '\u{0}')),
        0x1FA1 => Some((3, '\u{3c9}', '\u{314}', '\u{345}', '\u{0}')),
        0x1FA2 => Some((4, '\u{3c9}', '\u{313}', '\u{300}', '\u{345}')),
        0x1FA3 => Some((4, '\u{3c9}', '\u{314}', '\u{300}', '\u{345}')),
        0x1FA4 => Some((4, '\u{3c9}', '\u{313}', '\u{301}', '\u{345}')),
        0x1FA5 => Some((4, '\u{3c9}', '\u{314}', '\u{301}', '\u{345}')),
        0x1FA6 => Some((4, '\u{3c9}', '\u{313}', '\u{342}', '\u{345}')),
        0x1FA7 => Some((4, '\u{3c9}', '\u{314}', '\u{342}', '\u{345}')),
        0x1FA8 => Some((3, '\u{3a9}', '\u{313}', '\u{345}', '\u{0}')),
        0x1FA9 => Some((3, '\u{3a9}', '\u{314}', '\u{345}', '\u{0}')),
        0x1FAA => Some((4, '\u{3a9}', '\u{313}', '\u{300}', '\u{345}')),
        0x1FAB => Some((4, '\u{3a9}', '\u{314}', '\u{300}', '\u{345}')),
        0x1FAC => Some((4, '\u{3a9}', '\u{313}', '\u{301}', '\u{345}')),
        0x1FAD => Some((4, '\u{3a9}', '\u{314}', '\u{301}', '\u{345}')),
        0x1FAE => Some((4, '\u{3a9}', '\u{313}', '\u{342}', '\u{345}')),
        0x1FAF => Some((4, '\u{3a9}', '\u{314}', '\u{342}', '\u{345}')),
        0x1FB0 => Some((2, '\u{3b1}', '\u{306}', '\u{0}', '\u{0}')),
        0x1FB1 => Some((2, '\u{3b1}', '\u{304}', '\u{0}', '\u{0}')),
        0x1FB2 => Some((3, '\u{3b1}', '\u{300}', '\u{345}', '\u{0}')),
        0x1FB3 => Some((2, '\u{3b1}', '\u{345}', '\u{0}', '\u{0}')),
        0x1FB4 => Some((3, '\u{3b1}', '\u{301}', '\u{345}', '\u{0}')),
        0x1FB6 => Some((2, '\u{3b1}', '\u{342}', '\u{0}', '\u{0}')),
        0x1FB7 => Some((3, '\u{3b1}', '\u{342}', '\u{345}', '\u{0}')),
        0x1FB8 => Some((2, '\u{391}', '\u{306}', '\u{0}', '\u{0}')),
        0x1FB9 => Some((2, '\u{391}', '\u{304}', '\u{0}', '\u{0}')),
        0x1FBA => Some((2, '\u{391}', '\u{300}', '\u{0}', '\u{0}')),
        0x1FBB => Some((2, '\u{391}', '\u{301}', '\u{0}', '\u{0}')),
        0x1FBC => Some((2, '\u{391}', '\u{345}', '\u{0}', '\u{0}')),
        0x1FBE => Some((1, '\u{3b9}', '\u{0}', '\u{0}', '\u{0}')),
        0x1FC1 => Some((2, '\u{a8}', '\u{342}', '\u{0}', '\u{0}')),
        0x1FC2 => Some((3, '\u{3b7}', '\u{300}', '\u{345}', '\u{0}')),
        0x1FC3 => Some((2, '\u{3b7}', '\u{345}', '\u{0}', '\u{0}')),
        0x1FC4 => Some((3, '\u{3b7}', '\u{301}', '\u{345}', '\u{0}')),
        0x1FC6 => Some((2, '\u{3b7}', '\u{342}', '\u{0}', '\u{0}')),
        0x1FC7 => Some((3, '\u{3b7}', '\u{342}', '\u{345}', '\u{0}')),
        0x1FC8 => Some((2, '\u{395}', '\u{300}', '\u{0}', '\u{0}')),
        0x1FC9 => Some((2, '\u{395}', '\u{301}', '\u{0}', '\u{0}')),
        0x1FCA => Some((2, '\u{397}', '\u{300}', '\u{0}', '\u{0}')),
        0x1FCB => Some((2, '\u{397}', '\u{301}', '\u{0}', '\u{0}')),
        0x1FCC => Some((2, '\u{397}', '\u{345}', '\u{0}', '\u{0}')),
        0x1FCD => Some((2, '\u{1fbf}', '\u{300}', '\u{0}', '\u{0}')),
        0x1FCE => Some((2, '\u{1fbf}', '\u{301}', '\u{0}', '\u{0}')),
        0x1FCF => Some((2, '\u{1fbf}', '\u{342}', '\u{0}', '\u{0}')),
        0x1FD0 => Some((2, '\u{3b9}', '\u{306}', '\u{0}', '\u{0}')),
        0x1FD1 => Some((2, '\u{3b9}', '\u{304}', '\u{0}', '\u{0}')),
        0x1FD2 => Some((3, '\u{3b9}', '\u{308}', '\u{300}', '\u{0}')),
        0x1FD3 => Some((3, '\u{3b9}', '\u{308}', '\u{301}', '\u{0}')),
        0x1FD6 => Some((2, '\u{3b9}', '\u{342}', '\u{0}', '\u{0}')),
        0x1FD7 => Some((3, '\u{3b9}', '\u{308}', '\u{342}', '\u{0}')),
        0x1FD8 => Some((2, '\u{399}', '\u{306}', '\u{0}', '\u{0}')),
        0x1FD9 => Some((2, '\u{399}', '\u{304}', '\u{0}', '\u{0}')),
        0x1FDA => Some((2, '\u{399}', '\u{300}', '\u{0}', '\u{0}')),
        0x1FDB => Some((2, '\u{399}', '\u{301}', '\u{0}', '\u{0}')),
        0x1FDD => Some((2, '\u{1ffe}', '\u{300}', '\u{0}', '\u{0}')),
        0x1FDE => Some((2, '\u{1ffe}', '\u{301}', '\u{0}', '\u{0}')),
        0x1FDF => Some((2, '\u{1ffe}', '\u{342}', '\u{0}', '\u{0}')),
        0x1FE0 => Some((2, '\u{3c5}', '\u{306}', '\u{0}', '\u{0}')),
        0x1FE1 => Some((2, '\u{3c5}', '\u{304}', '\u{0}', '\u{0}')),
        0x1FE2 => Some((3, '\u{3c5}', '\u{308}', '\u{300}', '\u{0}')),
        0x1FE3 => Some((3, '\u{3c5}', '\u{308}', '\u{301}', '\u{0}')),
        0x1FE4 => Some((2, '\u{3c1}', '\u{313}', '\u{0}', '\u{0}')),
        0x1FE5 => Some((2, '\u{3c1}', '\u{314}', '\u{0}', '\u{0}')),
        0x1FE6 => Some((2, '\u{3c5}', '\u{342}', '\u{0}', '\u{0}')),
        0x1FE7 => Some((3, '\u{3c5}', '\u{308}', '\u{342}', '\u{0}')),
        0x1FE8 => Some((2, '\u{3a5}', '\u{306}', '\u{0}', '\u{0}')),
        0x1FE9 => Some((2, '\u{3a5}', '\u{304}', '\u{0}', '\u{0}')),
        0x1FEA => Some((2, '\u{3a5}', '\u{300}', '\u{0}', '\u{0}')),
        0x1FEB => Some((2, '\u{3a5}', '\u{301}', '\u{0}', '\u{0}')),
        0x1FEC => Some((2, '\u{3a1}', '\u{314}', '\u{0}', '\u{0}')),
        0x1FED => Some((2, '\u{a8}', '\u{300}', '\u{0}', '\u{0}')),
        0x1FEE => Some((2, '\u{a8}', '\u{301}', '\u{0}', '\u{0}')),
        0x1FEF => Some((1, '`', '\u{0}', '\u{0}', '\u{0}')),
        0x1FF2 => Some((3, '\u{3c9}', '\u{300}', '\u{345}', '\u{0}')),
        0x1FF3 => Some((2, '\u{3c9}', '\u{345}', '\u{0}', '\u{0}')),
        0x1FF4 => Some((3, '\u{3c9}', '\u{301}', '\u{345}', '\u{0}')),
        0x1FF6 => Some((2, '\u{3c9}', '\u{342}', '\u{0}', '\u{0}')),
        0x1FF7 => Some((3, '\u{3c9}', '\u{342}', '\u{345}', '\u{0}')),
        0x1FF8 => Some((2, '\u{39f}', '\u{300}', '\u{0}', '\u{0}')),
        0x1FF9 => Some((2, '\u{39f}', '\u{301}', '\u{0}', '\u{0}')),
        0x1FFA => Some((2, '\u{3a9}', '\u{300}', '\u{0}', '\u{0}')),
        0x1FFB => Some((2, '\u{3a9}', '\u{301}', '\u{0}', '\u{0}')),
        0x1FFC => Some((2, '\u{3a9}', '\u{345}', '\u{0}', '\u{0}')),
        0x1FFD => Some((1, '\u{b4}', '\u{0}', '\u{0}', '\u{0}')),
        _ => None,
    }
}

fn decomposition_1_of(u: u32) -> (r: Option<(u8, char, char, char, char)>)
    ensures
        r == decomposition_1(u),
{
    match u {
        0x1026 => Some((2, '\u{1025}', '\u{102e}', '\u{0}', '\u{0}')),
        0x1B06 => Some((2, '\u{1b05}', '\u{1b35}', '\u{0}', '\u{0}')),
        0x1B08 => Some((2, '\u{1b07}', '\u{1b35}', '\u{0}', '\u{0}')),
        0x1B0A => Some((2, '\u{1b09}', '\u{1b35}', '\u{0}', '\u{0}')),
        0x1B0C => Some((2, '\u{1b0b}', '\u{1b35}', '\u{0}', '\u{0}')),
        0x1B0E => Some((2, '\u{1b0d}', '\u{1b35}', '\u{0}', '\u{0}')),
        0x1B12 => Some((2, '\u{1b11}', '\u{1b35}', '\u{0}', '\u{0}')),
        0x1B3B => Some((2, '\u{1b3a}', '\u{1b35}', '\u{0}', '\u{0}')),
        0x1B3D => Some((2, '\u{1b3c}', '\u{1b35}', '\u{0}', '\u{0}')),
        0x1B40 => Some((2, '\u{1b3e}', '\u{1b35}', '\u{0}', '\u{0}')),
        0x1B41 => Some((2, '\u{1b3f}', '\u{1b35}', '\u{0}', '\u{0}')),
        0x1B43 => Some((2, '\u{1b42}', '\u{1b35}', '\u{0}', '\u{0}')),
        0x1E00 => Some((2, 'A', '\u{325}', '\u{0}', '\u{0}')),
        0x1E01 => Some((2, 'a', '\u{325}', '\u{0}', '\u{0}')),
        0x1E02 => Some((2, 'B', '\u{307}', '\u{0}', '\u{0}')),
        0x1E03 => Some((2, 'b', '\u{307}', '\u{0}', '\u{0}')),
        0x1E04 => Some((2, 'B', '\u{323}', '\u{0}', '\u{0}')),
        0x1E05 => Some((2, 'b', '\u{323}', '\u{0}', '\u{0}')),
        0x1E06 => Some((2, 'B', '\u{331}', '\u{0}', '\u{0}')),
        0x1E07 => Some((2, 'b', '\u{331}', '\u{0}', '\u{0}')),
        0x1E08 => Some((3, 'C', '\u{327}', '\u{301}', '\u{0}')),
        0x1E09 => Some((3, 'c', '\u{327}', '\u{301}', '\u{0}')),
        0x1E0A => Some((2, 'D', '\u{307}', '\u{0}', '\u{0}')),
        0x1E0B => Some((2, 'd', '\u{307}', '\u{0}', '\u{0}')),
        0x1E0C => Some((2, 'D', '\u{323}', '\u{0}', '\u{0}')),
        0x1E0D => Some((2, 'd', '\u{323}', '\u{0}', '\u{0}')),
        0x1E0E => Some((2, 'D', '\u{331}', '\u{0}', '\u{0}')),
        0x1E0F => Some((2, 'd', '\u{331}', '\u{0}', '\u{0}')),
        0x1E10 => Some((2, 'D', '\u{327}', '\u{0}', '\u{0}')),
        0x1E11 => Some((2, 'd', '\u{327}', '\u{0}', '\u{0}')),
        0x1E12 => Some((2, 'D', '\u{32d}', '\u{0}', '\u{0}')),
        0x1E13 => Some((2, 'd', '\u{32d}', '\u{0}', '\u{0}')),
        0x1E14 => Some((3, 'E', '\u{304}', '\u{300}', '\u{0}')),
        0x1E15 => Some((3, 'e', '\u{304}', '\u{300}', '\u{0}')),
        0x1E16 => Some((3, 'E', '\u{304}', '\u{301}', '\u{0}')),
        0x1E17 => Some((3, 'e', '\u{304}', '\u{301}', '\u{0}')),
        0x1E18 => Some((2, 'E', '\u{32d}', '\u{0}', '\u{0}')),
        0x1E19 => Some((2, 'e', '\u{32d}', '\u{0}', '\u{0}')),
        0x1E1A => Some((2, 'E', '\u{330}', '\u{0}', '\u{0}')),
        0x1E1B => Some((2, 'e', '\u{330}', '\u{0}', '\u{0}')),
        0x1E1C => Some((3, 'E', '\u{327}', '\u{306}', '\u{0}')),
        0x1E1D => Some((3, 'e', '\u{327}', '\u{306}', '\u{0}')),
        0x1E1E => Some((2, 'F', '\u{307}', '\u{0}', '\u{0}')),
        0x1E1F => Some((2, 'f', '\u{307}', '\u{0}', '\u{0}')),
        0x1E20 => Some((2, 'G', '\u{304}', '\u{0}', '\u{0}')),
        0x1E21 => Some((2, 'g', '\u{304}', '\u{0}', '\u{0}')),
        0x1E22 => Some((2, 'H', '\u{307}', '\u{0}', '\u{0}')),
        0x1E23 => Some((2, 'h', '\u{307}', '\u{0}', '\u{0}')),
        0x1E24 => Some((2, 'H', '\u{323}', '\u{0}', '\u{0}')),
        0x1E25 => Some((2, 'h', '\u{323}', '\u{0}', '\u{0}')),
        0x1E26 => Some((2, 'H', '\u{308}', '\u{0}', '\u{0}')),
        0x1E27 => Some((2, 'h', '\u{308}', '\u{0}', '\u{0}')),
        0x1E28 => Some((2, 'H', '\u{327}', '\u{0}', '\u{0}')),
        0x1E29 => Some((2, 'h', '\u{327}', '\u{0}', '\u{0}')),
        0x1E2A => Some((2, 'H', '\u{32e}', '\u{0}', '\u{0}')),
        0x1E2B => Some((2, 'h', '\u{32e}', '\u{0}', '\u{0}')),
        0x1E2C => Some((2, 'I', '\u{330}', '\u{0}', '\u{0}')),
        0x1E2D => Some((2, 'i', '\u{330}', '\u{0}', '\u{0}')),
        0x1E2E => Some((3, 'I', '\u{308}', '\u{301}', '\u{0}')),
        0x1E2F => Some((3, 'i', '\u{308}', '\u{301}', '\u{0}')),
        0x1E30 => Some((2, 'K', '\u{301}', '\u{0}', '\u{0}')),
        0x1E31 => Some((2, 'k', '\u{301}', '\u{0}', '\u{0}')),
        0x1E32 => Some((2, 'K', '\u{323}', '\u{0}', '\u{0}')),
        0x1E33 => Some((2, 'k', '\u{323}', '\u{0}', '\u{0}')),
        0x1E34 => Some((2, 'K', '\u{331}', '\u{0}', '\u{0}')),
        0x1E35 => Some((2, 'k', '\u{331}', '\u{0}', '\u{0}')),
        0x1E36 => Some((2, 'L', '\u{323}', '\u{0}', '\u{0}')),
        0x1E37 => Some((2, 'l', '\u{323}', '\u{0}', '\u{0}')),
        0x1E38 => Some((3, 'L', '\u{323}', '\u{304}', '\u{0}')),
        0x1E39 => Some((3, 'l', '\u{323}', '\u{304}', '\u{0}')),
        0x1E3A => Some((2, 'L', '\u{331}', '\u{0}', '\u{0}')),
        0x1E3B => Some((2, 'l', '\u{331}', '\u{0}', '\u{0}')),
        0x1E3C => Some((2, 'L', '\u{32d}', '\u{0}', '\u{0}')),
        0x1E3D => Some((2, 'l', '\u{32d}', '\u{0}', '\u{0}')),
        0x1E3E => Some((2, 'M', '\u{301}', '\u{0}', '\u{0}')),
        0x1E3F => Some((2, 'm', '\u{301}', '\u{0}', '\u{0}')),
        0x1E40 => Some((2, 'M', '\u{307}', '\u{0}', '\u{0}')),
        0x1E41 => Some((2, 'm', '\u{307}', '\u{0}', '\u{0}')),
        0x1E42 => Some((2, 'M', '\u{323}', '\u{0}', '\u{0}')),
        0x1E43 => Some((2, 'm', '\u{323}', '\u{0}', '\u{0}')),
        0x1E44 => Some((2, 'N', '\u{307}', '\u{0}', '\u{0}')),
        0x1E45 => Some((2, 'n', '\u{307}', '\u{0}', '\u{0}')),
        0x1E46 => Some((2, 'N', '\u{323}', '\u{0}', '\u{0}')),
        0x1E47 => Some((2, 'n', '\u{323}', '\u{0}', '\u{0}')),
        0x1E48 => Some((2, 'N', '\u{331}', '\u{0}', '\u{0}')),
        0x1E49 => Some((2, 'n', '\u{331}', '\u{0}', '\u{0}')),
        0x1E4A => Some((2, 'N', '\u{32d}', '\u{0}', '\u{0}')),
        0x1E4B => Some((2, 'n', '\u{32d}', '\u{0}', '\u{0}')),
        0x1E4C => Some((3, 'O', '\u{303}', '\u{301}', '\u{0}')),
        0x1E4D => Some((3, 'o', '\u{303}', '\u{301}', '\u{0}')),
        0x1E4E => Some((3, 'O', '\u{303}', '\u{308}', '\u{0}')),
        0x1E4F => Some((3, 'o', '\u{303}', '\u{308}', '\u{0}')),
        0x1E50 => Some((3, 'O', '\u{304}', '\u{300}', '\u{0}')),
        0x1E51 => Some((3, 'o', '\u{304}', '\u{300}', '\u{0}')),
        0x1E52 => Some((3, 'O', '\u{304}', '\u{301}', '\u{0}')),
        0x1E53 => Some((3, 'o', '\u{304}', '\u{301}', '\u{0}')),
        0x1E54 => Some((2, 'P', '\u{301}', '\u{0}', '\u{0}')),
        0x1E55 => Some((2, 'p', '\u{301}', '\u{0}', '\u{0}')),
        0x1E56 => Some((2, 'P', '\u{307}', '\u{0}', '\u{0}')),
        0x1E57 => Some((2, 'p', '\u{307}', '\u{0}', '\u{0}')),
        0x1E58 => Some((2, 'R', '\u{307}', '\u{0}', '\u{0}')),
        0x1E59 => Some((2, 'r', '\u{307}', '\u{0}', '\u{0}')),
        0x1E5A => Some((2, 'R', '\u{323}', '\u{0}', '\u{0}')),
        0x1E5B => Some((2, 'r', '\u{323}', '\u{0}', '\u{0}')),
        0x1E5C => Some((3, 'R', '\u{323}', '\u{304}', '\u{0}')),
        0x1E5D => Some((3, 'r', '\u{323}', '\u{304}', '\u{0}')),
        0x1E5E => Some((2, 'R', '\u{331}', '\u{0}', '\u{0}')),
        0x1E5F => Some((2, 'r', '\u{331}', '\u{0}', '\u{0}')),
        0x1E60 => Some((2, 'S', '\u{307}', '\u{0}', '\u{0}')),
        0x1E61 => Some((2, 's', '\u{307}', '\u{0}', '\u{0}')),
        0x1E62 => Some((2, 'S', '\u{323}', '\u{0}', '\u{0}')),
        0x1E63 => Some((2, 's', '\u{323}', '\u{0}', '\u{0}')),
        0x1E64 => Some((3, 'S', '\u{301}', '\u{307}', '\u{0}')),
        0x1E65 => Some((3, 's', '\u{301}', '\u{307}', '\u{0}')),
        0x1E66 => Some((3, 'S', '\u{30c}', '\u{307}', '\u{0}')),
        0x1E67 => Some((3, 's', '\u{30c}', '\u{307}', '\u{0}')),
        0x1E68 => Some((3, 'S', '\u{323}', '\u{307}', '\u{0}')),
        0x1E69 => Some((3, 's', '\u{323}', '\u{307}', '\u{0}')),
        0x1E6A => Some((2, 'T', '\u{307}', '\u{0}', '\u{0}')),
        0x1E6B => Some((2, 't', '\u{307}', '\u{0}', '\u{0}')),
        0x1E6C => Some((2, 'T', '\u{323}', '\u{0}', '\u{0}')),
        0x1E6D => Some((2, 't', '\u{323}', '\u{0}', '\u{0}')),
        0x1E6E => Some((2, 'T', '\u{331}', '\u{0}', '\u{0}')),
        0x1E6F => Some((2, 't', '\u{331}', '\u{0}', '\u{0}')),
        0x1E70 => Some((2, 'T', '\u{32d}', '\u{0}', '\u{0}')),
        0x1E71 => Some((2, 't', '\u{32d}', '\u{0}', '\u{0}')),
        0x1E72 => Some((2, 'U', '\u{324}', '\u{0}', '\u{0}')),
        0x1E73 => Some((2, 'u', '\u{324}', '\u{0}', '\u{0}')),
        0x1E74 => Some((2, 'U', '\u{330}', '\u{0}', '\u{0}')),
        0x1E75 => Some((2, 'u', '\u{330}', '\u{0}', '\u{0}')),
        0x1E76 => Some((2, 'U', '\u{32d}', '\u{0}', '\u{0}')),
        0x1E77 => Some((2, 'u', '\u{32d}', '\u{0}', '\u{0}')),
        0x1E78 => Some((3, 'U', '\u{303}', '\u{301}', '\u{0}')),
        0x1E79 => Some((3, 'u', '\u{303}', '\u{301}', '\u{0}')),
        0x1E7A => Some((3, 'U', '\u{304}', '\u{308}', '\u{0}')),
        0x1E7B => Some((3, 'u', '\u{304}', '\u{308}', '\u{0}')),
        0x1E7C => Some((2, 'V', '\u{303}', '\u{0}', '\u{0}')),
        0x1E7D => Some((2, 'v', '\u{303}', '\u{0}', '\u{0}')),
        0x1E7E => Some((2, 'V', '\u{323}', '\u{0}', '\u{0}')),
        0x1E7F => Some((2, 'v', '\u{323}', '\u{0}', '\u{0}')),
        0x1E80 => Some((2, 'W', '\u{300}', '\u{0}', '\u{0}')),
        0x1E81 => Some((2, 'w', '\u{300}', '\u{0}', '\u{0}')),
        0x1E82 => Some((2, 'W', '\u{301}', '\u{0}', '\u{0}')),
        0x1E83 => Some((2, 'w', '\u{301}', '\u{0}', '\u{0}')),
        0x1E84 => Some((2, 'W', '\u{308}', '\u{0}', '\u{0}')),
        0x1E85 => Some((2, 'w', '\u{308}', '\u{0}', '\u{0}')),
        0x1E86 => Some((2, 'W', '\u{307}', '\u{0}', '\u{0}')),
        0x1E87 => Some((2, 'w', '\u{307}', '\u{0}', '\u{0}')),
        0x1E88 => Some((2, 'W', '\u{323}', '\u{0}', '\u{0}')),
        0x1E89 => Some((2, 'w', '\u{323}', '\u{0}', '\u{0}')),
        0x1E8A => Some((2, 'X', '\u{307}', '\u{0}', '\u{0}')),
        0x1E8B => Some((2, 'x', '\u{307}', '\u{0}', '\u{0}')),
        0x1E8C => Some((2, 'X', '\u{308}', '\u{0}', '\u{0}')),
        0x1E8D => Some((2, 'x', '\u{308}', '\u{0}', '\u{0}')),
        0x1E8E => Some((2, 'Y', '\u{307}', '\u{0}', '\u{0}')),
        0x1E8F => Some((2, 'y', '\u{307}', '\u{0}', '\u{0}')),
        0x1E90 => Some((2, 'Z', '\u{302}', '\u{0}', '\u{0}')),
        0x1E91 => Some((2, 'z', '\u{302}', '\u{0}', '\u{0}')),
        0x1E92 => Some((2, 'Z', '\u{323}', '\u{0}', '\u{0}')),
        0x1E93 => Some((2, 'z', '\u{323}', '\u{0}', '\u{0}')),
        0x1E94 => Some((2, 'Z', '\u{331}', '\u{0}', '\u{0}')),
        0x1E95 => Some((2, 'z', '\u{331}', '\u{0}', '\u{0}')),
        0x1E96 => Some((2, 'h', '\u{331}', '\u{0}', '\u{0}')),
        0x1E97 => Some((2, 't', '\u{308}', '\u{0}', '\u{0}')),
        0x1E98 => Some((2, 'w', '\u{30a}', '\u{0}', '\u{0}')),
        0x1E99 => Some((2, 'y', '\u{30a}', '\u{0}', '\u{0}')),
        0x1E9B => Some((2, '\u{17f}', '\u{307}', '\u{0}', '\u{0}')),
        0x1EA0 => Some((2, 'A', '\u{323}', '\u{0}', '\u{0}')),
        0x1EA1 => Some((2, 'a', '\u{323}', '\u{0}', '\u{0}')),
        0x1EA2 => Some((2, 'A', '\u{309}', '\u{0}', '\u{0}')),
        0x1EA3 => Some((2, 'a', '\u{309}', '\u{0}', '\u{0}')),
        0x1EA4 => Some((3, 'A', '\u{302}', '\u{301}', '\u{0}')),
        0x1EA5 => Some((3, 'a', '\u{302}', '\u{301}', '\u{0}')),
        0x1EA6 => Some((3, 'A', '\u{302}', '\u{300}', '\u{0}')),
        0x1EA7 => Some((3, 'a', '\u{302}', '\u{300}', '\u{0}')),
        0x1EA8 => Some((3, 'A', '\u{302}', '\u{309}', '\u{0}')),
        0x1EA9 => Some((3, 'a', '\u{302}', '\u{309}', '\u{0}')),
        0x1EAA => Some((3, 'A', '\u{302}', '\u{303}', '\u{0}')),
        0x1EAB => Some((3, 'a', '\u{302}', '\u{303}', '\u{0}')),
        0x1EAC => Some((3, 'A', '\u{323}', '\u{302}', '\u{0}')),
        0x1EAD => Some((3, 'a', '\u{323}', '\u{302}', '\u{0}')),
        0x1EAE => Some((3, 'A', '\u{306}', '\u{301}', '\u{0}')),
        0x1EAF => Some((3, 'a', '\u{306}', '\u{301}', '\u{0}')),
        0x1EB0 => Some((3, 'A', '\u{306}', '\u{300}', '\u{0}')),
        0x1EB1 => Some((3, 'a', '\u{306}', '\u{300}', '\u{0}')),
        0x1EB2 => Some((3, 'A', '\u{306}', '\u{309}', '\u{0}')),
        0x1EB3 => Some((3, 'a', '\u{306}', '\u{309}', '\u{0}')),
        0x1EB4 => Some((3, 'A', '\u{306}', '\u{303}', '\u{0}')),
        0x1EB5 => Some((3, 'a', '\u{306}', '\u{303}', '\u{0}')),
        0x1EB6 => Some((3, 'A', '\u{323}', '\u{306}', '\u{0}')),
        0x1EB7 => Some((3, 'a', '\u{323}', '\u{306}', '\u{0}')),
        0x1EB8 => Some((2, 'E', '\u{323}', '\u{0}', '\u{0}')),
        0x1EB9 => Some((2, 'e', '\u{323}', '\u{0}', '\u{0}')),
        0x1EBA => Some((2, 'E', '\u{309}', '\u{0}', '\u{0}')),
        0x1EBB => Some((2, 'e', '\u{309}', '\u{0}', '\u{0}')),
        0x1EBC => Some((2, 'E', '\u{303}', '\u{0}', '\u{0}')),
        0x1EBD => Some((2, 'e', '\u{303}', '\u{0}', '\u{0}')),
        0x1EBE => Some((3, 'E', '\u{302}', '\u{301}', '\u{0}')),
        0x1EBF => Some((3, 'e', '\u{302}', '\u{301}', '\u{0}')),
        0x1EC0 => Some((3, 'E', '\u{302}', '\u{300}', '\u{0}')),
        0x1EC1 => Some((3, 'e', '\u{302}', '\u{300}', '\u{0}')),
        0x1EC2 => Some((3, 'E', '\u{302}', '\u{309}', '\u{0}')),
        0x1EC3 => Some((3, 'e', '\u{302}', '\u{309}', '\u{0}')),
        0x1EC4 => Some((3, 'E', '\u{302}', '\u{303}', '\u{0}')),
        0x1EC5 => Some((3, 'e', '\u{302}', '\u{303}', '\u{0}')),
        0x1EC6 => Some((3, 'E', '\u{323}', '\u{302}', '\u{0}')),
        0x1EC7 => Some((3, 'e', '\u{323}', '\u{302}', '\u{0}')),
        0x1EC8 => Some((2, 'I', '\u{309}', '\u{0}', '\u{0}')),
        0x1EC9 => Some((2, 'i', '\u{309}', '\u{0}', '\u{0}')),
        0x1ECA => Some((2, 'I', '\u{323}', '\u{0}', '\u{0}')),
        0x1ECB => Some((2, 'i', '\u{323}', '\u{0}', '\u{0}')),
        0x1ECC => Some((2, 'O', '\u{323}', '\u{0}', '\u{0}')),
        0x1ECD => Some((2, 'o', '\u{323}', '\u{0}', '\u{0}')),
        0x1ECE => Some((2, 'O', '\u{309}', '\u{0}', '\u{0}')),
        0x1ECF => Some((2, 'o', '\u{309}', '\u{0}', '\u{0}')),
        0x1ED0 => Some((3, 'O', '\u{302}', '\u{301}', '\u{0}')),
        0x1ED1 => Some((3, 'o', '\u{302}', '\u{301}', '\u{0}')),
        0x1ED2 => Some((3, 'O', '\u{302}', '\u{300}', '\u{0}')),
        0x1ED3 => Some((3, 'o', '\u{302}', '\u{300}', '\u{0}')),
        0x1ED4 => Some((3, 'O', '\u{302}', '\u{309}', '\u{0}')),
        0x1ED5 => Some((3, 'o', '\u{302}', '\u{309}', '\u{0}')),
        0x1ED6 => Some((3, 'O', '\u{302}', '\u{303}', '\u{0}')),
        0x1ED7 => Some((3, 'o', '\u{302}', '\u{303}', '\u{0}')),
        0x1ED8 => Some((3, 'O', '\u{323}', '\u{302}', '\u{0}')),
        0x1ED9 => Some((3, 'o', '\u{323}', '\u{302}', '\u{0}')),
        0x1EDA => Some((3, 'O', '\u{31b}', '\u{301}', '\u{0}')),
        0x1EDB => Some((3, 'o', '\u{31b}', '\u{301}', '\u{0}')),
        0x1EDC => Some((3, 'O', '\u{31b}', '\u{300}', '\u{0}')),
        0x1EDD => Some((3, 'o', '\u{31b}', '\u{300}', '\u{0}')),
        0x1EDE => Some((3, 'O', '\u{31b}', '\u{309}', '\u{0}')),
        0x1EDF => Some((3, 'o', '\u{31b}', '\u{309}', '\u{0}')),
        0x1EE0 => Some((3, 'O', '\u{31b}', '\u{303}', '\u{0}')),
        0x1EE1 => Some((3, 'o', '\u{31b}', '\u{303}', '\u{0}')),
        0x1EE2 => Some((3, 'O', '\u{31b}', '\u{323}', '\u{0}')),
        0x1EE3 => Some((3, 'o', '\u{31b}', '\u{323}', '\u{0}')),
        0x1EE4 => Some((2, 'U', '\u{323}', '\u{0}', '\u{0}')),
        0x1EE5 => Some((2, 'u', '\u{323}', '\u{0}', '\u{0}')),
        0x1EE6 => Some((2, 'U', '\u{309}', '\u{0}', '\u{0}')),
        0x1EE7 => Some((2, 'u', '\u{309}', '\u{0}', '\u{0}')),
        0x1EE8 => Some((3, 'U', '\u{31b}', '\u{301}', '\u{0}')),
        0x1EE9 => Some((3, 'u', '\u{31b}', '\u{301}', '\u{0}')),
        0x1EEA => Some((3, 'U', '\u{31b}', '\u{300}', '\u{0}')),
        0x1EEB => Some((3, 'u', '\u{31b}', '\u{300}', '\u{0}')),
        0x1EEC => Some((3, 'U', '\u{31b}', '\u{309}', '\u{0}')),
        0x1EED => Some((3, 'u', '\u{31b}', '\u{309}', '\u{0}')),
        0x1EEE => Some((3, 'U', '\u{31b}', '\u{303}', '\u{0}')),
        0x1EEF => Some((3, 'u', '\u{31b}', '\u{303}', '\u{0}')),
        0x1EF0 => Some((3, 'U', '\u{31b}', '\u{323}', '\u{0}')),
        0x1EF1 => Some((3, 'u', '\u{31b}', '\u{323}', '\u{0}')),
        0x1EF2 => Some((2, 'Y', '\u{300}', '\u{0}', '\u{0}')),
        0x1EF3 => Some((2, 'y', '\u{300}', '\u{0}', '\u{0}')),
        0x1EF4 => Some((2, 'Y', '\u{323}', '\u{0}', '\u{0}')),
        0x1EF5 => Some((2, 'y', '\u{323}', '\u{0}', '\u{0}')),
        0x1EF6 => Some((2, 'Y', '\u{309}', '\u{0}', '\u{0}')),
        0x1EF7 => Some((2, 'y', '\u{309}', '\u{0}', '\u{0}')),
        0x1EF8 => Some((2, 'Y', '\u{303}', '\u{0}', '\u{0}')),
        0x1EF9 => Some((2, 'y', '\u{303}', '\u{0}', '\u{0}')),
        0x1F00 => Some((2, '\u{3b1}', '\u{313}', '\u{0}', '\u{0}')),
        0x1F01 => Some((2, '\u{3b1}', '\u{314}', '\u{0}', '\u{0}')),
        0x1F02 => Some((3, '\u{3b1}', '\u{313}', '\u{300}', '\u{0}')),
        0x1F03 => Some((3, '\u{3b1}', '\u{314}', '\u{300}', '\u{0}')),
        0x1F04 => Some((3, '\u{3b1}', '\u{313}', '\u{301}', '\u{0}')),
        0x1F05 => Some((3, '\u{3b1}', '\u{314}', '\u{301}', '\u{0}')),
        0x1F06 => Some((3, '\u{3b1}', '\u{313}', '\u{342}', '\u{0}')),
        0x1F07 => Some((3, '\u{3b1}', '\u{314}', '\u{342}', '\u{0}')),
        0x1F08 => Some((2, '\u{391}', '\u{313}', '\u{0}', '\u{0}')),
        0x1F09 => Some((2, '\u{391}', '\u{314}', '\u{0}', '\u{0}')),
        0x1F0A => Some((3, '\u{391}', '\u{313}', '\u{300}', '\u{0}')),
        0x1F0B => Some((3, '\u{391}', '\u{314}', '\u{300}', '\u{0}')),
        0x1F0C => Some((3, '\u{391}', '\u{313}', '\u{301}', '\u{0}')),
        0x1F0D => Some((3, '\u{391}', '\u{314}', '\u{301}', '\u{0}')),
        0x1F0E => Some((3, '\u{391}', '\u{313}', '\u{342}', '\u{0}')),
        0x1F0F => Some((3, '\u{391}', '\u{314}', '\u{342}', '\u{0}')),
        0x1F10 => Some((2, '\u{3b5}', '\u{313}', '\u{0}', '\u{0}')),
        0x1F11 => Some((2, '\u{3b5}', '\u{314}', '\u{0}', '\u{0}')),
        0x1F12 => Some((3, '\u{3b5}', '\u{313}', '\u{300}', '\u{0}')),
        0x1F13 => Some((3, '\u{3b5}', '\u{314}', '\u{300}', '\u{0}')),
        0x1F14 => Some((3, '\u{3b5}', '\u{313}', '\u{301}', '\u{0}')),
        0x1F15 => Some((3, '\u{3b5}', '\u{314}', '\u{301}', '\u{0}')),
        0x1F18 => Some((2, '\u{395}', '\u{313}', '\u{0}', '\u{0}')),
        0x1F19 => Some((2, '\u{395}', '\u{314}', '\u{0}', '\u{0}')),
        0x1F1A => Some((3, '\u{395}', '\u{313}', '\u{300}', '\u{0}')),
        0x1F1B => Some((3, '\u{395}', '\u{314}', '\u{300}', '\u{0}')),
        0x1F1C => Some((3, '\u{395}', '\u{313}', '\u{301}', '\u{0}')),
        0x1F1D => Some((3, '\u{395}', '\u{314}', '\u{301}', '\u{0}')),
        0x1F20 => Some((2, '\u{3b7}', '\u{313}', '\u{0}', '\u{0}')),
        0x1F21 => Some((2, '\u{3b7}', '\u{314}', '\u{0}', '\u{0}')),
        0x1F22 => Some((3, '\u{3b7}', '\u{313}', '\u{300}', '\u{0}')),
        0x1F23 => Some((3, '\u{3b7}', '\u{314}', '\u{300}', '\u{0}')),
        0x1F24 => Some((3, '\u{3b7}', '\u{313}', '\u{301}', '\u{0}')),
        0x1F25 => Some((3, '\u{3b7}', '\u{314}', '\u{301}', '\u{0}')),
        0x1F26 => Some((3, '\u{3b7}', '\u{313}', '\u{342}', '\u{0}')),
        0x1F27 => Some((3, '\u{3b7}', '\u{314}', '\u{342}', '\u{0}')),
        0x1F28 => Some((2, '\u{397}', '\u{313}', '\u{0}', '\u{0}')),
        0x1F29 => Some((2, '\u{397}', '\u{314}', '\u{0}', '\u{0}')),
        0x1F2A => Some((3, '\u{397}', '\u{313}', '\u{300}', '\u{0}')),
        0x1F2B => Some((3, '\u{397}', '\u{314}', '\u{300}', '\u{0}')),
        0x1F2C => Some((3, '\u{397}', '\u{313}', '\u{301}', '\u{0}')),
        0x1F2D => Some((3, '\u{397}', '\u{314}', '\u{301}', '\u{0}')),
        0x1F2E => Some((3, '\u{397}', '\u{313}', '\u{342}', '\u{0}')),
        0x1F2F => Some((3, '\u{397}', '\u{314}', '\u{342}', '\u{0}')),
        0x1F30 => Some((2, '\u{3b9}', '\u{313}', '\u{0}', '\u{0}')),
        0x1F31 => Some((2, '\u{3b9}', '\u{314}', '\u{0}', '\u{0}')),
        0x1F32 => Some((3, '\u{3b9}', '\u{313}', '\u{300}', '\u{0}')),
        0x1F33 => Some((3, '\u{3b9}', '\u{314}', '\u{300}', '\u{0}')),
        0x1F34 => Some((3, '\u{3b9}', '\u{313}', '\u{301}', '\u{0}')),
        0x1F35 => Some((3, '\u{3b9}', '\u{314}', '\u{301}', '\u{0}')),
        0x1F36 => Some((3, '\u{3b9}', '\u{313}', '\u{342}', '\u{0}')),
        0x1F37 => Some((3, '\u{3b9}', '\u{314}', '\u{342}', '\u{0}')),
        0x1F38 => Some((2, '\u{399}', '\u{313}', '\u{0}', '\u{0}')),
        0x1F39 => Some((2, '\u{399}', '\u{314}', '\u{0}', '\u{0}')),
        0x1F3A => Some((3, '\u{399}', '\u{313}', '\u{300}', '\u{0}')),
        0x1F3B => Some((3, '\u{399}', '\u{314}', '\u{300}', '\u{0}')),
        0x1F3C => Some((3, '\u{399}', '\u{313}', '\u{301}', '\u{0}')),
        0x1F3D => Some((3, '\u{399}', '\u{314}', '\u{301}', '\u{0}')),
        0x1F3E => Some((3, '\u{399}', '\u{313}', '\u{342}', '\u{0}')),
        0x1F3F => Some((3, '\u{399}', '\u{314}', '\u{342}', '\u{0}')),
        0x1F40 => Some((2, '\u{3bf}', '\u{313}', '\u{0}', '\u{0}')),
        0x1F41 => Some((2, '\u{3bf}', '\u{314}', '\u{0}', '\u{0}')),
        0x1F42 => Some((3, '\u{3bf}', '\u{313}', '\u{300}', '\u{0}')),
        0x1F43 => Some((3, '\u{3bf}', '\u{314}', '\u{300}', '\u{0}')),
        0x1F44 => Some((3, '\u{3bf}', '\u{313}', '\u{301}', '\u{0}')),
        0x1F45 => Some((3, '\u{3bf}', '\u{314}', '\u{301}', '\u{0}')),
        0x1F48 => Some((2, '\u{39f}', '\u{313}', '\u{0}', '\u{0}')),
        0x1F49 => Some((2, '\u{39f}', '\u{314}', '\u{0}', '\u{0}')),
        0x1F4A => Some((3, '\u{39f}', '\u{313}', '\u{300}', '\u{0}')),
        0x1F4B => Some((3, '\u{39f}', '\u{314}', '\u{300}', '\u{0}')),
        0x1F4C => Some((3, '\u{39f}', '\u{313}', '\u{301}', '\u{0}')),
        0x1F4D => Some((3, '\u{39f}', '\u{314}', '\u{301}', '\u{0}')),
        0x1F50 => Some((2, '\u{3c5}', '\u{313}', '\u{0}', '\u{0}')),
        0x1F51 => Some((2, '\u{3c5}', '\u{314}', '\u{0}', '\u{0}')),
        0x1F52 => Some((3, '\u{3c5}', '\u{313}', '\u{300}', '\u{0}')),
        0x1F53 => Some((3, '\u{3c5}', '\u{314}', '\u{300}', '\u{0}')),
        0x1F54 => Some((3, '\u{3c5}', '\u{313}', '\u{301}', '\u{0}')),
        0x1F55 => Some((3, '\u{3c5}', '\u{314}', '\u{301}', '\u{0}')),
        0x1F56 => Some((3, '\u{3c5}', '\u{313}', '\u{342}', '\u{0}')),
        0x1F57 => Some((3, '\u{3c5}', '\u{314}', '\u{342}', '\u{0}')),
        0x1F59 => Some((2, '\u{3a5}', '\u{314}', '\u{0}', '\u{0}')),
        0x1F5B => Some((3, '\u{3a5}', '\u{314}', '\u{300}', '\u{0}')),
        0x1F5D => Some((3, '\u{3a5}', '\u{314}', '\u{301}', '\u{0}')),
        0x1F5F => Some((3, '\u{3a5}', '\u{314}', '\u{342}', '\u{0}')),
        0x1F60 => Some((2, '\u{3c9}', '\u{313}', '\u{0}', '\u{0}')),
        0x1F61 => Some((2, '\u{3c9}', '\u{314}', '\u{0}', '\u{0}')),
        0x1F62 => Some((3, '\u{3c9}', '\u{313}', '\u{300}', '\u{0}')),
        0x1F63 => Some((3, '\u{3c9}', '\u{314}', '\u{300}', '\u{0}')),
        0x1F64 => Some((3, '\u{3c9}', '\u{313}', '\u{301}', '\u{0}')),
        0x1F65 => Some((3, '\u{3c9}', '\u{314}', '\u{301}', '\u{0}')),
        0x1F66 => Some((3, '\u{3c9}', '\u{313}', '\u{342}', '\u{0}')),
        0x1F67 => Some((3, '\u{3c9}', '\u{314}', '\u{342}', '\u{0}')),
        0x1F68 => Some((2, '\u{3a9}', '\u{313}', '\u{0}', '\u{0}')),
        0x1F69 => Some((2, '\u{3a9}', '\u{314}', '\u{0}', '\u{0}')),
        0x1F6A => Some((3, '\u{3a9}', '\u{313}', '\u{300}', '\u{0}')),
        0x1F6B => Some((3, '\u{3a9}', '\u{314}', '\u{300}', '\u{0}')),
        0x1F6C => Some((3, '\u{3a9}', '\u{313}', '\u{301}', '\u{0}')),
        0x1F6D => Some((3, '\u{3a9}', '\u{314}', '\u{301}', '\u{0}')),
        0x1F6E => Some((3, '\u{3a9}', '\u{313}', '\u{342}', '\u{0}')),
        0x1F6F => Some((3, '\u{3a9}', '\u{314}', '\u{342}', '\u{0}')),
        0x1F70 => Some((2, '\u{3b1}', '\u{300}', '\u{0}', '\u{0}')),
        0x1F71 => Some((2, '\u{3b1}', '\u{301}', '\u{0}', '\u{0}')),
        0x1F72 => Some((2, '\u{3b5}', '\u{300}', '\u{0}', '\u{0}')),
        0x1F73 => Some((2, '\u{3b5}', '\u{301}', '\u{0}', '\u{0}')),
        0x1F74 => Some((2, '\u{3b7}', '\u{300}', '\u{0}', '\u{0}')),
        0x1F75 => Some((2, '\u{3b7}', '\u{301}', '\u{0}', '\u{0}')),
        0x1F76 => Some((2, '\u{3b9}', '\u{300}', '\u{0}', '\u{0}')),
        0x1F77 => Some((2, '\u{3b9}', '\u{301}', '\u{0}', '\u{0}')),
        0x1F78 => Some((2, '\u{3bf}', '\u{300}', '\u{0}', '\u{0}')),
        0x1F79 => Some((2, '\u{3bf}', '\u{301}', '\u{0}', '\u{0}')),
        0x1F7A => Some((2, '\u{3c5}', '\u{300}', '\u{0}', '\u{0}')),
        0x1F7B => Some((2, '\u{3c5}', '\u{301}', '\u{0}', '\u{0}')),
        0x1F7C => Some((2, '\u{3c9}', '\u{300}', '\u{0}', '\u{0}')),
        0x1F7D => Some((2, '\u{3c9}', '\u{301}', '\u{0}', '\u{0}')),
        0x1F80 => Some((3, '\u{3b1}', '\u{313}', '\u{345}', '\u{0}')),
        0x1F81 => Some((3, '\u{3b1}', '\u{314}', '\u{345}', '\u{0}')),
        0x1F82 => Some((4, '\u{3b1}', '\u{313}', '\u{300}', '\u{345}')),
        0x1F83 => Some((4, '\u{3b1}', '\u{314}', '\u{300}', '\u{345}')),
        0x1F84 => Some((4, '\u{3b1}', '\u{313}', '\u{301}', '\u{345}')),
        0x1F85 => Some((4, '\u{3b1}', '\u{314}', '\u{301}', '\u{345}')),
        0x1F86 => Some((4, '\u{3b1}', '\u{313}', '\u{342}', '\u{345}')),
        0x1F87 => Some((4, '\u{3b1}', '\u{314}', '\u{342}', '\u{345}')),
        0x1F88 => Some((3, '\u{391}', '\u{313}', '\u{345}', '\u{0}')),
        0x1F89 => Some((3, '\u{391}', '\u{314}', '\u{345}', '\u{0}')),
        0x1F8A => Some((4, '\u{391}', '\u{313}', '\u{300}', '\u{345}')),
        0x1F8B => Some((4, '\u{391}', '\u{314}', '\u{300}', '\u{345}')),
        0x1F8C => Some((4, '\u{391}', '\u{313}', '\u{301}', '\u{345}')),
        0x1F8D => Some((4, '\u{391}', '\u{314}', '\u{301}', '\u{345}')),
        0x1F8E => Some((4, '\u{391}', '\u{313}', '\u{342}', '\u{345}')),
        0x1F8F => Some((4, '\u{391}', '\u{314}', '\u{342}', '\u{345}')),
        0x1F90 => Some((3, '\u{3b7}', '\u{313}', '\u{345}', '\u{0}')),
        0x1F91 => Some((3, '\u{3b7}', '\u{314}', '\u{345}', '\u{0}')),
        0x1F92 => Some((4, '\u{3b7}', '\u{313}', '\u{300}', '\u{345}')),
        0x1F93 => Some((4, '\u{3b7}', '\u{314}', '\u{300}', '\u{345}')),
        0x1F94 => Some((4, '\u{3b7}', '\u{313}', '\u{301}', '\u{345}')),
        0x1F95 => Some((4, '\u{3b7}', '\u{314}', '\u{301}', '\u{345}')),
        0x1F96 => Some((4, '\u{3b7}', '\u{313}', '\u{342}', '\u{345}')),
        0x1F97 => Some((4, '\u{3b7}', '\u{314}', '\u{342}', '\u{345}')),
        0x1F98 => Some((3, '\u{397}', '\u{313}', '\u{345}', '\u{0}')),
        0x1F99 => Some((3, '\u{397}', '\u{314}', '\u{345}', '\u{0}')),
        0x1F9A => Some((4, '\u{397}', '\u{313}', '\u{300}', '\u{345}')),
        0x1F9B => Some((4, '\u{397}', '\u{314}', '\u{300}', '\u{345}')),
        0x1F9C => Some((4, '\u{397}', '\u{313}', '\u{301}', '\u{345}')),
        0x1F9D => Some((4, '\u{397}', '\u{314}', '\u{301}', '\u{345}')),
        0x1F9E => Some((4, '\u{397}', '\u{313}', '\u{342}', '\u{345}')),
        0x1F9F => Some((4, '\u{397}', '\u{314}', '\u{342}', '\u{345}')),
        0x1FA0 => Some((3, '\u{3c9}', '\u{313}', '\u{345}', '\u{0}')),
        0x1FA1 => Some((3, '\u{3c9}', '\u{314}', '\u{345}', '\u{0}')),
        0x1FA2 => Some((4, '\u{3c9}', '\u{313}', '\u{300}', '\u{345}')),
        0x1FA3 => Some((4, '\u{3c9}', '\u{314}', '\u{300}', '\u{345}')),
        0x1FA4 => Some((4, '\u{3c9}', '\u{313}', '\u{301}', '\u{345}')),
        0x1FA5 => Some((4, '\u{3c9}', '\u{314}', '\u{301}', '\u{345}')),
        0x1FA6 => Some((4, '\u{3c9}', '\u{313}', '\u{342}', '\u{345}')),
        0x1FA7 => Some((4, '\u{3c9}', '\u{314}', '\u{342}', '\u{345}')),
        0x1FA8 => Some((3, '\u{3a9}', '\u{313}', '\u{345}', '\u{0}')),
        0x1FA9 => Some((3, '\u{3a9}', '\u{314}', '\u{345}', '\u{0}')),
        0x1FAA => Some((4, '\u{3a9}', '\u{313}', '\u{300}', '\u{345}')),
        0x1FAB => Some((4, '\u{3a9}', '\u{314}', '\u{300}', '\u{345}')),
        0x1FAC => Some((4, '\u{3a9}', '\u{313}', '\u{301}', '\u{345}')),
        0x1FAD => Some((4, '\u{3a9}', '\u{314}', '\u{301}', '\u{345}')),
        0x1FAE => Some((4, '\u{3a9}', '\u{313}', '\u{342}', '\u{345}')),
        0x1FAF => Some((4, '\u{3a9}', '\u{314}', '\u{342}', '\u{345}')),
        0x1FB0 => Some((2, '\u{3b1}', '\u{306}', '\u{0}', '\u{0}')),
        0x1FB1 => Some((2, '\u{3b1}', '\u{304}', '\u{0}', '\u{0}')),
        0x1FB2 => Some((3, '\u{3b1}', '\u{300}', '\u{345}', '\u{0}')),
        0x1FB3 => Some((2, '\u{3b1}', '\u{345}', '\u{0}', '\u{0}')),
        0x1FB4 => Some((3, '\u{3b1}', '\u{301}', '\u{345}', '\u{0}')),
        0x1FB6 => Some((2, '\u{3b1}', '\u{342}', '\u{0}', '\u{0}')),
        0x1FB7 => Some((3, '\u{3b1}', '\u{342}', '\u{345}', '\u{0}')),
        0x1FB8 => Some((2, '\u{391}', '\u{306}', '\u{0}', '\u{0}')),
        0x1FB9 => Some((2, '\u{391}', '\u{304}', '\u{0}', '\u{0}')),
        0x1FBA => Some((2, '\u{391}', '\u{300}', '\u{0}', '\u{0}')),
        0x1FBB => Some((2, '\u{391}', '\u{301}', '\u{0}', '\u{0}')),
        0x1FBC => Some((2, '\u{391}', '\u{345}', '\u{0}', '\u{0}')),
        0x1FBE => Some((1, '\u{3b9}', '\u{0}', '\u{0}', '\u{0}')),
        0x1FC1 => Some((2, '\u{a8}', '\u{342}', '\u{0}', '\u{0}')),
        0x1FC2 => Some((3, '\u{3b7}', '\u{300}', '\u{345}', '\u{0}')),
        0x1FC3 => Some((2, '\u{3b7}', '\u{345}', '\u{0}', '\u{0}')),
        0x1FC4 => Some((3, '\u{3b7}', '\u{301}', '\u{345}', '\u{0}')),
        0x1FC6 => Some((2, '\u{3b7}', '\u{342}', '\u{0}', '\u{0}')),
        0x1FC7 => Some((3, '\u{3b7}', '\u{342}', '\u{345}', '\u{0}')),
        0x1FC8 => Some((2, '\u{395}', '\u{300}', '\u{0}', '\u{0}')),
        0x1FC9 => Some((2, '\u{395}', '\u{301}', '\u{0}', '\u{0}')),
        0x1FCA => Some((2, '\u{397}', '\u{300}', '\u{0}', '\u{0}')),
        0x1FCB => Some((2, '\u{397}', '\u{301}', '\u{0}', '\u{0}')),
        0x1FCC => Some((2, '\u{397}', '\u{345}', '\u{0}', '\u{0}')),
        0x1FCD => Some((2, '\u{1fbf}', '\u{300}', '\u{0}', '\u{0}')),
        0x1FCE => Some((2, '\u{1fbf}', '\u{301}', '\u{0}', '\u{0}')),
        0x1FCF => Some((2, '\u{1fbf}', '\u{342}', '\u{0}', '\u{0}')),
        0x1FD0 => Some((2, '\u{3b9}', '\u{306}', '\u{0}', '\u{0}')),
        0x1FD1 => Some((2, '\u{3b9}', '\u{304}', '\u{0}', '\u{0}')),
        0x1FD2 => Some((3, '\u{3b9}', '\u{308}', '\u{300}', '\u{0}')),
        0x1FD3 => Some((3, '\u{3b9}', '\u{308}', '\u{301}', '\u{0}')),
        0x1FD6 => Some((2, '\u{3b9}', '\u{342}', '\u{0}', '\u{0}')),
        0x1FD7 => Some((3, '\u{3b9}', '\u{308}', '\u{342}', '\u{0}')),
        0x1FD8 => Some((2, '\u{399}', '\u{306}', '\u{0}', '\u{0}')),
        0x1FD9 => Some((2, '\u{399}', '\u{304}', '\u{0}', '\u{0}')),
        0x1FDA => Some((2, '\u{399}', '\u{300}', '\u{0}', '\u{0}')),
        0x1FDB => Some((2, '\u{399}', '\u{301}', '\u{0}', '\u{0}')),
        0x1FDD => Some((2, '\u{1ffe}', '\u{300}', '\u{0}', '\u{0}')),
        0x1FDE => Some((2, '\u{1ffe}', '\u{301}', '\u{0}', '\u{0}')),
        0x1FDF => Some((2, '\u{1ffe}', '\u{342}', '\u{0}', '\u{0}')),
        0x1FE0 => Some((2, '\u{3c5}', '\u{306}', '\u{0}', '\u{0}')),
        0x1FE1 => Some((2, '\u{3c5}', '\u{304}', '\u{0}', '\u{0}')),
        0x1FE2 => Some((3, '\u{3c5}', '\u{308}', '\u{300}', '\u{0}')),
        0x1FE3 => Some((3, '\u{3c5}', '\u{308}', '\u{301}', '\u{0}')),
        0x1FE4 => Some((2, '\u{3c1}', '\u{313}', '\u{0}', '\u{0}')),
        0x1FE5 => Some((2, '\u{3c1}', '\u{314}', '\u{0}', '\u{0}')),
        0x1FE6 => Some((2, '\u{3c5}', '\u{342}', '\u{0}', '\u{0}')),
        0x1FE7 => Some((3, '\u{3c5}', '\u{308}', '\u{342}', '\u{0}')),
        0x1FE8 => Some((2, '\u{3a5}', '\u{306}', '\u{0}', '\u{0}')),
        0x1FE9 => Some((2, '\u{3a5}', '\u{304}', '\u{0}', '\u{0}')),
        0x1FEA => Some((2, '\u{3a5}', '\u{300}', '\u{0}', '\u{0}')),
        0x1FEB => Some((2, '\u{3a5}', '\u{301}', '\u{0}', '\u{0}')),
        0x1FEC => Some((2, '\u{3a1}', '\u{314}', '\u{0}', '\u{0}')),
        0x1FED => Some((2, '\u{a8}', '\u{300}', '\u{0}', '\u{0}')),
        0x1FEE => Some((2, '\u{a8}', '\u{301}', '\u{0}', '\u{0}')),
        0x1FEF => Some((1, '`', '\u{0}', '\u{0}', '\u{0}')),
        0x1FF2 => Some((3, '\u{3c9}', '\u{300}', '\u{345}', '\u{0}')),
        0x1FF3 => Some((2, '\u{3c9}', '\u{345}', '\u{0}', '\u{0}')),
        0x1FF4 => Some((3, '\u{3c9}', '\u{301}', '\u{345}', '\u{0}')),
        0x1FF6 => Some((2, '\u{3c9}', '\u{342}', '\u{0}', '\u{0}')),
        0x1FF7 => Some((3, '\u{3c9}', '\u{342}', '\u{345}', '\u{0}')),
        0x1FF8 => Some((2, '\u{39f}', '\u{300}', '\u{0}', '\u{0}')),
        0x1FF9 => Some((2, '\u{39f}', '\u{301}', '\u{0}', '\u{0}')),
        0x1FFA => Some((2, '\u{3a9}', '\u{300}', '\u{0}', '\u{0}')),
        0x1FFB => Some((2, '\u{3a9}', '\u{301}', '\u{0}', '\u{0}')),
        0x1FFC => Some((2, '\u{3a9}', '\u{345}', '\u{0}', '\u{0}')),
        0x1FFD => Some((1, '\u{b4}', '\u{0}', '\u{0}', '\u{0}')),
        _ => None,
    }
}

/// The canonical decompositions of the characters U+2000 to U+2FFF, as
/// (length, characters padded with U+0000).
pub open spec fn decomposition_2(u: u32) -> Option<(u8, char, char, char, char)> {
    match u {
        0x2000 => Some((1, '\u{2002}', '\u{0}', '\u{0}', '\u{0}')),
        0x2001 => Some((1, '\u{2003}', '\u{0}', '\u{0}', '\u{0}')),
        0x2126 => Some((1, '\u{3a9}', '\u{0}', '\u{0}', '\u{0}')),
        0x212A => Some((1, 'K', '\u{0}', '\u{0}', '\u{0}')),
        0x212B => Some((2, 'A', '\u{30a}', '\u{0}', '\u{0}')),
        0x219A => Some((2, '\u{2190}', '\u{338}', '\u{0}', '\u{0}')),
        0x219B => Some((2, '\u{2192}', '\u{338}', '\u{0}', '\u{0}')),
        0x21AE => Some((2, '\u{2194}', '\u{338}', '\u{0}', '\u{0}')),
        0x21CD => Some((2, '\u{21d0}', '\u{338}', '\u{0}', '\u{0}')),
        0x21CE => Some((2, '\u{21d4}', '\u{338}', '\u{0}', '\u{0}')),
        0x21CF => Some((2, '\u{21d2}', '\u{338}', '\u{0}', '\u{0}')),
        0x2204 => Some((2, '\u{2203}', '\u{338}', '\u{0}', '\u{0}')),
        0x2209 => Some((2, '\u{2208}', '\u{338}', '\u{0}', '\u{0}')),
        0x220C => Some((2, '\u{220b}', '\u{338}', '\u{0}', '\u{0}')),
        0x2224 => Some((2, '\u{2223}', '\u{338}', '\u{0}', '\u{0}')),
        0x2226 => Some((2, '\u{2225}', '\u{338}', '\u{0}', '\u{0}')),
        0x2241 => Some((2, '\u{223c}', '\u{338}', '\u{0}', '\u{0}')),
        0x2244 => Some((2, '\u{2243}', '\u{338}', '\u{0}', '\u{0}')),
        0x2247 => Some((2, '\u{2245}', '\u{338}', '\u{0}', '\u{0}')),
        0x2249 => Some((2, '\u{2248}', '\u{338}', '\u{0}', '\u{0}')),
        0x2260 => Some((2, '=', '\u{338}', '\u{0}', '\u{0}')),
        0x2262 => Some((2, '\u{2261}', '\u{338}', '\u{0}', '\u{0}')),
        0x226D => Some((2, '\u{224d}', '\u{338}', '\u{0}', '\u{0}')),
        0x226E => Some((2, '<', '\u{338}', '\u{0}', '\u{0}')),
        0x226F => Some((2, '>', '\u{338}', '\u{0}', '\u{0}')),
        0x2270 => Some((2, '\u{2264}', '\u{338}', '\u{0}', '\u{0}')),
        0x2271 => Some((2, '\u{2265}', '\u{338}', '\u{0}', '\u{0}')),
        0x2274 => Some((2, '\u{2272}', '\u{338}', '\u{0}', '\u{0}')),
        0x2275 => Some((2, '\u{2273}', '\u{338}', '\u{0}', '\u{0}')),
        0x2278 => Some((2, '\u{2276}', '\u{338}', '\u{0}', '\u{0}')),
        0x2279 => Some((2, '\u{2277}', '\u{338}', '\u{0}', '\u{0}')),
        0x2280 => Some((2, '\u{227a}', '\u{338}', '\u{0}', '\u{0}')),
        0x2281 => Some((2, '\u{227b}', '\u{338}', '\u{0}', '\u{0}')),
        0x2284 => Some((2, '\u{2282}', '\u{338}', '\u{0}', '\u{0}')),
        0x2285 => Some((2, '\u{2283}', '\u{338}', '\u{0}', '\u{0}')),
        0x2288 => Some((2, '\u{2286}', '\u{338}', '\u{0}', '\u{0}')),
        0x2289 => Some((2, '\u{2287}', '\u{338}', '\u{0}', '\u{0}')),
        0x22AC => Some((2, '\u{22a2}', '\u{338}', '\u{0}', '\u{0}')),
        0x22AD => Some((2, '\u{22a8}', '\u{338}', '\u{0}', '\u{0}')),
        0x22AE => Some((2, '\u{22a9}', '\u{338}', '\u{0}', '\u{0}')),
        0x22AF => Some((2, '\u{22ab}', '\u{338}', '\u{0}', '\u{0}')),
        0x22E0 => Some((2, '\u{227c}', '\u{338}', '\u{0}', '\u{0}')),
        0x22E1 => Some((2, '\u{227d}', '\u{338}', '\u{0}', '\u{0}')),
        0x22E2 => Some((2, '\u{2291}', '\u{338}', '\u{0}', '\u{0}')),
        0x22E3 => Some((2, '\u{2292}', '\u{338}', '\u{0}', '\u{0}')),
        0x22EA => Some((2, '\u{22b2}', '\u{338}', '\u{0}', '\u{0}')),
        0x22EB => Some((2, '\u{22b3}', '\u{338}', '\u{0}', '\u{0}')),
        0x22EC => Some((2, '\u{22b4}', '\u{338}', '\u{0}', '\u{0}')),
        0x22ED => Some((2, '\u{22b5}', '\u{338}', '\u{0}', '\u{0}')),
        0x2329 => Some((1, '\u{3008}', '\u{0}', '\u{0}', '\u{0}')),
        0x232A => Some((1, '\u{3009}', '\u{0}', '\u{0}', '\u{0}')),
        0x2ADC => Some((2, '\u{2add}', '\u{338}', '\u{0}', '\u{0}')),
        _ => None,
    }
}

fn decomposition_2_of(u: u32) -> (r: Option<(u8, char, char, char, char)>)
    ensures
        r == decomposition_2(u),
{
    match u {
        0x2000 => Some((1, '\u{2002}', '\u{0}', '\u{0}', '\u{0}')),
        0x2001 => Some((1, '\u{2003}', '\u{0}', '\u{0}', '\u{0}')),
        0x2126 => Some((1, '\u{3a9}', '\u{0}', '\u{0}', '\u{0}')),
        0x212A => Some((1, 'K', '\u{0}', '\u{0}', '\u{0}')),
        0x212B => Some((2, 'A', '\u{30a}', '\u{0}', '\u{0}')),
        0x219A => Some((2, '\u{2190}', '\u{338}', '\u{0}', '\u{0}')),
        0x219B => Some((2, '\u{2192}', '\u{338}', '\u{0}', '\u{0}')),
        0x21AE => Some((2, '\u{2194}', '\u{338}', '\u{0}', '\u{0}')),
        0x21CD => Some((2, '\u{21d0}', '\u{338}', '\u{0}', '\u{0}')),
        0x21CE => Some((2, '\u{21d4}', '\u{338}', '\u{0}', '\u{0}')),
        0x21CF => Some((2, '\u{21d2}', '\u{338}', '\u{0}', '\u{0}')),
        0x2204 => Some((2, '\u{2203}', '\u{338}', '\u{0}', '\u{0}')),
        0x2209 => Some((2, '\u{2208}', '\u{338}', '\u{0}', '\u{0}')),
        0x220C => Some((2, '\u{220b}', '\u{338}', '\u{0}', '\u{0}')),
        0x2224 => Some((2, '\u{2223}', '\u{338}', '\u{0}', '\u{0}')),
        0x2226 => Some((2, '\u{2225}', '\u{338}', '\u{0}', '\u{0}')),
        0x2241 => Some((2, '\u{223c}', '\u{338}', '\u{0}', '\u{0}')),
        0x2244 => Some((2, '\u{2243}', '\u{338}', '\u{0}', '\u{0}')),
        0x2247 => Some((2, '\u{2245}', '\u{338}', '\u{0}', '\u{0}')),
        0x2249 => Some((2, '\u{2248}', '\u{338}', '\u{0}', '\u{0}')),
        0x2260 => Some((2, '=', '\u{338}', '\u{0}', '\u{0}')),
        0x2262 => Some((2, '\u{2261}', '\u{338}', '\u{0}', '\u{0}')),
        0x226D => Some((2, '\u{224d}', '\u{338}', '\u{0}', '\u{0}')),
        0x226E => Some((2, '<', '\u{338}', '\u{0}', '\u{0}')),
        0x226F => Some((2, '>', '\u{338}', '\u{0}', '\u{0}')),
        0x2270 => Some((2, '\u{2264}', '\u{338}', '\u{0}', '\u{0}')),
        0x2271 => Some((2, '\u{2265}', '\u{338}', '\u{0}', '\u{0}')),
        0x2274 => Some((2, '\u{2272}', '\u{338}', '\u{0}', '\u{0}')),
        0x2275 => Some((2, '\u{2273}', '\u{338}', '\u{0}', '\u{0}')),
        0x2278 => Some((2, '\u{2276}', '\u{338}', '\u{0}', '\u{0}')),
        0x2279 => Some((2, '\u{2277}', '\u{338}', '\u{0}', '\u{0}')),
        0x2280 => Some((2, '\u{227a}', '\u{338}', '\u{0}', '\u{0}')),
        0x2281 => Some((2, '\u{227b}', '\u{338}', '\u{0}', '\u{0}')),
        0x2284 => Some((2, '\u{2282}', '\u{338}', '\u{0}', '\u{0}')),
        0x2285 => Some((2, '\u{2283}', '\u{338}', '\u{0}', '\u{0}')),
        0x2288 => Some((2, '\u{2286}', '\u{338}', '\u{0}', '\u{0}')),
        0x2289 => Some((2, '\u{2287}', '\u{338}', '\u{0}', '\u{0}')),
        0x22AC => Some((2, '\u{22a2}', '\u{338}', '\u{0}', '\u{0}')),
        0x22AD => Some((2, '\u{22a8}', '\u{338}', '\u{0}', '\u{0}')),
        0x22AE => Some((2, '\u{22a9}', '\u{338}', '\u{0}', '\u{0}')),
        0x22AF => Some((2, '\u{22ab}', '\u{338}', '\u{0}', '\u{0}')),
        0x22E0 => Some((2, '\u{227c}', '\u{338}', '\u{0}', '\u{0}')),
        0x22E1 => Some((2, '\u{227d}', '\u{338}', '\u{0}', '\u{0}')),
        0x22E2 => Some((2, '\u{2291}', '\u{338}', '\u{0}', '\u{0}')),
        0x22E3 => Some((2, '\u{2292}', '\u{338}', '\u{0}', '\u{0}')),
        0x22EA => Some((2, '\u{22b2}', '\u{338}', '\u{0}', '\u{0}')),
        0x22EB => Some((2, '\u{22b3}', '\u{338}', '\u{0}', '\u{0}')),
        0x22EC => Some((2, '\u{22b4}', '\u{338}', '\u{0}', '\u{0}')),
        0x22ED => Some((2, '\u{22b5}', '\u{338}', '\u{0}', '\u{0}')),
        0x2329 => Some((1, '\u{3008}', '\u{0}', '\u{0}', '\u{0}')),
        0x232A => Some((1, '\u{3009}', '\u{0}', '\u{0}', '\u{0}')),
        0x2ADC => Some((2, '\u{2add}', '\u{338}', '\u{0}', '\u{0}')),
        _ => None,
    }
}

/// The canonical decompositions of the characters U+3000 to U+3FFF, as
/// (length, characters padded with U+0000).
pub open spec fn decomposition_3(u: u32) -> Option<(u8, char, char, char, char)> {
    match u {
        0x304C => Some((2, '\u{304b}', '\u{3099}', '\u{0}', '\u{0}')),
        0x304E => Some((2, '\u{304d}', '\u{3099}', '\u{0}', '\u{0}')),
        0x3050 => Some((2, '\u{304f}', '\u{3099}', '\u{0}', '\u{0}')),
        0x3052 => Some((2, '\u{3051}', '\u{3099}', '\u{0}', '\u{0}')),
        0x3054 => Some((2, '\u{3053}', '\u{3099}', '\u{0}', '\u{0}')),
        0x3056 => Some((2, '\u{3055}', '\u{3099}', '\u{0}', '\u{0}')),
        0x3058 => Some((2, '\u{3057}', '\u{3099}', '\u{0}', '\u{0}')),
        0x305A => Some((2, '\u{3059}', '\u{3099}', '\u{0}', '\u{0}')),
        0x305C => Some((2, '\u{305b}', '\u{3099}', '\u{0}', '\u{0}')),
        0x305E => Some((2, '\u{305d}', '\u{3099}', '\u{0}', '\u{0}')),
        0x3060 => Some((2, '\u{305f}', '\u{3099}', '\u{0}', '\u{0}')),
        0x3062 => Some((2, '\u{3061}', '\u{3099}', '\u{0}', '\u{0}')),
        0x3065 => Some((2, '\u{3064}', '\u{3099}', '\u{0}', '\u{0}')),
        0x3067 => Some((2, '\u{3066}', '\u{3099}', '\u{0}', '\u{0}')),
        0x3069 => Some((2, '\u{3068}', '\u{3099}', '\u{0}', '\u{0}')),
        0x3070 => Some((2, '\u{306f}', '\u{3099}', '\u{0}', '\u{0}')),
        0x3071 => Some((2, '\u{306f}', '\u{309a}', '\u{0}', '\u{0}')),
        0x3073 => Some((2, '\u{3072}', '\u{3099}', '\u{0}', '\u{0}')),
        0x3074 => Some((2, '\u{3072}', '\u{309a}', '\u{0}', '\u{0}')),
        0x3076 => Some((2, '\u{3075}', '\u{3099}', '\u{0}', '\u{0}')),
        0x3077 => Some((2, '\u{3075}', '\u{309a}', '\u{0}', '\u{0}')),
        0x3079 => Some((2, '\u{3078}', '\u{3099}', '\u{0}', '\u{0}')),
        0x307A => Some((2, '\u{3078}', '\u{309a}', '\u{0}', '\u{0}')),
        0x307C => Some((2, '\u{307b}', '\u{3099}', '\u{0}', '\u{0}')),
        0x307D => Some((2, '\u{307b}', '\u{309a}', '\u{0}', '\u{0}')),
        0x3094 => Some((2, '\u{3046}', '\u{3099}', '\u{0}', '\u{0}')),
        0x309E => Some((2, '\u{309d}', '\u{3099}', '\u{0}', '\u{0}')),
        0x30AC => Some((2, '\u{30ab}', '\u{3099}', '\u{0}', '\u{0}')),
        0x30AE => Some((2, '\u{30ad}', '\u{3099}', '\u{0}', '\u{0}')),
        0x30B0 => Some((2, '\u{30af}', '\u{3099}', '\u{0}', '\u{0}')),
        0x30B2 => Some((2, '\u{30b1}', '\u{3099}', '\u{0}', '\u{0}')),
        0x30B4 => Some((2, '\u{30b3}', '\u{3099}', '\u{0}', '\u{0}')),
        0x30B6 => Some((2, '\u{30b5}', '\u{3099}', '\u{0}', '\u{0}')),
        0x30B8 => Some((2, '\u{30b7}', '\u{3099}', '\u{0}', '\u{0}')),
        0x30BA => Some((2, '\u{30b9}', '\u{3099}', '\u{0}', '\u{0}')),
        0x30BC => Some((2, '\u{30bb}', '\u{3099}', '\u{0}', '\u{0}')),
        0x30BE => Some((2, '\u{30bd}', '\u{3099}', '\u{0}', '\u{0}')),
        0x30C0 => Some((2, '\u{30bf}', '\u{3099}', '\u{0}', '\u{0}')),
        0x30C2 => Some((2, '\u{30c1}', '\u{3099}', '\u{0}', '\u{0}')),
        0x30C5 => Some((2, '\u{30c4}', '\u{3099}', '\u{0}', '\u{0}')),
        0x30C7 => Some((2, '\u{30c6}', '\u{3099}', '\u{0}', '\u{0}')),
        0x30C9 => Some((2, '\u{30c8}', '\u{3099}', '\u{0}', '\u{0}')),
        0x30D0 => Some((2, '\u{30cf}', '\u{3099}', '\u{0}', '\u{0}')),
        0x30D1 => Some((2, '\u{30cf}', '\u{309a}', '\u{0}', '\u{0}')),
        0x30D3 => Some((2, '\u{30d2}', '\u{3099}', '\u{0}', '\u{0}')),
        0x30D4 => Some((2, '\u{30d2}', '\u{309a}', '\u{0}', '\u{0}')),
        0x30D6 => Some((2, '\u{30d5}', '\u{3099}', '\u{0}', '\u{0}')),
        0x30D7 => Some((2, '\u{30d5}', '\u{309a}', '\u{0}', '\u{0}')),
        0x30D9 => Some((2, '\u{30d8}', '\u{3099}', '\u{0}', '\u{0}')),
        0x30DA => Some((2, '\u{30d8}', '\u{309a}', '\u{0}', '\u{0}')),
        0x30DC => Some((2, '\u{30db}', '\u{3099}', '\u{0}', '\u{0}')),
        0x30DD => Some((2, '\u{30db}', '\u{309a}', '\u{0}', '\u{0}')),
        0x30F4 => Some((2, '\u{30a6}', '\u{3099}', '\u{0}', '\u{0}')),
        0x30F7 => Some((2, '\u{30ef}', '\u{3099}', '\u{0}', '\u{0}')),
        0x30F8 => Some((2, '\u{30f0}', '\u{3099}', '\u{0}', '\u{0}')),
        0x30F9 => Some((2, '\u{30f1}', '\u{3099}', '\u{0}', '\u{0}')),
        0x30FA => Some((2, '\u{30f2}', '\u{3099}', '\u{0}', '\u{0}')),
        0x30FE => Some((2, '\u{30fd}', '\u{3099}', '\u{0}', '\u{0}')),
        _ => None,
    }
}

fn decomposition_3_of(u: u32) -> (r: Option<(u8, char, char, char, char)>)
    ensures
        r == decomposition_3(u),
{
    match u {
        0x304C => Some((2, '\u{304b}', '\u{3099}', '\u{0}', '\u{0}')),
        0x304E => Some((2, '\u{304d}', '\u{3099}', '\u{0}', '\u{0}')),
        0x3050 => Some((2, '\u{304f}', '\u{3099}', '\u{0}', '\u{0}')),
        0x3052 => Some((2, '\u{3051}', '\u{3099}', '\u{0}', '\u{0}')),
        0x3054 => Some((2, '\u{3053}', '\u{3099}', '\u{0}', '\u{0}')),
        0x3056 => Some((2, '\u{3055}', '\u{3099}', '\u{0}', '\u{0}')),
        0x3058 => Some((2, '\u{3057}', '\u{3099}', '\u{0}', '\u{0}')),
        0x305A => Some((2, '\u{3059}', '\u{3099}', '\u{0}', '\u{0}')),
        0x305C => Some((2, '\u{305b}', '\u{3099}', '\u{0}', '\u{0}')),
        0x305E => Some((2, '\u{305d}', '\u{3099}', '\u{0}', '\u{0}')),
        0x3060 => Some((2, '\u{305f}', '\u{3099}', '\u{0}', '\u{0}')),
        0x3062 => Some((2, '\u{3061}', '\u{3099}', '\u{0}', '\u{0}')),
        0x3065 => Some((2, '\u{3064}', '\u{3099}', '\u{0}', '\u{0}')),
        0x3067 => Some((2, '\u{3066}', '\u{3099}', '\u{0}', '\u{0}')),
        0x3069 => Some((2, '\u{3068}', '\u{3099}', '\u{0}', '\u{0}')),
        0x3070 => Some((2, '\u{306f}', '\u{3099}', '\u{0}', '\u{0}')),
        0x3071 => Some((2, '\u{306f}', '\u{309a}', '\u{0}', '\u{0}')),
        0x3073 => Some((2, '\u{3072}', '\u{3099}', '\u{0}', '\u{0}')),
        0x3074 => Some((2, '\u{3072}', '\u{309a}', '\u{0}', '\u{0}')),
        0x3076 => Some((2, '\u{3075}', '\u{3099}', '\u{0}', '\u{0}')),
        0x3077 => Some((2, '\u{3075}', '\u{309a}', '\u{0}', '\u{0}')),
        0x3079 => Some((2, '\u{3078}', '\u{3099}', '\u{0}', '\u{0}')),
        0x307A => Some((2, '\u{3078}', '\u{309a}', '\u{0}', '\u{0}')),
        0x307C => Some((2, '\u{307b}', '\u{3099}', '\u{0}', '\u{0}')),
        0x307D => Some((2, '\u{307b}', '\u{309a}', '\u{0}', '\u{0}')),
        0x3094 => Some((2, '\u{3046}', '\u{3099}', '\u{0}', '\u{0}')),
        0x309E => Some((2, '\u{309d}', '\u{3099}', '\u{0}', '\u{0}')),
        0x30AC => Some((2, '\u{30ab}', '\u{3099}', '\u{0}', '\u{0}')),
        0x30AE => Some((2, '\u{30ad}', '\u{3099}', '\u{0}', '\u{0}')),
        0x30B0 => Some((2, '\u{30af}', '\u{3099}', '\u{0}', '\u{0}')),
        0x30B2 => Some((2, '\u{30b1}', '\u{3099}', '\u{0}', '\u{0}')),
        0x30B4 => Some((2, '\u{30b3}', '\u{3099}', '\u{0}', '\u{0}')),
        0x30B6 => Some((2, '\u{30b5}', '\u{3099}', '\u{0}', '\u{0}')),
        0x30B8 => Some((2, '\u{30b7}', '\u{3099}', '\u{0}', '\u{0}')),
        0x30BA => Some((2, '\u{30b9}', '\u{3099}', '\u{0}', '\u{0}')),
        0x30BC => Some((2, '\u{30bb}', '\u{3099}', '\u{0}', '\u{0}')),
        0x30BE => Some((2, '\u{30bd}', '\u{3099}', '\u{0}', '\u{0}')),
        0x30C0 => Some((2, '\u{30bf}', '\u{3099}', '\u{0}', '\u{0}')),
        0x30C2 => Some((2, '\u{30c1}', '\u{3099}', '\u{0}', '\u{0}')),
        0x30C5 => Some((2, '\u{30c4}', '\u{3099}', '\u{0}', '\u{0}')),
        0x30C7 => Some((2, '\u{30c6}', '\u{3099}', '\u{0}', '\u{0}')),
        0x30C9 => Some((2, '\u{30c8}', '\u{3099}', '\u{0}', '\u{0}')),
        0x30D0 => Some((2, '\u{30cf}', '\u{3099}', '\u{0}', '\u{0}')),
        0x30D1 => Some((2, '\u{30cf}', '\u{309a}', '\u{0}', '\u{0}')),
        0x30D3 => Some((2, '\u{30d2}', '\u{3099}', '\u{0}', '\u{0}')),
        0x30D4 => Some((2, '\u{30d2}', '\u{309a}', '\u{0}', '\u{0}')),
        0x30D6 => Some((2, '\u{30d5}', '\u{3099}', '\u{0}', '\u{0}')),
        0x30D7 => Some((2, '\u{30d5}', '\u{309a}', '\u{0}', '\u{0}')),
        0x30D9 => Some((2, '\u{30d8}', '\u{3099}', '\u{0}', '\u{0}')),
        0x30DA => Some((2, '\u{30d8}', '\u{309a}', '\u{0}', '\u{0}')),
        0x30DC => Some((2, '\u{30db}', '\u{3099}', '\u{0}', '\u{0}')),
        0x30DD => Some((2, '\u{30db}', '\u{309a}', '\u{0}', '\u{0}')),
        0x30F4 => Some((2, '\u{30a6}', '\u{3099}', '\u{0}', '\u{0}')),
        0x30F7 => Some((2, '\u{30ef}', '\u{3099}', '\u{0}', '\u{0}')),
        0x30F8 => Some((2, '\u{30f0}', '\u{3099}', '\u{0}', '\u{0}')),
        0x30F9 => Some((2, '\u{30f1}', '\u{3099}', '\u{0}', '\u{0}')),
        0x30FA => Some((2, '\u{30f2}', '\u{3099}', '\u{0}', '\u{0}')),
        0x30FE => Some((2, '\u{30fd}', '\u{3099}', '\u{0}', '\u{0}')),
        _ => None,
    }
}

/// The canonical decompositions of the characters U+F000 to U+FFFF, as
/// (length, characters padded with U+0000).
pub open spec fn decomposition_f(u: u32) -> Option<(u8, char, char, char, char)> {
    match u {
        0xF900 => Some((1, '\u{8c48}', '\u{0}', '\u{0}', '\u{0}')),
        0xF901 => Some((1, '\u{66f4}', '\u{0}', '\u{0}', '\u{0}')),
        0xF902 => Some((1, '\u{8eca}', '\u{0}', '\u{0}', '\u{0}')),
        0xF903 => Some((1, '\u{8cc8}', '\u{0}', '\u{0}', '\u{0}')),
        0xF904 => Some((1, '\u{6ed1}', '\u{0}', '\u{0}', '\u{0}')),
        0xF905 => Some((1, '\u{4e32}', '\u{0}', '\u{0}', '\u{0}')),
        0xF906 => Some((1, '\u{53e5}', '\u{0}', '\u{0}', '\u{0}')),
        0xF907 => Some((1, '\u{9f9c}', '\u{0}', '\u{0}', '\u{0}')),
        0xF908 => Some((1, '\u{9f9c}', '\u{0}', '\u{0}', '\u{0}')),
        0xF909 => Some((1, '\u{5951}', '\u{0}', '\u{0}', '\u{0}')),
        0xF90A => Some((1, '\u{91d1}', '\u{0}', '\u{0}', '\u{0}')),
        0xF90B => Some((1, '\u{5587}', '\u{0}', '\u{0}', '\u{0}')),
        0xF90C => Some((1, '\u{5948}', '\u{0}', '\u{0}', '\u{0}')),
        0xF90D => Some((1, '\u{61f6}', '\u{0}', '\u{0}', '\u{0}')),
        0xF90E => Some((1, '\u{7669}', '\u{0}', '\u{0}', '\u{0}')),
        0xF90F => Some((1, '\u{7f85}', '\u{0}', '\u{0}', '\u{0}')),
        0xF910 => Some((1, '\u{863f}', '\u{0}', '\u{0}', '\u{0}')),
        0xF911 => Some((1, '\u{87ba}', '\u{0}', '\u{0}', '\u{0}')),
        0xF912 => Some((1, '\u{88f8}', '\u{0}', '\u{0}', '\u{0}')),
        0xF913 => Some((1, '\u{908f}', '\u{0}', '\u{0}', '\u{0}')),
        0xF914 => Some((1, '\u{6a02}', '\u{0}', '\u{0}', '\u{0}')),
        0xF915 => Some((1, '\u{6d1b}', '\u{0}', '\u{0}', '\u{0}')),
        0xF916 => Some((1, '\u{70d9}', '\u{0}', '\u{0}', '\u{0}')),
        0xF917 => Some((1, '\u{73de}', '\u{0}', '\u{0}', '\u{0}')),
        0xF918 => Some((1, '\u{843d}', '\u{0}', '\u{0}', '\u{0}')),
        0xF919 => Some((1, '\u{916a}', '\u{0}', '\u{0}', '\u{0}')),
        0xF91A => Some((1, '\u{99f1}', '\u{0}', '\u{0}', '\u{0}')),
        0xF91B => Some((1, '\u{4e82}', '\u{0}', '\u{0}', '\u{0}')),
        0xF91C => Some((1, '\u{5375}', '\u{0}', '\u{0}', '\u{0}')),
        0xF91D => Some((1, '\u{6b04}', '\u{0}', '\u{0}', '\u{0}')),
        0xF91E => Some((1, '\u{721b}', '\u{0}', '\u{0}', '\u{0}')),
        0xF91F => Some((1, '\u{862d}', '\u{0}', '\u{0}', '\u{0}')),
        0xF920 => Some((1, '\u{9e1e}', '\u{0}', '\u{0}', '\u{0}')),
        0xF921 => Some((1, '\u{5d50}', '\u{0}', '\u{0}', '\u{0}')),
        0xF922 => Some((1, '\u{6feb}', '\u{0}', '\u{0}', '\u{0}')),
        0xF923 => Some((1, '\u{85cd}', '\u{0}', '\u{0}', '\u{0}')),
        0xF924 => Some((1, '\u{8964}', '\u{0}', '\u{0}', '\u{0}')),
        0xF925 => Some((1, '\u{62c9}', '\u{0}', '\u{0}', '\u{0}')),
        0xF926 => Some((1, '\u{81d8}', '\u{0}', '\u{0}', '\u{0}')),
        0xF927 => Some((1, '\u{881f}', '\u{0}', '\u{0}', '\u{0}')),
        0xF928 => Some((1, '\u{5eca}', '\u{0}', '\u{0}', '\u{0}')),
        0xF929 => Some((1, '\u{6717}', '\u{0}', '\u{0}', '\u{0}')),
        0xF92A => Some((1, '\u{6d6a}', '\u{0}', '\u{0}', '\u{0}')),
        0xF92B => Some((1, '\u{72fc}', '\u{0}', '\u{0}', '\u{0}')),
        0xF92C => Some((1, '\u{90ce}', '\u{0}', '\u{0}', '\u{0}')),
        0xF92D => Some((1, '\u{4f86}', '\u{0}', '\u{0}', '\u{0}')),
        0xF92E => Some((1, '\u{51b7}', '\u{0}', '\u{0}', '\u{0}')),
        0xF92F => Some((1, '\u{52de}', '\u{0}', '\u{0}', '\u{0}')),
        0xF930 => Some((1, '\u{64c4}', '\u{0}', '\u{0}', '\u{0}')),
        0xF931 => Some((1, '\u{6ad3}', '\u{0}', '\u{0}', '\u{0}')),
        0xF932 => Some((1, '\u{7210}', '\u{0}', '\u{0}', '\u{0}')),
        0xF933 => Some((1, '\u{76e7}', '\u{0}', '\u{0}', '\u{0}')),
        0xF934 => Some((1, '\u{8001}', '\u{0}', '\u{0}', '\u{0}')),
        0xF935 => Some((1, '\u{8606}', '\u{0}', '\u{0}', '\u{0}')),
        0xF936 => Some((1, '\u{865c}', '\u{0}', '\u{0}', '\u{0}')),
        0xF937 => Some((1, '\u{8def}', '\u{0}', '\u{0}', '\u{0}')),
        0xF938 => Some((1, '\u{9732}', '\u{0}', '\u{0}', '\u{0}')),
        0xF939 => Some((1, '\u{9b6f}', '\u{0}', '\u{0}', '\u{0}')),
        0xF93A => Some((1, '\u{9dfa}', '\u{0}', '\u{0}', '\u{0}')),
        0xF93B => Some((1, '\u{788c}', '\u{0}', '\u{0}', '\u{0}')),
        0xF93C => Some((1, '\u{797f}', '\u{0}', '\u{0}', '\u{0}')),
        0xF93D => Some((1, '\u{7da0}', '\u{0}', '\u{0}', '\u{0}')),
        0xF93E => Some((1, '\u{83c9}', '\u{0}', '\u{0}', '\u{0}')),
        0xF93F => Some((1, '\u{9304}', '\u{0}', '\u{0}', '\u{0}')),
        0xF940 => Some((1, '\u{9e7f}', '\u{0}', '\u{0}', '\u{0}')),
        0xF941 => Some((1, '\u{8ad6}', '\u{0}', '\u{0}', '\u{0}')),
        0xF942 => Some((1, '\u{58df}', '\u{0}', '\u{0}', '\u{0}')),
        0xF943 => Some((1, '\u{5f04}', '\u{0}', '\u{0}', '\u{0}')),
        0xF944 => Some((1, '\u{7c60}', '\u{0}', '\u{0}', '\u{0}')),
        0xF945 => Some((1, '\u{807e}', '\u{0}', '\u{0}', '\u{0}')),
        0xF946 => Some((1, '\u{7262}', '\u{0}', '\u{0}', '\u{0}')),
        0xF947 => Some((1, '\u{78ca}', '\u{0}', '\u{0}', '\u{0}')),
        0xF948 => Some((1, '\u{8cc2}', '\u{0}', '\u{0}', '\u{0}')),
        0xF949 => Some((1, '\u{96f7}', '\u{0}', '\u{0}', '\u{0}')),
        0xF94A => Some((1, '\u{58d8}', '\u{0}', '\u{0}', '\u{0}')),
        0xF94B => Some((1, '\u{5c62}', '\u{0}', '\u{0}', '\u{0}')),
        0xF94C => Some((1, '\u{6a13}', '\u{0}', '\u{0}', '\u{0}')),
        0xF94D => Some((1, '\u{6dda}', '\u{0}', '\u{0}', '\u{0}')),
        0xF94E => Some((1, '\u{6f0f}', '\u{0}', '\u{0}', '\u{0}')),
        0xF94F => Some((1, '\u{7d2f}', '\u{0}', '\u{0}', '\u{0}')),
        0xF950 => Some((1, '\u{7e37}', '\u{0}', '\u{0}', '\u{0}')),
        0xF951 => Some((1, '\u{964b}', '\u{0}', '\u{0}', '\u{0}')),
        0xF952 => Some((1, '\u{52d2}', '\u{0}', '\u{0}', '\u{0}')),
        0xF953 => Some((1, '\u{808b}', '\u{0}', '\u{0}', '\u{0}')),
        0xF954 => Some((1, '\u{51dc}', '\u{0}', '\u{0}', '\u{0}')),
        0xF955 => Some((1, '\u{51cc}', '\u{0}', '\u{0}', '\u{0}')),
        0xF956 => Some((1, '\u{7a1c}', '\u{0}', '\u{0}', '\u{0}')),
        0xF957 => Some((1, '\u{7dbe}', '\u{0}', '\u{0}', '\u{0}')),
        0xF958 => Some((1, '\u{83f1}', '\u{0}', '\u{0}', '\u{0}')),
        0xF959 => Some((1, '\u{9675}', '\u{0}', '\u{0}', '\u{0}')),
        0xF95A => Some((1, '\u{8b80}', '\u{0}', '\u{0}', '\u{0}')),
        0xF95B => Some((1, '\u{62cf}', '\u{0}', '\u{0}', '\u{0}')),
        0xF95C => Some((1, '\u{6a02}', '\u{0}', '\u{0}', '\u{0}')),
        0xF95D => Some((1, '\u{8afe}', '\u{0}', '\u{0}', '\u{0}')),
        0xF95E => Some((1, '\u{4e39}', '\u{0}', '\u{0}', '\u{0}')),
        0xF95F => Some((1, '\u{5be7}', '\u{0}', '\u{0}', '\u{0}')),
        0xF960 => Some((1, '\u{6012}', '\u{0}', '\u{0}', '\u{0}')),
        0xF961 => Some((1, '\u{7387}', '\u{0}', '\u{0}', '\u{0}')),
        0xF962 => Some((1, '\u{7570}', '\u{0}', '\u{0}', '\u{0}')),
        0xF963 => Some((1, '\u{5317}', '\u{0}', '\u{0}', '\u{0}')),
        0xF964 => Some((1, '\u{78fb}', '\u{0}', '\u{0}', '\u{0}')),
        0xF965 => Some((1, '\u{4fbf}', '\u{0}', '\u{0}', '\u{0}')),
        0xF966 => Some((1, '\u{5fa9}', '\u{0}', '\u{0}', '\u{0}')),
        0xF967 => Some((1, '\u{4e0d}', '\u{0}', '\u{0}', '\u{0}')),
        0xF968 => Some((1, '\u{6ccc}', '\u{0}', '\u{0}', '\u{0}')),
        0xF969 => Some((1, '\u{6578}', '\u{0}', '\u{0}', '\u{0}')),
        0xF96A => Some((1, '\u{7d22}', '\u{0}', '\u{0}', '\u{0}')),
        0xF96B => Some((1, '\u{53c3}', '\u{0}', '\u{0}', '\u{0}')),
        0xF96C => Some((1, '\u{585e}', '\u{0}', '\u{0}', '\u{0}')),
        0xF96D => Some((1, '\u{7701}', '\u{0}', '\u{0}', '\u{0}')),
        0xF96E => Some((1, '\u{8449}', '\u{0}', '\u{0}', '\u{0}')),
        0xF96F => Some((1, '\u{8aaa}', '\u{0}', '\u{0}', '\u{0}')),
        0xF970 => Some((1, '\u{6bba}', '\u{0}', '\u{0}', '\u{0}')),
        0xF971 => Some((1, '\u{8fb0}', '\u{0}', '\u{0}', '\u{0}')),
        0xF972 => Some((1, '\u{6c88}', '\u{0}', '\u{0}', '\u{0}')),
        0xF973 => Some((1, '\u{62fe}', '\u{0}', '\u{0}', '\u{0}')),
        0xF974 => Some((1, '\u{82e5}', '\u{0}', '\u{0}', '\u{0}')),
        0xF975 => Some((1, '\u{63a0}', '\u{0}', '\u{0}', '\u{0}')),
        0xF976 => Some((1, '\u{7565}', '\u{0}', '\u{0}', '\u{0}')),
        0xF977 => Some((1, '\u{4eae}', '\u{0}', '\u{0}', '\u{0}')),
        0xF978 => Some((1, '\u{5169}', '\u{0}', '\u{0}', '\u{0}')),
        0xF979 => Some((1, '\u{51c9}', '\u{0}', '\u{0}', '\u{0}')),
        0xF97A => Some((1, '\u{6881}', '\u{0}', '\u{0}', '\u{0}')),
        0xF97B => Some((1, '\u{7ce7}', '\u{0}', '\u{0}', '\u{0}')),
        0xF97C => Some((1, '\u{826f}', '\u{0}', '\u{0}', '\u{0}')),
        0xF97D => Some((1, '\u{8ad2}', '\u{0}', '\u{0}', '\u{0}')),
        0xF97E => Some((1, '\u{91cf}', '\u{0}', '\u{0}', '\u{0}')),
        0xF97F => Some((1, '\u{52f5}', '\u{0}', '\u{0}', '\u{0}')),
        0xF980 => Some((1, '\u{5442}', '\u{0}', '\u{0}', '\u{0}')),
        0xF981 => Some((1, '\u{5973}', '\u{0}', '\u{0}', '\u{0}')),
        0xF982 => Some((1, '\u{5eec}', '\u{0}', '\u{0}', '\u{0}')),
        0xF983 => Some((1, '\u{65c5}', '\u{0}', '\u{0}', '\u{0}')),
        0xF984 => Some((1, '\u{6ffe}', '\u{0}', '\u{0}', '\u{0}')),
        0xF985 => Some((1, '\u{792a}', '\u{0}', '\u{0}', '\u{0}')),
        0xF986 => Some((1, '\u{95ad}', '\u{0}', '\u{0}', '\u{0}')),
        0xF987 => Some((1, '\u{9a6a}', '\u{0}', '\u{0}', '\u{0}')),
        0xF988 => Some((1, '\u{9e97}', '\u{0}', '\u{0}', '\u{0}')),
        0xF989 => Some((1, '\u{9ece}', '\u{0}', '\u{0}', '\u{0}')),
        0xF98A => Some((1, '\u{529b}', '\u{0}', '\u{0}', '\u{0}')),
        0xF98B => Some((1, '\u{66c6}', '\u{0}', '\u{0}', '\u{0}')),
        0xF98C => Some((1, '\u{6b77}', '\u{0}', '\u{0}', '\u{0}')),
        0xF98D => Some((1, '\u{8f62}', '\u{0}', '\u{0}', '\u{0}')),
        0xF98E => Some((1, '\u{5e74}', '\u{0}', '\u{0}', '\u{0}')),
        0xF98F => Some((1, '\u{6190}', '\u{0}', '\u{0}', '\u{0}')),
        0xF990 => Some((1, '\u{6200}', '\u{0}', '\u{0}', '\u{0}')),
        0xF991 => Some((1, '\u{649a}', '\u{0}', '\u{0}', '\u{0}')),
        0xF992 => Some((1, '\u{6f23}', '\u{0}', '\u{0}', '\u{0}')),
        0xF993 => Some((1, '\u{7149}', '\u{0}', '\u{0}', '\u{0}')),
        0xF994 => Some((1, '\u{7489}', '\u{0}', '\u{0}', '\u{0}')),
        0xF995 => Some((1, '\u{79ca}', '\u{0}', '\u{0}', '\u{0}')),
        0xF996 => Some((1, '\u{7df4}', '\u{0}', '\u{0}', '\u{0}')),
        0xF997 => Some((1, '\u{806f}', '\u{0}', '\u{0}', '\u{0}')),
        0xF998 => Some((1, '\u{8f26}', '\u{0}', '\u{0}', '\u{0}')),
        0xF999 => Some((1, '\u{84ee}', '\u{0}', '\u{0}', '\u{0}')),
        0xF99A => Some((1, '\u{9023}', '\u{0}', '\u{0}', '\u{0}')),
        0xF99B => Some((1, '\u{934a}', '\u{0}', '\u{0}', '\u{0}')),
        0xF99C => Some((1, '\u{5217}', '\u{0}', '\u{0}', '\u{0}')),
        0xF99D => Some((1, '\u{52a3}', '\u{0}', '\u{0}', '\u{0}')),
        0xF99E => Some((1, '\u{54bd}', '\u{0}', '\u{0}', '\u{0}')),
        0xF99F => Some((1, '\u{70c8}', '\u{0}', '\u{0}', '\u{0}')),
        0xF9A0 => Some((1, '\u{88c2}', '\u{0}', '\u{0}', '\u{0}')),
        0xF9A1 => Some((1, '\u{8aaa}', '\u{0}', '\u{0}', '\u{0}')),
        0xF9A2 => Some((1, '\u{5ec9}', '\u{0}', '\u{0}', '\u{0}')),
        0xF9A3 => Some((1, '\u{5ff5}', '\u{0}', '\u{0}', '\u{0}')),
        0xF9A4 => Some((1, '\u{637b}', '\u{0}', '\u{0}', '\u{0}')),
        0xF9A5 => Some((1, '\u{6bae}', '\u{0}', '\u{0}', '\u{0}')),
        0xF9A6 => Some((1, '\u{7c3e}', '\u{0}', '\u{0}', '\u{0}')),
        0xF9A7 => Some((1, '\u{7375}', '\u{0}', '\u{0}', '\u{0}')),
        0xF9A8 => Some((1, '\u{4ee4}', '\u{0}', '\u{0}', '\u{0}')),
        0xF9A9 => Some((1, '\u{56f9}', '\u{0}', '\u{0}', '\u{0}')),
        0xF9AA => Some((1, '\u{5be7}', '\u{0}', '\u{0}', '\u{0}')),
        0xF9AB => Some((1, '\u{5dba}', '\u{0}', '\u{0}', '\u{0}')),
        0xF9AC => Some((1, '\u{601c}', '\u{0}', '\u{0}', '\u{0}')),
        0xF9AD => Some((1, '\u{73b2}', '\u{0}', '\u{0}', '\u{0}')),
        0xF9AE => Some((1, '\u{7469}', '\u{0}', '\u{0}', '\u{0}')),
        0xF9AF => Some((1, '\u{7f9a}', '\u{0}', '\u{0}', '\u{0}')),
        0xF9B0 => Some((1, '\u{8046}', '\u{0}', '\u{0}', '\u{0}')),
        0xF9B1 => Some((1, '\u{9234}', '\u{0}', '\u{0}', '\u{0}')),
        0xF9B2 => Some((1, '\u{96f6}', '\u{0}', '\u{0}', '\u{0}')),
        0xF9B3 => Some((1, '\u{9748}', '\u{0}', '\u{0}', '\u{0}')),
        0xF9B4 => Some((1, '\u{9818}', '\u{0}', '\u{0}', '\u{0}')),
        0xF9B5 => Some((1, '\u{4f8b}', '\u{0}', '\u{0}', '\u{0}')),
        0xF9B6 => Some((1, '\u{79ae}', '\u{0}', '\u{0}', '\u{0}')),
        0xF9B7 => Some((1, '\u{91b4}', '\u{0}', '\u{0}', '\u{0}')),
        0xF9B8 => Some((1, '\u{96b8}', '\u{0}', '\u{0}', '\u{0}')),
        0xF9B9 => Some((1, '\u{60e1}', '\u{0}', '\u{0}', '\u{0}')),
        0xF9BA => Some((1, '\u{4e86}', '\u{0}', '\u{0}', '\u{0}')),
        0xF9BB => Some((1, '\u{50da}', '\u{0}', '\u{0}', '\u{0}')),
        0xF9BC => Some((1, '\u{5bee}', '\u{0}', '\u{0}', '\u{0}')),
        0xF9BD => Some((1, '\u{5c3f}', '\u{0}', '\u{0}', '\u{0}')),
        0xF9BE => Some((1, '\u{6599}', '\u{0}', '\u{0}', '\u{0}')),
        0xF9BF => Some((1, '\u{6a02}', '\u{0}', '\u{0}', '\u{0}')),
        0xF9C0 => Some((1, '\u{71ce}', '\u{0}', '\u{0}', '\u{0}')),
        0xF9C1 => Some((1, '\u{7642}', '\u{0}', '\u{0}', '\u{0}')),
        0xF9C2 => Some((1, '\u{84fc}', '\u{0}', '\u{0}', '\u{0}')),
        0xF9C3 => Some((1, '\u{907c}', '\u{0}', '\u{0}', '\u{0}')),
        0xF9C4 => Some((1, '\u{9f8d}', '\u{0}', '\u{0}', '\u{0}')),
        0xF9C5 => Some((1, '\u{6688}', '\u{0}', '\u{0}', '\u{0}')),
        0xF9C6 => Some((1, '\u{962e}', '\u{0}', '\u{0}', '\u{0}')),
        0xF9C7 => Some((1, '\u{5289}', '\u{0}', '\u{0}', '\u{0}')),
        0xF9C8 => Some((1, '\u{677b}', '\u{0}', '\u{0}', '\u{0}')),
        0xF9C9 => Some((1, '\u{67f3}', '\u{0}', '\u{0}', '\u{0}')),
        0xF9CA => Some((1, '\u{6d41}', '\u{0}', '\u{0}', '\u{0}')),
        0xF9CB => Some((1, '\u{6e9c}', '\u{0}', '\u{0}', '\u{0}')),
        0xF9CC => Some((1, '\u{7409}', '\u{0}', '\u{0}', '\u{0}')),
        0xF9CD => Some((1, '\u{7559}', '\u{0}', '\u{0}', '\u{0}')),
        0xF9CE => Some((1, '\u{786b}', '\u{0}', '\u{0}', '\u{0}')),
        0xF9CF => Some((1, '\u{7d10}', '\u{0}', '\u{0}', '\u{0}')),
        0xF9D0 => Some((1, '\u{985e}', '\u{0}', '\u{0}', '\u{0}')),
        0xF9D1 => Some((1, '\u{516d}', '\u{0}', '\u{0}', '\u{0}')),
        0xF9D2 => Some((1, '\u{622e}', '\u{0}', '\u{0}', '\u{0}')),
        0xF9D3 => Some((1, '\u{9678}', '\u{0}', '\u{0}', '\u{0}')),
        0xF9D4 => Some((1, '\u{502b}', '\u{0}', '\u{0}', '\u{0}')),
        0xF9D5 => Some((1, '\u{5d19}', '\u{0}', '\u{0}', '\u{0}')),
        0xF9D6 => Some((1, '\u{6dea}', '\u{0}', '\u{0}', '\u{0}')),
        0xF9D7 => Some((1, '\u{8f2a}', '\u{0}', '\u{0}', '\u{0}')),
        0xF9D8 => Some((1, '\u{5f8b}', '\u{0}', '\u{0}', '\u{0}')),
        0xF9D9 => Some((1, '\u{6144}', '\u{0}', '\u{0}', '\u{0}')),
        0xF9DA => Some((1, '\u{6817}', '\u{0}', '\u{0}', '\u{0}')),
        0xF9DB => Some((1, '\u{7387}', '\u{0}', '\u{0}', '\u{0}')),
        0xF9DC => Some((1, '\u{9686}', '\u{0}', '\u{0}', '\u{0}')),
        0xF9DD => Some((1, '\u{5229}', '\u{0}', '\u{0}', '\u{0}')),
        0xF9DE => Some((1, '\u{540f}', '\u{0}', '\u{0}', '\u{0}')),
        0xF9DF => Some((1, '\u{5c65}', '\u{0}', '\u{0}', '\u{0}')),
        0xF9E0 => Some((1, '\u{6613}', '\u{0}', '\u{0}', '\u{0}')),
        0xF9E1 => Some((1, '\u{674e}', '\u{0}', '\u{0}', '\u{0}')),
        0xF9E2 => Some((1, '\u{68a8}', '\u{0}', '\u{0}', '\u{0}')),
        0xF9E3 => Some((1, '\u{6ce5}', '\u{0}', '\u{0}', '\u{0}')),
        0xF9E4 => Some((1, '\u{7406}', '\u{0}', '\u{0}', '\u{0}')),
        0xF9E5 => Some((1, '\u{75e2}', '\u{0}', '\u{0}', '\u{0}')),
        0xF9E6 => Some((1, '\u{7f79}', '\u{0}', '\u{0}', '\u{0}')),
        0xF9E7 => Some((1, '\u{88cf}', '\u{0}', '\u{0}', '\u{0}')),
        0xF9E8 => Some((1, '\u{88e1}', '\u{0}', '\u{0}', '\u{0}')),
        0xF9E9 => Some((1, '\u{91cc}', '\u{0}', '\u{0}', '\u{0}')),
        0xF9EA => Some((1, '\u{96e2}', '\u{0}', '\u{0}', '\u{0}')),
        0xF9EB => Some((1, '\u{533f}', '\u{0}', '\u{0}', '\u{0}')),
        0xF9EC => Some((1, '\u{6eba}', '\u{0}', '\u{0}', '\u{0}')),
        0xF9ED => Some((1, '\u{541d}', '\u{0}', '\u{0}', '\u{0}')),
        0xF9EE => Some((1, '\u{71d0}', '\u{0}', '\u{0}', '\u{0}')),
        0xF9EF => Some((1, '\u{7498}', '\u{0}', '\u{0}', '\u{0}')),
        0xF9F0 => Some((1, '\u{85fa}', '\u{0}', '\u{0}', '\u{0}')),
        0xF9F1 => Some((1, '\u{96a3}', '\u{0}', '\u{0}', '\u{0}')),
        0xF9F2 => Some((1, '\u{9c57}', '\u{0}', '\u{0}', '\u{0}')),
        0xF9F3 => Some((1, '\u{9e9f}', '\u{0}', '\u{0}', '\u{0}')),
        0xF9F4 => Some((1, '\u{6797}', '\u{0}', '\u{0}', '\u{0}')),
        0xF9F5 => Some((1, '\u{6dcb}', '\u{0}', '\u{0}', '\u{0}')),
        0xF9F6 => Some((1, '\u{81e8}', '\u{0}', '\u{0}', '\u{0}')),
        0xF9F7 => Some((1, '\u{7acb}', '\u{0}', '\u{0}', '\u{0}')),
        0xF9F8 => Some((1, '\u{7b20}', '\u{0}', '\u{0}', '\u{0}')),
        0xF9F9 => Some((1, '\u{7c92}', '\u{0}', '\u{0}', '\u{0}')),
        0xF9FA => Some((1, '\u{72c0}', '\u{0}', '\u{0}', '\u{0}')),
        0xF9FB => Some((1, '\u{7099}', '\u{0}', '\u{0}', '\u{0}')),
        0xF9FC => Some((1, '\u{8b58}', '\u{0}', '\u{0}', '\u{0}')),
        0xF9FD => Some((1, '\u{4ec0}', '\u{0}', '\u{0}', '\u{0}')),
        0xF9FE => Some((1, '\u{8336}', '\u{0}', '\u{0}', '\u{0}')),
        0xF9FF => Some((1, '\u{523a}', '\u{0}', '\u{0}', '\u{0}')),
        0xFA00 => Some((1, '\u{5207}', '\u{0}', '\u{0}', '\u{0}')),
        0xFA01 => Some((1, '\u{5ea6}', '\u{0}', '\u{0}', '\u{0}')),
        0xFA02 => Some((1, '\u{62d3}', '\u{0}', '\u{0}', '\u{0}')),
        0xFA03 => Some((1, '\u{7cd6}', '\u{0}', '\u{0}', '\u{0}')),
        0xFA04 => Some((1, '\u{5b85}', '\u{0}', '\u{0}', '\u{0}')),
        0xFA05 => Some((1, '\u{6d1e}', '\u{0}', '\u{0}', '\u{0}')),
        0xFA06 => Some((1, '\u{66b4}', '\u{0}', '\u{0}', '\u{0}')),
        0xFA07 => Some((1, '\u{8f3b}', '\u{0}', '\u{0}', '\u{0}')),
        0xFA08 => Some((1, '\u{884c}', '\u{0}', '\u{0}', '\u{0}')),
        0xFA09 => Some((1, '\u{964d}', '\u{0}', '\u{0}', '\u{0}')),
        0xFA0A => Some((1, '\u{898b}', '\u{0}', '\u{0}', '\u{0}')),
        0xFA0B => Some((1, '\u{5ed3}', '\u{0}', '\u{0}', '\u{0}')),
        0xFA0C => Some((1, '\u{5140}', '\u{0}', '\u{0}', '\u{0}')),
        0xFA0D => Some((1, '\u{55c0}', '\u{0}', '\u{0}', '\u{0}')),
        0xFA10 => Some((1, '\u{585a}', '\u{0}', '\u{0}', '\u{0}')),
        0xFA12 => Some((1, '\u{6674}', '\u{0}', '\u{0}', '\u{0}')),
        0xFA15 => Some((1, '\u{51de}', '\u{0}', '\u{0}', '\u{0}')),
        0xFA16 => Some((1, '\u{732a}', '\u{0}', '\u{0}', '\u{0}')),
        0xFA17 => Some((1, '\u{76ca}', '\u{0}', '\u{0}', '\u{0}')),
        0xFA18 => Some((1, '\u{793c}', '\u{0}', '\u{0}', '\u{0}')),
        0xFA19 => Some((1, '\u{795e}', '\u{0}', '\u{0}', '\u{0}')),
        0xFA1A => Some((1, '\u{7965}', '\u{0}', '\u{0}', '\u{0}')),
        0xFA1B => Some((1, '\u{798f}', '\u{0}', '\u{0}', '\u{0}')),
        0xFA1C => Some((1, '\u{9756}', '\u{0}', '\u{0}', '\u{0}')),
        0xFA1D => Some((1, '\u{7cbe}', '\u{0}', '\u{0}', '\u{0}')),
        0xFA1E => Some((1, '\u{7fbd}', '\u{0}', '\u{0}', '\u{0}')),
        0xFA20 => Some((1, '\u{8612}', '\u{0}', '\u{0}', '\u{0}')),
        0xFA22 => Some((1, '\u{8af8}', '\u{0}', '\u{0}', '\u{0}')),
        0xFA25 => Some((1, '\u{9038}', '\u{0}', '\u{0}', '\u{0}')),
        0xFA26 => Some((1, '\u{90fd}', '\u{0}', '\u{0}', '\u{0}')),
        0xFA2A => Some((1, '\u{98ef}', '\u{0}', '\u{0}', '\u{0}')),
        0xFA2B => Some((1, '\u{98fc}', '\u{0}', '\u{0}', '\u{0}')),
        0xFA2C => Some((1, '\u{9928}', '\u{0}', '\u{0}', '\u{0}')),
        0xFA2D => Some((1, '\u{9db4}', '\u{0}', '\u{0}', '\u{0}')),
        0xFA2E => Some((1, '\u{90de}', '\u{0}', '\u{0}', '\u{0}')),
        0xFA2F => Some((1, '\u{96b7}', '\u{0}', '\u{0}', '\u{0}')),
        0xFA30 => Some((1, '\u{4fae}', '\u{0}', '\u{0}', '\u{0}')),
        0xFA31 => Some((1, '\u{50e7}', '\u{0}', '\u{0}', '\u{0}')),
        0xFA32 => Some((1, '\u{514d}', '\u{0}', '\u{0}', '\u{0}')),
        0xFA33 => Some((1, '\u{52c9}', '\u{0}', '\u{0}', '\u{0}')),
        0xFA34 => Some((1, '\u{52e4}', '\u{0}', '\u{0}', '\u{0}')),
        0xFA35 => Some((1, '\u{5351}', '\u{0}', '\u{0}', '\u{0}')),
        0xFA36 => Some((1, '\u{559d}', '\u{0}', '\u{0}', '\u{0}')),
        0xFA37 => Some((1, '\u{5606}', '\u{0}', '\u{0}', '\u{0}')),
        0xFA38 => Some((1, '\u{5668}', '\u{0}', '\u{0}', '\u{0}')),
        0xFA39 => Some((1, '\u{5840}', '\u{0}', '\u{0}', '\u{0}')),
        0xFA3A => Some((1, '\u{58a8}', '\u{0}', '\u{0}', '\u{0}')),
        0xFA3B => Some((1, '\u{5c64}', '\u{0}', '\u{0}', '\u{0}')),
        0xFA3C => Some((1, '\u{5c6e}', '\u{0}', '\u{0}', '\u{0}')),
        0xFA3D => Some((1, '\u{6094}', '\u{0}', '\u{0}', '\u{0}')),
        0xFA3E => Some((1, '\u{6168}', '\u{0}', '\u{0}', '\u{0}')),
        0xFA3F => Some((1, '\u{618e}', '\u{0}', '\u{0}', '\u{0}')),
        0xFA40 => Some((1, '\u{61f2}', '\u{0}', '\u{0}', '\u{0}')),
        0xFA41 => Some((1, '\u{654f}', '\u{0}', '\u{0}', '\u{0}')),
        0xFA42 => Some((1, '\u{65e2}', '\u{0}', '\u{0}', '\u{0}')),
        0xFA43 => Some((1, '\u{6691}', '\u{0}', '\u{0}', '\u{0}')),
        0xFA44 => Some((1, '\u{6885}', '\u{0}', '\u{0}', '\u{0}')),
        0xFA45 => Some((1, '\u{6d77}', '\u{0}', '\u{0}', '\u{0}')),
        0xFA46 => Some((1, '\u{6e1a}', '\u{0}', '\u{0}', '\u{0}')),
        0xFA47 => Some((1, '\u{6f22}', '\u{0}', '\u{0}', '\u{0}')),
        0xFA48 => Some((1, '\u{716e}', '\u{0}', '\u{0}', '\u{0}')),
        0xFA49 => Some((1, '\u{722b}', '\u{0}', '\u{0}', '\u{0}')),
        0xFA4A => Some((1, '\u{7422}', '\u{0}', '\u{0}', '\u{0}')),
        0xFA4B => Some((1, '\u{7891}', '\u{0}', '\u{0}', '\u{0}')),
        0xFA4C => Some((1, '\u{793e}', '\u{0}', '\u{0}', '\u{0}')),
        0xFA4D => Some((1, '\u{7949}', '\u{0}', '\u{0}', '\u{0}')),
        0xFA4E => Some((1, '\u{7948}', '\u{0}', '\u{0}', '\u{0}')),
        0xFA4F => Some((1, '\u{7950}', '\u{0}', '\u{0}', '\u{0}')),
        0xFA50 => Some((1, '\u{7956}', '\u{0}', '\u{0}', '\u{0}')),
        0xFA51 => Some((1, '\u{795d}', '\u{0}', '\u{0}', '\u{0}')),
        0xFA52 => Some((1, '\u{798d}', '\u{0}', '\u{0}', '\u{0}')),
        0xFA53 => Some((1, '\u{798e}', '\u{0}', '\u{0}', '\u{0}')),
        0xFA54 => Some((1, '\u{7a40}', '\u{0}', '\u{0}', '\u{0}')),
        0xFA55 => Some((1, '\u{7a81}', '\u{0}', '\u{0}', '\u{0}')),
        0xFA56 => Some((1, '\u{7bc0}', '\u{0}', '\u{0}', '\u{0}')),
        0xFA57 => Some((1, '\u{7df4}', '\u{0}', '\u{0}', '\u{0}')),
        0xFA58 => Some((1, '\u{7e09}', '\u{0}', '\u{0}', '\u{0}')),
        0xFA59 => Some((1, '\u{7e41}', '\u{0}', '\u{0}', '\u{0}')),
        0xFA5A => Some((1, '\u{7f72}', '\u{0}', '\u{0}', '\u{0}')),
        0xFA5B => Some((1, '\u{8005}', '\u{0}', '\u{0}', '\u{0}')),
        0xFA5C => Some((1, '\u{81ed}', '\u{0}', '\u{0}', '\u{0}')),
        0xFA5D => Some((1, '\u{8279}', '\u{0}', '\u{0}', '\u{0}')),
        0xFA5E => Some((1, '\u{8279}', '\u{0}', '\u{0}', '\u{0}')),
        0xFA5F => Some((1, '\u{8457}', '\u{0}', '\u{0}', '\u{0}')),
        0xFA60 => Some((1, '\u{8910}', '\u{0}', '\u{0}', '\u{0}')),
        0xFA61 => Some((1, '\u{8996}', '\u{0}', '\u{0}', '\u{0}')),
        0xFA62 => Some((1, '\u{8b01}', '\u{0}', '\u{0}', '\u{0}')),
        0xFA63 => Some((1, '\u{8b39}', '\u{0}', '\u{0}', '\u{0}')),
        0xFA64 => Some((1, '\u{8cd3}', '\u{0}', '\u{0}', '\u{0}')),
        0xFA65 => Some((1, '\u{8d08}', '\u{0}', '\u{0}', '\u{0}')),
        0xFA66 => Some((1, '\u{8fb6}', '\u{0}', '\u{0}', '\u{0}')),
        0xFA67 => Some((1, '\u{9038}', '\u{0}', '\u{0}', '\u{0}')),
        0xFA68 => Some((1, '\u{96e3}', '\u{0}', '\u{0}', '\u{0}')),
        0xFA69 => Some((1, '\u{97ff}', '\u{0}', '\u{0}', '\u{0}')),
        0xFA6A => Some((1, '\u{983b}', '\u{0}', '\u{0}', '\u{0}')),
        0xFA6B => Some((1, '\u{6075}', '\u{0}', '\u{0}', '\u{0}')),
        0xFA6C => Some((1, '\u{242ee}', '\u{0}', '\u{0}', '\u{0}')),
        0xFA6D => Some((1, '\u{8218}', '\u{0}', '\u{0}', '\u{0}')),
        0xFA70 => Some((1, '\u{4e26}', '\u{0}', '\u{0}', '\u{0}')),
        0xFA71 => Some((1, '\u{51b5}', '\u{0}', '\u{0}', '\u{0}')),
        0xFA72 => Some((1, '\u{5168}', '\u{0}', '\u{0}', '\u{0}')),
        0xFA73 => Some((1, '\u{4f80}', '\u{0}', '\u{0}', '\u{0}')),
        0xFA74 => Some((1, '\u{5145}', '\u{0}', '\u{0}', '\u{0}')),
        0xFA75 => Some((1, '\u{5180}', '\u{0}', '\u{0}', '\u{0}')),
        0xFA76 => Some((1, '\u{52c7}', '\u{0}', '\u{0}', '\u{0}')),
        0xFA77 => Some((1, '\u{52fa}', '\u{0}', '\u{0}', '\u{0}')),
        0xFA78 => Some((1, '\u{559d}', '\u{0}', '\u{0}', '\u{0}')),
        0xFA79 => Some((1, '\u{5555}', '\u{0}', '\u{0}', '\u{0}')),
        0xFA7A => Some((1, '\u{5599}', '\u{0}', '\u{0}', '\u{0}')),
        0xFA7B => Some((1, '\u{55e2}', '\u{0}', '\u{0}', '\u{0}')),
        0xFA7C => Some((1, '\u{585a}', '\u{0}', '\u{0}', '\u{0}')),
        0xFA7D => Some((1, '\u{58b3}', '\u{0}', '\u{0}', '\u{0}')),
        0xFA7E => Some((1, '\u{5944}', '\u{0}', '\u{0}', '\u{0}')),
        0xFA7F => Some((1, '\u{5954}', '\u{0}', '\u{0}', '\u{0}')),
        0xFA80 => Some((1, '\u{5a62}', '\u{0}', '\u{0}', '\u{0}')),
        0xFA81 => Some((1, '\u{5b28}', '\u{0}', '\u{0}', '\u{0}')),
        0xFA82 => Some((1, '\u{5ed2}', '\u{0}', '\u{0}', '\u{0}')),
        0xFA83 => Some((1, '\u{5ed9}', '\u{0}', '\u{0}', '\u{0}')),
        0xFA84 => Some((1, '\u{5f69}', '\u{0}', '\u{0}', '\u{0}')),
        0xFA85 => Some((1, '\u{5fad}', '\u{0}', '\u{0}', '\u{0}')),
        0xFA86 => Some((1, '\u{60d8}', '\u{0}', '\u{0}', '\u{0}')),
        0xFA87 => Some((1, '\u{614e}', '\u{0}', '\u{0}', '\u{0}')),
        0xFA88 => Some((1, '\u{6108}', '\u{0}', '\u{0}', '\u{0}')),
        0xFA89 => Some((1, '\u{618e}', '\u{0}', '\u{0}', '\u{0}')),
        0xFA8A => Some((1, '\u{6160}', '\u{0}', '\u{0}', '\u{0}')),
        0xFA8B => Some((1, '\u{61f2}', '\u{0}', '\u{0}', '\u{0}')),
        0xFA8C => Some((1, '\u{6234}', '\u{0}', '\u{0}', '\u{0}')),
        0xFA8D => Some((1, '\u{63c4}', '\u{0}', '\u{0}', '\u{0}')),
        0xFA8E => Some((1, '\u{641c}', '\u{0}', '\u{0}', '\u{0}')),
        0xFA8F => Some((1, '\u{6452}', '\u{0}', '\u{0}', '\u{0}')),
        0xFA90 => Some((1, '\u{6556}', '\u{0}', '\u{0}', '\u{0}')),
        0xFA91 => Some((1, '\u{6674}', '\u{0}', '\u{0}', '\u{0}')),
        0xFA92 => Some((1, '\u{6717}', '\u{0}', '\u{0}', '\u{0}')),
        0xFA93 => Some((1, '\u{671b}', '\u{0}', '\u{0}', '\u{0}')),
        0xFA94 => Some((1, '\u{6756}', '\u{0}', '\u{0}', '\u{0}')),
        0xFA95 => Some((1, '\u{6b79}', '\u{0}', '\u{0}', '\u{0}')),
        0xFA96 => Some((1, '\u{6bba}', '\u{0}', '\u{0}', '\u{0}')),
        0xFA97 => Some((1, '\u{6d41}', '\u{0}', '\u{0}', '\u{0}')),
        0xFA98 => Some((1, '\u{6edb}', '\u{0}', '\u{0}', '\u{0}')),
        0xFA99 => Some((1, '\u{6ecb}', '\u{0}', '\u{0}', '\u{0}')),
        0xFA9A => Some((1, '\u{6f22}', '\u{0}', '\u{0}', '\u{0}')),
        0xFA9B => Some((1, '\u{701e}', '\u{0}', '\u{0}', '\u{0}')),
        0xFA9C => Some((1, '\u{716e}', '\u{0}', '\u{0}', '\u{0}')),
        0xFA9D => Some((1, '\u{77a7}', '\u{0}', '\u{0}', '\u{0}')),
        0xFA9E => Some((1, '\u{7235}', '\u{0}', '\u{0}', '\u{0}')),
        0xFA9F => Some((1, '\u{72af}', '\u{0}', '\u{0}', '\u{0}')),
        0xFAA0 => Some((1, '\u{732a}', '\u{0}', '\u{0}', '\u{0}')),
        0xFAA1 => Some((1, '\u{7471}', '\u{0}', '\u{0}', '\u{0}')),
        0xFAA2 => Some((1, '\u{7506}', '\u{0}', '\u{0}', '\u{0}')),
        0xFAA3 => Some((1, '\u{753b}', '\u{0}', '\u{0}', '\u{0}')),
        0xFAA4 => Some((1, '\u{761d}', '\u{0}', '\u{0}', '\u{0}')),
        0xFAA5 => Some((1, '\u{761f}', '\u{0}', '\u{0}', '\u{0}')),
        0xFAA6 => Some((1, '\u{76ca}', '\u{0}', '\u{0}', '\u{0}')),
        0xFAA7 => Some((1, '\u{76db}', '\u{0}', '\u{0}', '\u{0}')),
        0xFAA8 => Some((1, '\u{76f4}', '\u{0}', '\u{0}', '\u{0}')),
        0xFAA9 => Some((1, '\u{774a}', '\u{0}', '\u{0}', '\u{0}')),
        0xFAAA => Some((1, '\u{7740}', '\u{0}', '\u{0}', '\u{0}')),
        0xFAAB => Some((1, '\u{78cc}', '\u{0}', '\u{0}', '\u{0}')),
        0xFAAC => Some((1, '\u{7ab1}', '\u{0}', '\u{0}', '\u{0}')),
        0xFAAD => Some((1, '\u{7bc0}', '\u{0}', '\u{0}', '\u{0}')),
        0xFAAE => Some((1, '\u{7c7b}', '\u{0}', '\u{0}', '\u{0}')),
        0xFAAF => Some((1, '\u{7d5b}', '\u{0}', '\u{0}', '\u{0}')),
        0xFAB0 => Some((1, '\u{7df4}', '\u{0}', '\u{0}', '\u{0}')),
        0xFAB1 => Some((1, '\u{7f3e}', '\u{0}', '\u{0}', '\u{0}')),
        0xFAB2 => Some((1, '\u{8005}', '\u{0}', '\u{0}', '\u{0}')),
        0xFAB3 => Some((1, '\u{8352}', '\u{0}', '\u{0}', '\u{0}')),
        0xFAB4 => Some((1, '\u{83ef}', '\u{0}', '\u{0}', '\u{0}')),
        0xFAB5 => Some((1, '\u{8779}', '\u{0}', '\u{0}', '\u{0}')),
        0xFAB6 => Some((1, '\u{8941}', '\u{0}', '\u{0}', '\u{0}')),
        0xFAB7 => Some((1, '\u{8986}', '\u{0}', '\u{0}', '\u{0}')),
        0xFAB8 => Some((1, '\u{8996}', '\u{0}', '\u{0}', '\u{0}')),
        0xFAB9 => Some((1, '\u{8abf}', '\u{0}', '\u{0}', '\u{0}')),
        0xFABA => Some((1, '\u{8af8}', '\u{0}', '\u{0}', '\u{0}')),
        0xFABB => Some((1, '\u{8acb}', '\u{0}', '\u{0}', '\u{0}')),
        0xFABC => Some((1, '\u{8b01}', '\u{0}', '\u{0}', '\u{0}')),
        0xFABD => Some((1, '\u{8afe}', '\u{0}', '\u{0}', '\u{0}')),
        0xFABE => Some((1, '\u{8aed}', '\u{0}', '\u{0}', '\u{0}')),
        0xFABF => Some((1, '\u{8b39}', '\u{0}', '\u{0}', '\u{0}')),
        0xFAC0 => Some((1, '\u{8b8a}', '\u{0}', '\u{0}', '\u{0}')),
        0xFAC1 => Some((1, '\u{8d08}', '\u{0}', '\u{0}', '\u{0}')),
        0xFAC2 => Some((1, '\u{8f38}', '\u{0}', '\u{0}', '\u{0}')),
        0xFAC3 => Some((1, '\u{9072}', '\u{0}', '\u{0}', '\u{0}')),
        0xFAC4 => Some((1, '\u{9199}', '\u{0}', '\u{0}', '\u{0}')),
        0xFAC5 => Some((1, '\u{9276}', '\u{0}', '\u{0}', '\u{0}')),
        0xFAC6 => Some((1, '\u{967c}', '\u{0}', '\u{0}', '\u{0}')),
        0xFAC7 => Some((1, '\u{96e3}', '\u{0}', '\u{0}', '\u{0}')),
        0xFAC8 => Some((1, '\u{9756}', '\u{0}', '\u{0}', '\u{0}')),
        0xFAC9 => Some((1, '\u{97db}', '\u{0}', '\u{0}', '\u{0}')),
        0xFACA => Some((1, '\u{97ff}', '\u{0}', '\u{0}', '\u{0}')),
        0xFACB => Some((1, '\u{980b}', '\u{0}', '\u{0}', '\u{0}')),
        0xFACC => Some((1, '\u{983b}', '\u{0}', '\u{0}', '\u{0}')),
        0xFACD => Some((1, '\u{9b12}', '\u{0}', '\u{0}', '\u{0}')),
        0xFACE => Some((1, '\u{9f9c}', '\u{0}', '\u{0}', '\u{0}')),
        0xFACF => Some((1, '\u{2284a}', '\u{0}', '\u{0}', '\u{0}')),
        0xFAD0 => Some((1, '\u{22844}', '\u{0}', '\u{0}', '\u{0}')),
        0xFAD1 => Some((1, '\u{233d5}', '\u{0}', '\u{0}', '\u{0}')),
        0xFAD2 => Some((1, '\u{3b9d}', '\u{0}', '\u{0}', '\u{0}')),
        0xFAD3 => Some((1, '\u{4018}', '\u{0}', '\u{0}', '\u{0}')),
        0xFAD4 => Some((1, '\u{4039}', '\u{0}', '\u{0}', '\u{0}')),
        0xFAD5 => Some((1, '\u{25249}', '\u{0}', '\u{0}', '\u{0}')),
        0xFAD6 => Some((1, '\u{25cd0}', '\u{0}', '\u{0}', '\u{0}')),
        0xFAD7 => Some((1, '\u{27ed3}', '\u{0}', '\u{0}', '\u{0}')),
        0xFAD8 => Some((1, '\u{9f43}', '\u{0}', '\u{0}', '\u{0}')),
        0xFAD9 => Some((1, '\u{9f8e}', '\u{0}', '\u{0}', '\u{0}')),
        0xFB1D => Some((2, '\u{5d9}', '\u{5b4}', '\u{0}', '\u{0}')),
        0xFB1F => Some((2, '\u{5f2}', '\u{5b7}', '\u{0}', '\u{0}')),
        0xFB2A => Some((2, '\u{5e9}', '\u{5c1}', '\u{0}', '\u{0}')),
        0xFB2B => Some((2, '\u{5e9}', '\u{5c2}', '\u{0}', '\u{0}')),
        0xFB2C => Some((3, '\u{5e9}', '\u{5bc}', '\u{5c1}', '\u{0}')),
        0xFB2D => Some((3, '\u{5e9}', '\u{5bc}', '\u{5c2}', '\u{0}')),
        0xFB2E => Some((2, '\u{5d0}', '\u{5b7}', '\u{0}', '\u{0}')),
        0xFB2F => Some((2, '\u{5d0}', '\u{5b8}', '\u{0}', '\u{0}')),
        0xFB30 => Some((2, '\u{5d0}', '\u{5bc}', '\u{0}', '\u{0}')),
        0xFB31 => Some((2, '\u{5d1}', '\u{5bc}', '\u{0}', '\u{0}')),
        0xFB32 => Some((2, '\u{5d2}', '\u{5bc}', '\u{0}', '\u{0}')),
        0xFB33 => Some((2, '\u{5d3}', '\u{5bc}', '\u{0}', '\u{0}')),
        0xFB34 => Some((2, '\u{5d4}', '\u{5bc}', '\u{0}', '\u{0}')),
        0xFB35 => Some((2, '\u{5d5}', '\u{5bc}', '\u{0}', '\u{0}')),
        0xFB36 => Some((2, '\u{5d6}', '\u{5bc}', '\u{0}', '\u{0}')),
        0xFB38 => Some((2, '\u{5d8}', '\u{5bc}', '\u{0}', '\u{0}')),
        0xFB39 => Some((2, '\u{5d9}', '\u{5bc}', '\u{0}', '\u{0}')),
        0xFB3A => Some((2, '\u{5da}', '\u{5bc}', '\u{0}', '\u{0}')),
        0xFB3B => Some((2, '\u{5db}', '\u{5bc}', '\u{0}', '\u{0}')),
        0xFB3C => Some((2, '\u{5dc}', '\u{5bc}', '\u{0}', '\u{0}')),
        0xFB3E => Some((2, '\u{5de}', '\u{5bc}', '\u{0}', '\u{0}')),
        0xFB40 => Some((2, '\u{5e0}', '\u{5bc}', '\u{0}', '\u{0}')),
        0xFB41 => Some((2, '\u{5e1}', '\u{5bc}', '\u{0}', '\u{0}')),
        0xFB43 => Some((2, '\u{5e3}', '\u{5bc}', '\u{0}', '\u{0}')),
        0xFB44 => Some((2, '\u{5e4}', '\u{5bc}', '\u{0}', '\u{0}')),
        0xFB46 => Some((2, '\u{5e6}', '\u{5bc}', '\u{0}', '\u{0}')),
        0xFB47 => Some((2, '\u{5e7}', '\u{5bc}', '\u{0}', '\u{0}')),
        0xFB48 => Some((2, '\u{5e8}', '\u{5bc}', '\u{0}', '\u{0}')),
        0xFB49 => Some((2, '\u{5e9}', '\u{5bc}', '\u{0}', '\u{0}')),
        0xFB4A => Some((2, '\u{5ea}', '\u{5bc}', '\u{0}', '\u{0}')),
        0xFB4B => Some((2, '\u{5d5}', '\u{5b9}', '\u{0}', '\u{0}')),
        0xFB4C => Some((2, '\u{5d1}', '\u{5bf}', '\u{0}', '\u{0}')),
        0xFB4D => Some((2, '\u{5db}', '\u{5bf}', '\u{0}', '\u{0}')),
        0xFB4E => Some((2, '\u{5e4}', '\u{5bf}', '\u{0}', '\u{0}')),
        _ => None,
    }
}

fn decomposition_f_of(u: u32) -> (r: Option<(u8, char, char, char, char)>)
    ensures
        r == decomposition_f(u),
{
    match u {
        0xF900 => Some((1, '\u{8c48}', '\u{0}', '\u{0}', '\u{0}')),
        0xF901 => Some((1, '\u{66f4}', '\u{0}', '\u{0}', '\u{0}')),
        0xF902 => Some((1, '\u{8eca}', '\u{0}', '\u{0}', '\u{0}')),
        0xF903 => Some((1, '\u{8cc8}', '\u{0}', '\u{0}', '\u{0}')),
        0xF904 => Some((1, '\u{6ed1}', '\u{0}', '\u{0}', '\u{0}')),
        0xF905 => Some((1, '\u{4e32}', '\u{0}', '\u{0}', '\u{0}')),
        0xF906 => Some((1, '\u{53e5}', '\u{0}', '\u{0}', '\u{0}')),
        0xF907 => Some((1, '\u{9f9c}', '\u{0}', '\u{0}', '\u{0}')),
        0xF908 => Some((1, '\u{9f9c}', '\u{0}', '\u{0}', '\u{0}')),
        0xF909 => Some((1, '\u{5951}', '\u{0}', '\u{0}', '\u{0}')),
        0xF90A => Some((1, '\u{91d1}', '\u{0}', '\u{0}', '\u{0}')),
        0xF90B => Some((1, '\u{5587}', '\u{0}', '\u{0}', '\u{0}')),
        0xF90C => Some((1, '\u{5948}', '\u{0}', '\u{0}', '\u{0}')),
        0xF90D => Some((1, '\u{61f6}', '\u{0}', '\u{0}', '\u{0}')),
        0xF90E => Some((1, '\u{7669}', '\u{0}', '\u{0}', '\u{0}')),
        0xF90F => Some((1, '\u{7f85}', '\u{0}', '\u{0}', '\u{0}')),
        0xF910 => Some((1, '\u{863f}', '\u{0}', '\u{0}', '\u{0}')),
        0xF911 => Some((1, '\u{87ba}', '\u{0}', '\u{0}', '\u{0}')),
        0xF912 => Some((1, '\u{88f8}', '\u{0}', '\u{0}', '\u{0}')),
        0xF913 => Some((1, '\u{908f}', '\u{0}', '\u{0}', '\u{0}')),
        0xF914 => Some((1, '\u{6a02}', '\u{0}', '\u{0}', '\u{0}')),
        0xF915 => Some((1, '\u{6d1b}', '\u{0}', '\u{0}', '\u{0}')),
        0xF916 => Some((1, '\u{70d9}', '\u{0}', '\u{0}', '\u{0}')),
        0xF917 => Some((1, '\u{73de}', '\u{0}', '\u{0}', '\u{0}')),
        0xF918 => Some((1, '\u{843d}', '\u{0}', '\u{0}', '\u{0}')),
        0xF919 => Some((1, '\u{916a}', '\u{0}', '\u{0}', '\u{0}')),
        0xF91A => Some((1, '\u{99f1}', '\u{0}', '\u{0}', '\u{0}')),
        0xF91B => Some((1, '\u{4e82}', '\u{0}', '\u{0}', '\u{0}')),
        0xF91C => Some((1, '\u{5375}', '\u{0}', '\u{0}', '\u{0}')),
        0xF91D => Some((1, '\u{6b04}', '\u{0}', '\u{0}', '\u{0}')),
        0xF91E => Some((1, '\u{721b}', '\u{0}', '\u{0}', '\u{0}')),
        0xF91F => Some((1, '\u{862d}', '\u{0}', '\u{0}', '\u{0}')),
        0xF920 => Some((1, '\u{9e1e}', '\u{0}', '\u{0}', '\u{0}')),
        0xF921 => Some((1, '\u{5d50}', '\u{0}', '\u{0}', '\u{0}')),
        0xF922 => Some((1, '\u{6feb}', '\u{0}', '\u{0}', '\u{0}')),
        0xF923 => Some((1, '\u{85cd}', '\u{0}', '\u{0}', '\u{0}')),
        0xF924 => Some((1, '\u{8964}', '\u{0}', '\u{0}', '\u{0}')),
        0xF925 => Some((1, '\u{62c9}', '\u{0}', '\u{0}', '\u{0}')),
        0xF926 => Some((1, '\u{81d8}', '\u{0}', '\u{0}', '\u{0}')),
        0xF927 => Some((1, '\u{881f}', '\u{0}', '\u{0}', '\u{0}')),
        0xF928 => Some((1, '\u{5eca}', '\u{0}', '\u{0}', '\u{0}')),
        0xF929 => Some((1, '\u{6717}', '\u{0}', '\u{0}', '\u{0}')),
        0xF92A => Some((1, '\u{6d6a}', '\u{0}', '\u{0}', '\u{0}')),
        0xF92B => Some((1, '\u{72fc}', '\u{0}', '\u{0}', '\u{0}')),
        0xF92C => Some((1, '\u{90ce}', '\u{0}', '\u{0}', '\u{0}')),
        0xF92D => Some((1, '\u{4f86}', '\u{0}', '\u{0}', '\u{0}')),
        0xF92E => Some((1, '\u{51b7}', '\u{0}', '\u{0}', '\u{0}')),
        0xF92F => Some((1, '\u{52de}', '\u{0}', '\u{0}', '\u{0}')),
        0xF930 => Some((1, '\u{64c4}', '\u{0}', '\u{0}', '\u{0}')),
        0xF931 => Some((1, '\u{6ad3}', '\u{0}', '\u{0}', '\u{0}')),
        0xF932 => Some((1, '\u{7210}', '\u{0}', '\u{0}', '\u{0}')),
        0xF933 => Some((1, '\u{76e7}', '\u{0}', '\u{0}', '\u{0}')),
        0xF934 => Some((1, '\u{8001}', '\u{0}', '\u{0}', '\u{0}')),
        0xF935 => Some((1, '\u{8606}', '\u{0}', '\u{0}', '\u{0}')),
        0xF936 => Some((1, '\u{865c}', '\u{0}', '\u{0}', '\u{0}')),
        0xF937 => Some((1, '\u{8def}', '\u{0}', '\u{0}', '\u{0}')),
        0xF938 => Some((1, '\u{9732}', '\u{0}', '\u{0}', '\u{0}')),
        0xF939 => Some((1, '\u{9b6f}', '\u{0}', '\u{0}', '\u{0}')),
        0xF93A => Some((1, '\u{9dfa}', '\u{0}', '\u{0}', '\u{0}')),
        0xF93B => Some((1, '\u{788c}', '\u{0}', '\u{0}', '\u{0}')),
        0xF93C => Some((1, '\u{797f}', '\u{0}', '\u{0}', '\u{0}')),
        0xF93D => Some((1, '\u{7da0}', '\u{0}', '\u{0}', '\u{0}')),
        0xF93E => Some((1, '\u{83c9}', '\u{0}', '\u{0}', '\u{0}')),
        0xF93F => Some((1, '\u{9304}', '\u{0}', '\u{0}', '\u{0}')),
        0xF940 => Some((1, '\u{9e7f}', '\u{0}', '\u{0}', '\u{0}')),
        0xF941 => Some((1, '\u{8ad6}', '\u{0}', '\u{0}', '\u{0}')),
        0xF942 => Some((1, '\u{58df}', '\u{0}', '\u{0}', '\u{0}')),
        0xF943 => Some((1, '\u{5f04}', '\u{0}', '\u{0}', '\u{0}')),
        0xF944 => Some((1, '\u{7c60}', '\u{0}', '\u{0}', '\u{0}')),
        0xF945 => Some((1, '\u{807e}', '\u{0}', '\u{0}', '\u{0}')),
        0xF946 => Some((1, '\u{7262}', '\u{0}', '\u{0}', '\u{0}')),
        0xF947 => Some((1, '\u{78ca}', '\u{0}', '\u{0}', '\u{0}')),
        0xF948 => Some((1, '\u{8cc2}', '\u{0}', '\u{0}', '\u{0}')),
        0xF949 => Some((1, '\u{96f7}', '\u{0}', '\u{0}', '\u{0}')),
        0xF94A => Some((1, '\u{58d8}', '\u{0}', '\u{0}', '\u{0}')),
        0xF94B => Some((1, '\u{5c62}', '\u{0}', '\u{0}', '\u{0}')),
        0xF94C => Some((1, '\u{6a13}', '\u{0}', '\u{0}', '\u{0}')),
        0xF94D => Some((1, '\u{6dda}', '\u{0}', '\u{0}', '\u{0}')),
        0xF94E => Some((1, '\u{6f0f}', '\u{0}', '\u{0}', '\u{0}')),
        0xF94F => Some((1, '\u{7d2f}', '\u{0}', '\u{0}', '\u{0}')),
        0xF950 => Some((1, '\u{7e37}', '\u{0}', '\u{0}', '\u{0}')),
        0xF951 => Some((1, '\u{964b}', '\u{0}', '\u{0}', '\u{0}')),
        0xF952 => Some((1, '\u{52d2}', '\u{0}', '\u{0}', '\u{0}')),
        0xF953 => Some((1, '\u{808b}', '\u{0}', '\u{0}', '\u{0}')),
        0xF954 => Some((1, '\u{51dc}', '\u{0}', '\u{0}', '\u{0}')),
        0xF955 => Some((1, '\u{51cc}', '\u{0}', '\u{0}', '\u{0}')),
        0xF956 => Some((1, '\u{7a1c}', '\u{0}', '\u{0}', '\u{0}')),
        0xF957 => Some((1, '\u{7dbe}', '\u{0}', '\u{0}', '\u{0}')),
        0xF958 => Some((1, '\u{83f1}', '\u{0}', '\u{0}', '\u{0}')),
        0xF959 => Some((1, '\u{9675}', '\u{0}', '\u{0}', '\u{0}')),
        0xF95A => Some((1, '\u{8b80}', '\u{0}', '\u{0}', '\u{0}')),
        0xF95B => Some((1, '\u{62cf}', '\u{0}', '\u{0}', '\u{0}')),
        0xF95C => Some((1, '\u{6a02}', '\u{0}', '\u{0}', '\u{0}')),
        0xF95D => Some((1, '\u{8afe}', '\u{0}', '\u{0}', '\u{0}')),
        0xF95E => Some((1, '\u{4e39}', '\u{0}', '\u{0}', '\u{0}')),
        0xF95F => Some((1, '\u{5be7}', '\u{0}', '\u{0}', '\u{0}')),
        0xF960 => Some((1, '\u{6012}', '\u{0}', '\u{0}', '\u{0}')),
        0xF961 => Some((1, '\u{7387}', '\u{0}', '\u{0}', '\u{0}')),
        0xF962 => Some((1, '\u{7570}', '\u{0}', '\u{0}', '\u{0}')),
        0xF963 => Some((1, '\u{5317}', '\u{0}', '\u{0}', '\u{0}')),
        0xF964 => Some((1, '\u{78fb}', '\u{0}', '\u{0}', '\u{0}')),
        0xF965 => Some((1, '\u{4fbf}', '\u{0}', '\u{0}', '\u{0}')),
        0xF966 => Some((1, '\u{5fa9}', '\u{0}', '\u{0}', '\u{0}')),
        0xF967 => Some((1, '\u{4e0d}', '\u{0}', '\u{0}', '\u{0}')),
        0xF968 => Some((1, '\u{6ccc}', '\u{0}', '\u{0}', '\u{0}')),
        0xF969 => Some((1, '\u{6578}', '\u{0}', '\u{0}', '\u{0}')),
        0xF96A => Some((1, '\u{7d22}', '\u{0}', '\u{0}', '\u{0}')),
        0xF96B => Some((1, '\u{53c3}', '\u{0}', '\u{0}', '\u{0}')),
        0xF96C => Some((1, '\u{585e}', '\u{0}', '\u{0}', '\u{0}')),
        0xF96D => Some((1, '\u{7701}', '\u{0}', '\u{0}', '\u{0}')),
        0xF96E => Some((1, '\u{8449}', '\u{0}', '\u{0}', '\u{0}')),
        0xF96F => Some((1, '\u{8aaa}', '\u{0}', '\u{0}', '\u{0}')),
        0xF970 => Some((1, '\u{6bba}', '\u{0}', '\u{0}', '\u{0}')),
        0xF971 => Some((1, '\u{8fb0}', '\u{0}', '\u{0}', '\u{0}')),
        0xF972 => Some((1, '\u{6c88}', '\u{0}', '\u{0}', '\u{0}')),
        0xF973 => Some((1, '\u{62fe}', '\u{0}', '\u{0}', '\u{0}')),
        0xF974 => Some((1, '\u{82e5}', '\u{0}', '\u{0}', '\u{0}')),
        0xF975 => Some((1, '\u{63a0}', '\u{0}', '\u{0}', '\u{0}')),
        0xF976 => Some((1, '\u{7565}', '\u{0}', '\u{0}', '\u{0}')),
        0xF977 => Some((1, '\u{4eae}', '\u{0}', '\u{0}', '\u{0}')),
        0xF978 => Some((1, '\u{5169}', '\u{0}', '\u{0}', '\u{0}')),
        0xF979 => Some((1, '\u{51c9}', '\u{0}', '\u{0}', '\u{0}')),
        0xF97A => Some((1, '\u{6881}', '\u{0}', '\u{0}', '\u{0}')),
        0xF97B => Some((1, '\u{7ce7}', '\u{0}', '\u{0}', '\u{0}')),
        0xF97C => Some((1, '\u{826f}', '\u{0}', '\u{0}', '\u{0}')),
        0xF97D => Some((1, '\u{8ad2}', '\u{0}', '\u{0}', '\u{0}')),
        0xF97E => Some((1, '\u{91cf}', '\u{0}', '\u{0}', '\u{0}')),
        0xF97F => Some((1, '\u{52f5}', '\u{0}', '\u{0}', '\u{0}')),
        0xF980 => Some((1, '\u{5442}', '\u{0}', '\u{0}', '\u{0}')),
        0xF981 => Some((1, '\u{5973}', '\u{0}', '\u{0}', '\u{0}')),
        0xF982 => Some((1, '\u{5eec}', '\u{0}', '\u{0}', '\u{0}')),
        0xF983 => Some((1, '\u{65c5}', '\u{0}', '\u{0}', '\u{0}')),
        0xF984 => Some((1, '\u{6ffe}', '\u{0}', '\u{0}', '\u{0}')),
        0xF985 => Some((1, '\u{792a}', '\u{0}', '\u{0}', '\u{0}')),
        0xF986 => Some((1, '\u{95ad}', '\u{0}', '\u{0}', '\u{0}')),
        0xF987 => Some((1, '\u{9a6a}', '\u{0}', '\u{0}', '\u{0}')),
        0xF988 => Some((1, '\u{9e97}', '\u{0}', '\u{0}', '\u{0}')),
        0xF989 => Some((1, '\u{9ece}', '\u{0}', '\u{0}', '\u{0}')),
        0xF98A => Some((1, '\u{529b}', '\u{0}', '\u{0}', '\u{0}')),
        0xF98B => Some((1, '\u{66c6}', '\u{0}', '\u{0}', '\u{0}')),
        0xF98C => Some((1, '\u{6b77}', '\u{0}', '\u{0}', '\u{0}')),
        0xF98D => Some((1, '\u{8f62}', '\u{0}', '\u{0}', '\u{0}')),
        0xF98E => Some((1, '\u{5e74}', '\u{0}', '\u{0}', '\u{0}')),
        0xF98F => Some((1, '\u{6190}', '\u{0}', '\u{0}', '\u{0}')),
        0xF990 => Some((1, '\u{6200}', '\u{0}', '\u{0}', '\u{0}')),
        0xF991 => Some((1, '\u{649a}', '\u{0}', '\u{0}', '\u{0}')),
        0xF992 => Some((1, '\u{6f23}', '\u{0}', '\u{0}', '\u{0}')),
        0xF993 => Some((1, '\u{7149}', '\u{0}', '\u{0}', '\u{0}')),
        0xF994 => Some((1, '\u{7489}', '\u{0}', '\u{0}', '\u{0}')),
        0xF995 => Some((1, '\u{79ca}', '\u{0}', '\u{0}', '\u{0}')),
        0xF996 => Some((1, '\u{7df4}', '\u{0}', '\u{0}', '\u{0}')),
        0xF997 => Some((1, '\u{806f}', '\u{0}', '\u{0}', '\u{0}')),
        0xF998 => Some((1, '\u{8f26}', '\u{0}', '\u{0}', '\u{0}')),
        0xF999 => Some((1, '\u{84ee}', '\u{0}', '\u{0}', '\u{0}')),
        0xF99A => Some((1, '\u{9023}', '\u{0}', '\u{0}', '\u{0}')),
        0xF99B => Some((1, '\u{934a}', '\u{0}', '\u{0}', '\u{0}')),
        0xF99C => Some((1, '\u{5217}', '\u{0}', '\u{0}', '\u{0}')),
        0xF99D => Some((1, '\u{52a3}', '\u{0}', '\u{0}', '\u{0}')),
        0xF99E => Some((1, '\u{54bd}', '\u{0}', '\u{0}', '\u{0}')),
        0xF99F => Some((1, '\u{70c8}', '\u{0}', '\u{0}', '\u{0}')),
        0xF9A0 => Some((1, '\u{88c2}', '\u{0}', '\u{0}', '\u{0}')),
        0xF9A1 => Some((1, '\u{8aaa}', '\u{0}', '\u{0}', '\u{0}')),
        0xF9A2 => Some((1, '\u{5ec9}', '\u{0}', '\u{0}', '\u{0}')),
        0xF9A3 => Some((1, '\u{5ff5}', '\u{0}', '\u{0}', '\u{0}')),
        0xF9A4 => Some((1, '\u{637b}', '\u{0}', '\u{0}', '\u{0}')),
        0xF9A5 => Some((1, '\u{6bae}', '\u{0}', '\u{0}', '\u{0}')),
        0xF9A6 => Some((1, '\u{7c3e}', '\u{0}', '\u{0}', '\u{0}')),
        0xF9A7 => Some((1, '\u{7375}', '\u{0}', '\u{0}', '\u{0}')),
        0xF9A8 => Some((1, '\u{4ee4}', '\u{0}', '\u{0}', '\u{0}')),
        0xF9A9 => Some((1, '\u{56f9}', '\u{0}', '\u{0}', '\u{0}')),
        0xF9AA => Some((1, '\u{5be7}', '\u{0}', '\u{0}', '\u{0}')),
        0xF9AB => Some((1, '\u{5dba}', '\u{0}', '\u{0}', '\u{0}')),
        0xF9AC => Some((1, '\u{601c}', '\u{0}', '\u{0}', '\u{0}')),
        0xF9AD => Some((1, '\u{73b2}', '\u{0}', '\u{0}', '\u{0}')),
        0xF9AE => Some((1, '\u{7469}', '\u{0}', '\u{0}', '\u{0}')),
        0xF9AF => Some((1, '\u{7f9a}', '\u{0}', '\u{0}', '\u{0}')),
        0xF9B0 => Some((1, '\u{8046}', '\u{0}', '\u{0}', '\u{0}')),
        0xF9B1 => Some((1, '\u{9234}', '\u{0}', '\u{0}', '\u{0}')),
        0xF9B2 => Some((1, '\u{96f6}', '\u{0}', '\u{0}', '\u{0}')),
        0xF9B3 => Some((1, '\u{9748}', '\u{0}', '\u{0}', '\u{0}')),
        0xF9B4 => Some((1, '\u{9818}', '\u{0}', '\u{0}', '\u{0}')),
        0xF9B5 => Some((1, '\u{4f8b}', '\u{0}', '\u{0}', '\u{0}')),
        0xF9B6 => Some((1, '\u{79ae}', '\u{0}', '\u{0}', '\u{0}')),
        0xF9B7 => Some((1, '\u{91b4}', '\u{0}', '\u{0}', '\u{0}')),
        0xF9B8 => Some((1, '\u{96b8}', '\u{0}', '\u{0}', '\u{0}')),
        0xF9B9 => Some((1, '\u{60e1}', '\u{0}', '\u{0}', '\u{0}')),
        0xF9BA => Some((1, '\u{4e86}', '\u{0}', '\u{0}', '\u{0}')),
        0xF9BB => Some((1, '\u{50da}', '\u{0}', '\u{0}', '\u{0}')),
        0xF9BC => Some((1, '\u{5bee}', '\u{0}', '\u{0}', '\u{0}')),
        0xF9BD => Some((1, '\u{5c3f}', '\u{0}', '\u{0}', '\u{0}')),
        0xF9BE => Some((1, '\u{6599}', '\u{0}', '\u{0}', '\u{0}')),
        0xF9BF => Some((1, '\u{6a02}', '\u{0}', '\u{0}', '\u{0}')),
        0xF9C0 => Some((1, '\u{71ce}', '\u{0}', '\u{0}', '\u{0}')),
        0xF9C1 => Some((1, '\u{7642}', '\u{0}', '\u{0}', '\u{0}')),
        0xF9C2 => Some((1, '\u{84fc}', '\u{0}', '\u{0}', '\u{0}')),
        0xF9C3 => Some((1, '\u{907c}', '\u{0}', '\u{0}', '\u{0}')),
        0xF9C4 => Some((1, '\u{9f8d}', '\u{0}', '\u{0}', '\u{0}')),
        0xF9C5 => Some((1, '\u{6688}', '\u{0}', '\u{0}', '\u{0}')),
        0xF9C6 => Some((1, '\u{962e}', '\u{0}', '\u{0}', '\u{0}')),
        0xF9C7 => Some((1, '\u{5289}', '\u{0}', '\u{0}', '\u{0}')),
        0xF9C8 => Some((1, '\u{677b}', '\u{0}', '\u{0}', '\u{0}')),
        0xF9C9 => Some((1, '\u{67f3}', '\u{0}', '\u{0}', '\u{0}')),
        0xF9CA => Some((1, '\u{6d41}', '\u{0}', '\u{0}', '\u{0}')),
        0xF9CB => Some((1, '\u{6e9c}', '\u{0}', '\u{0}', '\u{0}')),
        0xF9CC => Some((1, '\u{7409}', '\u{0}', '\u{0}', '\u{0}')),
        0xF9CD => Some((1, '\u{7559}', '\u{0}', '\u{0}', '\u{0}')),
        0xF9CE => Some((1, '\u{786b}', '\u{0}', '\u{0}', '\u{0}')),
        0xF9CF => Some((1, '\u{7d10}', '\u{0}', '\u{0}', '\u{0}')),
        0xF9D0 => Some((1, '\u{985e}', '\u{0}', '\u{0}', '\u{0}')),
        0xF9D1 => Some((1, '\u{516d}', '\u{0}', '\u{0}', '\u{0}')),
        0xF9D2 => Some((1, '\u{622e}', '\u{0}', '\u{0}', '\u{0}')),
        0xF9D3 => Some((1, '\u{9678}', '\u{0}', '\u{0}', '\u{0}')),
        0xF9D4 => Some((1, '\u{502b}', '\u{0}', '\u{0}', '\u{0}')),
        0xF9D5 => Some((1, '\u{5d19}', '\u{0}', '\u{0}', '\u{0}')),
        0xF9D6 => Some((1, '\u{6dea}', '\u{0}', '\u{0}', '\u{0}')),
        0xF9D7 => Some((1, '\u{8f2a}', '\u{0}', '\u{0}', '\u{0}')),
        0xF9D8 => Some((1, '\u{5f8b}', '\u{0}', '\u{0}', '\u{0}')),
        0xF9D9 => Some((1, '\u{6144}', '\u{0}', '\u{0}', '\u{0}')),
        0xF9DA => Some((1, '\u{6817}', '\u{0}', '\u{0}', '\u{0}')),
        0xF9DB => Some((1, '\u{7387}', '\u{0}', '\u{0}', '\u{0}')),
        0xF9DC => Some((1, '\u{9686}', '\u{0}', '\u{0}', '\u{0}')),
        0xF9DD => Some((1, '\u{5229}', '\u{0}', '\u{0}', '\u{0}')),
        0xF9DE => Some((1, '\u{540f}', '\u{0}', '\u{0}', '\u{0}')),
        0xF9DF => Some((1, '\u{5c65}', '\u{0}', '\u{0}', '\u{0}')),
        0xF9E0 => Some((1, '\u{6613}', '\u{0}', '\u{0}', '\u{0}')),
        0xF9E1 => Some((1, '\u{674e}', '\u{0}', '\u{0}', '\u{0}')),
        0xF9E2 => Some((1, '\u{68a8}', '\u{0}', '\u{0}', '\u{0}')),
        0xF9E3 => Some((1, '\u{6ce5}', '\u{0}', '\u{0}', '\u{0}')),
        0xF9E4 => Some((1, '\u{7406}', '\u{0}', '\u{0}', '\u{0}')),
        0xF9E5 => Some((1, '\u{75e2}', '\u{0}', '\u{0}', '\u{0}')),
        0xF9E6 => Some((1, '\u{7f79}', '\u{0}', '\u{0}', '\u{0}')),
        0xF9E7 => Some((1, '\u{88cf}', '\u{0}', '\u{0}', '\u{0}')),
        0xF9E8 => Some((1, '\u{88e1}', '\u{0}', '\u{0}', '\u{0}')),
        0xF9E9 => Some((1, '\u{91cc}', '\u{0}', '\u{0}', '\u{0}')),
        0xF9EA => Some((1, '\u{96e2}', '\u{0}', '\u{0}', '\u{0}')),
        0xF9EB => Some((1, '\u{533f}', '\u{0}', '\u{0}', '\u{0}')),
        0xF9EC => Some((1, '\u{6eba}', '\u{0}', '\u{0}', '\u{0}')),
        0xF9ED => Some((1, '\u{541d}', '\u{0}', '\u{0}', '\u{0}')),
        0xF9EE => Some((1, '\u{71d0}', '\u{0}', '\u{0}', '\u{0}')),
        0xF9EF => Some((1, '\u{7498}', '\u{0}', '\u{0}', '\u{0}')),
        0xF9F0 => Some((1, '\u{85fa}', '\u{0}', '\u{0}', '\u{0}')),
        0xF9F1 => Some((1, '\u{96a3}', '\u{0}', '\u{0}', '\u{0}')),
        0xF9F2 => Some((1, '\u{9c57}', '\u{0}', '\u{0}', '\u{0}')),
        0xF9F3 => Some((1, '\u{9e9f}', '\u{0}', '\u{0}', '\u{0}')),
        0xF9F4 => Some((1, '\u{6797}', '\u{0}', '\u{0}', '\u{0}')),
        0xF9F5 => Some((1, '\u{6dcb}', '\u{0}', '\u{0}', '\u{0}')),
        0xF9F6 => Some((1, '\u{81e8}', '\u{0}', '\u{0}', '\u{0}')),
        0xF9F7 => Some((1, '\u{7acb}', '\u{0}', '\u{0}', '\u{0}')),
        0xF9F8 => Some((1, '\u{7b20}', '\u{0}', '\u{0}', '\u{0}')),
        0xF9F9 => Some((1, '\u{7c92}', '\u{0}', '\u{0}', '\u{0}')),
        0xF9FA => Some((1, '\u{72c0}', '\u{0}', '\u{0}', '\u{0}')),
        0xF9FB => Some((1, '\u{7099}', '\u{0}', '\u{0}', '\u{0}')),
        0xF9FC => Some((1, '\u{8b58}', '\u{0}', '\u{0}', '\u{0}')),
        0xF9FD => Some((1, '\u{4ec0}', '\u{0}', '\u{0}', '\u{0}')),
        0xF9FE => Some((1, '\u{8336}', '\u{0}', '\u{0}', '\u{0}')),
        0xF9FF => Some((1, '\u{523a}', '\u{0}', '\u{0}', '\u{0}')),
        0xFA00 => Some((1, '\u{5207}', '\u{0}', '\u{0}', '\u{0}')),
        0xFA01 => Some((1, '\u{5ea6}', '\u{0}', '\u{0}', '\u{0}')),
        0xFA02 => Some((1, '\u{62d3}', '\u{0}', '\u{0}', '\u{0}')),
        0xFA03 => Some((1, '\u{7cd6}', '\u{0}', '\u{0}', '\u{0}')),
        0xFA04 => Some((1, '\u{5b85}', '\u{0}', '\u{0}', '\u{0}')),
        0xFA05 => Some((1, '\u{6d1e}', '\u{0}', '\u{0}', '\u{0}')),
        0xFA06 => Some((1, '\u{66b4}', '\u{0}', '\u{0}', '\u{0}')),
        0xFA07 => Some((1, '\u{8f3b}', '\u{0}', '\u{0}', '\u{0}')),
        0xFA08 => Some((1, '\u{884c}', '\u{0}', '\u{0}', '\u{0}')),
        0xFA09 => Some((1, '\u{964d}', '\u{0}', '\u{0}', '\u{0}')),
        0xFA0A => Some((1, '\u{898b}', '\u{0}', '\u{0}', '\u{0}')),
        0xFA0B => Some((1, '\u{5ed3}', '\u{0}', '\u{0}', '\u{0}')),
        0xFA0C => Some((1, '\u{5140}', '\u{0}', '\u{0}', '\u{0}')),
        0xFA0D => Some((1, '\u{55c0}', '\u{0}', '\u{0}', '\u{0}')),
        0xFA10 => Some((1, '\u{585a}', '\u{0}', '\u{0}', '\u{0}')),
        0xFA12 => Some((1, '\u{6674}', '\u{0}', '\u{0}', '\u{0}')),
        0xFA15 => Some((1, '\u{51de}', '\u{0}', '\u{0}', '\u{0}')),
        0xFA16 => Some((1, '\u{732a}', '\u{0}', '\u{0}', '\u{0}')),
        0xFA17 => Some((1, '\u{76ca}', '\u{0}', '\u{0}', '\u{0}')),
        0xFA18 => Some((1, '\u{793c}', '\u{0}', '\u{0}', '\u{0}')),
        0xFA19 => Some((1, '\u{795e}', '\u{0}', '\u{0}', '\u{0}')),
        0xFA1A => Some((1, '\u{7965}', '\u{0}', '\u{0}', '\u{0}')),
        0xFA1B => Some((1, '\u{798f}', '\u{0}', '\u{0}', '\u{0}')),
        0xFA1C => Some((1, '\u{9756}', '\u{0}', '\u{0}', '\u{0}')),
        0xFA1D => Some((1, '\u{7cbe}', '\u{0}', '\u{0}', '\u{0}')),
        0xFA1E => Some((1, '\u{7fbd}', '\u{0}', '\u{0}', '\u{0}')),
        0xFA20 => Some((1, '\u{8612}', '\u{0}', '\u{0}', '\u{0}')),
        0xFA22 => Some((1, '\u{8af8}', '\u{0}', '\u{0}', '\u{0}')),
        0xFA25 => Some((1, '\u{9038}', '\u{0}', '\u{0}', '\u{0}')),
        0xFA26 => Some((1, '\u{90fd}', '\u{0}', '\u{0}', '\u{0}')),
        0xFA2A => Some((1, '\u{98ef}', '\u{0}', '\u{0}', '\u{0}')),
        0xFA2B => Some((1, '\u{98fc}', '\u{0}', '\u{0}', '\u{0}')),
        0xFA2C => Some((1, '\u{9928}', '\u{0}', '\u{0}', '\u{0}')),
        0xFA2D => Some((1, '\u{9db4}', '\u{0}', '\u{0}', '\u{0}')),
        0xFA2E => Some((1, '\u{90de}', '\u{0}', '\u{0}', '\u{0}')),
        0xFA2F => Some((1, '\u{96b7}', '\u{0}', '\u{0}', '\u{0}')),
        0xFA30 => Some((1, '\u{4fae}', '\u{0}', '\u{0}', '\u{0}')),
        0xFA31 => Some((1, '\u{50e7}', '\u{0}', '\u{0}', '\u{0}')),
        0xFA32 => Some((1, '\u{514d}', '\u{0}', '\u{0}', '\u{0}')),
        0xFA33 => Some((1, '\u{52c9}', '\u{0}', '\u{0}', '\u{0}')),
        0xFA34 => Some((1, '\u{52e4}', '\u{0}', '\u{0}', '\u{0}')),
        0xFA35 => Some((1, '\u{5351}', '\u{0}', '\u{0}', '\u{0}')),
        0xFA36 => Some((1, '\u{559d}', '\u{0}', '\u{0}', '\u{0}')),
        0xFA37 => Some((1, '\u{5606}', '\u{0}', '\u{0}', '\u{0}')),
        0xFA38 => Some((1, '\u{5668}', '\u{0}', '\u{0}', '\u{0}')),
        0xFA39 => Some((1, '\u{5840}', '\u{0}', '\u{0}', '\u{0}')),
        0xFA3A => Some((1, '\u{58a8}', '\u{0}', '\u{0}', '\u{0}')),
        0xFA3B => Some((1, '\u{5c64}', '\u{0}', '\u{0}', '\u{0}')),
        0xFA3C => Some((1, '\u{5c6e}', '\u{0}', '\u{0}', '\u{0}')),
        0xFA3D => Some((1, '\u{6094}', '\u{0}', '\u{0}', '\u{0}')),
        0xFA3E => Some((1, '\u{6168}', '\u{0}', '\u{0}', '\u{0}')),
        0xFA3F => Some((1, '\u{618e}', '\u{0}', '\u{0}', '\u{0}')),
        0xFA40 => Some((1, '\u{61f2}', '\u{0}', '\u{0}', '\u{0}')),
        0xFA41 => Some((1, '\u{654f}', '\u{0}', '\u{0}', '\u{0}')),
        0xFA42 => Some((1, '\u{65e2}', '\u{0}', '\u{0}', '\u{0}')),
        0xFA43 => Some((1, '\u{6691}', '\u{0}', '\u{0}', '\u{0}')),
        0xFA44 => Some((1, '\u{6885}', '\u{0}', '\u{0}', '\u{0}')),
        0xFA45 => Some((1, '\u{6d77}', '\u{0}', '\u{0}', '\u{0}')),
        0xFA46 => Some((1, '\u{6e1a}', '\u{0}', '\u{0}', '\u{0}')),
        0xFA47 => Some((1, '\u{6f22}', '\u{0}', '\u{0}', '\u{0}')),
        0xFA48 => Some((1, '\u{716e}', '\u{0}', '\u{0}', '\u{0}')),
        0xFA49 => Some((1, '\u{722b}', '\u{0}', '\u{0}', '\u{0}')),
        0xFA4A => Some((1, '\u{7422}', '\u{0}', '\u{0}', '\u{0}')),
        0xFA4B => Some((1, '\u{7891}', '\u{0}', '\u{0}', '\u{0}')),
        0xFA4C => Some((1, '\u{793e}', '\u{0}', '\u{0}', '\u{0}')),
        0xFA4D => Some((1, '\u{7949}', '\u{0}', '\u{0}', '\u{0}')),
        0xFA4E => Some((1, '\u{7948}', '\u{0}', '\u{0}', '\u{0}')),
        0xFA4F => Some((1, '\u{7950}', '\u{0}', '\u{0}', '\u{0}')),
        0xFA50 => Some((1, '\u{7956}', '\u{0}', '\u{0}', '\u{0}')),
        0xFA51 => Some((1, '\u{795d}', '\u{0}', '\u{0}', '\u{0}')),
        0xFA52 => Some((1, '\u{798d}', '\u{0}', '\u{0}', '\u{0}')),
        0xFA53 => Some((1, '\u{798e}', '\u{0}', '\u{0}', '\u{0}')),
        0xFA54 => Some((1, '\u{7a40}', '\u{0}', '\u{0}', '\u{0}')),
        0xFA55 => Some((1, '\u{7a81}', '\u{0}', '\u{0}', '\u{0}')),
        0xFA56 => Some((1, '\u{7bc0}', '\u{0}', '\u{0}', '\u{0}')),
        0xFA57 => Some((1, '\u{7df4}', '\u{0}', '\u{0}', '\u{0}')),
        0xFA58 => Some((1, '\u{7e09}', '\u{0}', '\u{0}', '\u{0}')),
        0xFA59 => Some((1, '\u{7e41}', '\u{0}', '\u{0}', '\u{0}')),
        0xFA5A => Some((1, '\u{7f72}', '\u{0}', '\u{0}', '\u{0}')),
        0xFA5B => Some((1, '\u{8005}', '\u{0}', '\u{0}', '\u{0}')),
        0xFA5C => Some((1, '\u{81ed}', '\u{0}', '\u{0}', '\u{0}')),
        0xFA5D => Some((1, '\u{8279}', '\u{0}', '\u{0}', '\u{0}')),
        0xFA5E => Some((1, '\u{8279}', '\u{0}', '\u{0}', '\u{0}')),
        0xFA5F => Some((1, '\u{8457}', '\u{0}', '\u{0}', '\u{0}')),
        0xFA60 => Some((1, '\u{8910}', '\u{0}', '\u{0}', '\u{0}')),
        0xFA61 => Some((1, '\u{8996}', '\u{0}', '\u{0}', '\u{0}')),
        0xFA62 => Some((1, '\u{8b01}', '\u{0}', '\u{0}', '\u{0}')),
        0xFA63 => Some((1, '\u{8b39}', '\u{0}', '\u{0}', '\u{0}')),
        0xFA64 => Some((1, '\u{8cd3}', '\u{0}', '\u{0}', '\u{0}')),
        0xFA65 => Some((1, '\u{8d08}', '\u{0}', '\u{0}', '\u{0}')),
        0xFA66 => Some((1, '\u{8fb6}', '\u{0}', '\u{0}', '\u{0}')),
        0xFA67 => Some((1, '\u{9038}', '\u{0}', '\u{0}', '\u{0}')),
        0xFA68 => Some((1, '\u{96e3}', '\u{0}', '\u{0}', '\u{0}')),
        0xFA69 => Some((1, '\u{97ff}', '\u{0}', '\u{0}', '\u{0}')),
        0xFA6A => Some((1, '\u{983b}', '\u{0}', '\u{0}', '\u{0}')),
        0xFA6B => Some((1, '\u{6075}', '\u{0}', '\u{0}', '\u{0}')),
        0xFA6C => Some((1, '\u{242ee}', '\u{0}', '\u{0}', '\u{0}')),
        0xFA6D => Some((1, '\u{8218}', '\u{0}', '\u{0}', '\u{0}')),
        0xFA70 => Some((1, '\u{4e26}', '\u{0}', '\u{0}', '\u{0}')),
        0xFA71 => Some((1, '\u{51b5}', '\u{0}', '\u{0}', '\u{0}')),
        0xFA72 => Some((1, '\u{5168}', '\u{0}', '\u{0}', '\u{0}')),
        0xFA73 => Some((1, '\u{4f80}', '\u{0}', '\u{0}', '\u{0}')),
        0xFA74 => Some((1, '\u{5145}', '\u{0}', '\u{0}', '\u{0}')),
        0xFA75 => Some((1, '\u{5180}', '\u{0}', '\u{0}', '\u{0}')),
        0xFA76 => Some((1, '\u{52c7}', '\u{0}', '\u{0}', '\u{0}')),
        0xFA77 => Some((1, '\u{52fa}', '\u{0}', '\u{0}', '\u{0}')),
        0xFA78 => Some((1, '\u{559d}', '\u{0}', '\u{0}', '\u{0}')),
        0xFA79 => Some((1, '\u{5555}', '\u{0}', '\u{0}', '\u{0}')),
        0xFA7A => Some((1, '\u{5599}', '\u{0}', '\u{0}', '\u{0}')),
        0xFA7B => Some((1, '\u{55e2}', '\u{0}', '\u{0}', '\u{0}')),
        0xFA7C => Some((1, '\u{585a}', '\u{0}', '\u{0}', '\u{0}')),
        0xFA7D => Some((1, '\u{58b3}', '\u{0}', '\u{0}', '\u{0}')),
        0xFA7E => Some((1, '\u{5944}', '\u{0}', '\u{0}', '\u{0}')),
        0xFA7F => Some((1, '\u{5954}', '\u{0}', '\u{0}', '\u{0}')),
        0xFA80 => Some((1, '\u{5a62}', '\u{0}', '\u{0}', '\u{0}')),
        0xFA81 => Some((1, '\u{5b28}', '\u{0}', '\u{0}', '\u{0}')),
        0xFA82 => Some((1, '\u{5ed2}', '\u{0}', '\u{0}', '\u{0}')),
        0xFA83 => Some((1, '\u{5ed9}', '\u{0}', '\u{0}', '\u{0}')),
        0xFA84 => Some((1, '\u{5f69}', '\u{0}', '\u{0}', '\u{0}')),
        0xFA85 => Some((1, '\u{5fad}', '\u{0}', '\u{0}', '\u{0}')),
        0xFA86 => Some((1, '\u{60d8}', '\u{0}', '\u{0}', '\u{0}')),
        0xFA87 => Some((1, '\u{614e}', '\u{0}', '\u{0}', '\u{0}')),
        0xFA88 => Some((1, '\u{6108}', '\u{0}', '\u{0}', '\u{0}')),
        0xFA89 => Some((1, '\u{618e}', '\u{0}', '\u{0}', '\u{0}')),
        0xFA8A => Some((1, '\u{6160}', '\u{0}', '\u{0}', '\u{0}')),
        0xFA8B => Some((1, '\u{61f2}', '\u{0}', '\u{0}', '\u{0}')),
        0xFA8C => Some((1, '\u{6234}', '\u{0}', '\u{0}', '\u{0}')),
        0xFA8D => Some((1, '\u{63c4}', '\u{0}', '\u{0}', '\u{0}')),
        0xFA8E => Some((1, '\u{641c}', '\u{0}', '\u{0}', '\u{0}')),
        0xFA8F => Some((1, '\u{6452}', '\u{0}', '\u{0}', '\u{0}')),
        0xFA90 => Some((1, '\u{6556}', '\u{0}', '\u{0}', '\u{0}')),
        0xFA91 => Some((1, '\u{6674}', '\u{0}', '\u{0}', '\u{0}')),
        0xFA92 => Some((1, '\u{6717}', '\u{0}', '\u{0}', '\u{0}')),
        0xFA93 => Some((1, '\u{671b}', '\u{0}', '\u{0}', '\u{0}')),
        0xFA94 => Some((1, '\u{6756}', '\u{0}', '\u{0}', '\u{0}')),
        0xFA95 => Some((1, '\u{6b79}', '\u{0}', '\u{0}', '\u{0}')),
        0xFA96 => Some((1, '\u{6bba}', '\u{0}', '\u{0}', '\u{0}')),
        0xFA97 => Some((1, '\u{6d41}', '\u{0}', '\u{0}', '\u{0}')),
        0xFA98 => Some((1, '\u{6edb}', '\u{0}', '\u{0}', '\u{0}')),
        0xFA99 => Some((1, '\u{6ecb}', '\u{0}', '\u{0}', '\u{0}')),
        0xFA9A => Some((1, '\u{6f22}', '\u{0}', '\u{0}', '\u{0}')),
        0xFA9B => Some((1, '\u{701e}', '\u{0}', '\u{0}', '\u{0}')),
        0xFA9C => Some((1, '\u{716e}', '\u{0}', '\u{0}', '\u{0}')),
        0xFA9D => Some((1, '\u{77a7}', '\u{0}', '\u{0}', '\u{0}')),
        0xFA9E => Some((1, '\u{7235}', '\u{0}', '\u{0}', '\u{0}')),
        0xFA9F => Some((1, '\u{72af}', '\u{0}', '\u{0}', '\u{0}')),
        0xFAA0 => Some((1, '\u{732a}', '\u{0}', '\u{0}', '\u{0}')),
        0xFAA1 => Some((1, '\u{7471}', '\u{0}', '\u{0}', '\u{0}')),
        0xFAA2 => Some((1, '\u{7506}', '\u{0}', '\u{0}', '\u{0}')),
        0xFAA3 => Some((1, '\u{753b}', '\u{0}', '\u{0}', '\u{0}')),
        0xFAA4 => Some((1, '\u{761d}', '\u{0}', '\u{0}', '\u{0}')),
        0xFAA5 => Some((1, '\u{761f}', '\u{0}', '\u{0}', '\u{0}')),
        0xFAA6 => Some((1, '\u{76ca}', '\u{0}', '\u{0}', '\u{0}')),
        0xFAA7 => Some((1, '\u{76db}', '\u{0}', '\u{0}', '\u{0}')),
        0xFAA8 => Some((1, '\u{76f4}', '\u{0}', '\u{0}', '\u{0}')),
        0xFAA9 => Some((1, '\u{774a}', '\u{0}', '\u{0}', '\u{0}')),
        0xFAAA => Some((1, '\u{7740}', '\u{0}', '\u{0}', '\u{0}')),
        0xFAAB => Some((1, '\u{78cc}', '\u{0}', '\u{0}', '\u{0}')),
        0xFAAC => Some((1, '\u{7ab1}', '\u{0}', '\u{0}', '\u{0}')),
        0xFAAD => Some((1, '\u{7bc0}', '\u{0}', '\u{0}', '\u{0}')),
        0xFAAE => Some((1, '\u{7c7b}', '\u{0}', '\u{0}', '\u{0}')),
        0xFAAF => Some((1, '\u{7d5b}', '\u{0}', '\u{0}', '\u{0}')),
        0xFAB0 => Some((1, '\u{7df4}', '\u{0}', '\u{0}', '\u{0}')),
        0xFAB1 => Some((1, '\u{7f3e}', '\u{0}', '\u{0}', '\u{0}')),
        0xFAB2 => Some((1, '\u{8005}', '\u{0}', '\u{0}', '\u{0}')),
        0xFAB3 => Some((1, '\u{8352}', '\u{0}', '\u{0}', '\u{0}')),
        0xFAB4 => Some((1, '\u{83ef}', '\u{0}', '\u{0}', '\u{0}')),
        0xFAB5 => Some((1, '\u{8779}', '\u{0}', '\u{0}', '\u{0}')),
        0xFAB6 => Some((1, '\u{8941}', '\u{0}', '\u{0}', '\u{0}')),
        0xFAB7 => Some((1, '\u{8986}', '\u{0}', '\u{0}', '\u{0}')),
        0xFAB8 => Some((1, '\u{8996}', '\u{0}', '\u{0}', '\u{0}')),
        0xFAB9 => Some((1, '\u{8abf}', '\u{0}', '\u{0}', '\u{0}')),
        0xFABA => Some((1, '\u{8af8}', '\u{0}', '\u{0}', '\u{0}')),
        0xFABB => Some((1, '\u{8acb}', '\u{0}', '\u{0}', '\u{0}')),
        0xFABC => Some((1, '\u{8b01}', '\u{0}', '\u{0}', '\u{0}')),
        0xFABD => Some((1, '\u{8afe}', '\u{0}', '\u{0}', '\u{0}')),
        0xFABE => Some((1, '\u{8aed}', '\u{0}', '\u{0}', '\u{0}')),
        0xFABF => Some((1, '\u{8b39}', '\u{0}', '\u{0}', '\u{0}')),
        0xFAC0 => Some((1, '\u{8b8a}', '\u{0}', '\u{0}', '\u{0}')),
        0xFAC1 => Some((1, '\u{8d08}', '\u{0}', '\u{0}', '\u{0}')),
        0xFAC2 => Some((1, '\u{8f38}', '\u{0}', '\u{0}', '\u{0}')),
        0xFAC3 => Some((1, '\u{9072}', '\u{0}', '\u{0}', '\u{0}')),
        0xFAC4 => Some((1, '\u{9199}', '\u{0}', '\u{0}', '\u{0}')),
        0xFAC5 => Some((1, '\u{9276}', '\u{0}', '\u{0}', '\u{0}')),
        0xFAC6 => Some((1, '\u{967c}', '\u{0}', '\u{0}', '\u{0}')),
        0xFAC7 => Some((1, '\u{96e3}', '\u{0}', '\u{0}', '\u{0}')),
        0xFAC8 => Some((1, '\u{9756}', '\u{0}', '\u{0}', '\u{0}')),
        0xFAC9 => Some((1, '\u{97db}', '\u{0}', '\u{0}', '\u{0}')),
        0xFACA => Some((1, '\u{97ff}', '\u{0}', '\u{0}', '\u{0}')),
        0xFACB => Some((1, '\u{980b}', '\u{0}', '\u{0}', '\u{0}')),
        0xFACC => Some((1, '\u{983b}', '\u{0}', '\u{0}', '\u{0}')),
        0xFACD => Some((1, '\u{9b12}', '\u{0}', '\u{0}', '\u{0}')),
        0xFACE => Some((1, '\u{9f9c}', '\u{0}', '\u{0}', '\u{0}')),
        0xFACF => Some((1, '\u{2284a}', '\u{0}', '\u{0}', '\u{0}')),
        0xFAD0 => Some((1, '\u{22844}', '\u{0}', '\u{0}', '\u{0}')),
        0xFAD1 => Some((1, '\u{233d5}', '\u{0}', '\u{0}', '\u{0}')),
        0xFAD2 => Some((1, '\u{3b9d}', '\u{0}', '\u{0}', '\u{0}')),
        0xFAD3 => Some((1, '\u{4018}', '\u{0}', '\u{0}', '\u{0}')),
        0xFAD4 => Some((1, '\u{4039}', '\u{0}', '\u{0}', '\u{0}')),
        0xFAD5 => Some((1, '\u{25249}', '\u{0}', '\u{0}', '\u{0}')),
        0xFAD6 => Some((1, '\u{25cd0}', '\u{0}', '\u{0}', '\u{0}')),
        0xFAD7 => Some((1, '\u{27ed3}', '\u{0}', '\u{0}', '\u{0}')),
        0xFAD8 => Some((1, '\u{9f43}', '\u{0}', '\u{0}', '\u{0}')),
        0xFAD9 => Some((1, '\u{9f8e}', '\u{0}', '\u{0}', '\u{0}')),
        0xFB1D => Some((2, '\u{5d9}', '\u{5b4}', '\u{0}', '\u{0}')),
        0xFB1F => Some((2, '\u{5f2}', '\u{5b7}', '\u{0}', '\u{0}')),
        0xFB2A => Some((2, '\u{5e9}', '\u{5c1}', '\u{0}', '\u{0}')),
        0xFB2B => Some((2, '\u{5e9}', '\u{5c2}', '\u{0}', '\u{0}')),
        0xFB2C => Some((3, '\u{5e9}', '\u{5bc}', '\u{5c1}', '\u{0}')),
        0xFB2D => Some((3, '\u{5e9}', '\u{5bc}', '\u{5c2}', '\u{0}')),
        0xFB2E => Some((2, '\u{5d0}', '\u{5b7}', '\u{0}', '\u{0}')),
        0xFB2F => Some((2, '\u{5d0}', '\u{5b8}', '\u{0}', '\u{0}')),
        0xFB30 => Some((2, '\u{5d0}', '\u{5bc}', '\u{0}', '\u{0}')),
        0xFB31 => Some((2, '\u{5d1}', '\u{5bc}', '\u{0}', '\u{0}')),
        0xFB32 => Some((2, '\u{5d2}', '\u{5bc}', '\u{0}', '\u{0}')),
        0xFB33 => Some((2, '\u{5d3}', '\u{5bc}', '\u{0}', '\u{0}')),
        0xFB34 => Some((2, '\u{5d4}', '\u{5bc}', '\u{0}', '\u{0}')),
        0xFB35 => Some((2, '\u{5d5}', '\u{5bc}', '\u{0}', '\u{0}')),
        0xFB36 => Some((2, '\u{5d6}', '\u{5bc}', '\u{0}', '\u{0}')),
        0xFB38 => Some((2, '\u{5d8}', '\u{5bc}', '\u{0}', '\u{0}')),
        0xFB39 => Some((2, '\u{5d9}', '\u{5bc}', '\u{0}', '\u{0}')),
        0xFB3A => Some((2, '\u{5da}', '\u{5bc}', '\u{0}', '\u{0}')),
        0xFB3B => Some((2, '\u{5db}', '\u{5bc}', '\u{0}', '\u{0}')),
        0xFB3C => Some((2, '\u{5dc}', '\u{5bc}', '\u{0}', '\u{0}')),
        0xFB3E => Some((2, '\u{5de}', '\u{5bc}', '\u{0}', '\u{0}')),
        0xFB40 => Some((2, '\u{5e0}', '\u{5bc}', '\u{0}', '\u{0}')),
        0xFB41 => Some((2, '\u{5e1}', '\u{5bc}', '\u{0}', '\u{0}')),
        0xFB43 => Some((2, '\u{5e3}', '\u{5bc}', '\u{0}', '\u{0}')),
        0xFB44 => Some((2, '\u{5e4}', '\u{5bc}', '\u{0}', '\u{0}')),
        0xFB46 => Some((2, '\u{5e6}', '\u{5bc}', '\u{0}', '\u{0}')),
        0xFB47 => Some((2, '\u{5e7}', '\u{5bc}', '\u{0}', '\u{0}')),
        0xFB48 => Some((2, '\u{5e8}', '\u{5bc}', '\u{0}', '\u{0}')),
        0xFB49 => Some((2, '\u{5e9}', '\u{5bc}', '\u{0}', '\u{0}')),
        0xFB4A => Some((2, '\u{5ea}', '\u{5bc}', '\u{0}', '\u{0}')),
        0xFB4B => Some((2, '\u{5d5}', '\u{5b9}', '\u{0}', '\u{0}')),
        0xFB4C => Some((2, '\u{5d1}', '\u{5bf}', '\u{0}', '\u{0}')),
        0xFB4D => Some((2, '\u{5db}', '\u{5bf}', '\u{0}', '\u{0}')),
        0xFB4E => Some((2, '\u{5e4}', '\u{5bf}', '\u{0}', '\u{0}')),
        _ => None,
    }
}

/// The canonical decompositions of the characters U+11000 to U+11FFF, as
/// (length, characters padded with U+0000).
pub open spec fn decomposition_11(u: u32) -> Option<(u8, char, char, char, char)> {
    match u {
        0x1109A => Some((2, '\u{11099}', '\u{110ba}', '\u{0}', '\u{0}')),
        0x1109C => Some((2, '\u{1109b}', '\u{110ba}', '\u{0}', '\u{0}')),
        0x110AB => Some((2, '\u{110a5}', '\u{110ba}', '\u{0}', '\u{0}')),
        0x1112E => Some((2, '\u{11131}', '\u{11127}', '\u{0}', '\u{0}')),
        0x1112F => Some((2, '\u{11132}', '\u{11127}', '\u{0}', '\u{0}')),
        0x1134B => Some((2, '\u{11347}', '\u{1133e}', '\u{0}', '\u{0}')),
        0x1134C => Some((2, '\u{11347}', '\u{11357}', '\u{0}', '\u{0}')),
        0x114BB => Some((2, '\u{114b9}', '\u{114ba}', '\u{0}', '\u{0}')),
        0x114BC => Some((2, '\u{114b9}', '\u{114b0}', '\u{0}', '\u{0}')),
        0x114BE => Some((2, '\u{114b9}', '\u{114bd}', '\u{0}', '\u{0}')),
        0x115BA => Some((2, '\u{115b8}', '\u{115af}', '\u{0}', '\u{0}')),
        0x115BB => Some((2, '\u{115b9}', '\u{115af}', '\u{0}', '\u{0}')),
        0x11938 => Some((2, '\u{11935}', '\u{11930}', '\u{0}', '\u{0}')),
        _ => None,
    }
}

fn decomposition_11_of(u: u32) -> (r: Option<(u8, char, char, char, char)>)
    ensures
        r == decomposition_11(u),
{
    match u {
        0x1109A => Some((2, '\u{11099}', '\u{110ba}', '\u{0}', '\u{0}')),
        0x1109C => Some((2, '\u{1109b}', '\u{110ba}', '\u{0}', '\u{0}')),
        0x110AB => Some((2, '\u{110a5}', '\u{110ba}', '\u{0}', '\u{0}')),
        0x1112E => Some((2, '\u{11131}', '\u{11127}', '\u{0}', '\u{0}')),
        0x1112F => Some((2, '\u{11132}', '\u{11127}', '\u{0}', '\u{0}')),
        0x1134B => Some((2, '\u{11347}', '\u{1133e}', '\u{0}', '\u{0}')),
        0x1134C => Some((2, '\u{11347}', '\u{11357}', '\u{0}', '\u{0}')),
        0x114BB => Some((2, '\u{114b9}', '\u{114ba}', '\u{0}', '\u{0}')),
        0x114BC => Some((2, '\u{114b9}', '\u{114b0}', '\u{0}', '\u{0}')),
        0x114BE => Some((2, '\u{114b9}', '\u{114bd}', '\u{0}', '\u{0}')),
        0x115BA => Some((2, '\u{115b8}', '\u{115af}', '\u{0}', '\u{0}')),
        0x115BB => Some((2, '\u{115b9}', '\u{115af}', '\u{0}', '\u{0}')),
        0x11938 => Some((2, '\u{11935}', '\u{11930}', '\u{0}', '\u{0}')),
        _ => None,
    }
}

/// The canonical decompositions of the characters U+1D000 to U+1DFFF, as
/// (length, characters padded with U+0000).
pub open spec fn decomposition_1d(u: u32) -> Option<(u8, char, char, char, char)> {
    match u {
        0x1D15E => Some((2, '\u{1d157}', '\u{1d165}', '\u{0}', '\u{0}')),
        0x1D15F => Some((2, '\u{1d158}', '\u{1d165}', '\u{0}', '\u{0}')),
        0x1D160 => Some((3, '\u{1d158}', '\u{1d165}', '\u{1d16e}', '\u{0}')),
        0x1D161 => Some((3, '\u{1d158}', '\u{1d165}', '\u{1d16f}', '\u{0}')),
        0x1D162 => Some((3, '\u{1d158}', '\u{1d165}', '\u{1d170}', '\u{0}')),
        0x1D163 => Some((3, '\u{1d158}', '\u{1d165}', '\u{1d171}', '\u{0}')),
        0x1D164 => Some((3, '\u{1d158}', '\u{1d165}', '\u{1d172}', '\u{0}')),
        0x1D1BB => Some((2, '\u{1d1b9}', '\u{1d165}', '\u{0}', '\u{0}')),
        0x1D1BC => Some((2, '\u{1d1ba}', '\u{1d165}', '\u{0}', '\u{0}')),
        0x1D1BD => Some((3, '\u{1d1b9}', '\u{1d165}', '\u{1d16e}', '\u{0}')),
        0x1D1BE => Some((3, '\u{1d1ba}', '\u{1d165}', '\u{1d16e}', '\u{0}')),
        0x1D1BF => Some((3, '\u{1d1b9}', '\u{1d165}', '\u{1d16f}', '\u{0}')),
        0x1D1C0 => Some((3, '\u{1d1ba}', '\u{1d165}', '\u{1d16f}', '\u{0}')),
        _ => None,
    }
}

fn decomposition_1d_of(u: u32) -> (r: Option<(u8, char, char, char, char)>)
    ensures
        r == decomposition_1d(u),
{
    match u {
        0x1D15E => Some((2, '\u{1d157}', '\u{1d165}', '\u{0}', '\u{0}')),
        0x1D15F => Some((2, '\u{1d158}', '\u{1d165}', '\u{0}', '\u{0}')),
        0x1D160 => Some((3, '\u{1d158}', '\u{1d165}', '\u{1d16e}', '\u{0}')),
        0x1D161 => Some((3, '\u{1d158}', '\u{1d165}', '\u{1d16f}', '\u{0}')),
        0x1D162 => Some((3, '\u{1d158}', '\u{1d165}', '\u{1d170}', '\u{0}')),
        0x1D163 => Some((3, '\u{1d158}', '\u{1d165}', '\u{1d171}', '\u{0}')),
        0x1D164 => Some((3, '\u{1d158}', '\u{1d165}', '\u{1d172}', '\u{0}')),
        0x1D1BB => Some((2, '\u{1d1b9}', '\u{1d165}', '\u{0}', '\u{0}')),
        0x1D1BC => Some((2, '\u{1d1ba}', '\u{1d165}', '\u{0}', '\u{0}')),
        0x1D1BD => Some((3, '\u{1d1b9}', '\u{1d165}', '\u{1d16e}', '\u{0}')),
        0x1D1BE => Some((3, '\u{1d1ba}', '\u{1d165}', '\u{1d16e}', '\u{0}')),
        0x1D1BF => Some((3, '\u{1d1b9}', '\u{1d165}', '\u{1d16f}', '\u{0}')),
        0x1D1C0 => Some((3, '\u{1d1ba}', '\u{1d165}', '\u{1d16f}', '\u{0}')),
        _ => None,
    }
}

/// The canonical decompositions of the characters U+2F000 to U+2FFFF, as
/// (length, characters padded with U+0000).
pub open spec fn decomposition_2f(u: u32) -> Option<(u8, char, char, char, char)> {
    match u {
        0x2F800 => Some((1, '\u{4e3d}', '\u{0}', '\u{0}', '\u{0}')),
        0x2F801 => Some((1, '\u{4e38}', '\u{0}', '\u{0}', '\u{0}')),
        0x2F802 => Some((1, '\u{4e41}', '\u{0}', '\u{0}', '\u{0}')),
        0x2F803 => Some((1, '\u{20122}', '\u{0}', '\u{0}', '\u{0}')),
        0x2F804 => Some((1, '\u{4f60}', '\u{0}', '\u{0}', '\u{0}')),
        0x2F805 => Some((1, '\u{4fae}', '\u{0}', '\u{0}', '\u{0}')),
        0x2F806 => Some((1, '\u{4fbb}', '\u{0}', '\u{0}', '\u{0}')),
        0x2F807 => Some((1, '\u{5002}', '\u{0}', '\u{0}', '\u{0}')),
        0x2F808 => Some((1, '\u{507a}', '\u{0}', '\u{0}', '\u{0}')),
        0x2F809 => Some((1, '\u{5099}', '\u{0}', '\u{0}', '\u{0}')),
        0x2F80A => Some((1, '\u{50e7}', '\u{0}', '\u{0}', '\u{0}')),
        0x2F80B => Some((1, '\u{50cf}', '\u{0}', '\u{0}', '\u{0}')),
        0x2F80C => Some((1, '\u{349e}', '\u{0}', '\u{0}', '\u{0}')),
        0x2F80D => Some((1, '\u{2063a}', '\u{0}', '\u{0}', '\u{0}')),
        0x2F80E => Some((1, '\u{514d}', '\u{0}', '\u{0}', '\u{0}')),
        0x2F80F => Some((1, '\u{5154}', '\u{0}', '\u{0}', '\u{0}')),
        0x2F810 => Some((1, '\u{5164}', '\u{0}', '\u{0}', '\u{0}')),
        0x2F811 => Some((1, '\u{5177}', '\u{0}', '\u{0}', '\u{0}')),
        0x2F812 => Some((1, '\u{2051c}', '\u{0}', '\u{0}', '\u{0}')),
        0x2F813 => Some((1, '\u{34b9}', '\u{0}', '\u{0}', '\u{0}')),
        0x2F814 => Some((1, '\u{5167}', '\u{0}', '\u{0}', '\u{0}')),
        0x2F815 => Some((1, '\u{518d}', '\u{0}', '\u{0}', '\u{0}')),
        0x2F816 => Some((1, '\u{2054b}', '\u{0}', '\u{0}', '\u{0}')),
        0x2F817 => Some((1, '\u{5197}', '\u{0}', '\u{0}', '\u{0}')),
        0x2F818 => Some((1, '\u{51a4}', '\u{0}', '\u{0}', '\u{0}')),
        0x2F819 => Some((1, '\u{4ecc}', '\u{0}', '\u{0}', '\u{0}')),
        0x2F81A => Some((1, '\u{51ac}', '\u{0}', '\u{0}', '\u{0}')),
        0x2F81B => Some((1, '\u{51b5}', '\u{0}', '\u{0}', '\u{0}')),
        0x2F81C => Some((1, '\u{291df}', '\u{0}', '\u{0}', '\u{0}')),
        0x2F81D => Some((1, '\u{51f5}', '\u{0}', '\u{0}', '\u{0}')),
        0x2F81E => Some((1, '\u{5203}', '\u{0}', '\u{0}', '\u{0}')),
        0x2F81F => Some((1, '\u{34df}', '\u{0}', '\u{0}', '\u{0}')),
        0x2F820 => Some((1, '\u{523b}', '\u{0}', '\u{0}', '\u{0}')),
        0x2F821 => Some((1, '\u{5246}', '\u{0}', '\u{0}', '\u{0}')),
        0x2F822 => Some((1, '\u{5272}', '\u{0}', '\u{0}', '\u{0}')),
        0x2F823 => Some((1, '\u{5277}', '\u{0}', '\u{0}', '\u{0}')),
        0x2F824 => Some((1, '\u{3515}', '\u{0}', '\u{0}', '\u{0}')),
        0x2F825 => Some((1, '\u{52c7}', '\u{0}', '\u{0}', '\u{0}')),
        0x2F826 => Some((1, '\u{52c9}', '\u{0}', '\u{0}', '\u{0}')),
        0x2F827 => Some((1, '\u{52e4}', '\u{0}', '\u{0}', '\u{0}')),
        0x2F828 => Some((1, '\u{52fa}', '\u{0}', '\u{0}', '\u{0}')),
        0x2F829 => Some((1, '\u{5305}', '\u{0}', '\u{0}', '\u{0}')),
        0x2F82A => Some((1, '\u{5306}', '\u{0}', '\u{0}', '\u{0}')),
        0x2F82B => Some((1, '\u{5317}', '\u{0}', '\u{0}', '\u{0}')),
        0x2F82C => Some((1, '\u{5349}', '\u{0}', '\u{0}', '\u{0}')),
        0x2F82D => Some((1, '\u{5351}', '\u{0}', '\u{0}', '\u{0}')),
        0x2F82E => Some((1, '\u{535a}', '\u{0}', '\u{0}', '\u{0}')),
        0x2F82F => Some((1, '\u{5373}', '\u{0}', '\u{0}', '\u{0}')),
        0x2F830 => Some((1, '\u{537d}', '\u{0}', '\u{0}', '\u{0}')),
        0x2F831 => Some((1, '\u{537f}', '\u{0}', '\u{0}', '\u{0}')),
        0x2F832 => Some((1, '\u{537f}', '\u{0}', '\u{0}', '\u{0}')),
        0x2F833 => Some((1, '\u{537f}', '\u{0}', '\u{0}', '\u{0}')),
        0x2F834 => Some((1, '\u{20a2c}', '\u{0}', '\u{0}', '\u{0}')),
        0x2F835 => Some((1, '\u{7070}', '\u{0}', '\u{0}', '\u{0}')),
        0x2F836 => Some((1, '\u{53ca}', '\u{0}', '\u{0}', '\u{0}')),
        0x2F837 => Some((1, '\u{53df}', '\u{0}', '\u{0}', '\u{0}')),
        0x2F838 => Some((1, '\u{20b63}', '\u{0}', '\u{0}', '\u{0}')),
        0x2F839 => Some((1, '\u{53eb}', '\u{0}', '\u{0}', '\u{0}')),
        0x2F83A => Some((1, '\u{53f1}', '\u{0}', '\u{0}', '\u{0}')),
        0x2F83B => Some((1, '\u{5406}', '\u{0}', '\u{0}', '\u{0}')),
        0x2F83C => Some((1, '\u{549e}', '\u{0}', '\u{0}', '\u{0}')),
        0x2F83D => Some((1, '\u{5438}', '\u{0}', '\u{0}', '\u{0}')),
        0x2F83E => Some((1, '\u{5448}', '\u{0}', '\u{0}', '\u{0}')),
        0x2F83F => Some((1, '\u{5468}', '\u{0}', '\u{0}', '\u{0}')),
        0x2F840 => Some((1, '\u{54a2}', '\u{0}', '\u{0}', '\u{0}')),
        0x2F841 => Some((1, '\u{54f6}', '\u{0}', '\u{0}', '\u{0}')),
        0x2F842 => Some((1, '\u{5510}', '\u{0}', '\u{0}', '\u{0}')),
        0x2F843 => Some((1, '\u{5553}', '\u{0}', '\u{0}', '\u{0}')),
        0x2F844 => Some((1, '\u{5563}', '\u{0}', '\u{0}', '\u{0}')),
        0x2F845 => Some((1, '\u{5584}', '\u{0}', '\u{0}', '\u{0}')),
        0x2F846 => Some((1, '\u{5584}', '\u{0}', '\u{0}', '\u{0}')),
        0x2F847 => Some((1, '\u{5599}', '\u{0}', '\u{0}', '\u{0}')),
        0x2F848 => Some((1, '\u{55ab}', '\u{0}', '\u{0}', '\u{0}')),
        0x2F849 => Some((1, '\u{55b3}', '\u{0}', '\u{0}', '\u{0}')),
        0x2F84A => Some((1, '\u{55c2}', '\u{0}', '\u{0}', '\u{0}')),
        0x2F84B => Some((1, '\u{5716}', '\u{0}', '\u{0}', '\u{0}')),
        0x2F84C => Some((1, '\u{5606}', '\u{0}', '\u{0}', '\u{0}')),
        0x2F84D => Some((1, '\u{5717}', '\u{0}', '\u{0}', '\u{0}')),
        0x2F84E => Some((1, '\u{5651}', '\u{0}', '\u{0}', '\u{0}')),
        0x2F84F => Some((1, '\u{5674}', '\u{0}', '\u{0}', '\u{0}')),
        0x2F850 => Some((1, '\u{5207}', '\u{0}', '\u{0}', '\u{0}')),
        0x2F851 => Some((1, '\u{58ee}', '\u{0}', '\u{0}', '\u{0}')),
        0x2F852 => Some((1, '\u{57ce}', '\u{0}', '\u{0}', '\u{0}')),
        0x2F853 => Some((1, '\u{57f4}', '\u{0}', '\u{0}', '\u{0}')),
        0x2F854 => Some((1, '\u{580d}', '\u{0}', '\u{0}', '\u{0}')),
        0x2F855 => Some((1, '\u{578b}', '\u{0}', '\u{0}', '\u{0}')),
        0x2F856 => Some((1, '\u{5832}', '\u{0}', '\u{0}', '\u{0}')),
        0x2F857 => Some((1, '\u{5831}', '\u{0}', '\u{0}', '\u{0}')),
        0x2F858 => Some((1, '\u{58ac}', '\u{0}', '\u{0}', '\u{0}')),
        0x2F859 => Some((1, '\u{214e4}', '\u{0}', '\u{0}', '\u{0}')),
        0x2F85A => Some((1, '\u{58f2}', '\u{0}', '\u{0}', '\u{0}')),
        0x2F85B => Some((1, '\u{58f7}', '\u{0}', '\u{0}', '\u{0}')),
        0x2F85C => Some((1, '\u{5906}', '\u{0}', '\u{0}', '\u{0}')),
        0x2F85D => Some((1, '\u{591a}', '\u{0}', '\u{0}', '\u{0}')),
        0x2F85E => Some((1, '\u{5922}', '\u{0}', '\u{0}', '\u{0}')),
        0x2F85F => Some((1, '\u{5962}', '\u{0}', '\u{0}', '\u{0}')),
        0x2F860 => Some((1, '\u{216a8}', '\u{0}', '\u{0}', '\u{0}')),
        0x2F861 => Some((1, '\u{216ea}', '\u{0}', '\u{0}', '\u{0}')),
        0x2F862 => Some((1, '\u{59ec}', '\u{0}', '\u{0}', '\u{0}')),
        0x2F863 => Some((1, '\u{5a1b}', '\u{0}', '\u{0}', '\u{0}')),
        0x2F864 => Some((1, '\u{5a27}', '\u{0}', '\u{0}', '\u{0}')),
        0x2F865 => Some((1, '\u{59d8}', '\u{0}', '\u{0}', '\u{0}')),
        0x2F866 => Some((1, '\u{5a66}', '\u{0}', '\u{0}', '\u{0}')),
        0x2F867 => Some((1, '\u{36ee}', '\u{0}', '\u{0}', '\u{0}')),
        0x2F868 => Some((1, '\u{36fc}', '\u{0}', '\u{0}', '\u{0}')),
        0x2F869 => Some((1, '\u{5b08}', '\u{0}', '\u{0}', '\u{0}')),
        0x2F86A => Some((1, '\u{5b3e}', '\u{0}', '\u{0}', '\u{0}')),
        0x2F86B => Some((1, '\u{5b3e}', '\u{0}', '\u{0}', '\u{0}')),
        0x2F86C => Some((1, '\u{219c8}', '\u{0}', '\u{0}', '\u{0}')),
        0x2F86D => Some((1, '\u{5bc3}', '\u{0}', '\u{0}', '\u{0}')),
        0x2F86E => Some((1, '\u{5bd8}', '\u{0}', '\u{0}', '\u{0}')),
        0x2F86F => Some((1, '\u{5be7}', '\u{0}', '\u{0}', '\u{0}')),
        0x2F870 => Some((1, '\u{5bf3}', '\u{0}', '\u{0}', '\u{0}')),
        0x2F871 => Some((1, '\u{21b18}', '\u{0}', '\u{0}', '\u{0}')),
        0x2F872 => Some((1, '\u{5bff}', '\u{0}', '\u{0}', '\u{0}')),
        0x2F873 => Some((1, '\u{5c06}', '\u{0}', '\u{0}', '\u{0}')),
        0x2F874 => Some((1, '\u{5f53}', '\u{0}', '\u{0}', '\u{0}')),
        0x2F875 => Some((1, '\u{5c22}', '\u{0}', '\u{0}', '\u{0}')),
        0x2F876 => Some((1, '\u{3781}', '\u{0}', '\u{0}', '\u{0}')),
        0x2F877 => Some((1, '\u{5c60}', '\u{0}', '\u{0}', '\u{0}')),
        0x2F878 => Some((1, '\u{5c6e}', '\u{0}', '\u{0}', '\u{0}')),
        0x2F879 => Some((1, '\u{5cc0}', '\u{0}', '\u{0}', '\u{0}')),
        0x2F87A => Some((1, '\u{5c8d}', '\u{0}', '\u{0}', '\u{0}')),
        0x2F87B => Some((1, '\u{21de4}', '\u{0}', '\u{0}', '\u{0}')),
        0x2F87C => Some((1, '\u{5d43}', '\u{0}', '\u{0}', '\u{0}')),
        0x2F87D => Some((1, '\u{21de6}', '\u{0}', '\u{0}', '\u{0}')),
        0x2F87E => Some((1, '\u{5d6e}', '\u{0}', '\u{0}', '\u{0}')),
        0x2F87F => Some((1, '\u{5d6b}', '\u{0}', '\u{0}', '\u{0}')),
        0x2F880 => Some((1, '\u{5d7c}', '\u{0}', '\u{0}', '\u{0}')),
        0x2F881 => Some((1, '\u{5de1}', '\u{0}', '\u{0}', '\u{0}')),
        0x2F882 => Some((1, '\u{5de2}', '\u{0}', '\u{0}', '\u{0}')),
        0x2F883 => Some((1, '\u{382f}', '\u{0}', '\u{0}', '\u{0}')),
        0x2F884 => Some((1, '\u{5dfd}', '\u{0}', '\u{0}', '\u{0}')),
        0x2F885 => Some((1, '\u{5e28}', '\u{0}', '\u{0}', '\u{0}')),
        0x2F886 => Some((1, '\u{5e3d}', '\u{0}', '\u{0}', '\u{0}')),
        0x2F887 => Some((1, '\u{5e69}', '\u{0}', '\u{0}', '\u{0}')),
        0x2F888 => Some((1, '\u{3862}', '\u{0}', '\u{0}', '\u{0}')),
        0x2F889 => Some((1, '\u{22183}', '\u{0}', '\u{0}', '\u{0}')),
        0x2F88A => Some((1, '\u{387c}', '\u{0}', '\u{0}', '\u{0}')),
        0x2F88B => Some((1, '\u{5eb0}', '\u{0}', '\u{0}', '\u{0}')),
        0x2F88C => Some((1, '\u{5eb3}', '\u{0}', '\u{0}', '\u{0}')),
        0x2F88D => Some((1, '\u{5eb6}', '\u{0}', '\u{0}', '\u{0}')),
        0x2F88E => Some((1, '\u{5eca}', '\u{0}', '\u{0}', '\u{0}')),
        0x2F88F => Some((1, '\u{2a392}', '\u{0}', '\u{0}', '\u{0}')),
        0x2F890 => Some((1, '\u{5efe}', '\u{0}', '\u{0}', '\u{0}')),
        0x2F891 => Some((1, '\u{22331}', '\u{0}', '\u{0}', '\u{0}')),
        0x2F892 => Some((1, '\u{22331}', '\u{0}', '\u{0}', '\u{0}')),
        0x2F893 => Some((1, '\u{8201}', '\u{0}', '\u{0}', '\u{0}')),
        0x2F894 => Some((1, '\u{5f22}', '\u{0}', '\u{0}', '\u{0}')),
        0x2F895 => Some((1, '\u{5f22}', '\u{0}', '\u{0}', '\u{0}')),
        0x2F896 => Some((1, '\u{38c7}', '\u{0}', '\u{0}', '\u{0}')),
        0x2F897 => Some((1, '\u{232b8}', '\u{0}', '\u{0}', '\u{0}')),
        0x2F898 => Some((1, '\u{261da}', '\u{0}', '\u{0}', '\u{0}')),
        0x2F899 => Some((1, '\u{5f62}', '\u{0}', '\u{0}', '\u{0}')),
        0x2F89A => Some((1, '\u{5f6b}', '\u{0}', '\u{0}', '\u{0}')),
        0x2F89B => Some((1, '\u{38e3}', '\u{0}', '\u{0}', '\u{0}')),
        0x2F89C => Some((1, '\u{5f9a}', '\u{0}', '\u{0}', '\u{0}')),
        0x2F89D => Some((1, '\u{5fcd}', '\u{0}', '\u{0}', '\u{0}')),
        0x2F89E => Some((1, '\u{5fd7}', '\u{0}', '\u{0}', '\u{0}')),
        0x2F89F => Some((1, '\u{5ff9}', '\u{0}', '\u{0}', '\u{0}')),
        0x2F8A0 => Some((1, '\u{6081}', '\u{0}', '\u{0}', '\u{0}')),
        0x2F8A1 => Some((1, '\u{393a}', '\u{0}', '\u{0}', '\u{0}')),
        0x2F8A2 => Some((1, '\u{391c}', '\u{0}', '\u{0}', '\u{0}')),
        0x2F8A3 => Some((1, '\u{6094}', '\u{0}', '\u{0}', '\u{0}')),
        0x2F8A4 => Some((1, '\u{226d4}', '\u{0}', '\u{0}', '\u{0}')),
        0x2F8A5 => Some((1, '\u{60c7}', '\u{0}', '\u{0}', '\u{0}')),
        0x2F8A6 => Some((1, '\u{6148}', '\u{0}', '\u{0}', '\u{0}')),
        0x2F8A7 => Some((1, '\u{614c}', '\u{0}', '\u{0}', '\u{0}')),
        0x2F8A8 => Some((1, '\u{614e}', '\u{0}', '\u{0}', '\u{0}')),
        0x2F8A9 => Some((1, '\u{614c}', '\u{0}', '\u{0}', '\u{0}')),
        0x2F8AA => Some((1, '\u{617a}', '\u{0}', '\u{0}', '\u{0}')),
        0x2F8AB => Some((1, '\u{618e}', '\u{0}', '\u{0}', '\u{0}')),
        0x2F8AC => Some((1, '\u{61b2}', '\u{0}', '\u{0}', '\u{0}')),
        0x2F8AD => Some((1, '\u{61a4}', '\u{0}', '\u{0}', '\u{0}')),
        0x2F8AE => Some((1, '\u{61af}', '\u{0}', '\u{0}', '\u{0}')),
        0x2F8AF => Some((1, '\u{61de}', '\u{0}', '\u{0}', '\u{0}')),
        0x2F8B0 => Some((1, '\u{61f2}', '\u{0}', '\u{0}', '\u{0}')),
        0x2F8B1 => Some((1, '\u{61f6}', '\u{0}', '\u{0}', '\u{0}')),
        0x2F8B2 => Some((1, '\u{6210}', '\u{0}', '\u{0}', '\u{0}')),
        0x2F8B3 => Some((1, '\u{621b}', '\u{0}', '\u{0}', '\u{0}')),
        0x2F8B4 => Some((1, '\u{625d}', '\u{0}', '\u{0}', '\u{0}')),
        0x2F8B5 => Some((1, '\u{62b1}', '\u{0}', '\u{0}', '\u{0}')),
        0x2F8B6 => Some((1, '\u{62d4}', '\u{0}', '\u{0}', '\u{0}')),
        0x2F8B7 => Some((1, '\u{6350}', '\u{0}', '\u{0}', '\u{0}')),
        0x2F8B8 => Some((1, '\u{22b0c}', '\u{0}', '\u{0}', '\u{0}')),
        0x2F8B9 => Some((1, '\u{633d}', '\u{0}', '\u{0}', '\u{0}')),
        0x2F8BA => Some((1, '\u{62fc}', '\u{0}', '\u{0}', '\u{0}')),
        0x2F8BB => Some((1, '\u{6368}', '\u{0}', '\u{0}', '\u{0}')),
        0x2F8BC => Some((1, '\u{6383}', '\u{0}', '\u{0}', '\u{0}')),
        0x2F8BD => Some((1, '\u{63e4}', '\u{0}', '\u{0}', '\u{0}')),
        0x2F8BE => Some((1, '\u{22bf1}', '\u{0}', '\u{0}', '\u{0}')),
        0x2F8BF => Some((1, '\u{6422}', '\u{0}', '\u{0}', '\u{0}')),
        0x2F8C0 => Some((1, '\u{63c5}', '\u{0}', '\u{0}', '\u{0}')),
        0x2F8C1 => Some((1, '\u{63a9}', '\u{0}', '\u{0}', '\u{0}')),
        0x2F8C2 => Some((1, '\u{3a2e}', '\u{0}', '\u{0}', '\u{0}')),
        0x2F8C3 => Some((1, '\u{6469}', '\u{0}', '\u{0}', '\u{0}')),
        0x2F8C4 => Some((1, '\u{647e}', '\u{0}', '\u{0}', '\u{0}')),
        0x2F8C5 => Some((1, '\u{649d}', '\u{0}', '\u{0}', '\u{0}')),
        0x2F8C6 => Some((1, '\u{6477}', '\u{0}', '\u{0}', '\u{0}')),
        0x2F8C7 => Some((1, '\u{3a6c}', '\u{0}', '\u{0}', '\u{0}')),
        0x2F8C8 => Some((1, '\u{654f}', '\u{0}', '\u{0}', '\u{0}')),
        0x2F8C9 => Some((1, '\u{656c}', '\u{0}', '\u{0}', '\u{0}')),
        0x2F8CA => Some((1, '\u{2300a}', '\u{0}', '\u{0}', '\u{0}')),
        0x2F8CB => Some((1, '\u{65e3}', '\u{0}', '\u{0}', '\u{0}')),
        0x2F8CC => Some((1, '\u{66f8}', '\u{0}', '\u{0}', '\u{0}')),
        0x2F8CD => Some((1, '\u{6649}', '\u{0}', '\u{0}', '\u{0}')),
        0x2F8CE => Some((1, '\u{3b19}', '\u{0}', '\u{0}', '\u{0}')),
        0x2F8CF => Some((1, '\u{6691}', '\u{0}', '\u{0}', '\u{0}')),
        0x2F8D0 => Some((1, '\u{3b08}', '\u{0}', '\u{0}', '\u{0}')),
        0x2F8D1 => Some((1, '\u{3ae4}', '\u{0}', '\u{0}', '\u{0}')),
        0x2F8D2 => Some((1, '\u{5192}', '\u{0}', '\u{0}', '\u{0}')),
        0x2F8D3 => Some((1, '\u{5195}', '\u{0}', '\u{0}', '\u{0}')),
        0x2F8D4 => Some((1, '\u{6700}', '\u{0}', '\u{0}', '\u{0}')),
        0x2F8D5 => Some((1, '\u{669c}', '\u{0}', '\u{0}', '\u{0}')),
        0x2F8D6 => Some((1, '\u{80ad}', '\u{0}', '\u{0}', '\u{0}')),
        0x2F8D7 => Some((1, '\u{43d9}', '\u{0}', '\u{0}', '\u{0}')),
        0x2F8D8 => Some((1, '\u{6717}', '\u{0}', '\u{0}', '\u{0}')),
        0x2F8D9 => Some((1, '\u{671b}', '\u{0}', '\u{0}', '\u{0}')),
        0x2F8DA => Some((1, '\u{6721}', '\u{0}', '\u{0}', '\u{0}')),
        0x2F8DB => Some((1, '\u{675e}', '\u{0}', '\u{0}', '\u{0}')),
        0x2F8DC => Some((1, '\u{6753}', '\u{0}', '\u{0}', '\u{0}')),
        0x2F8DD => Some((1, '\u{233c3}', '\u{0}', '\u{0}', '\u{0}')),
        0x2F8DE => Some((1, '\u{3b49}', '\u{0}', '\u{0}', '\u{0}')),
        0x2F8DF => Some((1, '\u{67fa}', '\u{0}', '\u{0}', '\u{0}')),
        0x2F8E0 => Some((1, '\u{6785}', '\u{0}', '\u{0}', '\u{0}')),
        0x2F8E1 => Some((1, '\u{6852}', '\u{0}', '\u{0}', '\u{0}')),
        0x2F8E2 => Some((1, '\u{6885}', '\u{0}', '\u{0}', '\u{0}')),
        0x2F8E3 => Some((1, '\u{2346d}', '\u{0}', '\u{0}', '\u{0}')),
        0x2F8E4 => Some((1, '\u{688e}', '\u{0}', '\u{0}', '\u{0}')),
        0x2F8E5 => Some((1, '\u{681f}', '\u{0}', '\u{0}', '\u{0}')),
        0x2F8E6 => Some((1, '\u{6914}', '\u{0}', '\u{0}', '\u{0}')),
        0x2F8E7 => Some((1, '\u{3b9d}', '\u{0}', '\u{0}', '\u{0}')),
        0x2F8E8 => Some((1, '\u{6942}', '\u{0}', '\u{0}', '\u{0}')),
        0x2F8E9 => Some((1, '\u{69a3}', '\u{0}', '\u{0}', '\u{0}')),
        0x2F8EA => Some((1, '\u{69ea}', '\u{0}', '\u{0}', '\u{0}')),
        0x2F8EB => Some((1, '\u{6aa8}', '\u{0}', '\u{0}', '\u{0}')),
        0x2F8EC => Some((1, '\u{236a3}', '\u{0}', '\u{0}', '\u{0}')),
        0x2F8ED => Some((1, '\u{6adb}', '\u{0}', '\u{0}', '\u{0}')),
        0x2F8EE => Some((1, '\u{3c18}', '\u{0}', '\u{0}', '\u{0}')),
        0x2F8EF => Some((1, '\u{6b21}', '\u{0}', '\u{0}', '\u{0}')),
        0x2F8F0 => Some((1, '\u{238a7}', '\u{0}', '\u{0}', '\u{0}')),
        0x2F8F1 => Some((1, '\u{6b54}', '\u{0}', '\u{0}', '\u{0}')),
        0x2F8F2 => Some((1, '\u{3c4e}', '\u{0}', '\u{0}', '\u{0}')),
        0x2F8F3 => Some((1, '\u{6b72}', '\u{0}', '\u{0}', '\u{0}')),
        0x2F8F4 => Some((1, '\u{6b9f}', '\u{0}', '\u{0}', '\u{0}')),
        0x2F8F5 => Some((1, '\u{6bba}', '\u{0}', '\u{0}', '\u{0}')),
        0x2F8F6 => Some((1, '\u{6bbb}', '\u{0}', '\u{0}', '\u{0}')),
        0x2F8F7 => Some((1, '\u{23a8d}', '\u{0}', '\u{0}', '\u{0}')),
        0x2F8F8 => Some((1, '\u{21d0b}', '\u{0}', '\u{0}', '\u{0}')),
        0x2F8F9 => Some((1, '\u{23afa}', '\u{0}', '\u{0}', '\u{0}')),
        0x2F8FA => Some((1, '\u{6c4e}', '\u{0}', '\u{0}', '\u{0}')),
        0x2F8FB => Some((1, '\u{23cbc}', '\u{0}', '\u{0}', '\u{0}')),
        0x2F8FC => Some((1, '\u{6cbf}', '\u{0}', '\u{0}', '\u{0}')),
        0x2F8FD => Some((1, '\u{6ccd}', '\u{0}', '\u{0}', '\u{0}')),
        0x2F8FE => Some((1, '\u{6c67}', '\u{0}', '\u{0}', '\u{0}')),
        0x2F8FF => Some((1, '\u{6d16}', '\u{0}', '\u{0}', '\u{0}')),
        0x2F900 => Some((1, '\u{6d3e}', '\u{0}', '\u{0}', '\u{0}')),
        0x2F901 => Some((1, '\u{6d77}', '\u{0}', '\u{0}', '\u{0}')),
        0x2F902 => Some((1, '\u{6d41}', '\u{0}', '\u{0}', '\u{0}')),
        0x2F903 => Some((1, '\u{6d69}', '\u{0}', '\u{0}', '\u{0}')),
        0x2F904 => Some((1, '\u{6d78}', '\u{0}', '\u{0}', '\u{0}')),
        0x2F905 => Some((1, '\u{6d85}', '\u{0}', '\u{0}', '\u{0}')),
        0x2F906 => Some((1, '\u{23d1e}', '\u{0}', '\u{0}', '\u{0}')),
        0x2F907 => Some((1, '\u{6d34}', '\u{0}', '\u{0}', '\u{0}')),
        0x2F908 => Some((1, '\u{6e2f}', '\u{0}', '\u{0}', '\u{0}')),
        0x2F909 => Some((1, '\u{6e6e}', '\u{0}', '\u{0}', '\u{0}')),
        0x2F90A => Some((1, '\u{3d33}', '\u{0}', '\u{0}', '\u{0}')),
        0x2F90B => Some((1, '\u{6ecb}', '\u{0}', '\u{0}', '\u{0}')),
        0x2F90C => Some((1, '\u{6ec7}', '\u{0}', '\u{0}', '\u{0}')),
        0x2F90D => Some((1, '\u{23ed1}', '\u{0}', '\u{0}', '\u{0}')),
        0x2F90E => Some((1, '\u{6df9}', '\u{0}', '\u{0}', '\u{0}')),
        0x2F90F => Some((1, '\u{6f6e}', '\u{0}', '\u{0}', '\u{0}')),
        0x2F910 => Some((1, '\u{23f5e}', '\u{0}', '\u{0}', '\u{0}')),
        0x2F911 => Some((1, '\u{23f8e}', '\u{0}', '\u{0}', '\u{0}')),
        0x2F912 => Some((1, '\u{6fc6}', '\u{0}', '\u{0}', '\u{0}')),
        0x2F913 => Some((1, '\u{7039}', '\u{0}', '\u{0}', '\u{0}')),
        0x2F914 => Some((1, '\u{701e}', '\u{0}', '\u{0}', '\u{0}')),
        0x2F915 => Some((1, '\u{701b}', '\u{0}', '\u{0}', '\u{0}')),
        0x2F916 => Some((1, '\u{3d96}', '\u{0}', '\u{0}', '\u{0}')),
        0x2F917 => Some((1, '\u{704a}', '\u{0}', '\u{0}', '\u{0}')),
        0x2F918 => Some((1, '\u{707d}', '\u{0}', '\u{0}', '\u{0}')),
        0x2F919 => Some((1, '\u{7077}', '\u{0}', '\u{0}', '\u{0}')),
        0x2F91A => Some((1, '\u{70ad}', '\u{0}', '\u{0}', '\u{0}')),
        0x2F91B => Some((1, '\u{20525}', '\u{0}', '\u{0}', '\u{0}')),
        0x2F91C => Some((1, '\u{7145}', '\u{0}', '\u{0}', '\u{0}')),
        0x2F91D => Some((1, '\u{24263}', '\u{0}', '\u{0}', '\u{0}')),
        0x2F91E => Some((1, '\u{719c}', '\u{0}', '\u{0}', '\u{0}')),
        0x2F91F => Some((1, '\u{243ab}', '\u{0}', '\u{0}', '\u{0}')),
        0x2F920 => Some((1, '\u{7228}', '\u{0}', '\u{0}', '\u{0}')),
        0x2F921 => Some((1, '\u{7235}', '\u{0}', '\u{0}', '\u{0}')),
        0x2F922 => Some((1, '\u{7250}', '\u{0}', '\u{0}', '\u{0}')),
        0x2F923 => Some((1, '\u{24608}', '\u{0}', '\u{0}', '\u{0}')),
        0x2F924 => Some((1, '\u{7280}', '\u{0}', '\u{0}', '\u{0}')),
        0x2F925 => Some((1, '\u{7295}', '\u{0}', '\u{0}', '\u{0}')),
        0x2F926 => Some((1, '\u{24735}', '\u{0}', '\u{0}', '\u{0}')),
        0x2F927 => Some((1, '\u{24814}', '\u{0}', '\u{0}', '\u{0}')),
        0x2F928 => Some((1, '\u{737a}', '\u{0}', '\u{0}', '\u{0}')),
        0x2F929 => Some((1, '\u{738b}', '\u{0}', '\u{0}', '\u{0}')),
        0x2F92A => Some((1, '\u{3eac}', '\u{0}', '\u{0}', '\u{0}')),
        0x2F92B => Some((1, '\u{73a5}', '\u{0}', '\u{0}', '\u{0}')),
        0x2F92C => Some((1, '\u{3eb8}', '\u{0}', '\u{0}', '\u{0}')),
        0x2F92D => Some((1, '\u{3eb8}', '\u{0}', '\u{0}', '\u{0}')),
        0x2F92E => Some((1, '\u{7447}', '\u{0}', '\u{0}', '\u{0}')),
        0x2F92F => Some((1, '\u{745c}', '\u{0}', '\u{0}', '\u{0}')),
        0x2F930 => Some((1, '\u{7471}', '\u{0}', '\u{0}', '\u{0}')),
        0x2F931 => Some((1, '\u{7485}', '\u{0}', '\u{0}', '\u{0}')),
        0x2F932 => Some((1, '\u{74ca}', '\u{0}', '\u{0}', '\u{0}')),
        0x2F933 => Some((1, '\u{3f1b}', '\u{0}', '\u{0}', '\u{0}')),
        0x2F934 => Some((1, '\u{7524}', '\u{0}', '\u{0}', '\u{0}')),
        0x2F935 => Some((1, '\u{24c36}', '\u{0}', '\u{0}', '\u{0}')),
        0x2F936 => Some((1, '\u{753e}', '\u{0}', '\u{0}', '\u{0}')),
        0x2F937 => Some((1, '\u{24c92}', '\u{0}', '\u{0}', '\u{0}')),
        0x2F938 => Some((1, '\u{7570}', '\u{0}', '\u{0}', '\u{0}')),
        0x2F939 => Some((1, '\u{2219f}', '\u{0}', '\u{0}', '\u{0}')),
        0x2F93A => Some((1, '\u{7610}', '\u{0}', '\u{0}', '\u{0}')),
        0x2F93B => Some((1, '\u{24fa1}', '\u{0}', '\u{0}', '\u{0}')),
        0x2F93C => Some((1, '\u{24fb8}', '\u{0}', '\u{0}', '\u{0}')),
        0x2F93D => Some((1, '\u{25044}', '\u{0}', '\u{0}', '\u{0}')),
        0x2F93E => Some((1, '\u{3ffc}', '\u{0}', '\u{0}', '\u{0}')),
        0x2F93F => Some((1, '\u{4008}', '\u{0}', '\u{0}', '\u{0}')),
        0x2F940 => Some((1, '\u{76f4}', '\u{0}', '\u{0}', '\u{0}')),
        0x2F941 => Some((1, '\u{250f3}', '\u{0}', '\u{0}', '\u{0}')),
        0x2F942 => Some((1, '\u{250f2}', '\u{0}', '\u{0}', '\u{0}')),
        0x2F943 => Some((1, '\u{25119}', '\u{0}', '\u{0}', '\u{0}')),
        0x2F944 => Some((1, '\u{25133}', '\u{0}', '\u{0}', '\u{0}')),
        0x2F945 => Some((1, '\u{771e}', '\u{0}', '\u{0}', '\u{0}')),
        0x2F946 => Some((1, '\u{771f}', '\u{0}', '\u{0}', '\u{0}')),
        0x2F947 => Some((1, '\u{771f}', '\u{0}', '\u{0}', '\u{0}')),
        0x2F948 => Some((1, '\u{774a}', '\u{0}', '\u{0}', '\u{0}')),
        0x2F949 => Some((1, '\u{4039}', '\u{0}', '\u{0}', '\u{0}')),
        0x2F94A => Some((1, '\u{778b}', '\u{0}', '\u{0}', '\u{0}')),
        0x2F94B => Some((1, '\u{4046}', '\u{0}', '\u{0}', '\u{0}')),
        0x2F94C => Some((1, '\u{4096}', '\u{0}', '\u{0}', '\u{0}')),
        0x2F94D => Some((1, '\u{2541d}', '\u{0}', '\u{0}', '\u{0}')),
        0x2F94E => Some((1, '\u{784e}', '\u{0}', '\u{0}', '\u{0}')),
        0x2F94F => Some((1, '\u{788c}', '\u{0}', '\u{0}', '\u{0}')),
        0x2F950 => Some((1, '\u{78cc}', '\u{0}', '\u{0}', '\u{0}')),
        0x2F951 => Some((1, '\u{40e3}', '\u{0}', '\u{0}', '\u{0}')),
        0x2F952 => Some((1, '\u{25626}', '\u{0}', '\u{0}', '\u{0}')),
        0x2F953 => Some((1, '\u{7956}', '\u{0}', '\u{0}', '\u{0}')),
        0x2F954 => Some((1, '\u{2569a}', '\u{0}', '\u{0}', '\u{0}')),
        0x2F955 => Some((1, '\u{256c5}', '\u{0}', '\u{0}', '\u{0}')),
        0x2F956 => Some((1, '\u{798f}', '\u{0}', '\u{0}', '\u{0}')),
        0x2F957 => Some((1, '\u{79eb}', '\u{0}', '\u{0}', '\u{0}')),
        0x2F958 => Some((1, '\u{412f}', '\u{0}', '\u{0}', '\u{0}')),
        0x2F959 => Some((1, '\u{7a40}', '\u{0}', '\u{0}', '\u{0}')),
        0x2F95A => Some((1, '\u{7a4a}', '\u{0}', '\u{0}', '\u{0}')),
        0x2F95B => Some((1, '\u{7a4f}', '\u{0}', '\u{0}', '\u{0}')),
        0x2F95C => Some((1, '\u{2597c}', '\u{0}', '\u{0}', '\u{0}')),
        0x2F95D => Some((1, '\u{25aa7}', '\u{0}', '\u{0}', '\u{0}')),
        0x2F95E => Some((1, '\u{25aa7}', '\u{0}', '\u{0}', '\u{0}')),
        0x2F95F => Some((1, '\u{7aee}', '\u{0}', '\u{0}', '\u{0}')),
        0x2F960 => Some((1, '\u{4202}', '\u{0}', '\u{0}', '\u{0}')),
        0x2F961 => Some((1, '\u{25bab}', '\u{0}', '\u{0}', '\u{0}')),
        0x2F962 => Some((1, '\u{7bc6}', '\u{0}', '\u{0}', '\u{0}')),
        0x2F963 => Some((1, '\u{7bc9}', '\u{0}', '\u{0}', '\u{0}')),
        0x2F964 => Some((1, '\u{4227}', '\u{0}', '\u{0}', '\u{0}')),
        0x2F965 => Some((1, '\u{25c80}', '\u{0}', '\u{0}', '\u{0}')),
        0x2F966 => Some((1, '\u{7cd2}', '\u{0}', '\u{0}', '\u{0}')),
        0x2F967 => Some((1, '\u{42a0}', '\u{0}', '\u{0}', '\u{0}')),
        0x2F968 => Some((1, '\u{7ce8}', '\u{0}', '\u{0}', '\u{0}')),
        0x2F969 => Some((1, '\u{7ce3}', '\u{0}', '\u{0}', '\u{0}')),
        0x2F96A => Some((1, '\u{7d00}', '\u{0}', '\u{0}', '\u{0}')),
        0x2F96B => Some((1, '\u{25f86}', '\u{0}', '\u{0}', '\u{0}')),
        0x2F96C => Some((1, '\u{7d63}', '\u{0}', '\u{0}', '\u{0}')),
        0x2F96D => Some((1, '\u{4301}', '\u{0}', '\u{0}', '\u{0}')),
        0x2F96E => Some((1, '\u{7dc7}', '\u{0}', '\u{0}', '\u{0}')),
        0x2F96F => Some((1, '\u{7e02}', '\u{0}', '\u{0}', '\u{0}')),
        0x2F970 => Some((1, '\u{7e45}', '\u{0}', '\u{0}', '\u{0}')),
        0x2F971 => Some((1, '\u{4334}', '\u{0}', '\u{0}', '\u{0}')),
        0x2F972 => Some((1, '\u{26228}', '\u{0}', '\u{0}', '\u{0}')),
        0x2F973 => Some((1, '\u{26247}', '\u{0}', '\u{0}', '\u{0}')),
        0x2F974 => Some((1, '\u{4359}', '\u{0}', '\u{0}', '\u{0}')),
        0x2F975 => Some((1, '\u{262d9}', '\u{0}', '\u{0}', '\u{0}')),
        0x2F976 => Some((1, '\u{7f7a}', '\u{0}', '\u{0}', '\u{0}')),
        0x2F977 => Some((1, '\u{2633e}', '\u{0}', '\u{0}', '\u{0}')),
        0x2F978 => Some((1, '\u{7f95}', '\u{0}', '\u{0}', '\u{0}')),
        0x2F979 => Some((1, '\u{7ffa}', '\u{0}', '\u{0}', '\u{0}')),
        0x2F97A => Some((1, '\u{8005}', '\u{0}', '\u{0}', '\u{0}')),
        0x2F97B => Some((1, '\u{264da}', '\u{0}', '\u{0}', '\u{0}')),
        0x2F97C => Some((1, '\u{26523}', '\u{0}', '\u{0}', '\u{0}')),
        0x2F97D => Some((1, '\u{8060}', '\u{0}', '\u{0}', '\u{0}')),
        0x2F97E => Some((1, '\u{265a8}', '\u{0}', '\u{0}', '\u{0}')),
        0x2F97F => Some((1, '\u{8070}', '\u{0}', '\u{0}', '\u{0}')),
        0x2F980 => Some((1, '\u{2335f}', '\u{0}', '\u{0}', '\u{0}')),
        0x2F981 => Some((1, '\u{43d5}', '\u{0}', '\u{0}', '\u{0}')),
        0x2F982 => Some((1, '\u{80b2}', '\u{0}', '\u{0}', '\u{0}')),
        0x2F983 => Some((1, '\u{8103}', '\u{0}', '\u{0}', '\u{0}')),
        0x2F984 => Some((1, '\u{440b}', '\u{0}', '\u{0}', '\u{0}')),
        0x2F985 => Some((1, '\u{813e}', '\u{0}', '\u{0}', '\u{0}')),
        0x2F986 => Some((1, '\u{5ab5}', '\u{0}', '\u{0}', '\u{0}')),
        0x2F987 => Some((1, '\u{267a7}', '\u{0}', '\u{0}', '\u{0}')),
        0x2F988 => Some((1, '\u{267b5}', '\u{0}', '\u{0}', '\u{0}')),
        0x2F989 => Some((1, '\u{23393}', '\u{0}', '\u{0}', '\u{0}')),
        0x2F98A => Some((1, '\u{2339c}', '\u{0}', '\u{0}', '\u{0}')),
        0x2F98B => Some((1, '\u{8201}', '\u{0}', '\u{0}', '\u{0}')),
        0x2F98C => Some((1, '\u{8204}', '\u{0}', '\u{0}', '\u{0}')),
        0x2F98D => Some((1, '\u{8f9e}', '\u{0}', '\u{0}', '\u{0}')),
        0x2F98E => Some((1, '\u{446b}', '\u{0}', '\u{0}', '\u{0}')),
        0x2F98F => Some((1, '\u{8291}', '\u{0}', '\u{0}', '\u{0}')),
        0x2F990 => Some((1, '\u{828b}', '\u{0}', '\u{0}', '\u{0}')),
        0x2F991 => Some((1, '\u{829d}', '\u{0}', '\u{0}', '\u{0}')),
        0x2F992 => Some((1, '\u{52b3}', '\u{0}', '\u{0}', '\u{0}')),
        0x2F993 => Some((1, '\u{82b1}', '\u{0}', '\u{0}', '\u{0}')),
        0x2F994 => Some((1, '\u{82b3}', '\u{0}', '\u{0}', '\u{0}')),
        0x2F995 => Some((1, '\u{82bd}', '\u{0}', '\u{0}', '\u{0}')),
        0x2F996 => Some((1, '\u{82e6}', '\u{0}', '\u{0}', '\u{0}')),
        0x2F997 => Some((1, '\u{26b3c}', '\u{0}', '\u{0}', '\u{0}')),
        0x2F998 => Some((1, '\u{82e5}', '\u{0}', '\u{0}', '\u{0}')),
        0x2F999 => Some((1, '\u{831d}', '\u{0}', '\u{0}', '\u{0}')),
        0x2F99A => Some((1, '\u{8363}', '\u{0}', '\u{0}', '\u{0}')),
        0x2F99B => Some((1, '\u{83ad}', '\u{0}', '\u{0}', '\u{0}')),
        0x2F99C => Some((1, '\u{8323}', '\u{0}', '\u{0}', '\u{0}')),
        0x2F99D => Some((1, '\u{83bd}', '\u{0}', '\u{0}', '\u{0}')),
        0x2F99E => Some((1, '\u{83e7}', '\u{0}', '\u{0}', '\u{0}')),
        0x2F99F => Some((1, '\u{8457}', '\u{0}', '\u{0}', '\u{0}')),
        0x2F9A0 => Some((1, '\u{8353}', '\u{0}', '\u{0}', '\u{0}')),
        0x2F9A1 => Some((1, '\u{83ca}', '\u{0}', '\u{0}', '\u{0}')),
        0x2F9A2 => Some((1, '\u{83cc}', '\u{0}', '\u{0}', '\u{0}')),
        0x2F9A3 => Some((1, '\u{83dc}', '\u{0}', '\u{0}', '\u{0}')),
        0x2F9A4 => Some((1, '\u{26c36}', '\u{0}', '\u{0}', '\u{0}')),
        0x2F9A5 => Some((1, '\u{26d6b}', '\u{0}', '\u{0}', '\u{0}')),
        0x2F9A6 => Some((1, '\u{26cd5}', '\u{0}', '\u{0}', '\u{0}')),
        0x2F9A7 => Some((1, '\u{452b}', '\u{0}', '\u{0}', '\u{0}')),
        0x2F9A8 => Some((1, '\u{84f1}', '\u{0}', '\u{0}', '\u{0}')),
        0x2F9A9 => Some((1, '\u{84f3}', '\u{0}', '\u{0}', '\u{0}')),
        0x2F9AA => Some((1, '\u{8516}', '\u{0}', '\u{0}', '\u{0}')),
        0x2F9AB => Some((1, '\u{273ca}', '\u{0}', '\u{0}', '\u{0}')),
        0x2F9AC => Some((1, '\u{8564}', '\u{0}', '\u{0}', '\u{0}')),
        0x2F9AD => Some((1, '\u{26f2c}', '\u{0}', '\u{0}', '\u{0}')),
        0x2F9AE => Some((1, '\u{455d}', '\u{0}', '\u{0}', '\u{0}')),
        0x2F9AF => Some((1, '\u{4561}', '\u{0}', '\u{0}', '\u{0}')),
        0x2F9B0 => Some((1, '\u{26fb1}', '\u{0}', '\u{0}', '\u{0}')),
        0x2F9B1 => Some((1, '\u{270d2}', '\u{0}', '\u{0}', '\u{0}')),
        0x2F9B2 => Some((1, '\u{456b}', '\u{0}', '\u{0}', '\u{0}')),
        0x2F9B3 => Some((1, '\u{8650}', '\u{0}', '\u{0}', '\u{0}')),
        0x2F9B4 => Some((1, '\u{865c}', '\u{0}', '\u{0}', '\u{0}')),
        0x2F9B5 => Some((1, '\u{8667}', '\u{0}', '\u{0}', '\u{0}')),
        0x2F9B6 => Some((1, '\u{8669}', '\u{0}', '\u{0}', '\u{0}')),
        0x2F9B7 => Some((1, '\u{86a9}', '\u{0}', '\u{0}', '\u{0}')),
        0x2F9B8 => Some((1, '\u{8688}', '\u{0}', '\u{0}', '\u{0}')),
        0x2F9B9 => Some((1, '\u{870e}', '\u{0}', '\u{0}', '\u{0}')),
        0x2F9BA => Some((1, '\u{86e2}', '\u{0}', '\u{0}', '\u{0}')),
        0x2F9BB => Some((1, '\u{8779}', '\u{0}', '\u{0}', '\u{0}')),
        0x2F9BC => Some((1, '\u{8728}', '\u{0}', '\u{0}', '\u{0}')),
        0x2F9BD => Some((1, '\u{876b}', '\u{0}', '\u{0}', '\u{0}')),
        0x2F9BE => Some((1, '\u{8786}', '\u{0}', '\u{0}', '\u{0}')),
        0x2F9BF => Some((1, '\u{45d7}', '\u{0}', '\u{0}', '\u{0}')),
        0x2F9C0 => Some((1, '\u{87e1}', '\u{0}', '\u{0}', '\u{0}')),
        0x2F9C1 => Some((1, '\u{8801}', '\u{0}', '\u{0}', '\u{0}')),
        0x2F9C2 => Some((1, '\u{45f9}', '\u{0}', '\u{0}', '\u{0}')),
        0x2F9C3 => Some((1, '\u{8860}', '\u{0}', '\u{0}', '\u{0}')),
        0x2F9C4 => Some((1, '\u{8863}', '\u{0}', '\u{0}', '\u{0}')),
        0x2F9C5 => Some((1, '\u{27667}', '\u{0}', '\u{0}', '\u{0}')),
        0x2F9C6 => Some((1, '\u{88d7}', '\u{0}', '\u{0}', '\u{0}')),
        0x2F9C7 => Some((1, '\u{88de}', '\u{0}', '\u{0}', '\u{0}')),
        0x2F9C8 => Some((1, '\u{4635}', '\u{0}', '\u{0}', '\u{0}')),
        0x2F9C9 => Some((1, '\u{88fa}', '\u{0}', '\u{0}', '\u{0}')),
        0x2F9CA => Some((1, '\u{34bb}', '\u{0}', '\u{0}', '\u{0}')),
        0x2F9CB => Some((1, '\u{278ae}', '\u{0}', '\u{0}', '\u{0}')),
        0x2F9CC => Some((1, '\u{27966}', '\u{0}', '\u{0}', '\u{0}')),
        0x2F9CD => Some((1, '\u{46be}', '\u{0}', '\u{0}', '\u{0}')),
        0x2F9CE => Some((1, '\u{46c7}', '\u{0}', '\u{0}', '\u{0}')),
        0x2F9CF => Some((1, '\u{8aa0}', '\u{0}', '\u{0}', '\u{0}')),
        0x2F9D0 => Some((1, '\u{8aed}', '\u{0}', '\u{0}', '\u{0}')),
        0x2F9D1 => Some((1, '\u{8b8a}', '\u{0}', '\u{0}', '\u{0}')),
        0x2F9D2 => Some((1, '\u{8c55}', '\u{0}', '\u{0}', '\u{0}')),
        0x2F9D3 => Some((1, '\u{27ca8}', '\u{0}', '\u{0}', '\u{0}')),
        0x2F9D4 => Some((1, '\u{8cab}', '\u{0}', '\u{0}', '\u{0}')),
        0x2F9D5 => Some((1, '\u{8cc1}', '\u{0}', '\u{0}', '\u{0}')),
        0x2F9D6 => Some((1, '\u{8d1b}', '\u{0}', '\u{0}', '\u{0}')),
        0x2F9D7 => Some((1, '\u{8d77}', '\u{0}', '\u{0}', '\u{0}')),
        0x2F9D8 => Some((1, '\u{27f2f}', '\u{0}', '\u{0}', '\u{0}')),
        0x2F9D9 => Some((1, '\u{20804}', '\u{0}', '\u{0}', '\u{0}')),
        0x2F9DA => Some((1, '\u{8dcb}', '\u{0}', '\u{0}', '\u{0}')),
        0x2F9DB => Some((1, '\u{8dbc}', '\u{0}', '\u{0}', '\u{0}')),
        0x2F9DC => Some((1, '\u{8df0}', '\u{0}', '\u{0}', '\u{0}')),
        0x2F9DD => Some((1, '\u{208de}', '\u{0}', '\u{0}', '\u{0}')),
        0x2F9DE => Some((1, '\u{8ed4}', '\u{0}', '\u{0}', '\u{0}')),
        0x2F9DF => Some((1, '\u{8f38}', '\u{0}', '\u{0}', '\u{0}')),
        0x2F9E0 => Some((1, '\u{285d2}', '\u{0}', '\u{0}', '\u{0}')),
        0x2F9E1 => Some((1, '\u{285ed}', '\u{0}', '\u{0}', '\u{0}')),
        0x2F9E2 => Some((1, '\u{9094}', '\u{0}', '\u{0}', '\u{0}')),
        0x2F9E3 => Some((1, '\u{90f1}', '\u{0}', '\u{0}', '\u{0}')),
        0x2F9E4 => Some((1, '\u{9111}', '\u{0}', '\u{0}', '\u{0}')),
        0x2F9E5 => Some((1, '\u{2872e}', '\u{0}', '\u{0}', '\u{0}')),
        0x2F9E6 => Some((1, '\u{911b}', '\u{0}', '\u{0}', '\u{0}')),
        0x2F9E7 => Some((1, '\u{9238}', '\u{0}', '\u{0}', '\u{0}')),
        0x2F9E8 => Some((1, '\u{92d7}', '\u{0}', '\u{0}', '\u{0}')),
        0x2F9E9 => Some((1, '\u{92d8}', '\u{0}', '\u{0}', '\u{0}')),
        0x2F9EA => Some((1, '\u{927c}', '\u{0}', '\u{0}', '\u{0}')),
        0x2F9EB => Some((1, '\u{93f9}', '\u{0}', '\u{0}', '\u{0}')),
        0x2F9EC => Some((1, '\u{9415}', '\u{0}', '\u{0}', '\u{0}')),
        0x2F9ED => Some((1, '\u{28bfa}', '\u{0}', '\u{0}', '\u{0}')),
        0x2F9EE => Some((1, '\u{958b}', '\u{0}', '\u{0}', '\u{0}')),
        0x2F9EF => Some((1, '\u{4995}', '\u{0}', '\u{0}', '\u{0}')),
        0x2F9F0 => Some((1, '\u{95b7}', '\u{0}', '\u{0}', '\u{0}')),
        0x2F9F1 => Some((1, '\u{28d77}', '\u{0}', '\u{0}', '\u{0}')),
        0x2F9F2 => Some((1, '\u{49e6}', '\u{0}', '\u{0}', '\u{0}')),
        0x2F9F3 => Some((1, '\u{96c3}', '\u{0}', '\u{0}', '\u{0}')),
        0x2F9F4 => Some((1, '\u{5db2}', '\u{0}', '\u{0}', '\u{0}')),
        0x2F9F5 => Some((1, '\u{9723}', '\u{0}', '\u{0}', '\u{0}')),
        0x2F9F6 => Some((1, '\u{29145}', '\u{0}', '\u{0}', '\u{0}')),
        0x2F9F7 => Some((1, '\u{2921a}', '\u{0}', '\u{0}', '\u{0}')),
        0x2F9F8 => Some((1, '\u{4a6e}', '\u{0}', '\u{0}', '\u{0}')),
        0x2F9F9 => Some((1, '\u{4a76}', '\u{0}', '\u{0}', '\u{0}')),
        0x2F9FA => Some((1, '\u{97e0}', '\u{0}', '\u{0}', '\u{0}')),
        0x2F9FB => Some((1, '\u{2940a}', '\u{0}', '\u{0}', '\u{0}')),
        0x2F9FC => Some((1, '\u{4ab2}', '\u{0}', '\u{0}', '\u{0}')),
        0x2F9FD => Some((1, '\u{29496}', '\u{0}', '\u{0}', '\u{0}')),
        0x2F9FE => Some((1, '\u{980b}', '\u{0}', '\u{0}', '\u{0}')),
        0x2F9FF => Some((1, '\u{980b}', '\u{0}', '\u{0}', '\u{0}')),
        0x2FA00 => Some((1, '\u{9829}', '\u{0}', '\u{0}', '\u{0}')),
        0x2FA01 => Some((1, '\u{295b6}', '\u{0}', '\u{0}', '\u{0}')),
        0x2FA02 => Some((1, '\u{98e2}', '\u{0}', '\u{0}', '\u{0}')),
        0x2FA03 => Some((1, '\u{4b33}', '\u{0}', '\u{0}', '\u{0}')),
        0x2FA04 => Some((1, '\u{9929}', '\u{0}', '\u{0}', '\u{0}')),
        0x2FA05 => Some((1, '\u{99a7}', '\u{0}', '\u{0}', '\u{0}')),
        0x2FA06 => Some((1, '\u{99c2}', '\u{0}', '\u{0}', '\u{0}')),
        0x2FA07 => Some((1, '\u{99fe}', '\u{0}', '\u{0}', '\u{0}')),
        0x2FA08 => Some((1, '\u{4bce}', '\u{0}', '\u{0}', '\u{0}')),
        0x2FA09 => Some((1, '\u{29b30}', '\u{0}', '\u{0}', '\u{0}')),
        0x2FA0A => Some((1, '\u{9b12}', '\u{0}', '\u{0}', '\u{0}')),
        0x2FA0B => Some((1, '\u{9c40}', '\u{0}', '\u{0}', '\u{0}')),
        0x2FA0C => Some((1, '\u{9cfd}', '\u{0}', '\u{0}', '\u{0}')),
        0x2FA0D => Some((1, '\u{4cce}', '\u{0}', '\u{0}', '\u{0}')),
        0x2FA0E => Some((1, '\u{4ced}', '\u{0}', '\u{0}', '\u{0}')),
        0x2FA0F => Some((1, '\u{9d67}', '\u{0}', '\u{0}', '\u{0}')),
        0x2FA10 => Some((1, '\u{2a0ce}', '\u{0}', '\u{0}', '\u{0}')),
        0x2FA11 => Some((1, '\u{4cf8}', '\u{0}', '\u{0}', '\u{0}')),
        0x2FA12 => Some((1, '\u{2a105}', '\u{0}', '\u{0}', '\u{0}')),
        0x2FA13 => Some((1, '\u{2a20e}', '\u{0}', '\u{0}', '\u{0}')),
        0x2FA14 => Some((1, '\u{2a291}', '\u{0}', '\u{0}', '\u{0}')),
        0x2FA15 => Some((1, '\u{9ebb}', '\u{0}', '\u{0}', '\u{0}')),
        0x2FA16 => Some((1, '\u{4d56}', '\u{0}', '\u{0}', '\u{0}')),
        0x2FA17 => Some((1, '\u{9ef9}', '\u{0}', '\u{0}', '\u{0}')),
        0x2FA18 => Some((1, '\u{9efe}', '\u{0}', '\u{0}', '\u{0}')),
        0x2FA19 => Some((1, '\u{9f05}', '\u{0}', '\u{0}', '\u{0}')),
        0x2FA1A => Some((1, '\u{9f0f}', '\u{0}', '\u{0}', '\u{0}')),
        0x2FA1B => Some((1, '\u{9f16}', '\u{0}', '\u{0}', '\u{0}')),
        0x2FA1C => Some((1, '\u{9f3b}', '\u{0}', '\u{0}', '\u{0}')),
        0x2FA1D => Some((1, '\u{2a600}', '\u{0}', '\u{0}', '\u{0}')),
        _ => None,
    }
}

fn decomposition_2f_of(u: u32) -> (r: Option<(u8, char, char, char, char)>)
    ensures
        r == decomposition_2f(u),
{
    match u {
        0x2F800 => Some((1, '\u{4e3d}', '\u{0}', '\u{0}', '\u{0}')),
        0x2F801 => Some((1, '\u{4e38}', '\u{0}', '\u{0}', '\u{0}')),
        0x2F802 => Some((1, '\u{4e41}', '\u{0}', '\u{0}', '\u{0}')),
        0x2F803 => Some((1, '\u{20122}', '\u{0}', '\u{0}', '\u{0}')),
        0x2F804 => Some((1, '\u{4f60}', '\u{0}', '\u{0}', '\u{0}')),
        0x2F805 => Some((1, '\u{4fae}', '\u{0}', '\u{0}', '\u{0}')),
        0x2F806 => Some((1, '\u{4fbb}', '\u{0}', '\u{0}', '\u{0}')),
        0x2F807 => Some((1, '\u{5002}', '\u{0}', '\u{0}', '\u{0}')),
        0x2F808 => Some((1, '\u{507a}', '\u{0}', '\u{0}', '\u{0}')),
        0x2F809 => Some((1, '\u{5099}', '\u{0}', '\u{0}', '\u{0}')),
        0x2F80A => Some((1, '\u{50e7}', '\u{0}', '\u{0}', '\u{0}')),
        0x2F80B => Some((1, '\u{50cf}', '\u{0}', '\u{0}', '\u{0}')),
        0x2F80C => Some((1, '\u{349e}', '\u{0}', '\u{0}', '\u{0}')),
        0x2F80D => Some((1, '\u{2063a}', '\u{0}', '\u{0}', '\u{0}')),
        0x2F80E => Some((1, '\u{514d}', '\u{0}', '\u{0}', '\u{0}')),
        0x2F80F => Some((1, '\u{5154}', '\u{0}', '\u{0}', '\u{0}')),
        0x2F810 => Some((1, '\u{5164}', '\u{0}', '\u{0}', '\u{0}')),
        0x2F811 => Some((1, '\u{5177}', '\u{0}', '\u{0}', '\u{0}')),
        0x2F812 => Some((1, '\u{2051c}', '\u{0}', '\u{0}', '\u{0}')),
        0x2F813 => Some((1, '\u{34b9}', '\u{0}', '\u{0}', '\u{0}')),
        0x2F814 => Some((1, '\u{5167}', '\u{0}', '\u{0}', '\u{0}')),
        0x2F815 => Some((1, '\u{518d}', '\u{0}', '\u{0}', '\u{0}')),
        0x2F816 => Some((1, '\u{2054b}', '\u{0}', '\u{0}', '\u{0}')),
        0x2F817 => Some((1, '\u{5197}', '\u{0}', '\u{0}', '\u{0}')),
        0x2F818 => Some((1, '\u{51a4}', '\u{0}', '\u{0}', '\u{0}')),
        0x2F819 => Some((1, '\u{4ecc}', '\u{0}', '\u{0}', '\u{0}')),
        0x2F81A => Some((1, '\u{51ac}', '\u{0}', '\u{0}', '\u{0}')),
        0x2F81B => Some((1, '\u{51b5}', '\u{0}', '\u{0}', '\u{0}')),
        0x2F81C => Some((1, '\u{291df}', '\u{0}', '\u{0}', '\u{0}')),
        0x2F81D => Some((1, '\u{51f5}', '\u{0}', '\u{0}', '\u{0}')),
        0x2F81E => Some((1, '\u{5203}', '\u{0}', '\u{0}', '\u{0}')),
        0x2F81F => Some((1, '\u{34df}', '\u{0}', '\u{0}', '\u{0}')),
        0x2F820 => Some((1, '\u{523b}', '\u{0}', '\u{0}', '\u{0}')),
        0x2F821 => Some((1, '\u{5246}', '\u{0}', '\u{0}', '\u{0}')),
        0x2F822 => Some((1, '\u{5272}', '\u{0}', '\u{0}', '\u{0}')),
        0x2F823 => Some((1, '\u{5277}', '\u{0}', '\u{0}', '\u{0}')),
        0x2F824 => Some((1, '\u{3515}', '\u{0}', '\u{0}', '\u{0}')),
        0x2F825 => Some((1, '\u{52c7}', '\u{0}', '\u{0}', '\u{0}')),
        0x2F826 => Some((1, '\u{52c9}', '\u{0}', '\u{0}', '\u{0}')),
        0x2F827 => Some((1, '\u{52e4}', '\u{0}', '\u{0}', '\u{0}')),
        0x2F828 => Some((1, '\u{52fa}', '\u{0}', '\u{0}', '\u{0}')),
        0x2F829 => Some((1, '\u{5305}', '\u{0}', '\u{0}', '\u{0}')),
        0x2F82A => Some((1, '\u{5306}', '\u{0}', '\u{0}', '\u{0}')),
        0x2F82B => Some((1, '\u{5317}', '\u{0}', '\u{0}', '\u{0}')),
        0x2F82C => Some((1, '\u{5349}', '\u{0}', '\u{0}', '\u{0}')),
        0x2F82D => Some((1, '\u{5351}', '\u{0}', '\u{0}', '\u{0}')),
        0x2F82E => Some((1, '\u{535a}', '\u{0}', '\u{0}', '\u{0}')),
        0x2F82F => Some((1, '\u{5373}', '\u{0}', '\u{0}', '\u{0}')),
        0x2F830 => Some((1, '\u{537d}', '\u{0}', '\u{0}', '\u{0}')),
        0x2F831 => Some((1, '\u{537f}', '\u{0}', '\u{0}', '\u{0}')),
        0x2F832 => Some((1, '\u{537f}', '\u{0}', '\u{0}', '\u{0}')),
        0x2F833 => Some((1, '\u{537f}', '\u{0}', '\u{0}', '\u{0}')),
        0x2F834 => Some((1, '\u{20a2c}', '\u{0}', '\u{0}', '\u{0}')),
        0x2F835 => Some((1, '\u{7070}', '\u{0}', '\u{0}', '\u{0}')),
        0x2F836 => Some((1, '\u{53ca}', '\u{0}', '\u{0}', '\u{0}')),
        0x2F837 => Some((1, '\u{53df}', '\u{0}', '\u{0}', '\u{0}')),
        0x2F838 => Some((1, '\u{20b63}', '\u{0}', '\u{0}', '\u{0}')),
        0x2F839 => Some((1, '\u{53eb}', '\u{0}', '\u{0}', '\u{0}')),
        0x2F83A => Some((1, '\u{53f1}', '\u{0}', '\u{0}', '\u{0}')),
        0x2F83B => Some((1, '\u{5406}', '\u{0}', '\u{0}', '\u{0}')),
        0x2F83C => Some((1, '\u{549e}', '\u{0}', '\u{0}', '\u{0}')),
        0x2F83D => Some((1, '\u{5438}', '\u{0}', '\u{0}', '\u{0}')),
        0x2F83E => Some((1, '\u{5448}', '\u{0}', '\u{0}', '\u{0}')),
        0x2F83F => Some((1, '\u{5468}', '\u{0}', '\u{0}', '\u{0}')),
        0x2F840 => Some((1, '\u{54a2}', '\u{0}', '\u{0}', '\u{0}')),
        0x2F841 => Some((1, '\u{54f6}', '\u{0}', '\u{0}', '\u{0}')),
        0x2F842 => Some((1, '\u{5510}', '\u{0}', '\u{0}', '\u{0}')),
        0x2F843 => Some((1, '\u{5553}', '\u{0}', '\u{0}', '\u{0}')),
        0x2F844 => Some((1, '\u{5563}', '\u{0}', '\u{0}', '\u{0}')),
        0x2F845 => Some((1, '\u{5584}', '\u{0}', '\u{0}', '\u{0}')),
        0x2F846 => Some((1, '\u{5584}', '\u{0}', '\u{0}', '\u{0}')),
        0x2F847 => Some((1, '\u{5599}', '\u{0}', '\u{0}', '\u{0}')),
        0x2F848 => Some((1, '\u{55ab}', '\u{0}', '\u{0}', '\u{0}')),
        0x2F849 => Some((1, '\u{55b3}', '\u{0}', '\u{0}', '\u{0}')),
        0x2F84A => Some((1, '\u{55c2}', '\u{0}', '\u{0}', '\u{0}')),
        0x2F84B => Some((1, '\u{5716}', '\u{0}', '\u{0}', '\u{0}')),
        0x2F84C => Some((1, '\u{5606}', '\u{0}', '\u{0}', '\u{0}')),
        0x2F84D => Some((1, '\u{5717}', '\u{0}', '\u{0}', '\u{0}')),
        0x2F84E => Some((1, '\u{5651}', '\u{0}', '\u{0}', '\u{0}')),
        0x2F84F => Some((1, '\u{5674}', '\u{0}', '\u{0}', '\u{0}')),
        0x2F850 => Some((1, '\u{5207}', '\u{0}', '\u{0}', '\u{0}')),
        0x2F851 => Some((1, '\u{58ee}', '\u{0}', '\u{0}', '\u{0}')),
        0x2F852 => Some((1, '\u{57ce}', '\u{0}', '\u{0}', '\u{0}')),
        0x2F853 => Some((1, '\u{57f4}', '\u{0}', '\u{0}', '\u{0}')),
        0x2F854 => Some((1, '\u{580d}', '\u{0}', '\u{0}', '\u{0}')),
        0x2F855 => Some((1, '\u{578b}', '\u{0}', '\u{0}', '\u{0}')),
        0x2F856 => Some((1, '\u{5832}', '\u{0}', '\u{0}', '\u{0}')),
        0x2F857 => Some((1, '\u{5831}', '\u{0}', '\u{0}', '\u{0}')),
        0x2F858 => Some((1, '\u{58ac}', '\u{0}', '\u{0}', '\u{0}')),
        0x2F859 => Some((1, '\u{214e4}', '\u{0}', '\u{0}', '\u{0}')),
        0x2F85A => Some((1, '\u{58f2}', '\u{0}', '\u{0}', '\u{0}')),
        0x2F85B => Some((1, '\u{58f7}', '\u{0}', '\u{0}', '\u{0}')),
        0x2F85C => Some((1, '\u{5906}', '\u{0}', '\u{0}', '\u{0}')),
        0x2F85D => Some((1, '\u{591a}', '\u{0}', '\u{0}', '\u{0}')),
        0x2F85E => Some((1, '\u{5922}', '\u{0}', '\u{0}', '\u{0}')),
        0x2F85F => Some((1, '\u{5962}', '\u{0}', '\u{0}', '\u{0}')),
        0x2F860 => Some((1, '\u{216a8}', '\u{0}', '\u{0}', '\u{0}')),
        0x2F861 => Some((1, '\u{216ea}', '\u{0}', '\u{0}', '\u{0}')),
        0x2F862 => Some((1, '\u{59ec}', '\u{0}', '\u{0}', '\u{0}')),
        0x2F863 => Some((1, '\u{5a1b}', '\u{0}', '\u{0}', '\u{0}')),
        0x2F864 => Some((1, '\u{5a27}', '\u{0}', '\u{0}', '\u{0}')),
        0x2F865 => Some((1, '\u{59d8}', '\u{0}', '\u{0}', '\u{0}')),
        0x2F866 => Some((1, '\u{5a66}', '\u{0}', '\u{0}', '\u{0}')),
        0x2F867 => Some((1, '\u{36ee}', '\u{0}', '\u{0}', '\u{0}')),
        0x2F868 => Some((1, '\u{36fc}', '\u{0}', '\u{0}', '\u{0}')),
        0x2F869 => Some((1, '\u{5b08}', '\u{0}', '\u{0}', '\u{0}')),
        0x2F86A => Some((1, '\u{5b3e}', '\u{0}', '\u{0}', '\u{0}')),
        0x2F86B => Some((1, '\u{5b3e}', '\u{0}', '\u{0}', '\u{0}')),
        0x2F86C => Some((1, '\u{219c8}', '\u{0}', '\u{0}', '\u{0}')),
        0x2F86D => Some((1, '\u{5bc3}', '\u{0}', '\u{0}', '\u{0}')),
        0x2F86E => Some((1, '\u{5bd8}', '\u{0}', '\u{0}', '\u{0}')),
        0x2F86F => Some((1, '\u{5be7}', '\u{0}', '\u{0}', '\u{0}')),
        0x2F870 => Some((1, '\u{5bf3}', '\u{0}', '\u{0}', '\u{0}')),
        0x2F871 => Some((1, '\u{21b18}', '\u{0}', '\u{0}', '\u{0}')),
        0x2F872 => Some((1, '\u{5bff}', '\u{0}', '\u{0}', '\u{0}')),
        0x2F873 => Some((1, '\u{5c06}', '\u{0}', '\u{0}', '\u{0}')),
        0x2F874 => Some((1, '\u{5f53}', '\u{0}', '\u{0}', '\u{0}')),
        0x2F875 => Some((1, '\u{5c22}', '\u{0}', '\u{0}', '\u{0}')),
        0x2F876 => Some((1, '\u{3781}', '\u{0}', '\u{0}', '\u{0}')),
        0x2F877 => Some((1, '\u{5c60}', '\u{0}', '\u{0}', '\u{0}')),
        0x2F878 => Some((1, '\u{5c6e}', '\u{0}', '\u{0}', '\u{0}')),
        0x2F879 => Some((1, '\u{5cc0}', '\u{0}', '\u{0}', '\u{0}')),
        0x2F87A => Some((1, '\u{5c8d}', '\u{0}', '\u{0}', '\u{0}')),
        0x2F87B => Some((1, '\u{21de4}', '\u{0}', '\u{0}', '\u{0}')),
        0x2F87C => Some((1, '\u{5d43}', '\u{0}', '\u{0}', '\u{0}')),
        0x2F87D => Some((1, '\u{21de6}', '\u{0}', '\u{0}', '\u{0}')),
        0x2F87E => Some((1, '\u{5d6e}', '\u{0}', '\u{0}', '\u{0}')),
        0x2F87F => Some((1, '\u{5d6b}', '\u{0}', '\u{0}', '\u{0}')),
        0x2F880 => Some((1, '\u{5d7c}', '\u{0}', '\u{0}', '\u{0}')),
        0x2F881 => Some((1, '\u{5de1}', '\u{0}', '\u{0}', '\u{0}')),
        0x2F882 => Some((1, '\u{5de2}', '\u{0}', '\u{0}', '\u{0}')),
        0x2F883 => Some((1, '\u{382f}', '\u{0}', '\u{0}', '\u{0}')),
        0x2F884 => Some((1, '\u{5dfd}', '\u{0}', '\u{0}', '\u{0}')),
        0x2F885 => Some((1, '\u{5e28}', '\u{0}', '\u{0}', '\u{0}')),
        0x2F886 => Some((1, '\u{5e3d}', '\u{0}', '\u{0}', '\u{0}')),
        0x2F887 => Some((1, '\u{5e69}', '\u{0}', '\u{0}', '\u{0}')),
        0x2F888 => Some((1, '\u{3862}', '\u{0}', '\u{0}', '\u{0}')),
        0x2F889 => Some((1, '\u{22183}', '\u{0}', '\u{0}', '\u{0}')),
        0x2F88A => Some((1, '\u{387c}', '\u{0}', '\u{0}', '\u{0}')),
        0x2F88B => Some((1, '\u{5eb0}', '\u{0}', '\u{0}', '\u{0}')),
        0x2F88C => Some((1, '\u{5eb3}', '\u{0}', '\u{0}', '\u{0}')),
        0x2F88D => Some((1, '\u{5eb6}', '\u{0}', '\u{0}', '\u{0}')),
        0x2F88E => Some((1, '\u{5eca}', '\u{0}', '\u{0}', '\u{0}')),
        0x2F88F => Some((1, '\u{2a392}', '\u{0}', '\u{0}', '\u{0}')),
        0x2F890 => Some((1, '\u{5efe}', '\u{0}', '\u{0}', '\u{0}')),
        0x2F891 => Some((1, '\u{22331}', '\u{0}', '\u{0}', '\u{0}')),
        0x2F892 => Some((1, '\u{22331}', '\u{0}', '\u{0}', '\u{0}')),
        0x2F893 => Some((1, '\u{8201}', '\u{0}', '\u{0}', '\u{0}')),
        0x2F894 => Some((1, '\u{5f22}', '\u{0}', '\u{0}', '\u{0}')),
        0x2F895 => Some((1, '\u{5f22}', '\u{0}', '\u{0}', '\u{0}')),
        0x2F896 => Some((1, '\u{38c7}', '\u{0}', '\u{0}', '\u{0}')),
        0x2F897 => Some((1, '\u{232b8}', '\u{0}', '\u{0}', '\u{0}')),
        0x2F898 => Some((1, '\u{261da}', '\u{0}', '\u{0}', '\u{0}')),
        0x2F899 => Some((1, '\u{5f62}', '\u{0}', '\u{0}', '\u{0}')),
        0x2F89A => Some((1, '\u{5f6b}', '\u{0}', '\u{0}', '\u{0}')),
        0x2F89B => Some((1, '\u{38e3}', '\u{0}', '\u{0}', '\u{0}')),
        0x2F89C => Some((1, '\u{5f9a}', '\u{0}', '\u{0}', '\u{0}')),
        0x2F89D => Some((1, '\u{5fcd}', '\u{0}', '\u{0}', '\u{0}')),
        0x2F89E => Some((1, '\u{5fd7}', '\u{0}', '\u{0}', '\u{0}')),
        0x2F89F => Some((1, '\u{5ff9}', '\u{0}', '\u{0}', '\u{0}')),
        0x2F8A0 => Some((1, '\u{6081}', '\u{0}', '\u{0}', '\u{0}')),
        0x2F8A1 => Some((1, '\u{393a}', '\u{0}', '\u{0}', '\u{0}')),
        0x2F8A2 => Some((1, '\u{391c}', '\u{0}', '\u{0}', '\u{0}')),
        0x2F8A3 => Some((1, '\u{6094}', '\u{0}', '\u{0}', '\u{0}')),
        0x2F8A4 => Some((1, '\u{226d4}', '\u{0}', '\u{0}', '\u{0}')),
        0x2F8A5 => Some((1, '\u{60c7}', '\u{0}', '\u{0}', '\u{0}')),
        0x2F8A6 => Some((1, '\u{6148}', '\u{0}', '\u{0}', '\u{0}')),
        0x2F8A7 => Some((1, '\u{614c}', '\u{0}', '\u{0}', '\u{0}')),
        0x2F8A8 => Some((1, '\u{614e}', '\u{0}', '\u{0}', '\u{0}')),
        0x2F8A9 => Some((1, '\u{614c}', '\u{0}', '\u{0}', '\u{0}')),
        0x2F8AA => Some((1, '\u{617a}', '\u{0}', '\u{0}', '\u{0}')),
        0x2F8AB => Some((1, '\u{618e}', '\u{0}', '\u{0}', '\u{0}')),
        0x2F8AC => Some((1, '\u{61b2}', '\u{0}', '\u{0}', '\u{0}')),
        0x2F8AD => Some((1, '\u{61a4}', '\u{0}', '\u{0}', '\u{0}')),
        0x2F8AE => Some((1, '\u{61af}', '\u{0}', '\u{0}', '\u{0}')),
        0x2F8AF => Some((1, '\u{61de}', '\u{0}', '\u{0}', '\u{0}')),
        0x2F8B0 => Some((1, '\u{61f2}', '\u{0}', '\u{0}', '\u{0}')),
        0x2F8B1 => Some((1, '\u{61f6}', '\u{0}', '\u{0}', '\u{0}')),
        0x2F8B2 => Some((1, '\u{6210}', '\u{0}', '\u{0}', '\u{0}')),
        0x2F8B3 => Some((1, '\u{621b}', '\u{0}', '\u{0}', '\u{0}')),
        0x2F8B4 => Some((1, '\u{625d}', '\u{0}', '\u{0}', '\u{0}')),
        0x2F8B5 => Some((1, '\u{62b1}', '\u{0}', '\u{0}', '\u{0}')),
        0x2F8B6 => Some((1, '\u{62d4}', '\u{0}', '\u{0}', '\u{0}')),
        0x2F8B7 => Some((1, '\u{6350}', '\u{0}', '\u{0}', '\u{0}')),
        0x2F8B8 => Some((1, '\u{22b0c}', '\u{0}', '\u{0}', '\u{0}')),
        0x2F8B9 => Some((1, '\u{633d}', '\u{0}', '\u{0}', '\u{0}')),
        0x2F8BA => Some((1, '\u{62fc}', '\u{0}', '\u{0}', '\u{0}')),
        0x2F8BB => Some((1, '\u{6368}', '\u{0}', '\u{0}', '\u{0}')),
        0x2F8BC => Some((1, '\u{6383}', '\u{0}', '\u{0}', '\u{0}')),
        0x2F8BD => Some((1, '\u{63e4}', '\u{0}', '\u{0}', '\u{0}')),
        0x2F8BE => Some((1, '\u{22bf1}', '\u{0}', '\u{0}', '\u{0}')),
        0x2F8BF => Some((1, '\u{6422}', '\u{0}', '\u{0}', '\u{0}')),
        0x2F8C0 => Some((1, '\u{63c5}', '\u{0}', '\u{0}', '\u{0}')),
        0x2F8C1 => Some((1, '\u{63a9}', '\u{0}', '\u{0}', '\u{0}')),
        0x2F8C2 => Some((1, '\u{3a2e}', '\u{0}', '\u{0}', '\u{0}')),
        0x2F8C3 => Some((1, '\u{6469}', '\u{0}', '\u{0}', '\u{0}')),
        0x2F8C4 => Some((1, '\u{647e}', '\u{0}', '\u{0}', '\u{0}')),
        0x2F8C5 => Some((1, '\u{649d}', '\u{0}', '\u{0}', '\u{0}')),
        0x2F8C6 => Some((1, '\u{6477}', '\u{0}', '\u{0}', '\u{0}')),
        0x2F8C7 => Some((1, '\u{3a6c}', '\u{0}', '\u{0}', '\u{0}')),
        0x2F8C8 => Some((1, '\u{654f}', '\u{0}', '\u{0}', '\u{0}')),
        0x2F8C9 => Some((1, '\u{656c}', '\u{0}', '\u{0}', '\u{0}')),
        0x2F8CA => Some((1, '\u{2300a}', '\u{0}', '\u{0}', '\u{0}')),
        0x2F8CB => Some((1, '\u{65e3}', '\u{0}', '\u{0}', '\u{0}')),
        0x2F8CC => Some((1, '\u{66f8}', '\u{0}', '\u{0}', '\u{0}')),
        0x2F8CD => Some((1, '\u{6649}', '\u{0}', '\u{0}', '\u{0}')),
        0x2F8CE => Some((1, '\u{3b19}', '\u{0}', '\u{0}', '\u{0}')),
        0x2F8CF => Some((1, '\u{6691}', '\u{0}', '\u{0}', '\u{0}')),
        0x2F8D0 => Some((1, '\u{3b08}', '\u{0}', '\u{0}', '\u{0}')),
        0x2F8D1 => Some((1, '\u{3ae4}', '\u{0}', '\u{0}', '\u{0}')),
        0x2F8D2 => Some((1, '\u{5192}', '\u{0}', '\u{0}', '\u{0}')),
        0x2F8D3 => Some((1, '\u{5195}', '\u{0}', '\u{0}', '\u{0}')),
        0x2F8D4 => Some((1, '\u{6700}', '\u{0}', '\u{0}', '\u{0}')),
        0x2F8D5 => Some((1, '\u{669c}', '\u{0}', '\u{0}', '\u{0}')),
        0x2F8D6 => Some((1, '\u{80ad}', '\u{0}', '\u{0}', '\u{0}')),
        0x2F8D7 => Some((1, '\u{43d9}', '\u{0}', '\u{0}', '\u{0}')),
        0x2F8D8 => Some((1, '\u{6717}', '\u{0}', '\u{0}', '\u{0}')),
        0x2F8D9 => Some((1, '\u{671b}', '\u{0}', '\u{0}', '\u{0}')),
        0x2F8DA => Some((1, '\u{6721}', '\u{0}', '\u{0}', '\u{0}')),
        0x2F8DB => Some((1, '\u{675e}', '\u{0}', '\u{0}', '\u{0}')),
        0x2F8DC => Some((1, '\u{6753}', '\u{0}', '\u{0}', '\u{0}')),
        0x2F8DD => Some((1, '\u{233c3}', '\u{0}', '\u{0}', '\u{0}')),
        0x2F8DE => Some((1, '\u{3b49}', '\u{0}', '\u{0}', '\u{0}')),
        0x2F8DF => Some((1, '\u{67fa}', '\u{0}', '\u{0}', '\u{0}')),
        0x2F8E0 => Some((1, '\u{6785}', '\u{0}', '\u{0}', '\u{0}')),
        0x2F8E1 => Some((1, '\u{6852}', '\u{0}', '\u{0}', '\u{0}')),
        0x2F8E2 => Some((1, '\u{6885}', '\u{0}', '\u{0}', '\u{0}')),
        0x2F8E3 => Some((1, '\u{2346d}', '\u{0}', '\u{0}', '\u{0}')),
        0x2F8E4 => Some((1, '\u{688e}', '\u{0}', '\u{0}', '\u{0}')),
        0x2F8E5 => Some((1, '\u{681f}', '\u{0}', '\u{0}', '\u{0}')),
        0x2F8E6 => Some((1, '\u{6914}', '\u{0}', '\u{0}', '\u{0}')),
        0x2F8E7 => Some((1, '\u{3b9d}', '\u{0}', '\u{0}', '\u{0}')),
        0x2F8E8 => Some((1, '\u{6942}', '\u{0}', '\u{0}', '\u{0}')),
        0x2F8E9 => Some((1, '\u{69a3}', '\u{0}', '\u{0}', '\u{0}')),
        0x2F8EA => Some((1, '\u{69ea}', '\u{0}', '\u{0}', '\u{0}')),
        0x2F8EB => Some((1, '\u{6aa8}', '\u{0}', '\u{0}', '\u{0}')),
        0x2F8EC => Some((1, '\u{236a3}', '\u{0}', '\u{0}', '\u{0}')),
        0x2F8ED => Some((1, '\u{6adb}', '\u{0}', '\u{0}', '\u{0}')),
        0x2F8EE => Some((1, '\u{3c18}', '\u{0}', '\u{0}', '\u{0}')),
        0x2F8EF => Some((1, '\u{6b21}', '\u{0}', '\u{0}', '\u{0}')),
        0x2F8F0 => Some((1, '\u{238a7}', '\u{0}', '\u{0}', '\u{0}')),
        0x2F8F1 => Some((1, '\u{6b54}', '\u{0}', '\u{0}', '\u{0}')),
        0x2F8F2 => Some((1, '\u{3c4e}', '\u{0}', '\u{0}', '\u{0}')),
        0x2F8F3 => Some((1, '\u{6b72}', '\u{0}', '\u{0}', '\u{0}')),
        0x2F8F4 => Some((1, '\u{6b9f}', '\u{0}', '\u{0}', '\u{0}')),
        0x2F8F5 => Some((1, '\u{6bba}', '\u{0}', '\u{0}', '\u{0}')),
        0x2F8F6 => Some((1, '\u{6bbb}', '\u{0}', '\u{0}', '\u{0}')),
        0x2F8F7 => Some((1, '\u{23a8d}', '\u{0}', '\u{0}', '\u{0}')),
        0x2F8F8 => Some((1, '\u{21d0b}', '\u{0}', '\u{0}', '\u{0}')),
        0x2F8F9 => Some((1, '\u{23afa}', '\u{0}', '\u{0}', '\u{0}')),
        0x2F8FA => Some((1, '\u{6c4e}', '\u{0}', '\u{0}', '\u{0}')),
        0x2F8FB => Some((1, '\u{23cbc}', '\u{0}', '\u{0}', '\u{0}')),
        0x2F8FC => Some((1, '\u{6cbf}', '\u{0}', '\u{0}', '\u{0}')),
        0x2F8FD => Some((1, '\u{6ccd}', '\u{0}', '\u{0}', '\u{0}')),
        0x2F8FE => Some((1, '\u{6c67}', '\u{0}', '\u{0}', '\u{0}')),
        0x2F8FF => Some((1, '\u{6d16}', '\u{0}', '\u{0}', '\u{0}')),
        0x2F900 => Some((1, '\u{6d3e}', '\u{0}', '\u{0}', '\u{0}')),
        0x2F901 => Some((1, '\u{6d77}', '\u{0}', '\u{0}', '\u{0}')),
        0x2F902 => Some((1, '\u{6d41}', '\u{0}', '\u{0}', '\u{0}')),
        0x2F903 => Some((1, '\u{6d69}', '\u{0}', '\u{0}', '\u{0}')),
        0x2F904 => Some((1, '\u{6d78}', '\u{0}', '\u{0}', '\u{0}')),
        0x2F905 => Some((1, '\u{6d85}', '\u{0}', '\u{0}', '\u{0}')),
        0x2F906 => Some((1, '\u{23d1e}', '\u{0}', '\u{0}', '\u{0}')),
        0x2F907 => Some((1, '\u{6d34}', '\u{0}', '\u{0}', '\u{0}')),
        0x2F908 => Some((1, '\u{6e2f}', '\u{0}', '\u{0}', '\u{0}')),
        0x2F909 => Some((1, '\u{6e6e}', '\u{0}', '\u{0}', '\u{0}')),
        0x2F90A => Some((1, '\u{3d33}', '\u{0}', '\u{0}', '\u{0}')),
        0x2F90B => Some((1, '\u{6ecb}', '\u{0}', '\u{0}', '\u{0}')),
        0x2F90C => Some((1, '\u{6ec7}', '\u{0}', '\u{0}', '\u{0}')),
        0x2F90D => Some((1, '\u{23ed1}', '\u{0}', '\u{0}', '\u{0}')),
        0x2F90E => Some((1, '\u{6df9}', '\u{0}', '\u{0}', '\u{0}')),
        0x2F90F => Some((1, '\u{6f6e}', '\u{0}', '\u{0}', '\u{0}')),
        0x2F910 => Some((1, '\u{23f5e}', '\u{0}', '\u{0}', '\u{0}')),
        0x2F911 => Some((1, '\u{23f8e}', '\u{0}', '\u{0}', '\u{0}')),
        0x2F912 => Some((1, '\u{6fc6}', '\u{0}', '\u{0}', '\u{0}')),
        0x2F913 => Some((1, '\u{7039}', '\u{0}', '\u{0}', '\u{0}')),
        0x2F914 => Some((1, '\u{701e}', '\u{0}', '\u{0}', '\u{0}')),
        0x2F915 => Some((1, '\u{701b}', '\u{0}', '\u{0}', '\u{0}')),
        0x2F916 => Some((1, '\u{3d96}', '\u{0}', '\u{0}', '\u{0}')),
        0x2F917 => Some((1, '\u{704a}', '\u{0}', '\u{0}', '\u{0}')),
        0x2F918 => Some((1, '\u{707d}', '\u{0}', '\u{0}', '\u{0}')),
        0x2F919 => Some((1, '\u{7077}', '\u{0}', '\u{0}', '\u{0}')),
        0x2F91A => Some((1, '\u{70ad}', '\u{0}', '\u{0}', '\u{0}')),
        0x2F91B => Some((1, '\u{20525}', '\u{0}', '\u{0}', '\u{0}')),
        0x2F91C => Some((1, '\u{7145}', '\u{0}', '\u{0}', '\u{0}')),
        0x2F91D => Some((1, '\u{24263}', '\u{0}', '\u{0}', '\u{0}')),
        0x2F91E => Some((1, '\u{719c}', '\u{0}', '\u{0}', '\u{0}')),
        0x2F91F => Some((1, '\u{243ab}', '\u{0}', '\u{0}', '\u{0}')),
        0x2F920 => Some((1, '\u{7228}', '\u{0}', '\u{0}', '\u{0}')),
        0x2F921 => Some((1, '\u{7235}', '\u{0}', '\u{0}', '\u{0}')),
        0x2F922 => Some((1, '\u{7250}', '\u{0}', '\u{0}', '\u{0}')),
        0x2F923 => Some((1, '\u{24608}', '\u{0}', '\u{0}', '\u{0}')),
        0x2F924 => Some((1, '\u{7280}', '\u{0}', '\u{0}', '\u{0}')),
        0x2F925 => Some((1, '\u{7295}', '\u{0}', '\u{0}', '\u{0}')),
        0x2F926 => Some((1, '\u{24735}', '\u{0}', '\u{0}', '\u{0}')),
        0x2F927 => Some((1, '\u{24814}', '\u{0}', '\u{0}', '\u{0}')),
        0x2F928 => Some((1, '\u{737a}', '\u{0}', '\u{0}', '\u{0}')),
        0x2F929 => Some((1, '\u{738b}', '\u{0}', '\u{0}', '\u{0}')),
        0x2F92A => Some((1, '\u{3eac}', '\u{0}', '\u{0}', '\u{0}')),
        0x2F92B => Some((1, '\u{73a5}', '\u{0}', '\u{0}', '\u{0}')),
        0x2F92C => Some((1, '\u{3eb8}', '\u{0}', '\u{0}', '\u{0}')),
        0x2F92D => Some((1, '\u{3eb8}', '\u{0}', '\u{0}', '\u{0}')),
        0x2F92E => Some((1, '\u{7447}', '\u{0}', '\u{0}', '\u{0}')),
        0x2F92F => Some((1, '\u{745c}', '\u{0}', '\u{0}', '\u{0}')),
        0x2F930 => Some((1, '\u{7471}', '\u{0}', '\u{0}', '\u{0}')),
        0x2F931 => Some((1, '\u{7485}', '\u{0}', '\u{0}', '\u{0}')),
        0x2F932 => Some((1, '\u{74ca}', '\u{0}', '\u{0}', '\u{0}')),
        0x2F933 => Some((1, '\u{3f1b}', '\u{0}', '\u{0}', '\u{0}')),
        0x2F934 => Some((1, '\u{7524}', '\u{0}', '\u{0}', '\u{0}')),
        0x2F935 => Some((1, '\u{24c36}', '\u{0}', '\u{0}', '\u{0}')),
        0x2F936 => Some((1, '\u{753e}', '\u{0}', '\u{0}', '\u{0}')),
        0x2F937 => Some((1, '\u{24c92}', '\u{0}', '\u{0}', '\u{0}')),
        0x2F938 => Some((1, '\u{7570}', '\u{0}', '\u{0}', '\u{0}')),
        0x2F939 => Some((1, '\u{2219f}', '\u{0}', '\u{0}', '\u{0}')),
        0x2F93A => Some((1, '\u{7610}', '\u{0}', '\u{0}', '\u{0}')),
        0x2F93B => Some((1, '\u{24fa1}', '\u{0}', '\u{0}', '\u{0}')),
        0x2F93C => Some((1, '\u{24fb8}', '\u{0}', '\u{0}', '\u{0}')),
        0x2F93D => Some((1, '\u{25044}', '\u{0}', '\u{0}', '\u{0}')),
        0x2F93E => Some((1, '\u{3ffc}', '\u{0}', '\u{0}', '\u{0}')),
        0x2F93F => Some((1, '\u{4008}', '\u{0}', '\u{0}', '\u{0}')),
        0x2F940 => Some((1, '\u{76f4}', '\u{0}', '\u{0}', '\u{0}')),
        0x2F941 => Some((1, '\u{250f3}', '\u{0}', '\u{0}', '\u{0}')),
        0x2F942 => Some((1, '\u{250f2}', '\u{0}', '\u{0}', '\u{0}')),
        0x2F943 => Some((1, '\u{25119}', '\u{0}', '\u{0}', '\u{0}')),
        0x2F944 => Some((1, '\u{25133}', '\u{0}', '\u{0}', '\u{0}')),
        0x2F945 => Some((1, '\u{771e}', '\u{0}', '\u{0}', '\u{0}')),
        0x2F946 => Some((1, '\u{771f}', '\u{0}', '\u{0}', '\u{0}')),
        0x2F947 => Some((1, '\u{771f}', '\u{0}', '\u{0}', '\u{0}')),
        0x2F948 => Some((1, '\u{774a}', '\u{0}', '\u{0}', '\u{0}')),
        0x2F949 => Some((1, '\u{4039}', '\u{0}', '\u{0}', '\u{0}')),
        0x2F94A => Some((1, '\u{778b}', '\u{0}', '\u{0}', '\u{0}')),
        0x2F94B => Some((1, '\u{4046}', '\u{0}', '\u{0}', '\u{0}')),
        0x2F94C => Some((1, '\u{4096}', '\u{0}', '\u{0}', '\u{0}')),
        0x2F94D => Some((1, '\u{2541d}', '\u{0}', '\u{0}', '\u{0}')),
        0x2F94E => Some((1, '\u{784e}', '\u{0}', '\u{0}', '\u{0}')),
        0x2F94F => Some((1, '\u{788c}', '\u{0}', '\u{0}', '\u{0}')),
        0x2F950 => Some((1, '\u{78cc}', '\u{0}', '\u{0}', '\u{0}')),
        0x2F951 => Some((1, '\u{40e3}', '\u{0}', '\u{0}', '\u{0}')),
        0x2F952 => Some((1, '\u{25626}', '\u{0}', '\u{0}', '\u{0}')),
        0x2F953 => Some((1, '\u{7956}', '\u{0}', '\u{0}', '\u{0}')),
        0x2F954 => Some((1, '\u{2569a}', '\u{0}', '\u{0}', '\u{0}')),
        0x2F955 => Some((1, '\u{256c5}', '\u{0}', '\u{0}', '\u{0}')),
        0x2F956 => Some((1, '\u{798f}', '\u{0}', '\u{0}', '\u{0}')),
        0x2F957 => Some((1, '\u{79eb}', '\u{0}', '\u{0}', '\u{0}')),
        0x2F958 => Some((1, '\u{412f}', '\u{0}', '\u{0}', '\u{0}')),
        0x2F959 => Some((1, '\u{7a40}', '\u{0}', '\u{0}', '\u{0}')),
        0x2F95A => Some((1, '\u{7a4a}', '\u{0}', '\u{0}', '\u{0}')),
        0x2F95B => Some((1, '\u{7a4f}', '\u{0}', '\u{0}', '\u{0}')),
        0x2F95C => Some((1, '\u{2597c}', '\u{0}', '\u{0}', '\u{0}')),
        0x2F95D => Some((1, '\u{25aa7}', '\u{0}', '\u{0}', '\u{0}')),
        0x2F95E => Some((1, '\u{25aa7}', '\u{0}', '\u{0}', '\u{0}')),
        0x2F95F => Some((1, '\u{7aee}', '\u{0}', '\u{0}', '\u{0}')),
        0x2F960 => Some((1, '\u{4202}', '\u{0}', '\u{0}', '\u{0}')),
        0x2F961 => Some((1, '\u{25bab}', '\u{0}', '\u{0}', '\u{0}')),
        0x2F962 => Some((1, '\u{7bc6}', '\u{0}', '\u{0}', '\u{0}')),
        0x2F963 => Some((1, '\u{7bc9}', '\u{0}', '\u{0}', '\u{0}')),
        0x2F964 => Some((1, '\u{4227}', '\u{0}', '\u{0}', '\u{0}')),
        0x2F965 => Some((1, '\u{25c80}', '\u{0}', '\u{0}', '\u{0}')),
        0x2F966 => Some((1, '\u{7cd2}', '\u{0}', '\u{0}', '\u{0}')),
        0x2F967 => Some((1, '\u{42a0}', '\u{0}', '\u{0}', '\u{0}')),
        0x2F968 => Some((1, '\u{7ce8}', '\u{0}', '\u{0}', '\u{0}')),
        0x2F969 => Some((1, '\u{7ce3}', '\u{0}', '\u{0}', '\u{0}')),
        0x2F96A => Some((1, '\u{7d00}', '\u{0}', '\u{0}', '\u{0}')),
        0x2F96B => Some((1, '\u{25f86}', '\u{0}', '\u{0}', '\u{0}')),
        0x2F96C => Some((1, '\u{7d63}', '\u{0}', '\u{0}', '\u{0}')),
        0x2F96D => Some((1, '\u{4301}', '\u{0}', '\u{0}', '\u{0}')),
        0x2F96E => Some((1, '\u{7dc7}', '\u{0}', '\u{0}', '\u{0}')),
        0x2F96F => Some((1, '\u{7e02}', '\u{0}', '\u{0}', '\u{0}')),
        0x2F970 => Some((1, '\u{7e45}', '\u{0}', '\u{0}', '\u{0}')),
        0x2F971 => Some((1, '\u{4334}', '\u{0}', '\u{0}', '\u{0}')),
        0x2F972 => Some((1, '\u{26228}', '\u{0}', '\u{0}', '\u{0}')),
        0x2F973 => Some((1, '\u{26247}', '\u{0}', '\u{0}', '\u{0}')),
        0x2F974 => Some((1, '\u{4359}', '\u{0}', '\u{0}', '\u{0}')),
        0x2F975 => Some((1, '\u{262d9}', '\u{0}', '\u{0}', '\u{0}')),
        0x2F976 => Some((1, '\u{7f7a}', '\u{0}', '\u{0}', '\u{0}')),
        0x2F977 => Some((1, '\u{2633e}', '\u{0}', '\u{0}', '\u{0}')),
        0x2F978 => Some((1, '\u{7f95}', '\u{0}', '\u{0}', '\u{0}')),
        0x2F979 => Some((1, '\u{7ffa}', '\u{0}', '\u{0}', '\u{0}')),
        0x2F97A => Some((1, '\u{8005}', '\u{0}', '\u{0}', '\u{0}')),
        0x2F97B => Some((1, '\u{264da}', '\u{0}', '\u{0}', '\u{0}')),
        0x2F97C => Some((1, '\u{26523}', '\u{0}', '\u{0}', '\u{0}')),
        0x2F97D => Some((1, '\u{8060}', '\u{0}', '\u{0}', '\u{0}')),
        0x2F97E => Some((1, '\u{265a8}', '\u{0}', '\u{0}', '\u{0}')),
        0x2F97F => Some((1, '\u{8070}', '\u{0}', '\u{0}', '\u{0}')),
        0x2F980 => Some((1, '\u{2335f}', '\u{0}', '\u{0}', '\u{0}')),
        0x2F981 => Some((1, '\u{43d5}', '\u{0}', '\u{0}', '\u{0}')),
        0x2F982 => Some((1, '\u{80b2}', '\u{0}', '\u{0}', '\u{0}')),
        0x2F983 => Some((1, '\u{8103}', '\u{0}', '\u{0}', '\u{0}')),
        0x2F984 => Some((1, '\u{440b}', '\u{0}', '\u{0}', '\u{0}')),
        0x2F985 => Some((1, '\u{813e}', '\u{0}', '\u{0}', '\u{0}')),
        0x2F986 => Some((1, '\u{5ab5}', '\u{0}', '\u{0}', '\u{0}')),
        0x2F987 => Some((1, '\u{267a7}', '\u{0}', '\u{0}', '\u{0}')),
        0x2F988 => Some((1, '\u{267b5}', '\u{0}', '\u{0}', '\u{0}')),
        0x2F989 => Some((1, '\u{23393}', '\u{0}', '\u{0}', '\u{0}')),
        0x2F98A => Some((1, '\u{2339c}', '\u{0}', '\u{0}', '\u{0}')),
        0x2F98B => Some((1, '\u{8201}', '\u{0}', '\u{0}', '\u{0}')),
        0x2F98C => Some((1, '\u{8204}', '\u{0}', '\u{0}', '\u{0}')),
        0x2F98D => Some((1, '\u{8f9e}', '\u{0}', '\u{0}', '\u{0}')),
        0x2F98E => Some((1, '\u{446b}', '\u{0}', '\u{0}', '\u{0}')),
        0x2F98F => Some((1, '\u{8291}', '\u{0}', '\u{0}', '\u{0}')),
        0x2F990 => Some((1, '\u{828b}', '\u{0}', '\u{0}', '\u{0}')),
        0x2F991 => Some((1, '\u{829d}', '\u{0}', '\u{0}', '\u{0}')),
        0x2F992 => Some((1, '\u{52b3}', '\u{0}', '\u{0}', '\u{0}')),
        0x2F993 => Some((1, '\u{82b1}', '\u{0}', '\u{0}', '\u{0}')),
        0x2F994 => Some((1, '\u{82b3}', '\u{0}', '\u{0}', '\u{0}')),
        0x2F995 => Some((1, '\u{82bd}', '\u{0}', '\u{0}', '\u{0}')),
        0x2F996 => Some((1, '\u{82e6}', '\u{0}', '\u{0}', '\u{0}')),
        0x2F997 => Some((1, '\u{26b3c}', '\u{0}', '\u{0}', '\u{0}')),
        0x2F998 => Some((1, '\u{82e5}', '\u{0}', '\u{0}', '\u{0}')),
        0x2F999 => Some((1, '\u{831d}', '\u{0}', '\u{0}', '\u{0}')),
        0x2F99A => Some((1, '\u{8363}', '\u{0}', '\u{0}', '\u{0}')),
        0x2F99B => Some((1, '\u{83ad}', '\u{0}', '\u{0}', '\u{0}')),
        0x2F99C => Some((1, '\u{8323}', '\u{0}', '\u{0}', '\u{0}')),
        0x2F99D => Some((1, '\u{83bd}', '\u{0}', '\u{0}', '\u{0}')),
        0x2F99E => Some((1, '\u{83e7}', '\u{0}', '\u{0}', '\u{0}')),
        0x2F99F => Some((1, '\u{8457}', '\u{0}', '\u{0}', '\u{0}')),
        0x2F9A0 => Some((1, '\u{8353}', '\u{0}', '\u{0}', '\u{0}')),
        0x2F9A1 => Some((1, '\u{83ca}', '\u{0}', '\u{0}', '\u{0}')),
        0x2F9A2 => Some((1, '\u{83cc}', '\u{0}', '\u{0}', '\u{0}')),
        0x2F9A3 => Some((1, '\u{83dc}', '\u{0}', '\u{0}', '\u{0}')),
        0x2F9A4 => Some((1, '\u{26c36}', '\u{0}', '\u{0}', '\u{0}')),
        0x2F9A5 => Some((1, '\u{26d6b}', '\u{0}', '\u{0}', '\u{0}')),
        0x2F9A6 => Some((1, '\u{26cd5}', '\u{0}', '\u{0}', '\u{0}')),
        0x2F9A7 => Some((1, '\u{452b}', '\u{0}', '\u{0}', '\u{0}')),
        0x2F9A8 => Some((1, '\u{84f1}', '\u{0}', '\u{0}', '\u{0}')),
        0x2F9A9 => Some((1, '\u{84f3}', '\u{0}', '\u{0}', '\u{0}')),
        0x2F9AA => Some((1, '\u{8516}', '\u{0}', '\u{0}', '\u{0}')),
        0x2F9AB => Some((1, '\u{273ca}', '\u{0}', '\u{0}', '\u{0}')),
        0x2F9AC => Some((1, '\u{8564}', '\u{0}', '\u{0}', '\u{0}')),
        0x2F9AD => Some((1, '\u{26f2c}', '\u{0}', '\u{0}', '\u{0}')),
        0x2F9AE => Some((1, '\u{455d}', '\u{0}', '\u{0}', '\u{0}')),
        0x2F9AF => Some((1, '\u{4561}', '\u{0}', '\u{0}', '\u{0}')),
        0x2F9B0 => Some((1, '\u{26fb1}', '\u{0}', '\u{0}', '\u{0}')),
        0x2F9B1 => Some((1, '\u{270d2}', '\u{0}', '\u{0}', '\u{0}')),
        0x2F9B2 => Some((1, '\u{456b}', '\u{0}', '\u{0}', '\u{0}')),
        0x2F9B3 => Some((1, '\u{8650}', '\u{0}', '\u{0}', '\u{0}')),
        0x2F9B4 => Some((1, '\u{865c}', '\u{0}', '\u{0}', '\u{0}')),
        0x2F9B5 => Some((1, '\u{8667}', '\u{0}', '\u{0}', '\u{0}')),
        0x2F9B6 => Some((1, '\u{8669}', '\u{0}', '\u{0}', '\u{0}')),
        0x2F9B7 => Some((1, '\u{86a9}', '\u{0}', '\u{0}', '\u{0}')),
        0x2F9B8 => Some((1, '\u{8688}', '\u{0}', '\u{0}', '\u{0}')),
        0x2F9B9 => Some((1, '\u{870e}', '\u{0}', '\u{0}', '\u{0}')),
        0x2F9BA => Some((1, '\u{86e2}', '\u{0}', '\u{0}', '\u{0}')),
        0x2F9BB => Some((1, '\u{8779}', '\u{0}', '\u{0}', '\u{0}')),
        0x2F9BC => Some((1, '\u{8728}', '\u{0}', '\u{0}', '\u{0}')),
        0x2F9BD => Some((1, '\u{876b}', '\u{0}', '\u{0}', '\u{0}')),
        0x2F9BE => Some((1, '\u{8786}', '\u{0}', '\u{0}', '\u{0}')),
        0x2F9BF => Some((1, '\u{45d7}', '\u{0}', '\u{0}', '\u{0}')),
        0x2F9C0 => Some((1, '\u{87e1}', '\u{0}', '\u{0}', '\u{0}')),
        0x2F9C1 => Some((1, '\u{8801}', '\u{0}', '\u{0}', '\u{0}')),
        0x2F9C2 => Some((1, '\u{45f9}', '\u{0}', '\u{0}', '\u{0}')),
        0x2F9C3 => Some((1, '\u{8860}', '\u{0}', '\u{0}', '\u{0}')),
        0x2F9C4 => Some((1, '\u{8863}', '\u{0}', '\u{0}', '\u{0}')),
        0x2F9C5 => Some((1, '\u{27667}', '\u{0}', '\u{0}', '\u{0}')),
        0x2F9C6 => Some((1, '\u{88d7}', '\u{0}', '\u{0}', '\u{0}')),
        0x2F9C7 => Some((1, '\u{88de}', '\u{0}', '\u{0}', '\u{0}')),
        0x2F9C8 => Some((1, '\u{4635}', '\u{0}', '\u{0}', '\u{0}')),
        0x2F9C9 => Some((1, '\u{88fa}', '\u{0}', '\u{0}', '\u{0}')),
        0x2F9CA => Some((1, '\u{34bb}', '\u{0}', '\u{0}', '\u{0}')),
        0x2F9CB => Some((1, '\u{278ae}', '\u{0}', '\u{0}', '\u{0}')),
        0x2F9CC => Some((1, '\u{27966}', '\u{0}', '\u{0}', '\u{0}')),
        0x2F9CD => Some((1, '\u{46be}', '\u{0}', '\u{0}', '\u{0}')),
        0x2F9CE => Some((1, '\u{46c7}', '\u{0}', '\u{0}', '\u{0}')),
        0x2F9CF => Some((1, '\u{8aa0}', '\u{0}', '\u{0}', '\u{0}')),
        0x2F9D0 => Some((1, '\u{8aed}', '\u{0}', '\u{0}', '\u{0}')),
        0x2F9D1 => Some((1, '\u{8b8a}', '\u{0}', '\u{0}', '\u{0}')),
        0x2F9D2 => Some((1, '\u{8c55}', '\u{0}', '\u{0}', '\u{0}')),
        0x2F9D3 => Some((1, '\u{27ca8}', '\u{0}', '\u{0}', '\u{0}')),
        0x2F9D4 => Some((1, '\u{8cab}', '\u{0}', '\u{0}', '\u{0}')),
        0x2F9D5 => Some((1, '\u{8cc1}', '\u{0}', '\u{0}', '\u{0}')),
        0x2F9D6 => Some((1, '\u{8d1b}', '\u{0}', '\u{0}', '\u{0}')),
        0x2F9D7 => Some((1, '\u{8d77}', '\u{0}', '\u{0}', '\u{0}')),
        0x2F9D8 => Some((1, '\u{27f2f}', '\u{0}', '\u{0}', '\u{0}')),
        0x2F9D9 => Some((1, '\u{20804}', '\u{0}', '\u{0}', '\u{0}')),
        0x2F9DA => Some((1, '\u{8dcb}', '\u{0}', '\u{0}', '\u{0}')),
        0x2F9DB => Some((1, '\u{8dbc}', '\u{0}', '\u{0}', '\u{0}')),
        0x2F9DC => Some((1, '\u{8df0}', '\u{0}', '\u{0}', '\u{0}')),
        0x2F9DD => Some((1, '\u{208de}', '\u{0}', '\u{0}', '\u{0}')),
        0x2F9DE => Some((1, '\u{8ed4}', '\u{0}', '\u{0}', '\u{0}')),
        0x2F9DF => Some((1, '\u{8f38}', '\u{0}', '\u{0}', '\u{0}')),
        0x2F9E0 => Some((1, '\u{285d2}', '\u{0}', '\u{0}', '\u{0}')),
        0x2F9E1 => Some((1, '\u{285ed}', '\u{0}', '\u{0}', '\u{0}')),
        0x2F9E2 => Some((1, '\u{9094}', '\u{0}', '\u{0}', '\u{0}')),
        0x2F9E3 => Some((1, '\u{90f1}', '\u{0}', '\u{0}', '\u{0}')),
        0x2F9E4 => Some((1, '\u{9111}', '\u{0}', '\u{0}', '\u{0}')),
        0x2F9E5 => Some((1, '\u{2872e}', '\u{0}', '\u{0}', '\u{0}')),
        0x2F9E6 => Some((1, '\u{911b}', '\u{0}', '\u{0}', '\u{0}')),
        0x2F9E7 => Some((1, '\u{9238}', '\u{0}', '\u{0}', '\u{0}')),
        0x2F9E8 => Some((1, '\u{92d7}', '\u{0}', '\u{0}', '\u{0}')),
        0x2F9E9 => Some((1, '\u{92d8}', '\u{0}', '\u{0}', '\u{0}')),
        0x2F9EA => Some((1, '\u{927c}', '\u{0}', '\u{0}', '\u{0}')),
        0x2F9EB => Some((1, '\u{93f9}', '\u{0}', '\u{0}', '\u{0}')),
        0x2F9EC => Some((1, '\u{9415}', '\u{0}', '\u{0}', '\u{0}')),
        0x2F9ED => Some((1, '\u{28bfa}', '\u{0}', '\u{0}', '\u{0}')),
        0x2F9EE => Some((1, '\u{958b}', '\u{0}', '\u{0}', '\u{0}')),
        0x2F9EF => Some((1, '\u{4995}', '\u{0}', '\u{0}', '\u{0}')),
        0x2F9F0 => Some((1, '\u{95b7}', '\u{0}', '\u{0}', '\u{0}')),
        0x2F9F1 => Some((1, '\u{28d77}', '\u{0}', '\u{0}', '\u{0}')),
        0x2F9F2 => Some((1, '\u{49e6}', '\u{0}', '\u{0}', '\u{0}')),
        0x2F9F3 => Some((1, '\u{96c3}', '\u{0}', '\u{0}', '\u{0}')),
        0x2F9F4 => Some((1, '\u{5db2}', '\u{0}', '\u{0}', '\u{0}')),
        0x2F9F5 => Some((1, '\u{9723}', '\u{0}', '\u{0}', '\u{0}')),
        0x2F9F6 => Some((1, '\u{29145}', '\u{0}', '\u{0}', '\u{0}')),
        0x2F9F7 => Some((1, '\u{2921a}', '\u{0}', '\u{0}', '\u{0}')),
        0x2F9F8 => Some((1, '\u{4a6e}', '\u{0}', '\u{0}', '\u{0}')),
        0x2F9F9 => Some((1, '\u{4a76}', '\u{0}', '\u{0}', '\u{0}')),
        0x2F9FA => Some((1, '\u{97e0}', '\u{0}', '\u{0}', '\u{0}')),
        0x2F9FB => Some((1, '\u{2940a}', '\u{0}', '\u{0}', '\u{0}')),
        0x2F9FC => Some((1, '\u{4ab2}', '\u{0}', '\u{0}', '\u{0}')),
        0x2F9FD => Some((1, '\u{29496}', '\u{0}', '\u{0}', '\u{0}')),
        0x2F9FE => Some((1, '\u{980b}', '\u{0}', '\u{0}', '\u{0}')),
        0x2F9FF => Some((1, '\u{980b}', '\u{0}', '\u{0}', '\u{0}')),
        0x2FA00 => Some((1, '\u{9829}', '\u{0}', '\u{0}', '\u{0}')),
        0x2FA01 => Some((1, '\u{295b6}', '\u{0}', '\u{0}', '\u{0}')),
        0x2FA02 => Some((1, '\u{98e2}', '\u{0}', '\u{0}', '\u{0}')),
        0x2FA03 => Some((1, '\u{4b33}', '\u{0}', '\u{0}', '\u{0}')),
        0x2FA04 => Some((1, '\u{9929}', '\u{0}', '\u{0}', '\u{0}')),
        0x2FA05 => Some((1, '\u{99a7}', '\u{0}', '\u{0}', '\u{0}')),
        0x2FA06 => Some((1, '\u{99c2}', '\u{0}', '\u{0}', '\u{0}')),
        0x2FA07 => Some((1, '\u{99fe}', '\u{0}', '\u{0}', '\u{0}')),
        0x2FA08 => Some((1, '\u{4bce}', '\u{0}', '\u{0}', '\u{0}')),
        0x2FA09 => Some((1, '\u{29b30}', '\u{0}', '\u{0}', '\u{0}')),
        0x2FA0A => Some((1, '\u{9b12}', '\u{0}', '\u{0}', '\u{0}')),
        0x2FA0B => Some((1, '\u{9c40}', '\u{0}', '\u{0}', '\u{0}')),
        0x2FA0C => Some((1, '\u{9cfd}', '\u{0}', '\u{0}', '\u{0}')),
        0x2FA0D => Some((1, '\u{4cce}', '\u{0}', '\u{0}', '\u{0}')),
        0x2FA0E => Some((1, '\u{4ced}', '\u{0}', '\u{0}', '\u{0}')),
        0x2FA0F => Some((1, '\u{9d67}', '\u{0}', '\u{0}', '\u{0}')),
        0x2FA10 => Some((1, '\u{2a0ce}', '\u{0}', '\u{0}', '\u{0}')),
        0x2FA11 => Some((1, '\u{4cf8}', '\u{0}', '\u{0}', '\u{0}')),
        0x2FA12 => Some((1, '\u{2a105}', '\u{0}', '\u{0}', '\u{0}')),
        0x2FA13 => Some((1, '\u{2a20e}', '\u{0}', '\u{0}', '\u{0}')),
        0x2FA14 => Some((1, '\u{2a291}', '\u{0}', '\u{0}', '\u{0}')),
        0x2FA15 => Some((1, '\u{9ebb}', '\u{0}', '\u{0}', '\u{0}')),
        0x2FA16 => Some((1, '\u{4d56}', '\u{0}', '\u{0}', '\u{0}')),
        0x2FA17 => Some((1, '\u{9ef9}', '\u{0}', '\u{0}', '\u{0}')),
        0x2FA18 => Some((1, '\u{9efe}', '\u{0}', '\u{0}', '\u{0}')),
        0x2FA19 => Some((1, '\u{9f05}', '\u{0}', '\u{0}', '\u{0}')),
        0x2FA1A => Some((1, '\u{9f0f}', '\u{0}', '\u{0}', '\u{0}')),
        0x2FA1B => Some((1, '\u{9f16}', '\u{0}', '\u{0}', '\u{0}')),
        0x2FA1C => Some((1, '\u{9f3b}', '\u{0}', '\u{0}', '\u{0}')),
        0x2FA1D => Some((1, '\u{2a600}', '\u{0}', '\u{0}', '\u{0}')),
        _ => None,
    }
}

/// The canonical combining classes of the characters U+0000 to U+0FFF
/// (0 for those not listed).
pub open spec fn combining_class_0(u: u32) -> u8 {
    match u {
        0x300 => 230,
        0x301 => 230,
        0x302 => 230,
        0x303 => 230,
        0x304 => 230,
        0x305 => 230,
        0x306 => 230,
        0x307 => 230,
        0x308 => 230,
        0x309 => 230,
        0x30A => 230,
        0x30B => 230,
        0x30C => 230,
        0x30D => 230,
        0x30E => 230,
        0x30F => 230,
        0x310 => 230,
        0x311 => 230,
        0x312 => 230,
        0x313 => 230,
        0x314 => 230,
        0x315 => 232,
        0x316 => 220,
        0x317 => 220,
        0x318 => 220,
        0x319 => 220,
        0x31A => 232,
        0x31B => 216,
        0x31C => 220,
        0x31D => 220,
        0x31E => 220,
        0x31F => 220,
        0x320 => 220,
        0x321 => 202,
        0x322 => 202,
        0x323 => 220,
        0x324 => 220,
        0x325 => 220,
        0x326 => 220,
        0x327 => 202,
        0x328 => 202,
        0x329 => 220,
        0x32A => 220,
        0x32B => 220,
        0x32C => 220,
        0x32D => 220,
        0x32E => 220,
        0x32F => 220,
        0x330 => 220,
        0x331 => 220,
        0x332 => 220,
        0x333 => 220,
        0x334 => 1,
        0x335 => 1,
        0x336 => 1,
        0x337 => 1,
        0x338 => 1,
        0x339 => 220,
        0x33A => 220,
        0x33B => 220,
        0x33C => 220,
        0x33D => 230,
        0x33E => 230,
        0x33F => 230,
        0x340 => 230,
        0x341 => 230,
        0x342 => 230,
        0x343 => 230,
        0x344 => 230,
        0x345 => 240,
        0x346 => 230,
        0x347 => 220,
        0x348 => 220,
        0x349 => 220,
        0x34A => 230,
        0x34B => 230,
        0x34C => 230,
        0x34D => 220,
        0x34E => 220,
        0x350 => 230,
        0x351 => 230,
        0x352 => 230,
        0x353 => 220,
        0x354 => 220,
        0x355 => 220,
        0x356 => 220,
        0x357 => 230,
        0x358 => 232,
        0x359 => 220,
        0x35A => 220,
        0x35B => 230,
        0x35C => 233,
        0x35D => 234,
        0x35E => 234,
        0x35F => 233,
        0x360 => 234,
        0x361 => 234,
        0x362 => 233,
        0x363 => 230,
        0x364 => 230,
        0x365 => 230,
        0x366 => 230,
        0x367 => 230,
        0x368 => 230,
        0x369 => 230,
        0x36A => 230,
        0x36B => 230,
        0x36C => 230,
        0x36D => 230,
        0x36E => 230,
        0x36F => 230,
        0x483 => 230,
        0x484 => 230,
        0x485 => 230,
        0x486 => 230,
        0x487 => 230,
        0x591 => 220,
        0x592 => 230,
        0x593 => 230,
        0x594 => 230,
        0x595 => 230,
        0x596 => 220,
        0x597 => 230,
        0x598 => 230,
        0x599 => 230,
        0x59A => 222,
        0x59B => 220,
        0x59C => 230,
        0x59D => 230,
        0x59E => 230,
        0x59F => 230,
        0x5A0 => 230,
        0x5A1 => 230,
        0x5A2 => 220,
        0x5A3 => 220,
        0x5A4 => 220,
        0x5A5 => 220,
        0x5A6 => 220,
        0x5A7 => 220,
        0x5A8 => 230,
        0x5A9 => 230,
        0x5AA => 220,
        0x5AB => 230,
        0x5AC => 230,
        0x5AD => 222,
        0x5AE => 228,
        0x5AF => 230,
        0x5B0 => 10,
        0x5B1 => 11,
        0x5B2 => 12,
        0x5B3 => 13,
        0x5B4 => 14,
        0x5B5 => 15,
        0x5B6 => 16,
        0x5B7 => 17,
        0x5B8 => 18,
        0x5B9 => 19,
        0x5BA => 19,
        0x5BB => 20,
        0x5BC => 21,
        0x5BD => 22,
        0x5BF => 23,
        0x5C1 => 24,
        0x5C2 => 25,
        0x5C4 => 230,
        0x5C5 => 220,
        0x5C7 => 18,
        0x610 => 230,
        0x611 => 230,
        0x612 => 230,
        0x613 => 230,
        0x614 => 230,
        0x615 => 230,
        0x616 => 230,
        0x617 => 230,
        0x618 => 30,
        0x619 => 31,
        0x61A => 32,
        0x64B => 27,
        0x64C => 28,
        0x64D => 29,
        0x64E => 30,
        0x64F => 31,
        0x650 => 32,
        0x651 => 33,
        0x652 => 34,
        0x653 => 230,
        0x654 => 230,
        0x655 => 220,
        0x656 => 220,
        0x657 => 230,
        0x658 => 230,
        0x659 => 230,
        0x65A => 230,
        0x65B => 230,
        0x65C => 220,
        0x65D => 230,
        0x65E => 230,
        0x65F => 220,
        0x670 => 35,
        0x6D6 => 230,
        0x6D7 => 230,
        0x6D8 => 230,
        0x6D9 => 230,
        0x6DA => 230,
        0x6DB => 230,
        0x6DC => 230,
        0x6DF => 230,
        0x6E0 => 230,
        0x6E1 => 230,
        0x6E2 => 230,
        0x6E3 => 220,
        0x6E4 => 230,
        0x6E7 => 230,
        0x6E8 => 230,
        0x6EA => 220,
        0x6EB => 230,
        0x6EC => 230,
        0x6ED => 220,
        0x711 => 36,
        0x730 => 230,
        0x731 => 220,
        0x732 => 230,
        0x733 => 230,
        0x734 => 220,
        0x735 => 230,
        0x736 => 230,
        0x737 => 220,
        0x738 => 220,
        0x739 => 220,
        0x73A => 230,
        0x73B => 220,
        0x73C => 220,
        0x73D => 230,
        0x73E => 220,
        0x73F => 230,
        0x740 => 230,
        0x741 => 230,
        0x742 => 220,
        0x743 => 230,
        0x744 => 220,
        0x745 => 230,
        0x746 => 220,
        0x747 => 230,
        0x748 => 220,
        0x749 => 230,
        0x74A => 230,
        0x7EB => 230,
        0x7EC => 230,
        0x7ED => 230,
        0x7EE => 230,
        0x7EF => 230,
        0x7F0 => 230,
        0x7F1 => 230,
        0x7F2 => 220,
        0x7F3 => 230,
        0x7FD => 220,
        0x816 => 230,
        0x817 => 230,
        0x818 => 230,
        0x819 => 230,
        0x81B => 230,
        0x81C => 230,
        0x81D => 230,
        0x81E => 230,
        0x81F => 230,
        0x820 => 230,
        0x821 => 230,
        0x822 => 230,
        0x823 => 230,
        0x825 => 230,
        0x826 => 230,
        0x827 => 230,
        0x829 => 230,
        0x82A => 230,
        0x82B => 230,
        0x82C => 230,
        0x82D => 230,
        0x859 => 220,
        0x85A => 220,
        0x85B => 220,
        0x898 => 230,
        0x899 => 220,
        0x89A => 220,
        0x89B => 220,
        0x89C => 230,
        0x89D => 230,
        0x89E => 230,
        0x89F => 230,
        0x8CA => 230,
        0x8CB => 230,
        0x8CC => 230,
        0x8CD => 230,
        0x8CE => 230,
        0x8CF => 220,
        0x8D0 => 220,
        0x8D1 => 220,
        0x8D2 => 220,
        0x8D3 => 220,
        0x8D4 => 230,
        0x8D5 => 230,
        0x8D6 => 230,
        0x8D7 => 230,
        0x8D8 => 230,
        0x8D9 => 230,
        0x8DA => 230,
        0x8DB => 230,
        0x8DC => 230,
        0x8DD => 230,
        0x8DE => 230,
        0x8DF => 230,
        0x8E0 => 230,
        0x8E1 => 230,
        0x8E3 => 220,
        0x8E4 => 230,
        0x8E5 => 230,
        0x8E6 => 220,
        0x8E7 => 230,
        0x8E8 => 230,
        0x8E9 => 220,
        0x8EA => 230,
        0x8EB => 230,
        0x8EC => 230,
        0x8ED => 220,
        0x8EE => 220,
        0x8EF => 220,
        0x8F0 => 27,
        0x8F1 => 28,
        0x8F2 => 29,
        0x8F3 => 230,
        0x8F4 => 230,
        0x8F5 => 230,
        0x8F6 => 220,
        0x8F7 => 230,
        0x8F8 => 230,
        0x8F9 => 220,
        0x8FA => 220,
        0x8FB => 230,
        0x8FC => 230,
        0x8FD => 230,
        0x8FE => 230,
        0x8FF => 230,
        0x93C => 7,
        0x94D => 9,
        0x951 => 230,
        0x952 => 220,
        0x953 => 230,
        0x954 => 230,
        0x9BC => 7,
        0x9CD => 9,
        0x9FE => 230,
        0xA3C => 7,
        0xA4D => 9,
        0xABC => 7,
        0xACD => 9,
        0xB3C => 7,
        0xB4D => 9,
        0xBCD => 9,
        0xC3C => 7,
        0xC4D => 9,
        0xC55 => 84,
        0xC56 => 91,
        0xCBC => 7,
        0xCCD => 9,
        0xD3B => 9,
        0xD3C => 9,
        0xD4D => 9,
        0xDCA => 9,
        0xE38 => 103,
        0xE39 => 103,
        0xE3A => 9,
        0xE48 => 107,
        0xE49 => 107,
        0xE4A => 107,
        0xE4B => 107,
        0xEB8 => 118,
        0xEB9 => 118,
        0xEBA => 9,
        0xEC8 => 122,
        0xEC9 => 122,
        0xECA => 122,
        0xECB => 122,
        0xF18 => 220,
        0xF19 => 220,
        0xF35 => 220,
        0xF37 => 220,
        0xF39 => 216,
        0xF71 => 129,
        0xF72 => 130,
        0xF74 => 132,
        0xF7A => 130,
        0xF7B => 130,
        0xF7C => 130,
        0xF7D => 130,
        0xF80 => 130,
        0xF82 => 230,
        0xF83 => 230,
        0xF84 => 9,
        0xF86 => 230,
        0xF87 => 230,
        0xFC6 => 220,
        _ => 0,
    }
}

fn combining_class_0_of(u: u32) -> (r: u8)
    ensures
        r == combining_class_0(u),
{
    match u {
        0x300 => 230,
        0x301 => 230,
        0x302 => 230,
        0x303 => 230,
        0x304 => 230,
        0x305 => 230,
        0x306 => 230,
        0x307 => 230,
        0x308 => 230,
        0x309 => 230,
        0x30A => 230,
        0x30B => 230,
        0x30C => 230,
        0x30D => 230,
        0x30E => 230,
        0x30F => 230,
        0x310 => 230,
        0x311 => 230,
        0x312 => 230,
        0x313 => 230,
        0x314 => 230,
        0x315 => 232,
        0x316 => 220,
        0x317 => 220,
        0x318 => 220,
        0x319 => 220,
        0x31A => 232,
        0x31B => 216,
        0x31C => 220,
        0x31D => 220,
        0x31E => 220,
        0x31F => 220,
        0x320 => 220,
        0x321 => 202,
        0x322 => 202,
        0x323 => 220,
        0x324 => 220,
        0x325 => 220,
        0x326 => 220,
        0x327 => 202,
        0x328 => 202,
        0x329 => 220,
        0x32A => 220,
        0x32B => 220,
        0x32C => 220,
        0x32D => 220,
        0x32E => 220,
        0x32F => 220,
        0x330 => 220,
        0x331 => 220,
        0x332 => 220,
        0x333 => 220,
        0x334 => 1,
        0x335 => 1,
        0x336 => 1,
        0x337 => 1,
        0x338 => 1,
        0x339 => 220,
        0x33A => 220,
        0x33B => 220,
        0x33C => 220,
        0x33D => 230,
        0x33E => 230,
        0x33F => 230,
        0x340 => 230,
        0x341 => 230,
        0x342 => 230,
        0x343 => 230,
        0x344 => 230,
        0x345 => 240,
        0x346 => 230,
        0x347 => 220,
        0x348 => 220,
        0x349 => 220,
        0x34A => 230,
        0x34B => 230,
        0x34C => 230,
        0x34D => 220,
        0x34E => 220,
        0x350 => 230,
        0x351 => 230,
        0x352 => 230,
        0x353 => 220,
        0x354 => 220,
        0x355 => 220,
        0x356 => 220,
        0x357 => 230,
        0x358 => 232,
        0x359 => 220,
        0x35A => 220,
        0x35B => 230,
        0x35C => 233,
        0x35D => 234,
        0x35E => 234,
        0x35F => 233,
        0x360 => 234,
        0x361 => 234,
        0x362 => 233,
        0x363 => 230,
        0x364 => 230,
        0x365 => 230,
        0x366 => 230,
        0x367 => 230,
        0x368 => 230,
        0x369 => 230,
        0x36A => 230,
        0x36B => 230,
        0x36C => 230,
        0x36D => 230,
        0x36E => 230,
        0x36F => 230,
        0x483 => 230,
        0x484 => 230,
        0x485 => 230,
        0x486 => 230,
        0x487 => 230,
        0x591 => 220,
        0x592 => 230,
        0x593 => 230,
        0x594 => 230,
        0x595 => 230,
        0x596 => 220,
        0x597 => 230,
        0x598 => 230,
        0x599 => 230,
        0x59A => 222,
        0x59B => 220,
        0x59C => 230,
        0x59D => 230,
        0x59E => 230,
        0x59F => 230,
        0x5A0 => 230,
        0x5A1 => 230,
        0x5A2 => 220,
        0x5A3 => 220,
        0x5A4 => 220,
        0x5A5 => 220,
        0x5A6 => 220,
        0x5A7 => 220,
        0x5A8 => 230,
        0x5A9 => 230,
        0x5AA => 220,
        0x5AB => 230,
        0x5AC => 230,
        0x5AD => 222,
        0x5AE => 228,
        0x5AF => 230,
        0x5B0 => 10,
        0x5B1 => 11,
        0x5B2 => 12,
        0x5B3 => 13,
        0x5B4 => 14,
        0x5B5 => 15,
        0x5B6 => 16,
        0x5B7 => 17,
        0x5B8 => 18,
        0x5B9 => 19,
        0x5BA => 19,
        0x5BB => 20,
        0x5BC => 21,
        0x5BD => 22,
        0x5BF => 23,
        0x5C1 => 24,
        0x5C2 => 25,
        0x5C4 => 230,
        0x5C5 => 220,
        0x5C7 => 18,
        0x610 => 230,
        0x611 => 230,
        0x612 => 230,
        0x613 => 230,
        0x614 => 230,
        0x615 => 230,
        0x616 => 230,
        0x617 => 230,
        0x618 => 30,
        0x619 => 31,
        0x61A => 32,
        0x64B => 27,
        0x64C => 28,
        0x64D => 29,
        0x64E => 30,
        0x64F => 31,
        0x650 => 32,
        0x651 => 33,
        0x652 => 34,
        0x653 => 230,
        0x654 => 230,
        0x655 => 220,
        0x656 => 220,
        0x657 => 230,
        0x658 => 230,
        0x659 => 230,
        0x65A => 230,
        0x65B => 230,
        0x65C => 220,
        0x65D => 230,
        0x65E => 230,
        0x65F => 220,
        0x670 => 35,
        0x6D6 => 230,
        0x6D7 => 230,
        0x6D8 => 230,
        0x6D9 => 230,
        0x6DA => 230,
        0x6DB => 230,
        0x6DC => 230,
        0x6DF => 230,
        0x6E0 => 230,
        0x6E1 => 230,
        0x6E2 => 230,
        0x6E3 => 220,
        0x6E4 => 230,
        0x6E7 => 230,
        0x6E8 => 230,
        0x6EA => 220,
        0x6EB => 230,
        0x6EC => 230,
        0x6ED => 220,
        0x711 => 36,
        0x730 => 230,
        0x731 => 220,
        0x732 => 230,
        0x733 => 230,
        0x734 => 220,
        0x735 => 230,
        0x736 => 230,
        0x737 => 220,
        0x738 => 220,
        0x739 => 220,
        0x73A => 230,
        0x73B => 220,
        0x73C => 220,
        0x73D => 230,
        0x73E => 220,
        0x73F => 230,
        0x740 => 230,
        0x741 => 230,
        0x742 => 220,
        0x743 => 230,
        0x744 => 220,
        0x745 => 230,
        0x746 => 220,
        0x747 => 230,
        0x748 => 220,
        0x749 => 230,
        0x74A => 230,
        0x7EB => 230,
        0x7EC => 230,
        0x7ED => 230,
        0x7EE => 230,
        0x7EF => 230,
        0x7F0 => 230,
        0x7F1 => 230,
        0x7F2 => 220,
        0x7F3 => 230,
        0x7FD => 220,
        0x816 => 230,
        0x817 => 230,
        0x818 => 230,
        0x819 => 230,
        0x81B => 230,
        0x81C => 230,
        0x81D => 230,
        0x81E => 230,
        0x81F => 230,
        0x820 => 230,
        0x821 => 230,
        0x822 => 230,
        0x823 => 230,
        0x825 => 230,
        0x826 => 230,
        0x827 => 230,
        0x829 => 230,
        0x82A => 230,
        0x82B => 230,
        0x82C => 230,
        0x82D => 230,
        0x859 => 220,
        0x85A => 220,
        0x85B => 220,
        0x898 => 230,
        0x899 => 220,
        0x89A => 220,
        0x89B => 220,
        0x89C => 230,
        0x89D => 230,
        0x89E => 230,
        0x89F => 230,
        0x8CA => 230,
        0x8CB => 230,
        0x8CC => 230,
        0x8CD => 230,
        0x8CE => 230,
        0x8CF => 220,
        0x8D0 => 220,
        0x8D1 => 220,
        0x8D2 => 220,
        0x8D3 => 220,
        0x8D4 => 230,
        0x8D5 => 230,
        0x8D6 => 230,
        0x8D7 => 230,
        0x8D8 => 230,
        0x8D9 => 230,
        0x8DA => 230,
        0x8DB => 230,
        0x8DC => 230,
        0x8DD => 230,
        0x8DE => 230,
        0x8DF => 230,
        0x8E0 => 230,
        0x8E1 => 230,
        0x8E3 => 220,
        0x8E4 => 230,
        0x8E5 => 230,
        0x8E6 => 220,
        0x8E7 => 230,
        0x8E8 => 230,
        0x8E9 => 220,
        0x8EA => 230,
        0x8EB => 230,
        0x8EC => 230,
        0x8ED => 220,
        0x8EE => 220,
        0x8EF => 220,
        0x8F0 => 27,
        0x8F1 => 28,
        0x8F2 => 29,
        0x8F3 => 230,
        0x8F4 => 230,
        0x8F5 => 230,
        0x8F6 => 220,
        0x8F7 => 230,
        0x8F8 => 230,
        0x8F9 => 220,
        0x8FA => 220,
        0x8FB => 230,
        0x8FC => 230,
        0x8FD => 230,
        0x8FE => 230,
        0x8FF => 230,
        0x93C => 7,
        0x94D => 9,
        0x951 => 230,
        0x952 => 220,
        0x953 => 230,
        0x954 => 230,
        0x9BC => 7,
        0x9CD => 9,
        0x9FE => 230,
        0xA3C => 7,
        0xA4D => 9,
        0xABC => 7,
        0xACD => 9,
        0xB3C => 7,
        0xB4D => 9,
        0xBCD => 9,
        0xC3C => 7,
        0xC4D => 9,
        0xC55 => 84,
        0xC56 => 91,
        0xCBC => 7,
        0xCCD => 9,
        0xD3B => 9,
        0xD3C => 9,
        0xD4D => 9,
        0xDCA => 9,
        0xE38 => 103,
        0xE39 => 103,
        0xE3A => 9,
        0xE48 => 107,
        0xE49 => 107,
        0xE4A => 107,
        0xE4B => 107,
        0xEB8 => 118,
        0xEB9 => 118,
        0xEBA => 9,
        0xEC8 => 122,
        0xEC9 => 122,
        0xECA => 122,
        0xECB => 122,
        0xF18 => 220,
        0xF19 => 220,
        0xF35 => 220,
        0xF37 => 220,
        0xF39 => 216,
        0xF71 => 129,
        0xF72 => 130,
        0xF74 => 132,
        0xF7A => 130,
        0xF7B => 130,
        0xF7C => 130,
        0xF7D => 130,
        0xF80 => 130,
        0xF82 => 230,
        0xF83 => 230,
        0xF84 => 9,
        0xF86 => 230,
        0xF87 => 230,
        0xFC6 => 220,
        _ => 0,
    }
}

/// The canonical combining classes of the characters U+1000 to U+1FFF
/// (0 for those not listed).
pub open spec fn combining_class_1(u: u32) -> u8 {
    match u {
        0x1037 => 7,
        0x1039 => 9,
        0x103A => 9,
        0x108D => 220,
        0x135D => 230,
        0x135E => 230,
        0x135F => 230,
        0x1714 => 9,
        0x1715 => 9,
        0x1734 => 9,
        0x17D2 => 9,
        0x17DD => 230,
        0x18A9 => 228,
        0x1939 => 222,
        0x193A => 230,
        0x193B => 220,
        0x1A17 => 230,
        0x1A18 => 220,
        0x1A60 => 9,
        0x1A75 => 230,
        0x1A76 => 230,
        0x1A77 => 230,
        0x1A78 => 230,
        0x1A79 => 230,
        0x1A7A => 230,
        0x1A7B => 230,
        0x1A7C => 230,
        0x1A7F => 220,
        0x1AB0 => 230,
        0x1AB1 => 230,
        0x1AB2 => 230,
        0x1AB3 => 230,
        0x1AB4 => 230,
        0x1AB5 => 220,
        0x1AB6 => 220,
        0x1AB7 => 220,
        0x1AB8 => 220,
        0x1AB9 => 220,
        0x1ABA => 220,
        0x1ABB => 230,
        0x1ABC => 230,
        0x1ABD => 220,
        0x1ABF => 220,
        0x1AC0 => 220,
        0x1AC1 => 230,
        0x1AC2 => 230,
        0x1AC3 => 220,
        0x1AC4 => 220,
        0x1AC5 => 230,
        0x1AC6 => 230,
        0x1AC7 => 230,
        0x1AC8 => 230,
        0x1AC9 => 230,
        0x1ACA => 220,
        0x1ACB => 230,
        0x1ACC => 230,
        0x1ACD => 230,
        0x1ACE => 230,
        0x1B34 => 7,
        0x1B44 => 9,
        0x1B6B => 230,
        0x1B6C => 220,
        0x1B6D => 230,
        0x1B6E => 230,
        0x1B6F => 230,
        0x1B70 => 230,
        0x1B71 => 230,
        0x1B72 => 230,
        0x1B73 => 230,
        0x1BAA => 9,
        0x1BAB => 9,
        0x1BE6 => 7,
        0x1BF2 => 9,
        0x1BF3 => 9,
        0x1C37 => 7,
        0x1CD0 => 230,
        0x1CD1 => 230,
        0x1CD2 => 230,
        0x1CD4 => 1,
        0x1CD5 => 220,
        0x1CD6 => 220,
        0x1CD7 => 220,
        0x1CD8 => 220,
        0x1CD9 => 220,
        0x1CDA => 230,
        0x1CDB => 230,
        0x1CDC => 220,
        0x1CDD => 220,
        0x1CDE => 220,
        0x1CDF => 220,
        0x1CE0 => 230,
        0x1CE2 => 1,
        0x1CE3 => 1,
        0x1CE4 => 1,
        0x1CE5 => 1,
        0x1CE6 => 1,
        0x1CE7 => 1,
        0x1CE8 => 1,
        0x1CED => 220,
        0x1CF4 => 230,
        0x1CF8 => 230,
        0x1CF9 => 230,
        0x1DC0 => 230,
        0x1DC1 => 230,
        0x1DC2 => 220,
        0x1DC3 => 230,
        0x1DC4 => 230,
        0x1DC5 => 230,
        0x1DC6 => 230,
        0x1DC7 => 230,
        0x1DC8 => 230,
        0x1DC9 => 230,
        0x1DCA => 220,
        0x1DCB => 230,
        0x1DCC => 230,
        0x1DCD => 234,
        0x1DCE => 214,
        0x1DCF => 220,
        0x1DD0 => 202,
        0x1DD1 => 230,
        0x1DD2 => 230,
        0x1DD3 => 230,
        0x1DD4 => 230,
        0x1DD5 => 230,
        0x1DD6 => 230,
        0x1DD7 => 230,
        0x1DD8 => 230,
        0x1DD9 => 230,
        0x1DDA => 230,
        0x1DDB => 230,
        0x1DDC => 230,
        0x1DDD => 230,
        0x1DDE => 230,
        0x1DDF => 230,
        0x1DE0 => 230,
        0x1DE1 => 230,
        0x1DE2 => 230,
        0x1DE3 => 230,
        0x1DE4 => 230,
        0x1DE5 => 230,
        0x1DE6 => 230,
        0x1DE7 => 230,
        0x1DE8 => 230,
        0x1DE9 => 230,
        0x1DEA => 230,
        0x1DEB => 230,
        0x1DEC => 230,
        0x1DED => 230,
        0x1DEE => 230,
        0x1DEF => 230,
        0x1DF0 => 230,
        0x1DF1 => 230,
        0x1DF2 => 230,
        0x1DF3 => 230,
        0x1DF4 => 230,
        0x1DF5 => 230,
        0x1DF6 => 232,
        0x1DF7 => 228,
        0x1DF8 => 228,
        0x1DF9 => 220,
        0x1DFA => 218,
        0x1DFB => 230,
        0x1DFC => 233,
        0x1DFD => 220,
        0x1DFE => 230,
        0x1DFF => 220,
        _ => 0,
    }
}

fn combining_class_1_of(u: u32) -> (r: u8)
    ensures
        r == combining_class_1(u),
{
    match u {
        0x1037 => 7,
        0x1039 => 9,
        0x103A => 9,
        0x108D => 220,
        0x135D => 230,
        0x135E => 230,
        0x135F => 230,
        0x1714 => 9,
        0x1715 => 9,
        0x1734 => 9,
        0x17D2 => 9,
        0x17DD => 230,
        0x18A9 => 228,
        0x1939 => 222,
        0x193A => 230,
        0x193B => 220,
        0x1A17 => 230,
        0x1A18 => 220,
        0x1A60 => 9,
        0x1A75 => 230,
        0x1A76 => 230,
        0x1A77 => 230,
        0x1A78 => 230,
        0x1A79 => 230,
        0x1A7A => 230,
        0x1A7B => 230,
        0x1A7C => 230,
        0x1A7F => 220,
        0x1AB0 => 230,
        0x1AB1 => 230,
        0x1AB2 => 230,
        0x1AB3 => 230,
        0x1AB4 => 230,
        0x1AB5 => 220,
        0x1AB6 => 220,
        0x1AB7 => 220,
        0x1AB8 => 220,
        0x1AB9 => 220,
        0x1ABA => 220,
        0x1ABB => 230,
        0x1ABC => 230,
        0x1ABD => 220,
        0x1ABF => 220,
        0x1AC0 => 220,
        0x1AC1 => 230,
        0x1AC2 => 230,
        0x1AC3 => 220,
        0x1AC4 => 220,
        0x1AC5 => 230,
        0x1AC6 => 230,
        0x1AC7 => 230,
        0x1AC8 => 230,
        0x1AC9 => 230,
        0x1ACA => 220,
        0x1ACB => 230,
        0x1ACC => 230,
        0x1ACD => 230,
        0x1ACE => 230,
        0x1B34 => 7,
        0x1B44 => 9,
        0x1B6B => 230,
        0x1B6C => 220,
        0x1B6D => 230,
        0x1B6E => 230,
        0x1B6F => 230,
        0x1B70 => 230,
        0x1B71 => 230,
        0x1B72 => 230,
        0x1B73 => 230,
        0x1BAA => 9,
        0x1BAB => 9,
        0x1BE6 => 7,
        0x1BF2 => 9,
        0x1BF3 => 9,
        0x1C37 => 7,
        0x1CD0 => 230,
        0x1CD1 => 230,
        0x1CD2 => 230,
        0x1CD4 => 1,
        0x1CD5 => 220,
        0x1CD6 => 220,
        0x1CD7 => 220,
        0x1CD8 => 220,
        0x1CD9 => 220,
        0x1CDA => 230,
        0x1CDB => 230,
        0x1CDC => 220,
        0x1CDD => 220,
        0x1CDE => 220,
        0x1CDF => 220,
        0x1CE0 => 230,
        0x1CE2 => 1,
        0x1CE3 => 1,
        0x1CE4 => 1,
        0x1CE5 => 1,
        0x1CE6 => 1,
        0x1CE7 => 1,
        0x1CE8 => 1,
        0x1CED => 220,
        0x1CF4 => 230,
        0x1CF8 => 230,
        0x1CF9 => 230,
        0x1DC0 => 230,
        0x1DC1 => 230,
        0x1DC2 => 220,
        0x1DC3 => 230,
        0x1DC4 => 230,
        0x1DC5 => 230,
        0x1DC6 => 230,
        0x1DC7 => 230,
        0x1DC8 => 230,
        0x1DC9 => 230,
        0x1DCA => 220,
        0x1DCB => 230,
        0x1DCC => 230,
        0x1DCD => 234,
        0x1DCE => 214,
        0x1DCF => 220,
        0x1DD0 => 202,
        0x1DD1 => 230,
        0x1DD2 => 230,
        0x1DD3 => 230,
        0x1DD4 => 230,
        0x1DD5 => 230,
        0x1DD6 => 230,
        0x1DD7 => 230,
        0x1DD8 => 230,
        0x1DD9 => 230,
        0x1DDA => 230,
        0x1DDB => 230,
        0x1DDC => 230,
        0x1DDD => 230,
        0x1DDE => 230,
        0x1DDF => 230,
        0x1DE0 => 230,
        0x1DE1 => 230,
        0x1DE2 => 230,
        0x1DE3 => 230,
        0x1DE4 => 230,
        0x1DE5 => 230,
        0x1DE6 => 230,
        0x1DE7 => 230,
        0x1DE8 => 230,
        0x1DE9 => 230,
        0x1DEA => 230,
        0x1DEB => 230,
        0x1DEC => 230,
        0x1DED => 230,
        0x1DEE => 230,
        0x1DEF => 230,
        0x1DF0 => 230,
        0x1DF1 => 230,
        0x1DF2 => 230,
        0x1DF3 => 230,
        0x1DF4 => 230,
        0x1DF5 => 230,
        0x1DF6 => 232,
        0x1DF7 => 228,
        0x1DF8 => 228,
        0x1DF9 => 220,
        0x1DFA => 218,
        0x1DFB => 230,
        0x1DFC => 233,
        0x1DFD => 220,
        0x1DFE => 230,
        0x1DFF => 220,
        _ => 0,
    }
}

/// The canonical combining classes of the characters U+2000 to U+2FFF
/// (0 for those not listed).
pub open spec fn combining_class_2(u: u32) -> u8 {
    match u {
        0x20D0 => 230,
        0x20D1 => 230,
        0x20D2 => 1,
        0x20D3 => 1,
        0x20D4 => 230,
        0x20D5 => 230,
        0x20D6 => 230,
        0x20D7 => 230,
        0x20D8 => 1,
        0x20D9 => 1,
        0x20DA => 1,
        0x20DB => 230,
        0x20DC => 230,
        0x20E1 => 230,
        0x20E5 => 1,
        0x20E6 => 1,
        0x20E7 => 230,
        0x20E8 => 220,
        0x20E9 => 230,
        0x20EA => 1,
        0x20EB => 1,
        0x20EC => 220,
        0x20ED => 220,
        0x20EE => 220,
        0x20EF => 220,
        0x20F0 => 230,
        0x2CEF => 230,
        0x2CF0 => 230,
        0x2CF1 => 230,
        0x2D7F => 9,
        0x2DE0 => 230,
        0x2DE1 => 230,
        0x2DE2 => 230,
        0x2DE3 => 230,
        0x2DE4 => 230,
        0x2DE5 => 230,
        0x2DE6 => 230,
        0x2DE7 => 230,
        0x2DE8 => 230,
        0x2DE9 => 230,
        0x2DEA => 230,
        0x2DEB => 230,
        0x2DEC => 230,
        0x2DED => 230,
        0x2DEE => 230,
        0x2DEF => 230,
        0x2DF0 => 230,
        0x2DF1 => 230,
        0x2DF2 => 230,
        0x2DF3 => 230,
        0x2DF4 => 230,
        0x2DF5 => 230,
        0x2DF6 => 230,
        0x2DF7 => 230,
        0x2DF8 => 230,
        0x2DF9 => 230,
        0x2DFA => 230,
        0x2DFB => 230,
        0x2DFC => 230,
        0x2DFD => 230,
        0x2DFE => 230,
        0x2DFF => 230,
        _ => 0,
    }
}

fn combining_class_2_of(u: u32) -> (r: u8)
    ensures
        r == combining_class_2(u),
{
    match u {
        0x20D0 => 230,
        0x20D1 => 230,
        0x20D2 => 1,
        0x20D3 => 1,
        0x20D4 => 230,
        0x20D5 => 230,
        0x20D6 => 230,
        0x20D7 => 230,
        0x20D8 => 1,
        0x20D9 => 1,
        0x20DA => 1,
        0x20DB => 230,
        0x20DC => 230,
        0x20E1 => 230,
        0x20E5 => 1,
        0x20E6 => 1,
        0x20E7 => 230,
        0x20E8 => 220,
        0x20E9 => 230,
        0x20EA => 1,
        0x20EB => 1,
        0x20EC => 220,
        0x20ED => 220,
        0x20EE => 220,
        0x20EF => 220,
        0x20F0 => 230,
        0x2CEF => 230,
        0x2CF0 => 230,
        0x2CF1 => 230,
        0x2D7F => 9,
        0x2DE0 => 230,
        0x2DE1 => 230,
        0x2DE2 => 230,
        0x2DE3 => 230,
        0x2DE4 => 230,
        0x2DE5 => 230,
        0x2DE6 => 230,
        0x2DE7 => 230,
        0x2DE8 => 230,
        0x2DE9 => 230,
        0x2DEA => 230,
        0x2DEB => 230,
        0x2DEC => 230,
        0x2DED => 230,
        0x2DEE => 230,
        0x2DEF => 230,
        0x2DF0 => 230,
        0x2DF1 => 230,
        0x2DF2 => 230,
        0x2DF3 => 230,
        0x2DF4 => 230,
        0x2DF5 => 230,
        0x2DF6 => 230,
        0x2DF7 => 230,
        0x2DF8 => 230,
        0x2DF9 => 230,
        0x2DFA => 230,
        0x2DFB => 230,
        0x2DFC => 230,
        0x2DFD => 230,
        0x2DFE => 230,
        0x2DFF => 230,
        _ => 0,
    }
}

/// The canonical combining classes of the characters U+3000 to U+3FFF
/// (0 for those not listed).
pub open spec fn combining_class_3(u: u32) -> u8 {
    match u {
        0x302A => 218,
        0x302B => 228,
        0x302C => 232,
        0x302D => 222,
        0x302E => 224,
        0x302F => 224,
        0x3099 => 8,
        0x309A => 8,
        _ => 0,
    }
}

fn combining_class_3_of(u: u32) -> (r: u8)
    ensures
        r == combining_class_3(u),
{
    match u {
        0x302A => 218,
        0x302B => 228,
        0x302C => 232,
        0x302D => 222,
        0x302E => 224,
        0x302F => 224,
        0x3099 => 8,
        0x309A => 8,
        _ => 0,
    }
}

/// The canonical combining classes of the characters U+A000 to U+AFFF
/// (0 for those not listed).
pub open spec fn combining_class_a(u: u32) -> u8 {
    match u {
        0xA66F => 230,
        0xA674 => 230,
        0xA675 => 230,
        0xA676 => 230,
        0xA677 => 230,
        0xA678 => 230,
        0xA679 => 230,
        0xA67A => 230,
        0xA67B => 230,
        0xA67C => 230,
        0xA67D => 230,
        0xA69E => 230,
        0xA69F => 230,
        0xA6F0 => 230,
        0xA6F1 => 230,
        0xA806 => 9,
        0xA82C => 9,
        0xA8C4 => 9,
        0xA8E0 => 230,
        0xA8E1 => 230,
        0xA8E2 => 230,
        0xA8E3 => 230,
        0xA8E4 => 230,
        0xA8E5 => 230,
        0xA8E6 => 230,
        0xA8E7 => 230,
        0xA8E8 => 230,
        0xA8E9 => 230,
        0xA8EA => 230,
        0xA8EB => 230,
        0xA8EC => 230,
        0xA8ED => 230,
        0xA8EE => 230,
        0xA8EF => 230,
        0xA8F0 => 230,
        0xA8F1 => 230,
        0xA92B => 220,
        0xA92C => 220,
        0xA92D => 220,
        0xA953 => 9,
        0xA9B3 => 7,
        0xA9C0 => 9,
        0xAAB0 => 230,
        0xAAB2 => 230,
        0xAAB3 => 230,
        0xAAB4 => 220,
        0xAAB7 => 230,
        0xAAB8 => 230,
        0xAABE => 230,
        0xAABF => 230,
        0xAAC1 => 230,
        0xAAF6 => 9,
        0xABED => 9,
        _ => 0,
    }
}

fn combining_class_a_of(u: u32) -> (r: u8)
    ensures
        r == combining_class_a(u),
{
    match u {
        0xA66F => 230,
        0xA674 => 230,
        0xA675 => 230,
        0xA676 => 230,
        0xA677 => 230,
        0xA678 => 230,
        0xA679 => 230,
        0xA67A => 230,
        0xA67B => 230,
        0xA67C => 230,
        0xA67D => 230,
        0xA69E => 230,
        0xA69F => 230,
        0xA6F0 => 230,
        0xA6F1 => 230,
        0xA806 => 9,
        0xA82C => 9,
        0xA8C4 => 9,
        0xA8E0 => 230,
        0xA8E1 => 230,
        0xA8E2 => 230,
        0xA8E3 => 230,
        0xA8E4 => 230,
        0xA8E5 => 230,
        0xA8E6 => 230,
        0xA8E7 => 230,
        0xA8E8 => 230,
        0xA8E9 => 230,
        0xA8EA => 230,
        0xA8EB => 230,
        0xA8EC => 230,
        0xA8ED => 230,
        0xA8EE => 230,
        0xA8EF => 230,
        0xA8F0 => 230,
        0xA8F1 => 230,
        0xA92B => 220,
        0xA92C => 220,
        0xA92D => 220,
        0xA953 => 9,
        0xA9B3 => 7,
        0xA9C0 => 9,
        0xAAB0 => 230,
        0xAAB2 => 230,
        0xAAB3 => 230,
        0xAAB4 => 220,
        0xAAB7 => 230,
        0xAAB8 => 230,
        0xAABE => 230,
        0xAABF => 230,
        0xAAC1 => 230,
        0xAAF6 => 9,
        0xABED => 9,
        _ => 0,
    }
}

/// The canonical combining classes of the characters U+F000 to U+FFFF
/// (0 for those not listed).
pub open spec fn combining_class_f(u: u32) -> u8 {
    match u {
        0xFB1E => 26,
        0xFE20 => 230,
        0xFE21 => 230,
        0xFE22 => 230,
        0xFE23 => 230,
        0xFE24 => 230,
        0xFE25 => 230,
        0xFE26 => 230,
        0xFE27 => 220,
        0xFE28 => 220,
        0xFE29 => 220,
        0xFE2A => 220,
        0xFE2B => 220,
        0xFE2C => 220,
        0xFE2D => 220,
        0xFE2E => 230,
        0xFE2F => 230,
        _ => 0,
    }
}

fn combining_class_f_of(u: u32) -> (r: u8)
    ensures
        r == combining_class_f(u),
{
    match u {
        0xFB1E => 26,
        0xFE20 => 230,
        0xFE21 => 230,
        0xFE22 => 230,
        0xFE23 => 230,
        0xFE24 => 230,
        0xFE25 => 230,
        0xFE26 => 230,
        0xFE27 => 220,
        0xFE28 => 220,
        0xFE29 => 220,
        0xFE2A => 220,
        0xFE2B => 220,
        0xFE2C => 220,
        0xFE2D => 220,
        0xFE2E => 230,
        0xFE2F => 230,
        _ => 0,
    }
}

/// The canonical combining classes of the characters U+10000 to U+10FFF
/// (0 for those not listed).
pub open spec fn combining_class_10(u: u32) -> u8 {
    match u {
        0x101FD => 220,
        0x102E0 => 220,
        0x10376 => 230,
        0x10377 => 230,
        0x10378 => 230,
        0x10379 => 230,
        0x1037A => 230,
        0x10A0D => 220,
        0x10A0F => 230,
        0x10A38 => 230,
        0x10A39 => 1,
        0x10A3A => 220,
        0x10A3F => 9,
        0x10AE5 => 230,
        0x10AE6 => 220,
        0x10D24 => 230,
        0x10D25 => 230,
        0x10D26 => 230,
        0x10D27 => 230,
        0x10EAB => 230,
        0x10EAC => 230,
        0x10F46 => 220,
        0x10F47 => 220,
        0x10F48 => 230,
        0x10F49 => 230,
        0x10F4A => 230,
        0x10F4B => 220,
        0x10F4C => 230,
        0x10F4D => 220,
        0x10F4E => 220,
        0x10F4F => 220,
        0x10F50 => 220,
        0x10F82 => 230,
        0x10F83 => 220,
        0x10F84 => 230,
        0x10F85 => 220,
        _ => 0,
    }
}

fn combining_class_10_of(u: u32) -> (r: u8)
    ensures
        r == combining_class_10(u),
{
    match u {
        0x101FD => 220,
        0x102E0 => 220,
        0x10376 => 230,
        0x10377 => 230,
        0x10378 => 230,
        0x10379 => 230,
        0x1037A => 230,
        0x10A0D => 220,
        0x10A0F => 230,
        0x10A38 => 230,
        0x10A39 => 1,
        0x10A3A => 220,
        0x10A3F => 9,
        0x10AE5 => 230,
        0x10AE6 => 220,
        0x10D24 => 230,
        0x10D25 => 230,
        0x10D26 => 230,
        0x10D27 => 230,
        0x10EAB => 230,
        0x10EAC => 230,
        0x10F46 => 220,
        0x10F47 => 220,
        0x10F48 => 230,
        0x10F49 => 230,
        0x10F4A => 230,
        0x10F4B => 220,
        0x10F4C => 230,
        0x10F4D => 220,
        0x10F4E => 220,
        0x10F4F => 220,
        0x10F50 => 220,
        0x10F82 => 230,
        0x10F83 => 220,
        0x10F84 => 230,
        0x10F85 => 220,
        _ => 0,
    }
}

/// The canonical combining classes of the characters U+11000 to U+11FFF
/// (0 for those not listed).
pub open spec fn combining_class_11(u: u32) -> u8 {
    match u {
        0x11046 => 9,
        0x11070 => 9,
        0x1107F => 9,
        0x110B9 => 9,
        0x110BA => 7,
        0x11100 => 230,
        0x11101 => 230,
        0x11102 => 230,
        0x11133 => 9,
        0x11134 => 9,
        0x11173 => 7,
        0x111C0 => 9,
        0x111CA => 7,
        0x11235 => 9,
        0x11236 => 7,
        0x112E9 => 7,
        0x112EA => 9,
        0x1133B => 7,
        0x1133C => 7,
        0x1134D => 9,
        0x11366 => 230,
        0x11367 => 230,
        0x11368 => 230,
        0x11369 => 230,
        0x1136A => 230,
        0x1136B => 230,
        0x1136C => 230,
        0x11370 => 230,
        0x11371 => 230,
        0x11372 => 230,
        0x11373 => 230,
        0x11374 => 230,
        0x11442 => 9,
        0x11446 => 7,
        0x1145E => 230,
        0x114C2 => 9,
        0x114C3 => 7,
        0x115BF => 9,
        0x115C0 => 7,
        0x1163F => 9,
        0x116B6 => 9,
        0x116B7 => 7,
        0x1172B => 9,
        0x11839 => 9,
        0x1183A => 7,
        0x1193D => 9,
        0x1193E => 9,
        0x11943 => 7,
        0x119E0 => 9,
        0x11A34 => 9,
        0x11A47 => 9,
        0x11A99 => 9,
        0x11C3F => 9,
        0x11D42 => 7,
        0x11D44 => 9,
        0x11D45 => 9,
        0x11D97 => 9,
        _ => 0,
    }
}

fn combining_class_11_of(u: u32) -> (r: u8)
    ensures
        r == combining_class_11(u),
{
    match u {
        0x11046 => 9,
        0x11070 => 9,
        0x1107F => 9,
        0x110B9 => 9,
        0x110BA => 7,
        0x11100 => 230,
        0x11101 => 230,
        0x11102 => 230,
        0x11133 => 9,
        0x11134 => 9,
        0x11173 => 7,
        0x111C0 => 9,
        0x111CA => 7,
        0x11235 => 9,
        0x11236 => 7,
        0x112E9 => 7,
        0x112EA => 9,
        0x1133B => 7,
        0x1133C => 7,
        0x1134D => 9,
        0x11366 => 230,
        0x11367 => 230,
        0x11368 => 230,
        0x11369 => 230,
        0x1136A => 230,
        0x1136B => 230,
        0x1136C => 230,
        0x11370 => 230,
        0x11371 => 230,
        0x11372 => 230,
        0x11373 => 230,
        0x11374 => 230,
        0x11442 => 9,
        0x11446 => 7,
        0x1145E => 230,
        0x114C2 => 9,
        0x114C3 => 7,
        0x115BF => 9,
        0x115C0 => 7,
        0x1163F => 9,
        0x116B6 => 9,
        0x116B7 => 7,
        0x1172B => 9,
        0x11839 => 9,
        0x1183A => 7,
        0x1193D => 9,
        0x1193E => 9,
        0x11943 => 7,
        0x119E0 => 9,
        0x11A34 => 9,
        0x11A47 => 9,
        0x11A99 => 9,
        0x11C3F => 9,
        0x11D42 => 7,
        0x11D44 => 9,
        0x11D45 => 9,
        0x11D97 => 9,
        _ => 0,
    }
}

/// The canonical combining classes of the characters U+16000 to U+16FFF
/// (0 for those not listed).
pub open spec fn combining_class_16(u: u32) -> u8 {
    match u {
        0x16AF0 => 1,
        0x16AF1 => 1,
        0x16AF2 => 1,
        0x16AF3 => 1,
        0x16AF4 => 1,
        0x16B30 => 230,
        0x16B31 => 230,
        0x16B32 => 230,
        0x16B33 => 230,
        0x16B34 => 230,
        0x16B35 => 230,
        0x16B36 => 230,
        0x16FF0 => 6,
        0x16FF1 => 6,
        _ => 0,
    }
}

fn combining_class_16_of(u: u32) -> (r: u8)
    ensures
        r == combining_class_16(u),
{
    match u {
        0x16AF0 => 1,
        0x16AF1 => 1,
        0x16AF2 => 1,
        0x16AF3 => 1,
        0x16AF4 => 1,
        0x16B30 => 230,
        0x16B31 => 230,
        0x16B32 => 230,
        0x16B33 => 230,
        0x16B34 => 230,
        0x16B35 => 230,
        0x16B36 => 230,
        0x16FF0 => 6,
        0x16FF1 => 6,
        _ => 0,
    }
}

/// The canonical combining classes of the characters U+1B000 to U+1BFFF
/// (0 for those not listed).
pub open spec fn combining_class_1b(u: u32) -> u8 {
    match u {
        0x1BC9E => 1,
        _ => 0,
    }
}

fn combining_class_1b_of(u: u32) -> (r: u8)
    ensures
        r == combining_class_1b(u),
{
    match u {
        0x1BC9E => 1,
        _ => 0,
    }
}

/// The canonical combining classes of the characters U+1D000 to U+1DFFF
/// (0 for those not listed).
pub open spec fn combining_class_1d(u: u32) -> u8 {
    match u {
        0x1D165 => 216,
        0x1D166 => 216,
        0x1D167 => 1,
        0x1D168 => 1,
        0x1D169 => 1,
        0x1D16D => 226,
        0x1D16E => 216,
        0x1D16F => 216,
        0x1D170 => 216,
        0x1D171 => 216,
        0x1D172 => 216,
        0x1D17B => 220,
        0x1D17C => 220,
        0x1D17D => 220,
        0x1D17E => 220,
        0x1D17F => 220,
        0x1D180 => 220,
        0x1D181 => 220,
        0x1D182 => 220,
        0x1D185 => 230,
        0x1D186 => 230,
        0x1D187 => 230,
        0x1D188 => 230,
        0x1D189 => 230,
        0x1D18A => 220,
        0x1D18B => 220,
        0x1D1AA => 230,
        0x1D1AB => 230,
        0x1D1AC => 230,
        0x1D1AD => 230,
        0x1D242 => 230,
        0x1D243 => 230,
        0x1D244 => 230,
        _ => 0,
    }
}

fn combining_class_1d_of(u: u32) -> (r: u8)
    ensures
        r == combining_class_1d(u),
{
    match u {
        0x1D165 => 216,
        0x1D166 => 216,
        0x1D167 => 1,
        0x1D168 => 1,
        0x1D169 => 1,
        0x1D16D => 226,
        0x1D16E => 216,
        0x1D16F => 216,
        0x1D170 => 216,
        0x1D171 => 216,
        0x1D172 => 216,
        0x1D17B => 220,
        0x1D17C => 220,
        0x1D17D => 220,
        0x1D17E => 220,
        0x1D17F => 220,
        0x1D180 => 220,
        0x1D181 => 220,
        0x1D182 => 220,
        0x1D185 => 230,
        0x1D186 => 230,
        0x1D187 => 230,
        0x1D188 => 230,
        0x1D189 => 230,
        0x1D18A => 220,
        0x1D18B => 220,
        0x1D1AA => 230,
        0x1D1AB => 230,
        0x1D1AC => 230,
        0x1D1AD => 230,
        0x1D242 => 230,
        0x1D243 => 230,
        0x1D244 => 230,
        _ => 0,
    }
}

/// The canonical combining classes of the characters U+1E000 to U+1EFFF
/// (0 for those not listed).
pub open spec fn combining_class_1e(u: u32) -> u8 {
    match u {
        0x1E000 => 230,
        0x1E001 => 230,
        0x1E002 => 230,
        0x1E003 => 230,
        0x1E004 => 230,
        0x1E005 => 230,
        0x1E006 => 230,
        0x1E008 => 230,
        0x1E009 => 230,
        0x1E00A => 230,
        0x1E00B => 230,
        0x1E00C => 230,
        0x1E00D => 230,
        0x1E00E => 230,
        0x1E00F => 230,
        0x1E010 => 230,
        0x1E011 => 230,
        0x1E012 => 230,
        0x1E013 => 230,
        0x1E014 => 230,
        0x1E015 => 230,
        0x1E016 => 230,
        0x1E017 => 230,
        0x1E018 => 230,
        0x1E01B => 230,
        0x1E01C => 230,
        0x1E01D => 230,
        0x1E01E => 230,
        0x1E01F => 230,
        0x1E020 => 230,
        0x1E021 => 230,
        0x1E023 => 230,
        0x1E024 => 230,
        0x1E026 => 230,
        0x1E027 => 230,
        0x1E028 => 230,
        0x1E029 => 230,
        0x1E02A => 230,
        0x1E130 => 230,
        0x1E131 => 230,
        0x1E132 => 230,
        0x1E133 => 230,
        0x1E134 => 230,
        0x1E135 => 230,
        0x1E136 => 230,
        0x1E2AE => 230,
        0x1E2EC => 230,
        0x1E2ED => 230,
        0x1E2EE => 230,
        0x1E2EF => 230,
        0x1E8D0 => 220,
        0x1E8D1 => 220,
        0x1E8D2 => 220,
        0x1E8D3 => 220,
        0x1E8D4 => 220,
        0x1E8D5 => 220,
        0x1E8D6 => 220,
        0x1E944 => 230,
        0x1E945 => 230,
        0x1E946 => 230,
        0x1E947 => 230,
        0x1E948 => 230,
        0x1E949 => 230,
        0x1E94A => 7,
        _ => 0,
    }
}

fn combining_class_1e_of(u: u32) -> (r: u8)
    ensures
        r == combining_class_1e(u),
{
    match u {
        0x1E000 => 230,
        0x1E001 => 230,
        0x1E002 => 230,
        0x1E003 => 230,
        0x1E004 => 230,
        0x1E005 => 230,
        0x1E006 => 230,
        0x1E008 => 230,
        0x1E009 => 230,
        0x1E00A => 230,
        0x1E00B => 230,
        0x1E00C => 230,
        0x1E00D => 230,
        0x1E00E => 230,
        0x1E00F => 230,
        0x1E010 => 230,
        0x1E011 => 230,
        0x1E012 => 230,
        0x1E013 => 230,
        0x1E014 => 230,
        0x1E015 => 230,
        0x1E016 => 230,
        0x1E017 => 230,
        0x1E018 => 230,
        0x1E01B => 230,
        0x1E01C => 230,
        0x1E01D => 230,
        0x1E01E => 230,
        0x1E01F => 230,
        0x1E020 => 230,
        0x1E021 => 230,
        0x1E023 => 230,
        0x1E024 => 230,
        0x1E026 => 230,
        0x1E027 => 230,
        0x1E028 => 230,
        0x1E029 => 230,
        0x1E02A => 230,
        0x1E130 => 230,
        0x1E131 => 230,
        0x1E132 => 230,
        0x1E133 => 230,
        0x1E134 => 230,
        0x1E135 => 230,
        0x1E136 => 230,
        0x1E2AE => 230,
        0x1E2EC => 230,
        0x1E2ED => 230,
        0x1E2EE => 230,
        0x1E2EF => 230,
        0x1E8D0 => 220,
        0x1E8D1 => 220,
        0x1E8D2 => 220,
        0x1E8D3 => 220,
        0x1E8D4 => 220,
        0x1E8D5 => 220,
        0x1E8D6 => 220,
        0x1E944 => 230,
        0x1E945 => 230,
        0x1E946 => 230,
        0x1E947 => 230,
        0x1E948 => 230,
        0x1E949 => 230,
        0x1E94A => 7,
        _ => 0,
    }
}

pub open spec fn decomposition_table(u: u32) -> Option<(u8, char, char, char, char)> {
    if 0x0 <= u && u < 0x1000 {
        decomposition_0(u)
    }     else if 0x1000 <= u && u < 0x2000 {
        decomposition_1(u)
    }     else if 0x2000 <= u && u < 0x3000 {
        decomposition_2(u)
    }     else if 0x3000 <= u && u < 0x4000 {
        decomposition_3(u)
    }     else if 0xF000 <= u && u < 0x10000 {
        decomposition_f(u)
    }     else if 0x11000 <= u && u < 0x12000 {
        decomposition_11(u)
    }     else if 0x1D000 <= u && u < 0x1E000 {
        decomposition_1d(u)
    }     else if 0x2F000 <= u && u < 0x30000 {
        decomposition_2f(u)
    } else {
        None
    }
}

fn decomposition_table_of(u: u32) -> (r: Option<(u8, char, char, char, char)>)
    ensures
        r == decomposition_table(u),
{
    if 0x0 <= u && u < 0x1000 {
        decomposition_0_of(u)
    }     else if 0x1000 <= u && u < 0x2000 {
        decomposition_1_of(u)
    }     else if 0x2000 <= u && u < 0x3000 {
        decomposition_2_of(u)
    }     else if 0x3000 <= u && u < 0x4000 {
        decomposition_3_of(u)
    }     else if 0xF000 <= u && u < 0x10000 {
        decomposition_f_of(u)
    }     else if 0x11000 <= u && u < 0x12000 {
        decomposition_11_of(u)
    }     else if 0x1D000 <= u && u < 0x1E000 {
        decomposition_1d_of(u)
    }     else if 0x2F000 <= u && u < 0x30000 {
        decomposition_2f_of(u)
    } else {
        None
    }
}

pub open spec fn combining_class_table(u: u32) -> u8 {
    if 0x0 <= u && u < 0x1000 {
        combining_class_0(u)
    }     else if 0x1000 <= u && u < 0x2000 {
        combining_class_1(u)
    }     else if 0x2000 <= u && u < 0x3000 {
        combining_class_2(u)
    }     else if 0x3000 <= u && u < 0x4000 {
        combining_class_3(u)
    }     else if 0xA000 <= u && u < 0xB000 {
        combining_class_a(u)
    }     else if 0xF000 <= u && u < 0x10000 {
        combining_class_f(u)
    }     else if 0x10000 <= u && u < 0x11000 {
        combining_class_10(u)
    }     else if 0x11000 <= u && u < 0x12000 {
        combining_class_11(u)
    }     else if 0x16000 <= u && u < 0x17000 {
        combining_class_16(u)
    }     else if 0x1B000 <= u && u < 0x1C000 {
        combining_class_1b(u)
    }     else if 0x1D000 <= u && u < 0x1E000 {
        combining_class_1d(u)
    }     else if 0x1E000 <= u && u < 0x1F000 {
        combining_class_1e(u)
    } else {
        0
    }
}

fn combining_class_table_of(u: u32) -> (r: u8)
    ensures
        r == combining_class_table(u),
{
    if 0x0 <= u && u < 0x1000 {
        combining_class_0_of(u)
    }     else if 0x1000 <= u && u < 0x2000 {
        combining_class_1_of(u)
    }     else if 0x2000 <= u && u < 0x3000 {
        combining_class_2_of(u)
    }     else if 0x3000 <= u && u < 0x4000 {
        combining_class_3_of(u)
    }     else if 0xA000 <= u && u < 0xB000 {
        combining_class_a_of(u)
    }     else if 0xF000 <= u && u < 0x10000 {
        combining_class_f_of(u)
    }     else if 0x10000 <= u && u < 0x11000 {
        combining_class_10_of(u)
    }     else if 0x11000 <= u && u < 0x12000 {
        combining_class_11_of(u)
    }     else if 0x16000 <= u && u < 0x17000 {
        combining_class_16_of(u)
    }     else if 0x1B000 <= u && u < 0x1C000 {
        combining_class_1b_of(u)
    }     else if 0x1D000 <= u && u < 0x1E000 {
        combining_class_1d_of(u)
    }     else if 0x1E000 <= u && u < 0x1F000 {
        combining_class_1e_of(u)
    } else {
        0
    }
}

proof fn lemma_decomposition_0_length(u: u32)
    ensures
        decomposition_0(u) matches Some(e) ==> 1 <= e.0 <= 4,
{
}

proof fn lemma_decomposition_1_length(u: u32)
    ensures
        decomposition_1(u) matches Some(e) ==> 1 <= e.0 <= 4,
{
}

proof fn lemma_decomposition_2_length(u: u32)
    ensures
        decomposition_2(u) matches Some(e) ==> 1 <= e.0 <= 4,
{
}

proof fn lemma_decomposition_3_length(u: u32)
    ensures
        decomposition_3(u) matches Some(e) ==> 1 <= e.0 <= 4,
{
}

proof fn lemma_decomposition_f_length(u: u32)
    ensures
        decomposition_f(u) matches Some(e) ==> 1 <= e.0 <= 4,
{
}

proof fn lemma_decomposition_11_length(u: u32)
    ensures
        decomposition_11(u) matches Some(e) ==> 1 <= e.0 <= 4,
{
}

proof fn lemma_decomposition_1d_length(u: u32)
    ensures
        decomposition_1d(u) matches Some(e) ==> 1 <= e.0 <= 4,
{
}

proof fn lemma_decomposition_2f_length(u: u32)
    ensures
        decomposition_2f(u) matches Some(e) ==> 1 <= e.0 <= 4,
{
}

proof fn lemma_table_entry_length(u: u32)
    ensures
        decomposition_table(u) matches Some(e) ==> 1 <= e.0 <= 4,
{
    lemma_decomposition_0_length(u);
    lemma_decomposition_1_length(u);
    lemma_decomposition_2_length(u);
    lemma_decomposition_3_length(u);
    lemma_decomposition_f_length(u);
    lemma_decomposition_11_length(u);
    lemma_decomposition_1d_length(u);
    lemma_decomposition_2f_length(u);
}

/// `c` decomposes to itself.
pub open spec fn is_stable(c: char) -> bool {
    !is_hangul_syllable(c as u32) && decomposition_table(c as u32) is None
}

/// `c` is stable and is not the combining grapheme joiner U+034F.
pub open spec fn stable_not_joiner(c: char) -> bool {
    is_stable(c) && c != '\u{34f}'
}

#[verifier::rlimit(50)]
proof fn lemma_decomposition_0_stable(u: u32)
    ensures
        decomposition_0(u) matches Some(e) ==> stable_not_joiner(e.1) && (e.0 >= 2 ==> stable_not_joiner(e.2)) && (e.0 >= 3
            ==> stable_not_joiner(e.3)) && (e.0 >= 4 ==> stable_not_joiner(e.4)),
{
}

#[verifier::rlimit(50)]
proof fn lemma_decomposition_1_stable(u: u32)
    ensures
        decomposition_1(u) matches Some(e) ==> stable_not_joiner(e.1) && (e.0 >= 2 ==> stable_not_joiner(e.2)) && (e.0 >= 3
            ==> stable_not_joiner(e.3)) && (e.0 >= 4 ==> stable_not_joiner(e.4)),
{
}

#[verifier::rlimit(50)]
proof fn lemma_decomposition_2_stable(u: u32)
    ensures
        decomposition_2(u) matches Some(e) ==> stable_not_joiner(e.1) && (e.0 >= 2 ==> stable_not_joiner(e.2)) && (e.0 >= 3
            ==> stable_not_joiner(e.3)) && (e.0 >= 4 ==> stable_not_joiner(e.4)),
{
}

#[verifier::rlimit(50)]
proof fn lemma_decomposition_3_stable(u: u32)
    ensures
        decomposition_3(u) matches Some(e) ==> stable_not_joiner(e.1) && (e.0 >= 2 ==> stable_not_joiner(e.2)) && (e.0 >= 3
            ==> stable_not_joiner(e.3)) && (e.0 >= 4 ==> stable_not_joiner(e.4)),
{
}

#[verifier::rlimit(50)]
proof fn lemma_decomposition_f_stable(u: u32)
    ensures
        decomposition_f(u) matches Some(e) ==> stable_not_joiner(e.1) && (e.0 >= 2 ==> stable_not_joiner(e.2)) && (e.0 >= 3
            ==> stable_not_joiner(e.3)) && (e.0 >= 4 ==> stable_not_joiner(e.4)),
{
}

#[verifier::rlimit(50)]
proof fn lemma_decomposition_11_stable(u: u32)
    ensures
        decomposition_11(u) matches Some(e) ==> stable_not_joiner(e.1) && (e.0 >= 2 ==> stable_not_joiner(e.2)) && (e.0 >= 3
            ==> stable_not_joiner(e.3)) && (e.0 >= 4 ==> stable_not_joiner(e.4)),
{
}

#[verifier::rlimit(50)]
proof fn lemma_decomposition_1d_stable(u: u32)
    ensures
        decomposition_1d(u) matches Some(e) ==> stable_not_joiner(e.1) && (e.0 >= 2 ==> stable_not_joiner(e.2)) && (e.0 >= 3
            ==> stable_not_joiner(e.3)) && (e.0 >= 4 ==> stable_not_joiner(e.4)),
{
}

#[verifier::rlimit(50)]
proof fn lemma_decomposition_2f_stable(u: u32)
    ensures
        decomposition_2f(u) matches Some(e) ==> stable_not_joiner(e.1) && (e.0 >= 2 ==> stable_not_joiner(e.2)) && (e.0 >= 3
            ==> stable_not_joiner(e.3)) && (e.0 >= 4 ==> stable_not_joiner(e.4)),
{
}

proof fn lemma_table_entry_stable(u: u32)
    ensures
        decomposition_table(u) matches Some(e) ==> stable_not_joiner(e.1) && (e.0 >= 2 ==> stable_not_joiner(e.2))
            && (e.0 >= 3 ==> stable_not_joiner(e.3)) && (e.0 >= 4 ==> stable_not_joiner(e.4)),
{
    lemma_decomposition_0_stable(u);
    lemma_decomposition_1_stable(u);
    lemma_decomposition_2_stable(u);
    lemma_decomposition_3_stable(u);
    lemma_decomposition_f_stable(u);
    lemma_decomposition_11_stable(u);
    lemma_decomposition_1d_stable(u);
    lemma_decomposition_2f_stable(u);
}

/// The leading consonant jamo number `i`.
fn leading_jamo(i: u32) -> (r: char)
    requires
        0 <= i < 19,
    ensures
        r == (0x1100 + i) as char,
{
    match i {
        0 => '\u{1100}',
        1 => '\u{1101}',
        2 => '\u{1102}',
        3 => '\u{1103}',
        4 => '\u{1104}',
        5 => '\u{1105}',
        6 => '\u{1106}',
        7 => '\u{1107}',
        8 => '\u{1108}',
        9 => '\u{1109}',
        10 => '\u{110a}',
        11 => '\u{110b}',
        12 => '\u{110c}',
        13 => '\u{110d}',
        14 => '\u{110e}',
        15 => '\u{110f}',
        16 => '\u{1110}',
        17 => '\u{1111}',
        _ => '\u{1112}',
    }
}

/// The vowel jamo number `i`.
fn vowel_jamo(i: u32) -> (r: char)
    requires
        0 <= i < 21,
    ensures
        r == (0x1161 + i) as char,
{
    match i {
        0 => '\u{1161}',
        1 => '\u{1162}',
        2 => '\u{1163}',
        3 => '\u{1164}',
        4 => '\u{1165}',
        5 => '\u{1166}',
        6 => '\u{1167}',
        7 => '\u{1168}',
        8 => '\u{1169}',
        9 => '\u{116a}',
        10 => '\u{116b}',
        11 => '\u{116c}',
        12 => '\u{116d}',
        13 => '\u{116e}',
        14 => '\u{116f}',
        15 => '\u{1170}',
        16 => '\u{1171}',
        17 => '\u{1172}',
        18 => '\u{1173}',
        19 => '\u{1174}',
        _ => '\u{1175}',
    }
}

/// The trailing consonant jamo number `i`.
fn trailing_jamo(i: u32) -> (r: char)
    requires
        1 <= i < 28,
    ensures
        r == (0x11A7 + i) as char,
{
    match i {
        1 => '\u{11a8}',
        2 => '\u{11a9}',
        3 => '\u{11aa}',
        4 => '\u{11ab}',
        5 => '\u{11ac}',
        6 => '\u{11ad}',
        7 => '\u{11ae}',
        8 => '\u{11af}',
        9 => '\u{11b0}',
        10 => '\u{11b1}',
        11 => '\u{11b2}',
        12 => '\u{11b3}',
        13 => '\u{11b4}',
        14 => '\u{11b5}',
        15 => '\u{11b6}',
        16 => '\u{11b7}',
        17 => '\u{11b8}',
        18 => '\u{11b9}',
        19 => '\u{11ba}',
        20 => '\u{11bb}',
        21 => '\u{11bc}',
        22 => '\u{11bd}',
        23 => '\u{11be}',
        24 => '\u{11bf}',
        25 => '\u{11c0}',
        26 => '\u{11c1}',
        _ => '\u{11c2}',
    }
}

/// A Hangul syllable (U+AC00 to U+D7A3).
pub open spec fn is_hangul_syllable(u: u32) -> bool {
    0xAC00 <= u && u <= 0xD7A3
}

/// The jamo of a Hangul syllable: leading consonant, vowel, and trailing
/// consonant when there is one.
pub open spec fn hangul_decomposition(u: u32) -> Seq<char> {
    let si = u - 0xAC00;
    seq![(0x1100 + si / 588) as char, (0x1161 + (si % 588) / 28) as char] + (if si % 28 != 0 {
        seq![(0x11A7 + si % 28) as char]
    } else {
        Seq::empty()
    })
}

/// The full canonical decomposition of `c`: itself when it has none.
pub open spec fn decomposition(c: char) -> Seq<char> {
    let u = c as u32;
    if is_hangul_syllable(u) {
        hangul_decomposition(u)
    } else {
        match decomposition_table(u) {
            Some(e) => seq![e.1, e.2, e.3, e.4].take(e.0 as int),
            None => seq![c],
        }
    }
}

/// The canonical combining class of `c`.
pub open spec fn combining_class(c: char) -> u8 {
    combining_class_table(c as u32)
}

/// The decompositions of the characters of `s`, one after the other.
pub open spec fn decompose(s: Seq<char>) -> Seq<char>
    decreases s.len(),
{
    if s.len() == 0 {
        Seq::empty()
    } else {
        decompose(s.drop_last()) + decomposition(s.last())
    }
}

/// `t` with `c` added in canonical order: a mark goes before the marks of a
/// higher class that end `t`; any other character goes at the end.
pub open spec fn insert_in_order(t: Seq<char>, c: char) -> Seq<char>
    decreases t.len(),
{
    if combining_class(c) != 0 && t.len() > 0 && combining_class(t.last()) > combining_class(c) {
        insert_in_order(t.drop_last(), c).push(t.last())
    } else {
        t.push(c)
    }
}

/// `t` with the characters of `d` added one by one in canonical order.
pub open spec fn put_in_order(t: Seq<char>, d: Seq<char>) -> Seq<char>
    decreases d.len(),
{
    if d.len() == 0 {
        t
    } else {
        insert_in_order(put_in_order(t, d.drop_last()), d.last())
    }
}

/// The canonical decomposition (NFD) of `s`: every character decomposed,
/// then the combining marks in canonical order.
pub open spec fn canonical_decomposition(s: Seq<char>) -> Seq<char> {
    put_in_order(Seq::empty(), decompose(s))
}

pub proof fn lemma_put_in_order_concat(t: Seq<char>, a: Seq<char>, b: Seq<char>)
    ensures
        put_in_order(t, a + b) == put_in_order(put_in_order(t, a), b),
    decreases b.len(),
{
    if b.len() == 0 {
        assert(a + b =~= a);
    } else {
        lemma_put_in_order_concat(t, a, b.drop_last());
        assert((a + b).drop_last() =~= a + b.drop_last());
        assert((a + b).last() == b.last());
    }
}

/// The canonical decomposition of a text one character longer.
pub proof fn lemma_canonical_decomposition_step(s: Seq<char>, c: char)
    ensures
        canonical_decomposition(s.push(c)) == put_in_order(canonical_decomposition(s), decomposition(c)),
{
    assert(s.push(c).drop_last() =~= s);
    lemma_put_in_order_concat(Seq::empty(), decompose(s), decomposition(c));
}

fn combining_class_of(c: char) -> (r: u8)
    ensures
        r == combining_class(c),
{
    combining_class_table_of(c as u32)
}

proof fn lemma_insert_at(t: Seq<char>, c: char, j: int)
    requires
        0 <= j <= t.len(),
        j < t.len() ==> combining_class(c) != 0,
        forall|k: int| j <= k < t.len() ==> combining_class(#[trigger] t[k]) > combining_class(c),
        j > 0 && combining_class(c) != 0 ==> combining_class(t[j - 1]) <= combining_class(c),
    ensures
        insert_in_order(t, c) == t.insert(j, c),
    decreases t.len(),
{
    if j == t.len() {
        assert(t.push(c) =~= t.insert(j, c));
        if combining_class(c) != 0 && t.len() > 0 {
            assert(t[t.len() - 1] == t.last());
        }
    } else {
        assert(t[t.len() - 1] == t.last());
        let t1 = t.drop_last();
        assert forall|k: int| j <= k < t1.len() implies combining_class(#[trigger] t1[k]) > combining_class(c) by {
            assert(t1[k] == t[k]);
        }
        if j > 0 {
            assert(t1[j - 1] == t[j - 1]);
        }
        lemma_insert_at(t1, c, j);
        assert(t1.insert(j, c).push(t.last()) =~= t.insert(j, c));
    }
}

/// Adds `c` to `buf` in canonical order.
fn insert_char_in_order(buf: &mut Vec<char>, c: char)
    ensures
        final(buf)@ == insert_in_order(old(buf)@, c),
{
    let cc = combining_class_of(c);
    let mut j = buf.len();
    if cc != 0 {
        while j > 0 && combining_class_of(buf[j - 1]) > cc
            invariant
                j <= buf@.len(),
                cc == combining_class(c),
                cc != 0,
                forall|k: int| j <= k < buf@.len() ==> combining_class(#[trigger] buf@[k]) > cc,
            decreases j,
        {
            j = j - 1;
        }
    }
    proof {
        lemma_insert_at(buf@, c, j as int);
    }
    buf.insert(j, c);
}

/// The full canonical decomposition of `c`.
fn decomposition_of(c: char) -> (r: Vec<char>)
    ensures
        r@ == decomposition(c),
{
    let u = c as u32;
    let mut r: Vec<char> = Vec::new();
    if 0xAC00 <= u && u <= 0xD7A3 {
        let si = u - 0xAC00;
        r.push(leading_jamo(si / 588));
        r.push(vowel_jamo((si % 588) / 28));
        if si % 28 != 0 {
            r.push(trailing_jamo(si % 28));
        }
        assert(r@ =~= hangul_decomposition(u));
    } else {
        match decomposition_table_of(u) {
            Some(e) => {
                if e.0 >= 1 {
                    r.push(e.1);
                }
                if e.0 >= 2 {
                    r.push(e.2);
                }
                if e.0 >= 3 {
                    r.push(e.3);
                }
                if e.0 >= 4 {
                    r.push(e.4);
                }
                proof {
                    lemma_table_entry_length(u);
                }
                assert(r@ =~= seq![e.1, e.2, e.3, e.4].take(e.0 as int));
            },
            None => {
                r.push(c);
                assert(r@ =~= seq![c]);
            },
        }
    }
    r
}

/// Adds the full canonical decomposition of `c` to `buf`, in canonical order.
pub fn push_decomposition(buf: &mut Vec<char>, c: char)
    ensures
        final(buf)@ == put_in_order(old(buf)@, decomposition(c)),
{
    let d = decomposition_of(c);
    let ghost start = buf@;
    let mut k: usize = 0;
    assert(d@.take(0) =~= Seq::<char>::empty());
    while k < d.len()
        invariant
            k <= d@.len(),
            d@ == decomposition(c),
            buf@ == put_in_order(start, d@.take(k as int)),
        decreases d@.len() - k,
    {
        assert(d@.take(k + 1).drop_last() =~= d@.take(k as int));
        assert(d@.take(k + 1).last() == d@[k as int]);
        insert_char_in_order(buf, d[k]);
        k = k + 1;
    }
    assert(d@.take(d@.len() as int) =~= d@);
}

/// The marks of every run are in canonical order: no mark follows a mark of
/// a higher class.
pub open spec fn in_canonical_order(t: Seq<char>) -> bool {
    forall|i: int|
        0 <= i && i + 1 < t.len() ==> !(combining_class(#[trigger] t[i]) > combining_class(t[i + 1])
            && combining_class(t[i + 1]) > 0)
}

/// Every character of `r` is `c` or a character of `t`.
pub open spec fn drawn_from(r: Seq<char>, t: Seq<char>, d: Seq<char>) -> bool {
    forall|k: int| 0 <= k < r.len() ==> t.contains(#[trigger] r[k]) || d.contains(r[k])
}

proof fn lemma_insert_in_order_props(t: Seq<char>, c: char)
    ensures
        insert_in_order(t, c).len() == t.len() + 1,
        insert_in_order(t, c).last() == (if combining_class(c) != 0 && t.len() > 0 && combining_class(t.last())
            > combining_class(c) {
            t.last()
        } else {
            c
        }),
        in_canonical_order(t) ==> in_canonical_order(insert_in_order(t, c)),
        drawn_from(insert_in_order(t, c), t, seq![c]),
    decreases t.len(),
{
    let r = insert_in_order(t, c);
    assert(seq![c][0] == c);
    if combining_class(c) != 0 && t.len() > 0 && combining_class(t.last()) > combining_class(c) {
        let t1 = t.drop_last();
        lemma_insert_in_order_props(t1, c);
        let r1 = insert_in_order(t1, c);
        assert(r == r1.push(t.last()));
        if in_canonical_order(t) {
            assert(in_canonical_order(t1)) by {
                assert forall|i: int| 0 <= i && i + 1 < t1.len() implies !(combining_class(#[trigger] t1[i])
                    > combining_class(t1[i + 1]) && combining_class(t1[i + 1]) > 0) by {
                    assert(t1[i] == t[i] && t1[i + 1] == t[i + 1]);
                }
            }
            assert forall|i: int| 0 <= i && i + 1 < r.len() implies !(combining_class(#[trigger] r[i])
                > combining_class(r[i + 1]) && combining_class(r[i + 1]) > 0) by {
                if i + 1 < r1.len() {
                    assert(r[i] == r1[i] && r[i + 1] == r1[i + 1]);
                } else {
                    assert(r[i] == r1.last() && r[i + 1] == t.last());
                    if r1.last() != c {
                        assert(t[t.len() - 2] == t1.last());
                        assert(t[t.len() - 1] == t.last());
                    }
                }
            }
        }
        assert forall|k: int| 0 <= k < r.len() implies t.contains(#[trigger] r[k]) || seq![c].contains(r[k]) by {
            if k < r1.len() {
                assert(r[k] == r1[k]);
                if t1.contains(r1[k]) {
                    let j = choose|j: int| 0 <= j < t1.len() && t1[j] == r1[k];
                    assert(t[j] == t1[j]);
                }
            } else {
                assert(t[t.len() - 1] == t.last());
            }
        }
    } else {
        assert(r == t.push(c));
        if in_canonical_order(t) {
            assert forall|i: int| 0 <= i && i + 1 < r.len() implies !(combining_class(#[trigger] r[i])
                > combining_class(r[i + 1]) && combining_class(r[i + 1]) > 0) by {
                if i + 1 < t.len() {
                    assert(r[i] == t[i] && r[i + 1] == t[i + 1]);
                } else {
                    assert(r[i] == t.last() && r[i + 1] == c);
                }
            }
        }
        assert forall|k: int| 0 <= k < r.len() implies t.contains(#[trigger] r[k]) || seq![c].contains(r[k]) by {
            if k < t.len() {
                assert(r[k] == t[k]);
            }
        }
    }
}

/// Putting characters in order keeps an ordered text ordered and only uses
/// the characters given.
pub proof fn lemma_put_in_order_props(t: Seq<char>, d: Seq<char>)
    ensures
        in_canonical_order(t) ==> in_canonical_order(put_in_order(t, d)),
        drawn_from(put_in_order(t, d), t, d),
    decreases d.len(),
{
    if d.len() > 0 {
        let d1 = d.drop_last();
        lemma_put_in_order_props(t, d1);
        let p1 = put_in_order(t, d1);
        lemma_insert_in_order_props(p1, d.last());
        let r = put_in_order(t, d);
        assert forall|k: int| 0 <= k < r.len() implies t.contains(#[trigger] r[k]) || d.contains(r[k]) by {
            if p1.contains(r[k]) {
                let j = choose|j: int| 0 <= j < p1.len() && p1[j] == r[k];
                assert(t.contains(p1[j]) || d1.contains(p1[j]));
                if d1.contains(p1[j]) {
                    let m = choose|m: int| 0 <= m < d1.len() && d1[m] == p1[j];
                    assert(d[m] == d1[m]);
                }
            } else {
                assert(seq![d.last()].contains(r[k]));
                assert(d[d.len() - 1] == d.last());
            }
        }
    }
}

/// Putting an ordered text in order leaves it as it is.
pub proof fn lemma_put_ordered(x: Seq<char>)
    requires
        in_canonical_order(x),
    ensures
        put_in_order(Seq::empty(), x) == x,
    decreases x.len(),
{
    if x.len() > 0 {
        let x1 = x.drop_last();
        assert(in_canonical_order(x1)) by {
            assert forall|i: int| 0 <= i && i + 1 < x1.len() implies !(combining_class(#[trigger] x1[i])
                > combining_class(x1[i + 1]) && combining_class(x1[i + 1]) > 0) by {
                assert(x1[i] == x[i] && x1[i + 1] == x[i + 1]);
            }
        }
        lemma_put_ordered(x1);
        if x1.len() > 0 {
            assert(x[x.len() - 2] == x1.last());
            assert(x[x.len() - 1] == x.last());
        }
        assert(x1.push(x.last()) =~= x);
    }
}

/// Decomposing a text of stable characters leaves it as it is.
pub proof fn lemma_decompose_stable(x: Seq<char>)
    requires
        forall|k: int| 0 <= k < x.len() ==> is_stable(#[trigger] x[k]),
    ensures
        decompose(x) == x,
    decreases x.len(),
{
    if x.len() > 0 {
        let x1 = x.drop_last();
        assert forall|k: int| 0 <= k < x1.len() implies is_stable(#[trigger] x1[k]) by {
            assert(x1[k] == x[k]);
        }
        lemma_decompose_stable(x1);
        assert(is_stable(x[x.len() - 1]));
        assert(x1 + seq![x.last()] =~= x);
    }
}

proof fn lemma_decomposition_chars(c: char)
    requires
        c != '\u{34f}',
    ensures
        forall|k: int| 0 <= k < decomposition(c).len() ==> stable_not_joiner(#[trigger] decomposition(c)[k]),
{
    let u = c as u32;
    if is_hangul_syllable(u) {
        let si = u - 0xAC00;
        assert(0x1100 <= 0x1100 + si / 588 <= 0x1112);
        assert(0x1161 <= 0x1161 + (si % 588) / 28 <= 0x1175);
        assert(0x11A7 <= 0x11A7 + si % 28 <= 0x11C2);
    } else {
        lemma_table_entry_stable(u);
        lemma_table_entry_length(u);
    }
}

/// Every character of the canonical decomposition of a text without the
/// joiner U+034F is stable and is not the joiner.
pub proof fn lemma_canonical_decomposition_chars(s: Seq<char>)
    requires
        !s.contains('\u{34f}'),
    ensures
        forall|k: int| 0 <= k < canonical_decomposition(s).len() ==> stable_not_joiner(
            #[trigger] canonical_decomposition(s)[k],
        ),
{
    lemma_decompose_chars(s);
    lemma_put_in_order_props(Seq::empty(), decompose(s));
    let r = canonical_decomposition(s);
    assert forall|k: int| 0 <= k < r.len() implies stable_not_joiner(#[trigger] r[k]) by {
        assert(Seq::<char>::empty().contains(r[k]) || decompose(s).contains(r[k]));
        if decompose(s).contains(r[k]) {
            let j = choose|j: int| 0 <= j < decompose(s).len() && decompose(s)[j] == r[k];
            assert(stable_not_joiner(decompose(s)[j]));
        }
    }
}

proof fn lemma_decompose_chars(s: Seq<char>)
    requires
        !s.contains('\u{34f}'),
    ensures
        forall|k: int| 0 <= k < decompose(s).len() ==> stable_not_joiner(#[trigger] decompose(s)[k]),
    decreases s.len(),
{
    if s.len() > 0 {
        let s1 = s.drop_last();
        assert(!s1.contains('\u{34f}')) by {
            if s1.contains('\u{34f}') {
                let j = choose|j: int| 0 <= j < s1.len() && s1[j] == '\u{34f}';
                assert(s[j] == s1[j]);
            }
        }
        lemma_decompose_chars(s1);
        assert(s[s.len() - 1] == s.last());
        lemma_decomposition_chars(s.last());
        let a = decompose(s1);
        let b = decomposition(s.last());
        assert forall|k: int| 0 <= k < decompose(s).len() implies stable_not_joiner(#[trigger] decompose(s)[k]) by {
            if k < a.len() {
                assert(decompose(s)[k] == a[k]);
            } else {
                assert(decompose(s)[k] == b[k - a.len()]);
            }
        }
    }
}

/// The marks U+0300 to U+036F other than the joiner U+034F have a class
/// other than 0.
pub proof fn lemma_mark_classes(c: char)
    requires
        0x300 <= (c as u32) <= 0x36f,
        c != '\u{34f}',
    ensures
        combining_class(c) != 0,
{
}

} // verus!
