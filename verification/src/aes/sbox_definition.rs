//! The S-box is what its definition says: the inverse in GF(2^8), then an
//! affine map over GF(2).

use super::gf::gf_mul;
use super::sbox::sbox;
use vstd::prelude::*;

verus! {

/// The byte rotated left by `n` bits, for `n` from 1 to 7.
pub open spec fn rotl8(x: u8, n: u8) -> u8 {
    (x << n) | (x >> ((8 - n) as u8))
}

/// The affine map of the S-box.
pub open spec fn affine(x: u8) -> u8 {
    x ^ rotl8(x, 1) ^ rotl8(x, 2) ^ rotl8(x, 3) ^ rotl8(x, 4) ^ 0x63
}

/// The map that undoes `affine`.
pub open spec fn affine_inverse(y: u8) -> u8 {
    rotl8(y, 1) ^ rotl8(y, 3) ^ rotl8(y, 6) ^ 0x05
}

/// Whether `inv` is what the S-box inverts `b` to: the multiplicative inverse
/// of `b`, with zero standing for the inverse that zero does not have.
pub open spec fn is_inverse(b: u8, inv: u8) -> bool {
    if b == 0 {
        inv == 0
    } else {
        gf_mul(b, inv) == 1
    }
}

/// The table as a decision tree over the byte.
spec fn sbox_tree(b: u8) -> u8 {
    if b < 0x80 {
        if b < 0x40 {
            if b < 0x20 {
                if b < 0x10 {
                    if b < 0x08 {
                        if b < 0x04 {
                            if b < 0x02 {
                                if b < 0x01 { 0x63 } else { 0x7c }
                            } else {
                                if b < 0x03 { 0x77 } else { 0x7b }
                            }
                        } else {
                            if b < 0x06 {
                                if b < 0x05 { 0xf2 } else { 0x6b }
                            } else {
                                if b < 0x07 { 0x6f } else { 0xc5 }
                            }
                        }
                    } else {
                        if b < 0x0c {
                            if b < 0x0a {
                                if b < 0x09 { 0x30 } else { 0x01 }
                            } else {
                                if b < 0x0b { 0x67 } else { 0x2b }
                            }
                        } else {
                            if b < 0x0e {
                                if b < 0x0d { 0xfe } else { 0xd7 }
                            } else {
                                if b < 0x0f { 0xab } else { 0x76 }
                            }
                        }
                    }
                } else {
                    if b < 0x18 {
                        if b < 0x14 {
                            if b < 0x12 {
                                if b < 0x11 { 0xca } else { 0x82 }
                            } else {
                                if b < 0x13 { 0xc9 } else { 0x7d }
                            }
                        } else {
                            if b < 0x16 {
                                if b < 0x15 { 0xfa } else { 0x59 }
                            } else {
                                if b < 0x17 { 0x47 } else { 0xf0 }
                            }
                        }
                    } else {
                        if b < 0x1c {
                            if b < 0x1a {
                                if b < 0x19 { 0xad } else { 0xd4 }
                            } else {
                                if b < 0x1b { 0xa2 } else { 0xaf }
                            }
                        } else {
                            if b < 0x1e {
                                if b < 0x1d { 0x9c } else { 0xa4 }
                            } else {
                                if b < 0x1f { 0x72 } else { 0xc0 }
                            }
                        }
                    }
                }
            } else {
                if b < 0x30 {
                    if b < 0x28 {
                        if b < 0x24 {
                            if b < 0x22 {
                                if b < 0x21 { 0xb7 } else { 0xfd }
                            } else {
                                if b < 0x23 { 0x93 } else { 0x26 }
                            }
                        } else {
                            if b < 0x26 {
                                if b < 0x25 { 0x36 } else { 0x3f }
                            } else {
                                if b < 0x27 { 0xf7 } else { 0xcc }
                            }
                        }
                    } else {
                        if b < 0x2c {
                            if b < 0x2a {
                                if b < 0x29 { 0x34 } else { 0xa5 }
                            } else {
                                if b < 0x2b { 0xe5 } else { 0xf1 }
                            }
                        } else {
                            if b < 0x2e {
                                if b < 0x2d { 0x71 } else { 0xd8 }
                            } else {
                                if b < 0x2f { 0x31 } else { 0x15 }
                            }
                        }
                    }
                } else {
                    if b < 0x38 {
                        if b < 0x34 {
                            if b < 0x32 {
                                if b < 0x31 { 0x04 } else { 0xc7 }
                            } else {
                                if b < 0x33 { 0x23 } else { 0xc3 }
                            }
                        } else {
                            if b < 0x36 {
                                if b < 0x35 { 0x18 } else { 0x96 }
                            } else {
                                if b < 0x37 { 0x05 } else { 0x9a }
                            }
                        }
                    } else {
                        if b < 0x3c {
                            if b < 0x3a {
                                if b < 0x39 { 0x07 } else { 0x12 }
                            } else {
                                if b < 0x3b { 0x80 } else { 0xe2 }
                            }
                        } else {
                            if b < 0x3e {
                                if b < 0x3d { 0xeb } else { 0x27 }
                            } else {
                                if b < 0x3f { 0xb2 } else { 0x75 }
                            }
                        }
                    }
                }
            }
        } else {
            if b < 0x60 {
                if b < 0x50 {
                    if b < 0x48 {
                        if b < 0x44 {
                            if b < 0x42 {
                                if b < 0x41 { 0x09 } else { 0x83 }
                            } else {
                                if b < 0x43 { 0x2c } else { 0x1a }
                            }
                        } else {
                            if b < 0x46 {
                                if b < 0x45 { 0x1b } else { 0x6e }
                            } else {
                                if b < 0x47 { 0x5a } else { 0xa0 }
                            }
                        }
                    } else {
                        if b < 0x4c {
                            if b < 0x4a {
                                if b < 0x49 { 0x52 } else { 0x3b }
                            } else {
                                if b < 0x4b { 0xd6 } else { 0xb3 }
                            }
                        } else {
                            if b < 0x4e {
                                if b < 0x4d { 0x29 } else { 0xe3 }
                            } else {
                                if b < 0x4f { 0x2f } else { 0x84 }
                            }
                        }
                    }
                } else {
                    if b < 0x58 {
                        if b < 0x54 {
                            if b < 0x52 {
                                if b < 0x51 { 0x53 } else { 0xd1 }
                            } else {
                                if b < 0x53 { 0x00 } else { 0xed }
                            }
                        } else {
                            if b < 0x56 {
                                if b < 0x55 { 0x20 } else { 0xfc }
                            } else {
                                if b < 0x57 { 0xb1 } else { 0x5b }
                            }
                        }
                    } else {
                        if b < 0x5c {
                            if b < 0x5a {
                                if b < 0x59 { 0x6a } else { 0xcb }
                            } else {
                                if b < 0x5b { 0xbe } else { 0x39 }
                            }
                        } else {
                            if b < 0x5e {
                                if b < 0x5d { 0x4a } else { 0x4c }
                            } else {
                                if b < 0x5f { 0x58 } else { 0xcf }
                            }
                        }
                    }
                }
            } else {
                if b < 0x70 {
                    if b < 0x68 {
                        if b < 0x64 {
                            if b < 0x62 {
                                if b < 0x61 { 0xd0 } else { 0xef }
                            } else {
                                if b < 0x63 { 0xaa } else { 0xfb }
                            }
                        } else {
                            if b < 0x66 {
                                if b < 0x65 { 0x43 } else { 0x4d }
                            } else {
                                if b < 0x67 { 0x33 } else { 0x85 }
                            }
                        }
                    } else {
                        if b < 0x6c {
                            if b < 0x6a {
                                if b < 0x69 { 0x45 } else { 0xf9 }
                            } else {
                                if b < 0x6b { 0x02 } else { 0x7f }
                            }
                        } else {
                            if b < 0x6e {
                                if b < 0x6d { 0x50 } else { 0x3c }
                            } else {
                                if b < 0x6f { 0x9f } else { 0xa8 }
                            }
                        }
                    }
                } else {
                    if b < 0x78 {
                        if b < 0x74 {
                            if b < 0x72 {
                                if b < 0x71 { 0x51 } else { 0xa3 }
                            } else {
                                if b < 0x73 { 0x40 } else { 0x8f }
                            }
                        } else {
                            if b < 0x76 {
                                if b < 0x75 { 0x92 } else { 0x9d }
                            } else {
                                if b < 0x77 { 0x38 } else { 0xf5 }
                            }
                        }
                    } else {
                        if b < 0x7c {
                            if b < 0x7a {
                                if b < 0x79 { 0xbc } else { 0xb6 }
                            } else {
                                if b < 0x7b { 0xda } else { 0x21 }
                            }
                        } else {
                            if b < 0x7e {
                                if b < 0x7d { 0x10 } else { 0xff }
                            } else {
                                if b < 0x7f { 0xf3 } else { 0xd2 }
                            }
                        }
                    }
                }
            }
        }
    } else {
        if b < 0xc0 {
            if b < 0xa0 {
                if b < 0x90 {
                    if b < 0x88 {
                        if b < 0x84 {
                            if b < 0x82 {
                                if b < 0x81 { 0xcd } else { 0x0c }
                            } else {
                                if b < 0x83 { 0x13 } else { 0xec }
                            }
                        } else {
                            if b < 0x86 {
                                if b < 0x85 { 0x5f } else { 0x97 }
                            } else {
                                if b < 0x87 { 0x44 } else { 0x17 }
                            }
                        }
                    } else {
                        if b < 0x8c {
                            if b < 0x8a {
                                if b < 0x89 { 0xc4 } else { 0xa7 }
                            } else {
                                if b < 0x8b { 0x7e } else { 0x3d }
                            }
                        } else {
                            if b < 0x8e {
                                if b < 0x8d { 0x64 } else { 0x5d }
                            } else {
                                if b < 0x8f { 0x19 } else { 0x73 }
                            }
                        }
                    }
                } else {
                    if b < 0x98 {
                        if b < 0x94 {
                            if b < 0x92 {
                                if b < 0x91 { 0x60 } else { 0x81 }
                            } else {
                                if b < 0x93 { 0x4f } else { 0xdc }
                            }
                        } else {
                            if b < 0x96 {
                                if b < 0x95 { 0x22 } else { 0x2a }
                            } else {
                                if b < 0x97 { 0x90 } else { 0x88 }
                            }
                        }
                    } else {
                        if b < 0x9c {
                            if b < 0x9a {
                                if b < 0x99 { 0x46 } else { 0xee }
                            } else {
                                if b < 0x9b { 0xb8 } else { 0x14 }
                            }
                        } else {
                            if b < 0x9e {
                                if b < 0x9d { 0xde } else { 0x5e }
                            } else {
                                if b < 0x9f { 0x0b } else { 0xdb }
                            }
                        }
                    }
                }
            } else {
                if b < 0xb0 {
                    if b < 0xa8 {
                        if b < 0xa4 {
                            if b < 0xa2 {
                                if b < 0xa1 { 0xe0 } else { 0x32 }
                            } else {
                                if b < 0xa3 { 0x3a } else { 0x0a }
                            }
                        } else {
                            if b < 0xa6 {
                                if b < 0xa5 { 0x49 } else { 0x06 }
                            } else {
                                if b < 0xa7 { 0x24 } else { 0x5c }
                            }
                        }
                    } else {
                        if b < 0xac {
                            if b < 0xaa {
                                if b < 0xa9 { 0xc2 } else { 0xd3 }
                            } else {
                                if b < 0xab { 0xac } else { 0x62 }
                            }
                        } else {
                            if b < 0xae {
                                if b < 0xad { 0x91 } else { 0x95 }
                            } else {
                                if b < 0xaf { 0xe4 } else { 0x79 }
                            }
                        }
                    }
                } else {
                    if b < 0xb8 {
                        if b < 0xb4 {
                            if b < 0xb2 {
                                if b < 0xb1 { 0xe7 } else { 0xc8 }
                            } else {
                                if b < 0xb3 { 0x37 } else { 0x6d }
                            }
                        } else {
                            if b < 0xb6 {
                                if b < 0xb5 { 0x8d } else { 0xd5 }
                            } else {
                                if b < 0xb7 { 0x4e } else { 0xa9 }
                            }
                        }
                    } else {
                        if b < 0xbc {
                            if b < 0xba {
                                if b < 0xb9 { 0x6c } else { 0x56 }
                            } else {
                                if b < 0xbb { 0xf4 } else { 0xea }
                            }
                        } else {
                            if b < 0xbe {
                                if b < 0xbd { 0x65 } else { 0x7a }
                            } else {
                                if b < 0xbf { 0xae } else { 0x08 }
                            }
                        }
                    }
                }
            }
        } else {
            if b < 0xe0 {
                if b < 0xd0 {
                    if b < 0xc8 {
                        if b < 0xc4 {
                            if b < 0xc2 {
                                if b < 0xc1 { 0xba } else { 0x78 }
                            } else {
                                if b < 0xc3 { 0x25 } else { 0x2e }
                            }
                        } else {
                            if b < 0xc6 {
                                if b < 0xc5 { 0x1c } else { 0xa6 }
                            } else {
                                if b < 0xc7 { 0xb4 } else { 0xc6 }
                            }
                        }
                    } else {
                        if b < 0xcc {
                            if b < 0xca {
                                if b < 0xc9 { 0xe8 } else { 0xdd }
                            } else {
                                if b < 0xcb { 0x74 } else { 0x1f }
                            }
                        } else {
                            if b < 0xce {
                                if b < 0xcd { 0x4b } else { 0xbd }
                            } else {
                                if b < 0xcf { 0x8b } else { 0x8a }
                            }
                        }
                    }
                } else {
                    if b < 0xd8 {
                        if b < 0xd4 {
                            if b < 0xd2 {
                                if b < 0xd1 { 0x70 } else { 0x3e }
                            } else {
                                if b < 0xd3 { 0xb5 } else { 0x66 }
                            }
                        } else {
                            if b < 0xd6 {
                                if b < 0xd5 { 0x48 } else { 0x03 }
                            } else {
                                if b < 0xd7 { 0xf6 } else { 0x0e }
                            }
                        }
                    } else {
                        if b < 0xdc {
                            if b < 0xda {
                                if b < 0xd9 { 0x61 } else { 0x35 }
                            } else {
                                if b < 0xdb { 0x57 } else { 0xb9 }
                            }
                        } else {
                            if b < 0xde {
                                if b < 0xdd { 0x86 } else { 0xc1 }
                            } else {
                                if b < 0xdf { 0x1d } else { 0x9e }
                            }
                        }
                    }
                }
            } else {
                if b < 0xf0 {
                    if b < 0xe8 {
                        if b < 0xe4 {
                            if b < 0xe2 {
                                if b < 0xe1 { 0xe1 } else { 0xf8 }
                            } else {
                                if b < 0xe3 { 0x98 } else { 0x11 }
                            }
                        } else {
                            if b < 0xe6 {
                                if b < 0xe5 { 0x69 } else { 0xd9 }
                            } else {
                                if b < 0xe7 { 0x8e } else { 0x94 }
                            }
                        }
                    } else {
                        if b < 0xec {
                            if b < 0xea {
                                if b < 0xe9 { 0x9b } else { 0x1e }
                            } else {
                                if b < 0xeb { 0x87 } else { 0xe9 }
                            }
                        } else {
                            if b < 0xee {
                                if b < 0xed { 0xce } else { 0x55 }
                            } else {
                                if b < 0xef { 0x28 } else { 0xdf }
                            }
                        }
                    }
                } else {
                    if b < 0xf8 {
                        if b < 0xf4 {
                            if b < 0xf2 {
                                if b < 0xf1 { 0x8c } else { 0xa1 }
                            } else {
                                if b < 0xf3 { 0x89 } else { 0x0d }
                            }
                        } else {
                            if b < 0xf6 {
                                if b < 0xf5 { 0xbf } else { 0xe6 }
                            } else {
                                if b < 0xf7 { 0x42 } else { 0x68 }
                            }
                        }
                    } else {
                        if b < 0xfc {
                            if b < 0xfa {
                                if b < 0xf9 { 0x41 } else { 0x99 }
                            } else {
                                if b < 0xfb { 0x2d } else { 0x0f }
                            }
                        } else {
                            if b < 0xfe {
                                if b < 0xfd { 0xb0 } else { 0x54 }
                            } else {
                                if b < 0xff { 0xbb } else { 0x16 }
                            }
                        }
                    }
                }
            }
        }
    }
}

proof fn lemma_sbox_tree(b: u8)
    ensures
        sbox(b) == sbox_tree(b),
{
    if b == 0x00 {
    } else if b == 0x01 {
    } else if b == 0x02 {
    } else if b == 0x03 {
    } else if b == 0x04 {
    } else if b == 0x05 {
    } else if b == 0x06 {
    } else if b == 0x07 {
    } else if b == 0x08 {
    } else if b == 0x09 {
    } else if b == 0x0a {
    } else if b == 0x0b {
    } else if b == 0x0c {
    } else if b == 0x0d {
    } else if b == 0x0e {
    } else if b == 0x0f {
    } else if b == 0x10 {
    } else if b == 0x11 {
    } else if b == 0x12 {
    } else if b == 0x13 {
    } else if b == 0x14 {
    } else if b == 0x15 {
    } else if b == 0x16 {
    } else if b == 0x17 {
    } else if b == 0x18 {
    } else if b == 0x19 {
    } else if b == 0x1a {
    } else if b == 0x1b {
    } else if b == 0x1c {
    } else if b == 0x1d {
    } else if b == 0x1e {
    } else if b == 0x1f {
    } else if b == 0x20 {
    } else if b == 0x21 {
    } else if b == 0x22 {
    } else if b == 0x23 {
    } else if b == 0x24 {
    } else if b == 0x25 {
    } else if b == 0x26 {
    } else if b == 0x27 {
    } else if b == 0x28 {
    } else if b == 0x29 {
    } else if b == 0x2a {
    } else if b == 0x2b {
    } else if b == 0x2c {
    } else if b == 0x2d {
    } else if b == 0x2e {
    } else if b == 0x2f {
    } else if b == 0x30 {
    } else if b == 0x31 {
    } else if b == 0x32 {
    } else if b == 0x33 {
    } else if b == 0x34 {
    } else if b == 0x35 {
    } else if b == 0x36 {
    } else if b == 0x37 {
    } else if b == 0x38 {
    } else if b == 0x39 {
    } else if b == 0x3a {
    } else if b == 0x3b {
    } else if b == 0x3c {
    } else if b == 0x3d {
    } else if b == 0x3e {
    } else if b == 0x3f {
    } else if b == 0x40 {
    } else if b == 0x41 {
    } else if b == 0x42 {
    } else if b == 0x43 {
    } else if b == 0x44 {
    } else if b == 0x45 {
    } else if b == 0x46 {
    } else if b == 0x47 {
    } else if b == 0x48 {
    } else if b == 0x49 {
    } else if b == 0x4a {
    } else if b == 0x4b {
    } else if b == 0x4c {
    } else if b == 0x4d {
    } else if b == 0x4e {
    } else if b == 0x4f {
    } else if b == 0x50 {
    } else if b == 0x51 {
    } else if b == 0x52 {
    } else if b == 0x53 {
    } else if b == 0x54 {
    } else if b == 0x55 {
    } else if b == 0x56 {
    } else if b == 0x57 {
    } else if b == 0x58 {
    } else if b == 0x59 {
    } else if b == 0x5a {
    } else if b == 0x5b {
    } else if b == 0x5c {
    } else if b == 0x5d {
    } else if b == 0x5e {
    } else if b == 0x5f {
    } else if b == 0x60 {
    } else if b == 0x61 {
    } else if b == 0x62 {
    } else if b == 0x63 {
    } else if b == 0x64 {
    } else if b == 0x65 {
    } else if b == 0x66 {
    } else if b == 0x67 {
    } else if b == 0x68 {
    } else if b == 0x69 {
    } else if b == 0x6a {
    } else if b == 0x6b {
    } else if b == 0x6c {
    } else if b == 0x6d {
    } else if b == 0x6e {
    } else if b == 0x6f {
    } else if b == 0x70 {
    } else if b == 0x71 {
    } else if b == 0x72 {
    } else if b == 0x73 {
    } else if b == 0x74 {
    } else if b == 0x75 {
    } else if b == 0x76 {
    } else if b == 0x77 {
    } else if b == 0x78 {
    } else if b == 0x79 {
    } else if b == 0x7a {
    } else if b == 0x7b {
    } else if b == 0x7c {
    } else if b == 0x7d {
    } else if b == 0x7e {
    } else if b == 0x7f {
    } else if b == 0x80 {
    } else if b == 0x81 {
    } else if b == 0x82 {
    } else if b == 0x83 {
    } else if b == 0x84 {
    } else if b == 0x85 {
    } else if b == 0x86 {
    } else if b == 0x87 {
    } else if b == 0x88 {
    } else if b == 0x89 {
    } else if b == 0x8a {
    } else if b == 0x8b {
    } else if b == 0x8c {
    } else if b == 0x8d {
    } else if b == 0x8e {
    } else if b == 0x8f {
    } else if b == 0x90 {
    } else if b == 0x91 {
    } else if b == 0x92 {
    } else if b == 0x93 {
    } else if b == 0x94 {
    } else if b == 0x95 {
    } else if b == 0x96 {
    } else if b == 0x97 {
    } else if b == 0x98 {
    } else if b == 0x99 {
    } else if b == 0x9a {
    } else if b == 0x9b {
    } else if b == 0x9c {
    } else if b == 0x9d {
    } else if b == 0x9e {
    } else if b == 0x9f {
    } else if b == 0xa0 {
    } else if b == 0xa1 {
    } else if b == 0xa2 {
    } else if b == 0xa3 {
    } else if b == 0xa4 {
    } else if b == 0xa5 {
    } else if b == 0xa6 {
    } else if b == 0xa7 {
    } else if b == 0xa8 {
    } else if b == 0xa9 {
    } else if b == 0xaa {
    } else if b == 0xab {
    } else if b == 0xac {
    } else if b == 0xad {
    } else if b == 0xae {
    } else if b == 0xaf {
    } else if b == 0xb0 {
    } else if b == 0xb1 {
    } else if b == 0xb2 {
    } else if b == 0xb3 {
    } else if b == 0xb4 {
    } else if b == 0xb5 {
    } else if b == 0xb6 {
    } else if b == 0xb7 {
    } else if b == 0xb8 {
    } else if b == 0xb9 {
    } else if b == 0xba {
    } else if b == 0xbb {
    } else if b == 0xbc {
    } else if b == 0xbd {
    } else if b == 0xbe {
    } else if b == 0xbf {
    } else if b == 0xc0 {
    } else if b == 0xc1 {
    } else if b == 0xc2 {
    } else if b == 0xc3 {
    } else if b == 0xc4 {
    } else if b == 0xc5 {
    } else if b == 0xc6 {
    } else if b == 0xc7 {
    } else if b == 0xc8 {
    } else if b == 0xc9 {
    } else if b == 0xca {
    } else if b == 0xcb {
    } else if b == 0xcc {
    } else if b == 0xcd {
    } else if b == 0xce {
    } else if b == 0xcf {
    } else if b == 0xd0 {
    } else if b == 0xd1 {
    } else if b == 0xd2 {
    } else if b == 0xd3 {
    } else if b == 0xd4 {
    } else if b == 0xd5 {
    } else if b == 0xd6 {
    } else if b == 0xd7 {
    } else if b == 0xd8 {
    } else if b == 0xd9 {
    } else if b == 0xda {
    } else if b == 0xdb {
    } else if b == 0xdc {
    } else if b == 0xdd {
    } else if b == 0xde {
    } else if b == 0xdf {
    } else if b == 0xe0 {
    } else if b == 0xe1 {
    } else if b == 0xe2 {
    } else if b == 0xe3 {
    } else if b == 0xe4 {
    } else if b == 0xe5 {
    } else if b == 0xe6 {
    } else if b == 0xe7 {
    } else if b == 0xe8 {
    } else if b == 0xe9 {
    } else if b == 0xea {
    } else if b == 0xeb {
    } else if b == 0xec {
    } else if b == 0xed {
    } else if b == 0xee {
    } else if b == 0xef {
    } else if b == 0xf0 {
    } else if b == 0xf1 {
    } else if b == 0xf2 {
    } else if b == 0xf3 {
    } else if b == 0xf4 {
    } else if b == 0xf5 {
    } else if b == 0xf6 {
    } else if b == 0xf7 {
    } else if b == 0xf8 {
    } else if b == 0xf9 {
    } else if b == 0xfa {
    } else if b == 0xfb {
    } else if b == 0xfc {
    } else if b == 0xfd {
    } else if b == 0xfe {
    } else if b == 0xff {
    }
}

/// Every entry of the S-box is the affine image of the inverse of its index.
pub proof fn lemma_sbox_definition(b: u8)
    ensures
        is_inverse(b, affine_inverse(sbox(b))),
        sbox(b) == affine(affine_inverse(sbox(b))),
{
    lemma_sbox_tree(b);
    let y = sbox(b);
    assert(affine(affine_inverse(y)) == y) by (bit_vector);
    assert(is_inverse(b, affine_inverse(sbox_tree(b)))) by (bit_vector);
}

} // verus!
