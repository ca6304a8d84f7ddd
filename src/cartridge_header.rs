use vstd::prelude::*;

verus! {

/// Why a cartridge image is refused.
#[derive(Debug, Clone, Copy, PartialEq, Eq, Structural)]
pub enum GameBoyError {
    /// Too short, wrong logo, or a title with bytes after its padding.
    InvalidHeader,
    /// The header checksum at 0x14D does not match.
    InvalidComplementChecksum,
    /// The global checksum at 0x14E and 0x14F does not match.
    InvalidChecksum,
    /// The cartridge type byte names a controller this engine does not have.
    UnsupportedCartridgeType,
}

/// The publisher of a cartridge.
#[derive(Debug, Clone, Copy, PartialEq, Eq, Structural)]
pub enum Licensee {
    /// The old one-byte code.
    Code(u8),
    /// The new two-character code at 0x144, as one big-endian value.
    New(u16),
}

/// The supported cartridge types.
#[derive(Debug, Clone, Copy, PartialEq, Eq, Structural)]
pub enum CartridgeType {
    Rom,
    RomMbc1,
    RomMbc1Ram,
    RomMbc1RamBattery,
}

impl CartridgeType {
    pub open spec fn of_byte(b: u8) -> Option<CartridgeType> {
        if b == 0 {
            Some(CartridgeType::Rom)
        } else if b == 1 {
            Some(CartridgeType::RomMbc1)
        } else if b == 2 {
            Some(CartridgeType::RomMbc1Ram)
        } else if b == 3 {
            Some(CartridgeType::RomMbc1RamBattery)
        } else {
            None
        }
    }

    /// The type named by the cartridge type byte, if supported.
    pub fn from_byte(b: u8) -> (r: Option<CartridgeType>)
        ensures
            r == CartridgeType::of_byte(b),
    {
        if b == 0 {
            Some(CartridgeType::Rom)
        } else if b == 1 {
            Some(CartridgeType::RomMbc1)
        } else if b == 2 {
            Some(CartridgeType::RomMbc1Ram)
        } else if b == 3 {
            Some(CartridgeType::RomMbc1RamBattery)
        } else {
            None
        }
    }
}

/// The logo block that every cartridge carries at 0x104.
pub open spec fn logo() -> Seq<u8> {
    seq![
        0xCEu8, 0xED, 0x66, 0x66, 0xCC, 0x0D, 0x00, 0x0B, 0x03, 0x73, 0x00, 0x83, 0x00, 0x0C, 0x00, 0x0D,
        0x00, 0x08, 0x11, 0x1F, 0x88, 0x89, 0x00, 0x0E, 0xDC, 0xCC, 0x6E, 0xE6, 0xDD, 0xDD, 0xD9, 0x99,
        0xBB, 0xBB, 0x67, 0x63, 0x6E, 0x0E, 0xEC, 0xCC, 0xDD, 0xDC, 0x99, 0x9F, 0xBB, 0xB9, 0x33, 0x3E,
    ]
}

/// Returns the logo block.
pub fn logo_bytes() -> (r: Vec<u8>)
    ensures
        r@ == logo(),
{
    let r = vec![
        0xCEu8, 0xED, 0x66, 0x66, 0xCC, 0x0D, 0x00, 0x0B, 0x03, 0x73, 0x00, 0x83, 0x00, 0x0C, 0x00, 0x0D,
        0x00, 0x08, 0x11, 0x1F, 0x88, 0x89, 0x00, 0x0E, 0xDC, 0xCC, 0x6E, 0xE6, 0xDD, 0xDD, 0xD9, 0x99,
        0xBB, 0xBB, 0x67, 0x63, 0x6E, 0x0E, 0xEC, 0xCC, 0xDD, 0xDC, 0x99, 0x9F, 0xBB, 0xB9, 0x33, 0x3E,
    ];
    assert(r@ =~= logo());
    r
}

/// The sum of the first `n` bytes, skipping the two global checksum bytes.
pub open spec fn checksum_sum(rom: Seq<u8>, n: nat) -> int
    decreases n,
{
    if n == 0 {
        0
    } else if n - 1 == 0x14E || n - 1 == 0x14F {
        checksum_sum(rom, (n - 1) as nat)
    } else {
        checksum_sum(rom, (n - 1) as nat) + rom[n - 1]
    }
}

/// The sum of the header bytes 0x134 up to `end` (exclusive).
pub open spec fn header_sum(rom: Seq<u8>, end: nat) -> int
    decreases end,
{
    if end <= 0x134 {
        0
    } else {
        header_sum(rom, (end - 1) as nat) + rom[end - 1]
    }
}

/// The global checksum: every byte but the two checksum bytes, mod 2^16.
pub open spec fn global_checksum(rom: Seq<u8>) -> u16 {
    (checksum_sum(rom, rom.len()) % 0x10000) as u16
}

/// The header checksum: minus the sum of 0x134..0x14D, minus 25, mod 256.
pub open spec fn header_checksum(rom: Seq<u8>) -> u8 {
    ((0x10000 * 256 - header_sum(rom, 0x14D) - 25) % 256) as u8
}

/// The title bytes at 0x134..=0x142 are zero-padded: no nonzero byte after a zero.
pub open spec fn title_padded(rom: Seq<u8>) -> bool {
    forall|i: int, j: int| 0x134 <= i < j <= 0x142 && rom[i] == 0 ==> rom[j] == 0
}

/// The title: the nonzero bytes of the title field.
pub open spec fn title_of(rom: Seq<u8>) -> Seq<u8> {
    rom.subrange(0x134, 0x143).filter(|b: u8| b != 0)
}

/// The outcome of header validation, failures in the order they are checked.
pub open spec fn header_error(rom: Seq<u8>) -> Option<GameBoyError> {
    if rom.len() < 0x150 {
        Some(GameBoyError::InvalidHeader)
    } else if global_checksum(rom) != rom[0x14E] * 256 + rom[0x14F] {
        Some(GameBoyError::InvalidChecksum)
    } else if header_checksum(rom) != rom[0x14D] {
        Some(GameBoyError::InvalidComplementChecksum)
    } else if rom.subrange(0x104, 0x134) != logo() {
        Some(GameBoyError::InvalidHeader)
    } else if !title_padded(rom) {
        Some(GameBoyError::InvalidHeader)
    } else if CartridgeType::of_byte(rom[0x147]) is None {
        Some(GameBoyError::UnsupportedCartridgeType)
    } else {
        None
    }
}

/// The fields of a validated cartridge header.
#[derive(Debug)]
pub struct CartridgeHeader {
    pub title: Vec<u8>,
    pub licensee: Licensee,
    pub cartridge_type: CartridgeType,
    pub is_color: bool,
    pub sgb_indicator: bool,
}

impl CartridgeHeader {
    /// Validates a cartridge image and reads its header.
    #[verifier::loop_isolation(false)]
    pub fn new(rom: &Vec<u8>) -> (r: Result<CartridgeHeader, GameBoyError>)
        ensures
            header_error(rom@) matches Some(e) ==> r == Err::<CartridgeHeader, GameBoyError>(e),
            header_error(rom@) is None ==> (r matches Ok(h) && {
                &&& h.title@ == title_of(rom@)
                &&& Some(h.cartridge_type) == CartridgeType::of_byte(rom@[0x147])
                &&& h.is_color == (rom@[0x143] == 1)
                &&& h.sgb_indicator == (rom@[0x146] == 3)
                &&& h.licensee == if rom@[0x14B] == 0x33 {
                    Licensee::New((rom@[0x144] * 256 + rom@[0x145]) as u16)
                } else {
                    Licensee::Code(rom@[0x14B])
                }
            }),
    {
        if rom.len() < 0x150 {
            return Err(GameBoyError::InvalidHeader);
        }
        let mut sum: u16 = 0;
        let mut i: usize = 0;
        while i < rom.len()
            invariant
                i <= rom@.len(),
                rom@.len() >= 0x150,
                sum == checksum_sum(rom@, i as nat) % 0x10000,
            decreases rom@.len() - i,
        {
            if i != 0x14E && i != 0x14F {
                sum = sum.wrapping_add(rom[i] as u16);
            }
            proof {
                vstd::arithmetic::div_mod::lemma_add_mod_noop(checksum_sum(rom@, i as nat), rom@[i as int] as int, 0x10000);
                vstd::arithmetic::div_mod::lemma_small_mod(rom@[i as int] as nat, 0x10000);
            }
            i = i + 1;
        }
        if sum != rom[0x14E] as u16 * 256 + rom[0x14F] as u16 {
            return Err(GameBoyError::InvalidChecksum);
        }
        let mut check: u8 = 0;
        let mut j: usize = 0x134;
        while j < 0x14D
            invariant
                0x134 <= j <= 0x14D,
                rom@.len() >= 0x150,
                check == (0x10000 * 256 - header_sum(rom@, j as nat) - (j - 0x134)) % 256,
            decreases 0x14D - j,
        {
            check = check.wrapping_sub(rom[j]).wrapping_sub(1);
            proof {
                let hs = header_sum(rom@, j as nat);
                let b = rom@[j as int] as int;
                assert(header_sum(rom@, (j + 1) as nat) == hs + b);
                assert(0 <= hs <= (j - 0x134) * 255) by {
                    lemma_header_sum_bounds(rom@, j as nat);
                }
                let big = 0x10000 * 256 - hs - (j - 0x134);
                assert(((big % 256 - b + 256) % 256 - 1 + 256) % 256 == (big - b - 1) % 256) by (nonlinear_arith)
                    requires
                        big > 0,
                        0 <= b < 256,
                ;
            }
            j = j + 1;
        }
        if check != rom[0x14D] {
            return Err(GameBoyError::InvalidComplementChecksum);
        }
        let logo_expected = logo_bytes();
        let mut k: usize = 0;
        while k < 48
            invariant
                k <= 48,
                rom@.len() >= 0x150,
                logo_expected@ == logo(),
                forall|m: int| 0 <= m < k ==> rom@[0x104 + m] == logo()[m],
            decreases 48 - k,
        {
            if rom[0x104 + k] != logo_expected[k] {
                proof {
                    assert(rom@.subrange(0x104, 0x134)[k as int] == rom@[0x104 + k]);
                    assert(rom@.subrange(0x104, 0x134)[k as int] != logo()[k as int]);
                    assert(rom@.subrange(0x104, 0x134) != logo());
                }
                return Err(GameBoyError::InvalidHeader);
            }
            k = k + 1;
        }
        assert(rom@.subrange(0x104, 0x134) =~= logo());
        let mut title: Vec<u8> = Vec::new();
        let mut saw_zero = false;
        let mut t: usize = 0x134;
        while t <= 0x142
            invariant
                0x134 <= t <= 0x143,
                rom@.len() >= 0x150,
                saw_zero == exists|i: int| 0x134 <= i < t && rom@[i] == 0,
                forall|i: int, j2: int| 0x134 <= i < j2 < t && rom@[i] == 0 ==> rom@[j2] == 0,
                title@ == rom@.subrange(0x134, t as int).filter(|b: u8| b != 0),
            decreases 0x143 - t,
        {
            let byte = rom[t];
            let ghost prefix = rom@.subrange(0x134, t as int);
            assert(rom@.subrange(0x134, t + 1) =~= prefix.push(byte));
            proof {
                prefix.lemma_filter_push(byte, |b: u8| b != 0);
            }
            if byte != 0 {
                if saw_zero {
                    proof {
                        let i = choose|i: int| 0x134 <= i < t && rom@[i] == 0;
                        assert(rom@[i] == 0 && rom@[t as int] != 0);
                        assert(!title_padded(rom@));
                    }
                    return Err(GameBoyError::InvalidHeader);
                }
                title.push(byte);
            } else {
                saw_zero = true;
            }
            t = t + 1;
        }
        let cartridge_type = match CartridgeType::from_byte(rom[0x147]) {
            Some(c) => c,
            None => {
                return Err(GameBoyError::UnsupportedCartridgeType);
            },
        };
        let licensee = if rom[0x14B] == 0x33 {
            Licensee::New(rom[0x144] as u16 * 256 + rom[0x145] as u16)
        } else {
            Licensee::Code(rom[0x14B])
        };
        Ok(CartridgeHeader {
            title,
            is_color: rom[0x143] == 1,
            licensee,
            sgb_indicator: rom[0x146] == 3,
            cartridge_type,
        })
    }
}

/// The header sum up to `end` is at most 255 per byte.
pub proof fn lemma_header_sum_bounds(rom: Seq<u8>, end: nat)
    requires
        end <= rom.len(),
    ensures
        0 <= header_sum(rom, end),
        end >= 0x134 ==> header_sum(rom, end) <= (end - 0x134) * 255,
        end < 0x134 ==> header_sum(rom, end) == 0,
    decreases end,
{
    if end > 0x134 {
        lemma_header_sum_bounds(rom, (end - 1) as nat);
    }
}

} // verus!
