//! The prefix that the one-time passwords of a token share, derived from its
//! serial number.
use vstd::prelude::*;

verus! {

/// The sixteen symbols of the modhex alphabet, in the order of the values that
/// they stand for.
pub const MODHEX: [char; 16] = [
    'c',
    'b',
    'd',
    'e',
    'f',
    'g',
    'h',
    'i',
    'j',
    'k',
    'l',
    'n',
    'r',
    't',
    'u',
    'v',
];

/// The four bits of a serial number at the given place, counted from the
/// most significant group, which has place zero.
pub open spec fn serial_nibble(serial: u32, place: int) -> u32
    recommends
        0 <= place < 8,
{
    (serial >> ((4 * (7 - place)) as u32)) & 0x0f
}

/// The symbol at the given place of the prefix: four times the symbol of
/// zero, then the eight groups of four bits of the serial number.
pub open spec fn prefix_symbol(serial: u32, place: int) -> char
    recommends
        0 <= place < 12,
{
    if place < 4 {
        MODHEX@[0]
    } else {
        MODHEX@[serial_nibble(serial, place - 4) as int]
    }
}

/// The twelve symbols of the prefix of a serial number.
pub open spec fn spec_otp_serial_prefix(serial: u32) -> Seq<char> {
    Seq::new(12, |place: int| prefix_symbol(serial, place))
}

/// The prefix of the one-time passwords of the token with this serial number:
/// the serial number in modhex, most significant symbol first, after four
/// symbols of zero.
pub fn otp_serial_prefix(serial: u32) -> (prefix: String)
    ensures
        prefix@ == spec_otp_serial_prefix(serial),
        prefix@.len() == 12,
{
    let mut prefix = String::new();
    let mut place: usize = 0;
    while place < 12
        invariant
            0 <= place <= 12,
            prefix@ == spec_otp_serial_prefix(serial).take(place as int),
        decreases 12 - place,
    {
        let symbol = if place < 4 {
            MODHEX[0]
        } else {
            let shift: u32 = 4 * (11 - place as u32);
            let nibble: u32 = (serial >> shift) & 0x0f;
            assert(nibble < 16) by (bit_vector)
                requires
                    nibble == (serial >> shift) & 0x0f,
            ;
            MODHEX[nibble as usize]
        };
        assert(symbol == prefix_symbol(serial, place as int));
        prefix.push(symbol);
        assert(prefix@ =~= spec_otp_serial_prefix(serial).take(place + 1));
        place += 1;
    }
    assert(prefix@ =~= spec_otp_serial_prefix(serial));
    prefix
}

} // verus!
