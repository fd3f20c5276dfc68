use vstd::prelude::*;

verus! {

/// The CRC-8/DVB-S2 digest of a byte sequence: the checksum that guards
/// every frame on the wire, over its type byte and payload.
pub uninterp spec fn crc8_dvb_s2_of(data: Seq<u8>) -> u8;

/// The digest of the 8-bit checksum with polynomial 0xBA that guards the
/// body of a direct-command payload, inside the outer frame checksum.
pub uninterp spec fn crc8_command_of(data: Seq<u8>) -> u8;

/// Relies on crc::Crc::<u8>::checksum with the catalog's CRC_8_DVB_S2
/// algorithm: the digest is a function of the digested bytes alone.
#[verifier::external_body]
pub(crate) fn crc8_dvb_s2(data: &[u8], start: usize, end: usize) -> (r: u8)
    requires
        start <= end <= data@.len(),
    ensures
        r == crc8_dvb_s2_of(data@.subrange(start as int, end as int)),
{
    crc::Crc::<u8>::new(&crc::CRC_8_DVB_S2).checksum(&data[start..end])
}

/// Relies on crc::Crc::<u8>::checksum with an 8-bit width-8 algorithm of
/// polynomial 0xBA, zero init, no reflection and zero xorout: the digest
/// is a function of the digested bytes alone. The leading byte is fed to
/// the digest before the slice range.
#[verifier::external_body]
pub(crate) fn crc8_command(first: u8, data: &[u8], start: usize, end: usize) -> (r: u8)
    requires
        start <= end <= data@.len(),
    ensures
        r == crc8_command_of(seq![first] + data@.subrange(start as int, end as int)),
{
    let c = crc::Crc::<u8>::new(&crc::Algorithm {
        width: 8,
        poly: 0xBA,
        init: 0x00,
        refin: false,
        refout: false,
        xorout: 0x00,
        check: 0x00,
        residue: 0x00,
    });
    let mut digest = c.digest();
    digest.update(&[first]);
    digest.update(&data[start..end]);
    digest.finalize()
}

} // verus!
