use crate::error::CrsfParsingError;
use crate::packets::CrsfPacket;
use crate::packets::PacketType;
use crate::text::{bytes_as_str, first_null, lemma_first_null};
use crate::wire::{u32_byte, u32_from_be, u32_of_be, u32_to_be};
use vstd::prelude::*;
use vstd::string::StringSliceAdditionalSpecFns;
use vstd::utf8::encode_utf8;
use vstd::utf8::valid_utf8;

verus! {

/// A device's answer to a ping: its name as a null-terminated string of
/// at most forty-three bytes, followed by its identifiers.
#[derive(Clone, Debug, PartialEq)]
pub struct DeviceInformation {
    pub dst_addr: u8,
    pub src_addr: u8,
    pub device_name: String,
    pub serial_number: u32,
    pub hardware_id: u32,
    pub firmware_id: u32,
    pub parameters_total: u8,
    pub parameter_version_number: u8,
}

impl DeviceInformation {
    pub const MIN_PAYLOAD_SIZE: usize = 17;
}

impl CrsfPacket for DeviceInformation {
    open spec fn spec_packet_type() -> PacketType {
        PacketType::DeviceInfo
    }

    open spec fn spec_min_payload_size() -> usize {
        17
    }

    open spec fn spec_to_bytes(self) -> Seq<u8> {
        seq![self.dst_addr, self.src_addr] + encode_utf8(self.device_name@) + seq![0u8] + seq![
            u32_byte(self.serial_number, 0),
            u32_byte(self.serial_number, 1),
            u32_byte(self.serial_number, 2),
            u32_byte(self.serial_number, 3),
            u32_byte(self.hardware_id, 0),
            u32_byte(self.hardware_id, 1),
            u32_byte(self.hardware_id, 2),
            u32_byte(self.hardware_id, 3),
            u32_byte(self.firmware_id, 0),
            u32_byte(self.firmware_id, 1),
            u32_byte(self.firmware_id, 2),
            u32_byte(self.firmware_id, 3),
            self.parameters_total,
            self.parameter_version_number,
        ]
    }

    open spec fn from_bytes_post(data: Seq<u8>, r: Result<Self, CrsfParsingError>) -> bool {
        if data.len() < 17 {
            r == Err::<Self, CrsfParsingError>(CrsfParsingError::InvalidPayloadLength)
        } else {
            let payload = data.skip(2);
            let null_pos = first_null(payload);
            let text = payload.subrange(0, null_pos);
            if null_pos == payload.len() {
                r == Err::<Self, CrsfParsingError>(CrsfParsingError::InvalidPayload)
            } else if !valid_utf8(text) {
                r == Err::<Self, CrsfParsingError>(CrsfParsingError::InvalidPayload)
            } else if text.len() > 43 {
                r == Err::<Self, CrsfParsingError>(CrsfParsingError::InvalidPayloadLength)
            } else if payload.len() < null_pos + 1 + 14 {
                r == Err::<Self, CrsfParsingError>(CrsfParsingError::InvalidPayloadLength)
            } else {
                let rest = payload.skip(null_pos + 1);
                &&& r matches Ok(p)
                &&& p.dst_addr == data[0]
                &&& p.src_addr == data[1]
                &&& encode_utf8(p.device_name@) == text
                &&& p.serial_number == u32_of_be(rest[0], rest[1], rest[2], rest[3])
                &&& p.hardware_id == u32_of_be(rest[4], rest[5], rest[6], rest[7])
                &&& p.firmware_id == u32_of_be(rest[8], rest[9], rest[10], rest[11])
                &&& p.parameters_total == rest[12]
                &&& p.parameter_version_number == rest[13]
            }
        }
    }

    fn packet_type() -> (t: PacketType) {
        PacketType::DeviceInfo
    }

    fn min_payload_size() -> (n: usize) {
        17
    }

    #[verifier::rlimit(50)]
    fn to_bytes(&self, buffer: &mut [u8]) -> (r: Result<usize, CrsfParsingError>) {
        let name_bytes = self.device_name.as_str().as_bytes();
        let name_len = name_bytes.len();
        let buf_len = buffer.len();
        if buf_len < 17 || buf_len - 17 < name_len {
            return Err(CrsfParsingError::BufferOverflow);
        }
        buffer[0] = self.dst_addr;
        buffer[1] = self.src_addr;
        let mut i: usize = 0;
        while i < name_len
            invariant
                0 <= i <= name_len,
                name_len == name_bytes@.len(),
                name_bytes@ == encode_utf8(self.device_name@),
                buffer@.len() == old(buffer)@.len(),
                buffer@.len() == buf_len,
                name_len + 17 <= buf_len,
                buffer@[0] == self.dst_addr,
                buffer@[1] == self.src_addr,
                forall|m: int| 0 <= m < i ==> buffer@[2 + m] == name_bytes@[m],
                forall|m: int| 2 + i <= m < buffer@.len() ==> buffer@[m] == old(buffer)@[m],
            decreases name_len - i,
        {
            buffer[2 + i] = name_bytes[i];
            i += 1;
        }
        let base = 2 + name_len;
        buffer[base] = 0;
        let (s0, s1, s2, s3) = u32_to_be(self.serial_number);
        let (h0, h1, h2, h3) = u32_to_be(self.hardware_id);
        let (f0, f1, f2, f3) = u32_to_be(self.firmware_id);
        buffer[base + 1] = s0;
        buffer[base + 2] = s1;
        buffer[base + 3] = s2;
        buffer[base + 4] = s3;
        buffer[base + 5] = h0;
        buffer[base + 6] = h1;
        buffer[base + 7] = h2;
        buffer[base + 8] = h3;
        buffer[base + 9] = f0;
        buffer[base + 10] = f1;
        buffer[base + 11] = f2;
        buffer[base + 12] = f3;
        buffer[base + 13] = self.parameters_total;
        buffer[base + 14] = self.parameter_version_number;
        proof {
            assert(buffer@ =~= self.spec_to_bytes() + old(buffer)@.skip(name_len + 17));
        }
        Ok(name_len + 17)
    }

    fn from_bytes(data: &[u8]) -> (r: Result<Self, CrsfParsingError>) {
        let dlen = data.len();
        if dlen < 17 {
            return Err(CrsfParsingError::InvalidPayloadLength);
        }
        let payload = vstd::slice::slice_subrange(data, 2, dlen);
        let plen = dlen - 2;
        let mut i: usize = 0;
        while i < plen && payload[i] != 0
            invariant
                0 <= i <= plen,
                plen == payload@.len(),
                forall|m: int| 0 <= m < i ==> payload@[m] != 0,
            decreases plen - i,
        {
            i += 1;
        }
        proof {
            lemma_first_null(payload@, i as int);
        }
        if i == plen {
            return Err(CrsfParsingError::InvalidPayload);
        }
        let text = vstd::slice::slice_subrange(payload, 0, i);
        let s = match bytes_as_str(text) {
            None => {
                return Err(CrsfParsingError::InvalidPayload);
            },
            Some(s) => s,
        };
        if i > 43 {
            return Err(CrsfParsingError::InvalidPayloadLength);
        }
        if plen - (i + 1) < 14 {
            return Err(CrsfParsingError::InvalidPayloadLength);
        }
        let rest = vstd::slice::slice_subrange(payload, i + 1, plen);
        proof {
            assert(rest@ =~= payload@.skip(i + 1));
        }
        Ok(
            Self {
                dst_addr: data[0],
                src_addr: data[1],
                device_name: s.to_owned(),
                serial_number: u32_from_be(rest[0], rest[1], rest[2], rest[3]),
                hardware_id: u32_from_be(rest[4], rest[5], rest[6], rest[7]),
                firmware_id: u32_from_be(rest[8], rest[9], rest[10], rest[11]),
                parameters_total: rest[12],
                parameter_version_number: rest[13],
            },
        )
    }
}

} // verus!
