//! Little-endian game packets: a writer that appends fields to a byte buffer
//! and a reader that takes them back off, each field's encoding stated as a
//! sequence of bytes.
use vstd::prelude::*;
use vstd::string::StringSliceAdditionalSpecFns;

verus! {

/// Encoding of one byte.
pub open spec fn u8_le(v: u8) -> Seq<u8> {
    seq![v]
}

/// Little-endian encoding of a 16-bit value.
pub open spec fn u16_le(v: u16) -> Seq<u8> {
    seq![(v % 256) as u8, (v / 256) as u8]
}

/// Little-endian encoding of a 32-bit value.
pub open spec fn u32_le(v: u32) -> Seq<u8> {
    seq![
        (v % 256) as u8,
        ((v / 256) % 256) as u8,
        ((v / 65536) % 256) as u8,
        (v / 16777216) as u8,
    ]
}

/// Little-endian encoding of a 64-bit value: low word, then high word.
pub open spec fn u64_le(v: u64) -> Seq<u8> {
    u32_le((v % 0x1_0000_0000) as u32) + u32_le((v / 0x1_0000_0000) as u32)
}

/// Value of two little-endian bytes.
pub open spec fn le_u16_value(b0: u8, b1: u8) -> u16 {
    (b0 + 256 * b1) as u16
}

/// Value of four little-endian bytes.
pub open spec fn le_u32_value(b0: u8, b1: u8, b2: u8, b3: u8) -> u32 {
    (b0 + 256 * b1 + 65536 * b2 + 16777216 * b3) as u32
}

/// A string with a 16-bit length prefix (the length of its bytes, modulo 2^16).
pub open spec fn dbyte_string(bytes: Seq<u8>) -> Seq<u8> {
    u16_le((bytes.len() % 65536) as u16) + bytes
}

/// A string with an 8-bit length prefix (the length of its bytes, modulo 2^8).
pub open spec fn sbyte_string(bytes: Seq<u8>) -> Seq<u8> {
    seq![(bytes.len() % 256) as u8] + bytes
}

/// An outgoing or incoming packet: an opcode and its payload.
pub struct Packet {
    pub opcode: u8,
    pub data: Vec<u8>,
}

impl Packet {
    /// A packet with the given opcode and an empty payload.
    pub fn new(opcode: u8) -> (p: Packet)
        ensures
            p.opcode == opcode,
            p.data@ == Seq::<u8>::empty(),
    {
        Packet { opcode, data: Vec::new() }
    }

    /// Current write position: the length of the payload.
    pub fn wpos(&self) -> (n: usize)
        ensures
            n == self.data@.len(),
    {
        self.data.len()
    }

    /// Appends raw bytes.
    pub fn write_bytes(&mut self, bytes: &[u8])
        ensures
            final(self).opcode == old(self).opcode,
            final(self).data@ == old(self).data@ + bytes@,
    {
        let mut i: usize = 0;
        while i < bytes.len()
            invariant
                i <= bytes@.len(),
                self.opcode == old(self).opcode,
                self.data@ == old(self).data@ + bytes@.subrange(0, i as int),
            decreases bytes@.len() - i,
        {
            self.data.push(bytes[i]);
            i = i + 1;
            assert(self.data@ == old(self).data@ + bytes@.subrange(0, i as int));
        }
        assert(bytes@.subrange(0, bytes@.len() as int) == bytes@);
    }

    pub fn write_u8(&mut self, v: u8)
        ensures
            final(self).opcode == old(self).opcode,
            final(self).data@ == old(self).data@ + u8_le(v),
    {
        self.data.push(v);
    }

    pub fn write_i8(&mut self, v: i8)
        ensures
            final(self).opcode == old(self).opcode,
            final(self).data@ == old(self).data@ + u8_le(v as u8),
    {
        self.data.push(v as u8);
    }

    pub fn write_u16(&mut self, v: u16)
        ensures
            final(self).opcode == old(self).opcode,
            final(self).data@ == old(self).data@ + u16_le(v),
    {
        self.data.push((v % 256) as u8);
        self.data.push((v / 256) as u8);
    }

    pub fn write_i16(&mut self, v: i16)
        ensures
            final(self).opcode == old(self).opcode,
            final(self).data@ == old(self).data@ + u16_le(v as u16),
    {
        self.write_u16(v as u16);
    }

    pub fn write_u32(&mut self, v: u32)
        ensures
            final(self).opcode == old(self).opcode,
            final(self).data@ == old(self).data@ + u32_le(v),
    {
        self.data.push((v % 256) as u8);
        self.data.push(((v / 256) % 256) as u8);
        self.data.push(((v / 65536) % 256) as u8);
        self.data.push((v / 16777216) as u8);
    }

    pub fn write_i32(&mut self, v: i32)
        ensures
            final(self).opcode == old(self).opcode,
            final(self).data@ == old(self).data@ + u32_le(v as u32),
    {
        self.write_u32(v as u32);
    }

    pub fn write_u64(&mut self, v: u64)
        ensures
            final(self).opcode == old(self).opcode,
            final(self).data@ == old(self).data@ + u64_le(v),
    {
        self.write_u32((v % 0x1_0000_0000) as u32);
        self.write_u32((v / 0x1_0000_0000) as u32);
    }

    pub fn write_i64(&mut self, v: i64)
        ensures
            final(self).opcode == old(self).opcode,
            final(self).data@ == old(self).data@ + u64_le(v as u64),
    {
        self.write_u64(v as u64);
    }

    /// Appends a string with a 16-bit length prefix.
    pub fn write_string(&mut self, s: &str)
        ensures
            final(self).opcode == old(self).opcode,
            final(self).data@ == old(self).data@ + dbyte_string(s.spec_bytes()),
    {
        let bytes = s.as_bytes();
        self.write_u16((bytes.len() % 65536) as u16);
        self.write_bytes(bytes);
    }

    /// Appends a string with an 8-bit length prefix.
    pub fn write_sbyte_string(&mut self, s: &str)
        ensures
            final(self).opcode == old(self).opcode,
            final(self).data@ == old(self).data@ + sbyte_string(s.spec_bytes()),
    {
        let bytes = s.as_bytes();
        self.write_u8((bytes.len() % 256) as u8);
        self.write_bytes(bytes);
    }

    /// Overwrites the two bytes at `pos` with the little-endian encoding of `v`.
    pub fn put_u16_at(&mut self, pos: usize, v: u16)
        requires
            pos + 2 <= old(self).data@.len(),
        ensures
            final(self).opcode == old(self).opcode,
            final(self).data@ == old(self).data@.update(pos as int, (v % 256) as u8).update(
                pos + 1,
                (v / 256) as u8,
            ),
    {
        let n = self.data.len();
        assert(pos + 1 < n);
        self.data.set(pos, (v % 256) as u8);
        self.data.set(pos + 1, (v / 256) as u8);
    }
}

/// A cursor over a received payload.
pub struct PacketReader<'a> {
    pub data: &'a [u8],
    pub pos: usize,
}

impl<'a> PacketReader<'a> {
    /// A reader positioned at the start of `data`.
    pub fn new(data: &'a [u8]) -> (r: PacketReader<'a>)
        ensures
            r.data@ == data@,
            r.pos == 0,
    {
        PacketReader { data, pos: 0 }
    }

    /// Number of bytes not yet read.
    pub fn remaining(&self) -> (n: usize)
        ensures
            self.pos <= self.data@.len() ==> n == self.data@.len() - self.pos,
            self.pos > self.data@.len() ==> n == 0,
    {
        if self.pos <= self.data.len() {
            self.data.len() - self.pos
        } else {
            0
        }
    }

    /// Reads one byte; `None`, with the position unchanged, past the end.
    pub fn read_u8(&mut self) -> (r: Option<u8>)
        ensures
            final(self).data@ == old(self).data@,
            old(self).pos + 1 <= old(self).data@.len() ==> r == Some(
                old(self).data@[old(self).pos as int],
            ) && final(self).pos == old(self).pos + 1,
            old(self).pos + 1 > old(self).data@.len() ==> r is None && final(self).pos == old(
                self,
            ).pos,
    {
        if self.pos < self.data.len() {
            let b = self.data[self.pos];
            self.pos = self.pos + 1;
            Some(b)
        } else {
            None
        }
    }

    /// Reads a little-endian 16-bit value; `None`, with the position unchanged, past the end.
    pub fn read_u16(&mut self) -> (r: Option<u16>)
        ensures
            final(self).data@ == old(self).data@,
            old(self).pos + 2 <= old(self).data@.len() ==> r == Some(
                le_u16_value(
                    old(self).data@[old(self).pos as int],
                    old(self).data@[old(self).pos + 1],
                ),
            ) && final(self).pos == old(self).pos + 2,
            old(self).pos + 2 > old(self).data@.len() ==> r is None && final(self).pos == old(
                self,
            ).pos,
    {
        if self.pos < self.data.len() && self.data.len() - self.pos >= 2 {
            let b0 = self.data[self.pos] as u16;
            let b1 = self.data[self.pos + 1] as u16;
            self.pos = self.pos + 2;
            Some(b0 + 256 * b1)
        } else {
            None
        }
    }

    /// Reads a little-endian 32-bit value; `None`, with the position unchanged, past the end.
    pub fn read_u32(&mut self) -> (r: Option<u32>)
        ensures
            final(self).data@ == old(self).data@,
            old(self).pos + 4 <= old(self).data@.len() ==> r == Some(
                le_u32_value(
                    old(self).data@[old(self).pos as int],
                    old(self).data@[old(self).pos + 1],
                    old(self).data@[old(self).pos + 2],
                    old(self).data@[old(self).pos + 3],
                ),
            ) && final(self).pos == old(self).pos + 4,
            old(self).pos + 4 > old(self).data@.len() ==> r is None && final(self).pos == old(
                self,
            ).pos,
    {
        if self.pos < self.data.len() && self.data.len() - self.pos >= 4 {
            let b0 = self.data[self.pos] as u32;
            let b1 = self.data[self.pos + 1] as u32;
            let b2 = self.data[self.pos + 2] as u32;
            let b3 = self.data[self.pos + 3] as u32;
            self.pos = self.pos + 4;
            Some(b0 + 256 * b1 + 65536 * b2 + 16777216 * b3)
        } else {
            None
        }
    }

    /// Reads a little-endian 16-bit value as signed.
    pub fn read_i16(&mut self) -> (r: Option<i16>)
        ensures
            final(self).data@ == old(self).data@,
            old(self).pos + 2 <= old(self).data@.len() ==> r == Some(
                le_u16_value(
                    old(self).data@[old(self).pos as int],
                    old(self).data@[old(self).pos + 1],
                ) as i16,
            ) && final(self).pos == old(self).pos + 2,
            old(self).pos + 2 > old(self).data@.len() ==> r is None && final(self).pos == old(
                self,
            ).pos,
    {
        match self.read_u16() {
            Some(v) => Some(v as i16),
            None => None,
        }
    }

    /// Reads a little-endian 32-bit value as signed.
    pub fn read_i32(&mut self) -> (r: Option<i32>)
        ensures
            final(self).data@ == old(self).data@,
            old(self).pos + 4 <= old(self).data@.len() ==> r == Some(
                le_u32_value(
                    old(self).data@[old(self).pos as int],
                    old(self).data@[old(self).pos + 1],
                    old(self).data@[old(self).pos + 2],
                    old(self).data@[old(self).pos + 3],
                ) as i32,
            ) && final(self).pos == old(self).pos + 4,
            old(self).pos + 4 > old(self).data@.len() ==> r is None && final(self).pos == old(
                self,
            ).pos,
    {
        match self.read_u32() {
            Some(v) => Some(v as i32),
            None => None,
        }
    }
}

} // verus!
