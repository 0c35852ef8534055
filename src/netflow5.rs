//! NetFlow v5 wire structures: the 24-octet header and the 48-octet flow record.
use vstd::prelude::*;
use crate::bytes::{lemma_u16_at, lemma_u32_at, read_u16, read_u32, u16_at, u32_at};
use crate::error::DecodeError;

verus! {

pub const VERSION: u16 = 5;

/// Export header of a NetFlow v5 datagram.
#[derive(Clone, Copy, Debug, PartialEq, Eq, Structural)]
pub struct Header {
    /// NetFlow export format version number.
    pub version: u16,
    /// Number of flows exported in this datagram (1-30).
    pub count: u16,
    /// Milliseconds since the export device booted.
    pub uptime: u32,
    /// Seconds since 0000 UTC 1970.
    pub unix_secs: u32,
    /// Residual nanoseconds since 0000 UTC 1970.
    pub unix_nsecs: u32,
    /// Sequence counter of total flows seen.
    pub seq_number: u32,
    /// Type of flow-switching engine.
    pub engine_type: u8,
    /// Slot number of the flow-switching engine.
    pub engine_id: u8,
    /// Sampling word: the first two bits hold the mode, the other 14 the interval.
    pub sampl: u16,
}

/// The header that the first 24 octets of `s` hold.
pub open spec fn header_of(s: Seq<u8>) -> Header {
    Header {
        version: u16_at(s, 0),
        count: u16_at(s, 2),
        uptime: u32_at(s, 4),
        unix_secs: u32_at(s, 8),
        unix_nsecs: u32_at(s, 12),
        seq_number: u32_at(s, 16),
        engine_type: s[20],
        engine_id: s[21],
        sampl: u16_at(s, 22),
    }
}

impl Header {
    pub const SIZE: usize = 24;

    pub fn read(buf: &[u8]) -> (r: Result<Header, DecodeError>)
        ensures
            buf@.len() < 24 ==> r == Err::<Header, DecodeError>(
                DecodeError::ShortBuffer { required: 24, received: buf@.len() as usize },
            ),
            buf@.len() >= 24 ==> r == Ok::<Header, DecodeError>(header_of(buf@)),
    {
        if buf.len() < Self::SIZE {
            return Err(DecodeError::ShortBuffer { required: Self::SIZE, received: buf.len() });
        }
        proof {
            lemma_u16_at(buf@, 0);
            lemma_u16_at(buf@, 2);
            lemma_u16_at(buf@, 22);
            lemma_u32_at(buf@, 4);
            lemma_u32_at(buf@, 8);
            lemma_u32_at(buf@, 12);
            lemma_u32_at(buf@, 16);
        }
        Ok(Header {
            version: read_u16(buf, 0),
            count: read_u16(buf, 2),
            uptime: read_u32(buf, 4),
            unix_secs: read_u32(buf, 8),
            unix_nsecs: read_u32(buf, 12),
            seq_number: read_u32(buf, 16),
            engine_type: buf[20],
            engine_id: buf[21],
            sampl: read_u16(buf, 22),
        })
    }

    /// Sampling mode: the two high bits of the sampling word.
    pub fn sampl_mode(&self) -> (r: u16)
        ensures
            r == self.sampl / 16384,
    {
        let w = self.sampl;
        assert(w >> 14 == w / 16384) by (bit_vector);
        w >> 14
    }

    /// Sampling interval: the 14 low bits of the sampling word.
    pub fn sampl_interval(&self) -> (r: u16)
        ensures
            r == self.sampl % 16384,
    {
        let w = self.sampl;
        assert(w & 0x3fff == w % 16384) by (bit_vector);
        w & 0x3fff
    }
}

/// One NetFlow v5 flow record.
#[derive(Clone, Copy, Debug, PartialEq, Eq, Structural)]
pub struct DataSet {
    /// Source IPv4 address.
    pub src_addr: u32,
    /// Destination IPv4 address.
    pub dst_addr: u32,
    /// IPv4 address of the next hop router.
    pub next_hop: u32,
    /// SNMP index of the input interface.
    pub input_int: u16,
    /// SNMP index of the output interface.
    pub output_int: u16,
    /// Packets in the flow.
    pub packets: u32,
    /// Layer 3 octets in the packets of the flow.
    pub octets: u32,
    /// Uptime at the start of the flow, in milliseconds.
    pub start_time: u32,
    /// Uptime when the last packet of the flow was received, in milliseconds.
    pub end_time: u32,
    /// TCP/UDP source port number or equivalent.
    pub src_port: u16,
    /// TCP/UDP destination port number or equivalent.
    pub dst_port: u16,
    /// Unused (zero) octet.
    pub pad1: u8,
    /// Cumulative OR of the TCP flags.
    pub tcp_flag: u8,
    /// IP protocol type (TCP = 6, UDP = 17, ...).
    pub protocol: u8,
    /// IP type of service.
    pub tos: u8,
    /// Autonomous system number of the source.
    pub src_as: u16,
    /// Autonomous system number of the destination.
    pub dst_as: u16,
    /// Source address prefix mask bits.
    pub src_mask: u8,
    /// Destination address prefix mask bits.
    pub dst_mask: u8,
    /// Unused (zero) octets.
    pub pad2: u16,
}

/// The flow record that the first 48 octets of `s` hold.
pub open spec fn record_of(s: Seq<u8>) -> DataSet {
    DataSet {
        src_addr: u32_at(s, 0),
        dst_addr: u32_at(s, 4),
        next_hop: u32_at(s, 8),
        input_int: u16_at(s, 12),
        output_int: u16_at(s, 14),
        packets: u32_at(s, 16),
        octets: u32_at(s, 20),
        start_time: u32_at(s, 24),
        end_time: u32_at(s, 28),
        src_port: u16_at(s, 32),
        dst_port: u16_at(s, 34),
        pad1: s[36],
        tcp_flag: s[37],
        protocol: s[38],
        tos: s[39],
        src_as: u16_at(s, 40),
        dst_as: u16_at(s, 42),
        src_mask: s[44],
        dst_mask: s[45],
        pad2: u16_at(s, 46),
    }
}

/// `d` with its octet and packet counts multiplied by `s` (modulo 2^32), unless `s` is zero.
pub open spec fn sampled(d: DataSet, s: u32) -> DataSet {
    if s > 0 {
        DataSet { octets: d.octets.wrapping_mul(s), packets: d.packets.wrapping_mul(s), ..d }
    } else {
        d
    }
}

impl DataSet {
    pub const SIZE: usize = 48;

    pub fn read(buf: &[u8]) -> (r: Result<DataSet, DecodeError>)
        ensures
            buf@.len() < 48 ==> r == Err::<DataSet, DecodeError>(
                DecodeError::ShortBuffer { required: 48, received: buf@.len() as usize },
            ),
            buf@.len() >= 48 ==> r == Ok::<DataSet, DecodeError>(record_of(buf@)),
    {
        if buf.len() < Self::SIZE {
            return Err(DecodeError::ShortBuffer { required: Self::SIZE, received: buf.len() });
        }
        proof {
            lemma_u16_at(buf@, 12);
            lemma_u16_at(buf@, 14);
            lemma_u16_at(buf@, 32);
            lemma_u16_at(buf@, 34);
            lemma_u16_at(buf@, 40);
            lemma_u16_at(buf@, 42);
            lemma_u16_at(buf@, 46);
            lemma_u32_at(buf@, 0);
            lemma_u32_at(buf@, 4);
            lemma_u32_at(buf@, 8);
            lemma_u32_at(buf@, 16);
            lemma_u32_at(buf@, 20);
            lemma_u32_at(buf@, 24);
            lemma_u32_at(buf@, 28);
        }
        Ok(DataSet {
            src_addr: read_u32(buf, 0),
            dst_addr: read_u32(buf, 4),
            next_hop: read_u32(buf, 8),
            input_int: read_u16(buf, 12),
            output_int: read_u16(buf, 14),
            packets: read_u32(buf, 16),
            octets: read_u32(buf, 20),
            start_time: read_u32(buf, 24),
            end_time: read_u32(buf, 28),
            src_port: read_u16(buf, 32),
            dst_port: read_u16(buf, 34),
            pad1: buf[36],
            tcp_flag: buf[37],
            protocol: buf[38],
            tos: buf[39],
            src_as: read_u16(buf, 40),
            dst_as: read_u16(buf, 42),
            src_mask: buf[44],
            dst_mask: buf[45],
            pad2: read_u16(buf, 46),
        })
    }

    /// Duration of the flow in milliseconds (modulo 2^32, so that an uptime that
    /// wrapped around still gives the elapsed time).
    pub fn duration(&self) -> (r: u32)
        ensures
            r == self.end_time.wrapping_sub(self.start_time),
    {
        self.end_time.wrapping_sub(self.start_time)
    }

    /// Sampling correction: multiplies the octet and packet counts by `sampling`,
    /// unless it is zero.
    pub fn add_sampling(&mut self, sampling: u32)
        ensures
            *final(self) == sampled(*old(self), sampling),
    {
        if sampling > 0 {
            self.octets = self.octets.wrapping_mul(sampling);
            self.packets = self.packets.wrapping_mul(sampling);
        }
    }
}

} // verus!
