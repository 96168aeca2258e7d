//! The device-communication packet format: a 12-byte little-endian head
//! (flag, data length, CRC-8, MCU id, serial numbers, message type) followed
//! by a 260-byte payload whose layout depends on the message type.

use vstd::prelude::*;
use vstd::slice::slice_subrange;

verus! {

/// Bytes in a packet head.
pub const HEAD_SIZE: usize = 12;
/// The CRC covers the packet from this offset (the MCU id) to the end of its data.
pub const CRC_OFFSET: usize = 5;
/// Bytes in the payload area.
pub const COM_PACKAGE_SIZE: usize = 260;
/// Bytes of a command payload before its data.
pub const CMD_HEADER_SIZE: u16 = 4;
/// Bytes of command data.
pub const CMD_DATA_SIZE: usize = 256;
/// Head flag as stored: the bytes `0xAA 0x55`.
pub const PACKAGE_HEAD_FLAG_STORED: u16 = 0x55AA;
/// Id of the sending MCU.
pub const MUC_ID: u8 = 0x01;
/// Command type of the immediate acknowledgement.
pub const QUICK_REPLY_CMD_TYPE: u16 = 0x6666;

// ---------------------------------------------------------------- CRC-8

/// One shift of the reflected CRC-8 (polynomial 0x8C).
pub open spec fn crc8_shift(c: u8) -> u8 {
    if c & 1 != 0 {
        ((c >> 1) ^ 0x8C) as u8
    } else {
        c >> 1
    }
}

/// `k` shifts.
pub open spec fn crc8_shifts(c: u8, k: nat) -> u8
    decreases k,
{
    if k == 0 {
        c
    } else {
        crc8_shifts(crc8_shift(c), (k - 1) as nat)
    }
}

/// CRC-8 of `data`, starting from 0: each byte is xored in, then eight shifts.
pub open spec fn crc8_of(data: Seq<u8>) -> u8
    decreases data.len(),
{
    if data.len() == 0 {
        0
    } else {
        crc8_shifts((crc8_of(data.drop_last()) ^ data.last()) as u8, 8)
    }
}

/// CRC-8 of a byte slice.
pub fn crc8(data: &[u8]) -> (r: u8)
    ensures
        r == crc8_of(data@),
{
    let mut crc: u8 = 0;
    let mut i: usize = 0;
    while i < data.len()
        invariant
            i <= data@.len(),
            crc == crc8_of(data@.subrange(0, i as int)),
        decreases data@.len() - i,
    {
        let ghost start = (crc ^ data@[i as int]) as u8;
        crc = crc ^ data[i];
        let mut k: usize = 0;
        while k < 8
            invariant
                k <= 8,
                crc8_shifts(start, 8) == crc8_shifts(crc, (8 - k) as nat),
            decreases 8 - k,
        {
            crc = if crc & 1 != 0 {
                (crc >> 1) ^ 0x8C
            } else {
                crc >> 1
            };
            k += 1;
        }
        assert(data@.subrange(0, i + 1).drop_last() =~= data@.subrange(0, i as int));
        i += 1;
    }
    assert(data@.subrange(0, data@.len() as int) =~= data@);
    crc
}

// ---------------------------------------------------------------- enums

/// Message types.
#[derive(Debug, Clone, Copy, PartialEq, Eq, Structural)]
pub enum McuComMsgType {
    Unknown,
    HeartBeat,
    HeartBeatRep,
    Manage,
    ManageResp,
    IpcData,
    IpcDataResp,
    OtaData,
    OtaDataResp,
    StateChangeHeartBeat,
    StateChangeHeartBeatRep,
    GpsData,
    GpsDataResp,
    Cmd,
    CmdResp,
}

/// The wire code of each message type (0 to 14, in declaration order).
pub open spec fn msg_type_code(t: McuComMsgType) -> u16 {
    match t {
        McuComMsgType::Unknown => 0,
        McuComMsgType::HeartBeat => 1,
        McuComMsgType::HeartBeatRep => 2,
        McuComMsgType::Manage => 3,
        McuComMsgType::ManageResp => 4,
        McuComMsgType::IpcData => 5,
        McuComMsgType::IpcDataResp => 6,
        McuComMsgType::OtaData => 7,
        McuComMsgType::OtaDataResp => 8,
        McuComMsgType::StateChangeHeartBeat => 9,
        McuComMsgType::StateChangeHeartBeatRep => 10,
        McuComMsgType::GpsData => 11,
        McuComMsgType::GpsDataResp => 12,
        McuComMsgType::Cmd => 13,
        McuComMsgType::CmdResp => 14,
    }
}

impl McuComMsgType {
    /// The wire code.
    pub fn code(self) -> (r: u16)
        ensures
            r == msg_type_code(self),
    {
        match self {
            McuComMsgType::Unknown => 0,
            McuComMsgType::HeartBeat => 1,
            McuComMsgType::HeartBeatRep => 2,
            McuComMsgType::Manage => 3,
            McuComMsgType::ManageResp => 4,
            McuComMsgType::IpcData => 5,
            McuComMsgType::IpcDataResp => 6,
            McuComMsgType::OtaData => 7,
            McuComMsgType::OtaDataResp => 8,
            McuComMsgType::StateChangeHeartBeat => 9,
            McuComMsgType::StateChangeHeartBeatRep => 10,
            McuComMsgType::GpsData => 11,
            McuComMsgType::GpsDataResp => 12,
            McuComMsgType::Cmd => 13,
            McuComMsgType::CmdResp => 14,
        }
    }

    /// The message type with this wire code, if any.
    pub fn from_code(c: u16) -> (r: Option<McuComMsgType>)
        ensures
            r is Some <==> c <= 14,
            r is Some ==> msg_type_code(r->0) == c,
    {
        match c {
            0 => Some(McuComMsgType::Unknown),
            1 => Some(McuComMsgType::HeartBeat),
            2 => Some(McuComMsgType::HeartBeatRep),
            3 => Some(McuComMsgType::Manage),
            4 => Some(McuComMsgType::ManageResp),
            5 => Some(McuComMsgType::IpcData),
            6 => Some(McuComMsgType::IpcDataResp),
            7 => Some(McuComMsgType::OtaData),
            8 => Some(McuComMsgType::OtaDataResp),
            9 => Some(McuComMsgType::StateChangeHeartBeat),
            10 => Some(McuComMsgType::StateChangeHeartBeatRep),
            11 => Some(McuComMsgType::GpsData),
            12 => Some(McuComMsgType::GpsDataResp),
            13 => Some(McuComMsgType::Cmd),
            14 => Some(McuComMsgType::CmdResp),
            _ => None,
        }
    }
}

/// Positions in a 3x3 grid of a coordinate command.
#[derive(Debug, Clone, Copy, PartialEq, Eq, Structural)]
pub enum Direction {
    Top,
    TopLeft,
    TopCenter,
    TopRight,
    MiddleLeft,
    Center,
    MiddleRight,
    BottomLeft,
    BottomCenter,
    BottomRight,
    EXTRA,
    CoordinateAll,
}

/// The wire code of each direction (0 to 11, in declaration order).
pub open spec fn direction_code(d: Direction) -> u8 {
    match d {
        Direction::Top => 0,
        Direction::TopLeft => 1,
        Direction::TopCenter => 2,
        Direction::TopRight => 3,
        Direction::MiddleLeft => 4,
        Direction::Center => 5,
        Direction::MiddleRight => 6,
        Direction::BottomLeft => 7,
        Direction::BottomCenter => 8,
        Direction::BottomRight => 9,
        Direction::EXTRA => 10,
        Direction::CoordinateAll => 11,
    }
}

impl Direction {
    /// The wire code.
    pub fn code(self) -> (r: u8)
        ensures
            r == direction_code(self),
    {
        match self {
            Direction::Top => 0,
            Direction::TopLeft => 1,
            Direction::TopCenter => 2,
            Direction::TopRight => 3,
            Direction::MiddleLeft => 4,
            Direction::Center => 5,
            Direction::MiddleRight => 6,
            Direction::BottomLeft => 7,
            Direction::BottomCenter => 8,
            Direction::BottomRight => 9,
            Direction::EXTRA => 10,
            Direction::CoordinateAll => 11,
        }
    }

    /// The direction with this wire code, if any.
    pub fn from_code(c: u8) -> (r: Option<Direction>)
        ensures
            r is Some <==> c <= 11,
            r is Some ==> direction_code(r->0) == c,
    {
        match c {
            0 => Some(Direction::Top),
            1 => Some(Direction::TopLeft),
            2 => Some(Direction::TopCenter),
            3 => Some(Direction::TopRight),
            4 => Some(Direction::MiddleLeft),
            5 => Some(Direction::Center),
            6 => Some(Direction::MiddleRight),
            7 => Some(Direction::BottomLeft),
            8 => Some(Direction::BottomCenter),
            9 => Some(Direction::BottomRight),
            10 => Some(Direction::EXTRA),
            11 => Some(Direction::CoordinateAll),
            _ => None,
        }
    }
}

// ---------------------------------------------------------------- layout

/// Packet head.
#[derive(Debug, Clone, Copy, PartialEq, Eq, Structural)]
pub struct McuComPackageHead {
    /// Start-of-packet flag.
    pub pack_head_flg: u16,
    /// Bytes of payload that count (and that the CRC covers).
    pub data_len: u16,
    /// CRC-8 of the packet from `mcu_id` to the end of the counted payload.
    pub crc: u8,
    /// Sending MCU.
    pub mcu_id: u8,
    /// Serial number of this packet.
    pub sn: u16,
    /// Serial number of the request answered.
    pub src_sn: u16,
    /// Message type code.
    pub msg_type: u16,
}

/// Command payload.
#[derive(Debug, Clone)]
pub struct CmdPackage {
    pub cmd_type: u16,
    pub cmd_data_len: u16,
    /// Always `CMD_DATA_SIZE` bytes.
    pub data: Vec<u8>,
}

/// Heartbeat payload (36 bytes).
#[derive(Debug, Clone, Copy, PartialEq, Eq, Structural)]
pub struct HeartbeatPackage {
    pub mcu_io_state: u32,
    pub mcu_adc_value: u16,
    pub mcu_lock_state: u16,
    pub mcu_gps_state: u8,
    pub mcu_gprs_state: u8,
    pub mcu_gprs_signal: u8,
    pub mcu_ble_state: u8,
    pub tf_size_total: u32,
    pub tf_size_free: u32,
    pub remain_file: u32,
    pub time_s: u32,
    pub time_zone: u8,
    pub local_record_status: u8,
    pub gb28181_status: u8,
    pub ai_status: u8,
    pub alarm_status: u8,
    pub system_status: u8,
    pub camera_status: u8,
    pub tf_status: u8,
}

/// Heartbeat-reply payload (40 bytes).
#[derive(Debug, Clone, Copy, PartialEq, Eq, Structural)]
pub struct HeartbeadReplyPackage {
    pub src_sn: u16,
    pub reserve: u16,
    pub heartbeat_package: HeartbeatPackage,
}

/// The payload, tagged by its layout.
#[derive(Debug, Clone)]
pub enum ComPackage {
    Cmd(CmdPackage),
    Heartbeat(HeartbeatPackage),
    HeartbeatReply(HeartbeadReplyPackage),
}

/// A whole packet.
#[derive(Debug, Clone)]
pub struct McuComPackage {
    pub head: McuComPackageHead,
    pub data: ComPackage,
}

/// Why a packet was refused.
#[derive(Debug, Clone, Copy, PartialEq, Eq, Structural)]
pub enum ParseErrorType {
    DataTooShort,
    HeadTypeConvError,
    MsgDataTooLong,
    CmdDataLenError,
    CrcVerifyError,
    NoneError,
}

/// Outcome of parsing received bytes.
#[derive(Debug)]
pub enum ParseResult {
    /// The packet is not complete yet.
    NeedMore,
    Success(McuComPackage),
    Error(ParseErrorType),
}

/// Outcome of parsing, without the packet.
#[derive(Debug, Clone, Copy, PartialEq, Eq, Structural)]
pub enum ParseVerdict {
    NeedMore,
    Accept,
    Reject(ParseErrorType),
}

/// Little-endian 16-bit value at `i`.
pub open spec fn le16(b: Seq<u8>, i: int) -> u16 {
    (b[i] + 256 * b[i + 1]) as u16
}

/// Little-endian 32-bit value at `i`.
pub open spec fn le32(b: Seq<u8>, i: int) -> u32 {
    (b[i] + 256 * b[i + 1] + 65536 * b[i + 2] + 16777216 * b[i + 3]) as u32
}

/// The head that the first 12 bytes of `b` encode.
pub open spec fn head_of(b: Seq<u8>) -> McuComPackageHead {
    McuComPackageHead {
        pack_head_flg: le16(b, 0),
        data_len: le16(b, 2),
        crc: b[4],
        mcu_id: b[5],
        sn: le16(b, 6),
        src_sn: le16(b, 8),
        msg_type: le16(b, 10),
    }
}

/// The payload area of received bytes: what follows the head, up to 260
/// bytes, with zeros where the bytes end.
pub open spec fn payload_of(data: Seq<u8>) -> Seq<u8> {
    Seq::new(
        COM_PACKAGE_SIZE as nat,
        |i: int|
            if HEAD_SIZE + i < data.len() {
                data[HEAD_SIZE + i]
            } else {
                0u8
            },
    )
}

/// `c` is the command payload that `p` encodes.
pub open spec fn cmd_matches(c: CmdPackage, p: Seq<u8>) -> bool {
    &&& c.cmd_type == le16(p, 0)
    &&& c.cmd_data_len == le16(p, 2)
    &&& c.data@ == p.subrange(4, COM_PACKAGE_SIZE as int)
}

/// The heartbeat that `p` encodes from offset `o`.
pub open spec fn heartbeat_of(p: Seq<u8>, o: int) -> HeartbeatPackage {
    HeartbeatPackage {
        mcu_io_state: le32(p, o),
        mcu_adc_value: le16(p, o + 4),
        mcu_lock_state: le16(p, o + 6),
        mcu_gps_state: p[o + 8],
        mcu_gprs_state: p[o + 9],
        mcu_gprs_signal: p[o + 10],
        mcu_ble_state: p[o + 11],
        tf_size_total: le32(p, o + 12),
        tf_size_free: le32(p, o + 16),
        remain_file: le32(p, o + 20),
        time_s: le32(p, o + 24),
        time_zone: p[o + 28],
        local_record_status: p[o + 29],
        gb28181_status: p[o + 30],
        ai_status: p[o + 31],
        alarm_status: p[o + 32],
        system_status: p[o + 33],
        camera_status: p[o + 34],
        tf_status: p[o + 35],
    }
}

/// The heartbeat reply that `p` encodes.
pub open spec fn reply_of(p: Seq<u8>) -> HeartbeadReplyPackage {
    HeartbeadReplyPackage { src_sn: le16(p, 0), reserve: le16(p, 2), heartbeat_package: heartbeat_of(p, 4) }
}

/// What parsing decides about received bytes.
pub open spec fn parse_verdict(data: Seq<u8>) -> ParseVerdict {
    if data.len() < HEAD_SIZE {
        ParseVerdict::NeedMore
    } else {
        let h = head_of(data);
        if data.len() < HEAD_SIZE + h.data_len {
            ParseVerdict::NeedMore
        } else if h.data_len > COM_PACKAGE_SIZE {
            ParseVerdict::Reject(ParseErrorType::CmdDataLenError)
        } else if crc8_of(data.subrange(CRC_OFFSET as int, HEAD_SIZE + h.data_len)) != h.crc {
            ParseVerdict::Reject(ParseErrorType::CrcVerifyError)
        } else if h.msg_type == 13 {
            if h.data_len < CMD_HEADER_SIZE || le16(payload_of(data), 2) != h.data_len - CMD_HEADER_SIZE {
                ParseVerdict::Reject(ParseErrorType::CmdDataLenError)
            } else {
                ParseVerdict::Accept
            }
        } else if h.msg_type == 1 || h.msg_type == 2 {
            ParseVerdict::Accept
        } else {
            ParseVerdict::Reject(ParseErrorType::HeadTypeConvError)
        }
    }
}

/// `p` is the packet that bytes `data` encode: the head, and the payload
/// area read as a heartbeat (type 1), a heartbeat reply (type 2), or else
/// as a command layout.
pub open spec fn package_of(p: McuComPackage, data: Seq<u8>) -> bool {
    let pl = payload_of(data);
    &&& p.head == head_of(data)
    &&& match p.data {
        ComPackage::Cmd(c) => p.head.msg_type != 1 && p.head.msg_type != 2 && cmd_matches(c, pl),
        ComPackage::Heartbeat(hb) => p.head.msg_type == 1 && hb == heartbeat_of(pl, 0),
        ComPackage::HeartbeatReply(r) => p.head.msg_type == 2 && r == reply_of(pl),
    }
}

fn rd16(b: &[u8], i: usize) -> (r: u16)
    requires
        i + 1 < b@.len(),
    ensures
        r == le16(b@, i as int),
{
    b[i] as u16 + (b[i + 1] as u16) * 256
}

fn rd32(b: &[u8], i: usize) -> (r: u32)
    requires
        i + 3 < b@.len(),
    ensures
        r == le32(b@, i as int),
{
    b[i] as u32 + (b[i + 1] as u32) * 256 + (b[i + 2] as u32) * 65536 + (b[i + 3] as u32) * 16777216
}

fn payload_bytes(data: &[u8]) -> (r: Vec<u8>)
    ensures
        r@ == payload_of(data@),
{
    let mut r: Vec<u8> = Vec::new();
    let mut i: usize = 0;
    while i < COM_PACKAGE_SIZE
        invariant
            i <= COM_PACKAGE_SIZE,
            r@ == payload_of(data@).subrange(0, i as int),
        decreases COM_PACKAGE_SIZE - i,
    {
        let b = if i < data.len() && HEAD_SIZE < data.len() - i {
            data[HEAD_SIZE + i]
        } else {
            0u8
        };
        r.push(b);
        assert(r@ =~= payload_of(data@).subrange(0, i + 1));
        i += 1;
    }
    assert(r@ =~= payload_of(data@));
    r
}

fn decode_heartbeat(p: &[u8], o: usize) -> (r: HeartbeatPackage)
    requires
        o <= 4,
        o + 36 <= p@.len(),
    ensures
        r == heartbeat_of(p@, o as int),
{
    HeartbeatPackage {
        mcu_io_state: rd32(p, o),
        mcu_adc_value: rd16(p, o + 4),
        mcu_lock_state: rd16(p, o + 6),
        mcu_gps_state: p[o + 8],
        mcu_gprs_state: p[o + 9],
        mcu_gprs_signal: p[o + 10],
        mcu_ble_state: p[o + 11],
        tf_size_total: rd32(p, o + 12),
        tf_size_free: rd32(p, o + 16),
        remain_file: rd32(p, o + 20),
        time_s: rd32(p, o + 24),
        time_zone: p[o + 28],
        local_record_status: p[o + 29],
        gb28181_status: p[o + 30],
        ai_status: p[o + 31],
        alarm_status: p[o + 32],
        system_status: p[o + 33],
        camera_status: p[o + 34],
        tf_status: p[o + 35],
    }
}

fn tail_bytes(p: &[u8], from: usize) -> (r: Vec<u8>)
    requires
        from <= p@.len(),
    ensures
        r@ == p@.subrange(from as int, p@.len() as int),
{
    let mut r: Vec<u8> = Vec::new();
    let mut i: usize = from;
    while i < p.len()
        invariant
            from <= i <= p@.len(),
            r@ == p@.subrange(from as int, i as int),
        decreases p@.len() - i,
    {
        r.push(p[i]);
        assert(r@ =~= p@.subrange(from as int, i + 1));
        i += 1;
    }
    r
}

/// Parses received bytes: `NeedMore` while the head or the counted payload
/// is incomplete; an error for an oversized length, a CRC mismatch, a
/// command whose own length disagrees with the head, or an unknown message
/// type; otherwise the decoded packet (command, heartbeat or heartbeat
/// reply, by message type).
pub fn parse_package_head(data: &[u8]) -> (r: ParseResult)
    ensures
        r is NeedMore <==> parse_verdict(data@) == ParseVerdict::NeedMore,
        r is Error ==> parse_verdict(data@) == ParseVerdict::Reject(r->Error_0),
        parse_verdict(data@) is Reject ==> r is Error,
        r is Success <==> parse_verdict(data@) == ParseVerdict::Accept,
        r is Success ==> package_of(r->Success_0, data@),
{
    if data.len() < HEAD_SIZE {
        return ParseResult::NeedMore;
    }
    let head = McuComPackageHead {
        pack_head_flg: rd16(data, 0),
        data_len: rd16(data, 2),
        crc: data[4],
        mcu_id: data[5],
        sn: rd16(data, 6),
        src_sn: rd16(data, 8),
        msg_type: rd16(data, 10),
    };
    let len = head.data_len as usize;
    if data.len() - HEAD_SIZE < len {
        return ParseResult::NeedMore;
    }
    if len > COM_PACKAGE_SIZE {
        return ParseResult::Error(ParseErrorType::CmdDataLenError);
    }
    let covered = slice_subrange(data, CRC_OFFSET, HEAD_SIZE + len);
    if crc8(covered) != head.crc {
        return ParseResult::Error(ParseErrorType::CrcVerifyError);
    }
    if head.msg_type == 13 {
        let pl = payload_bytes(data);
        let cmd_data_len = rd16(pl.as_slice(), 2);
        if head.data_len < CMD_HEADER_SIZE || cmd_data_len != head.data_len - CMD_HEADER_SIZE {
            return ParseResult::Error(ParseErrorType::CmdDataLenError);
        }
    } else if head.msg_type != 1 && head.msg_type != 2 {
        return ParseResult::Error(ParseErrorType::HeadTypeConvError);
    }
    match McuComPackage::bytes_to_struct(data) {
        Some(pack) => ParseResult::Success(pack),
        None => ParseResult::NeedMore,
    }
}

impl McuComPackage {
    /// Decodes the head and the payload area of `data` (zeros where the bytes
    /// end), without checking them; `None` when there is no whole head.
    pub fn bytes_to_struct(data: &[u8]) -> (r: Option<McuComPackage>)
        ensures
            r is Some <==> data@.len() >= HEAD_SIZE,
            r is Some ==> package_of(r->0, data@),
    {
        if data.len() < HEAD_SIZE {
            return None;
        }
        let head = McuComPackageHead {
            pack_head_flg: rd16(data, 0),
            data_len: rd16(data, 2),
            crc: data[4],
            mcu_id: data[5],
            sn: rd16(data, 6),
            src_sn: rd16(data, 8),
            msg_type: rd16(data, 10),
        };
        let pl = payload_bytes(data);
        let p = pl.as_slice();
        let payload = if head.msg_type == 1 {
            ComPackage::Heartbeat(decode_heartbeat(p, 0))
        } else if head.msg_type == 2 {
            ComPackage::HeartbeatReply(
                HeartbeadReplyPackage { src_sn: rd16(p, 0), reserve: rd16(p, 2), heartbeat_package: decode_heartbeat(p, 4) },
            )
        } else {
            ComPackage::Cmd(CmdPackage { cmd_type: rd16(p, 0), cmd_data_len: rd16(p, 2), data: tail_bytes(p, 4) })
        };
        Some(McuComPackage { head, data: payload })
    }

    /// The command payload of a command packet.
    pub fn as_cmd(&self) -> (r: Option<&CmdPackage>)
        ensures
            r is Some <==> (self.head.msg_type == 13 && self.data is Cmd),
            r is Some ==> *r->0 == self.data->Cmd_0,
    {
        if self.head.msg_type == 13 {
            match &self.data {
                ComPackage::Cmd(c) => Some(c),
                _ => None,
            }
        } else {
            None
        }
    }

    /// The heartbeat payload of a heartbeat packet.
    pub fn as_heartbeat(&self) -> (r: Option<&HeartbeatPackage>)
        ensures
            r is Some <==> (self.head.msg_type == 1 && self.data is Heartbeat),
            r is Some ==> *r->0 == self.data->Heartbeat_0,
    {
        if self.head.msg_type == 1 {
            match &self.data {
                ComPackage::Heartbeat(h) => Some(h),
                _ => None,
            }
        } else {
            None
        }
    }

    /// The reply payload of a heartbeat-reply packet.
    pub fn as_heartbeat_reply(&self) -> (r: Option<&HeartbeadReplyPackage>)
        ensures
            r is Some <==> (self.head.msg_type == 2 && self.data is HeartbeatReply),
            r is Some ==> *r->0 == self.data->HeartbeatReply_0,
    {
        if self.head.msg_type == 2 {
            match &self.data {
                ComPackage::HeartbeatReply(h) => Some(h),
                _ => None,
            }
        } else {
            None
        }
    }
}

// ---------------------------------------------------------------- encoding

pub open spec fn lo(x: u16) -> u8 {
    (x % 256) as u8
}

pub open spec fn hi(x: u16) -> u8 {
    (x / 256) as u8
}

/// The 12 bytes of a head, little-endian.
pub open spec fn head_bytes(h: McuComPackageHead) -> Seq<u8> {
    seq![
        lo(h.pack_head_flg),
        hi(h.pack_head_flg),
        lo(h.data_len),
        hi(h.data_len),
        h.crc,
        h.mcu_id,
        lo(h.sn),
        hi(h.sn),
        lo(h.src_sn),
        hi(h.src_sn),
        lo(h.msg_type),
        hi(h.msg_type),
    ]
}

/// The 260 bytes of a command payload.
pub open spec fn cmd_bytes(c: CmdPackage) -> Seq<u8> {
    seq![lo(c.cmd_type), hi(c.cmd_type), lo(c.cmd_data_len), hi(c.cmd_data_len)] + c.data@
}

/// A whole command-payload packet, head then payload.
pub open spec fn package_bytes(h: McuComPackageHead, c: CmdPackage) -> Seq<u8> {
    head_bytes(h) + cmd_bytes(c)
}

/// The head of an outgoing packet of type code `t` carrying `size` bytes.
pub open spec fn sent_head(t: u16, size: u16, sn: u16, crc: u8) -> McuComPackageHead {
    McuComPackageHead {
        pack_head_flg: PACKAGE_HEAD_FLAG_STORED,
        data_len: size,
        crc,
        mcu_id: MUC_ID,
        sn,
        src_sn: 0,
        msg_type: t,
    }
}

/// The bytes sent for command payload `c`: the CRC is that of the packet
/// with a zero CRC field, from the MCU id to the end of the counted payload.
pub open spec fn sent_bytes(c: CmdPackage, t: u16, size: u16, sn: u16) -> Seq<u8> {
    let unsigned = package_bytes(sent_head(t, size, sn, 0), c);
    package_bytes(sent_head(t, size, sn, crc8_of(unsigned.subrange(CRC_OFFSET as int, HEAD_SIZE + size))), c)
}

fn put16(v: &mut Vec<u8>, x: u16)
    ensures
        final(v)@ == old(v)@ + seq![lo(x), hi(x)],
{
    v.push((x % 256) as u8);
    v.push((x / 256) as u8);
}

/// The bytes of a packet with a command payload.
pub fn struct_to_bytes(head: &McuComPackageHead, cmd: &CmdPackage) -> (r: Vec<u8>)
    ensures
        r@ == package_bytes(*head, *cmd),
{
    let mut v: Vec<u8> = Vec::new();
    put16(&mut v, head.pack_head_flg);
    put16(&mut v, head.data_len);
    v.push(head.crc);
    v.push(head.mcu_id);
    put16(&mut v, head.sn);
    put16(&mut v, head.src_sn);
    put16(&mut v, head.msg_type);
    assert(v@ =~= head_bytes(*head));
    put16(&mut v, cmd.cmd_type);
    put16(&mut v, cmd.cmd_data_len);
    let ghost before = v@;
    let mut i: usize = 0;
    while i < cmd.data.len()
        invariant
            i <= cmd.data@.len(),
            v@ == before + cmd.data@.subrange(0, i as int),
        decreases cmd.data@.len() - i,
    {
        v.push(cmd.data[i]);
        assert(v@ =~= before + cmd.data@.subrange(0, i + 1));
        i += 1;
    }
    assert(v@ =~= package_bytes(*head, *cmd));
    v
}

/// Builds an outgoing packet of type `msg_type` whose counted payload is the
/// first `size` bytes of `cmd`, with serial number `sn` and its CRC filled in.
pub fn protocol_package_send(cmd: &CmdPackage, msg_type: McuComMsgType, size: u16, sn: u16) -> (r: Vec<u8>)
    requires
        size <= COM_PACKAGE_SIZE,
        cmd.data@.len() == CMD_DATA_SIZE,
    ensures
        r@ == sent_bytes(*cmd, msg_type_code(msg_type), size, sn),
{
    let mut head = McuComPackageHead {
        pack_head_flg: PACKAGE_HEAD_FLAG_STORED,
        data_len: size,
        crc: 0,
        mcu_id: MUC_ID,
        sn,
        src_sn: 0,
        msg_type: msg_type.code(),
    };
    let buf = struct_to_bytes(&head, cmd);
    head.crc = crc8(slice_subrange(buf.as_slice(), CRC_OFFSET, HEAD_SIZE + size as usize));
    struct_to_bytes(&head, cmd)
}

/// The command payload of the immediate acknowledgement: type 0x6666, one
/// data byte, the character `0`.
pub open spec fn quick_reply_cmd(c: CmdPackage) -> bool {
    &&& c.cmd_type == QUICK_REPLY_CMD_TYPE
    &&& c.cmd_data_len == 1
    &&& c.data@ == seq![48u8] + Seq::new((CMD_DATA_SIZE - 1) as nat, |i: int| 0u8)
}

/// The immediate acknowledgement sent for every command: a `CmdResp` packet
/// of 5 counted bytes.
pub fn quick_reply(sn: u16) -> (r: Vec<u8>)
    ensures
        exists|c: CmdPackage| quick_reply_cmd(c) && r@ == sent_bytes(c, 14, 5, sn),
{
    let mut data: Vec<u8> = Vec::new();
    data.push(48u8);
    let mut i: usize = 1;
    while i < CMD_DATA_SIZE
        invariant
            1 <= i <= CMD_DATA_SIZE,
            data@ == seq![48u8] + Seq::new((i - 1) as nat, |k: int| 0u8),
        decreases CMD_DATA_SIZE - i,
    {
        data.push(0u8);
        assert(data@ =~= seq![48u8] + Seq::new(i as nat, |k: int| 0u8));
        i += 1;
    }
    let cmd = CmdPackage { cmd_type: QUICK_REPLY_CMD_TYPE, cmd_data_len: 1, data };
    assert(cmd.data@ =~= seq![48u8] + Seq::new((CMD_DATA_SIZE - 1) as nat, |k: int| 0u8));
    let r = protocol_package_send(&cmd, McuComMsgType::CmdResp, 1 + CMD_HEADER_SIZE, sn);
    assert(quick_reply_cmd(cmd) && r@ == sent_bytes(cmd, 14, 5, sn));
    r
}

proof fn lemma_le16_split(x: u16)
    ensures
        lo(x) + 256 * hi(x) == x,
{
}

proof fn lemma_head_round_trip(h: McuComPackageHead, rest: Seq<u8>)
    ensures
        head_of(head_bytes(h) + rest) == h,
{
    let b = head_bytes(h) + rest;
    lemma_le16_split(h.pack_head_flg);
    lemma_le16_split(h.data_len);
    lemma_le16_split(h.sn);
    lemma_le16_split(h.src_sn);
    lemma_le16_split(h.msg_type);
    assert(b[0] == lo(h.pack_head_flg) && b[1] == hi(h.pack_head_flg));
    assert(b[2] == lo(h.data_len) && b[3] == hi(h.data_len));
    assert(b[4] == h.crc && b[5] == h.mcu_id);
    assert(b[6] == lo(h.sn) && b[7] == hi(h.sn));
    assert(b[8] == lo(h.src_sn) && b[9] == hi(h.src_sn));
    assert(b[10] == lo(h.msg_type) && b[11] == hi(h.msg_type));
}

/// A command packet built for sending parses back: it is accepted, keeps
/// its serial number, and carries the same command payload.
pub proof fn lemma_sent_command_parses(c: CmdPackage, sn: u16)
    requires
        c.data@.len() == CMD_DATA_SIZE,
        c.cmd_data_len + CMD_HEADER_SIZE <= COM_PACKAGE_SIZE,
    ensures
        ({
            let b = sent_bytes(c, 13, (c.cmd_data_len + CMD_HEADER_SIZE) as u16, sn);
            &&& parse_verdict(b) == ParseVerdict::Accept
            &&& head_of(b).sn == sn
            &&& cmd_matches(c, payload_of(b))
        }),
{
    let size = (c.cmd_data_len + CMD_HEADER_SIZE) as u16;
    let unsigned = package_bytes(sent_head(13, size, sn, 0), c);
    let crc = crc8_of(unsigned.subrange(CRC_OFFSET as int, HEAD_SIZE + size));
    let h = sent_head(13, size, sn, crc);
    let b = package_bytes(h, c);
    lemma_head_round_trip(h, cmd_bytes(c));
    lemma_head_round_trip(sent_head(13, size, sn, 0), cmd_bytes(c));
    assert(b.len() == 272);
    assert(b.subrange(CRC_OFFSET as int, HEAD_SIZE + size) =~= unsigned.subrange(CRC_OFFSET as int, HEAD_SIZE + size));
    assert(payload_of(b) =~= cmd_bytes(c));
    lemma_le16_split(c.cmd_type);
    lemma_le16_split(c.cmd_data_len);
    assert(cmd_bytes(c).subrange(4, COM_PACKAGE_SIZE as int) =~= c.data@);
}

/// Handles received bytes: 1 while the packet is incomplete, -1 when it is
/// refused, 0 when accepted. An accepted command is answered at once with
/// the acknowledgement (serial number `sn`), returned for sending.
pub fn protocol_parse(data: &[u8], sn: u16) -> (r: (i32, Option<Vec<u8>>))
    ensures
        parse_verdict(data@) == ParseVerdict::NeedMore ==> r.0 == 1 && r.1 is None,
        parse_verdict(data@) is Reject ==> r.0 == -1 && r.1 is None,
        parse_verdict(data@) == ParseVerdict::Accept ==> r.0 == 0 && (r.1 is Some <==> head_of(data@).msg_type == 13),
        r.1 is Some ==> exists|c: CmdPackage| quick_reply_cmd(c) && r.1->0@ == sent_bytes(c, 14, 5, sn),
{
    match parse_package_head(data) {
        ParseResult::NeedMore => (1, None),
        ParseResult::Error(_) => (-1, None),
        ParseResult::Success(pack) => {
            if pack.as_cmd().is_some() {
                (0, Some(quick_reply(sn)))
            } else {
                (0, None)
            }
        },
    }
}

/// ASCII decimal digits of `n`, without leading zeros.
pub open spec fn decimal(n: nat) -> Seq<u8>
    decreases n,
{
    if n < 10 {
        seq![(48 + n) as u8]
    } else {
        decimal(n / 10).push((48 + n % 10) as u8)
    }
}

fn push_decimal(v: &mut Vec<u8>, n: u16)
    ensures
        final(v)@ == old(v)@ + decimal(n as nat),
    decreases n,
{
    if n >= 10 {
        push_decimal(v, n / 10);
    }
    let ghost mid = v@;
    v.push(48 + (n % 10) as u8);
    assert(v@ =~= old(v)@ + decimal(n as nat)) by {
        if n >= 10 {
            assert(mid =~= old(v)@ + decimal((n / 10) as nat));
        }
    }
}

/// The data of a status response: `state` in decimal, then `,0333`.
pub open spec fn respond_text(state: u16) -> Seq<u8> {
    decimal(state as nat) + seq![44u8, 48u8, 51u8, 51u8, 51u8]
}

/// A status response to command type `cmd_type`: a `CmdResp` packet whose
/// command data is `respond_text(state)`.
pub fn common_respond(cmd_type: u16, state: u16, sn: u16) -> (r: Vec<u8>)
    ensures
        exists|c: CmdPackage|
            {
                &&& c.cmd_type == cmd_type
                &&& c.cmd_data_len == respond_text(state).len()
                &&& c.data@.subrange(0, respond_text(state).len() as int) == respond_text(state)
                &&& r@ == sent_bytes(c, 14, (respond_text(state).len() + CMD_HEADER_SIZE) as u16, sn)
            },
{
    let mut data: Vec<u8> = Vec::new();
    push_decimal(&mut data, state);
    data.push(44u8);
    data.push(48u8);
    data.push(51u8);
    data.push(51u8);
    data.push(51u8);
    assert(data@ =~= respond_text(state));
    proof {
        lemma_decimal_short(state as nat);
    }
    let len = data.len();
    let ghost text = data@;
    while data.len() < CMD_DATA_SIZE
        invariant
            len <= data@.len() <= CMD_DATA_SIZE,
            len == text.len(),
            data@.subrange(0, len as int) == text,
        decreases CMD_DATA_SIZE - data@.len(),
    {
        data.push(0u8);
        assert(data@.subrange(0, len as int) =~= text);
    }
    let cmd = CmdPackage { cmd_type, cmd_data_len: len as u16, data };
    let r = protocol_package_send(&cmd, McuComMsgType::CmdResp, len as u16 + CMD_HEADER_SIZE, sn);
    assert(cmd.cmd_type == cmd_type && cmd.cmd_data_len == respond_text(state).len()
        && cmd.data@.subrange(0, respond_text(state).len() as int) == respond_text(state)
        && r@ == sent_bytes(cmd, 14, (respond_text(state).len() + CMD_HEADER_SIZE) as u16, sn));
    r
}

pub open spec fn pow10(k: nat) -> nat
    decreases k,
{
    if k == 0 {
        1
    } else {
        10 * pow10((k - 1) as nat)
    }
}

proof fn lemma_decimal_len(n: nat, k: nat)
    requires
        k >= 1,
        n < pow10(k),
    ensures
        decimal(n).len() <= k,
    decreases n,
{
    if n >= 10 {
        assert(k >= 2) by {
            if k == 1 {
                assert(pow10(1) == 10 * pow10(0));
            }
        }
        let p = pow10((k - 1) as nat);
        assert(n / 10 < p) by (nonlinear_arith)
            requires
                n < 10 * p,
        ;
        lemma_decimal_len(n / 10, (k - 1) as nat);
    }
}

proof fn lemma_decimal_short(n: nat)
    requires
        n <= u16::MAX,
    ensures
        decimal(n).len() <= 5,
{
    assert(pow10(0) == 1);
    assert(pow10(1) == 10);
    assert(pow10(2) == 100);
    assert(pow10(3) == 1000);
    assert(pow10(4) == 10000);
    assert(pow10(5) == 100000);
    lemma_decimal_len(n, 5);
}

} // verus!
