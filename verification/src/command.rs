//! Building firmware command requests and decoding firmware responses.
//!
//! A request names a command code, a command subtype and an optional byte
//! payload; the firmware answers with a return code and a data array. The
//! dispatch itself goes through the platform's management instrumentation and
//! is performed by the embedding application; this module fixes the exact
//! shapes both directions.

use vstd::prelude::*;

use crate::error::LightError;

verus! {

/// Command code shared by the platform-info, get-zones and set-zones
/// operations.
pub const CMD_COMMON: u32 = 131081;

/// Command code of the gaming command family; used for the keyboard-type
/// query.
pub const CMD_GAMING: u32 = 131080;

/// Command subtype: query platform lighting information.
pub const CMD_TYPE_GET_PLATFORM_INFO: u32 = 1;

/// Command subtype: read the zone color table.
pub const CMD_TYPE_GET_ZONE_COLORS: u32 = 2;

/// Command subtype: write the zone color table.
pub const CMD_TYPE_SET_ZONE_COLORS: u32 = 3;

/// Command subtype: query the keyboard type code.
pub const CMD_TYPE_GET_KEYBOARD_TYPE: u32 = 43;

/// The fixed four-byte signature that marks a request for this firmware
/// interface.
pub open spec fn spec_sign() -> Seq<u8> {
    seq![83u8, 69u8, 67u8, 85u8]
}

/// The request signature as a byte array.
pub fn sign_bytes() -> (r: [u8; 4])
    ensures
        r@ == spec_sign(),
{
    let r: [u8; 4] = [83, 69, 67, 85];
    assert(r@ =~= spec_sign());
    r
}

/// An outbound request in the exact field layout the firmware method
/// expects.
#[derive(Debug, Clone, PartialEq, Eq)]
pub struct CommandRequest {
    /// The fixed request signature.
    pub sign: [u8; 4],
    /// The command code.
    pub command: u32,
    /// The command subtype selecting the operation.
    pub command_type: u32,
    /// The byte length of the payload, zero when there is none.
    pub size: u32,
    /// The payload bytes, absent for query-only commands.
    pub data: Option<Vec<u8>>,
}

impl CommandRequest {
    /// A request is well formed when it carries the fixed signature and its
    /// size field equals the exact byte count of its payload.
    pub open spec fn wf(self) -> bool {
        &&& self.sign@ == spec_sign()
        &&& match self.data {
            Some(d) => self.size == d.len(),
            None => self.size == 0,
        }
    }
}

/// Builds the request for a command code, subtype and optional payload.
pub fn encode_command(command_code: u32, command_type: u32, data: Option<Vec<u8>>) -> (r:
    CommandRequest)
    requires
        data matches Some(d) ==> d.len() <= u32::MAX,
    ensures
        r.command == command_code,
        r.command_type == command_type,
        r.data == data,
        r.wf(),
{
    let size: u32 = match &data {
        Some(d) => d.len() as u32,
        None => 0,
    };
    CommandRequest { sign: sign_bytes(), command: command_code, command_type, size, data }
}

/// One value of the data array handed back by the platform layer. The
/// firmware encodes payload bytes as unsigned 8-bit values; a value of any
/// other type is invalid and recorded only as such.
#[derive(Debug, Clone, Copy, PartialEq, Eq, Structural)]
pub enum ResponseValue {
    Byte(u8),
    Unsupported,
}

/// The data field of a response: an array of values, or some other shape
/// that the protocol does not allow.
#[derive(Debug, Clone, PartialEq, Eq)]
pub enum ResponseData {
    Array(Vec<ResponseValue>),
    Other,
}

/// An inbound response: the firmware's return code and its data field.
#[derive(Debug, Clone, PartialEq, Eq)]
pub struct CommandResponse {
    pub return_code: u32,
    pub data: ResponseData,
}

/// Whether every value of the array is a single byte.
pub open spec fn all_bytes(vals: Seq<ResponseValue>) -> bool {
    forall|i: int| 0 <= i < vals.len() ==> (#[trigger] vals[i]) is Byte
}

/// The bytes of an array whose values are all single bytes.
pub open spec fn bytes_of(vals: Seq<ResponseValue>) -> Seq<u8>
    recommends
        all_bytes(vals),
{
    vals.map_values(|v: ResponseValue| v->Byte_0)
}

/// Whether a response decodes: a zero return code and a data array whose
/// values are all single bytes, no longer than the 32-bit length field can
/// describe.
pub open spec fn decode_ok(resp: CommandResponse) -> bool {
    &&& resp.return_code == 0
    &&& resp.data matches ResponseData::Array(vals)
    &&& vals.len() <= u32::MAX
    &&& all_bytes(vals@)
}

/// The payload bytes of a response that decodes.
pub open spec fn decoded_bytes(resp: CommandResponse) -> Seq<u8>
    recommends
        decode_ok(resp),
{
    match resp.data {
        ResponseData::Array(vals) => bytes_of(vals@),
        ResponseData::Other => Seq::empty(),
    }
}

/// The exact failure decoding a response gives: `Protocol` whenever the
/// return code is not zero, whatever the payload holds; otherwise
/// `NotArray`, `PayloadTooLarge` or `BadElement` naming the first offending
/// index, when the data field is not a byte array the protocol could have
/// produced.
pub open spec fn decode_err(resp: CommandResponse, e: LightError) -> bool {
    match e {
        LightError::Protocol { code } => code == resp.return_code && code != 0,
        LightError::NotArray => resp.return_code == 0 && resp.data is Other,
        LightError::PayloadTooLarge { len } => {
            &&& resp.return_code == 0
            &&& resp.data matches ResponseData::Array(vals)
            &&& len == vals.len()
            &&& len > u32::MAX
        },
        LightError::BadElement { index } => {
            &&& resp.return_code == 0
            &&& resp.data matches ResponseData::Array(vals)
            &&& vals.len() <= u32::MAX
            &&& index < vals.len()
            &&& !((#[trigger] vals@[index as int]) is Byte)
            &&& all_bytes(vals@.take(index as int))
        },
        LightError::ShortPayload { .. } => false,
    }
}

/// Validates a response and extracts its payload bytes.
pub fn decode_response(resp: &CommandResponse) -> (r: Result<Vec<u8>, LightError>)
    ensures
        match r {
            Ok(bytes) => decode_ok(*resp) && bytes@ == decoded_bytes(*resp),
            Err(e) => decode_err(*resp, e),
        },
{
    if resp.return_code != 0 {
        return Err(LightError::Protocol { code: resp.return_code });
    }
    let vals = match &resp.data {
        ResponseData::Array(v) => v,
        ResponseData::Other => {
            return Err(LightError::NotArray);
        },
    };
    let n = vals.len();
    if n as u64 > u32::MAX as u64 {
        return Err(LightError::PayloadTooLarge { len: n });
    }
    let mut out: Vec<u8> = Vec::new();
    let mut i: usize = 0;
    while i < n
        invariant
            i <= n,
            n == vals.len(),
            n <= u32::MAX,
            resp.return_code == 0,
            resp.data matches ResponseData::Array(v) && v@ == vals@,
            all_bytes(vals@.take(i as int)),
            out@ == bytes_of(vals@.take(i as int)),
        decreases n - i,
    {
        match vals[i] {
            ResponseValue::Byte(b) => {
                out.push(b);
            },
            ResponseValue::Unsupported => {
                return Err(LightError::BadElement { index: i });
            },
        }
        i = i + 1;
        proof {
            let j = i as int;
            assert(vals@.take(j) =~= vals@.take(j - 1).push(vals@[j - 1]));
            assert(bytes_of(vals@.take(j)) =~= bytes_of(vals@.take(j - 1)).push(
                vals@[j - 1]->Byte_0,
            ));
        }
    }
    proof {
        assert(vals@.take(n as int) =~= vals@);
    }
    Ok(out)
}

/// Namespace of the management instrumentation the firmware method lives in.
pub fn wmi_namespace() -> (r: &'static str)
    ensures
        r@ == "root\\wmi"@,
{
    "root\\wmi"
}

/// Name of the class describing the request object.
pub fn data_object_name() -> (r: &'static str)
    ensures
        r@ == "hpqBDataIn"@,
{
    "hpqBDataIn"
}

/// Name of the class exposing the firmware method.
pub fn method_object_name() -> (r: &'static str)
    ensures
        r@ == "hpqBIntM"@,
{
    "hpqBIntM"
}

/// Name of the firmware method itself.
pub fn method_name() -> (r: &'static str)
    ensures
        r@ == "hpqBIOSInt128"@,
{
    "hpqBIOSInt128"
}

/// Path of the fixed hardware-device instance the method is invoked on.
pub fn instance_path() -> (r: &'static str)
    ensures
        r@ == "hpqBIntM.InstanceName='ACPI\\PNP0C14\\0_0'"@,
{
    "hpqBIntM.InstanceName='ACPI\\PNP0C14\\0_0'"
}

} // verus!
