//! Zone color table layout and the four lighting operations.
//!
//! The firmware's zone payload is an opaque blob: a 25-byte header this
//! crate never interprets, followed by four 3-byte RGB triples in the fixed
//! order right, center, left, game. The operations here build the request
//! for each exchange and decide everything about its response; the exchange
//! itself is performed by the embedding application, which owns the
//! management session.

use vstd::prelude::*;

use crate::color::{Color, ZoneColors};
use crate::command::{
    encode_command, decode_response, decode_ok, decode_err, decoded_bytes, CommandRequest,
    CommandResponse, CMD_COMMON, CMD_GAMING, CMD_TYPE_GET_KEYBOARD_TYPE,
    CMD_TYPE_GET_PLATFORM_INFO, CMD_TYPE_GET_ZONE_COLORS, CMD_TYPE_SET_ZONE_COLORS,
};
use crate::error::LightError;

verus! {

/// Zone index of the right keyboard zone.
pub const RIGHT_ZONE_INDEX: usize = 0;

/// Zone index of the center keyboard zone.
pub const CENTER_ZONE_INDEX: usize = 1;

/// Zone index of the left keyboard zone.
pub const LEFT_ZONE_INDEX: usize = 2;

/// Zone index of the game keys zone.
pub const GAME_ZONE_INDEX: usize = 3;

/// Number of keyboard zones.
pub const ZONE_COUNT: usize = 4;

/// Least payload length that holds the header and all four color triples.
pub const ZONE_PAYLOAD_LEN: usize = 37;

/// Byte offset of a zone's RGB triple inside the payload blob: a 25-byte
/// header precedes the color table, three bytes per zone.
pub open spec fn spec_zone_offset(zone_index: int) -> int {
    25 + zone_index * 3
}

/// The color stored at a zone's offset in a payload.
pub open spec fn color_at(bytes: Seq<u8>, zone_index: int) -> Color
    recommends
        bytes.len() >= spec_zone_offset(zone_index) + 3,
{
    Color {
        r: bytes[spec_zone_offset(zone_index)],
        g: bytes[spec_zone_offset(zone_index) + 1],
        b: bytes[spec_zone_offset(zone_index) + 2],
    }
}

/// A payload with one zone's triple overwritten by a color, or the payload
/// itself where the color is absent.
pub open spec fn write_color(bytes: Seq<u8>, zone_index: int, color: Option<Color>) -> Seq<u8> {
    match color {
        None => bytes,
        Some(c) => bytes.update(spec_zone_offset(zone_index), c.r).update(
            spec_zone_offset(zone_index) + 1,
            c.g,
        ).update(spec_zone_offset(zone_index) + 2, c.b),
    }
}

/// A payload with every present color of a zone set overlaid on its zone's
/// triple, absent zones untouched.
pub open spec fn overlay_colors(bytes: Seq<u8>, colors: ZoneColors) -> Seq<u8> {
    write_color(
        write_color(write_color(write_color(bytes, 0, colors.right), 1, colors.center), 2, colors.left),
        3,
        colors.game,
    )
}

/// Byte offset of a zone's RGB triple inside the payload blob.
pub fn zone_color_offset(zone_index: usize) -> (r: usize)
    requires
        zone_index < ZONE_COUNT,
    ensures
        r == spec_zone_offset(zone_index as int),
{
    25 + zone_index * 3
}

/// The offsets of a zone's red, green and blue bytes.
pub fn rgb_offsets(zone_index: usize) -> (r: (usize, usize, usize))
    requires
        zone_index < ZONE_COUNT,
    ensures
        r.0 == spec_zone_offset(zone_index as int),
        r.1 == spec_zone_offset(zone_index as int) + 1,
        r.2 == spec_zone_offset(zone_index as int) + 2,
{
    let offset = zone_color_offset(zone_index);
    (offset, offset + 1, offset + 2)
}

/// Reads a zone's color out of a payload; fails when the payload is too
/// short to hold that zone's triple.
pub fn get_zone_color(data: &Vec<u8>, zone_index: usize) -> (r: Result<Color, LightError>)
    requires
        zone_index < ZONE_COUNT,
    ensures
        match r {
            Ok(c) => data.len() >= spec_zone_offset(zone_index as int) + 3 && c == color_at(
                data@,
                zone_index as int,
            ),
            Err(e) => e == (LightError::ShortPayload {
                len: data.len(),
                need: (spec_zone_offset(zone_index as int) + 3) as usize,
            }) && data.len() < spec_zone_offset(zone_index as int) + 3,
        },
{
    let (ri, gi, bi) = rgb_offsets(zone_index);
    if data.len() < bi + 1 {
        return Err(LightError::ShortPayload { len: data.len(), need: bi + 1 });
    }
    Ok(Color::new(data[ri], data[gi], data[bi]))
}

/// Overwrites a zone's triple in a payload with a color, in place. Absent
/// color: the payload is left byte-for-byte unchanged. Present color:
/// exactly the zone's three bytes change and every other byte keeps its
/// value; fails without touching anything when the payload is too short to
/// hold that zone's triple.
pub fn set_zone_color(data: &mut Vec<u8>, zone_index: usize, color: Option<Color>) -> (r: Result<
    (),
    LightError,
>)
    requires
        zone_index < ZONE_COUNT,
    ensures
        ({
            let off = spec_zone_offset(zone_index as int);
            match color {
                None => r is Ok && final(data)@ == old(data)@,
                Some(c) => {
                    if old(data).len() >= off + 3 {
                        &&& r is Ok
                        &&& final(data)@ == write_color(old(data)@, zone_index as int, color)
                        &&& final(data).len() == old(data).len()
                        &&& final(data)@[off] == c.r
                        &&& final(data)@[off + 1] == c.g
                        &&& final(data)@[off + 2] == c.b
                        &&& forall|i: int|
                            0 <= i < old(data).len() && i != off && i != off + 1 && i != off + 2
                                ==> final(data)@[i] == old(data)@[i]
                    } else {
                        &&& r == Err::<(), LightError>(LightError::ShortPayload {
                            len: old(data).len(),
                            need: (off + 3) as usize,
                        })
                        &&& final(data)@ == old(data)@
                    }
                },
            }
        }),
{
    match color {
        None => Ok(()),
        Some(c) => {
            let (ri, gi, bi) = rgb_offsets(zone_index);
            if data.len() < bi + 1 {
                return Err(LightError::ShortPayload { len: data.len(), need: bi + 1 });
            }
            data[ri] = c.r;
            data[gi] = c.g;
            data[bi] = c.b;
            Ok(())
        },
    }
}

/// The request that queries the keyboard type code.
pub fn keyboard_type_request() -> (r: CommandRequest)
    ensures
        r.wf(),
        r.command == CMD_GAMING,
        r.command_type == CMD_TYPE_GET_KEYBOARD_TYPE,
        r.data is None,
{
    encode_command(CMD_GAMING, CMD_TYPE_GET_KEYBOARD_TYPE, None)
}

/// The request that queries platform lighting information.
pub fn platform_info_request() -> (r: CommandRequest)
    ensures
        r.wf(),
        r.command == CMD_COMMON,
        r.command_type == CMD_TYPE_GET_PLATFORM_INFO,
        r.data is None,
{
    encode_command(CMD_COMMON, CMD_TYPE_GET_PLATFORM_INFO, None)
}

/// The request that reads the current zone color payload. The set-colors
/// operation starts with this same read, since the firmware accepts only a
/// complete payload.
pub fn zone_colors_request() -> (r: CommandRequest)
    ensures
        r.wf(),
        r.command == CMD_COMMON,
        r.command_type == CMD_TYPE_GET_ZONE_COLORS,
        r.data is None,
{
    encode_command(CMD_COMMON, CMD_TYPE_GET_ZONE_COLORS, None)
}

/// The keyboard type code: the first byte of the response to a
/// keyboard-type request.
pub fn get_keyboard_type(resp: &CommandResponse) -> (r: Result<u8, LightError>)
    ensures
        match r {
            Ok(t) => decode_ok(*resp) && decoded_bytes(*resp).len() >= 1 && t == decoded_bytes(
                *resp,
            )[0],
            Err(LightError::ShortPayload { len, need }) => decode_ok(*resp) && len
                == decoded_bytes(*resp).len() && len == 0 && need == 1,
            Err(e) => decode_err(*resp, e),
        },
{
    let data = match decode_response(resp) {
        Ok(b) => b,
        Err(e) => {
            return Err(e);
        },
    };
    if data.len() == 0 {
        return Err(LightError::ShortPayload { len: 0, need: 1 });
    }
    Ok(data[0])
}

/// Whether keyboard lighting is supported: bit 0 of the first byte of the
/// response to a platform-info request.
pub fn is_lighting_supported(resp: &CommandResponse) -> (r: Result<bool, LightError>)
    ensures
        match r {
            Ok(supported) => decode_ok(*resp) && decoded_bytes(*resp).len() >= 1 && supported == ((
            decoded_bytes(*resp)[0] & 1) == 1),
            Err(LightError::ShortPayload { len, need }) => decode_ok(*resp) && len
                == decoded_bytes(*resp).len() && len == 0 && need == 1,
            Err(e) => decode_err(*resp, e),
        },
{
    let data = match decode_response(resp) {
        Ok(b) => b,
        Err(e) => {
            return Err(e);
        },
    };
    if data.len() == 0 {
        return Err(LightError::ShortPayload { len: 0, need: 1 });
    }
    Ok((data[0] & 1) == 1)
}

/// The four zone colors held in the response to a zone-colors read request.
/// Every zone of a successful read is present.
pub fn get_colors(resp: &CommandResponse) -> (r: Result<ZoneColors, LightError>)
    ensures
        match r {
            Ok(z) => {
                &&& decode_ok(*resp)
                &&& decoded_bytes(*resp).len() >= ZONE_PAYLOAD_LEN
                &&& z.right == Some(color_at(decoded_bytes(*resp), 0))
                &&& z.center == Some(color_at(decoded_bytes(*resp), 1))
                &&& z.left == Some(color_at(decoded_bytes(*resp), 2))
                &&& z.game == Some(color_at(decoded_bytes(*resp), 3))
            },
            Err(LightError::ShortPayload { len, need }) => decode_ok(*resp) && len
                == decoded_bytes(*resp).len() && len < ZONE_PAYLOAD_LEN && need
                == ZONE_PAYLOAD_LEN,
            Err(e) => decode_err(*resp, e),
        },
{
    let data = match decode_response(resp) {
        Ok(b) => b,
        Err(e) => {
            return Err(e);
        },
    };
    if data.len() < ZONE_PAYLOAD_LEN {
        return Err(LightError::ShortPayload { len: data.len(), need: ZONE_PAYLOAD_LEN });
    }
    Ok(
        ZoneColors {
            right: Some(get_zone_color(&data, RIGHT_ZONE_INDEX).unwrap()),
            center: Some(get_zone_color(&data, CENTER_ZONE_INDEX).unwrap()),
            left: Some(get_zone_color(&data, LEFT_ZONE_INDEX).unwrap()),
            game: Some(get_zone_color(&data, GAME_ZONE_INDEX).unwrap()),
        },
    )
}

/// Builds the write request of the set-colors operation from the response
/// to its initial zone-colors read: the read payload with every present
/// color of `colors` overlaid on its zone's triple, absent zones' bytes
/// untouched. The overlay is local; the firmware state changes only if the
/// returned request is then dispatched successfully.
pub fn set_colors(resp: &CommandResponse, colors: &ZoneColors) -> (r: Result<
    CommandRequest,
    LightError,
>)
    ensures
        match r {
            Ok(req) => {
                &&& decode_ok(*resp)
                &&& decoded_bytes(*resp).len() >= ZONE_PAYLOAD_LEN
                &&& req.wf()
                &&& req.command == CMD_COMMON
                &&& req.command_type == CMD_TYPE_SET_ZONE_COLORS
                &&& req.data matches Some(d) && d@ == overlay_colors(
                    decoded_bytes(*resp),
                    *colors,
                )
            },
            Err(LightError::ShortPayload { len, need }) => decode_ok(*resp) && len
                == decoded_bytes(*resp).len() && len < ZONE_PAYLOAD_LEN && need
                == ZONE_PAYLOAD_LEN,
            Err(e) => decode_err(*resp, e),
        },
{
    let mut data = match decode_response(resp) {
        Ok(b) => b,
        Err(e) => {
            return Err(e);
        },
    };
    if data.len() < ZONE_PAYLOAD_LEN {
        return Err(LightError::ShortPayload { len: data.len(), need: ZONE_PAYLOAD_LEN });
    }
    set_zone_color(&mut data, RIGHT_ZONE_INDEX, colors.right).unwrap();
    set_zone_color(&mut data, CENTER_ZONE_INDEX, colors.center).unwrap();
    set_zone_color(&mut data, LEFT_ZONE_INDEX, colors.left).unwrap();
    set_zone_color(&mut data, GAME_ZONE_INDEX, colors.game).unwrap();
    Ok(encode_command(CMD_COMMON, CMD_TYPE_SET_ZONE_COLORS, Some(data)))
}

/// Decides the outcome of the final dispatch of the set-colors operation:
/// success exactly when the firmware's response to the write request
/// decodes.
pub fn finish_set_colors(resp: &CommandResponse) -> (r: Result<(), LightError>)
    ensures
        match r {
            Ok(()) => decode_ok(*resp),
            Err(e) => decode_err(*resp, e),
        },
{
    match decode_response(resp) {
        Ok(_) => Ok(()),
        Err(e) => Err(e),
    }
}

} // verus!
