use lomen::color::{Color, ZoneColors};
use lomen::command::{
    CommandRequest, CommandResponse, ResponseData, ResponseValue, CMD_COMMON, CMD_GAMING,
    CMD_TYPE_GET_KEYBOARD_TYPE, CMD_TYPE_GET_PLATFORM_INFO, CMD_TYPE_GET_ZONE_COLORS,
    CMD_TYPE_SET_ZONE_COLORS,
};
use lomen::error::LightError;
use lomen::light_control::{
    finish_set_colors, get_colors, get_keyboard_type, is_lighting_supported,
    keyboard_type_request, platform_info_request, set_colors, zone_colors_request,
};
use lomen::numeric::{zone_colors_from_nums, NumZoneColors, NO_COLOR};

/// A simulated firmware: stores a zone payload, echoes it back on reads,
/// replaces it on writes, and reports fixed platform information.
struct SimFirmware {
    payload: Vec<u8>,
    platform_info: u8,
    keyboard_type: u8,
}

fn byte_array(bytes: &[u8]) -> ResponseData {
    ResponseData::Array(bytes.iter().map(|b| ResponseValue::Byte(*b)).collect())
}

impl SimFirmware {
    fn new() -> Self {
        SimFirmware {
            payload: (0u8..37).collect(),
            platform_info: 0x01,
            keyboard_type: 3,
        }
    }

    fn dispatch(&mut self, req: &CommandRequest) -> CommandResponse {
        if req.sign != [83, 69, 67, 85] {
            return CommandResponse { return_code: 3, data: ResponseData::Other };
        }
        let payload_len = req.data.as_ref().map(|d| d.len()).unwrap_or(0);
        if req.size as usize != payload_len {
            return CommandResponse { return_code: 4, data: ResponseData::Other };
        }
        match (req.command, req.command_type) {
            (CMD_COMMON, CMD_TYPE_GET_PLATFORM_INFO) => CommandResponse {
                return_code: 0,
                data: byte_array(&[self.platform_info, 0, 0, 0]),
            },
            (CMD_COMMON, CMD_TYPE_GET_ZONE_COLORS) => CommandResponse {
                return_code: 0,
                data: byte_array(&self.payload.clone()),
            },
            (CMD_COMMON, CMD_TYPE_SET_ZONE_COLORS) => match &req.data {
                Some(d) => {
                    self.payload = d.clone();
                    CommandResponse { return_code: 0, data: byte_array(&[]) }
                }
                None => CommandResponse { return_code: 2, data: ResponseData::Other },
            },
            (CMD_GAMING, CMD_TYPE_GET_KEYBOARD_TYPE) => CommandResponse {
                return_code: 0,
                data: byte_array(&[self.keyboard_type]),
            },
            _ => CommandResponse { return_code: 1, data: ResponseData::Other },
        }
    }
}

fn run_get_colors(fw: &mut SimFirmware) -> Result<ZoneColors, LightError> {
    let resp = fw.dispatch(&zone_colors_request());
    get_colors(&resp)
}

fn run_set_colors(fw: &mut SimFirmware, colors: &ZoneColors) -> Result<(), LightError> {
    let read_resp = fw.dispatch(&zone_colors_request());
    let write_req = set_colors(&read_resp, colors)?;
    let write_resp = fw.dispatch(&write_req);
    finish_set_colors(&write_resp)
}

#[test]
fn test_is_lighting_supported() {
    let mut fw = SimFirmware::new();
    let resp = fw.dispatch(&platform_info_request());
    let result = is_lighting_supported(&resp);
    assert!(result.is_ok());

    println!("Lighting supported: {}", result.unwrap());
}

#[test]
fn test_get_keyboard_type() {
    let mut fw = SimFirmware::new();
    let resp = fw.dispatch(&keyboard_type_request());
    let result = get_keyboard_type(&resp);
    assert!(result.is_ok());

    println!("Keyboard type: {}", result.unwrap());
}

#[test]
fn test_get_colors() {
    let mut fw = SimFirmware::new();
    let result = run_get_colors(&mut fw);
    assert!(result.is_ok());

    println!("Colors: {}", result.unwrap().to_display_string());
}

#[test]
fn light_control_test_set_colors() {
    let mut fw = SimFirmware::new();
    let colors = ZoneColors {
        right: Some(Color::from(0xFFFF00)),
        center: Some(Color::default()),
        left: Some(Color::from(0x00FF00)),
        game: None,
    };
    let result = run_set_colors(&mut fw, &colors);
    assert!(result.is_ok());
}

#[test]
fn lib_test_set_colors() {
    let mut fw = SimFirmware::new();
    let colors = NumZoneColors {
        right: NO_COLOR,
        center: NO_COLOR,
        left: 0x00FF00,
        game: 0xFF0000,
    };

    let result = run_set_colors(&mut fw, &zone_colors_from_nums(&colors));
    assert_eq!(result.is_ok(), true);
}

#[test]
fn test_lighting_support_bit() {
    // Supported exactly when bit 0 of the first response byte is 1.
    for (byte, expected) in [(0x01u8, true), (0x00u8, false), (0x02u8, false)] {
        let mut fw = SimFirmware::new();
        fw.platform_info = byte;
        let resp = fw.dispatch(&platform_info_request());
        assert_eq!(is_lighting_supported(&resp), Ok(expected));
    }
}

#[test]
fn test_end_to_end_set_then_get() {
    // A write of one zone followed by a read shows the new color on that
    // zone and every other zone unchanged from its prior stored value.
    let mut fw = SimFirmware::new();
    let before = run_get_colors(&mut fw).unwrap();

    let update = ZoneColors {
        right: Some(Color::new(0xFF, 0x00, 0xFF)),
        center: None,
        left: None,
        game: None,
    };
    run_set_colors(&mut fw, &update).unwrap();

    let after = run_get_colors(&mut fw).unwrap();
    assert_eq!(after.right, Some(Color::new(0xFF, 0x00, 0xFF)));
    assert_eq!(after.center, before.center);
    assert_eq!(after.left, before.left);
    assert_eq!(after.game, before.game);
    // The header bytes the crate never interprets are untouched as well.
    let stored: Vec<u8> = (0u8..37).collect();
    assert_eq!(fw.payload[..25], stored[..25]);
}

#[test]
fn test_set_colors_aborts_on_failed_read() {
    let read_resp = CommandResponse { return_code: 9, data: ResponseData::Other };
    let colors = ZoneColors {
        right: Some(Color::new(1, 2, 3)),
        center: None,
        left: None,
        game: None,
    };
    assert_eq!(
        set_colors(&read_resp, &colors),
        Err(LightError::Protocol { code: 9 })
    );
}

#[test]
fn test_get_colors_short_payload() {
    let resp = CommandResponse {
        return_code: 0,
        data: byte_array(&[0u8; 30]),
    };
    assert_eq!(
        get_colors(&resp),
        Err(LightError::ShortPayload { len: 30, need: 37 })
    );
}

#[test]
fn test_keyboard_type_first_byte() {
    let mut fw = SimFirmware::new();
    fw.keyboard_type = 0x42;
    let resp = fw.dispatch(&keyboard_type_request());
    assert_eq!(get_keyboard_type(&resp), Ok(0x42));
}

#[test]
fn test_keyboard_type_empty_payload() {
    let resp = CommandResponse { return_code: 0, data: byte_array(&[]) };
    assert_eq!(
        get_keyboard_type(&resp),
        Err(LightError::ShortPayload { len: 0, need: 1 })
    );
}

#[test]
fn test_lost_update_between_read_and_write() {
    // The set operation's read-modify-write is not atomic: a writer that
    // changes firmware state between this operation's read and its write
    // has its change silently overwritten. This is inherent to a firmware
    // protocol without a partial-zone write command.
    let mut fw = SimFirmware::new();
    let read_resp = fw.dispatch(&zone_colors_request());

    // Another writer paints the game zone while this operation holds the
    // stale read.
    let other = ZoneColors {
        right: None,
        center: None,
        left: None,
        game: Some(Color::new(0x99, 0x88, 0x77)),
    };
    run_set_colors(&mut fw, &other).unwrap();

    // This operation completes from its stale read, touching only the
    // right zone, yet the write carries the stale game bytes back.
    let update = ZoneColors {
        right: Some(Color::new(0x01, 0x02, 0x03)),
        center: None,
        left: None,
        game: None,
    };
    let write_req = set_colors(&read_resp, &update).unwrap();
    let write_resp = fw.dispatch(&write_req);
    finish_set_colors(&write_resp).unwrap();

    let after = run_get_colors(&mut fw).unwrap();
    assert_eq!(after.right, Some(Color::new(0x01, 0x02, 0x03)));
    // The other writer's update is lost.
    assert_eq!(after.game, Some(Color::new(34, 35, 36)));
}

#[test]
fn test_set_colors_overlays_only_present_zones() {
    let mut fw = SimFirmware::new();
    let colors = ZoneColors {
        right: None,
        center: Some(Color::new(0xAB, 0xCD, 0xEF)),
        left: None,
        game: None,
    };
    run_set_colors(&mut fw, &colors).unwrap();

    let stored: Vec<u8> = (0u8..37).collect();
    for i in 0..37 {
        match i {
            28 => assert_eq!(fw.payload[i], 0xAB),
            29 => assert_eq!(fw.payload[i], 0xCD),
            30 => assert_eq!(fw.payload[i], 0xEF),
            _ => assert_eq!(fw.payload[i], stored[i]),
        }
    }
}
