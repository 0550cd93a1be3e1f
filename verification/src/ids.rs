//! Message identifiers and enum codes of the Android Auto control, sensor and
//! navigation channels, as far as the proxy reads them.

use vstd::prelude::*;

verus! {

// Control channel (channel 0) message ids.
pub const MESSAGE_VERSION_REQUEST: u16 = 1;
pub const MESSAGE_VERSION_RESPONSE: u16 = 2;
pub const MESSAGE_ENCAPSULATED_SSL: u16 = 3;
pub const MESSAGE_AUTH_COMPLETE: u16 = 4;
pub const MESSAGE_SERVICE_DISCOVERY_REQUEST: u16 = 5;
pub const MESSAGE_SERVICE_DISCOVERY_RESPONSE: u16 = 6;
pub const MESSAGE_CHANNEL_OPEN_REQUEST: u16 = 7;
pub const MESSAGE_CHANNEL_OPEN_RESPONSE: u16 = 8;
pub const MESSAGE_PING_REQUEST: u16 = 11;
pub const MESSAGE_PING_RESPONSE: u16 = 12;
pub const MESSAGE_NAV_FOCUS_REQUEST: u16 = 13;
pub const MESSAGE_BYEBYE_REQUEST: u16 = 15;
pub const MESSAGE_BYEBYE_RESPONSE: u16 = 16;
pub const MESSAGE_AUDIO_FOCUS_REQUEST: u16 = 18;
pub const MESSAGE_AUDIO_FOCUS_NOTIFICATION: u16 = 19;

// Sensor channel message ids.
pub const SENSOR_MESSAGE_REQUEST: u16 = 0x8001;
pub const SENSOR_MESSAGE_RESPONSE: u16 = 0x8002;
pub const SENSOR_MESSAGE_BATCH: u16 = 0x8003;

// `AudioStreamType` codes.
pub const AUDIO_STREAM_GUIDANCE: u32 = 1;
pub const AUDIO_STREAM_SYSTEM_AUDIO: u32 = 2;
pub const AUDIO_STREAM_MEDIA: u32 = 3;

// `SensorType` codes.
pub const SENSOR_SPEED: u32 = 3;
pub const SENSOR_VEHICLE_ENERGY_MODEL_DATA: u32 = 30;

// `MessageStatus` codes.
pub const STATUS_SUCCESS: u32 = 0;

// `ByeByeReason` codes.
pub const BYEBYE_REASON_USER_SELECTION: u32 = 1;

// Navigation maneuver type codes.
pub const MANEUVER_U_TURN_LEFT: u32 = 4;
pub const MANEUVER_U_TURN_RIGHT: u32 = 5;

// `FuelType` codes.
pub const FUEL_TYPE_ELECTRIC: u32 = 1;

// Bluetooth bootstrap message ids.
pub const WIFI_START_REQUEST: u16 = 1;
pub const WIFI_INFO_REQUEST: u16 = 2;
pub const WIFI_INFO_RESPONSE: u16 = 3;
pub const WIFI_VERSION_REQUEST: u16 = 4;
pub const WIFI_VERSION_RESPONSE: u16 = 5;
pub const WIFI_CONNECT_STATUS: u16 = 6;
pub const WIFI_START_RESPONSE: u16 = 7;

// `WifiInfoResponse` security mode and access point type codes.
pub const SECURITY_WPA2_PERSONAL: u32 = 8;
pub const ACCESS_POINT_DYNAMIC: u32 = 1;

} // verus!
