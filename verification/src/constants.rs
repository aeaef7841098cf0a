//! Names and numbers of the service and of the client it is told about.

use vstd::prelude::*;

verus! {

/// Address of the device registration.
pub const REGISTER_URL: &'static str = "https://log.snssdk.com/service/2/device_register/";

/// Address of the settings, which hold the bearer token.
pub const SETTINGS_URL: &'static str = "https://is.snssdk.com/service/settings/v3/";

/// Address of the recognition service.
pub const WEBSOCKET_URL: &'static str = "wss://frontier-audio-ime-ws.doubao.com/ocean/api/v1/ws";

/// Host of the recognition service.
pub const WEBSOCKET_HOST: &'static str = "frontier-audio-ime-ws.doubao.com";

/// Application id.
pub const AID: u32 = 401734;

pub const APP_NAME: &'static str = "oime";

pub const VERSION_CODE: u32 = 100102018;

pub const VERSION_NAME: &'static str = "1.1.2";

pub const CHANNEL: &'static str = "official";

pub const PACKAGE: &'static str = "com.bytedance.android.doubaoime";

pub const DEVICE_PLATFORM: &'static str = "android";

pub const OS: &'static str = "android";

pub const OS_API: &'static str = "34";

pub const OS_VERSION: &'static str = "16";

pub const DEVICE_TYPE: &'static str = "Pixel 7 Pro";

pub const DEVICE_BRAND: &'static str = "google";

pub const DEVICE_MODEL: &'static str = "Pixel 7 Pro";

pub const RESOLUTION: &'static str = "1080*2400";

pub const DPI: &'static str = "420";

pub const LANGUAGE: &'static str = "zh";

pub const TIMEZONE: i32 = 8;

pub const ACCESS: &'static str = "wifi";

pub const ROM: &'static str = "UP1A.231005.007";

pub const ROM_VERSION: &'static str = "UP1A.231005.007";

/// Identity that the client declares when it connects.
pub const USER_AGENT: &'static str =
    "com.bytedance.android.doubaoime/100102018 (Linux; U; Android 16; en_US; Pixel 7 Pro; Build/BP2A.250605.031.A2; Cronet/TTNetVersion:94cf429a 2025-11-17 QuicVersion:1f89f732 2025-05-08)";

/// Samples per second of the audio.
pub const SAMPLE_RATE: u32 = 16000;

/// Channels of the audio.
pub const CHANNELS: u16 = 1;

/// Length of one audio frame in milliseconds.
pub const FRAME_DURATION_MS: u32 = 20;

/// Name of the service in every envelope.
pub const SERVICE_NAME: &'static str = "ASR";

} // verus!
