//! Credentials of a device and what its registration sends and takes.
//!
//! The requests themselves are made by the caller; the values that go into
//! them and what their answers change are decided here.

use vstd::prelude::*;
use crate::constants::{
    ACCESS, AID, APP_NAME, CHANNEL, DEVICE_BRAND, DEVICE_MODEL, DEVICE_PLATFORM, DEVICE_TYPE, DPI,
    LANGUAGE, OS, OS_API, OS_VERSION, PACKAGE, RESOLUTION, ROM, ROM_VERSION, TIMEZONE,
    VERSION_CODE, VERSION_NAME,
};
use crate::text::{decimal, decimal_string, hex_text};

verus! {

/// Number of random bytes behind an `openudid`.
pub const OPENUDID_BYTES: usize = 8;

/// Body of the request for the settings.
pub const SETTINGS_BODY: &'static str = "body=null";

/// What identifies a device to the service.
#[derive(Clone, Debug)]
pub struct DeviceCredentials {
    pub device_id: String,
    pub install_id: String,
    pub cdid: String,
    pub openudid: String,
    pub clientudid: String,
    pub token: String,
}

/// What a registration can fail on.
#[derive(Clone, Copy, Debug, PartialEq, Eq, Structural)]
pub enum DeviceError {
    /// The service answered with the device id 0.
    InvalidDeviceId,
}

/// The MD5 digest of `data`, written as 32 hexadecimal digits in upper
/// case.
pub uninterp spec fn md5_upper_hex(data: Seq<u8>) -> Seq<char>;

/// Calls `uuid::Uuid::new_v4` and writes the identifier out. It is random:
/// nothing is known of the text.
#[verifier::external_body]
pub(crate) fn random_uuid() -> (text: String) {
    uuid::Uuid::new_v4().to_string()
}

/// Calls `rand::Rng::gen` on the generator of the thread for an array of
/// eight bytes. They are random: only their number is known.
#[verifier::external_body]
pub(crate) fn random_bytes() -> (bytes: Vec<u8>)
    ensures
        bytes@.len() == OPENUDID_BYTES,
{
    rand::Rng::gen::<[u8; 8]>(&mut rand::thread_rng()).to_vec()
}

/// Calls `hex::encode`, which writes each byte as two hexadecimal digits
/// in lower case, the high half first.
#[verifier::external_body]
pub(crate) fn hex_encode(bytes: &Vec<u8>) -> (text: String)
    ensures
        text@ == hex_text(bytes@),
{
    hex::encode(bytes)
}

/// Calls `md5::compute` and writes the digest in upper-case hexadecimal
/// digits, as its `UpperHex` does.
#[verifier::external_body]
pub(crate) fn md5_hex(data: &[u8]) -> (text: String)
    ensures
        text@ == md5_upper_hex(data@),
{
    format!("{:X}", md5::compute(data))
}

impl DeviceCredentials {
    /// Credentials of a device that is not registered yet: the three
    /// identifiers it made up itself, no device id and no token.
    pub fn with_ids(cdid: String, openudid: String, clientudid: String) -> (creds:
        DeviceCredentials)
        ensures
            creds.device_id@.len() == 0,
            creds.install_id@.len() == 0,
            creds.token@.len() == 0,
            creds.cdid == cdid,
            creds.openudid == openudid,
            creds.clientudid == clientudid,
    {
        DeviceCredentials {
            device_id: String::new(),
            install_id: String::new(),
            cdid,
            openudid,
            clientudid,
            token: String::new(),
        }
    }

    /// Fresh credentials with identifiers drawn at random. The `openudid`
    /// is eight random bytes in hexadecimal digits.
    pub fn new_generated() -> (creds: DeviceCredentials)
        ensures
            creds.device_id@.len() == 0,
            creds.install_id@.len() == 0,
            creds.token@.len() == 0,
            !creds.is_complete_spec(),
            exists|bytes: Seq<u8>|
                bytes.len() == OPENUDID_BYTES && creds.openudid@ == #[trigger] hex_text(bytes),
    {
        let cdid = random_uuid();
        let bytes = random_bytes();
        let openudid = hex_encode(&bytes);
        let clientudid = random_uuid();
        DeviceCredentials::with_ids(cdid, openudid, clientudid)
    }

    /// A device id and a token are there.
    pub open spec fn is_complete_spec(&self) -> bool {
        self.device_id@.len() > 0 && self.token@.len() > 0
    }

    /// Whether the credentials can open a session: a device id and a token
    /// are there.
    pub fn is_complete(&self) -> (complete: bool)
        ensures
            complete == self.is_complete_spec(),
    {
        !self.device_id.as_str().is_empty() && !self.token.as_str().is_empty()
    }

    /// Takes over what a registration answered. The device id 0 is no
    /// device id: it is refused and nothing changes.
    pub fn set_registration(&mut self, device_id: u64, install_id: u64) -> (r: Result<
        (),
        DeviceError,
    >)
        ensures
            match r {
                Ok(_) => device_id != 0 && final(self).device_id@ == decimal(device_id as nat)
                    && final(self).install_id@ == decimal(install_id as nat),
                Err(e) => device_id == 0 && e == DeviceError::InvalidDeviceId
                    && final(self).device_id == old(self).device_id
                    && final(self).install_id == old(self).install_id,
            },
            final(self).cdid == old(self).cdid,
            final(self).openudid == old(self).openudid,
            final(self).clientudid == old(self).clientudid,
            final(self).token == old(self).token,
    {
        if device_id == 0 {
            return Err(DeviceError::InvalidDeviceId);
        }
        self.device_id = decimal_string(device_id);
        self.install_id = decimal_string(install_id);
        Ok(())
    }

    /// Takes over the token that the settings hold.
    pub fn set_token(&mut self, token: String)
        ensures
            final(self).token == token,
            final(self).device_id == old(self).device_id,
            final(self).install_id == old(self).install_id,
            final(self).cdid == old(self).cdid,
            final(self).openudid == old(self).openudid,
            final(self).clientudid == old(self).clientudid,
    {
        self.token = token;
    }
}

/// The parameters of a request, name and value, as mathematical values.
pub open spec fn pairs_view(pairs: Seq<(String, String)>) -> Seq<(Seq<char>, Seq<char>)> {
    Seq::new(pairs.len(), |i: int| (pairs[i].0@, pairs[i].1@))
}

/// The parameters that both requests of a registration share.
pub open spec fn common_parameters(cdid: Seq<char>, rticket: nat) -> Seq<(Seq<char>, Seq<char>)> {
    seq![
        ("device_platform"@, DEVICE_PLATFORM@),
        ("os"@, OS@),
        ("ssmix"@, "a"@),
        ("_rticket"@, decimal(rticket)),
        ("cdid"@, cdid),
        ("channel"@, CHANNEL@),
        ("aid"@, decimal(AID as nat)),
        ("app_name"@, APP_NAME@),
        ("version_code"@, decimal(VERSION_CODE as nat)),
        ("version_name"@, VERSION_NAME@),
    ]
}

/// The parameters of the request that registers a device.
pub open spec fn register_parameters(cdid: Seq<char>, rticket: nat) -> Seq<
    (Seq<char>, Seq<char>),
> {
    common_parameters(cdid, rticket) + seq![
        ("manifest_version_code"@, decimal(VERSION_CODE as nat)),
        ("update_version_code"@, decimal(VERSION_CODE as nat)),
        ("resolution"@, RESOLUTION@),
        ("dpi"@, DPI@),
        ("device_type"@, DEVICE_TYPE@),
        ("device_brand"@, DEVICE_BRAND@),
        ("language"@, LANGUAGE@),
        ("os_api"@, OS_API@),
        ("os_version"@, OS_VERSION@),
        ("ac"@, "wifi"@),
    ]
}

/// The parameters of the request for the settings of a device.
pub open spec fn settings_parameters(cdid: Seq<char>, device_id: Seq<char>, rticket: nat) -> Seq<
    (Seq<char>, Seq<char>),
> {
    common_parameters(cdid, rticket).push(("device_id"@, device_id))
}

/// Appends one parameter.
fn put(pairs: &mut Vec<(String, String)>, name: &str, value: String)
    ensures
        pairs_view(final(pairs)@) == pairs_view(old(pairs)@).push((name@, value@)),
{
    pairs.push((name.to_owned(), value));
    assert(pairs_view(pairs@) =~= pairs_view(old(pairs)@).push((name@, value@)));
}

/// The parameters that both requests of a registration share.
fn common_query(cdid: &str, rticket: u64) -> (pairs: Vec<(String, String)>)
    ensures
        pairs_view(pairs@) == common_parameters(cdid@, rticket as nat),
{
    let mut pairs: Vec<(String, String)> = Vec::new();
    assert(pairs_view(pairs@) =~= Seq::empty());
    put(&mut pairs, "device_platform", DEVICE_PLATFORM.to_owned());
    put(&mut pairs, "os", OS.to_owned());
    put(&mut pairs, "ssmix", "a".to_owned());
    put(&mut pairs, "_rticket", decimal_string(rticket));
    put(&mut pairs, "cdid", cdid.to_owned());
    put(&mut pairs, "channel", CHANNEL.to_owned());
    put(&mut pairs, "aid", decimal_string(AID as u64));
    put(&mut pairs, "app_name", APP_NAME.to_owned());
    put(&mut pairs, "version_code", decimal_string(VERSION_CODE as u64));
    put(&mut pairs, "version_name", VERSION_NAME.to_owned());
    assert(pairs_view(pairs@) =~= common_parameters(cdid@, rticket as nat));
    pairs
}

/// The parameters of the request that registers the device of `creds`, made
/// at the time `rticket` in milliseconds.
pub fn register_query(creds: &DeviceCredentials, rticket: u64) -> (pairs: Vec<(String, String)>)
    ensures
        pairs_view(pairs@) == register_parameters(creds.cdid@, rticket as nat),
{
    let mut pairs = common_query(creds.cdid.as_str(), rticket);
    put(&mut pairs, "manifest_version_code", decimal_string(VERSION_CODE as u64));
    put(&mut pairs, "update_version_code", decimal_string(VERSION_CODE as u64));
    put(&mut pairs, "resolution", RESOLUTION.to_owned());
    put(&mut pairs, "dpi", DPI.to_owned());
    put(&mut pairs, "device_type", DEVICE_TYPE.to_owned());
    put(&mut pairs, "device_brand", DEVICE_BRAND.to_owned());
    put(&mut pairs, "language", LANGUAGE.to_owned());
    put(&mut pairs, "os_api", OS_API.to_owned());
    put(&mut pairs, "os_version", OS_VERSION.to_owned());
    put(&mut pairs, "ac", "wifi".to_owned());
    assert(pairs_view(pairs@) =~= register_parameters(creds.cdid@, rticket as nat));
    pairs
}

/// The parameters of the request for the settings of the device of
/// `creds`, made at the time `rticket` in milliseconds.
pub fn settings_query(creds: &DeviceCredentials, rticket: u64) -> (pairs: Vec<(String, String)>)
    ensures
        pairs_view(pairs@) == settings_parameters(creds.cdid@, creds.device_id@, rticket as nat),
{
    let mut pairs = common_query(creds.cdid.as_str(), rticket);
    put(&mut pairs, "device_id", creds.device_id.as_str().to_owned());
    pairs
}

/// The check value that goes with the request for the settings: the MD5
/// digest of its body in upper-case hexadecimal digits.
pub fn settings_stub() -> (stub: String)
    ensures
        stub@ == md5_upper_hex(vstd::utf8::encode_utf8(SETTINGS_BODY@)),
{
    md5_hex(SETTINGS_BODY.as_bytes())
}

/// What a device tells of itself when it registers.
#[derive(Debug)]
pub struct DeviceRegisterHeader {
    pub device_id: u64,
    pub install_id: u64,
    pub aid: u32,
    pub app_name: String,
    pub version_code: u32,
    pub version_name: String,
    pub manifest_version_code: u32,
    pub update_version_code: u32,
    pub channel: String,
    pub package: String,
    pub device_platform: String,
    pub os: String,
    pub os_api: String,
    pub os_version: String,
    pub device_type: String,
    pub device_brand: String,
    pub device_model: String,
    pub resolution: String,
    pub dpi: String,
    pub language: String,
    pub timezone: i32,
    pub access: String,
    pub rom: String,
    pub rom_version: String,
    pub openudid: String,
    pub clientudid: String,
    pub cdid: String,
    pub region: String,
    pub tz_name: String,
    pub tz_offset: i32,
    pub sim_region: String,
    pub carrier_region: String,
    pub cpu_abi: String,
    pub build_serial: String,
    pub not_request_sender: i32,
    pub sig_hash: String,
    pub google_aid: String,
    pub mc: String,
    pub serial_number: String,
}

impl DeviceRegisterHeader {
    /// The header says what the constants of this client say, and names
    /// the three identifiers of the device.
    pub open spec fn describes(&self, cdid: Seq<char>, openudid: Seq<char>, clientudid: Seq<char>) -> bool {
        &&& self.device_id == 0
        &&& self.install_id == 0
        &&& self.aid == AID
        &&& self.app_name@ == APP_NAME@
        &&& self.version_code == VERSION_CODE
        &&& self.version_name@ == VERSION_NAME@
        &&& self.manifest_version_code == VERSION_CODE
        &&& self.update_version_code == VERSION_CODE
        &&& self.channel@ == CHANNEL@
        &&& self.package@ == PACKAGE@
        &&& self.device_platform@ == DEVICE_PLATFORM@
        &&& self.os@ == OS@
        &&& self.os_api@ == OS_API@
        &&& self.os_version@ == OS_VERSION@
        &&& self.device_type@ == DEVICE_TYPE@
        &&& self.device_brand@ == DEVICE_BRAND@
        &&& self.device_model@ == DEVICE_MODEL@
        &&& self.resolution@ == RESOLUTION@
        &&& self.dpi@ == DPI@
        &&& self.language@ == LANGUAGE@
        &&& self.timezone == TIMEZONE
        &&& self.access@ == ACCESS@
        &&& self.rom@ == ROM@
        &&& self.rom_version@ == ROM_VERSION@
        &&& self.openudid@ == openudid
        &&& self.clientudid@ == clientudid
        &&& self.cdid@ == cdid
        &&& self.region@ == "CN"@
        &&& self.tz_name@ == "Asia/Shanghai"@
        &&& self.tz_offset == 28800
        &&& self.sim_region@ == "cn"@
        &&& self.carrier_region@ == "cn"@
        &&& self.cpu_abi@ == "arm64-v8a"@
        &&& self.build_serial@ == "unknown"@
        &&& self.not_request_sender == 0
        &&& self.sig_hash@.len() == 0
        &&& self.google_aid@.len() == 0
        &&& self.mc@.len() == 0
        &&& self.serial_number@.len() == 0
    }

    /// The header of a device that has no device id yet.
    pub fn new(cdid: &str, openudid: &str, clientudid: &str) -> (header: DeviceRegisterHeader)
        ensures
            header.describes(cdid@, openudid@, clientudid@),
    {
        DeviceRegisterHeader {
            device_id: 0,
            install_id: 0,
            aid: AID,
            app_name: APP_NAME.to_owned(),
            version_code: VERSION_CODE,
            version_name: VERSION_NAME.to_owned(),
            manifest_version_code: VERSION_CODE,
            update_version_code: VERSION_CODE,
            channel: CHANNEL.to_owned(),
            package: PACKAGE.to_owned(),
            device_platform: DEVICE_PLATFORM.to_owned(),
            os: OS.to_owned(),
            os_api: OS_API.to_owned(),
            os_version: OS_VERSION.to_owned(),
            device_type: DEVICE_TYPE.to_owned(),
            device_brand: DEVICE_BRAND.to_owned(),
            device_model: DEVICE_MODEL.to_owned(),
            resolution: RESOLUTION.to_owned(),
            dpi: DPI.to_owned(),
            language: LANGUAGE.to_owned(),
            timezone: TIMEZONE,
            access: ACCESS.to_owned(),
            rom: ROM.to_owned(),
            rom_version: ROM_VERSION.to_owned(),
            openudid: openudid.to_owned(),
            clientudid: clientudid.to_owned(),
            cdid: cdid.to_owned(),
            region: "CN".to_owned(),
            tz_name: "Asia/Shanghai".to_owned(),
            tz_offset: 28800,
            sim_region: "cn".to_owned(),
            carrier_region: "cn".to_owned(),
            cpu_abi: "arm64-v8a".to_owned(),
            build_serial: "unknown".to_owned(),
            not_request_sender: 0,
            sig_hash: String::new(),
            google_aid: String::new(),
            mc: String::new(),
            serial_number: String::new(),
        }
    }
}

/// Body of the request that registers a device.
#[derive(Debug)]
pub struct DeviceRegisterBody {
    pub magic_tag: String,
    pub header: DeviceRegisterHeader,
    pub gen_time: u64,
}

impl DeviceRegisterBody {
    /// The body for the device of `creds`, made at the time `gen_time` in
    /// milliseconds.
    pub fn new(creds: &DeviceCredentials, gen_time: u64) -> (body: DeviceRegisterBody)
        ensures
            body.magic_tag@ == "ss_app_log"@,
            body.header.describes(creds.cdid@, creds.openudid@, creds.clientudid@),
            body.gen_time == gen_time,
    {
        DeviceRegisterBody {
            magic_tag: "ss_app_log".to_owned(),
            header: DeviceRegisterHeader::new(
                creds.cdid.as_str(),
                creds.openudid.as_str(),
                creds.clientudid.as_str(),
            ),
            gen_time,
        }
    }
}

} // verus!
