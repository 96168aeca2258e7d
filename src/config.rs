//! The key/value configuration store (an `ini::Ini`): lookups, and the
//! default configuration written when the file is missing or empty.

use vstd::prelude::*;

verus! {

#[verifier::external_type_specification]
#[verifier::external_body]
pub struct ExIni(ini::Ini);

/// What a configuration store holds, as `get_from` answers it: for each
/// (section, key) pair that is present, the first value of that key in the
/// first section of that name.
pub uninterp spec fn ini_values(c: ini::Ini) -> Map<(Option<Seq<char>>, Seq<char>), Seq<char>>;

/// Relies on `ini::Ini::get_from`: it returns the first value of `key` in the
/// first section named `section`, or `None` when there is none.
#[verifier::external_body]
fn ini_get_from(conf: &ini::Ini, section: &str, key: &str) -> (r: Option<String>)
    ensures
        r is Some <==> ini_values(*conf).contains_key((Some(section@), key@)),
        r is Some ==> r->0@ == ini_values(*conf)[(Some(section@), key@)],
{
    conf.get_from(Some(section), key).map(|v| v.to_string())
}

/// The value of `key` in `section`, if the store has one.
pub fn ini_get_ini_config(conf: &ini::Ini, section: &str, key: &str) -> (r: Option<String>)
    ensures
        r is Some <==> ini_values(*conf).contains_key((Some(section@), key@)),
        r is Some ==> r->0@ == ini_values(*conf)[(Some(section@), key@)],
{
    ini_get_from(conf, section, key)
}

/// Firmware version recorded in the default configuration.
pub const FW_VERSION: &'static str = "A612LV-1-V1_0_0-251020";

pub open spec fn section_view(section: Option<&str>) -> Option<Seq<char>> {
    match section {
        Some(s) => Some(s@),
        None => None,
    }
}

/// A store without any value.
pub open spec fn no_values() -> Map<(Option<Seq<char>>, Seq<char>), Seq<char>> {
    Map::empty()
}

/// Relies on `ini::Ini::new`: a store holding only an empty general section.
#[verifier::external_body]
fn ini_new() -> (r: ini::Ini)
    ensures
        ini_values(r) == no_values(),
{
    ini::Ini::new()
}

/// Relies on `ini::Ini::set_to`: in the first section named `section`
/// (created at the end when there is none), every value of `key` is replaced
/// by the single value `value`; nothing else changes.
#[verifier::external_body]
fn ini_set(conf: &mut ini::Ini, section: Option<&str>, key: &str, value: &str)
    ensures
        ini_values(*final(conf)) == ini_values(*old(conf)).insert((section_view(section), key@), value@),
{
    conf.set_to(section, key.to_string(), value.to_string())
}

/// The default configuration, entry by entry.
pub open spec fn default_values() -> Map<(Option<Seq<char>>, Seq<char>), Seq<char>> {
    let sys = Some("system"@);
    let gpio = Some("gpiopins"@);
    let quectel = Some("quectel"@);
    let net = Some("network"@);
    let gb = Some("gb28181"@);
    no_values()
        .insert((None, "soc"@), "mc6357"@)
        .insert((sys, "FW_VERSION"@), FW_VERSION@)
        .insert((sys, "LOG_LEVEL"@), "7"@)
        .insert((sys, "lockstatus"@), "unlock"@)
        .insert((sys, "serial"@), "/dev/ttyS1"@)
        .insert((sys, "sddevname"@), "/dev/mmcblk1p1"@)
        .insert((sys, "sddevmnt"@), "/media"@)
        .insert((sys, "sdeventsdir"@), "events"@)
        .insert((sys, "sdrecorddir"@), "record"@)
        .insert((sys, "emmcdevname"@), "/dev/mmcblk0p9"@)
        .insert((sys, "emmcdevmnt"@), "/data"@)
        .insert((sys, "emmceventsdir"@), "events"@)
        .insert((sys, "emmcrecorddir"@), "record"@)
        .insert((sys, "recorder"@), "off"@)
        .insert((sys, "yolov5s"@), "off"@)
        .insert((sys, "rtmp_dev"@), "0"@)
        .insert((gpio, "camctlbase"@), "37"@)
        .insert((gpio, "netpower"@), "33"@)
        .insert((gpio, "ownsidebusy"@), "41"@)
        .insert((gpio, "counterpartbusy"@), "5"@)
        .insert((quectel, "ifname"@), "ppp0"@)
        .insert((quectel, "apn"@), "cmiot"@)
        .insert((quectel, "quectel_user"@), "test"@)
        .insert((quectel, "quectel_pwd"@), "test"@)
        .insert((net, "interval"@), "10"@)
        .insert((net, "rtmp"@), "rtmp://vedio.hhdlink.online:1935/live/000000001332"@)
        .insert((net, "ftp_addr"@), "sdzt.hhdlink.online:21"@)
        .insert((net, "ftp_path"@), "/t31"@)
        .insert((net, "ftp_user"@), "test"@)
        .insert((net, "ftp_pwd"@), "hhd@123.com"@)
        .insert((gb, "status"@), "off"@)
        .insert((gb, "codeStream"@), "main"@)
        .insert((gb, "serverIp"@), "219.134.62.202"@)
        .insert((gb, "serverPort"@), "5060"@)
        .insert((gb, "serverId"@), "44010200492504240018"@)
        .insert((gb, "domain"@), "4401020049"@)
        .insert((gb, "encode"@), "disable"@)
        .insert((gb, "passWord"@), "admin123"@)
        .insert((gb, "regTimeOut"@), "900"@)
        .insert((gb, "heartBeat"@), "60"@)
        .insert((gb, "deviceId"@), "44010200492504240018"@)
        .insert((gb, "devicePort"@), "5060"@)
        .insert((gb, "alertId"@), "0"@)
}

/// The configuration written when none is found.
pub fn ini_setting_default() -> (r: ini::Ini)
    ensures
        ini_values(r) == default_values(),
{
    let mut conf = ini_new();
    ini_set(&mut conf, None, "soc", "mc6357");

    let sys = Some("system");
    ini_set(&mut conf, sys, "FW_VERSION", FW_VERSION);
    ini_set(&mut conf, sys, "LOG_LEVEL", "7");
    ini_set(&mut conf, sys, "lockstatus", "unlock");
    ini_set(&mut conf, sys, "serial", "/dev/ttyS1");
    ini_set(&mut conf, sys, "sddevname", "/dev/mmcblk1p1");
    ini_set(&mut conf, sys, "sddevmnt", "/media");
    ini_set(&mut conf, sys, "sdeventsdir", "events");
    ini_set(&mut conf, sys, "sdrecorddir", "record");
    ini_set(&mut conf, sys, "emmcdevname", "/dev/mmcblk0p9");
    ini_set(&mut conf, sys, "emmcdevmnt", "/data");
    ini_set(&mut conf, sys, "emmceventsdir", "events");
    ini_set(&mut conf, sys, "emmcrecorddir", "record");
    ini_set(&mut conf, sys, "recorder", "off");
    ini_set(&mut conf, sys, "yolov5s", "off");
    ini_set(&mut conf, sys, "rtmp_dev", "0");

    let gpio = Some("gpiopins");
    ini_set(&mut conf, gpio, "camctlbase", "37");
    ini_set(&mut conf, gpio, "netpower", "33");
    ini_set(&mut conf, gpio, "ownsidebusy", "41");
    ini_set(&mut conf, gpio, "counterpartbusy", "5");

    let quectel = Some("quectel");
    ini_set(&mut conf, quectel, "ifname", "ppp0");
    ini_set(&mut conf, quectel, "apn", "cmiot");
    ini_set(&mut conf, quectel, "quectel_user", "test");
    ini_set(&mut conf, quectel, "quectel_pwd", "test");

    let net = Some("network");
    ini_set(&mut conf, net, "interval", "10");
    ini_set(&mut conf, net, "rtmp", "rtmp://vedio.hhdlink.online:1935/live/000000001332");
    ini_set(&mut conf, net, "ftp_addr", "sdzt.hhdlink.online:21");
    ini_set(&mut conf, net, "ftp_path", "/t31");
    ini_set(&mut conf, net, "ftp_user", "test");
    ini_set(&mut conf, net, "ftp_pwd", "hhd@123.com");

    let gb = Some("gb28181");
    ini_set(&mut conf, gb, "status", "off");
    ini_set(&mut conf, gb, "codeStream", "main");
    ini_set(&mut conf, gb, "serverIp", "219.134.62.202");
    ini_set(&mut conf, gb, "serverPort", "5060");
    ini_set(&mut conf, gb, "serverId", "44010200492504240018");
    ini_set(&mut conf, gb, "domain", "4401020049");
    ini_set(&mut conf, gb, "encode", "disable");
    ini_set(&mut conf, gb, "passWord", "admin123");
    ini_set(&mut conf, gb, "regTimeOut", "900");
    ini_set(&mut conf, gb, "heartBeat", "60");
    ini_set(&mut conf, gb, "deviceId", "44010200492504240018");
    ini_set(&mut conf, gb, "devicePort", "5060");
    ini_set(&mut conf, gb, "alertId", "0");
    conf
}

} // verus!
