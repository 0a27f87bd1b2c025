//! The device descriptor matcher: a pure scan over caller-supplied USB
//! descriptor data that picks out the bootloader's vendor interface and its
//! bulk endpoint pair.

use vstd::prelude::*;

use crate::errors::ProtocolError;

verus! {

/// Vendor id of the bootloader device.
pub const BOOTLOADER_VID: u16 = 0x2e8a;

/// Product id of the bootloader device.
pub const BOOTLOADER_PID: u16 = 0x0003;

/// One endpoint of an alternate setting: its address and its direction
/// (`is_in` for device-to-host).
#[derive(Clone, Copy, Debug, PartialEq, Eq, Structural)]
pub struct EndpointDescriptor {
    pub address: u8,
    pub is_in: bool,
}

/// One alternate setting of an interface: its numbers, its class triple,
/// and its endpoints in descriptor order.
#[derive(Clone, Debug)]
pub struct AltSettingDescriptor {
    pub interface_number: u8,
    pub setting_number: u8,
    pub class_code: u8,
    pub sub_class_code: u8,
    pub protocol_code: u8,
    pub endpoints: Vec<EndpointDescriptor>,
}

/// One configuration of a device: its number and its interfaces' alternate
/// settings in descriptor order.
#[derive(Clone, Debug)]
pub struct ConfigDescriptor {
    pub number: u8,
    pub settings: Vec<AltSettingDescriptor>,
}

/// One attached device: its vendor and product ids and its configurations
/// in descriptor order.
#[derive(Clone, Debug)]
pub struct DeviceDescriptor {
    pub vendor_id: u16,
    pub product_id: u16,
    pub configs: Vec<ConfigDescriptor>,
}

/// Everything a session needs to drive the bootloader: the ids the device
/// was found under, its bulk endpoint pair, and the interface, configuration
/// and alternate-setting numbers to claim.
#[derive(Clone, Copy, Debug, PartialEq, Eq, Structural)]
pub struct DeviceInformation {
    pub vid: u16,
    pub pid: u16,
    pub in_addr: u8,
    pub out_addr: u8,
    pub iface: u8,
    pub config: u8,
    pub setting: u8,
}

/// The device carries the bootloader's vendor and product ids.
pub open spec fn is_target_device(d: DeviceDescriptor) -> bool {
    d.vendor_id == BOOTLOADER_VID && d.product_id == BOOTLOADER_PID
}

/// The class triple that marks the bootloader's vendor interface:
/// vendor-specific class, zero sub-class, zero protocol.
pub open spec fn is_vendor_setting(s: AltSettingDescriptor) -> bool {
    s.class_code == 0xFF && s.sub_class_code == 0 && s.protocol_code == 0
}

/// Address of the last IN endpoint in `eps`, or 0 if there is none — the
/// scan records each direction's address as it walks, so a later endpoint
/// of the same direction wins.
pub open spec fn last_in_addr(eps: Seq<EndpointDescriptor>) -> u8
    decreases eps.len(),
{
    if eps.len() == 0 {
        0
    } else if eps.last().is_in {
        eps.last().address
    } else {
        last_in_addr(eps.drop_last())
    }
}

/// Address of the last OUT endpoint in `eps`, or 0 if there is none.
pub open spec fn last_out_addr(eps: Seq<EndpointDescriptor>) -> u8
    decreases eps.len(),
{
    if eps.len() == 0 {
        0
    } else if !eps.last().is_in {
        eps.last().address
    } else {
        last_out_addr(eps.drop_last())
    }
}

/// What the matcher reports for the vendor setting `s` found in
/// configuration number `config_number`.
pub open spec fn setting_info(config_number: u8, s: AltSettingDescriptor) -> DeviceInformation {
    DeviceInformation {
        vid: BOOTLOADER_VID,
        pid: BOOTLOADER_PID,
        in_addr: last_in_addr(s.endpoints@),
        out_addr: last_out_addr(s.endpoints@),
        iface: s.interface_number,
        config: config_number,
        setting: s.setting_number,
    }
}

/// The first alternate setting in `ss` whose class triple marks the vendor
/// interface.
pub open spec fn first_vendor_setting(ss: Seq<AltSettingDescriptor>) -> Option<
    AltSettingDescriptor,
>
    decreases ss.len(),
{
    if ss.len() == 0 {
        None
    } else if is_vendor_setting(ss.first()) {
        Some(ss.first())
    } else {
        first_vendor_setting(ss.drop_first())
    }
}

/// What the matcher reports for configuration `c`: the first vendor
/// setting in it, if any.
pub open spec fn config_match(c: ConfigDescriptor) -> Option<DeviceInformation> {
    match first_vendor_setting(c.settings@) {
        Some(s) => Some(setting_info(c.number, s)),
        None => None,
    }
}

/// The first configuration in `cs` holding a vendor setting.
pub open spec fn first_config_match(cs: Seq<ConfigDescriptor>) -> Option<DeviceInformation>
    decreases cs.len(),
{
    if cs.len() == 0 {
        None
    } else {
        match config_match(cs.first()) {
            Some(info) => Some(info),
            None => first_config_match(cs.drop_first()),
        }
    }
}

/// What the matcher reports for device `d`: nothing unless the ids match,
/// else the first vendor setting across its configurations.
pub open spec fn device_match(d: DeviceDescriptor) -> Option<DeviceInformation> {
    if is_target_device(d) {
        first_config_match(d.configs@)
    } else {
        None
    }
}

/// What the matcher reports for the whole bus: the first device that both
/// carries the bootloader ids and exposes a vendor setting.
pub open spec fn find_spec(ds: Seq<DeviceDescriptor>) -> Option<DeviceInformation>
    decreases ds.len(),
{
    if ds.len() == 0 {
        None
    } else {
        match device_match(ds.first()) {
            Some(info) => Some(info),
            None => find_spec(ds.drop_first()),
        }
    }
}

/// Scans the endpoints of a setting, keeping the last address seen in each
/// direction.
fn scan_endpoints(eps: &Vec<EndpointDescriptor>) -> (r: (u8, u8))
    ensures
        r.0 == last_in_addr(eps@),
        r.1 == last_out_addr(eps@),
{
    let mut in_addr: u8 = 0;
    let mut out_addr: u8 = 0;
    let mut i: usize = 0;
    while i < eps.len()
        invariant
            i <= eps@.len(),
            in_addr == last_in_addr(eps@.take(i as int)),
            out_addr == last_out_addr(eps@.take(i as int)),
        decreases eps@.len() - i,
    {
        let e = eps[i];
        if e.is_in {
            in_addr = e.address;
        } else {
            out_addr = e.address;
        }
        proof {
            assert(eps@.take(i + 1).drop_last() =~= eps@.take(i as int));
            assert(eps@.take(i + 1).last() == eps@[i as int]);
        }
        i += 1;
    }
    proof {
        assert(eps@.take(eps@.len() as int) =~= eps@);
    }
    (in_addr, out_addr)
}

/// Classifies one alternate setting: the matcher's report if its class
/// triple marks the vendor interface, nothing otherwise.
fn match_setting(config_number: u8, s: &AltSettingDescriptor) -> (r: Option<DeviceInformation>)
    ensures
        r == (if is_vendor_setting(*s) {
            Some(setting_info(config_number, *s))
        } else {
            None::<DeviceInformation>
        }),
{
    if s.class_code != 0xFF || s.sub_class_code != 0 || s.protocol_code != 0 {
        return None;
    }
    let (in_addr, out_addr) = scan_endpoints(&s.endpoints);
    Some(
        DeviceInformation {
            vid: BOOTLOADER_VID,
            pid: BOOTLOADER_PID,
            in_addr,
            out_addr,
            iface: s.interface_number,
            config: config_number,
            setting: s.setting_number,
        },
    )
}

/// Walks one configuration's alternate settings in order and reports the
/// first vendor setting.
fn match_config(c: &ConfigDescriptor) -> (r: Option<DeviceInformation>)
    ensures
        r == config_match(*c),
{
    let mut j: usize = 0;
    proof {
        assert(c.settings@.skip(0) =~= c.settings@);
    }
    while j < c.settings.len()
        invariant
            j <= c.settings@.len(),
            first_vendor_setting(c.settings@) == first_vendor_setting(c.settings@.skip(j as int)),
        decreases c.settings@.len() - j,
    {
        let matched = match_setting(c.number, &c.settings[j]);
        proof {
            assert(c.settings@.skip(j as int).first() == c.settings@[j as int]);
            assert(c.settings@.skip(j as int).drop_first() =~= c.settings@.skip(j + 1));
        }
        if let Some(info) = matched {
            return Some(info);
        }
        j += 1;
    }
    proof {
        assert(c.settings@.skip(c.settings@.len() as int) =~= Seq::<AltSettingDescriptor>::empty());
    }
    None
}

/// Walks one device's configurations in order; nothing unless the ids
/// match.
fn match_device(d: &DeviceDescriptor) -> (r: Option<DeviceInformation>)
    ensures
        r == device_match(*d),
{
    if d.vendor_id != BOOTLOADER_VID || d.product_id != BOOTLOADER_PID {
        return None;
    }
    let mut k: usize = 0;
    proof {
        assert(d.configs@.skip(0) =~= d.configs@);
    }
    while k < d.configs.len()
        invariant
            k <= d.configs@.len(),
            is_target_device(*d),
            first_config_match(d.configs@) == first_config_match(d.configs@.skip(k as int)),
        decreases d.configs@.len() - k,
    {
        let matched = match_config(&d.configs[k]);
        proof {
            assert(d.configs@.skip(k as int).first() == d.configs@[k as int]);
            assert(d.configs@.skip(k as int).drop_first() =~= d.configs@.skip(k + 1));
        }
        if let Some(info) = matched {
            proof {
                assert(first_config_match(d.configs@.skip(k as int)) == Some(info));
            }
            return Some(info);
        }
        k += 1;
    }
    proof {
        assert(d.configs@.skip(d.configs@.len() as int) =~= Seq::<ConfigDescriptor>::empty());
    }
    None
}

/// Scans the supplied descriptor trees for the bootloader's vendor
/// interface.
///
/// Succeeds exactly when some device carries the bootloader's vendor and
/// product ids and, among its configurations, an alternate setting with the
/// vendor class triple; the report comes from the first such device, its
/// first such configuration, and the first such setting within it, with the
/// bulk endpoint addresses read off that setting. Fails with
/// `DeviceNotFound` otherwise. The scan itself performs no transfers.
pub fn find_2040(devices: &Vec<DeviceDescriptor>) -> (r: Result<DeviceInformation, ProtocolError>)
    ensures
        r is Ok <==> find_spec(devices@) is Some,
        r matches Ok(info) ==> find_spec(devices@) == Some(info),
        r is Err ==> r == Err::<DeviceInformation, ProtocolError>(ProtocolError::DeviceNotFound),
{
    let mut i: usize = 0;
    proof {
        assert(devices@.skip(0) =~= devices@);
    }
    while i < devices.len()
        invariant
            i <= devices@.len(),
            find_spec(devices@) == find_spec(devices@.skip(i as int)),
        decreases devices@.len() - i,
    {
        let matched = match_device(&devices[i]);
        proof {
            assert(devices@.skip(i as int).first() == devices@[i as int]);
            assert(devices@.skip(i as int).drop_first() =~= devices@.skip(i + 1));
        }
        if let Some(info) = matched {
            return Ok(info);
        }
        i += 1;
    }
    proof {
        assert(devices@.skip(devices@.len() as int) =~= Seq::<DeviceDescriptor>::empty());
    }
    Err(ProtocolError::DeviceNotFound)
}

} // verus!
