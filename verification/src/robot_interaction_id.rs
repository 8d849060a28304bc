//! Identifiers of the robots and servers that robot-interaction frames
//! address (sender and receiver fields of cmd 0x0301).

use vstd::prelude::*;

verus! {

/// A device on the referee network; red units are numbered 1-11, blue units
/// 101-111, the referee server is 0x8080. `Unknown` stands for any other
/// number and is written as 0.
#[derive(Debug, Clone, Copy, PartialEq, Eq)]
pub enum DeviceId {
    RedHero,
    RedEngineer,
    RedInfantry3,
    RedInfantry4,
    RedInfantry5,
    RedAerial,
    RedSentry,
    RedDart,
    RedRadar,
    RedOutpost,
    RedBase,
    BlueHero,
    BlueEngineer,
    BlueInfantry3,
    BlueInfantry4,
    BlueInfantry5,
    BlueAerial,
    BlueSentry,
    BlueDart,
    BlueRadar,
    BlueOutpost,
    BlueBase,
    RefereeServer,
    Unknown,
}

/// The number that identifies a device on the wire.
pub open spec fn device_number(d: DeviceId) -> u16 {
    match d {
        DeviceId::RedHero => 1,
        DeviceId::RedEngineer => 2,
        DeviceId::RedInfantry3 => 3,
        DeviceId::RedInfantry4 => 4,
        DeviceId::RedInfantry5 => 5,
        DeviceId::RedAerial => 6,
        DeviceId::RedSentry => 7,
        DeviceId::RedDart => 8,
        DeviceId::RedRadar => 9,
        DeviceId::RedOutpost => 10,
        DeviceId::RedBase => 11,
        DeviceId::BlueHero => 101,
        DeviceId::BlueEngineer => 102,
        DeviceId::BlueInfantry3 => 103,
        DeviceId::BlueInfantry4 => 104,
        DeviceId::BlueInfantry5 => 105,
        DeviceId::BlueAerial => 106,
        DeviceId::BlueSentry => 107,
        DeviceId::BlueDart => 108,
        DeviceId::BlueRadar => 109,
        DeviceId::BlueOutpost => 110,
        DeviceId::BlueBase => 111,
        DeviceId::RefereeServer => 32896,
        DeviceId::Unknown => 0,
    }
}

/// The device that a wire number names.
pub open spec fn device_of(v: u16) -> DeviceId {
    match v {
        1 => DeviceId::RedHero,
        2 => DeviceId::RedEngineer,
        3 => DeviceId::RedInfantry3,
        4 => DeviceId::RedInfantry4,
        5 => DeviceId::RedInfantry5,
        6 => DeviceId::RedAerial,
        7 => DeviceId::RedSentry,
        8 => DeviceId::RedDart,
        9 => DeviceId::RedRadar,
        10 => DeviceId::RedOutpost,
        11 => DeviceId::RedBase,
        101 => DeviceId::BlueHero,
        102 => DeviceId::BlueEngineer,
        103 => DeviceId::BlueInfantry3,
        104 => DeviceId::BlueInfantry4,
        105 => DeviceId::BlueInfantry5,
        106 => DeviceId::BlueAerial,
        107 => DeviceId::BlueSentry,
        108 => DeviceId::BlueDart,
        109 => DeviceId::BlueRadar,
        110 => DeviceId::BlueOutpost,
        111 => DeviceId::BlueBase,
        32896 => DeviceId::RefereeServer,
        _ => DeviceId::Unknown,
    }
}

impl From<DeviceId> for u16 {
    fn from(d: DeviceId) -> (r: u16) {
        match d {
        DeviceId::RedHero => 1,
        DeviceId::RedEngineer => 2,
        DeviceId::RedInfantry3 => 3,
        DeviceId::RedInfantry4 => 4,
        DeviceId::RedInfantry5 => 5,
        DeviceId::RedAerial => 6,
        DeviceId::RedSentry => 7,
        DeviceId::RedDart => 8,
        DeviceId::RedRadar => 9,
        DeviceId::RedOutpost => 10,
        DeviceId::RedBase => 11,
        DeviceId::BlueHero => 101,
        DeviceId::BlueEngineer => 102,
        DeviceId::BlueInfantry3 => 103,
        DeviceId::BlueInfantry4 => 104,
        DeviceId::BlueInfantry5 => 105,
        DeviceId::BlueAerial => 106,
        DeviceId::BlueSentry => 107,
        DeviceId::BlueDart => 108,
        DeviceId::BlueRadar => 109,
        DeviceId::BlueOutpost => 110,
        DeviceId::BlueBase => 111,
        DeviceId::RefereeServer => 32896,
            DeviceId::Unknown => 0,
        }
    }
}

impl vstd::std_specs::convert::FromSpecImpl<DeviceId> for u16 {
    open spec fn obeys_from_spec() -> bool {
        true
    }

    open spec fn from_spec(d: DeviceId) -> u16 {
        device_number(d)
    }
}

impl From<u16> for DeviceId {
    fn from(v: u16) -> (r: DeviceId) {
        match v {
        1 => DeviceId::RedHero,
        2 => DeviceId::RedEngineer,
        3 => DeviceId::RedInfantry3,
        4 => DeviceId::RedInfantry4,
        5 => DeviceId::RedInfantry5,
        6 => DeviceId::RedAerial,
        7 => DeviceId::RedSentry,
        8 => DeviceId::RedDart,
        9 => DeviceId::RedRadar,
        10 => DeviceId::RedOutpost,
        11 => DeviceId::RedBase,
        101 => DeviceId::BlueHero,
        102 => DeviceId::BlueEngineer,
        103 => DeviceId::BlueInfantry3,
        104 => DeviceId::BlueInfantry4,
        105 => DeviceId::BlueInfantry5,
        106 => DeviceId::BlueAerial,
        107 => DeviceId::BlueSentry,
        108 => DeviceId::BlueDart,
        109 => DeviceId::BlueRadar,
        110 => DeviceId::BlueOutpost,
        111 => DeviceId::BlueBase,
        32896 => DeviceId::RefereeServer,
            _ => DeviceId::Unknown,
        }
    }
}

impl vstd::std_specs::convert::FromSpecImpl<u16> for DeviceId {
    open spec fn obeys_from_spec() -> bool {
        true
    }

    open spec fn from_spec(v: u16) -> DeviceId {
        device_of(v)
    }
}

impl DeviceId {
    /// The wire number of this device.
    pub fn number(self) -> (r: u16)
        ensures
            r == device_number(self),
    {
        u16::from(self)
    }
}

/// Every known device is named back by its own number, and a number that
/// names a known device is that device's number.
pub proof fn lemma_device_number_roundtrip(d: DeviceId, v: u16)
    ensures
        d != DeviceId::Unknown ==> device_of(device_number(d)) == d,
        device_of(v) != DeviceId::Unknown ==> device_number(device_of(v)) == v,
{
}

}
