//! Discovery of paired earbuds and the steps that establish the serial
//! connection to one of them. The Bluetooth calls themselves are made by
//! the caller; what is decided here is which devices count, with which
//! profile the connection is asked for, and how an attempt ends.

use vstd::prelude::*;
use crate::model::device_info::DeviceInfo;

verus! {

/// The vendor's serial-port service, `2e73a4ad-332d-41fc-90e2-16bef06523f2`.
pub const SAMSUNG_SPP_UUID: u128 = 0x2e73a4ad_332d_41fc_90e2_16bef06523f2;

/// Why no list of devices could be had.
#[derive(Debug, Clone, PartialEq, Eq)]
pub enum DiscoveryError {
    /// No session with the Bluetooth subsystem, or no adapter.
    AdapterUnavailable(String),
    /// The adapter could not be switched on, or its devices not listed.
    EnumerationFailed(String),
}

/// A known device and what the query for its services gave: the service
/// identifiers, nothing at all, or an error.
#[derive(Debug)]
pub struct Probe<D> {
    pub device: D,
    pub uuids: Result<Option<Vec<u128>>, String>,
}

impl<D> Probe<D> {
    /// The device offers the vendor's serial-port service. A device whose
    /// services could not be had does not count.
    pub open spec fn is_galaxy_buds(self) -> bool {
        match self.uuids {
            Ok(Some(uuids)) => uuids@.contains(SAMSUNG_SPP_UUID),
            _ => false,
        }
    }
}

/// The devices among `probes` that offer the vendor's serial-port service,
/// in the order of the probes.
pub open spec fn galaxy_buds_among<D>(probes: Seq<Probe<D>>) -> Seq<D> {
    probes.filter_map(
        |probe: Probe<D>|
            if probe.is_galaxy_buds() {
                Some(probe.device)
            } else {
                None
            },
    )
}

/// `uuid` is one of `uuids`.
pub fn contains_uuid(uuids: &Vec<u128>, uuid: u128) -> (found: bool)
    ensures
        found == uuids@.contains(uuid),
{
    let mut i: usize = 0;
    while i < uuids.len()
        invariant
            i <= uuids.len(),
            forall|j: int| 0 <= j < i ==> uuids@[j] != uuid,
        decreases uuids.len() - i,
    {
        if uuids[i] == uuid {
            return true;
        }
        i += 1;
    }
    false
}

/// Picks the earbuds out of the known devices: a device is kept if and only
/// if the query for its services succeeded and gave the vendor's serial-port
/// service. An enumeration that failed is passed on as it is.
pub fn discover_galaxy_buds<D>(enumeration: Result<Vec<Probe<D>>, DiscoveryError>) -> (found:
    Result<Vec<D>, DiscoveryError>)
    ensures
        match enumeration {
            Ok(probes) => found is Ok && found->Ok_0@ == galaxy_buds_among(probes@),
            Err(error) => found == Err::<Vec<D>, DiscoveryError>(error),
        },
{
    match enumeration {
        Ok(probes) => {
            let ghost all = probes@;
            let mut found: Vec<D> = Vec::new();
            for probe in it: probes
                invariant
                    it.seq() == all,
                    found@ == galaxy_buds_among(all.take(it.index() as int)),
            {
                let keep = match &probe.uuids {
                    Ok(Some(uuids)) => contains_uuid(uuids, SAMSUNG_SPP_UUID),
                    _ => false,
                };
                proof {
                    let i = it.index() as int;
                    assert(all.take(i + 1).drop_last() =~= all.take(i));
                    assert(all.take(i + 1).last() == probe);
                }
                if keep {
                    found.push(probe.device);
                }
            }
            proof {
                assert(all.take(all.len() as int) =~= all);
            }
            Ok(found)
        },
        Err(error) => Err(error),
    }
}

/// `i` is the position of the remembered device among `devices`: the first
/// one with the address `address`, which is not empty.
pub open spec fn is_remembered_at<D>(devices: Seq<DeviceInfo<D>>, address: Seq<char>, i: int)
    -> bool {
    &&& address.len() > 0
    &&& 0 <= i < devices.len()
    &&& devices[i].address@ == address
    &&& forall|j: int| 0 <= j < i ==> devices[j].address@ != address
}

/// No device is remembered, or the remembered device is not among
/// `devices`: the address is empty, or no device has it.
pub open spec fn remembered_is_absent<D>(devices: Seq<DeviceInfo<D>>, address: Seq<char>) -> bool {
    address.len() == 0 || forall|j: int| 0 <= j < devices.len() ==> devices[j].address@ != address
}

/// Looks for the device that was used last among those discovered: the
/// first one whose address is `address`. An empty address stands for no
/// remembered device and selects none.
pub fn select_remembered<D>(devices: &Vec<DeviceInfo<D>>, address: &String) -> (selected: Option<
    usize,
>)
    ensures
        match selected {
            Some(i) => is_remembered_at(devices@, address@, i as int),
            None => remembered_is_absent(devices@, address@),
        },
{
    if address.as_str().is_empty() {
        return None;
    }
    let mut i: usize = 0;
    while i < devices.len()
        invariant
            i <= devices.len(),
            address@.len() > 0,
            forall|j: int| 0 <= j < i ==> devices[j].address@ != address@,
        decreases devices.len() - i,
    {
        if devices[i].address == *address {
            return Some(i);
        }
        i += 1;
    }
    None
}

/// The side that a serial-port profile takes.
#[derive(Clone, Copy, Debug, PartialEq, Eq, Structural)]
pub enum ProfileRole {
    Client,
    Server,
}

/// The profile that is registered to reach a device's serial port.
#[derive(Clone, Copy, Debug, PartialEq, Eq, Structural)]
pub struct ProfileSettings {
    pub uuid: u128,
    pub role: ProfileRole,
    pub require_authentication: bool,
    pub require_authorization: bool,
    pub auto_connect: bool,
}

/// The profile for the earbuds: a client of the vendor's serial-port
/// service that asks for neither authentication nor authorization and
/// connects by itself.
pub fn spp_profile() -> (profile: ProfileSettings)
    ensures
        profile == (ProfileSettings {
            uuid: SAMSUNG_SPP_UUID,
            role: ProfileRole::Client,
            require_authentication: false,
            require_authorization: false,
            auto_connect: true,
        }),
{
    ProfileSettings {
        uuid: SAMSUNG_SPP_UUID,
        role: ProfileRole::Client,
        require_authentication: false,
        require_authorization: false,
        auto_connect: true,
    }
}

/// The steps of a connection attempt, in their order.
#[derive(Clone, Copy, Debug, PartialEq, Eq, Structural)]
pub enum ConnectStage {
    /// Open a fresh session with the Bluetooth subsystem.
    OpenSession,
    /// Connect the device.
    ConnectDevice,
    /// Register the profile that `spp_profile` gives.
    RegisterProfile,
    /// Wait for one connection request on the profile.
    AwaitRequest,
    /// Accept the request, which gives the stream.
    AcceptRequest,
}

/// Why a connection attempt failed.
#[derive(Debug, Clone, PartialEq, Eq)]
pub enum ConnectError {
    Session(String),
    DeviceConnect(String),
    ProfileRegistration(String),
    /// The profile gave no connection request.
    NoRequest,
    Accept(String),
}

/// What a `ConnectError` holds.
pub enum ConnectErrorView {
    Session(Seq<char>),
    DeviceConnect(Seq<char>),
    ProfileRegistration(Seq<char>),
    NoRequest,
    Accept(Seq<char>),
}

impl View for ConnectError {
    type V = ConnectErrorView;

    open spec fn view(&self) -> ConnectErrorView {
        match *self {
            ConnectError::Session(detail) => ConnectErrorView::Session(detail@),
            ConnectError::DeviceConnect(detail) => ConnectErrorView::DeviceConnect(detail@),
            ConnectError::ProfileRegistration(detail) => ConnectErrorView::ProfileRegistration(
                detail@,
            ),
            ConnectError::NoRequest => ConnectErrorView::NoRequest,
            ConnectError::Accept(detail) => ConnectErrorView::Accept(detail@),
        }
    }
}

impl ConnectErrorView {
    /// The text of the error.
    pub open spec fn message(self) -> Seq<char> {
        match self {
            ConnectErrorView::Session(detail) => detail,
            ConnectErrorView::DeviceConnect(detail) => detail,
            ConnectErrorView::ProfileRegistration(detail) => detail,
            ConnectErrorView::NoRequest => "No connection request received"@,
            ConnectErrorView::Accept(detail) => detail,
        }
    }
}

impl ConnectError {
    /// The text of the error: what the failed step reported, or that no
    /// request came.
    pub fn message(&self) -> (text: String)
        ensures
            text@ == self@.message(),
    {
        match self {
            ConnectError::Session(detail) => detail.clone(),
            ConnectError::DeviceConnect(detail) => detail.clone(),
            ConnectError::ProfileRegistration(detail) => detail.clone(),
            ConnectError::NoRequest => "No connection request received".to_owned(),
            ConnectError::Accept(detail) => detail.clone(),
        }
    }
}

/// Where a connection attempt stands after one of its steps.
#[derive(Debug, Clone, PartialEq, Eq)]
pub enum ConnectProgress {
    /// The step succeeded; this one is next.
    Next(ConnectStage),
    /// The last step succeeded: the stream is there.
    Established,
    /// The step failed, and with it the attempt.
    Failed(ConnectError),
}

/// What a `ConnectProgress` holds.
pub enum ConnectProgressView {
    Next(ConnectStage),
    Established,
    Failed(ConnectErrorView),
}

impl View for ConnectProgress {
    type V = ConnectProgressView;

    open spec fn view(&self) -> ConnectProgressView {
        match *self {
            ConnectProgress::Next(stage) => ConnectProgressView::Next(stage),
            ConnectProgress::Established => ConnectProgressView::Established,
            ConnectProgress::Failed(error) => ConnectProgressView::Failed(error@),
        }
    }
}

/// How an attempt goes on after `stage` ended with `outcome`. A step that
/// succeeded leads to the next one, the last to the stream. A step that
/// failed ends the attempt with the error of its kind; a wait for a request
/// that ended otherwise than with a request ends it with `NoRequest`.
pub open spec fn progress_after(stage: ConnectStage, outcome: Result<(), Seq<char>>)
    -> ConnectProgressView {
    match outcome {
        Ok(_) => match stage {
            ConnectStage::OpenSession => ConnectProgressView::Next(ConnectStage::ConnectDevice),
            ConnectStage::ConnectDevice => ConnectProgressView::Next(ConnectStage::RegisterProfile),
            ConnectStage::RegisterProfile => ConnectProgressView::Next(ConnectStage::AwaitRequest),
            ConnectStage::AwaitRequest => ConnectProgressView::Next(ConnectStage::AcceptRequest),
            ConnectStage::AcceptRequest => ConnectProgressView::Established,
        },
        Err(detail) => ConnectProgressView::Failed(
            match stage {
                ConnectStage::OpenSession => ConnectErrorView::Session(detail),
                ConnectStage::ConnectDevice => ConnectErrorView::DeviceConnect(detail),
                ConnectStage::RegisterProfile => ConnectErrorView::ProfileRegistration(detail),
                ConnectStage::AwaitRequest => ConnectErrorView::NoRequest,
                ConnectStage::AcceptRequest => ConnectErrorView::Accept(detail),
            },
        ),
    }
}

/// The outcome of a step, with the text of its error taken by its view.
pub open spec fn outcome_view(outcome: Result<(), String>) -> Result<(), Seq<char>> {
    match outcome {
        Ok(_) => Ok(()),
        Err(detail) => Err(detail@),
    }
}

/// Decides how a connection attempt goes on after the step `stage` ended
/// with `outcome`. The attempt begins with `ConnectStage::OpenSession`; the
/// caller performs the step that is named and reports its outcome here.
pub fn connect_and_get_stream(stage: ConnectStage, outcome: Result<(), String>) -> (progress:
    ConnectProgress)
    ensures
        progress@ == progress_after(stage, outcome_view(outcome)),
{
    match outcome {
        Ok(_) => match stage {
            ConnectStage::OpenSession => ConnectProgress::Next(ConnectStage::ConnectDevice),
            ConnectStage::ConnectDevice => ConnectProgress::Next(ConnectStage::RegisterProfile),
            ConnectStage::RegisterProfile => ConnectProgress::Next(ConnectStage::AwaitRequest),
            ConnectStage::AwaitRequest => ConnectProgress::Next(ConnectStage::AcceptRequest),
            ConnectStage::AcceptRequest => ConnectProgress::Established,
        },
        Err(detail) => ConnectProgress::Failed(
            match stage {
                ConnectStage::OpenSession => ConnectError::Session(detail),
                ConnectStage::ConnectDevice => ConnectError::DeviceConnect(detail),
                ConnectStage::RegisterProfile => ConnectError::ProfileRegistration(detail),
                ConnectStage::AwaitRequest => ConnectError::NoRequest,
                ConnectStage::AcceptRequest => ConnectError::Accept(detail),
            },
        ),
    }
}

} // verus!
