//! The page that lists the earbuds found and lets the user select one. It
//! remembers the device used last and selects it by itself where it is
//! found again.

use vstd::prelude::*;
use crate::bluetooth::{
    is_remembered_at, remembered_is_absent, select_remembered, DiscoveryError,
};
use crate::model::device_info::DeviceInfo;

verus! {

/// What the page is told.
#[derive(Debug, PartialEq, Eq)]
pub enum PageConnectionInput<D> {
    /// The user selected this device.
    SelectDevice(DeviceInfo<D>),
    /// Look for devices anew.
    LoadDevices,
}

/// What the page asks of the window.
#[derive(Debug, PartialEq, Eq)]
pub enum PageConnectionOutput<D> {
    /// Go on with this device.
    SelectDevice(DeviceInfo<D>),
}

/// What is to be done after a message.
#[derive(Debug, PartialEq, Eq)]
pub enum PageConnectionEffect<D> {
    /// Look for devices and report what was found.
    Discover,
    /// Keep this address as that of the device used last.
    Remember(String),
    /// Forget the address of the device used last.
    Forget,
    /// Send this output to the window.
    Output(PageConnectionOutput<D>),
}

/// The page: the devices that it lists, and whether it waits for a search
/// to end.
#[derive(Debug)]
pub struct PageConnectionModel<D> {
    devices: Vec<DeviceInfo<D>>,
    is_loading: bool,
}

impl<D> PageConnectionModel<D> {
    /// The devices listed.
    pub closed spec fn listed(&self) -> Seq<DeviceInfo<D>> {
        self.devices@
    }

    /// The page waits for a search to end.
    pub closed spec fn loading(&self) -> bool {
        self.is_loading
    }

    /// A page without devices that waits for the first search.
    pub fn init() -> (page: Self)
        ensures
            page.listed() == Seq::<DeviceInfo<D>>::empty(),
            page.loading(),
    {
        PageConnectionModel { devices: Vec::new(), is_loading: true }
    }

    /// The devices listed.
    pub fn devices(&self) -> (devices: &Vec<DeviceInfo<D>>)
        ensures
            devices@ == self.listed(),
    {
        &self.devices
    }

    /// Whether the page waits for a search to end.
    pub fn is_loading(&self) -> (loading: bool)
        ensures
            loading == self.loading(),
    {
        self.is_loading
    }

    /// Replaces the list by the devices found; the search has ended.
    pub fn populate_devices_list(&mut self, discovered_devices: Vec<DeviceInfo<D>>)
        ensures
            final(self).listed() == discovered_devices@,
            !final(self).loading(),
    {
        self.devices = discovered_devices;
        self.is_loading = false;
    }

    /// Takes what the first search gave, with the address remembered of the
    /// device used last (empty where none is remembered).
    ///
    /// Where the search found the remembered device, the page selects it
    /// and lists nothing. Where an address is remembered and its device was
    /// not found, the address is forgotten and the devices found are
    /// listed. Without a remembered address the devices found are listed. A
    /// search that failed changes nothing.
    pub fn first_discovery(
        &mut self,
        found: Result<Vec<DeviceInfo<D>>, DiscoveryError>,
        remembered: &String,
    ) -> (effects: Vec<PageConnectionEffect<D>>)
        ensures
            match found {
                Ok(devices) => if remembered_is_absent(devices@, remembered@) {
                    &&& final(self).listed() == devices@
                    &&& !final(self).loading()
                    &&& effects@ == if remembered@.len() > 0 {
                        seq![PageConnectionEffect::<D>::Forget]
                    } else {
                        Seq::<PageConnectionEffect<D>>::empty()
                    }
                } else {
                    &&& final(self).listed() == old(self).listed()
                    &&& final(self).loading() == old(self).loading()
                    &&& exists|i: int|
                        is_remembered_at(devices@, remembered@, i) && effects@ == seq![
                            PageConnectionEffect::Output(
                                PageConnectionOutput::SelectDevice(#[trigger] devices@[i]),
                            ),
                        ]
                },
                Err(_) => {
                    &&& final(self).listed() == old(self).listed()
                    &&& final(self).loading() == old(self).loading()
                    &&& effects@ == Seq::<PageConnectionEffect<D>>::empty()
                },
            },
    {
        let mut effects: Vec<PageConnectionEffect<D>> = Vec::new();
        match found {
            Ok(devices) => {
                let ghost all = devices@;
                let mut devices = devices;
                match select_remembered(&devices, remembered) {
                    Some(i) => {
                        let device = devices.remove(i);
                        effects.push(
                            PageConnectionEffect::Output(PageConnectionOutput::SelectDevice(device)),
                        );
                        assert(all[i as int] == device);
                        assert(is_remembered_at(all, remembered@, i as int));
                        assert(effects@ =~= seq![
                            PageConnectionEffect::Output(
                                PageConnectionOutput::SelectDevice(all[i as int]),
                            ),
                        ]);
                    },
                    None => {
                        if !remembered.as_str().is_empty() {
                            effects.push(PageConnectionEffect::Forget);
                        }
                        self.populate_devices_list(devices);
                        assert(effects@ =~= if remembered@.len() > 0 {
                            seq![PageConnectionEffect::<D>::Forget]
                        } else {
                            Seq::<PageConnectionEffect<D>>::empty()
                        });
                    },
                }
            },
            Err(_) => {},
        }
        effects
    }

    /// Takes what a later search gave: the devices found are listed; a
    /// search that failed changes nothing.
    pub fn discovered(&mut self, found: Result<Vec<DeviceInfo<D>>, DiscoveryError>)
        ensures
            match found {
                Ok(devices) => final(self).listed() == devices@ && !final(self).loading(),
                Err(_) => final(self).listed() == old(self).listed() && final(self).loading()
                    == old(self).loading(),
            },
    {
        match found {
            Ok(devices) => {
                self.populate_devices_list(devices);
            },
            Err(_) => {},
        }
    }

    /// Takes a message and answers with what is to be done, in order. A
    /// search is started on `LoadDevices`. A device that the user selects is
    /// remembered by its address and handed to the window.
    pub fn update(&mut self, message: PageConnectionInput<D>) -> (effects: Vec<
        PageConnectionEffect<D>,
    >)
        ensures
            final(self).listed() == old(self).listed(),
            match message {
                PageConnectionInput::LoadDevices => {
                    &&& final(self).loading()
                    &&& effects@ == seq![PageConnectionEffect::<D>::Discover]
                },
                PageConnectionInput::SelectDevice(device) => {
                    &&& final(self).loading() == old(self).loading()
                    &&& effects@ == seq![
                        PageConnectionEffect::Remember(device.address),
                        PageConnectionEffect::Output(PageConnectionOutput::SelectDevice(device)),
                    ]
                },
            },
    {
        let mut effects: Vec<PageConnectionEffect<D>> = Vec::new();
        match message {
            PageConnectionInput::LoadDevices => {
                self.is_loading = true;
                effects.push(PageConnectionEffect::Discover);
                assert(effects@ =~= seq![PageConnectionEffect::<D>::Discover]);
            },
            PageConnectionInput::SelectDevice(device) => {
                effects.push(PageConnectionEffect::Remember(device.address.clone()));
                effects.push(
                    PageConnectionEffect::Output(PageConnectionOutput::SelectDevice(device)),
                );
                assert(effects@ =~= seq![
                    PageConnectionEffect::Remember(device.address),
                    PageConnectionEffect::Output(PageConnectionOutput::SelectDevice(device)),
                ]);
            },
        }
        effects
    }
}

} // verus!
