//! The page for one device: it follows the connection and the state of
//! the earbuds, and passes the user's wishes on to the worker.

use vstd::prelude::*;
use crate::buds_worker::{BudsWorkerInput, BudsWorkerOutput, InputView, OutputView};
use crate::codec::{ExtendedStatusUpdate, NoiseControlMode, StatusUpdate};
use crate::model::buds_message::{BudsCommand, BudsMessage, MessageView};
use crate::model::buds_status::{mode_of_status, BudsStatus, StatusView, UpdateFrom};
use crate::model::device_info::DeviceInfo;
use crate::ui::dialog_find::DialogFindOutput;
use crate::ui::page_noise::{PageNoiseInput, PageNoiseModel};

verus! {

/// What the page knows of the connection.
#[derive(Debug, Clone, PartialEq, Eq)]
pub enum ConnectionState {
    Connected,
    Disconnected,
    Connecting,
    /// The worker reported this error.
    Error(String),
}

/// What a `ConnectionState` holds.
pub enum ConnectionView {
    Connected,
    Disconnected,
    Connecting,
    Error(Seq<char>),
}

impl View for ConnectionState {
    type V = ConnectionView;

    open spec fn view(&self) -> ConnectionView {
        match *self {
            ConnectionState::Connected => ConnectionView::Connected,
            ConnectionState::Disconnected => ConnectionView::Disconnected,
            ConnectionState::Connecting => ConnectionView::Connecting,
            ConnectionState::Error(text) => ConnectionView::Error(text@),
        }
    }
}

/// The pages below this one.
#[derive(Clone, Copy, Debug, PartialEq, Eq, Structural)]
pub enum PageId {
    Noise,
}

/// A page below this one, with what it shows.
#[derive(Clone, Copy, Debug, PartialEq, Eq, Structural)]
pub enum Page {
    Noise(PageNoiseModel),
}

/// What the page is told.
#[derive(Debug, Clone, PartialEq, Eq)]
pub enum PageManageInput {
    /// The user wants the connection.
    Connect,
    /// The user wants to leave the device.
    Disconnect,
    /// The worker emitted an output.
    BluetoothEvent(BudsWorkerOutput),
    /// Send this command to the earbuds.
    BluetoothCommand(BudsCommand),
    /// The user wants the dialog for finding the earbuds.
    OpenFindDialog,
    /// The dialog for finding the earbuds asks for something.
    FindDialogCommand(DialogFindOutput),
    /// The user wants to see a page below this one.
    Navigate(PageId),
}

/// What a `PageManageInput` holds.
pub enum ManageInputView {
    Connect,
    Disconnect,
    BluetoothEvent(OutputView),
    BluetoothCommand(BudsCommand),
    OpenFindDialog,
    FindDialogCommand(DialogFindOutput),
    Navigate(PageId),
}

impl View for PageManageInput {
    type V = ManageInputView;

    open spec fn view(&self) -> ManageInputView {
        match *self {
            PageManageInput::Connect => ManageInputView::Connect,
            PageManageInput::Disconnect => ManageInputView::Disconnect,
            PageManageInput::BluetoothEvent(output) => ManageInputView::BluetoothEvent(output@),
            PageManageInput::BluetoothCommand(command) => ManageInputView::BluetoothCommand(
                command,
            ),
            PageManageInput::OpenFindDialog => ManageInputView::OpenFindDialog,
            PageManageInput::FindDialogCommand(wish) => ManageInputView::FindDialogCommand(wish),
            PageManageInput::Navigate(page) => ManageInputView::Navigate(page),
        }
    }
}

/// What the page asks of the window.
#[derive(Clone, Copy, Debug, PartialEq, Eq, Structural)]
pub enum PageManageOutput {
    /// Show the dialog for finding the earbuds.
    OpenFindDialog,
    /// The user has left the device.
    Disconnect,
    /// Show this page below the page for the device.
    Navigate(PageId),
}

/// What is to be done after a message.
#[derive(Debug, Clone, PartialEq, Eq)]
pub enum PageManageEffect {
    /// Send this input to the worker.
    Worker(BudsWorkerInput),
    /// Send this output to the window.
    Output(PageManageOutput),
}

/// What a `PageManageEffect` holds.
pub enum ManageEffectView {
    Worker(InputView),
    Output(PageManageOutput),
}

impl View for PageManageEffect {
    type V = ManageEffectView;

    open spec fn view(&self) -> ManageEffectView {
        match *self {
            PageManageEffect::Worker(input) => ManageEffectView::Worker(input@),
            PageManageEffect::Output(output) => ManageEffectView::Output(output),
        }
    }
}

/// The views of a list of effects.
pub open spec fn effect_views(effects: Seq<PageManageEffect>) -> Seq<ManageEffectView> {
    effects.map_values(|effect: PageManageEffect| effect@)
}

/// What the page knows: the connection, the state of the earbuds once an
/// extended status update has told it, and the mode that the noise page
/// shows, once that page has been opened.
pub struct ManageView {
    pub connection: ConnectionView,
    pub status: Option<StatusView>,
    pub noise_page: Option<NoiseControlMode>,
}

/// A state with the battery levels of a status update.
pub open spec fn with_batteries(status: StatusView, update: StatusUpdate) -> StatusView {
    StatusView {
        battery_left: update.battery_left,
        battery_right: update.battery_right,
        battery_case: update.battery_case,
        noise_control_mode: status.noise_control_mode,
    }
}

/// A state with another noise-control mode.
pub open spec fn with_mode(status: StatusView, mode: NoiseControlMode) -> StatusView {
    StatusView {
        battery_left: status.battery_left,
        battery_right: status.battery_right,
        battery_case: status.battery_case,
        noise_control_mode: mode,
    }
}

/// The state that an extended status update reports.
pub open spec fn status_of(update: ExtendedStatusUpdate) -> StatusView {
    StatusView {
        battery_left: update.battery_left,
        battery_right: update.battery_right,
        battery_case: update.battery_case,
        noise_control_mode: mode_of_status(update),
    }
}

/// The noise page, if it is open, showing `mode`.
pub open spec fn noise_page_showing(page: Option<NoiseControlMode>, mode: NoiseControlMode)
    -> Option<NoiseControlMode> {
    match page {
        Some(_) => Some(mode),
        None => None,
    }
}

/// What the page knows after a message of the earbuds. A status update
/// and a noise-controls update change a state that is known, and are passed
/// over while none is; an extended status update gives the whole state.
/// The noise page, if open, follows the mode.
pub open spec fn after_message(m: ManageView, message: MessageView) -> ManageView {
    match message {
        MessageView::StatusUpdate(update) => ManageView {
            connection: m.connection,
            status: match m.status {
                Some(status) => Some(with_batteries(status, update)),
                None => None,
            },
            noise_page: m.noise_page,
        },
        MessageView::ExtendedStatusUpdate(update) => ManageView {
            connection: m.connection,
            status: Some(status_of(update)),
            noise_page: noise_page_showing(m.noise_page, mode_of_status(update)),
        },
        MessageView::NoiseControlsUpdate(update) => ManageView {
            connection: m.connection,
            status: match m.status {
                Some(status) => Some(with_mode(status, update.noise_control_mode)),
                None => None,
            },
            noise_page: noise_page_showing(m.noise_page, update.noise_control_mode),
        },
        MessageView::Unknown { .. } => m,
    }
}

/// What the page knows after an output of the worker.
pub open spec fn after_event(m: ManageView, output: OutputView) -> ManageView {
    match output {
        OutputView::DataReceived(message) => after_message(m, message),
        OutputView::Connected => ManageView {
            connection: ConnectionView::Connected,
            status: m.status,
            noise_page: m.noise_page,
        },
        OutputView::Disconnected => ManageView {
            connection: ConnectionView::Disconnected,
            status: m.status,
            noise_page: m.noise_page,
        },
        OutputView::Error(text) => ManageView {
            connection: ConnectionView::Error(text),
            status: m.status,
            noise_page: m.noise_page,
        },
    }
}

/// What the page knows after a message, and what is to be done.
///
/// A connection is asked of the worker only while there is none and none is
/// being made. The noise page is opened on the first wish to see it, once
/// the state of the earbuds is known; the window is told to show it only
/// where it is open.
pub open spec fn manage_update(m: ManageView, message: ManageInputView) -> (
    ManageView,
    Seq<ManageEffectView>,
) {
    match message {
        ManageInputView::BluetoothEvent(output) => (after_event(m, output), Seq::empty()),
        ManageInputView::Connect => if m.connection is Disconnected || m.connection is Error {
            (
                ManageView {
                    connection: ConnectionView::Connecting,
                    status: m.status,
                    noise_page: m.noise_page,
                },
                seq![ManageEffectView::Worker(InputView::Connect)],
            )
        } else {
            (m, Seq::empty())
        },
        ManageInputView::Disconnect => (
            m,
            seq![
                ManageEffectView::Worker(InputView::Disconnect),
                ManageEffectView::Output(PageManageOutput::Disconnect),
            ],
        ),
        ManageInputView::BluetoothCommand(command) => (
            m,
            seq![ManageEffectView::Worker(InputView::SendCommand(command))],
        ),
        ManageInputView::OpenFindDialog => (
            m,
            seq![ManageEffectView::Output(PageManageOutput::OpenFindDialog)],
        ),
        ManageInputView::FindDialogCommand(wish) => (
            m,
            seq![
                ManageEffectView::Worker(
                    InputView::SendCommand(BudsCommand::Find(wish is Start)),
                ),
            ],
        ),
        ManageInputView::Navigate(page) => {
            let noise_page = match (m.noise_page, m.status) {
                (None, Some(status)) => Some(status.noise_control_mode),
                _ => m.noise_page,
            };
            (
                ManageView { connection: m.connection, status: m.status, noise_page },
                if noise_page is Some {
                    seq![ManageEffectView::Output(PageManageOutput::Navigate(page))]
                } else {
                    Seq::empty()
                },
            )
        },
    }
}

/// The page for one device.
#[derive(Debug)]
pub struct PageManageModel<D> {
    device: DeviceInfo<D>,
    connection_state: ConnectionState,
    buds_status: Option<BudsStatus>,
    active_page: Option<Page>,
}

impl<D> View for PageManageModel<D> {
    type V = ManageView;

    closed spec fn view(&self) -> ManageView {
        ManageView {
            connection: self.connection_state@,
            status: match self.buds_status {
                Some(status) => Some(status@),
                None => None,
            },
            noise_page: match self.active_page {
                Some(Page::Noise(page)) => Some(page@),
                None => None,
            },
        }
    }
}

impl<D> PageManageModel<D> {
    /// The device that the page is for.
    pub closed spec fn spec_device(&self) -> DeviceInfo<D> {
        self.device
    }

    /// A page for `device`. It asks for the connection at once: the page
    /// is connecting, and `Connect` is to be sent to the worker.
    pub fn init(device: DeviceInfo<D>) -> (made: (Self, Vec<PageManageEffect>))
        ensures
            made.0.spec_device() == device,
            made.0@ == (ManageView {
                connection: ConnectionView::Connecting,
                status: None,
                noise_page: None,
            }),
            effect_views(made.1@) == seq![ManageEffectView::Worker(InputView::Connect)],
    {
        let model = PageManageModel {
            device,
            connection_state: ConnectionState::Connecting,
            buds_status: None,
            active_page: None,
        };
        let mut effects: Vec<PageManageEffect> = Vec::new();
        effects.push(PageManageEffect::Worker(BudsWorkerInput::Connect));
        assert(effect_views(effects@) =~= seq![ManageEffectView::Worker(InputView::Connect)]);
        (model, effects)
    }

    /// The device that the page is for.
    pub fn device(&self) -> (device: &DeviceInfo<D>)
        ensures
            *device == self.spec_device(),
    {
        &self.device
    }

    /// What the page knows of the connection.
    pub fn connection_state(&self) -> (state: &ConnectionState)
        ensures
            state@ == self@.connection,
    {
        &self.connection_state
    }

    /// The state of the earbuds, once it is known.
    pub fn buds_status(&self) -> (status: Option<BudsStatus>)
        ensures
            match status {
                Some(s) => self@.status == Some(s@),
                None => self@.status is None,
            },
    {
        self.buds_status
    }

    /// The page below this one, if one is open.
    pub fn active_page(&self) -> (page: Option<Page>)
        ensures
            match page {
                Some(Page::Noise(noise)) => self@.noise_page == Some(noise@),
                None => self@.noise_page is None,
            },
    {
        self.active_page
    }

    /// Lets the noise page, if it is open, show `mode`.
    fn show_mode(&mut self, mode: NoiseControlMode)
        ensures
            final(self)@ == (ManageView {
                connection: old(self)@.connection,
                status: old(self)@.status,
                noise_page: noise_page_showing(old(self)@.noise_page, mode),
            }),
            final(self).spec_device() == old(self).spec_device(),
    {
        if let Some(Page::Noise(page)) = self.active_page {
            let mut page = page;
            page.update(PageNoiseInput::ModeUpdate(mode));
            self.active_page = Some(Page::Noise(page));
        }
    }

    /// Takes note of an output of the worker.
    fn bluetooth_event(&mut self, output: BudsWorkerOutput)
        ensures
            final(self)@ == after_event(old(self)@, output@),
            final(self).spec_device() == old(self).spec_device(),
    {
        match output {
            BudsWorkerOutput::DataReceived(data) => match data {
                BudsMessage::StatusUpdate(status) => {
                    if let Some(known) = self.buds_status {
                        let mut known = known;
                        known.update(&status);
                        self.buds_status = Some(known);
                    }
                },
                BudsMessage::ExtendedStatusUpdate(status) => {
                    let known = BudsStatus::from(&status);
                    self.show_mode(known.noise_control_mode());
                    self.buds_status = Some(known);
                },
                BudsMessage::NoiseControlsUpdate(update) => {
                    if let Some(known) = self.buds_status {
                        let mut known = known;
                        known.update(&update);
                        self.buds_status = Some(known);
                    }
                    self.show_mode(update.noise_control_mode);
                },
                BudsMessage::Unknown { .. } => {},
            },
            BudsWorkerOutput::Connected => {
                self.connection_state = ConnectionState::Connected;
            },
            BudsWorkerOutput::Disconnected => {
                self.connection_state = ConnectionState::Disconnected;
            },
            BudsWorkerOutput::Error(text) => {
                self.connection_state = ConnectionState::Error(text);
            },
        }
    }

    /// Takes a message and answers with what is to be done, in order.
    pub fn update(&mut self, message: PageManageInput) -> (effects: Vec<PageManageEffect>)
        ensures
            (final(self)@, effect_views(effects@)) == manage_update(old(self)@, message@),
            final(self).spec_device() == old(self).spec_device(),
    {
        let mut effects: Vec<PageManageEffect> = Vec::new();
        assert(effect_views(effects@) =~= Seq::<ManageEffectView>::empty());
        match message {
            PageManageInput::BluetoothEvent(output) => {
                self.bluetooth_event(output);
            },
            PageManageInput::Connect => {
                let idle = match &self.connection_state {
                    ConnectionState::Disconnected => true,
                    ConnectionState::Error(_) => true,
                    _ => false,
                };
                if idle {
                    self.connection_state = ConnectionState::Connecting;
                    effects.push(PageManageEffect::Worker(BudsWorkerInput::Connect));
                    assert(effect_views(effects@) =~= seq![
                        ManageEffectView::Worker(InputView::Connect),
                    ]);
                }
            },
            PageManageInput::Disconnect => {
                effects.push(PageManageEffect::Worker(BudsWorkerInput::Disconnect));
                effects.push(PageManageEffect::Output(PageManageOutput::Disconnect));
                assert(effect_views(effects@) =~= seq![
                    ManageEffectView::Worker(InputView::Disconnect),
                    ManageEffectView::Output(PageManageOutput::Disconnect),
                ]);
            },
            PageManageInput::BluetoothCommand(command) => {
                effects.push(PageManageEffect::Worker(BudsWorkerInput::SendCommand(command)));
                assert(effect_views(effects@) =~= seq![
                    ManageEffectView::Worker(InputView::SendCommand(command)),
                ]);
            },
            PageManageInput::OpenFindDialog => {
                effects.push(PageManageEffect::Output(PageManageOutput::OpenFindDialog));
                assert(effect_views(effects@) =~= seq![
                    ManageEffectView::Output(PageManageOutput::OpenFindDialog),
                ]);
            },
            PageManageInput::FindDialogCommand(wish) => {
                effects.push(
                    PageManageEffect::Worker(BudsWorkerInput::SendCommand(wish.command())),
                );
                assert(effect_views(effects@) =~= seq![
                    ManageEffectView::Worker(
                        InputView::SendCommand(BudsCommand::Find(wish is Start)),
                    ),
                ]);
            },
            PageManageInput::Navigate(page) => {
                if self.active_page.is_none() {
                    if let Some(status) = self.buds_status {
                        self.active_page = Some(
                            Page::Noise(PageNoiseModel::init(status.noise_control_mode())),
                        );
                    }
                }
                if self.active_page.is_some() {
                    effects.push(PageManageEffect::Output(PageManageOutput::Navigate(page)));
                    assert(effect_views(effects@) =~= seq![
                        ManageEffectView::Output(PageManageOutput::Navigate(page)),
                    ]);
                }
            },
        }
        effects
    }
}

} // verus!
