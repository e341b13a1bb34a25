use buds_link::bluetooth::DiscoveryError;
use buds_link::buds_worker::{BudsWorkerInput, BudsWorkerOutput};
use buds_link::codec::{
    ExtendedStatusUpdate, NoiseControlMode, NoiseControlsUpdated, StatusUpdate,
};
use buds_link::model::buds_message::{BudsCommand, BudsMessage};
use buds_link::model::buds_status::BudsStatus;
use buds_link::model::device_info::DeviceInfo;
use buds_link::ui::dialog_find::{DialogFind, DialogFindInput, DialogFindOutput};
use buds_link::ui::page_connection::{
    PageConnectionEffect, PageConnectionInput, PageConnectionModel, PageConnectionOutput,
};
use buds_link::ui::page_manage::{
    ConnectionState, Page, PageId, PageManageEffect, PageManageInput, PageManageModel,
    PageManageOutput,
};
use buds_link::ui::page_noise::{PageNoiseInput, PageNoiseModel};
use buds_link::ui::window::{AppEffect, AppInit, AppInput, AppModel, Navigation, ShownPage};

fn info(name: &str, address: &str, device: u32) -> DeviceInfo<u32> {
    DeviceInfo { name: name.to_string(), address: address.to_string(), device }
}

fn extended(left: i8, noise: bool) -> ExtendedStatusUpdate {
    ExtendedStatusUpdate {
        battery_left: left,
        battery_right: left,
        battery_case: left,
        noise_reduction: noise,
        ambient_sound_enabled: false,
    }
}

fn event(output: BudsWorkerOutput) -> PageManageInput {
    PageManageInput::BluetoothEvent(output)
}

fn manage_page() -> PageManageModel<u32> {
    PageManageModel::init(info("Buds", "AA:BB", 1)).0
}

#[test]
fn dialog_starts_visible_and_turns_toggles_into_wishes() {
    let mut dialog = DialogFind::init();
    assert!(dialog.is_visible());
    assert_eq!(dialog.update(DialogFindInput::Toggle(true)), Some(DialogFindOutput::Start));
    assert_eq!(dialog.update(DialogFindInput::Toggle(false)), Some(DialogFindOutput::Stop));
    assert_eq!(dialog.update(DialogFindInput::Show), None);
    assert!(dialog.is_visible());
}

#[test]
fn dialog_wish_is_a_find_command() {
    assert_eq!(DialogFindOutput::Start.command(), BudsCommand::Find(true));
    assert_eq!(DialogFindOutput::Stop.command(), BudsCommand::Find(false));
}

#[test]
fn noise_page_follows_the_mode() {
    let mut page = PageNoiseModel::init(NoiseControlMode::Off);
    assert_eq!(page.mode(), NoiseControlMode::Off);
    assert!(page.is_marked(NoiseControlMode::Off));
    assert!(!page.is_marked(NoiseControlMode::AmbientSound));
    page.update(PageNoiseInput::ModeUpdate(NoiseControlMode::AmbientSound));
    assert_eq!(page.mode(), NoiseControlMode::AmbientSound);
    assert!(page.is_marked(NoiseControlMode::AmbientSound));
}

#[test]
fn manage_page_connects_at_once() {
    let (page, effects) = PageManageModel::init(info("Buds", "AA:BB", 1));
    assert_eq!(effects, vec![PageManageEffect::Worker(BudsWorkerInput::Connect)]);
    assert_eq!(page.connection_state(), &ConnectionState::Connecting);
    assert_eq!(page.buds_status(), None);
    assert_eq!(page.active_page(), None);
    assert_eq!(page.device(), &info("Buds", "AA:BB", 1));
}

#[test]
fn manage_page_follows_the_connection() {
    let mut page = manage_page();
    assert_eq!(page.update(event(BudsWorkerOutput::Connected)), Vec::new());
    assert_eq!(page.connection_state(), &ConnectionState::Connected);
    assert_eq!(page.update(event(BudsWorkerOutput::Error("x".to_string()))), Vec::new());
    assert_eq!(page.connection_state(), &ConnectionState::Error("x".to_string()));
    assert_eq!(page.update(event(BudsWorkerOutput::Disconnected)), Vec::new());
    assert_eq!(page.connection_state(), &ConnectionState::Disconnected);
}

#[test]
fn manage_page_asks_for_a_connection_only_without_one() {
    let mut page = manage_page();
    assert_eq!(page.update(PageManageInput::Connect), Vec::new());
    page.update(event(BudsWorkerOutput::Connected));
    assert_eq!(page.update(PageManageInput::Connect), Vec::new());
    page.update(event(BudsWorkerOutput::Disconnected));
    assert_eq!(
        page.update(PageManageInput::Connect),
        vec![PageManageEffect::Worker(BudsWorkerInput::Connect)]
    );
    assert_eq!(page.connection_state(), &ConnectionState::Connecting);
    page.update(event(BudsWorkerOutput::Error("x".to_string())));
    assert_eq!(
        page.update(PageManageInput::Connect),
        vec![PageManageEffect::Worker(BudsWorkerInput::Connect)]
    );
}

#[test]
fn manage_page_passes_wishes_on() {
    let mut page = manage_page();
    assert_eq!(
        page.update(PageManageInput::Disconnect),
        vec![
            PageManageEffect::Worker(BudsWorkerInput::Disconnect),
            PageManageEffect::Output(PageManageOutput::Disconnect),
        ]
    );
    assert_eq!(
        page.update(PageManageInput::BluetoothCommand(BudsCommand::ManagerInfo)),
        vec![PageManageEffect::Worker(BudsWorkerInput::SendCommand(BudsCommand::ManagerInfo))]
    );
    assert_eq!(
        page.update(PageManageInput::OpenFindDialog),
        vec![PageManageEffect::Output(PageManageOutput::OpenFindDialog)]
    );
    assert_eq!(
        page.update(PageManageInput::FindDialogCommand(DialogFindOutput::Start)),
        vec![PageManageEffect::Worker(BudsWorkerInput::SendCommand(BudsCommand::Find(true)))]
    );
    assert_eq!(
        page.update(PageManageInput::FindDialogCommand(DialogFindOutput::Stop)),
        vec![PageManageEffect::Worker(BudsWorkerInput::SendCommand(BudsCommand::Find(false)))]
    );
}

#[test]
fn manage_page_learns_the_state_from_an_extended_status() {
    let mut page = manage_page();
    let levels = StatusUpdate { battery_left: 1, battery_right: 2, battery_case: 3 };
    page.update(event(BudsWorkerOutput::DataReceived(BudsMessage::StatusUpdate(levels))));
    assert_eq!(page.buds_status(), None);
    let mode = NoiseControlsUpdated { noise_control_mode: NoiseControlMode::AmbientSound };
    page.update(event(BudsWorkerOutput::DataReceived(BudsMessage::NoiseControlsUpdate(mode))));
    assert_eq!(page.buds_status(), None);
    page.update(event(BudsWorkerOutput::DataReceived(BudsMessage::ExtendedStatusUpdate(
        extended(50, true),
    ))));
    assert_eq!(page.buds_status(), Some(BudsStatus::from(&extended(50, true))));
    page.update(event(BudsWorkerOutput::DataReceived(BudsMessage::StatusUpdate(levels))));
    let status = page.buds_status().unwrap();
    assert_eq!(status.battery_text(), "L 1% / R 2%");
    assert_eq!(status.case_battery_text(), "3%");
    assert_eq!(status.noise_control_mode(), NoiseControlMode::NoiseReduction);
    page.update(event(BudsWorkerOutput::DataReceived(BudsMessage::NoiseControlsUpdate(mode))));
    let status = page.buds_status().unwrap();
    assert_eq!(status.battery_text(), "L 1% / R 2%");
    assert_eq!(status.noise_control_mode(), NoiseControlMode::AmbientSound);
    page.update(event(BudsWorkerOutput::DataReceived(BudsMessage::Unknown {
        id: 1,
        raw: vec![1],
    })));
    assert_eq!(page.buds_status(), Some(status));
}

#[test]
fn noise_page_opens_once_the_state_is_known() {
    let mut page = manage_page();
    assert_eq!(page.update(PageManageInput::Navigate(PageId::Noise)), Vec::new());
    assert_eq!(page.active_page(), None);
    page.update(event(BudsWorkerOutput::DataReceived(BudsMessage::ExtendedStatusUpdate(
        extended(50, true),
    ))));
    assert_eq!(page.active_page(), None);
    assert_eq!(
        page.update(PageManageInput::Navigate(PageId::Noise)),
        vec![PageManageEffect::Output(PageManageOutput::Navigate(PageId::Noise))]
    );
    assert_eq!(
        page.active_page(),
        Some(Page::Noise(PageNoiseModel::init(NoiseControlMode::NoiseReduction)))
    );
    let mode = NoiseControlsUpdated { noise_control_mode: NoiseControlMode::AmbientSound };
    page.update(event(BudsWorkerOutput::DataReceived(BudsMessage::NoiseControlsUpdate(mode))));
    assert_eq!(
        page.active_page(),
        Some(Page::Noise(PageNoiseModel::init(NoiseControlMode::AmbientSound)))
    );
    page.update(event(BudsWorkerOutput::DataReceived(BudsMessage::ExtendedStatusUpdate(
        extended(50, false),
    ))));
    assert_eq!(page.active_page(), Some(Page::Noise(PageNoiseModel::init(NoiseControlMode::Off))));
    assert_eq!(
        page.update(PageManageInput::Navigate(PageId::Noise)),
        vec![PageManageEffect::Output(PageManageOutput::Navigate(PageId::Noise))]
    );
}

#[test]
fn connection_page_starts_loading() {
    let page: PageConnectionModel<u32> = PageConnectionModel::init();
    assert!(page.is_loading());
    assert!(page.devices().is_empty());
}

#[test]
fn first_discovery_selects_the_remembered_device() {
    let mut page: PageConnectionModel<u32> = PageConnectionModel::init();
    let found = vec![info("a", "00:11", 0), info("b", "22:33", 1), info("c", "22:33", 2)];
    let effects = page.first_discovery(Ok(found), &"22:33".to_string());
    assert_eq!(
        effects,
        vec![PageConnectionEffect::Output(PageConnectionOutput::SelectDevice(info(
            "b", "22:33", 1
        )))]
    );
    assert!(page.devices().is_empty());
    assert!(page.is_loading());
}

#[test]
fn first_discovery_forgets_a_device_that_is_gone() {
    let mut page: PageConnectionModel<u32> = PageConnectionModel::init();
    let found = vec![info("a", "00:11", 0)];
    let effects = page.first_discovery(Ok(found.clone()), &"22:33".to_string());
    assert_eq!(effects, vec![PageConnectionEffect::Forget]);
    assert_eq!(page.devices(), &found);
    assert!(!page.is_loading());
}

#[test]
fn first_discovery_without_a_remembered_device_lists_what_was_found() {
    let mut page: PageConnectionModel<u32> = PageConnectionModel::init();
    let found = vec![info("a", "00:11", 0), info("b", "22:33", 1)];
    let effects = page.first_discovery(Ok(found.clone()), &String::new());
    assert_eq!(effects, Vec::new());
    assert_eq!(page.devices(), &found);
    assert!(!page.is_loading());
}

#[test]
fn failed_discovery_changes_nothing() {
    let mut page: PageConnectionModel<u32> = PageConnectionModel::init();
    let failed = || Err(DiscoveryError::EnumerationFailed("x".to_string()));
    assert_eq!(page.first_discovery(failed(), &"22:33".to_string()), Vec::new());
    assert!(page.devices().is_empty());
    assert!(page.is_loading());
    page.populate_devices_list(vec![info("a", "00:11", 0)]);
    page.discovered(failed());
    assert_eq!(page.devices(), &vec![info("a", "00:11", 0)]);
    assert!(!page.is_loading());
}

#[test]
fn connection_page_reloads_and_selects() {
    let mut page: PageConnectionModel<u32> = PageConnectionModel::init();
    page.populate_devices_list(vec![info("a", "00:11", 0)]);
    assert!(!page.is_loading());
    assert_eq!(page.update(PageConnectionInput::LoadDevices), vec![PageConnectionEffect::Discover]);
    assert!(page.is_loading());
    page.discovered(Ok(vec![info("b", "22:33", 1)]));
    assert_eq!(page.devices(), &vec![info("b", "22:33", 1)]);
    assert!(!page.is_loading());
    assert_eq!(
        page.update(PageConnectionInput::SelectDevice(info("b", "22:33", 1))),
        vec![
            PageConnectionEffect::Remember("22:33".to_string()),
            PageConnectionEffect::Output(PageConnectionOutput::SelectDevice(info(
                "b", "22:33", 1
            ))),
        ]
    );
    assert_eq!(page.devices(), &vec![info("b", "22:33", 1)]);
}

#[test]
fn window_opens_and_leaves_the_page_for_a_device() {
    let mut window = AppModel::init(AppInit {});
    assert_eq!(window, AppModel { managing: false, active_subpage: None });
    assert_eq!(
        window.update(AppInput::SelectDevice(info("a", "00:11", 0))),
        vec![AppEffect::OpenManagePage(info("a", "00:11", 0))]
    );
    assert!(window.managing);
    let none: Vec<AppEffect<u32>> = Vec::new();
    assert_eq!(window.update(AppInput::<u32>::Disconnect), none);
    assert!(!window.managing);
}

#[test]
fn window_ties_the_dialog_to_the_page() {
    let mut window = AppModel::init(AppInit {});
    let none: Vec<AppEffect<u32>> = Vec::new();
    assert_eq!(window.update(AppInput::<u32>::FromDialogFind(DialogFindOutput::Start)), none);
    window.update(AppInput::SelectDevice(info("a", "00:11", 0)));
    assert_eq!(
        window.update(AppInput::<u32>::FromDialogFind(DialogFindOutput::Start)),
        vec![AppEffect::Manage(PageManageInput::FindDialogCommand(DialogFindOutput::Start))]
    );
    assert_eq!(
        window.update(AppInput::<u32>::FromPageManage(PageManageOutput::OpenFindDialog)),
        vec![AppEffect::Dialog(DialogFindInput::Show)]
    );
    assert_eq!(
        window.update(AppInput::<u32>::FromPageManage(PageManageOutput::Disconnect)),
        vec![AppEffect::ForgetDevice]
    );
    assert!(!window.managing);
}

#[test]
fn window_keeps_track_of_the_page_below() {
    let mut window = AppModel::init(AppInit {});
    window.update(AppInput::SelectDevice(info("a", "00:11", 0)));
    let none: Vec<AppEffect<u32>> = Vec::new();
    assert_eq!(
        window.update(AppInput::<u32>::FromPageManage(PageManageOutput::Navigate(PageId::Noise))),
        none
    );
    assert_eq!(window.active_subpage, Some(PageId::Noise));
    assert_eq!(
        window.post_view(false),
        vec![Navigation::Push(ShownPage::Manage), Navigation::Push(ShownPage::Sub(PageId::Noise))]
    );
    assert_eq!(window.post_view(true), vec![Navigation::Push(ShownPage::Sub(PageId::Noise))]);
    window.update(AppInput::<u32>::PagePopped(ShownPage::Sub(PageId::Noise)));
    assert_eq!(window.active_subpage, None);
    assert_eq!(window.post_view(true), Vec::new());
    window.update(AppInput::<u32>::PagePopped(ShownPage::Manage));
    assert!(!window.managing);
    assert_eq!(
        window.post_view(false),
        vec![Navigation::PopToConnection, Navigation::ReloadDevices]
    );
}
