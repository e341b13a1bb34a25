//! The window: which page is shown, and how the parts of the shell are
//! tied together.

use vstd::prelude::*;
use crate::model::device_info::DeviceInfo;
use crate::ui::dialog_find::{DialogFindInput, DialogFindOutput};
use crate::ui::page_manage::{PageId, PageManageInput, PageManageOutput};

verus! {

/// What the window is started with: nothing.
#[derive(Clone, Copy, Debug, Default, PartialEq, Eq)]
pub struct AppInit {

}

/// What the window asks of whoever started it: nothing. The type has no
/// value.
#[derive(Debug)]
pub enum AppOutput {
    Never(core::convert::Infallible),
}

/// A page that the window can show above the list of devices.
#[derive(Clone, Copy, Debug, PartialEq, Eq, Structural)]
pub enum ShownPage {
    /// The page for the selected device.
    Manage,
    /// A page below it.
    Sub(PageId),
}

/// What the window is told.
#[derive(Debug, PartialEq, Eq)]
pub enum AppInput<D> {
    /// The user selected this device.
    SelectDevice(DeviceInfo<D>),
    /// The device was left.
    Disconnect,
    /// The page for the device asks for something.
    FromPageManage(PageManageOutput),
    /// The dialog for finding the earbuds asks for something.
    FromDialogFind(DialogFindOutput),
    /// The user went back from this page.
    PagePopped(ShownPage),
}

/// What is to be done after a message.
#[derive(Debug, PartialEq, Eq)]
pub enum AppEffect<D> {
    /// Open the page for this device.
    OpenManagePage(DeviceInfo<D>),
    /// Send this message to the dialog for finding the earbuds.
    Dialog(DialogFindInput),
    /// Send this message to the page for the device.
    Manage(PageManageInput),
    /// Forget the address of the device used last.
    ForgetDevice,
}

/// What the window does to its pages when it is drawn.
#[derive(Clone, Copy, Debug, PartialEq, Eq, Structural)]
pub enum Navigation {
    /// Put this page on top.
    Push(ShownPage),
    /// Go back to the list of devices.
    PopToConnection,
    /// Have the list of devices loaded anew.
    ReloadDevices,
}

/// The window: whether the page for a device is active, and which page
/// below it.
#[derive(Clone, Copy, Debug, PartialEq, Eq, Structural)]
pub struct AppModel {
    pub managing: bool,
    pub active_subpage: Option<PageId>,
}

/// The window after a message.
pub open spec fn app_after<D>(model: AppModel, message: AppInput<D>) -> AppModel {
    match message {
        AppInput::SelectDevice(_) => AppModel {
            managing: true,
            active_subpage: model.active_subpage,
        },
        AppInput::Disconnect => AppModel {
            managing: false,
            active_subpage: model.active_subpage,
        },
        AppInput::FromPageManage(PageManageOutput::OpenFindDialog) => model,
        AppInput::FromPageManage(PageManageOutput::Disconnect) => AppModel {
            managing: false,
            active_subpage: model.active_subpage,
        },
        AppInput::FromPageManage(PageManageOutput::Navigate(page)) => AppModel {
            managing: model.managing,
            active_subpage: Some(page),
        },
        AppInput::FromDialogFind(_) => model,
        AppInput::PagePopped(ShownPage::Sub(page)) => AppModel {
            managing: model.managing,
            active_subpage: if model.active_subpage == Some(page) {
                None
            } else {
                model.active_subpage
            },
        },
        AppInput::PagePopped(ShownPage::Manage) => AppModel {
            managing: false,
            active_subpage: model.active_subpage,
        },
    }
}

/// What is to be done after a message. The wish of the dialog reaches the
/// page for the device only while that page is active.
pub open spec fn app_effects<D>(model: AppModel, message: AppInput<D>) -> Seq<AppEffect<D>> {
    match message {
        AppInput::SelectDevice(device) => seq![AppEffect::OpenManagePage(device)],
        AppInput::FromPageManage(PageManageOutput::OpenFindDialog) => seq![
            AppEffect::Dialog(DialogFindInput::Show),
        ],
        AppInput::FromPageManage(PageManageOutput::Disconnect) => seq![AppEffect::ForgetDevice],
        AppInput::FromDialogFind(wish) => if model.managing {
            seq![AppEffect::Manage(PageManageInput::FindDialogCommand(wish))]
        } else {
            Seq::empty()
        },
        _ => Seq::empty(),
    }
}

/// What the window does to its pages when it is drawn, given whether the
/// page for the device is the one on top. While a device is managed, its
/// page is put on top unless it is there, and then the page below it, if
/// any; else the window goes back to the list of devices and has it loaded
/// anew.
pub open spec fn app_navigation(model: AppModel, manage_on_top: bool) -> Seq<Navigation> {
    if model.managing {
        (if manage_on_top {
            Seq::empty()
        } else {
            seq![Navigation::Push(ShownPage::Manage)]
        }) + (match model.active_subpage {
            Some(page) => seq![Navigation::Push(ShownPage::Sub(page))],
            None => Seq::empty(),
        })
    } else {
        seq![Navigation::PopToConnection, Navigation::ReloadDevices]
    }
}

impl AppModel {
    /// The window at its start. No device is managed.
    pub fn init(_init: AppInit) -> (model: Self)
        ensures
            model == (AppModel { managing: false, active_subpage: None }),
    {
        AppModel { managing: false, active_subpage: None }
    }

    /// Takes a message and answers with what is to be done, in order.
    pub fn update<D>(&mut self, message: AppInput<D>) -> (effects: Vec<AppEffect<D>>)
        ensures
            *final(self) == app_after(*old(self), message),
            effects@ == app_effects(*old(self), message),
    {
        let mut effects: Vec<AppEffect<D>> = Vec::new();
        match message {
            AppInput::SelectDevice(device) => {
                self.managing = true;
                effects.push(AppEffect::OpenManagePage(device));
            },
            AppInput::Disconnect => {
                self.managing = false;
            },
            AppInput::FromPageManage(wish) => match wish {
                PageManageOutput::OpenFindDialog => {
                    effects.push(AppEffect::Dialog(DialogFindInput::Show));
                },
                PageManageOutput::Disconnect => {
                    effects.push(AppEffect::ForgetDevice);
                    self.managing = false;
                },
                PageManageOutput::Navigate(page) => {
                    self.active_subpage = Some(page);
                },
            },
            AppInput::FromDialogFind(wish) => {
                if self.managing {
                    effects.push(AppEffect::Manage(PageManageInput::FindDialogCommand(wish)));
                }
            },
            AppInput::PagePopped(popped) => match popped {
                ShownPage::Sub(page) => {
                    if self.active_subpage == Some(page) {
                        self.active_subpage = None;
                    }
                },
                ShownPage::Manage => {
                    self.managing = false;
                },
            },
        }
        assert(effects@ =~= app_effects(*old(self), message));
        effects
    }

    /// Says what is to be done to the pages when the window is drawn.
    pub fn post_view(&self, manage_on_top: bool) -> (steps: Vec<Navigation>)
        ensures
            steps@ == app_navigation(*self, manage_on_top),
    {
        let mut steps: Vec<Navigation> = Vec::new();
        if self.managing {
            if !manage_on_top {
                steps.push(Navigation::Push(ShownPage::Manage));
            }
            if let Some(page) = self.active_subpage {
                steps.push(Navigation::Push(ShownPage::Sub(page)));
            }
        } else {
            steps.push(Navigation::PopToConnection);
            steps.push(Navigation::ReloadDevices);
        }
        assert(steps@ =~= app_navigation(*self, manage_on_top));
        steps
    }
}

} // verus!
