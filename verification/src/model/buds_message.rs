//! Messages received from the earbuds and commands sent to them.

use vstd::prelude::*;
use vstd::slice::slice_to_vec;
use crate::codec::{
    decode_extended_status_update, decode_noise_controls_updated, decode_status_update,
    encode_find_my_bud, encode_manager_info, extended_status_update_of,
    extended_status_updated_id, find_my_bud_frame, find_my_bud_id, is_command_frame,
    manager_info_frame, manager_info_payload, noise_controls_updated_id,
    noise_controls_updated_of, status_update_of, status_updated_id, ExtendedStatusUpdate,
    NoiseControlsUpdated, StatusUpdate, EXTENDED_STATUS_FRAME_MIN, EXTENDED_STATUS_UPDATED,
    ID_OFFSET, KEEP_ALIVE, MANAGER_INFO, NOISE_CONTROLS_FRAME_MIN, NOISE_CONTROLS_UPDATED,
    STATUS_FRAME_MIN, STATUS_UPDATED,
};

verus! {

/// A classified frame.
#[derive(Debug, Clone, PartialEq, Eq)]
pub enum BudsMessage {
    StatusUpdate(StatusUpdate),
    ExtendedStatusUpdate(ExtendedStatusUpdate),
    NoiseControlsUpdate(NoiseControlsUpdated),
    /// A frame of any other kind, kept whole.
    Unknown { id: u8, raw: Vec<u8> },
}

/// What a `BudsMessage` holds.
pub enum MessageView {
    StatusUpdate(StatusUpdate),
    ExtendedStatusUpdate(ExtendedStatusUpdate),
    NoiseControlsUpdate(NoiseControlsUpdated),
    Unknown { id: u8, raw: Seq<u8> },
}

impl View for BudsMessage {
    type V = MessageView;

    open spec fn view(&self) -> MessageView {
        match *self {
            BudsMessage::StatusUpdate(status) => MessageView::StatusUpdate(status),
            BudsMessage::ExtendedStatusUpdate(status) => MessageView::ExtendedStatusUpdate(status),
            BudsMessage::NoiseControlsUpdate(update) => MessageView::NoiseControlsUpdate(update),
            BudsMessage::Unknown { id, raw } => MessageView::Unknown { id, raw: raw@ },
        }
    }
}

/// The message that a frame stands for; `None` for a frame that is not
/// passed on: one too short to hold an identifier, and the keep-alive.
///
/// A frame with the identifier of one of the three updates, but too short
/// for the update to be decoded, is kept whole as `Unknown`, as is a frame
/// with any other identifier.
pub open spec fn classify(frame: Seq<u8>) -> Option<MessageView> {
    if frame.len() <= ID_OFFSET {
        None
    } else {
        let id = frame[ID_OFFSET as int];
        if id == KEEP_ALIVE {
            None
        } else if id == STATUS_UPDATED && frame.len() >= STATUS_FRAME_MIN {
            Some(MessageView::StatusUpdate(status_update_of(frame)))
        } else if id == EXTENDED_STATUS_UPDATED && frame.len() >= EXTENDED_STATUS_FRAME_MIN {
            Some(MessageView::ExtendedStatusUpdate(extended_status_update_of(frame)))
        } else if id == NOISE_CONTROLS_UPDATED && frame.len() >= NOISE_CONTROLS_FRAME_MIN {
            Some(MessageView::NoiseControlsUpdate(noise_controls_updated_of(frame)))
        } else {
            Some(MessageView::Unknown { id, raw: frame })
        }
    }
}

/// The frame holds an identifier, and it is neither that of the keep-alive
/// nor that of one of the three updates.
pub open spec fn has_other_id(frame: Seq<u8>) -> bool {
    &&& frame.len() > ID_OFFSET
    &&& frame[ID_OFFSET as int] != KEEP_ALIVE
    &&& frame[ID_OFFSET as int] != STATUS_UPDATED
    &&& frame[ID_OFFSET as int] != EXTENDED_STATUS_UPDATED
    &&& frame[ID_OFFSET as int] != NOISE_CONTROLS_UPDATED
}

impl BudsMessage {
    /// Classifies a frame. Returns `None` for a frame that is not passed
    /// on, such as the keep-alive.
    ///
    /// Every frame that holds an identifier is classified, but for the
    /// keep-alive; a frame with an identifier of no known kind is kept whole
    /// as `Unknown`.
    pub fn from_bytes(buff: &[u8]) -> (message: Option<BudsMessage>)
        ensures
            match message {
                Some(m) => classify(buff@) == Some(m@),
                None => classify(buff@) is None,
            },
            buff@.len() > ID_OFFSET ==> (message is None <==> buff@[ID_OFFSET as int]
                == KEEP_ALIVE),
            has_other_id(buff@) ==> message is Some && message->0@ == (MessageView::Unknown {
                id: buff@[ID_OFFSET as int],
                raw: buff@,
            }),
    {
        if buff.len() <= ID_OFFSET {
            return None;
        }
        let id = buff[ID_OFFSET];
        if id == KEEP_ALIVE {
            return None;
        }
        if id == status_updated_id() && buff.len() >= STATUS_FRAME_MIN {
            Some(BudsMessage::StatusUpdate(decode_status_update(buff)))
        } else if id == extended_status_updated_id() && buff.len() >= EXTENDED_STATUS_FRAME_MIN {
            Some(BudsMessage::ExtendedStatusUpdate(decode_extended_status_update(buff)))
        } else if id == noise_controls_updated_id() && buff.len() >= NOISE_CONTROLS_FRAME_MIN {
            Some(BudsMessage::NoiseControlsUpdate(decode_noise_controls_updated(buff)))
        } else {
            Some(BudsMessage::Unknown { id, raw: slice_to_vec(buff) })
        }
    }
}

/// The Android version that the manager-info command reports.
pub const MANAGER_SDK: u8 = 34;

/// A command for the earbuds.
#[derive(Clone, Copy, Debug, PartialEq, Eq, Structural)]
pub enum BudsCommand {
    /// Tells the earbuds which kind of client has connected.
    ManagerInfo,
    /// Starts the search for the earbuds (`true`) or stops it (`false`).
    Find(bool),
}

impl BudsCommand {
    /// The bytes that carry the command on the wire.
    pub open spec fn encoding(self) -> Seq<u8> {
        match self {
            BudsCommand::ManagerInfo => manager_info_frame(true, MANAGER_SDK),
            BudsCommand::Find(active) => find_my_bud_frame(active),
        }
    }

    /// The identifier of the command.
    pub open spec fn id(self) -> u8 {
        match self {
            BudsCommand::ManagerInfo => MANAGER_INFO,
            BudsCommand::Find(active) => find_my_bud_id(active),
        }
    }

    /// The payload of the command.
    pub open spec fn payload(self) -> Seq<u8> {
        match self {
            BudsCommand::ManagerInfo => manager_info_payload(true, MANAGER_SDK),
            BudsCommand::Find(_) => Seq::empty(),
        }
    }

    /// Encodes the command for the wire: a frame with the command's
    /// identifier and payload, from the begin-of-message byte to the
    /// end-of-message byte.
    pub fn to_bytes(&self) -> (bytes: Vec<u8>)
        ensures
            bytes@ == self.encoding(),
            is_command_frame(bytes@, self.id(), self.payload()),
    {
        match self {
            BudsCommand::ManagerInfo => encode_manager_info(true, MANAGER_SDK),
            BudsCommand::Find(active) => encode_find_my_bud(*active),
        }
    }
}

} // verus!
