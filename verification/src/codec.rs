//! The boundary to the `galaxy_buds_rs` codec: its wire constants, payload
//! decoders and command encoders. Every function marked `external_body` here
//! is believed by the verifier, not proved; its doc comment says what is
//! claimed of the codec.

use vstd::prelude::*;
use galaxy_buds_rs::message::Payload;

verus! {

/// First byte of every frame on the wire.
pub const BOM: u8 = 253;

/// Last byte of every frame on the wire.
pub const EOM: u8 = 221;

/// Position of the message identifier in a frame.
pub const ID_OFFSET: usize = 3;

/// Identifier of the keep-alive message, which is never passed on.
pub const KEEP_ALIVE: u8 = 242;

/// Identifier of a status update.
pub const STATUS_UPDATED: u8 = 96;

/// Identifier of an extended status update.
pub const EXTENDED_STATUS_UPDATED: u8 = 97;

/// Identifier of a noise-controls update.
pub const NOISE_CONTROLS_UPDATED: u8 = 119;

/// Identifier of the manager-info command.
pub const MANAGER_INFO: u8 = 136;

/// Identifier of the command that starts the search for the earbuds.
pub const FIND_MY_EARBUDS_START: u8 = 160;

/// Identifier of the command that stops the search for the earbuds.
pub const FIND_MY_EARBUDS_STOP: u8 = 161;

/// Shortest frame from which a status update can be decoded.
pub const STATUS_FRAME_MIN: usize = 11;

/// Shortest frame from which an extended status update can be decoded.
pub const EXTENDED_STATUS_FRAME_MIN: usize = 22;

/// Shortest frame from which a noise-controls update can be decoded.
pub const NOISE_CONTROLS_FRAME_MIN: usize = 6;

/// How the earbuds treat outside noise.
#[derive(Clone, Copy, Debug, PartialEq, Eq, Structural)]
pub enum NoiseControlMode {
    Off,
    NoiseReduction,
    AmbientSound,
}

/// The battery levels of a status update.
#[derive(Clone, Copy, Debug, PartialEq, Eq, Structural)]
pub struct StatusUpdate {
    pub battery_left: i8,
    pub battery_right: i8,
    pub battery_case: i8,
}

/// The battery levels and noise settings of an extended status update.
#[derive(Clone, Copy, Debug, PartialEq, Eq, Structural)]
pub struct ExtendedStatusUpdate {
    pub battery_left: i8,
    pub battery_right: i8,
    pub battery_case: i8,
    pub noise_reduction: bool,
    pub ambient_sound_enabled: bool,
}

/// The noise-control mode that the earbuds report after a change.
#[derive(Clone, Copy, Debug, PartialEq, Eq, Structural)]
pub struct NoiseControlsUpdated {
    pub noise_control_mode: NoiseControlMode,
}

/// A byte read as a signed number in two's complement.
pub open spec fn signed(byte: u8) -> i8 {
    if byte < 128 {
        byte as i8
    } else {
        (byte - 256) as i8
    }
}

/// The noise-control mode that a payload byte stands for.
pub open spec fn noise_control_mode_of(byte: u8) -> NoiseControlMode {
    if byte == 1 {
        NoiseControlMode::NoiseReduction
    } else if byte == 2 {
        NoiseControlMode::AmbientSound
    } else {
        NoiseControlMode::Off
    }
}

/// The status update that a frame carries. The payload starts after the
/// identifier; its bytes 1, 2 and 6 are the battery levels.
pub open spec fn status_update_of(frame: Seq<u8>) -> StatusUpdate
    recommends
        frame.len() >= STATUS_FRAME_MIN,
{
    StatusUpdate {
        battery_left: signed(frame[5]),
        battery_right: signed(frame[6]),
        battery_case: signed(frame[10]),
    }
}

/// The extended status update that a frame carries. Bytes 2, 3 and 7 of the
/// payload are the battery levels, byte 12 is 1 where noise reduction is on.
/// This model of earbuds has no ambient sound.
pub open spec fn extended_status_update_of(frame: Seq<u8>) -> ExtendedStatusUpdate
    recommends
        frame.len() >= EXTENDED_STATUS_FRAME_MIN,
{
    ExtendedStatusUpdate {
        battery_left: signed(frame[6]),
        battery_right: signed(frame[7]),
        battery_case: signed(frame[11]),
        noise_reduction: frame[16] == 1,
        ambient_sound_enabled: false,
    }
}

/// The noise-controls update that a frame carries: the first byte of the
/// payload is the mode.
pub open spec fn noise_controls_updated_of(frame: Seq<u8>) -> NoiseControlsUpdated
    recommends
        frame.len() >= NOISE_CONTROLS_FRAME_MIN,
{
    NoiseControlsUpdated { noise_control_mode: noise_control_mode_of(frame[4]) }
}

/// The bytes of the manager-info command for the given client.
pub uninterp spec fn manager_info_frame(is_samsung_device: bool, android_sdk: u8) -> Seq<u8>;

/// The bytes of the command that starts or stops the search for the earbuds.
pub uninterp spec fn find_my_bud_frame(start: bool) -> Seq<u8>;

/// Reads `galaxy_buds_rs::message::BOM`, the codec's begin-of-message byte,
/// and claims that it is 253.
#[verifier::external_body]
pub(crate) fn frame_start() -> (byte: u8)
    ensures
        byte == BOM,
{
    galaxy_buds_rs::message::BOM
}

/// Reads `galaxy_buds_rs::message::EOM`, the codec's end-of-message byte,
/// and claims that it is 221.
#[verifier::external_body]
pub(crate) fn frame_end() -> (byte: u8)
    ensures
        byte == EOM,
{
    galaxy_buds_rs::message::EOM
}

/// Reads `galaxy_buds_rs::message::ids::STATUS_UPDATED` and claims that it
/// is 96.
#[verifier::external_body]
pub(crate) fn status_updated_id() -> (id: u8)
    ensures
        id == STATUS_UPDATED,
{
    galaxy_buds_rs::message::ids::STATUS_UPDATED
}

/// Reads `galaxy_buds_rs::message::ids::EXTENDED_STATUS_UPDATED` and claims
/// that it is 97.
#[verifier::external_body]
pub(crate) fn extended_status_updated_id() -> (id: u8)
    ensures
        id == EXTENDED_STATUS_UPDATED,
{
    galaxy_buds_rs::message::ids::EXTENDED_STATUS_UPDATED
}

/// Reads `galaxy_buds_rs::message::ids::NOISE_CONTROLS_UPDATE` and claims
/// that it is 119.
#[verifier::external_body]
pub(crate) fn noise_controls_updated_id() -> (id: u8)
    ensures
        id == NOISE_CONTROLS_UPDATED,
{
    galaxy_buds_rs::message::ids::NOISE_CONTROLS_UPDATE
}

/// Decodes a frame with the codec's `StatusUpdate::from(Message)`. The codec
/// skips the four bytes up to the identifier and reads the payload up to its
/// byte 6, so the frame must hold eleven bytes. Claimed: the three battery
/// levels are the payload's bytes 1, 2 and 6, read as signed.
#[verifier::external_body]
pub(crate) fn decode_status_update(frame: &[u8]) -> (status: StatusUpdate)
    requires
        frame@.len() >= STATUS_FRAME_MIN,
    ensures
        status == status_update_of(frame@),
{
    let decoded: galaxy_buds_rs::message::status_updated::StatusUpdate =
        galaxy_buds_rs::message::Message::new(frame, galaxy_buds_rs::model::Model::BudsLive).into();
    StatusUpdate {
        battery_left: decoded.battery_left,
        battery_right: decoded.battery_right,
        battery_case: decoded.battery_case,
    }
}

/// Decodes a frame with the codec's `ExtendedStatusUpdate::from(Message)`
/// for the model Buds Live. The codec reads the payload up to its byte 17,
/// so the frame must hold twenty-two bytes. Claimed: the battery levels are
/// the payload's bytes 2, 3 and 7, read as signed; noise reduction is on
/// where byte 12 is 1; ambient sound is always reported as off.
#[verifier::external_body]
pub(crate) fn decode_extended_status_update(frame: &[u8]) -> (status: ExtendedStatusUpdate)
    requires
        frame@.len() >= EXTENDED_STATUS_FRAME_MIN,
    ensures
        status == extended_status_update_of(frame@),
{
    let decoded: galaxy_buds_rs::message::extended_status_updated::ExtendedStatusUpdate =
        galaxy_buds_rs::message::Message::new(frame, galaxy_buds_rs::model::Model::BudsLive).into();
    ExtendedStatusUpdate {
        battery_left: decoded.battery_left,
        battery_right: decoded.battery_right,
        battery_case: decoded.battery_case,
        noise_reduction: decoded.noise_reduction,
        ambient_sound_enabled: decoded.ambient_sound_enabled,
    }
}

/// Decodes a frame with the codec's `NoiseControlsUpdated::from(Message)`.
/// The codec reads the first two bytes of the payload, so the frame must
/// hold six bytes. Claimed: the mode is noise reduction where the first
/// payload byte is 1, ambient sound where it is 2, and off otherwise.
#[verifier::external_body]
pub(crate) fn decode_noise_controls_updated(frame: &[u8]) -> (update: NoiseControlsUpdated)
    requires
        frame@.len() >= NOISE_CONTROLS_FRAME_MIN,
    ensures
        update == noise_controls_updated_of(frame@),
{
    let decoded: galaxy_buds_rs::message::noise_controls_updated::NoiseControlsUpdated =
        galaxy_buds_rs::message::Message::new(frame, galaxy_buds_rs::model::Model::BudsLive).into();
    NoiseControlsUpdated {
        noise_control_mode: match decoded.noise_control_mode {
            galaxy_buds_rs::message::bud_property::NoiseControlMode::Off => NoiseControlMode::Off,
            galaxy_buds_rs::message::bud_property::NoiseControlMode::NoiseReduction => NoiseControlMode::NoiseReduction,
            galaxy_buds_rs::message::bud_property::NoiseControlMode::AmbientSound => NoiseControlMode::AmbientSound,
        },
    }
}

/// `bytes` is a command frame with the given identifier and a payload of
/// less than 253 bytes: the begin-of-message byte; the number of bytes from
/// the identifier to the checksum, as two bytes, low byte first; the
/// identifier; the payload; two bytes of checksum, of which nothing is said
/// here; the end-of-message byte.
pub open spec fn is_command_frame(bytes: Seq<u8>, id: u8, payload: Seq<u8>) -> bool {
    &&& payload.len() < 253
    &&& bytes.len() == payload.len() + 7
    &&& bytes[0] == BOM
    &&& bytes[1] == payload.len() + 3
    &&& bytes[2] == 0
    &&& bytes[ID_OFFSET as int] == id
    &&& bytes.subrange(4, 4 + payload.len() as int) == payload
    &&& bytes[bytes.len() - 1] == EOM
}

/// The payload of the manager-info command: the kind of client, which is
/// always 1, whether the host is a Samsung device, and its Android version.
pub open spec fn manager_info_payload(is_samsung_device: bool, android_sdk: u8) -> Seq<u8> {
    seq![
        1u8,
        if is_samsung_device {
            1u8
        } else {
            0u8
        },
        android_sdk,
    ]
}

/// The identifier of the command that starts or stops the search.
pub open spec fn find_my_bud_id(start: bool) -> u8 {
    if start {
        FIND_MY_EARBUDS_START
    } else {
        FIND_MY_EARBUDS_STOP
    }
}

/// Encodes the manager-info command with the codec's `manager::new` and
/// `Payload::to_byte_array`. Claimed: the result depends on the two
/// arguments alone, and it is a command frame with the identifier of the
/// command and the three bytes of `manager_info_payload`. Nothing is claimed
/// of the two bytes of checksum.
#[verifier::external_body]
pub(crate) fn encode_manager_info(is_samsung_device: bool, android_sdk: u8) -> (bytes: Vec<u8>)
    ensures
        bytes@ == manager_info_frame(is_samsung_device, android_sdk),
        is_command_frame(
            bytes@,
            MANAGER_INFO,
            manager_info_payload(is_samsung_device, android_sdk),
        ),
{
    galaxy_buds_rs::message::manager::new(is_samsung_device, android_sdk).to_byte_array()
}

/// Encodes the find-my-earbuds command with the codec's `find_my_bud::new`
/// and `Payload::to_byte_array`. Claimed: the result depends on the argument
/// alone, and it is a command frame with the identifier of the start or of
/// the stop command and no payload. Nothing is claimed of the two bytes of
/// checksum.
#[verifier::external_body]
pub(crate) fn encode_find_my_bud(start: bool) -> (bytes: Vec<u8>)
    ensures
        bytes@ == find_my_bud_frame(start),
        is_command_frame(bytes@, find_my_bud_id(start), Seq::empty()),
{
    galaxy_buds_rs::message::find_my_bud::new(start).to_byte_array()
}

} // verus!
