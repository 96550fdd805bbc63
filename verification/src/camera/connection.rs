//! Connecting to a camera, and what a connected camera says of itself.

use vstd::prelude::*;

use crate::websocket::scheme::{
    AvailableCameraOperations, AvailableFileOperations, AvailableFolderOperations, CameraStatus,
};

verus! {

/// Which camera to connect to.
#[derive(Debug, Clone, Copy, PartialEq, Eq)]
pub enum ConnectTarget<'a> {
    /// The camera of this model at this port.
    Camera { port: &'a String, model: &'a String },
    /// Any camera that is found.
    Any,
}

/// A camera is named by its port and its model together.
pub open spec fn target_of<'a>(
    port: &'a Option<String>,
    model: &'a Option<String>,
) -> ConnectTarget<'a> {
    match (port, model) {
        (Some(port), Some(model)) => ConnectTarget::Camera { port, model },
        _ => ConnectTarget::Any,
    }
}

/// Which camera a port and a model name: where one of them is missing, any.
pub fn connect_target<'a>(port: &'a Option<String>, model: &'a Option<String>) -> (target:
    ConnectTarget<'a>)
    ensures
        target == target_of(port, model),
{
    match (port, model) {
        (Some(port), Some(model)) => ConnectTarget::Camera { port, model },
        _ => ConnectTarget::Any,
    }
}

/// What the driver of a connected camera knows of it.
#[derive(Debug, Clone, PartialEq, Eq)]
pub struct CameraAbilities {
    pub id: String,
    pub model: String,
    pub folder_operations: AvailableFolderOperations,
    pub file_operations: AvailableFileOperations,
    pub camera_operations: AvailableCameraOperations,
}

/// The status of a connected camera.
pub open spec fn connected_status(
    abilities: CameraAbilities,
    port: String,
    about: String,
    summary: String,
) -> CameraStatus {
    CameraStatus {
        connected: true,
        camera_id: Some(abilities.id),
        model: Some(abilities.model),
        port: Some(port),
        about: Some(about),
        summary: Some(summary),
        available_folder_operations: Some(abilities.folder_operations),
        available_file_operations: Some(abilities.file_operations),
        available_camera_operations: Some(abilities.camera_operations),
    }
}

/// The status of a connected camera.
pub fn get_camera_status(
    abilities: CameraAbilities,
    port: String,
    about: String,
    summary: String,
) -> (status: CameraStatus)
    ensures
        status == connected_status(abilities, port, about, summary),
{
    CameraStatus {
        connected: true,
        camera_id: Some(abilities.id),
        model: Some(abilities.model),
        port: Some(port),
        about: Some(about),
        summary: Some(summary),
        available_folder_operations: Some(abilities.folder_operations),
        available_file_operations: Some(abilities.file_operations),
        available_camera_operations: Some(abilities.camera_operations),
    }
}

/// A camera is asked for by its port and its model, exactly as they are given, where both are
/// given; where one is missing, any camera will do.
pub proof fn law_camera_is_named_by_both(port: String, model: String, half: Option<String>)
    ensures
        target_of(&Some(port), &Some(model)) == (ConnectTarget::Camera {
            port: &port,
            model: &model,
        }),
        target_of(&None, &half) == ConnectTarget::Any,
        target_of(&half, &None) == ConnectTarget::Any,
{
}

/// The status of a connected camera says that there is one, and holds each thing that is known
/// of it in its own place.
pub proof fn law_status_tells_all_that_is_known(
    abilities: CameraAbilities,
    port: String,
    about: String,
    summary: String,
)
    ensures
        ({
            let status = connected_status(abilities, port, about, summary);
            &&& status.connected
            &&& status.camera_id == Some(abilities.id)
            &&& status.model == Some(abilities.model)
            &&& status.port == Some(port)
            &&& status.about == Some(about)
            &&& status.summary == Some(summary)
            &&& status.available_folder_operations == Some(abilities.folder_operations)
            &&& status.available_file_operations == Some(abilities.file_operations)
            &&& status.available_camera_operations == Some(abilities.camera_operations)
        }),
{
}

} // verus!
