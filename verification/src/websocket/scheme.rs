//! The messages that pass between the server and its websocket clients, and the values in
//! them.

use vstd::prelude::*;

use crate::camera::worker::CameraError;
use crate::text::{
    before, comes_before, lemma_before_irreflexive, lemma_before_total, lemma_before_transitive,
};

verus! {

/// A post-processing configuration as a client sends it, with its steps of type `S`, which
/// only the post-processing server understands. `compress` and `compression_level` concern
/// the transport only and are of no use to that server.
#[derive(Debug, Clone, PartialEq, Eq)]
pub struct PostProcessingConfig<S> {
    pub steps: Vec<S>,
    pub trigger_every_n_images: u32,
    pub compress: bool,
    pub compression_level: u8,
}

/// The compression level of a configuration that names none.
pub fn default_compression_level() -> (level: u8)
    ensures
        level == 1,
{
    1
}

/// A post-processing configuration as the post-processing server takes it.
#[derive(Debug, Clone, PartialEq, Eq)]
pub struct SharedPostProcessingConfig<S> {
    pub steps: Vec<S>,
    pub trigger_every_n_images: u32,
}

impl<S> From<PostProcessingConfig<S>> for SharedPostProcessingConfig<S> {
    fn from(c: PostProcessingConfig<S>) -> (shared: SharedPostProcessingConfig<S>) {
        SharedPostProcessingConfig {
            steps: c.steps,
            trigger_every_n_images: c.trigger_every_n_images,
        }
    }
}

impl<S> vstd::std_specs::convert::FromSpecImpl<PostProcessingConfig<S>> for SharedPostProcessingConfig<S> {
    open spec fn obeys_from_spec() -> bool {
        true
    }

    open spec fn from_spec(c: PostProcessingConfig<S>) -> SharedPostProcessingConfig<S> {
        SharedPostProcessingConfig {
            steps: c.steps,
            trigger_every_n_images: c.trigger_every_n_images,
        }
    }
}

/// What a binary websocket message holds. Its code is the first byte of the message.
#[derive(Debug, Clone, Copy, PartialEq, Eq)]
pub enum WebSocketMsgType {
    JSON,
    BinaryImage,
}

impl WebSocketMsgType {
    /// The code of the type.
    pub open spec fn code(self) -> u8 {
        match self {
            WebSocketMsgType::JSON => 10,
            WebSocketMsgType::BinaryImage => 20,
        }
    }
}

impl From<WebSocketMsgType> for u8 {
    fn from(msg_type: WebSocketMsgType) -> (code: u8) {
        match msg_type {
            WebSocketMsgType::JSON => 10,
            WebSocketMsgType::BinaryImage => 20,
        }
    }
}

impl vstd::std_specs::convert::FromSpecImpl<WebSocketMsgType> for u8 {
    open spec fn obeys_from_spec() -> bool {
        true
    }

    open spec fn from_spec(msg_type: WebSocketMsgType) -> u8 {
        msg_type.code()
    }
}

/// Which camera to connect to: the one with this port and this model, or any camera if
/// one of them is left out.
#[derive(Debug, Clone, PartialEq, Eq)]
pub struct ConnectToCamera {
    pub port: Option<String>,
    pub model: Option<String>,
}

impl Default for ConnectToCamera {
    fn default() -> (config: ConnectToCamera)
        ensures
            config.port is None,
            config.model is None,
    {
        ConnectToCamera { port: None, model: None }
    }
}

/// A value of a camera setting. A floating-point number is held by its bits (IEEE 754,
/// single precision).
#[derive(Debug, Clone, PartialEq, Eq)]
pub enum ConfigValue {
    Str(String),
    F32(u32),
    Bool(bool),
    ButtonPress,
    Int(i64),
}

impl From<String> for ConfigValue {
    fn from(value: String) -> (config_value: ConfigValue) {
        ConfigValue::Str(value)
    }
}

impl vstd::std_specs::convert::FromSpecImpl<String> for ConfigValue {
    open spec fn obeys_from_spec() -> bool {
        true
    }

    open spec fn from_spec(value: String) -> ConfigValue {
        ConfigValue::Str(value)
    }
}

impl From<bool> for ConfigValue {
    fn from(value: bool) -> (config_value: ConfigValue) {
        ConfigValue::Bool(value)
    }
}

impl vstd::std_specs::convert::FromSpecImpl<bool> for ConfigValue {
    open spec fn obeys_from_spec() -> bool {
        true
    }

    open spec fn from_spec(value: bool) -> ConfigValue {
        ConfigValue::Bool(value)
    }
}

impl From<i64> for ConfigValue {
    fn from(value: i64) -> (config_value: ConfigValue) {
        ConfigValue::Int(value)
    }
}

impl vstd::std_specs::convert::FromSpecImpl<i64> for ConfigValue {
    open spec fn obeys_from_spec() -> bool {
        true
    }

    open spec fn from_spec(value: i64) -> ConfigValue {
        ConfigValue::Int(value)
    }
}

/// A setting to change and the value to give it. The key is a path of widget names
/// joined by dots.
#[derive(Debug, Clone, PartialEq, Eq)]
pub struct ConfigUpdate {
    pub key: String,
    pub value: ConfigValue,
}

/// Settings to change, in this order.
#[derive(Debug, Clone, PartialEq, Eq)]
pub struct UpdateCameraConfig {
    pub config_updates: Vec<ConfigUpdate>,
}

/// A series of captures at a fixed interval.
#[derive(Debug, Clone, PartialEq, Eq)]
pub struct IntervalCapture {
    pub number_of_images: Option<u32>,
    pub max_capture_time_ms: Option<u32>,
    pub interval_ms: u32,
}

/// How several exposures are blended into one image: the mode as JSON text. No capture of
/// that sort is made, so that nothing reads it.
#[derive(Debug, Clone, PartialEq, Eq)]
pub struct BlendingMode {
    pub json: String,
}

/// Several exposures that make one image.
#[derive(Debug, Clone, PartialEq, Eq)]
pub struct MultipleExposureCapture {
    pub number_of_images: u32,
    pub interval_ms: u32,
    pub blending_mode: BlendingMode,
}

/// What to capture.
#[derive(Debug, Clone, PartialEq, Eq)]
pub enum CaptureImage {
    Single,
    Interval(IntervalCapture),
    MultipleExposure(MultipleExposureCapture),
}

/// A message from a websocket client, with steps of post-processing of type `S`.
#[derive(Debug, Clone, PartialEq, Eq)]
pub enum MessageToServer<S> {
    GetDetectedCameras,
    GetCameraStatus,
    ConnectToCamera(ConnectToCamera),
    GetCameraConfig,
    UpdateCameraConfig(UpdateCameraConfig),
    CaptureImage(CaptureImage),
    CapturePreviewImage,
    CancelCapture,
    SetPostProcessingConfigs(Vec<PostProcessingConfig<S>>),
    Shutdown,
    DisconnectCamera,
}

/// A message to the websocket clients.
#[derive(Debug, Clone, PartialEq, Eq)]
pub enum MessageToClient {
    CameraStatus(CameraStatus),
    CameraList(CameraList),
    CameraConfig(CameraConfig),
    Image(Image),
    ImageList(Vec<Image>),
    CameraError(CameraError),
    CaptureCancelled,
    CaptureComplete,
}

impl From<CameraStatus> for MessageToClient {
    fn from(value: CameraStatus) -> (message: MessageToClient) {
        MessageToClient::CameraStatus(value)
    }
}

impl vstd::std_specs::convert::FromSpecImpl<CameraStatus> for MessageToClient {
    open spec fn obeys_from_spec() -> bool {
        true
    }

    open spec fn from_spec(value: CameraStatus) -> MessageToClient {
        MessageToClient::CameraStatus(value)
    }
}

impl From<CameraList> for MessageToClient {
    fn from(value: CameraList) -> (message: MessageToClient) {
        MessageToClient::CameraList(value)
    }
}

impl vstd::std_specs::convert::FromSpecImpl<CameraList> for MessageToClient {
    open spec fn obeys_from_spec() -> bool {
        true
    }

    open spec fn from_spec(value: CameraList) -> MessageToClient {
        MessageToClient::CameraList(value)
    }
}

impl From<CameraConfig> for MessageToClient {
    fn from(value: CameraConfig) -> (message: MessageToClient) {
        MessageToClient::CameraConfig(value)
    }
}

impl vstd::std_specs::convert::FromSpecImpl<CameraConfig> for MessageToClient {
    open spec fn obeys_from_spec() -> bool {
        true
    }

    open spec fn from_spec(value: CameraConfig) -> MessageToClient {
        MessageToClient::CameraConfig(value)
    }
}

impl From<Image> for MessageToClient {
    fn from(value: Image) -> (message: MessageToClient) {
        MessageToClient::Image(value)
    }
}

impl vstd::std_specs::convert::FromSpecImpl<Image> for MessageToClient {
    open spec fn obeys_from_spec() -> bool {
        true
    }

    open spec fn from_spec(value: Image) -> MessageToClient {
        MessageToClient::Image(value)
    }
}

impl From<Vec<Image>> for MessageToClient {
    fn from(value: Vec<Image>) -> (message: MessageToClient) {
        MessageToClient::ImageList(value)
    }
}

impl vstd::std_specs::convert::FromSpecImpl<Vec<Image>> for MessageToClient {
    open spec fn obeys_from_spec() -> bool {
        true
    }

    open spec fn from_spec(value: Vec<Image>) -> MessageToClient {
        MessageToClient::ImageList(value)
    }
}

/// The answer that a result makes: the value's own message, or the error.
impl<T> From<Result<T, CameraError>> for MessageToClient where MessageToClient: From<T> {
    fn from(value: Result<T, CameraError>) -> (message: MessageToClient) {
        match value {
            Err(e) => MessageToClient::CameraError(e),
            Ok(value) => MessageToClient::from(value),
        }
    }
}

impl<T> vstd::std_specs::convert::FromSpecImpl<Result<T, CameraError>> for MessageToClient where MessageToClient: From<T> {
    open spec fn obeys_from_spec() -> bool {
        <MessageToClient as vstd::std_specs::convert::FromSpec<T>>::obeys_from_spec()
    }

    open spec fn from_spec(value: Result<T, CameraError>) -> MessageToClient {
        match value {
            Err(e) => MessageToClient::CameraError(e),
            Ok(value) => <MessageToClient as vstd::std_specs::convert::FromSpec<T>>::from_spec(value),
        }
    }
}

/// What the camera's driver can do with folders.
#[derive(Debug, Clone, Copy, PartialEq, Eq)]
pub struct AvailableFolderOperations {
    pub delete_all: bool,
    pub put_file: bool,
    pub make_dir: bool,
    pub remove_dir: bool,
}

/// What the camera's driver can do with files.
#[derive(Debug, Clone, Copy, PartialEq, Eq)]
pub struct AvailableFileOperations {
    pub delete: bool,
    pub preview: bool,
    pub raw: bool,
    pub audio: bool,
    pub exif: bool,
}

/// What the camera's driver can do with the camera.
#[derive(Debug, Clone, Copy, PartialEq, Eq)]
pub struct AvailableCameraOperations {
    pub capture_image: bool,
    pub capture_video: bool,
    pub capture_audio: bool,
    pub capture_preview: bool,
    pub configure: bool,
    pub trigger_capture: bool,
}

/// The state of the camera connection as clients see it.
#[derive(Debug, PartialEq, Eq)]
pub struct CameraStatus {
    pub connected: bool,
    pub camera_id: Option<String>,
    pub model: Option<String>,
    pub port: Option<String>,
    pub about: Option<String>,
    pub summary: Option<String>,
    pub available_folder_operations: Option<AvailableFolderOperations>,
    pub available_file_operations: Option<AvailableFileOperations>,
    pub available_camera_operations: Option<AvailableCameraOperations>,
}

/// The status while no camera is connected.
pub open spec fn disconnected_status() -> CameraStatus {
    CameraStatus {
        connected: false,
        camera_id: None,
        model: None,
        port: None,
        about: None,
        summary: None,
        available_folder_operations: None,
        available_file_operations: None,
        available_camera_operations: None,
    }
}

impl Default for CameraStatus {
    fn default() -> (status: CameraStatus)
        ensures
            status == disconnected_status(),
    {
        CameraStatus {
            connected: false,
            camera_id: None,
            model: None,
            port: None,
            about: None,
            summary: None,
            available_folder_operations: None,
            available_file_operations: None,
            available_camera_operations: None,
        }
    }
}

/// A copy of an optional text.
pub(crate) fn copy_text(text: &Option<String>) -> (copy: Option<String>)
    ensures
        copy == *text,
{
    match text {
        Some(s) => Some(s.clone()),
        None => None,
    }
}

impl Clone for CameraStatus {
    fn clone(&self) -> (copy: CameraStatus)
        ensures
            copy == *self,
    {
        CameraStatus {
            connected: self.connected,
            camera_id: copy_text(&self.camera_id),
            model: copy_text(&self.model),
            port: copy_text(&self.port),
            about: copy_text(&self.about),
            summary: copy_text(&self.summary),
            available_folder_operations: self.available_folder_operations,
            available_file_operations: self.available_file_operations,
            available_camera_operations: self.available_camera_operations,
        }
    }
}

/// A camera that was found.
#[derive(Debug, Clone, PartialEq, Eq)]
pub struct CameraDescriptor {
    pub model: String,
    pub port: String,
}

/// The cameras that were found.
#[derive(Debug, Clone, PartialEq, Eq)]
pub struct CameraList {
    pub cameras: Vec<CameraDescriptor>,
}

impl From<Vec<CameraDescriptor>> for CameraList {
    fn from(cameras: Vec<CameraDescriptor>) -> (list: CameraList) {
        CameraList { cameras }
    }
}

impl vstd::std_specs::convert::FromSpecImpl<Vec<CameraDescriptor>> for CameraList {
    open spec fn obeys_from_spec() -> bool {
        true
    }

    open spec fn from_spec(cameras: Vec<CameraDescriptor>) -> CameraList {
        CameraList { cameras }
    }
}

/// The numbers that a range setting takes: from `min` to `max` in steps of `step`, each
/// held by its bits (IEEE 754, single precision).
#[derive(Debug, Clone, Copy, PartialEq, Eq)]
pub struct ValidConfigValueRange {
    pub min: u32,
    pub max: u32,
    pub step: u32,
}

/// The values that a setting takes.
#[derive(Debug, Clone, PartialEq, Eq)]
pub enum ValidConfigValues {
    List(Vec<String>),
    Range(ValidConfigValueRange),
    Date,
    ButtonPress,
    Toggle,
    Text,
}

/// A setting of the camera.
#[derive(Debug, Clone, PartialEq, Eq)]
pub struct ConfigSetting {
    pub name: String,
    pub label: Option<String>,
    pub info: Option<String>,
    pub readonly: bool,
    pub value: ConfigValue,
    pub accepted_values: ValidConfigValues,
}

/// A setting under its key.
#[derive(Debug, Clone, PartialEq, Eq)]
pub struct ConfigEntry {
    pub key: String,
    pub setting: ConfigSetting,
}

/// The settings of the camera, each under its own key, in ascending order of the keys.
#[derive(Debug, Clone, PartialEq, Eq)]
pub struct CameraConfig {
    pub values: Vec<ConfigEntry>,
}

impl CameraConfig {
    /// The keys ascend, so that no key occurs twice.
    pub open spec fn wf(&self) -> bool {
        forall|i: int, j: int|
            0 <= i < j < self.values@.len() ==> before(
                #[trigger] self.values@[i].key@,
                #[trigger] self.values@[j].key@,
            )
    }

    /// The entry at `i` stands under `key`.
    pub open spec fn holds_at(&self, key: Seq<char>, i: int) -> bool {
        0 <= i < self.values@.len() && self.values@[i].key@ == key
    }

    /// Where two entries have one key they are the same entry.
    pub proof fn lemma_keys_differ(&self, i: int, j: int)
        requires
            self.wf(),
            0 <= i < self.values@.len(),
            0 <= j < self.values@.len(),
            self.values@[i].key@ == self.values@[j].key@,
        ensures
            i == j,
    {
        lemma_before_irreflexive(self.values@[i].key@);
    }

    /// An entry is what the view holds under its key.
    pub proof fn lemma_entry(&self, i: int)
        requires
            self.wf(),
            0 <= i < self.values@.len(),
        ensures
            self@.contains_key(self.values@[i].key@),
            self@[self.values@[i].key@] == self.values@[i].setting,
    {
        let key = self.values@[i].key@;
        assert(self.holds_at(key, i));
        let j = choose|j: int| self.holds_at(key, j);
        self.lemma_keys_differ(i, j);
    }

    /// Puts a setting under a key, in place of the one that stood there.
    pub fn insert(&mut self, key: String, setting: ConfigSetting)
        requires
            old(self).wf(),
        ensures
            final(self).wf(),
            final(self)@ == old(self)@.insert(key@, setting),
    {
        let len: usize = self.values.len();
        let mut at: usize = 0;
        while at < len && comes_before(self.values[at].key.as_str(), key.as_str())
            invariant
                self.wf(),
                self.values@ == old(self).values@,
                len == self.values@.len(),
                0 <= at <= len,
                forall|j: int| 0 <= j < at ==> before(#[trigger] self.values@[j].key@, key@),
            ensures
                at < len ==> !before(self.values@[at as int].key@, key@),
            decreases len - at,
        {
            at += 1;
        }
        let ghost old_values = self.values@;
        let ghost new_key = key@;
        let ghost replaced = at < len && old_values[at as int].key@ == new_key;
        if at < len && self.values[at].key == key {
            self.values.set(at, ConfigEntry { key, setting });
        } else {
            proof {
                if at < len {
                    lemma_before_total(old_values[at as int].key@, new_key);
                }
                assert forall|j: int| at <= j < len implies before(
                    new_key,
                    #[trigger] old_values[j].key@,
                ) by {
                    if j > at {
                        lemma_before_transitive(
                            new_key,
                            old_values[at as int].key@,
                            old_values[j].key@,
                        );
                    }
                }
            }
            self.values.insert(at, ConfigEntry { key, setting });
        }
        proof {
            let shift: int = if replaced { 0 } else { 1 };
            assert(self.wf()) by {
                assert forall|i: int, j: int| 0 <= i < j < self.values@.len() implies before(
                    #[trigger] self.values@[i].key@,
                    #[trigger] self.values@[j].key@,
                ) by {
                    let oi = if i <= at { i } else { i - shift };
                    let oj = if j <= at { j } else { j - shift };
                    if i != at {
                        assert(self.values@[i] == old_values[oi]);
                    }
                    if j != at {
                        assert(self.values@[j] == old_values[oj]);
                    }
                }
            }
            let expected = old(self)@.insert(new_key, setting);
            assert forall|k: Seq<char>| self@.contains_key(k) == expected.contains_key(k) by {
                if self@.contains_key(k) && k != new_key {
                    let i = choose|i: int| self.holds_at(k, i);
                    let oi = if i <= at { i } else { i - shift };
                    assert(old(self).holds_at(k, oi));
                }
                if expected.contains_key(k) {
                    if k == new_key {
                        assert(self.holds_at(k, at as int));
                    } else {
                        let oi = choose|i: int| old(self).holds_at(k, i);
                        let i = if oi < at { oi } else { oi + shift };
                        assert(self.holds_at(k, i));
                    }
                }
            }
            assert forall|k: Seq<char>| self@.contains_key(k) implies self@[k] == expected[k] by {
                let i = choose|i: int| self.holds_at(k, i);
                self.lemma_entry(i);
                if k == new_key {
                    self.lemma_keys_differ(i, at as int);
                } else {
                    let oi = if i <= at { i } else { i - shift };
                    old(self).lemma_entry(oi);
                }
            }
            assert(self@ =~= expected);
        }
    }
}

impl View for CameraConfig {
    type V = Map<Seq<char>, ConfigSetting>;

    open spec fn view(&self) -> Map<Seq<char>, ConfigSetting> {
        Map::new(
            |key: Seq<char>| exists|i: int| self.holds_at(key, i),
            |key: Seq<char>| self.values@[choose|i: int| self.holds_at(key, i)].setting,
        )
    }
}

impl Default for CameraConfig {
    fn default() -> (config: CameraConfig)
        ensures
            config.wf(),
            config@ == Map::<Seq<char>, ConfigSetting>::empty(),
            config.values@.len() == 0,
    {
        let config = CameraConfig { values: Vec::new() };
        assert(config@ =~= Map::<Seq<char>, ConfigSetting>::empty());
        config
    }
}

/// A captured image and what is known of it.
#[derive(Debug, Clone, PartialEq, Eq)]
pub struct Image {
    pub id: String,
    pub mime_type: String,
    pub source: ImageSource,
    pub data: Vec<u8>,
}

/// Where an image comes from.
#[derive(Debug, Clone, Copy, PartialEq, Eq)]
pub enum ImageSource {
    Preview,
    Capture,
    PostProcessing,
}

/// What is known of an image, without its data.
#[derive(Debug, Clone, PartialEq, Eq)]
pub struct ImageInfo {
    pub id: String,
    pub mime_type: String,
    pub source: ImageSource,
}

/// A lower-case hexadecimal digit.
pub open spec fn is_hex_digit(c: char) -> bool {
    '0' <= c <= '9' || 'a' <= c <= 'f'
}

/// The text of a random UUID (version 4): lower-case hexadecimal digits in groups of
/// 8, 4, 4, 4 and 12, joined by hyphens, with the version and the variant in their places.
pub open spec fn is_random_uuid(id: Seq<char>) -> bool {
    &&& id.len() == 36
    &&& forall|i: int|
        0 <= i < 36 ==> if i == 8 || i == 13 || i == 18 || i == 23 {
            #[trigger] id[i] == '-'
        } else {
            is_hex_digit(id[i])
        }
    &&& id[14] == '4'
    &&& (id[19] == '8' || id[19] == '9' || id[19] == 'a' || id[19] == 'b')
}

/// Calls `uuid::Uuid::new_v4` and takes the UUID's text by its `Display`. The contract
/// claims that the text has the form of a random UUID, whatever bits came up; which ones
/// came up is left open. The call panics where the operating system has no random
/// bytes to give.
#[verifier::external_body]
fn random_uuid() -> (id: String)
    ensures
        is_random_uuid(id@),
{
    uuid::Uuid::new_v4().to_string()
}

impl Image {
    /// An image under a fresh random id.
    pub fn new(data: Vec<u8>, mime_type: String, source: ImageSource) -> (image: Image)
        ensures
            is_random_uuid(image.id@),
            image == (Image { id: image.id, mime_type, source, data }),
    {
        Image { id: random_uuid(), mime_type, source, data }
    }

    /// What is known of the image, and its data.
    pub fn split(self) -> (parts: (ImageInfo, Vec<u8>))
        ensures
            parts.0 == (ImageInfo { id: self.id, mime_type: self.mime_type, source: self.source }),
            parts.1 == self.data,
    {
        (ImageInfo { id: self.id, mime_type: self.mime_type, source: self.source }, self.data)
    }
}

/// A binary message of JSON starts with 10, and one of an image with 20.
pub proof fn law_codes_of_the_messages()
    ensures
        WebSocketMsgType::JSON.code() == 10,
        WebSocketMsgType::BinaryImage.code() == 20,
        forall|msg_type: WebSocketMsgType|
            #![trigger <u8 as vstd::std_specs::convert::FromSpec<
                WebSocketMsgType,
            >>::from_spec(msg_type)]
            <u8 as vstd::std_specs::convert::FromSpec<WebSocketMsgType>>::from_spec(msg_type)
                == if msg_type is JSON {
                10u8
            } else {
                20u8
            },
        <u8 as vstd::std_specs::convert::FromSpec<WebSocketMsgType>>::obeys_from_spec(),
{
}

/// What is set for a client's configuration is what the server takes of it: its steps and its
/// number of images.
pub proof fn law_shared_config_keeps_its_steps<S>(config: PostProcessingConfig<S>)
    ensures
        ({
            let shared = <SharedPostProcessingConfig<S> as vstd::std_specs::convert::FromSpec<
                PostProcessingConfig<S>,
            >>::from_spec(config);
            &&& shared.steps == config.steps
            &&& shared.trigger_every_n_images == config.trigger_every_n_images
        }),
        <SharedPostProcessingConfig<S> as vstd::std_specs::convert::FromSpec<
            PostProcessingConfig<S>,
        >>::obeys_from_spec(),
{
}

/// A text, a switch and a whole number become the setting's value of their own kind, unchanged.
pub proof fn law_values_become_settings(text: String, on: bool, number: i64)
    ensures
        <ConfigValue as vstd::std_specs::convert::FromSpec<String>>::from_spec(text)
            == ConfigValue::Str(text),
        <ConfigValue as vstd::std_specs::convert::FromSpec<bool>>::from_spec(on)
            == ConfigValue::Bool(on),
        <ConfigValue as vstd::std_specs::convert::FromSpec<i64>>::from_spec(number)
            == ConfigValue::Int(number),
        <ConfigValue as vstd::std_specs::convert::FromSpec<String>>::obeys_from_spec(),
        <ConfigValue as vstd::std_specs::convert::FromSpec<bool>>::obeys_from_spec(),
        <ConfigValue as vstd::std_specs::convert::FromSpec<i64>>::obeys_from_spec(),
{
}

/// What the clients are answered with holds exactly the value, as the message of its kind.
pub proof fn law_answers_hold_their_value(
    status: CameraStatus,
    list: CameraList,
    config: CameraConfig,
    image: Image,
    images: Vec<Image>,
)
    ensures
        <MessageToClient as vstd::std_specs::convert::FromSpec<CameraStatus>>::from_spec(status)
            == MessageToClient::CameraStatus(status),
        <MessageToClient as vstd::std_specs::convert::FromSpec<CameraList>>::from_spec(list)
            == MessageToClient::CameraList(list),
        <MessageToClient as vstd::std_specs::convert::FromSpec<CameraConfig>>::from_spec(config)
            == MessageToClient::CameraConfig(config),
        <MessageToClient as vstd::std_specs::convert::FromSpec<Image>>::from_spec(image)
            == MessageToClient::Image(image),
        <MessageToClient as vstd::std_specs::convert::FromSpec<Vec<Image>>>::from_spec(images)
            == MessageToClient::ImageList(images),
        <MessageToClient as vstd::std_specs::convert::FromSpec<CameraStatus>>::obeys_from_spec(),
        <MessageToClient as vstd::std_specs::convert::FromSpec<CameraList>>::obeys_from_spec(),
        <MessageToClient as vstd::std_specs::convert::FromSpec<CameraConfig>>::obeys_from_spec(),
        <MessageToClient as vstd::std_specs::convert::FromSpec<Image>>::obeys_from_spec(),
        <MessageToClient as vstd::std_specs::convert::FromSpec<Vec<Image>>>::obeys_from_spec(),
{
}

/// A result is answered with its error, or with what its value alone is answered with.
pub proof fn law_results_are_answered<T>(value: T, error: CameraError) where MessageToClient: From<T>
    ensures
        <MessageToClient as vstd::std_specs::convert::FromSpec<
            Result<T, CameraError>,
        >>::from_spec(Err(error)) == MessageToClient::CameraError(error),
        <MessageToClient as vstd::std_specs::convert::FromSpec<
            Result<T, CameraError>,
        >>::from_spec(Ok(value)) == <MessageToClient as vstd::std_specs::convert::FromSpec<
            T,
        >>::from_spec(value),
        <MessageToClient as vstd::std_specs::convert::FromSpec<T>>::obeys_from_spec()
            ==> <MessageToClient as vstd::std_specs::convert::FromSpec<
            Result<T, CameraError>,
        >>::obeys_from_spec(),
{
}

/// The list of the cameras holds exactly the cameras.
pub proof fn law_list_holds_the_cameras(cameras: Vec<CameraDescriptor>)
    ensures
        <CameraList as vstd::std_specs::convert::FromSpec<
            Vec<CameraDescriptor>,
        >>::from_spec(cameras).cameras == cameras,
        <CameraList as vstd::std_specs::convert::FromSpec<
            Vec<CameraDescriptor>,
        >>::obeys_from_spec(),
{
}

/// Without a camera there is nothing to tell of one.
pub proof fn law_nothing_is_known_without_a_camera()
    ensures
        ({
            let status = disconnected_status();
            &&& !status.connected
            &&& status.camera_id is None
            &&& status.model is None
            &&& status.port is None
            &&& status.about is None
            &&& status.summary is None
            &&& status.available_folder_operations is None
            &&& status.available_file_operations is None
            &&& status.available_camera_operations is None
        }),
{
}

/// The settings are exactly what stands in the entries: each setting under the key of its
/// entry, and nothing under any other key. No key occurs twice.
pub proof fn law_settings_are_the_entries(config: CameraConfig, key: Seq<char>)
    requires
        config.wf(),
    ensures
        config@.contains_key(key) <==> exists|i: int|
            0 <= i < config.values@.len() && #[trigger] config.values@[i].key@ == key,
        forall|i: int|
            0 <= i < config.values@.len() && #[trigger] config.values@[i].key@ == key
                ==> config@[key] == config.values@[i].setting,
        forall|i: int, j: int|
            0 <= i < j < config.values@.len() ==> #[trigger] config.values@[i].key@
                != #[trigger] config.values@[j].key@ && before(
                config.values@[i].key@,
                config.values@[j].key@,
            ),
{
    if config@.contains_key(key) {
        let i = choose|i: int| config.holds_at(key, i);
        assert(config.values@[i].key@ == key);
    }
    assert forall|i: int|
        0 <= i < config.values@.len() && #[trigger] config.values@[i].key@ == key implies config@[key]
        == config.values@[i].setting && config@.contains_key(key) by {
        config.lemma_entry(i);
    }
    assert forall|i: int, j: int| 0 <= i < j < config.values@.len() implies #[trigger] config.values@[i].key@
        != #[trigger] config.values@[j].key@ by {
        if config.values@[i].key@ == config.values@[j].key@ {
            config.lemma_keys_differ(i, j);
        }
    }
}

/// A random UUID is told in 36 characters: digits and small letters up to `f`, with hyphens
/// after the eighth digit and then after each four, three times more; the thirteenth digit is 4,
/// and the seventeenth is 8, 9, a or b.
pub proof fn law_form_of_a_random_uuid(id: Seq<char>)
    requires
        is_random_uuid(id),
    ensures
        id.len() == 36,
        id[8] == '-' && id[13] == '-' && id[18] == '-' && id[23] == '-',
        id[14] == '4',
        id[19] == '8' || id[19] == '9' || id[19] == 'a' || id[19] == 'b',
        forall|i: int|
            0 <= i < 36 && i != 8 && i != 13 && i != 18 && i != 23 ==> '0' <= #[trigger] id[i] <= '9'
                || 'a' <= id[i] <= 'f',
{
}

} // verus!
