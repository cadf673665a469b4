use vstd::prelude::*;

use crate::entities::{
    Alarm, Contact, ContactGroup, Device, Event, Location, Notification, Role, Room, Scanner,
    Token,
};
use crate::ids::Uuid;
use crate::util::copy_vec;

verus! {

// ---------------------------------------------------------------------------
// Wire protocol between server and scanners: one message per UDP datagram.
// ---------------------------------------------------------------------------

/// Actuator state pushed to a scanner; absent fields are left unchanged.
#[derive(Clone, Copy, Debug, PartialEq, Eq, Structural)]
pub struct State {
    pub scan: Option<bool>,
    pub led: Option<bool>,
    pub buzzer: Option<bool>,
}

/// A generic scalar carried by diagnostic messages.
#[derive(Clone, Copy, Debug, PartialEq, Eq, Structural)]
pub enum Value {
    Nil,
    U64(u64),
}

/// One observation reported by a scanner: the device's hardware address, the
/// received signal strength, and the raw advertisement bytes.
#[derive(Debug)]
pub struct ScanDevice {
    pub mac: Vec<u8>,
    pub rssi: i32,
    pub data: Vec<u8>,
}

pub struct ScanDeviceView {
    pub mac: Seq<u8>,
    pub rssi: i32,
    pub data: Seq<u8>,
}

impl View for ScanDevice {
    type V = ScanDeviceView;

    open spec fn view(&self) -> ScanDeviceView {
        ScanDeviceView { mac: self.mac@, rssi: self.rssi, data: self.data@ }
    }
}

impl Clone for ScanDevice {
    fn clone(&self) -> (r: ScanDevice)
        ensures
            r@ == self@,
    {
        ScanDevice { mac: copy_vec(&self.mac), rssi: self.rssi, data: copy_vec(&self.data) }
    }
}

/// The payload of a scanner protocol message.
#[derive(Debug)]
pub enum ScannerContent {
    Nope,
    Ack(Uuid),
    Error(Uuid, String),
    Hello,
    Register { mac: Vec<u8> },
    Ping(String),
    Pong(String),
    Restart,
    SetState(State),
    ScanResult(ScanDevice),
}

pub enum ScannerContentView {
    Nope,
    Ack(Uuid),
    Error(Uuid, Seq<char>),
    Hello,
    Register { mac: Seq<u8> },
    Ping(Seq<char>),
    Pong(Seq<char>),
    Restart,
    SetState(State),
    ScanResult(ScanDeviceView),
}

impl View for ScannerContent {
    type V = ScannerContentView;

    open spec fn view(&self) -> ScannerContentView {
        match self {
            ScannerContent::Nope => ScannerContentView::Nope,
            ScannerContent::Ack(u) => ScannerContentView::Ack(*u),
            ScannerContent::Error(u, t) => ScannerContentView::Error(*u, t@),
            ScannerContent::Hello => ScannerContentView::Hello,
            ScannerContent::Register { mac } => ScannerContentView::Register { mac: mac@ },
            ScannerContent::Ping(t) => ScannerContentView::Ping(t@),
            ScannerContent::Pong(t) => ScannerContentView::Pong(t@),
            ScannerContent::Restart => ScannerContentView::Restart,
            ScannerContent::SetState(s) => ScannerContentView::SetState(*s),
            ScannerContent::ScanResult(d) => ScannerContentView::ScanResult(d@),
        }
    }
}

impl Clone for ScannerContent {
    fn clone(&self) -> (r: ScannerContent)
        ensures
            r@ == self@,
    {
        match self {
            ScannerContent::Nope => ScannerContent::Nope,
            ScannerContent::Ack(u) => ScannerContent::Ack(*u),
            ScannerContent::Error(u, t) => ScannerContent::Error(*u, t.clone()),
            ScannerContent::Hello => ScannerContent::Hello,
            ScannerContent::Register { mac } => ScannerContent::Register { mac: copy_vec(mac) },
            ScannerContent::Ping(t) => ScannerContent::Ping(t.clone()),
            ScannerContent::Pong(t) => ScannerContent::Pong(t.clone()),
            ScannerContent::Restart => ScannerContent::Restart,
            ScannerContent::SetState(s) => ScannerContent::SetState(*s),
            ScannerContent::ScanResult(d) => ScannerContent::ScanResult(d.clone()),
        }
    }
}

/// The envelope of a scanner protocol message.
#[derive(Debug)]
pub struct ScannerMessage {
    pub content: ScannerContent,
    pub uuid: Uuid,
}

pub struct ScannerMessageView {
    pub content: ScannerContentView,
    pub uuid: Uuid,
}

impl View for ScannerMessage {
    type V = ScannerMessageView;

    open spec fn view(&self) -> ScannerMessageView {
        ScannerMessageView { content: self.content@, uuid: self.uuid }
    }
}

impl Clone for ScannerMessage {
    fn clone(&self) -> (r: ScannerMessage)
        ensures
            r@ == self@,
    {
        ScannerMessage { content: self.content.clone(), uuid: self.uuid }
    }
}

/// An outbound scanner message with its target: a specific scanner, or no
/// target, meaning the broadcast address.
#[derive(Debug)]
pub struct ScannerEvent {
    pub scanner: Option<Uuid>,
    pub message: ScannerMessage,
}

pub struct ScannerEventView {
    pub scanner: Option<Uuid>,
    pub message: ScannerMessageView,
}

impl View for ScannerEvent {
    type V = ScannerEventView;

    open spec fn view(&self) -> ScannerEventView {
        ScannerEventView { scanner: self.scanner, message: self.message@ }
    }
}

impl Clone for ScannerEvent {
    fn clone(&self) -> (r: ScannerEvent)
        ensures
            r@ == self@,
    {
        ScannerEvent { scanner: self.scanner, message: self.message.clone() }
    }
}

// ---------------------------------------------------------------------------
// Operator channel messages.
// ---------------------------------------------------------------------------

/// A presence update: which scanner currently sees a device best.
#[derive(Clone, Copy, Debug, PartialEq, Eq, Structural)]
pub struct Activity {
    pub device: Uuid,
    pub scanner: Uuid,
    pub rssi: i64,
    pub timestamp: u64,
}

/// A firing alarm instance: the definition it fires from, and its display
/// labels.
#[derive(Debug)]
pub struct AlarmInfo {
    pub uuid: Uuid,
    pub alarm: Uuid,
    pub device: String,
    pub scanner: String,
    pub location: String,
    pub room: String,
}

pub struct AlarmInfoView {
    pub uuid: Uuid,
    pub alarm: Uuid,
    pub device: Seq<char>,
    pub scanner: Seq<char>,
    pub location: Seq<char>,
    pub room: Seq<char>,
}

impl View for AlarmInfo {
    type V = AlarmInfoView;

    open spec fn view(&self) -> AlarmInfoView {
        AlarmInfoView {
            uuid: self.uuid,
            alarm: self.alarm,
            device: self.device@,
            scanner: self.scanner@,
            location: self.location@,
            room: self.room@,
        }
    }
}

impl DeepView for AlarmInfo {
    type V = AlarmInfoView;

    open spec fn deep_view(&self) -> AlarmInfoView {
        self.view()
    }
}

impl Clone for AlarmInfo {
    fn clone(&self) -> (r: AlarmInfo)
        ensures
            r@ == self@,
    {
        AlarmInfo {
            uuid: self.uuid,
            alarm: self.alarm,
            device: self.device.clone(),
            scanner: self.scanner.clone(),
            location: self.location.clone(),
            room: self.room.clone(),
        }
    }
}

/// Login credentials: either a stored token or a username and password.
#[derive(Debug)]
pub enum Auth {
    Token(String),
    Login { username: String, password: String },
}

pub enum AuthView {
    Token(Seq<char>),
    Login { username: Seq<char>, password: Seq<char> },
}

impl View for Auth {
    type V = AuthView;

    open spec fn view(&self) -> AuthView {
        match self {
            Auth::Token(t) => AuthView::Token(t@),
            Auth::Login { username, password } => AuthView::Login {
                username: username@,
                password: password@,
            },
        }
    }
}

impl Clone for Auth {
    fn clone(&self) -> (r: Auth)
        ensures
            r@ == self@,
    {
        match self {
            Auth::Token(t) => Auth::Token(t.clone()),
            Auth::Login { username, password } => Auth::Login {
                username: username.clone(),
                password: password.clone(),
            },
        }
    }
}

/// A user as shown to operators; the password is carried only on updates.
#[derive(Debug)]
pub struct UserInfo {
    pub username: String,
    pub uuid: Uuid,
    pub roles: Vec<Role>,
    pub password: Option<String>,
}

pub struct UserInfoView {
    pub username: Seq<char>,
    pub uuid: Uuid,
    pub roles: Seq<Role>,
    pub password: Option<Seq<char>>,
}

impl View for UserInfo {
    type V = UserInfoView;

    open spec fn view(&self) -> UserInfoView {
        UserInfoView {
            username: self.username@,
            uuid: self.uuid,
            roles: self.roles@,
            password: match self.password {
                Option::Some(p) => Option::Some(p@),
                Option::None => Option::None,
            },
        }
    }
}

impl DeepView for UserInfo {
    type V = UserInfoView;

    open spec fn deep_view(&self) -> UserInfoView {
        self.view()
    }
}

impl Clone for UserInfo {
    fn clone(&self) -> (r: UserInfo)
        ensures
            r@ == self@,
    {
        UserInfo {
            username: self.username.clone(),
            uuid: self.uuid,
            roles: copy_vec(&self.roles),
            password: match &self.password {
                Option::Some(p) => Option::Some(p.clone()),
                Option::None => Option::None,
            },
        }
    }
}

/// The server build identification sent on request.
#[derive(Debug)]
pub struct Version {
    pub commit: String,
    pub number: String,
}

/// An error surfaced to the requesting session only.
#[derive(Debug)]
pub enum Error {
    /// The command would break referential integrity; the offending command
    /// is echoed back.
    IntegrityError(Box<WebMessage>),
    /// The session lacks the role the command requires.
    Unauthorized(Box<WebMessage>),
}

/// A message on the operator channel: session control, registry reads and
/// writes, and domain events.
#[derive(Debug)]
pub enum WebMessage {
    Close,
    Login(Auth),
    Logout,
    UserInfo(UserInfo),
    Ping,
    Pong,
    Version(Version),
    Error(Error),
    Config(crate::config::Server),
    LocationList(Vec<Location>),
    LocationSet(Location),
    LocationDetail(Location),
    LocationRemove(Uuid),
    LocationRemoved(Uuid),
    RoomList(Vec<Room>),
    RoomSet(Room),
    RoomDetail(Room),
    RoomRemove(Uuid),
    RoomRemoved(Uuid),
    ScannerList(Vec<Scanner>),
    ScannerSet(Scanner),
    ScannerDetail(Scanner),
    ScannerRemove(Uuid),
    ScannerRemoved(Uuid),
    DeviceList(Vec<Device>),
    DeviceSet(Device),
    DeviceDetail(Device),
    DeviceRemove(Uuid),
    DeviceRemoved(Uuid),
    Activity(Activity),
    ActivityList(Vec<Activity>),
    Event(Event),
    EventList(Vec<Event>),
    EventRemove(Uuid),
    EventRemoved(Uuid),
    AlarmList(Vec<Alarm>),
    AlarmSet(Alarm),
    AlarmDetail(Alarm),
    AlarmRemove(Uuid),
    AlarmRemoved(Uuid),
    Alarm(AlarmInfo),
    AlarmStop(Uuid),
    Notify { uuid: Uuid, group: Uuid },
    NotificationList(Vec<Notification>),
    NotificationSet(Notification),
    NotificationDetail(Notification),
    NotificationRemove(Uuid),
    NotificationRemoved(Uuid),
    UserList(Vec<UserInfo>),
    UserSet(UserInfo),
    UserDetail(UserInfo),
    UserRemove(Uuid),
    UserRemoved(Uuid),
    TokenGetForUser(Uuid),
    TokenGet(Option<String>),
    TokenDetail(Option<Token>),
    ContactList(Vec<Contact>),
    ContactSet(Contact),
    ContactDetail(Contact),
    ContactRemove(Uuid),
    ContactRemoved(Uuid),
    ContactGroupList(Vec<ContactGroup>),
    ContactGroupSet(ContactGroup),
    ContactGroupDetail(ContactGroup),
    ContactGroupRemove(Uuid),
    ContactGroupRemoved(Uuid),
    BackupList(Vec<String>),
    BackupRemove(String),
    Backup(String),
    Restore(String),
}


impl crate::util::DeepClone for UserInfo {
    fn deep_clone(&self) -> (r: Self)
        ensures
            r.deep_view() == self.deep_view(),
    {
        self.clone()
    }
}

impl DeepView for Activity {
    type V = Activity;

    open spec fn deep_view(&self) -> Activity {
        *self
    }
}

impl crate::util::DeepClone for Activity {
    fn deep_clone(&self) -> (r: Self)
        ensures
            r.deep_view() == self.deep_view(),
    {
        *self
    }
}

impl crate::util::DeepClone for AlarmInfo {
    fn deep_clone(&self) -> (r: Self)
        ensures
            r.deep_view() == self.deep_view(),
    {
        self.clone()
    }
}


/// One side effect that a dispatch step asks the application to perform.
#[derive(Debug)]
pub enum Effect {
    /// Publish to every operator session.
    Broadcast(WebMessage),
    /// Send to the requesting session only.
    Reply(WebMessage),
    /// Send to a scanner, or to the broadcast address.
    ToScanner(ScannerEvent),
    /// Deliver one prepared notification.
    Notify(crate::config::NotifyAction),
    /// Persist the domain registries.
    SaveData,
    /// Write a backup of the domain registries to the given path.
    SaveBackup(String),
    /// Persist the accounts and tokens.
    SaveAuth,
    /// Load the domain registries from the given backup path and hand them
    /// back through `Database::restore`.
    LoadData(String),
}

} // verus!
