use vstd::prelude::*;

use crate::ids::Uuid;
use crate::util::{copy_vec, DeepClone, HasUuid};

verus! {

// ---------------------------------------------------------------------------
// Domain records. Each type with text or byte fields gets a mathematical
// view, and a hand-written `Clone` whose contract says the copy has the same
// view; types of plain fields are compared structurally.
// ---------------------------------------------------------------------------

/// A field unit that scans for advertisements and relays them to the server.
#[derive(Debug)]
pub struct Scanner {
    pub uuid: Uuid,
    pub name: String,
    pub ip: String,
    pub port: u16,
    pub mac: Vec<u8>,
    pub room: Option<Uuid>,
    pub last_activity: u64,
    pub led: bool,
    pub buzzer: bool,
    pub scan: bool,
}

pub struct ScannerView {
    pub uuid: Uuid,
    pub name: Seq<char>,
    pub ip: Seq<char>,
    pub port: u16,
    pub mac: Seq<u8>,
    pub room: Option<Uuid>,
    pub last_activity: u64,
    pub led: bool,
    pub buzzer: bool,
    pub scan: bool,
}

impl View for Scanner {
    type V = ScannerView;

    open spec fn view(&self) -> ScannerView {
        ScannerView {
            uuid: self.uuid,
            name: self.name@,
            ip: self.ip@,
            port: self.port,
            mac: self.mac@,
            room: self.room,
            last_activity: self.last_activity,
            led: self.led,
            buzzer: self.buzzer,
            scan: self.scan,
        }
    }
}

impl DeepView for Scanner {
    type V = ScannerView;

    open spec fn deep_view(&self) -> ScannerView {
        self.view()
    }
}

impl Clone for Scanner {
    fn clone(&self) -> (r: Scanner)
        ensures
            r@ == self@,
    {
        Scanner {
            uuid: self.uuid,
            name: self.name.clone(),
            ip: self.ip.clone(),
            port: self.port,
            mac: copy_vec(&self.mac),
            room: self.room,
            last_activity: self.last_activity,
            led: self.led,
            buzzer: self.buzzer,
            scan: self.scan,
        }
    }
}

/// A tracked beacon device observed by the scanners.
#[derive(Debug)]
pub struct Device {
    pub uuid: Uuid,
    pub name: Option<String>,
    pub mac: Vec<u8>,
    pub enabled: bool,
    pub battery: Option<u8>,
    pub last_activity: u64,
}

pub struct DeviceView {
    pub uuid: Uuid,
    pub name: Option<Seq<char>>,
    pub mac: Seq<u8>,
    pub enabled: bool,
    pub battery: Option<u8>,
    pub last_activity: u64,
}

impl View for Device {
    type V = DeviceView;

    open spec fn view(&self) -> DeviceView {
        DeviceView {
            uuid: self.uuid,
            name: match self.name {
                Option::Some(n) => Option::Some(n@),
                Option::None => Option::None,
            },
            mac: self.mac@,
            enabled: self.enabled,
            battery: self.battery,
            last_activity: self.last_activity,
        }
    }
}

impl DeepView for Device {
    type V = DeviceView;

    open spec fn deep_view(&self) -> DeviceView {
        self.view()
    }
}

impl Clone for Device {
    fn clone(&self) -> (r: Device)
        ensures
            r@ == self@,
    {
        Device {
            uuid: self.uuid,
            name: match &self.name {
                Option::Some(n) => Option::Some(n.clone()),
                Option::None => Option::None,
            },
            mac: copy_vec(&self.mac),
            enabled: self.enabled,
            battery: self.battery,
            last_activity: self.last_activity,
        }
    }
}

/// One scanner's most recent signal-strength observation of one device.
#[derive(Clone, Copy, Debug, PartialEq, Eq, Structural)]
pub struct DeviceActivity {
    pub scanner_uuid: Uuid,
    pub timestamp: u64,
    pub irssi: i64,
}

/// A named site holding rooms.
#[derive(Debug)]
pub struct Location {
    pub uuid: Uuid,
    pub name: String,
}

pub struct LocationView {
    pub uuid: Uuid,
    pub name: Seq<char>,
}

impl View for Location {
    type V = LocationView;

    open spec fn view(&self) -> LocationView {
        LocationView { uuid: self.uuid, name: self.name@ }
    }
}

impl DeepView for Location {
    type V = LocationView;

    open spec fn deep_view(&self) -> LocationView {
        self.view()
    }
}

impl Clone for Location {
    fn clone(&self) -> (r: Location)
        ensures
            r@ == self@,
    {
        Location { uuid: self.uuid, name: self.name.clone() }
    }
}

/// A room inside a location, with an outline polygon.
#[derive(Debug)]
pub struct Room {
    pub uuid: Uuid,
    pub name: String,
    pub location: Uuid,
    pub points: Vec<(u64, u64)>,
}

pub struct RoomView {
    pub uuid: Uuid,
    pub name: Seq<char>,
    pub location: Uuid,
    pub points: Seq<(u64, u64)>,
}

impl View for Room {
    type V = RoomView;

    open spec fn view(&self) -> RoomView {
        RoomView {
            uuid: self.uuid,
            name: self.name@,
            location: self.location,
            points: self.points@,
        }
    }
}

impl DeepView for Room {
    type V = RoomView;

    open spec fn deep_view(&self) -> RoomView {
        self.view()
    }
}

impl Clone for Room {
    fn clone(&self) -> (r: Room)
        ensures
            r@ == self@,
    {
        Room {
            uuid: self.uuid,
            name: self.name.clone(),
            location: self.location,
            points: copy_vec(&self.points),
        }
    }
}

/// The semantic kind of a recorded event.
#[derive(Clone, Copy, Debug, PartialEq, Eq, Structural)]
pub enum EventKind {
    Advertisement,
    ButtonPressed,
    ButtonDoublePressed,
    ButtonTriplePressed,
    ButtonLongPressed,
    ButtonHold,
    Operator,
}

/// A deduplicated semantic event, keyed by (scanner, device, kind).
#[derive(Clone, Copy, Debug, PartialEq, Eq, Structural)]
pub struct Event {
    pub uuid: Uuid,
    pub timestamp: u64,
    pub scanner: Uuid,
    pub device: Option<Uuid>,
    pub kind: EventKind,
}

/// An operator-managed alarm template.
#[derive(Debug)]
pub struct Alarm {
    pub uuid: Uuid,
    pub name: String,
    pub buzzer: bool,
    pub led: bool,
    pub notification: Uuid,
    pub group: Uuid,
}

pub struct AlarmView {
    pub uuid: Uuid,
    pub name: Seq<char>,
    pub buzzer: bool,
    pub led: bool,
    pub notification: Uuid,
    pub group: Uuid,
}

impl View for Alarm {
    type V = AlarmView;

    open spec fn view(&self) -> AlarmView {
        AlarmView {
            uuid: self.uuid,
            name: self.name@,
            buzzer: self.buzzer,
            led: self.led,
            notification: self.notification,
            group: self.group,
        }
    }
}

impl DeepView for Alarm {
    type V = AlarmView;

    open spec fn deep_view(&self) -> AlarmView {
        self.view()
    }
}

impl Clone for Alarm {
    fn clone(&self) -> (r: Alarm)
        ensures
            r@ == self@,
    {
        Alarm {
            uuid: self.uuid,
            name: self.name.clone(),
            buzzer: self.buzzer,
            led: self.led,
            notification: self.notification,
            group: self.group,
        }
    }
}

/// A notification template: subject plus a long and a short body.
#[derive(Debug)]
pub struct Notification {
    pub uuid: Uuid,
    pub name: String,
    pub subject: String,
    pub long: String,
    pub short: String,
}

pub struct NotificationView {
    pub uuid: Uuid,
    pub name: Seq<char>,
    pub subject: Seq<char>,
    pub long: Seq<char>,
    pub short: Seq<char>,
}

impl View for Notification {
    type V = NotificationView;

    open spec fn view(&self) -> NotificationView {
        NotificationView {
            uuid: self.uuid,
            name: self.name@,
            subject: self.subject@,
            long: self.long@,
            short: self.short@,
        }
    }
}

impl DeepView for Notification {
    type V = NotificationView;

    open spec fn deep_view(&self) -> NotificationView {
        self.view()
    }
}

impl Clone for Notification {
    fn clone(&self) -> (r: Notification)
        ensures
            r@ == self@,
    {
        Notification {
            uuid: self.uuid,
            name: self.name.clone(),
            subject: self.subject.clone(),
            long: self.long.clone(),
            short: self.short.clone(),
        }
    }
}

/// How a contact is reached: a phone number or an email address.
#[derive(Debug)]
pub enum ContactKind {
    Sms { number: String },
    Email { email: String },
}

pub enum ContactKindView {
    Sms { number: Seq<char> },
    Email { email: Seq<char> },
}

impl View for ContactKind {
    type V = ContactKindView;

    open spec fn view(&self) -> ContactKindView {
        match self {
            ContactKind::Sms { number } => ContactKindView::Sms { number: number@ },
            ContactKind::Email { email } => ContactKindView::Email { email: email@ },
        }
    }
}

impl DeepView for ContactKind {
    type V = ContactKindView;

    open spec fn deep_view(&self) -> ContactKindView {
        self.view()
    }
}

impl Clone for ContactKind {
    fn clone(&self) -> (r: ContactKind)
        ensures
            r@ == self@,
    {
        match self {
            ContactKind::Sms { number } => ContactKind::Sms { number: number.clone() },
            ContactKind::Email { email } => ContactKind::Email { email: email.clone() },
        }
    }
}

/// A notification target.
#[derive(Debug)]
pub struct Contact {
    pub uuid: Uuid,
    pub name: String,
    pub kind: ContactKind,
}

pub struct ContactView {
    pub uuid: Uuid,
    pub name: Seq<char>,
    pub kind: ContactKindView,
}

impl View for Contact {
    type V = ContactView;

    open spec fn view(&self) -> ContactView {
        ContactView { uuid: self.uuid, name: self.name@, kind: self.kind@ }
    }
}

impl DeepView for Contact {
    type V = ContactView;

    open spec fn deep_view(&self) -> ContactView {
        self.view()
    }
}

impl Clone for Contact {
    fn clone(&self) -> (r: Contact)
        ensures
            r@ == self@,
    {
        Contact { uuid: self.uuid, name: self.name.clone(), kind: self.kind.clone() }
    }
}

/// A named group of contacts, referenced by alarm definitions.
#[derive(Debug)]
pub struct ContactGroup {
    pub uuid: Uuid,
    pub name: String,
    pub contacts: Vec<Uuid>,
}

pub struct ContactGroupView {
    pub uuid: Uuid,
    pub name: Seq<char>,
    pub contacts: Seq<Uuid>,
}

impl View for ContactGroup {
    type V = ContactGroupView;

    open spec fn view(&self) -> ContactGroupView {
        ContactGroupView { uuid: self.uuid, name: self.name@, contacts: self.contacts@ }
    }
}

impl DeepView for ContactGroup {
    type V = ContactGroupView;

    open spec fn deep_view(&self) -> ContactGroupView {
        self.view()
    }
}

impl Clone for ContactGroup {
    fn clone(&self) -> (r: ContactGroup)
        ensures
            r@ == self@,
    {
        ContactGroup {
            uuid: self.uuid,
            name: self.name.clone(),
            contacts: copy_vec(&self.contacts),
        }
    }
}

/// An operator role, checked at the session boundary.
#[derive(Clone, Copy, Debug, PartialEq, Eq, Structural)]
pub enum Role {
    Anonymous,
    Admin,
    Service,
    External,
}

/// An operator account.
#[derive(Debug)]
pub struct User {
    pub uuid: Uuid,
    pub username: String,
    pub password: String,
    pub roles: Vec<Role>,
}

pub struct UserView {
    pub uuid: Uuid,
    pub username: Seq<char>,
    pub password: Seq<char>,
    pub roles: Seq<Role>,
}

impl View for User {
    type V = UserView;

    open spec fn view(&self) -> UserView {
        UserView {
            uuid: self.uuid,
            username: self.username@,
            password: self.password@,
            roles: self.roles@,
        }
    }
}

impl DeepView for User {
    type V = UserView;

    open spec fn deep_view(&self) -> UserView {
        self.view()
    }
}

impl Clone for User {
    fn clone(&self) -> (r: User)
        ensures
            r@ == self@,
    {
        User {
            uuid: self.uuid,
            username: self.username.clone(),
            password: self.password.clone(),
            roles: copy_vec(&self.roles),
        }
    }
}

/// A login token, keyed by its nonce.
#[derive(Debug)]
pub struct Token {
    pub nonce: String,
    pub user: Uuid,
    pub is_valid: bool,
    pub created: u64,
}

pub struct TokenView {
    pub nonce: Seq<char>,
    pub user: Uuid,
    pub is_valid: bool,
    pub created: u64,
}

impl View for Token {
    type V = TokenView;

    open spec fn view(&self) -> TokenView {
        TokenView {
            nonce: self.nonce@,
            user: self.user,
            is_valid: self.is_valid,
            created: self.created,
        }
    }
}

impl DeepView for Token {
    type V = TokenView;

    open spec fn deep_view(&self) -> TokenView {
        self.view()
    }
}

impl Clone for Token {
    fn clone(&self) -> (r: Token)
        ensures
            r@ == self@,
    {
        Token {
            nonce: self.nonce.clone(),
            user: self.user,
            is_valid: self.is_valid,
            created: self.created,
        }
    }
}


impl HasUuid for Scanner {
    open spec fn sid(&self) -> Uuid {
        self.uuid
    }

    fn key(&self) -> (r: Uuid)
        ensures
            r == self.sid(),
    {
        self.uuid
    }
}

impl DeepClone for Scanner {
    fn deep_clone(&self) -> (r: Self)
        ensures
            r.deep_view() == self.deep_view(),
    {
        self.clone()
    }
}

impl HasUuid for Device {
    open spec fn sid(&self) -> Uuid {
        self.uuid
    }

    fn key(&self) -> (r: Uuid)
        ensures
            r == self.sid(),
    {
        self.uuid
    }
}

impl DeepClone for Device {
    fn deep_clone(&self) -> (r: Self)
        ensures
            r.deep_view() == self.deep_view(),
    {
        self.clone()
    }
}

impl HasUuid for Location {
    open spec fn sid(&self) -> Uuid {
        self.uuid
    }

    fn key(&self) -> (r: Uuid)
        ensures
            r == self.sid(),
    {
        self.uuid
    }
}

impl DeepClone for Location {
    fn deep_clone(&self) -> (r: Self)
        ensures
            r.deep_view() == self.deep_view(),
    {
        self.clone()
    }
}

impl HasUuid for Room {
    open spec fn sid(&self) -> Uuid {
        self.uuid
    }

    fn key(&self) -> (r: Uuid)
        ensures
            r == self.sid(),
    {
        self.uuid
    }
}

impl DeepClone for Room {
    fn deep_clone(&self) -> (r: Self)
        ensures
            r.deep_view() == self.deep_view(),
    {
        self.clone()
    }
}

impl HasUuid for Alarm {
    open spec fn sid(&self) -> Uuid {
        self.uuid
    }

    fn key(&self) -> (r: Uuid)
        ensures
            r == self.sid(),
    {
        self.uuid
    }
}

impl DeepClone for Alarm {
    fn deep_clone(&self) -> (r: Self)
        ensures
            r.deep_view() == self.deep_view(),
    {
        self.clone()
    }
}

impl HasUuid for Notification {
    open spec fn sid(&self) -> Uuid {
        self.uuid
    }

    fn key(&self) -> (r: Uuid)
        ensures
            r == self.sid(),
    {
        self.uuid
    }
}

impl DeepClone for Notification {
    fn deep_clone(&self) -> (r: Self)
        ensures
            r.deep_view() == self.deep_view(),
    {
        self.clone()
    }
}

impl HasUuid for Contact {
    open spec fn sid(&self) -> Uuid {
        self.uuid
    }

    fn key(&self) -> (r: Uuid)
        ensures
            r == self.sid(),
    {
        self.uuid
    }
}

impl DeepClone for Contact {
    fn deep_clone(&self) -> (r: Self)
        ensures
            r.deep_view() == self.deep_view(),
    {
        self.clone()
    }
}

impl HasUuid for ContactGroup {
    open spec fn sid(&self) -> Uuid {
        self.uuid
    }

    fn key(&self) -> (r: Uuid)
        ensures
            r == self.sid(),
    {
        self.uuid
    }
}

impl DeepClone for ContactGroup {
    fn deep_clone(&self) -> (r: Self)
        ensures
            r.deep_view() == self.deep_view(),
    {
        self.clone()
    }
}

impl HasUuid for User {
    open spec fn sid(&self) -> Uuid {
        self.uuid
    }

    fn key(&self) -> (r: Uuid)
        ensures
            r == self.sid(),
    {
        self.uuid
    }
}

impl DeepClone for User {
    fn deep_clone(&self) -> (r: Self)
        ensures
            r.deep_view() == self.deep_view(),
    {
        self.clone()
    }
}

impl DeepView for Event {
    type V = Event;

    open spec fn deep_view(&self) -> Event {
        *self
    }
}

impl HasUuid for Event {
    open spec fn sid(&self) -> Uuid {
        self.uuid
    }

    fn key(&self) -> (r: Uuid)
        ensures
            r == self.sid(),
    {
        self.uuid
    }
}

impl DeepClone for Event {
    fn deep_clone(&self) -> (r: Self)
        ensures
            r.deep_view() == self.deep_view(),
    {
        *self
    }
}

impl DeepClone for Token {
    fn deep_clone(&self) -> (r: Self)
        ensures
            r.deep_view() == self.deep_view(),
    {
        self.clone()
    }
}

} // verus!
