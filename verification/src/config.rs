use vstd::prelude::*;

use crate::entities::{Contact, ContactKind, Notification as Template};
use crate::messages::AlarmInfo;
use crate::util::{hex_chars_of, hex_encode, replace_str, replaced};

verus! {

// ---------------------------------------------------------------------------
// Server configuration, and the notification senders' computational parts.
// The network I/O itself (SMTP, HTTP) is left to the surrounding
// application, which receives fully prepared send actions.
// ---------------------------------------------------------------------------

/// A host and port, kept as plain values.
#[derive(Debug)]
pub struct HostPort {
    pub ip: String,
    pub port: u16,
}

pub struct HostPortView {
    pub ip: Seq<char>,
    pub port: u16,
}

impl View for HostPort {
    type V = HostPortView;

    open spec fn view(&self) -> HostPortView {
        HostPortView { ip: self.ip@, port: self.port }
    }
}

impl Clone for HostPort {
    fn clone(&self) -> (r: HostPort)
        ensures
            r@ == self@,
    {
        HostPort { ip: self.ip.clone(), port: self.port }
    }
}

/// SMTP account settings.
#[derive(Debug)]
pub struct Email {
    pub from: (String, String),
    pub tls: bool,
    pub server: String,
    pub port: u16,
    pub username: String,
    pub password: String,
}

pub struct EmailView {
    pub from: (Seq<char>, Seq<char>),
    pub tls: bool,
    pub server: Seq<char>,
    pub port: u16,
    pub username: Seq<char>,
    pub password: Seq<char>,
}

impl View for Email {
    type V = EmailView;

    open spec fn view(&self) -> EmailView {
        EmailView {
            from: (self.from.0@, self.from.1@),
            tls: self.tls,
            server: self.server@,
            port: self.port,
            username: self.username@,
            password: self.password@,
        }
    }
}

impl Clone for Email {
    fn clone(&self) -> (r: Email)
        ensures
            r@ == self@,
    {
        Email {
            from: (self.from.0.clone(), self.from.1.clone()),
            tls: self.tls,
            server: self.server.clone(),
            port: self.port,
            username: self.username.clone(),
            password: self.password.clone(),
        }
    }
}

/// The out-of-the-box SMTP settings.
pub open spec fn spec_default_email() -> EmailView {
    EmailView {
        from: ("Evac"@, "evac@sc-l.eu"@),
        tls: false,
        server: "smtp"@,
        port: 587,
        username: "miksa"@,
        password: "password"@,
    }
}

impl Default for Email {
    fn default() -> (r: Email)
        ensures
            r@ == spec_default_email(),
    {
        Email {
            from: ("Evac".to_owned(), "evac@sc-l.eu".to_owned()),
            tls: false,
            server: "smtp".to_owned(),
            port: 587,
            username: "miksa".to_owned(),
            password: "password".to_owned(),
        }
    }
}

/// SMS gateway settings.
#[derive(Debug)]
pub struct SMS {
    pub url: String,
    pub login: String,
    pub auth: String,
}

pub struct SMSView {
    pub url: Seq<char>,
    pub login: Seq<char>,
    pub auth: Seq<char>,
}

impl View for SMS {
    type V = SMSView;

    open spec fn view(&self) -> SMSView {
        SMSView { url: self.url@, login: self.login@, auth: self.auth@ }
    }
}

impl Clone for SMS {
    fn clone(&self) -> (r: SMS)
        ensures
            r@ == self@,
    {
        SMS { url: self.url.clone(), login: self.login.clone(), auth: self.auth.clone() }
    }
}

/// The out-of-the-box SMS gateway settings: everything empty.
pub open spec fn spec_default_sms() -> SMSView {
    SMSView { url: Seq::empty(), login: Seq::empty(), auth: Seq::empty() }
}

impl Default for SMS {
    fn default() -> (r: SMS)
        ensures
            r@ == spec_default_sms(),
    {
        SMS { url: String::new(), login: String::new(), auth: String::new() }
    }
}

/// What `md5::compute` returns for a byte string: a function of the bytes
/// alone.
pub uninterp spec fn md5_of(data: Seq<u8>) -> Seq<u8>;

/// Relies on `md5::compute`: the 16-byte MD5 digest of the input.
#[verifier::external_body]
fn md5_digest(data: &Vec<u8>) -> (r: [u8; 16])
    ensures
        r@ == md5_of(data@),
{
    md5::compute(data.as_slice()).0
}

/// What `sha2::Sha256::digest` returns for a byte string: a function of the
/// bytes alone.
pub uninterp spec fn sha256_of(data: Seq<u8>) -> Seq<u8>;

/// Relies on `sha2::Sha256::digest`: the 32-byte SHA-256 digest of the
/// input.
#[verifier::external_body]
fn sha256_digest(data: &Vec<u8>) -> (r: [u8; 32])
    ensures
        r@ == sha256_of(data@),
{
    let d = <sha2::Sha256 as sha2::Digest>::digest(data.as_slice());
    d.into()
}

/// The UTF-8 bytes of a string.
pub open spec fn str_bytes(s: Seq<char>) -> Seq<u8> {
    vstd::utf8::encode_utf8(s)
}

/// The gateway's request signature: the hexadecimal MD5 of the hexadecimal
/// MD5 of the shared secret, followed by the login, the literal text "send",
/// and the message.
pub open spec fn spec_sms_auth(auth: Seq<char>, login: Seq<char>, msg: Seq<char>) -> Seq<char> {
    hex_chars_of(
        md5_of(
            str_bytes(hex_chars_of(md5_of(str_bytes(auth)))) + str_bytes(login) + str_bytes(
                "send"@,
            ) + str_bytes(msg),
        ),
    )
}

/// Appends a slice of bytes to a buffer.
fn append_bytes(buf: &mut Vec<u8>, s: &[u8])
    ensures
        final(buf)@ == old(buf)@ + s@,
{
    buf.extend_from_slice(s);
    proof {
        assert forall|i: int| 0 <= i < buf@.len() implies buf@[i] == (old(buf)@ + s@)[i] by {
            if i >= old(buf)@.len() {
                assert(vstd::pervasive::cloned::<u8>(s@[i - old(buf)@.len()], buf@[i]));
            }
        }
        assert(buf@ =~= old(buf)@ + s@);
    }
}

impl SMS {
    /// The authentication token sent with one gateway request.
    pub fn get_auth(&self, msg: &String) -> (r: String)
        ensures
            r@ == spec_sms_auth(self.auth@, self.login@, msg@),
    {
        let mut inner: Vec<u8> = Vec::new();
        append_bytes(&mut inner, self.auth.as_str().as_bytes());
        let inner_digest = md5_digest(&inner);
        let mut inner_vec: Vec<u8> = Vec::new();
        append_bytes(&mut inner_vec, inner_digest.as_slice());
        let inner_hex = hex_encode(&inner_vec);
        proof {
            assert(inner@ =~= str_bytes(self.auth@));
            assert(inner_vec@ =~= md5_of(str_bytes(self.auth@)));
        }
        let mut outer: Vec<u8> = Vec::new();
        append_bytes(&mut outer, inner_hex.as_str().as_bytes());
        proof {
            assert(outer@ =~= str_bytes(hex_chars_of(md5_of(str_bytes(self.auth@)))));
        }
        append_bytes(&mut outer, self.login.as_str().as_bytes());
        append_bytes(&mut outer, "send".as_bytes());
        append_bytes(&mut outer, msg.as_str().as_bytes());
        let digest = md5_digest(&outer);
        let mut digest_vec: Vec<u8> = Vec::new();
        append_bytes(&mut digest_vec, digest.as_slice());
        proof {
            assert(digest_vec@ =~= md5_of(outer@));
        }
        hex_encode(&digest_vec)
    }
}

/// Base paths, ports and thresholds.
#[derive(Debug)]
pub struct Base {
    pub config_path: String,
    pub data_path: String,
    pub auth_path: String,
    pub frontend_path: String,
    pub salt: String,
    pub query_size: usize,
    pub activity_diff: u64,
    pub routine: u64,
    pub port_web: HostPort,
    pub port_scanner: HostPort,
    pub port_broadcast: HostPort,
}

pub struct BaseView {
    pub config_path: Seq<char>,
    pub data_path: Seq<char>,
    pub auth_path: Seq<char>,
    pub frontend_path: Seq<char>,
    pub salt: Seq<char>,
    pub query_size: usize,
    pub activity_diff: u64,
    pub routine: u64,
    pub port_web: HostPortView,
    pub port_scanner: HostPortView,
    pub port_broadcast: HostPortView,
}

impl View for Base {
    type V = BaseView;

    open spec fn view(&self) -> BaseView {
        BaseView {
            config_path: self.config_path@,
            data_path: self.data_path@,
            auth_path: self.auth_path@,
            frontend_path: self.frontend_path@,
            salt: self.salt@,
            query_size: self.query_size,
            activity_diff: self.activity_diff,
            routine: self.routine,
            port_web: self.port_web@,
            port_scanner: self.port_scanner@,
            port_broadcast: self.port_broadcast@,
        }
    }
}

impl Clone for Base {
    fn clone(&self) -> (r: Base)
        ensures
            r@ == self@,
    {
        Base {
            config_path: self.config_path.clone(),
            data_path: self.data_path.clone(),
            auth_path: self.auth_path.clone(),
            frontend_path: self.frontend_path.clone(),
            salt: self.salt.clone(),
            query_size: self.query_size,
            activity_diff: self.activity_diff,
            routine: self.routine,
            port_web: self.port_web.clone(),
            port_scanner: self.port_scanner.clone(),
            port_broadcast: self.port_broadcast.clone(),
        }
    }
}

/// The out-of-the-box paths, ports and thresholds.
pub open spec fn spec_default_base() -> BaseView {
    BaseView {
        config_path: Seq::empty(),
        data_path: Seq::empty(),
        auth_path: Seq::empty(),
        frontend_path: Seq::empty(),
        salt: Seq::empty(),
        query_size: 16,
        activity_diff: 15,
        routine: 5,
        port_web: HostPortView { ip: "0.0.0.0"@, port: 3030 },
        port_scanner: HostPortView { ip: "0.0.0.0"@, port: 3031 },
        port_broadcast: HostPortView { ip: "255.255.255.255"@, port: 3031 },
    }
}

impl Default for Base {
    fn default() -> (r: Base)
        ensures
            r@ == spec_default_base(),
    {
        Base {
            config_path: String::new(),
            data_path: String::new(),
            auth_path: String::new(),
            frontend_path: String::new(),
            salt: String::new(),
            query_size: 16,
            activity_diff: 15,
            routine: 5,
            port_web: HostPort { ip: "0.0.0.0".to_owned(), port: 3030 },
            port_scanner: HostPort { ip: "0.0.0.0".to_owned(), port: 3031 },
            port_broadcast: HostPort { ip: "255.255.255.255".to_owned(), port: 3031 },
        }
    }
}

impl Base {
    /// The salted password hash stored for users: the hexadecimal SHA-256 of
    /// the salt followed by the input.
    pub fn get_hashed(&self, data: &str) -> (r: String)
        ensures
            r@ == hex_chars_of(sha256_of(str_bytes(self.salt@) + str_bytes(data@))),
    {
        let mut buf: Vec<u8> = Vec::new();
        append_bytes(&mut buf, self.salt.as_str().as_bytes());
        append_bytes(&mut buf, data.as_bytes());
        let digest = sha256_digest(&buf);
        let mut digest_vec: Vec<u8> = Vec::new();
        append_bytes(&mut digest_vec, digest.as_slice());
        proof {
            assert(buf@ =~= str_bytes(self.salt@) + str_bytes(data@));
            assert(digest_vec@ =~= sha256_of(str_bytes(self.salt@) + str_bytes(data@)));
        }
        hex_encode(&digest_vec)
    }
}

/// Free-form numeric settings.
#[derive(Clone, Copy, Debug, PartialEq, Eq, Structural)]
pub struct Setting {
    pub test: u64,
}

impl Default for Setting {
    fn default() -> (r: Setting)
        ensures
            r.test == 0,
    {
        Setting { test: 0 }
    }
}

/// One fully prepared notification delivery, handed to the application to
/// perform.
#[derive(Debug)]
pub enum NotifyAction {
    Email { to: String, subject: String, html: String, text: String },
    Sms { number: String, msg: String },
}

pub enum NotifyActionView {
    Email { to: Seq<char>, subject: Seq<char>, html: Seq<char>, text: Seq<char> },
    Sms { number: Seq<char>, msg: Seq<char> },
}

impl View for NotifyAction {
    type V = NotifyActionView;

    open spec fn view(&self) -> NotifyActionView {
        match self {
            NotifyAction::Email { to, subject, html, text } => NotifyActionView::Email {
                to: to@,
                subject: subject@,
                html: html@,
                text: text@,
            },
            NotifyAction::Sms { number, msg } => NotifyActionView::Sms { number: number@, msg: msg@ },
        }
    }
}

/// The delivery channels: which one is used follows from the contact's kind.
#[derive(Debug)]
pub struct Notification {
    pub email: Email,
    pub sms: SMS,
}

pub struct NotificationSettingsView {
    pub email: EmailView,
    pub sms: SMSView,
}

impl View for Notification {
    type V = NotificationSettingsView;

    open spec fn view(&self) -> NotificationSettingsView {
        NotificationSettingsView { email: self.email@, sms: self.sms@ }
    }
}

impl Clone for Notification {
    fn clone(&self) -> (r: Notification)
        ensures
            r@ == self@,
    {
        Notification { email: self.email.clone(), sms: self.sms.clone() }
    }
}

impl Default for Notification {
    fn default() -> (r: Notification)
        ensures
            r@.email == spec_default_email(),
            r@.sms == spec_default_sms(),
    {
        Notification { email: Email::default(), sms: SMS::default() }
    }
}

/// The action that one template produces for one contact: an email carrying
/// the subject and both bodies, or a text message carrying the short body.
pub open spec fn spec_notify_action(
    contact: crate::entities::ContactView,
    template: crate::entities::NotificationView,
) -> NotifyActionView {
    match contact.kind {
        crate::entities::ContactKindView::Email { email } => NotifyActionView::Email {
            to: email,
            subject: template.subject,
            html: template.long,
            text: template.short,
        },
        crate::entities::ContactKindView::Sms { number } => NotifyActionView::Sms {
            number,
            msg: template.short,
        },
    }
}

impl Notification {
    /// Prepares the delivery of one template to one contact.
    pub fn send_notifications(&self, contact: Contact, template: Template) -> (r: NotifyAction)
        ensures
            r@ == spec_notify_action(contact@, template@),
    {
        match contact.kind {
            ContactKind::Email { email } => NotifyAction::Email {
                to: email,
                subject: template.subject,
                html: template.long,
                text: template.short,
            },
            ContactKind::Sms { number } => NotifyAction::Sms { number, msg: template.short },
        }
    }

    /// Prepares an alarm notification: the alarm's labels are substituted
    /// into both bodies before delivery.
    pub fn send_alarm(&self, contact: Contact, template: Template, alarm: &AlarmInfo) -> (r:
        NotifyAction)
        ensures
            r@ == spec_notify_action(
                contact@,
                (crate::entities::NotificationView {
                    long: spec_substituted(template@.long, alarm@),
                    short: spec_substituted(template@.short, alarm@),
                    ..template@
                }),
            ),
    {
        let long = substitute_labels(&template.long, alarm);
        let short = substitute_labels(&template.short, alarm);
        let substituted = Template {
            uuid: template.uuid,
            name: template.name,
            subject: template.subject,
            long,
            short,
        };
        self.send_notifications(contact, substituted)
    }
}

/// The text with the four placeholder labels replaced by the alarm's labels,
/// in the order device, scanner, location, room.
pub open spec fn spec_substituted(
    text: Seq<char>,
    alarm: crate::messages::AlarmInfoView,
) -> Seq<char> {
    replaced(
        replaced(
            replaced(replaced(text, "%device%"@, alarm.device), "%scanner%"@, alarm.scanner),
            "%location%"@,
            alarm.location,
        ),
        "%room%"@,
        alarm.room,
    )
}

/// Substitutes the alarm's labels into one body.
fn substitute_labels(text: &String, alarm: &AlarmInfo) -> (r: String)
    ensures
        r@ == spec_substituted(text@, alarm@),
{
    let a = replace_str(text.as_str(), "%device%", alarm.device.as_str());
    let b = replace_str(a.as_str(), "%scanner%", alarm.scanner.as_str());
    let c = replace_str(b.as_str(), "%location%", alarm.location.as_str());
    replace_str(c.as_str(), "%room%", alarm.room.as_str())
}

/// The whole server configuration.
#[derive(Debug)]
pub struct Server {
    pub base: Base,
    pub notification: Notification,
    pub setting: Setting,
}

pub struct ServerConfigView {
    pub base: BaseView,
    pub notification: NotificationSettingsView,
    pub setting: Setting,
}

impl View for Server {
    type V = ServerConfigView;

    open spec fn view(&self) -> ServerConfigView {
        ServerConfigView { base: self.base@, notification: self.notification@, setting: self.setting }
    }
}

impl Clone for Server {
    fn clone(&self) -> (r: Server)
        ensures
            r@ == self@,
    {
        Server {
            base: self.base.clone(),
            notification: self.notification.clone(),
            setting: self.setting,
        }
    }
}

impl Default for Server {
    fn default() -> (r: Server)
        ensures
            r@.base == spec_default_base(),
            r@.notification.email == spec_default_email(),
            r@.notification.sms == spec_default_sms(),
            r@.setting.test == 0,
    {
        Server {
            base: Base::default(),
            notification: Notification::default(),
            setting: Setting::default(),
        }
    }
}

} // verus!
