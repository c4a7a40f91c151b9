//! What the editor knows of a remote host: the connection settings, the
//! form that collects them, and directory entries.

use vstd::prelude::*;
use crate::text::{decimal, decimal_string, optional_text, parse_u16, parsed_u16};

verus! {

/// Mathematical value of a [`RemoteConfig`].
pub struct RemoteConfigView {
    pub host: Seq<char>,
    pub port: u16,
    pub username: Seq<char>,
    pub password: Option<Seq<char>>,
    pub key_path: Option<Seq<char>>,
    pub passphrase: Option<Seq<char>>,
}

/// How to reach a remote host.
#[derive(Debug, PartialEq, Eq)]
pub struct RemoteConfig {
    pub host: String,
    pub port: u16,
    pub username: String,
    pub password: Option<String>,
    pub key_path: Option<String>,
    pub passphrase: Option<String>,
}

impl View for RemoteConfig {
    type V = RemoteConfigView;

    open spec fn view(&self) -> RemoteConfigView {
        RemoteConfigView {
            host: self.host@,
            port: self.port,
            username: self.username@,
            password: optional_text(self.password),
            key_path: optional_text(self.key_path),
            passphrase: optional_text(self.passphrase),
        }
    }
}

fn clone_optional(text: &Option<String>) -> (r: Option<String>)
    ensures
        r == *text,
{
    match text {
        Some(s) => Some(s.clone()),
        None => None,
    }
}

impl Clone for RemoteConfig {
    fn clone(&self) -> (r: Self)
        ensures
            r == *self,
    {
        RemoteConfig {
            host: self.host.clone(),
            port: self.port,
            username: self.username.clone(),
            password: clone_optional(&self.password),
            key_path: clone_optional(&self.key_path),
            passphrase: clone_optional(&self.passphrase),
        }
    }
}

/// The port that a text names: the number it writes, or 22.
pub open spec fn port_of(text: Seq<char>) -> u16 {
    match parsed_u16(text) {
        Some(port) => port,
        None => 22,
    }
}

/// The remote settings that a set of optional values gives: none without a
/// host or without a user; port 22 where none is given or the text names
/// none.
pub open spec fn config_from(
    host: Option<Seq<char>>,
    username: Option<Seq<char>>,
    port: Option<Seq<char>>,
    password: Option<Seq<char>>,
    key_path: Option<Seq<char>>,
    passphrase: Option<Seq<char>>,
) -> Option<RemoteConfigView> {
    if host is Some && username is Some {
        Some(
            RemoteConfigView {
                host: host->0,
                port: match port {
                    Some(text) => port_of(text),
                    None => 22,
                },
                username: username->0,
                password,
                key_path,
                passphrase,
            },
        )
    } else {
        None
    }
}

impl RemoteConfig {
    /// The remote settings that the given values describe, as they come
    /// from the environment: host, user, port, password, key file,
    /// passphrase.
    pub fn from_values(
        host: Option<String>,
        username: Option<String>,
        port: Option<String>,
        password: Option<String>,
        key_path: Option<String>,
        passphrase: Option<String>,
    ) -> (r: Option<Self>)
        ensures
            match config_from(
                optional_text(host),
                optional_text(username),
                optional_text(port),
                optional_text(password),
                optional_text(key_path),
                optional_text(passphrase),
            ) {
                Some(config) => r matches Some(made) && made@ == config,
                None => r is None,
            },
    {
        match (host, username) {
            (Some(host), Some(username)) => {
                let port = match port {
                    Some(text) => match parse_u16(text.as_str()) {
                        Some(port) => port,
                        None => 22,
                    },
                    None => 22,
                };
                Some(RemoteConfig { host, port, username, password, key_path, passphrase })
            },
            _ => None,
        }
    }

    /// The settings that the connection form starts from where no others
    /// are known: no host, port 22, the given user.
    pub fn fallback(username: String) -> (r: Self)
        ensures
            r@ == (RemoteConfigView {
                host: Seq::empty(),
                port: 22,
                username: username@,
                password: None,
                key_path: None,
                passphrase: None,
            }),
    {
        RemoteConfig {
            host: String::new(),
            port: 22,
            username,
            password: None,
            key_path: None,
            passphrase: None,
        }
    }
}

/// Mathematical value of a [`DirEntry`].
pub struct DirEntryView {
    pub name: Seq<char>,
    pub is_dir: bool,
}

/// One entry of a directory listing.
#[derive(Debug, PartialEq, Eq)]
pub struct DirEntry {
    pub name: String,
    pub is_dir: bool,
}

impl View for DirEntry {
    type V = DirEntryView;

    open spec fn view(&self) -> DirEntryView {
        DirEntryView { name: self.name@, is_dir: self.is_dir }
    }
}

/// The views of a directory listing, in order.
pub open spec fn listing_view(listing: Seq<DirEntry>) -> Seq<DirEntryView> {
    listing.map_values(|e: DirEntry| e@)
}

/// Whether file mode bits say directory.
pub open spec fn mode_is_dir(perm: Option<u32>) -> bool {
    perm matches Some(p) && p & 0o170000 == 0o040000
}

/// Whether the mode bits of a remote file, where it has any, say directory.
pub fn is_dir(perm: Option<u32>) -> (r: bool)
    ensures
        r == mode_is_dir(perm),
{
    match perm {
        Some(p) => p & 0o170000 == 0o040000,
        None => false,
    }
}

/// Mathematical value of a [`RemoteForm`].
pub struct RemoteFormView {
    pub host: Seq<char>,
    pub user: Seq<char>,
    pub port: Seq<char>,
    pub password: Seq<char>,
    pub key_path: Seq<char>,
    pub passphrase: Seq<char>,
    pub field_index: nat,
}

/// The form that collects the settings of a connection, one line per
/// setting, with one line active.
#[derive(Debug, PartialEq, Eq)]
pub struct RemoteForm {
    pub host: String,
    pub user: String,
    pub port: String,
    pub password: String,
    pub key_path: String,
    pub passphrase: String,
    pub field_index: usize,
}

impl View for RemoteForm {
    type V = RemoteFormView;

    open spec fn view(&self) -> RemoteFormView {
        RemoteFormView {
            host: self.host@,
            user: self.user@,
            port: self.port@,
            password: self.password@,
            key_path: self.key_path@,
            passphrase: self.passphrase@,
            field_index: self.field_index as nat,
        }
    }
}

/// A text as an optional value: none where it is empty.
pub open spec fn non_empty(text: Seq<char>) -> Option<Seq<char>> {
    if text.len() == 0 {
        None
    } else {
        Some(text)
    }
}

/// The text or nothing.
pub open spec fn text_or_empty(text: Option<Seq<char>>) -> Seq<char> {
    match text {
        Some(s) => s,
        None => Seq::empty(),
    }
}

impl RemoteFormView {
    /// The line that typing goes to. An index beyond the last line stands
    /// for the first.
    pub open spec fn active(self) -> Seq<char> {
        if self.field_index == 1 {
            self.user
        } else if self.field_index == 2 {
            self.port
        } else if self.field_index == 3 {
            self.password
        } else if self.field_index == 4 {
            self.key_path
        } else if self.field_index == 5 {
            self.passphrase
        } else {
            self.host
        }
    }

    /// The form with another text in the active line.
    pub open spec fn with_active(self, text: Seq<char>) -> RemoteFormView {
        if self.field_index == 1 {
            RemoteFormView { user: text, ..self }
        } else if self.field_index == 2 {
            RemoteFormView { port: text, ..self }
        } else if self.field_index == 3 {
            RemoteFormView { password: text, ..self }
        } else if self.field_index == 4 {
            RemoteFormView { key_path: text, ..self }
        } else if self.field_index == 5 {
            RemoteFormView { passphrase: text, ..self }
        } else {
            RemoteFormView { host: text, ..self }
        }
    }

    /// The settings that the form holds: port 22 where the port line names
    /// none, and no password, key file or passphrase where the line is
    /// empty.
    pub open spec fn config(self) -> RemoteConfigView {
        RemoteConfigView {
            host: self.host,
            port: port_of(self.port),
            username: self.user,
            password: non_empty(self.password),
            key_path: non_empty(self.key_path),
            passphrase: non_empty(self.passphrase),
        }
    }
}

fn optional(text: &String) -> (r: Option<String>)
    ensures
        optional_text(r) == non_empty(text@),
{
    if text.as_str().is_empty() {
        None
    } else {
        Some(text.clone())
    }
}

fn or_empty(text: &Option<String>) -> (r: String)
    ensures
        r@ == text_or_empty(optional_text(*text)),
{
    match text {
        Some(s) => s.clone(),
        None => String::new(),
    }
}

impl RemoteForm {
    /// A form filled with the given settings, with the first line active.
    pub fn new(defaults: &RemoteConfig) -> (r: Self)
        ensures
            r@ == (RemoteFormView {
                host: defaults@.host,
                user: defaults@.username,
                port: decimal(defaults@.port as nat),
                password: text_or_empty(defaults@.password),
                key_path: text_or_empty(defaults@.key_path),
                passphrase: text_or_empty(defaults@.passphrase),
                field_index: 0,
            }),
    {
        RemoteForm {
            host: defaults.host.clone(),
            user: defaults.username.clone(),
            port: decimal_string(defaults.port as usize),
            password: or_empty(&defaults.password),
            key_path: or_empty(&defaults.key_path),
            passphrase: or_empty(&defaults.passphrase),
            field_index: 0,
        }
    }

    /// Makes the next line active; after the last comes the first.
    pub fn next_field(&mut self)
        ensures
            final(self)@ == (RemoteFormView {
                field_index: if old(self)@.field_index >= 5 {
                    0
                } else {
                    old(self)@.field_index + 1
                },
                ..old(self)@
            }),
    {
        if self.field_index >= 5 {
            self.field_index = 0;
        } else {
            self.field_index += 1;
        }
    }

    /// Makes the line before active; before the first comes the last.
    pub fn prev_field(&mut self)
        ensures
            final(self)@ == (RemoteFormView {
                field_index: if old(self)@.field_index == 0 {
                    5
                } else {
                    (old(self)@.field_index - 1) as nat
                },
                ..old(self)@
            }),
    {
        if self.field_index == 0 {
            self.field_index = 5;
        } else {
            self.field_index -= 1;
        }
    }

    /// The line that typing goes to.
    pub fn active_mut(&mut self) -> (r: &mut String)
        ensures
            r@ == old(self)@.active(),
            final(self)@ == old(self)@.with_active(final(r)@),
    {
        match self.field_index {
            1 => &mut self.user,
            2 => &mut self.port,
            3 => &mut self.password,
            4 => &mut self.key_path,
            5 => &mut self.passphrase,
            _ => &mut self.host,
        }
    }

    /// Appends a character to the active line.
    pub fn push_char(&mut self, c: char)
        ensures
            final(self)@ == old(self)@.with_active(old(self)@.active().push(c)),
    {
        self.active_mut().push(c);
    }

    /// Removes the last character of the active line, if it has one.
    pub fn pop_char(&mut self)
        ensures
            final(self)@ == old(self)@.with_active(
                if old(self)@.active().len() > 0 {
                    old(self)@.active().drop_last()
                } else {
                    old(self)@.active()
                },
            ),
    {
        self.active_mut().pop();
    }

    /// The settings that the form holds.
    pub fn to_config(&self) -> (r: RemoteConfig)
        ensures
            r@ == self@.config(),
    {
        let port = match parse_u16(self.port.as_str()) {
            Some(port) => port,
            None => 22,
        };
        RemoteConfig {
            host: self.host.clone(),
            port,
            username: self.user.clone(),
            password: optional(&self.password),
            key_path: optional(&self.key_path),
            passphrase: optional(&self.passphrase),
        }
    }
}

} // verus!
