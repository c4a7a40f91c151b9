//! The file picker's decisions: which entry is selected, what an action
//! asks for, and the connection form. Listing directories and connecting
//! is left to the caller.

use vstd::prelude::*;
use crate::action::Action;
use crate::listing::{listing_order, sort_entries};
use crate::remote::{DirEntry, DirEntryView, RemoteConfig, RemoteConfigView, RemoteForm, RemoteFormView, listing_view};
use crate::state::FileSource;
use crate::text::{decimal, join2, join3};

verus! {

/// Mathematical value of an [`Entry`].
pub struct EntryView {
    pub name: Seq<char>,
    pub is_dir: bool,
}

/// One line of the picker's list.
#[derive(Debug, PartialEq, Eq)]
pub struct Entry {
    pub name: String,
    pub is_dir: bool,
}

impl View for Entry {
    type V = EntryView;

    open spec fn view(&self) -> EntryView {
        EntryView { name: self.name@, is_dir: self.is_dir }
    }
}

/// The views of a list of entries, in order.
pub open spec fn entries_view(entries: Seq<Entry>) -> Seq<EntryView> {
    entries.map_values(|e: Entry| e@)
}

/// Mathematical value of a [`PickerMode`].
pub enum PickerModeView {
    Browse,
    RemotePrompt(RemoteFormView),
}

/// Whether the picker shows the list or the connection form.
#[derive(Debug, PartialEq, Eq)]
pub enum PickerMode {
    Browse,
    RemotePrompt(RemoteForm),
}

impl View for PickerMode {
    type V = PickerModeView;

    open spec fn view(&self) -> PickerModeView {
        match *self {
            PickerMode::Browse => PickerModeView::Browse,
            PickerMode::RemotePrompt(form) => PickerModeView::RemotePrompt(form@),
        }
    }
}

/// Mathematical value of a [`PickerRequest`].
pub enum PickerRequestView {
    Idle,
    EnterDirectory(nat),
    SelectFile(nat),
    ListLocal,
    Connect(RemoteConfigView),
}

/// What the caller has to do after an action.
#[derive(Debug, PartialEq, Eq)]
pub enum PickerRequest {
    /// Nothing.
    Idle,
    /// List the directory that the entry at this position names, and hand
    /// the listing to [`FilePicker::refresh_entries`].
    EnterDirectory(usize),
    /// Open the file that the entry at this position names.
    SelectFile(usize),
    /// List the local start directory again.
    ListLocal,
    /// Connect with these settings, and report how it went.
    Connect(RemoteConfig),
}

impl View for PickerRequest {
    type V = PickerRequestView;

    open spec fn view(&self) -> PickerRequestView {
        match *self {
            PickerRequest::Idle => PickerRequestView::Idle,
            PickerRequest::EnterDirectory(at) => PickerRequestView::EnterDirectory(at as nat),
            PickerRequest::SelectFile(at) => PickerRequestView::SelectFile(at as nat),
            PickerRequest::ListLocal => PickerRequestView::ListLocal,
            PickerRequest::Connect(config) => PickerRequestView::Connect(config@),
        }
    }
}

/// The selected position as a natural number.
pub open spec fn selected_view(selected: Option<usize>) -> Option<nat> {
    match selected {
        Some(at) => Some(at as nat),
        None => None,
    }
}

/// The settings, if there are any.
pub open spec fn config_view(config: Option<RemoteConfig>) -> Option<RemoteConfigView> {
    match config {
        Some(c) => Some(c@),
        None => None,
    }
}

/// Mathematical value of a [`FilePicker`].
pub struct PickerView {
    pub entries: Seq<EntryView>,
    pub selected: Option<nat>,
    pub status: Seq<char>,
    pub source: FileSource,
    pub remote_config: Option<RemoteConfigView>,
    pub mode: PickerModeView,
    pub default_user: Seq<char>,
}

/// The position after the selected one; after the last, and where nothing
/// is selected, the first.
pub open spec fn next_position(selected: Option<nat>, len: nat) -> Option<nat> {
    if len == 0 {
        selected
    } else {
        match selected {
            Some(at) => if at + 1 < len {
                Some(at + 1)
            } else {
                Some(0)
            },
            None => Some(0),
        }
    }
}

/// The position before the selected one; before the first, and where
/// nothing is selected, the last.
pub open spec fn previous_position(selected: Option<nat>, len: nat) -> Option<nat> {
    if len == 0 {
        selected
    } else {
        match selected {
            Some(at) => if at > 0 {
                Some((at - 1) as nat)
            } else {
                Some((len - 1) as nat)
            },
            None => Some((len - 1) as nat),
        }
    }
}

/// The position `delta` lines from the selected one, stopped at the ends
/// of the list.
pub open spec fn jump_position(selected: Option<nat>, delta: int, len: nat) -> Option<nat> {
    if len == 0 {
        selected
    } else {
        let from = match selected {
            Some(at) => at,
            None => 0,
        };
        if from + delta < 0 {
            Some(0)
        } else if from + delta >= len {
            Some((len - 1) as nat)
        } else {
            Some((from + delta) as nat)
        }
    }
}

/// The lines that the picker shows for a directory: the way up, where
/// there is one, and what the directory holds, all in listing order.
pub open spec fn shown_entries(listing: Seq<DirEntryView>, has_parent: bool) -> Seq<EntryView> {
    let lines = listing.map_values(|e: DirEntryView| EntryView { name: e.name, is_dir: e.is_dir });
    if has_parent {
        listing_order(seq![EntryView { name: ".."@, is_dir: true }] + lines)
    } else {
        listing_order(lines)
    }
}

/// What the status line calls a source.
pub open spec fn source_label(source: FileSource) -> Seq<char> {
    match source {
        FileSource::Local => "local"@,
        FileSource::Remote => "ssh"@,
    }
}

/// The form that a connection prompt starts with: the settings known from
/// before, or else no host, port 22 and the default user.
pub open spec fn prompt_form(config: Option<RemoteConfigView>, default_user: Seq<char>) -> RemoteFormView {
    match config {
        Some(c) => RemoteFormView {
            host: c.host,
            user: c.username,
            port: decimal(c.port as nat),
            password: crate::remote::text_or_empty(c.password),
            key_path: crate::remote::text_or_empty(c.key_path),
            passphrase: crate::remote::text_or_empty(c.passphrase),
            field_index: 0,
        },
        None => RemoteFormView {
            host: Seq::empty(),
            user: default_user,
            port: decimal(22),
            password: Seq::empty(),
            key_path: Seq::empty(),
            passphrase: Seq::empty(),
            field_index: 0,
        },
    }
}

/// The form after an action that moves or types in it.
pub open spec fn form_stepped(form: RemoteFormView, action: Action) -> RemoteFormView {
    match action {
        Action::Up | Action::PgUp => RemoteFormView {
            field_index: if form.field_index == 0 {
                5
            } else {
                (form.field_index - 1) as nat
            },
            ..form
        },
        Action::Down | Action::Tab | Action::PgDown => RemoteFormView {
            field_index: if form.field_index >= 5 {
                0
            } else {
                form.field_index + 1
            },
            ..form
        },
        Action::Input(c) => form.with_active(form.active().push(c)),
        Action::Backspace => form.with_active(
            if form.active().len() > 0 {
                form.active().drop_last()
            } else {
                form.active()
            },
        ),
        _ => form,
    }
}

impl PickerView {
    /// The state after an action.
    pub open spec fn stepped(self, action: Action) -> PickerView {
        match self.mode {
            PickerModeView::Browse => match action {
                Action::Up => PickerView {
                    selected: previous_position(self.selected, self.entries.len()),
                    ..self
                },
                Action::Down => PickerView { selected: next_position(self.selected, self.entries.len()), ..self },
                Action::PgUp => PickerView {
                    selected: jump_position(self.selected, -5, self.entries.len()),
                    ..self
                },
                Action::PgDown => PickerView {
                    selected: jump_position(self.selected, 5, self.entries.len()),
                    ..self
                },
                Action::ToggleRemote => match self.source {
                    FileSource::Remote => PickerView {
                        source: FileSource::Local,
                        status: "Switched to local"@,
                        ..self
                    },
                    FileSource::Local => PickerView {
                        mode: PickerModeView::RemotePrompt(prompt_form(self.remote_config, self.default_user)),
                        ..self
                    },
                },
                _ => self,
            },
            PickerModeView::RemotePrompt(form) => match action {
                Action::Activate => self,
                Action::Cancel => PickerView {
                    status: "SSH connect cancelled"@,
                    mode: PickerModeView::Browse,
                    ..self
                },
                _ => PickerView { mode: PickerModeView::RemotePrompt(form_stepped(form, action)), ..self },
            },
        }
    }

    /// What an action asks of the caller.
    pub open spec fn request(self, action: Action) -> PickerRequestView {
        match self.mode {
            PickerModeView::Browse => match action {
                Action::Activate => match self.selected {
                    Some(at) => if at < self.entries.len() {
                        if self.entries[at as int].is_dir {
                            PickerRequestView::EnterDirectory(at)
                        } else {
                            PickerRequestView::SelectFile(at)
                        }
                    } else {
                        PickerRequestView::Idle
                    },
                    None => PickerRequestView::Idle,
                },
                Action::ToggleRemote => match self.source {
                    FileSource::Remote => PickerRequestView::ListLocal,
                    FileSource::Local => PickerRequestView::Idle,
                },
                _ => PickerRequestView::Idle,
            },
            PickerModeView::RemotePrompt(form) => match action {
                Action::Activate => PickerRequestView::Connect(form.config()),
                _ => PickerRequestView::Idle,
            },
        }
    }
}

/// The picker: a list of entries with a selection, a status line, and
/// either the list or the connection form in front.
pub struct FilePicker {
    pub entries: Vec<Entry>,
    pub selected: Option<usize>,
    pub status: String,
    pub source: FileSource,
    pub remote_config: Option<RemoteConfig>,
    pub mode: PickerMode,
    pub default_user: String,
}

impl View for FilePicker {
    type V = PickerView;

    open spec fn view(&self) -> PickerView {
        PickerView {
            entries: entries_view(self.entries@),
            selected: selected_view(self.selected),
            status: self.status@,
            source: self.source,
            remote_config: config_view(self.remote_config),
            mode: self.mode@,
            default_user: self.default_user@,
        }
    }
}

/// Computes the position after the selected one.
pub fn next_index(selected: Option<usize>, len: usize) -> (r: Option<usize>)
    ensures
        selected_view(r) == next_position(selected_view(selected), len as nat),
{
    if len == 0 {
        return selected;
    }
    match selected {
        Some(at) => if at < len - 1 {
            Some(at + 1)
        } else {
            Some(0)
        },
        None => Some(0),
    }
}

/// Computes the position before the selected one.
pub fn previous_index(selected: Option<usize>, len: usize) -> (r: Option<usize>)
    ensures
        selected_view(r) == previous_position(selected_view(selected), len as nat),
{
    if len == 0 {
        return selected;
    }
    match selected {
        Some(at) => if at > 0 {
            Some(at - 1)
        } else {
            Some(len - 1)
        },
        None => Some(len - 1),
    }
}

/// Computes the position `delta` lines from the selected one.
pub fn jump_index(selected: Option<usize>, delta: isize, len: usize) -> (r: Option<usize>)
    ensures
        selected_view(r) == jump_position(selected_view(selected), delta as int, len as nat),
{
    if len == 0 {
        return selected;
    }
    let from = match selected {
        Some(at) => at,
        None => 0,
    };
    if delta >= 0 {
        let step = delta as usize;
        if from >= len || step >= len - from {
            Some(len - 1)
        } else {
            Some(from + step)
        }
    } else {
        let back = (-(delta + 1)) as usize;
        if back >= from {
            Some(0)
        } else if from - back - 1 >= len {
            Some(len - 1)
        } else {
            Some(from - back - 1)
        }
    }
}

impl FilePicker {
    /// A picker with an empty list, on the local source.
    pub fn new(remote_config: Option<RemoteConfig>, default_user: String) -> (r: Self)
        ensures
            r@ == (PickerView {
                entries: Seq::empty(),
                selected: None,
                status: "Press Enter to open, q to quit"@,
                source: FileSource::Local,
                remote_config: config_view(remote_config),
                mode: PickerModeView::Browse,
                default_user: default_user@,
            }),
    {
        let r = FilePicker {
            entries: Vec::new(),
            selected: None,
            status: "Press Enter to open, q to quit".to_owned(),
            source: FileSource::Local,
            remote_config,
            mode: PickerMode::Browse,
            default_user,
        };
        assert(entries_view(r.entries@) =~= Seq::empty());
        r
    }

    /// Puts a message on the status line.
    pub fn set_status(&mut self, message: String)
        ensures
            final(self)@ == (PickerView { status: message@, ..old(self)@ }),
    {
        self.status = message;
    }

    /// Whether the connection form is in front.
    pub fn is_prompt(&self) -> (r: bool)
        ensures
            r == (self@.mode is RemotePrompt),
    {
        match self.mode {
            PickerMode::RemotePrompt(_) => true,
            PickerMode::Browse => false,
        }
    }

    /// What the status line calls the current source.
    pub fn backend_label(&self) -> (r: &'static str)
        ensures
            r@ == source_label(self@.source),
    {
        match self.source {
            FileSource::Local => "local",
            FileSource::Remote => "ssh",
        }
    }

    /// Selects the next entry.
    pub fn next(&mut self)
        ensures
            final(self)@ == (PickerView {
                selected: next_position(old(self)@.selected, old(self)@.entries.len()),
                ..old(self)@
            }),
    {
        self.selected = next_index(self.selected, self.entries.len());
    }

    /// Selects the entry before.
    pub fn previous(&mut self)
        ensures
            final(self)@ == (PickerView {
                selected: previous_position(old(self)@.selected, old(self)@.entries.len()),
                ..old(self)@
            }),
    {
        self.selected = previous_index(self.selected, self.entries.len());
    }

    /// Selects the entry `delta` lines away.
    pub fn jump(&mut self, delta: isize)
        ensures
            final(self)@ == (PickerView {
                selected: jump_position(old(self)@.selected, delta as int, old(self)@.entries.len()),
                ..old(self)@
            }),
    {
        self.selected = jump_index(self.selected, delta, self.entries.len());
    }

    /// Opens the connection form.
    pub fn start_remote_prompt(&mut self)
        ensures
            final(self)@ == (PickerView {
                mode: PickerModeView::RemotePrompt(
                    prompt_form(old(self)@.remote_config, old(self)@.default_user),
                ),
                ..old(self)@
            }),
    {
        let form = match &self.remote_config {
            Some(config) => RemoteForm::new(config),
            None => RemoteForm::new(&RemoteConfig::fallback(self.default_user.clone())),
        };
        self.mode = PickerMode::RemotePrompt(form);
    }

    /// What Enter on the selected entry asks for.
    pub fn enter_directory_or_select_file(&self) -> (r: PickerRequest)
        ensures
            r@ == (match self@.selected {
                Some(at) => if at < self@.entries.len() {
                    if self@.entries[at as int].is_dir {
                        PickerRequestView::EnterDirectory(at)
                    } else {
                        PickerRequestView::SelectFile(at)
                    }
                } else {
                    PickerRequestView::Idle
                },
                None => PickerRequestView::Idle,
            }),
    {
        match self.selected {
            Some(at) => if at < self.entries.len() {
                if self.entries[at].is_dir {
                    PickerRequest::EnterDirectory(at)
                } else {
                    PickerRequest::SelectFile(at)
                }
            } else {
                PickerRequest::Idle
            },
            None => PickerRequest::Idle,
        }
    }

    /// Applies one action, and tells what the caller has to do.
    pub fn handle_action(&mut self, action: Action) -> (r: PickerRequest)
        ensures
            final(self)@ == old(self)@.stepped(action),
            r@ == old(self)@.request(action),
    {
        match &mut self.mode {
            PickerMode::Browse => {
                match action {
                    Action::Up => {
                        self.previous();
                        PickerRequest::Idle
                    },
                    Action::Down => {
                        self.next();
                        PickerRequest::Idle
                    },
                    Action::PgUp => {
                        self.jump(-5);
                        PickerRequest::Idle
                    },
                    Action::PgDown => {
                        self.jump(5);
                        PickerRequest::Idle
                    },
                    Action::Activate => self.enter_directory_or_select_file(),
                    Action::ToggleRemote => match self.source {
                        FileSource::Remote => {
                            self.source = FileSource::Local;
                            self.status = "Switched to local".to_owned();
                            PickerRequest::ListLocal
                        },
                        FileSource::Local => {
                            self.start_remote_prompt();
                            PickerRequest::Idle
                        },
                    },
                    _ => PickerRequest::Idle,
                }
            },
            PickerMode::RemotePrompt(form) => {
                match action {
                    Action::Up | Action::PgUp => {
                        form.prev_field();
                        PickerRequest::Idle
                    },
                    Action::Down | Action::Tab | Action::PgDown => {
                        form.next_field();
                        PickerRequest::Idle
                    },
                    Action::Input(c) => {
                        form.push_char(c);
                        PickerRequest::Idle
                    },
                    Action::Backspace => {
                        form.pop_char();
                        PickerRequest::Idle
                    },
                    Action::Activate => PickerRequest::Connect(form.to_config()),
                    Action::Cancel => {
                        self.status = "SSH connect cancelled".to_owned();
                        self.mode = PickerMode::Browse;
                        PickerRequest::Idle
                    },
                    _ => PickerRequest::Idle,
                }
            },
        }
    }

    /// Shows a directory: its listing in listing order, after the way up
    /// where there is one, with the first line selected.
    pub fn refresh_entries(&mut self, listing: &Vec<DirEntry>, has_parent: bool)
        ensures
            final(self)@ == (PickerView {
                entries: shown_entries(listing_view(listing@), has_parent),
                selected: Some(0),
                ..old(self)@
            }),
    {
        let ghost lines = listing_view(listing@).map_values(
            |e: DirEntryView| EntryView { name: e.name, is_dir: e.is_dir },
        );
        let ghost head = if has_parent {
            seq![EntryView { name: ".."@, is_dir: true }]
        } else {
            Seq::<EntryView>::empty()
        };
        let mut entries: Vec<Entry> = Vec::new();
        if has_parent {
            entries.push(Entry { name: "..".to_owned(), is_dir: true });
        }
        assert(entries_view(entries@) =~= head + lines.take(0));
        let mut i: usize = 0;
        while i < listing.len()
            invariant
                i <= listing.len(),
                lines == listing_view(listing@).map_values(
                    |e: DirEntryView| EntryView { name: e.name, is_dir: e.is_dir },
                ),
                entries_view(entries@) == head + lines.take(i as int),
            decreases listing.len() - i,
        {
            let ghost before = entries_view(entries@);
            let entry = Entry { name: listing[i].name.clone(), is_dir: listing[i].is_dir };
            entries.push(entry);
            assert(entries_view(entries@) =~= before.push(lines[i as int]));
            assert(lines.take(i as int + 1) =~= lines.take(i as int).push(lines[i as int]));
            assert(entries_view(entries@) =~= head + lines.take(i as int + 1));
            i += 1;
        }
        assert(lines.take(listing.len() as int) =~= lines);
        assert(Seq::<EntryView>::empty() + lines =~= lines);
        self.entries = sort_entries(&entries);
        self.selected = Some(0);
    }

    /// Records that the connection was made: the source is remote, the
    /// settings are kept, and the list is in front again.
    pub fn connected(&mut self, config: RemoteConfig)
        ensures
            final(self)@ == (PickerView {
                source: FileSource::Remote,
                status: "Connected via SSH"@,
                remote_config: Some(config@),
                mode: PickerModeView::Browse,
                ..old(self)@
            }),
    {
        self.source = FileSource::Remote;
        self.status = "Connected via SSH".to_owned();
        self.remote_config = Some(config);
        self.mode = PickerMode::Browse;
    }

    /// Records that the connection failed; the form stays in front.
    pub fn connect_failed(&mut self, message: &str)
        ensures
            final(self)@ == (PickerView { status: "SSH connect failed: "@ + message@, ..old(self)@ }),
    {
        self.status = join2("SSH connect failed: ", message);
    }

    /// Records that a directory was entered.
    pub fn directory_entered(&mut self)
        ensures
            final(self)@ == (PickerView { status: Seq::empty(), ..old(self)@ }),
    {
        self.status = String::new();
    }

    /// Records that the file at `path` was selected.
    pub fn file_selected(&mut self, path: &str)
        ensures
            final(self)@ == (PickerView {
                status: "Selected file: "@ + path@ + " ("@ + source_label(old(self)@.source) + ")"@,
                ..old(self)@
            }),
    {
        let head = join3("Selected file: ", path, " (");
        self.status = join3(head.as_str(), self.backend_label(), ")");
    }
}

} // verus!
