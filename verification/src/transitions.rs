//! The browser as a state machine over plain values: what each key and each
//! background event does to an [`AppStateView`] and which [`EffectView`] it
//! asks of the caller.

use vstd::prelude::*;
use crate::app_state::{
    AppMode, AppStateView, EffectView, Fraction, KeyCode, KeyEvent, KeyEventKind, RomDownloadView,
    RomItemView,
};
use crate::list_cursor::{spec_first, spec_next, spec_previous, ListCursor};

verus! {

/// The first index of `s` whose element satisfies `p`.
pub open spec fn first_match<A>(s: Seq<A>, p: spec_fn(A) -> bool) -> Option<int>
    decreases s.len(),
{
    if s.len() == 0 {
        None
    } else if p(s[0]) {
        Some(0)
    } else {
        match first_match(s.drop_first(), p) {
            Some(i) => Some(i + 1),
            None => None,
        }
    }
}

/// `s` without its first element that satisfies `p` (unchanged when none does).
pub open spec fn remove_first<A>(s: Seq<A>, p: spec_fn(A) -> bool) -> Seq<A> {
    match first_match(s, p) {
        Some(i) => s.remove(i),
        None => s,
    }
}

/// When no element before `i` satisfies `p`, the first match is `i` if
/// `s[i]` satisfies it, and there is none if `i` is the length of `s`.
pub proof fn lemma_first_match<A>(s: Seq<A>, p: spec_fn(A) -> bool, i: int)
    requires
        0 <= i <= s.len(),
        forall|j: int| 0 <= j < i ==> !p(#[trigger] s[j]),
    ensures
        i < s.len() && p(s[i]) ==> first_match(s, p) == Some(i),
        i == s.len() ==> first_match(s, p) is None,
    decreases i,
{
    if i > 0 {
        assert forall|j: int| 0 <= j < i - 1 implies !p(#[trigger] s.drop_first()[j]) by {
            assert(s.drop_first()[j] == s[j + 1]);
        }
        lemma_first_match(s.drop_first(), p, i - 1);
    }
}

/// The first match, when there is one, satisfies `p` and no element before it does.
pub proof fn lemma_first_match_found<A>(s: Seq<A>, p: spec_fn(A) -> bool)
    ensures
        first_match(s, p) matches Some(i) ==> 0 <= i < s.len() && p(s[i]) && forall|j: int|
            0 <= j < i ==> !p(#[trigger] s[j]),
        first_match(s, p) is None ==> forall|j: int| 0 <= j < s.len() ==> !p(#[trigger] s[j]),
    decreases s.len(),
{
    if s.len() > 0 && !p(s[0]) {
        lemma_first_match_found(s.drop_first(), p);
        assert forall|j: int| 1 <= j < s.len() implies s[j] == #[trigger] s.drop_first()[j - 1] by {}
        if first_match(s, p) is None {
            assert forall|j: int| 0 <= j < s.len() implies !p(#[trigger] s[j]) by {
                if j > 0 {
                    assert(s[j] == s.drop_first()[j - 1]);
                }
            }
        } else {
            let i = first_match(s, p)->0;
            assert forall|j: int| 0 <= j < i implies !p(#[trigger] s[j]) by {
                if j > 0 {
                    assert(s[j] == s.drop_first()[j - 1]);
                }
            }
        }
    }
}

/// The download of the ROM `title` of `console`.
pub open spec fn same_rom(title: Seq<char>, console: Seq<char>) -> spec_fn(RomDownloadView) -> bool {
    |r: RomDownloadView| r.rom_title == title && r.console == console
}

/// A download of a ROM named `title`, whatever its console.
pub open spec fn same_title(title: Seq<char>) -> spec_fn(RomDownloadView) -> bool {
    |r: RomDownloadView| r.rom_title == title
}

/// Whether the ROM `title` of `console` is picked for download.
pub open spec fn spec_is_selected_rom(
    roms: Seq<RomDownloadView>,
    title: Seq<char>,
    console: Seq<char>,
) -> bool {
    exists|i: int| 0 <= i < roms.len() && #[trigger] roms[i].rom_title == title && roms[i].console == console
}

/// `cursor` highlights one of the `len` items of a list.
pub open spec fn highlights_item(cursor: ListCursor, len: nat) -> bool {
    cursor.selected matches Some(i) && i < len
}

/// `k` or arrow up.
pub open spec fn is_up_key(code: KeyCode) -> bool {
    code == KeyCode::Char('k') || code == KeyCode::Up
}

/// `j` or arrow down.
pub open spec fn is_down_key(code: KeyCode) -> bool {
    code == KeyCode::Char('j') || code == KeyCode::Down
}

/// `l` or Enter: open the highlighted console.
pub open spec fn is_open_key(code: KeyCode) -> bool {
    code == KeyCode::Char('l') || code == KeyCode::Enter
}

/// `h` or Backspace: back to the consoles.
pub open spec fn is_back_key(code: KeyCode) -> bool {
    code == KeyCode::Char('h') || code == KeyCode::Backspace
}

/// `q` or Escape: leave.
pub open spec fn is_quit_key(code: KeyCode) -> bool {
    code == KeyCode::Char('q') || code == KeyCode::Esc
}

/// The plain value of a [`DesEvent`].
pub enum DesEventView {
    Input(KeyEvent),
    Progress(RomDownloadView),
    DownloadComplete,
    RomsListed(Seq<Seq<char>>),
    RomSize { console: Seq<char>, rom_title: Seq<char>, total_size: u64 },
}

/// The item that a listed ROM named `title` becomes.
pub open spec fn listed_rom(s: AppStateView, title: Seq<char>) -> RomItemView {
    RomItemView {
        rom_title: title,
        console: s.current_console,
        is_selected: spec_is_selected_rom(s.selected_roms, title, s.current_console),
        download_percent: Fraction { numerator: 0, denominator: 1 },
    }
}

/// The sum of the sizes of `roms`.
pub open spec fn total_size_sum(roms: Seq<RomDownloadView>) -> nat
    decreases roms.len(),
{
    if roms.len() == 0 {
        0
    } else {
        total_size_sum(roms.drop_last()) + roms.last().total_size as nat
    }
}

impl AppStateView {
    /// Switching to `new_mode`: the consoles forget the open console, opening
    /// the highlighted console asks for its ROMs, and the selection mode
    /// changes nothing.
    pub open spec fn with_mode(self, new_mode: AppMode) -> (AppStateView, EffectView) {
        match new_mode {
            AppMode::SelectConsole => (
                AppStateView { mode: AppMode::SelectConsole, current_console: seq![], ..self },
                EffectView::Nothing,
            ),
            AppMode::SelectRom => {
                let console = self.consoles_list[self.highlighted_console.selected->0 as int];
                (
                    AppStateView { mode: AppMode::SelectRom, current_console: console, ..self },
                    EffectView::ListRoms { console },
                )
            },
            AppMode::Downloading => (
                AppStateView { mode: AppMode::Downloading, ..self },
                EffectView::Nothing,
            ),
            AppMode::SelectSelection => (self, EffectView::Nothing),
        }
    }

    /// The listed ROMs of the open console replace the ROM list, each marked
    /// as picked when it is among the downloads, and the first one is highlighted.
    pub open spec fn after_load_roms(self, listing: Seq<Seq<char>>) -> AppStateView {
        AppStateView {
            roms_list: listing.map_values(|t: Seq<char>| listed_rom(self, t)),
            highlighted_rom: spec_first(self.highlighted_rom),
            ..self
        }
    }

    /// Space on a ROM: a picked ROM is unpicked and its download dropped; an
    /// unpicked ROM is picked, and its size is asked for.
    pub open spec fn after_toggle(self) -> (AppStateView, EffectView) {
        let i = self.highlighted_rom.selected->0 as int;
        let item = self.roms_list[i];
        if item.is_selected {
            (
                AppStateView {
                    roms_list: self.roms_list.update(i, RomItemView { is_selected: false, ..item }),
                    selected_roms: remove_first(
                        self.selected_roms,
                        same_rom(item.rom_title, item.console),
                    ),
                    ..self
                },
                EffectView::Nothing,
            )
        } else {
            (
                AppStateView {
                    roms_list: self.roms_list.update(i, RomItemView { is_selected: true, ..item }),
                    ..self
                },
                EffectView::FetchRomSize { console: item.console, rom_title: item.rom_title },
            )
        }
    }

    /// A picked ROM of `total_size` bytes joins the downloads, not started.
    pub open spec fn after_add_selected(
        self,
        console: Seq<char>,
        rom_title: Seq<char>,
        total_size: u64,
    ) -> AppStateView {
        AppStateView {
            selected_roms: self.selected_roms.push(
                RomDownloadView {
                    console,
                    rom_title,
                    download_percent: Fraction { numerator: 0, denominator: 1 },
                    total_size,
                    total_received: 0,
                },
            ),
            ..self
        }
    }

    /// Starting the downloads: the download screen shows, and all picked ROMs
    /// are handed over for download.
    pub open spec fn after_download(self) -> (AppStateView, EffectView) {
        (self.with_mode(AppMode::Downloading).0, EffectView::StartDownload { roms: self.selected_roms })
    }

    /// Keys on the console list.
    pub open spec fn after_console_controls(self, key: KeyEvent) -> (AppStateView, EffectView) {
        if is_up_key(key.code) {
            (
                AppStateView { highlighted_console: spec_previous(self.highlighted_console), ..self },
                EffectView::Nothing,
            )
        } else if is_down_key(key.code) {
            (
                AppStateView { highlighted_console: spec_next(self.highlighted_console), ..self },
                EffectView::Nothing,
            )
        } else if is_open_key(key.code) {
            self.with_mode(AppMode::SelectRom)
        } else {
            (self, EffectView::Nothing)
        }
    }

    /// Keys on the ROM list.
    pub open spec fn after_roms_controls(self, key: KeyEvent) -> (AppStateView, EffectView) {
        if is_up_key(key.code) {
            (
                AppStateView { highlighted_rom: spec_previous(self.highlighted_rom), ..self },
                EffectView::Nothing,
            )
        } else if is_down_key(key.code) {
            (
                AppStateView { highlighted_rom: spec_next(self.highlighted_rom), ..self },
                EffectView::Nothing,
            )
        } else if is_back_key(key.code) {
            self.with_mode(AppMode::SelectConsole)
        } else if key.code == KeyCode::Char(' ') {
            self.after_toggle()
        } else {
            (self, EffectView::Nothing)
        }
    }

    /// Keys on the download screen scroll it, down to the last download.
    pub open spec fn after_download_controls(self, key: KeyEvent) -> AppStateView {
        if is_down_key(key.code) {
            let max: int = if self.selected_roms.len() == 0 { 0 } else { self.selected_roms.len() - 1 };
            let next: int = if self.download_scroll + 1 < max { self.download_scroll + 1 } else { max };
            AppStateView { download_scroll: next as usize, ..self }
        } else if is_up_key(key.code) {
            AppStateView {
                download_scroll: if self.download_scroll == 0 { 0 } else { (self.download_scroll - 1) as usize },
                ..self
            }
        } else {
            self
        }
    }

    /// Keys as the current mode handles them.
    pub open spec fn after_mode_controls(self, key: KeyEvent) -> (AppStateView, EffectView) {
        match self.mode {
            AppMode::SelectConsole => self.after_console_controls(key),
            AppMode::SelectRom => self.after_roms_controls(key),
            AppMode::SelectSelection => (self, EffectView::Nothing),
            AppMode::Downloading => (self.after_download_controls(key), EffectView::Nothing),
        }
    }

    /// Whether the current mode can handle `key`: opening a console needs a
    /// highlighted console, picking a ROM a highlighted ROM, scrolling down
    /// room to count.
    pub open spec fn mode_controls_allowed(self, key: KeyEvent) -> bool {
        match self.mode {
            AppMode::SelectConsole => is_open_key(key.code) ==> highlights_item(
                self.highlighted_console,
                self.consoles_list.len(),
            ),
            AppMode::SelectRom => key.code == KeyCode::Char(' ') ==> highlights_item(
                self.highlighted_rom,
                self.roms_list.len(),
            ),
            AppMode::Downloading => is_down_key(key.code) ==> self.download_scroll < usize::MAX,
            AppMode::SelectSelection => true,
        }
    }

    /// The state before the mode handles a pressed key: `d` starts the downloads first.
    pub open spec fn before_mode_controls(self, key: KeyEvent) -> (AppStateView, EffectView) {
        if key.code == KeyCode::Char('d') {
            self.with_mode(AppMode::Downloading).0.after_download()
        } else {
            (self, EffectView::Nothing)
        }
    }

    /// A key: only presses count; `q` or Escape leaves; `d` starts the
    /// downloads; then the current mode handles the key.
    pub open spec fn after_key(self, key: KeyEvent) -> (AppStateView, EffectView) {
        if key.kind != KeyEventKind::Press {
            (self, EffectView::Nothing)
        } else if is_quit_key(key.code) {
            (AppStateView { exit: true, ..self }, EffectView::Nothing)
        } else {
            let (first, first_effect) = self.before_mode_controls(key);
            let (next, effect) = first.after_mode_controls(key);
            (next, if effect is Nothing { first_effect } else { effect })
        }
    }

    /// Whether `key` can be handled: the key is one that the current mode
    /// handles without failing.
    pub open spec fn key_allowed(self, key: KeyEvent) -> bool {
        key.kind == KeyEventKind::Press && !is_quit_key(key.code) ==> self.before_mode_controls(
            key,
        ).0.mode_controls_allowed(key)
    }

    /// A progress report updates the first download of a ROM with the same
    /// name (whatever its console).
    pub open spec fn after_progress(self, update: RomDownloadView) -> AppStateView {
        match first_match(self.selected_roms, same_title(update.rom_title)) {
            Some(i) => AppStateView {
                selected_roms: self.selected_roms.update(
                    i,
                    RomDownloadView {
                        download_percent: update.download_percent,
                        total_size: update.total_size,
                        total_received: update.total_received,
                        ..self.selected_roms[i]
                    },
                ),
                ..self
            },
            None => self,
        }
    }

    /// A finished download: once no download is below one, the downloads are
    /// dropped and the console list shows again.
    pub open spec fn after_download_complete(self) -> AppStateView {
        if forall|i: int|
            0 <= i < self.selected_roms.len() ==> !(#[trigger] self.selected_roms[i]).download_percent.spec_below_one() {
            AppStateView { selected_roms: seq![], ..self }.with_mode(AppMode::SelectConsole).0
        } else {
            self
        }
    }

    /// Any event.
    pub open spec fn after_event(self, event: DesEventView) -> (AppStateView, EffectView) {
        match event {
            DesEventView::Input(key) => self.after_key(key),
            DesEventView::Progress(update) => (self.after_progress(update), EffectView::Nothing),
            DesEventView::DownloadComplete => (self.after_download_complete(), EffectView::Nothing),
            DesEventView::RomsListed(listing) => (self.after_load_roms(listing), EffectView::Nothing),
            DesEventView::RomSize { console, rom_title, total_size } => (
                self.after_add_selected(console, rom_title, total_size),
                EffectView::Nothing,
            ),
        }
    }

    /// Whether `event` can be handled: a key must be one the state allows.
    pub open spec fn event_allowed(self, event: DesEventView) -> bool {
        match event {
            DesEventView::Input(key) => self.key_allowed(key),
            _ => true,
        }
    }
}

} // verus!
