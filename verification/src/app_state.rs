//! The state of the ROM browser and how keys and background events change it.
//!
//! The screen shows the consoles of the server, the ROMs of the chosen
//! console and the ROMs picked for download; while downloading it shows one
//! progress bar per picked ROM. Whatever needs the network (listing a
//! console's ROMs, asking a ROM's size, downloading) is not done here: a
//! step returns an [`Effect`] naming it, and the caller hands the outcome
//! back as a [`DesEvent`].

use vstd::prelude::*;
use crate::list_cursor::ListCursor;
use crate::text::string_views;
use crate::transitions::{
    first_match, highlights_item, is_down_key, is_open_key, lemma_first_match,
    lemma_first_match_found, listed_rom, same_rom, same_title, spec_is_selected_rom, DesEventView,
};

verus! {

/// The quotient `numerator / denominator` that tells how much of a download
/// has arrived; the screen draws it as a float, the logic only asks whether
/// it is below one.
#[derive(Clone, Copy, Debug, PartialEq, Eq, Structural)]
pub struct Fraction {
    pub numerator: u64,
    pub denominator: u64,
}

impl Fraction {
    /// Whether the quotient is below one. A zero denominator gives an infinite
    /// or undefined quotient, which is never below one.
    pub open spec fn spec_below_one(self) -> bool {
        self.numerator < self.denominator
    }

    /// The quotient `0 / 1`.
    pub fn zero() -> (f: Fraction)
        ensures
            f == (Fraction { numerator: 0, denominator: 1 }),
    {
        Fraction { numerator: 0, denominator: 1 }
    }

    /// Whether the quotient is below one.
    pub fn is_below_one(&self) -> (below: bool)
        ensures
            below == self.spec_below_one(),
    {
        self.numerator < self.denominator
    }
}

/// Which part of the screen the keys act on.
#[derive(Clone, Copy, Debug, PartialEq, Eq, Structural)]
pub enum AppMode {
    SelectConsole,
    SelectRom,
    SelectSelection,
    Downloading,
}

/// A key of the keyboard, as far as the browser tells keys apart.
#[derive(Clone, Copy, Debug, PartialEq, Eq, Structural)]
pub enum KeyCode {
    Char(char),
    Up,
    Down,
    Enter,
    Backspace,
    Esc,
    Other,
}

/// Whether a key went down, repeats or went up.
#[derive(Clone, Copy, Debug, PartialEq, Eq, Structural)]
pub enum KeyEventKind {
    Press,
    Repeat,
    Release,
}

/// One key event.
#[derive(Clone, Copy, Debug, PartialEq, Eq, Structural)]
pub struct KeyEvent {
    pub code: KeyCode,
    pub kind: KeyEventKind,
}

/// A ROM of the console being browsed.
pub struct RomItem {
    pub rom_title: String,
    pub console: String,
    /// Whether the ROM is picked for download.
    pub is_selected: bool,
    pub download_percent: Fraction,
}

/// The plain value of a [`RomItem`].
pub struct RomItemView {
    pub rom_title: Seq<char>,
    pub console: Seq<char>,
    pub is_selected: bool,
    pub download_percent: Fraction,
}

impl View for RomItem {
    type V = RomItemView;

    open spec fn view(&self) -> RomItemView {
        RomItemView {
            rom_title: self.rom_title@,
            console: self.console@,
            is_selected: self.is_selected,
            download_percent: self.download_percent,
        }
    }
}

/// A ROM picked for download, with the progress of its download.
pub struct RomDownload {
    pub console: String,
    pub rom_title: String,
    /// `total_received / total_size` once a chunk has arrived, `0 / 1` before.
    pub download_percent: Fraction,
    pub total_size: u64,
    pub total_received: u64,
}

/// The plain value of a [`RomDownload`].
pub struct RomDownloadView {
    pub console: Seq<char>,
    pub rom_title: Seq<char>,
    pub download_percent: Fraction,
    pub total_size: u64,
    pub total_received: u64,
}

impl View for RomDownload {
    type V = RomDownloadView;

    open spec fn view(&self) -> RomDownloadView {
        RomDownloadView {
            console: self.console@,
            rom_title: self.rom_title@,
            download_percent: self.download_percent,
            total_size: self.total_size,
            total_received: self.total_received,
        }
    }
}

/// The plain values of a list of ROM downloads.
pub open spec fn download_views(v: Seq<RomDownload>) -> Seq<RomDownloadView> {
    v.map_values(|r: RomDownload| r@)
}

/// The plain values of a list of ROM items.
pub open spec fn item_views(v: Seq<RomItem>) -> Seq<RomItemView> {
    v.map_values(|r: RomItem| r@)
}

impl RomDownload {
    /// A download of `rom_item` that has not started.
    pub fn from(rom_item: RomItem) -> (d: RomDownload)
        ensures
            d.console == rom_item.console,
            d.rom_title == rom_item.rom_title,
            d.download_percent == (Fraction { numerator: 0, denominator: 1 }),
            d.total_size == 0,
            d.total_received == 0,
    {
        RomDownload {
            console: rom_item.console,
            rom_title: rom_item.rom_title,
            download_percent: Fraction::zero(),
            total_size: 0,
            total_received: 0,
        }
    }

    /// The report sent after `received` of `total` bytes of a ROM arrived.
    pub fn progress(console: &String, rom_title: &String, total: u64, received: u64) -> (d: RomDownload)
        ensures
            d@ == (RomDownloadView {
                console: console@,
                rom_title: rom_title@,
                download_percent: Fraction { numerator: received, denominator: total },
                total_size: total,
                total_received: received,
            }),
    {
        RomDownload {
            console: console.clone(),
            rom_title: rom_title.clone(),
            download_percent: Fraction { numerator: received, denominator: total },
            total_size: total,
            total_received: received,
        }
    }

    /// A copy of this download.
    pub fn duplicate(&self) -> (d: RomDownload)
        ensures
            d@ == self@,
    {
        RomDownload {
            console: self.console.clone(),
            rom_title: self.rom_title.clone(),
            download_percent: self.download_percent,
            total_size: self.total_size,
            total_received: self.total_received,
        }
    }
}

/// What the caller has to do after a step.
pub enum Effect {
    /// Nothing.
    Nothing,
    /// List the ROMs of `console` on the server and hand them back as
    /// [`DesEvent::RomsListed`].
    ListRoms { console: String },
    /// Ask the server for the size of a ROM and hand it back as
    /// [`DesEvent::RomSize`].
    FetchRomSize { console: String, rom_title: String },
    /// Download these ROMs in the background, reporting with
    /// [`DesEvent::Progress`] and [`DesEvent::DownloadComplete`].
    StartDownload { roms: Vec<RomDownload> },
}

/// The plain value of an [`Effect`].
pub enum EffectView {
    Nothing,
    ListRoms { console: Seq<char> },
    FetchRomSize { console: Seq<char>, rom_title: Seq<char> },
    StartDownload { roms: Seq<RomDownloadView> },
}

impl View for Effect {
    type V = EffectView;

    open spec fn view(&self) -> EffectView {
        match self {
            Effect::Nothing => EffectView::Nothing,
            Effect::ListRoms { console } => EffectView::ListRoms { console: console@ },
            Effect::FetchRomSize { console, rom_title } => EffectView::FetchRomSize {
                console: console@,
                rom_title: rom_title@,
            },
            Effect::StartDownload { roms } => EffectView::StartDownload {
                roms: download_views(roms@),
            },
        }
    }
}

/// What happens to the browser.
pub enum DesEvent {
    /// A key.
    Input(KeyEvent),
    /// A chunk of a download arrived.
    Progress(RomDownload),
    /// A download finished.
    DownloadComplete,
    /// The ROMs of the console asked for with [`Effect::ListRoms`].
    RomsListed(Vec<String>),
    /// The size of the ROM asked for with [`Effect::FetchRomSize`].
    RomSize { console: String, rom_title: String, total_size: u64 },
}

/// The state of the browser.
pub struct AppState {
    pub consoles_list: Vec<String>,
    pub roms_list: Vec<RomItem>,
    pub highlighted_console: ListCursor,
    pub highlighted_rom: ListCursor,
    pub selected_roms: Vec<RomDownload>,
    pub mode: AppMode,
    pub current_console: String,
    pub exit: bool,
    pub download_scroll: usize,
}

/// The plain value of an [`AppState`].
pub struct AppStateView {
    pub consoles_list: Seq<Seq<char>>,
    pub roms_list: Seq<RomItemView>,
    pub highlighted_console: ListCursor,
    pub highlighted_rom: ListCursor,
    pub selected_roms: Seq<RomDownloadView>,
    pub mode: AppMode,
    pub current_console: Seq<char>,
    pub exit: bool,
    pub download_scroll: usize,
}

impl View for AppState {
    type V = AppStateView;

    open spec fn view(&self) -> AppStateView {
        AppStateView {
            consoles_list: string_views(self.consoles_list@),
            roms_list: item_views(self.roms_list@),
            highlighted_console: self.highlighted_console,
            highlighted_rom: self.highlighted_rom,
            selected_roms: download_views(self.selected_roms@),
            mode: self.mode,
            current_console: self.current_console@,
            exit: self.exit,
            download_scroll: self.download_scroll,
        }
    }
}

} // verus!

verus! {

/// Whether `a` and `b` hold the same characters.
fn same_text(a: &String, b: &String) -> (same: bool)
    ensures
        same == (a@ == b@),
{
    a.eq(b)
}

impl AppState {
    /// The browser at start: the consoles of the server, nothing picked,
    /// nothing highlighted, on the console list.
    pub fn new(consoles_list: Vec<String>) -> (state: AppState)
        ensures
            state@ == (AppStateView {
                consoles_list: string_views(consoles_list@),
                roms_list: seq![],
                highlighted_console: ListCursor { offset: 0, selected: None },
                highlighted_rom: ListCursor { offset: 0, selected: None },
                selected_roms: seq![],
                mode: AppMode::SelectConsole,
                current_console: seq![],
                exit: false,
                download_scroll: 0,
            }),
    {
        let state = AppState {
            consoles_list,
            roms_list: Vec::new(),
            highlighted_console: ListCursor::new(),
            highlighted_rom: ListCursor::new(),
            selected_roms: Vec::new(),
            mode: AppMode::SelectConsole,
            current_console: String::new(),
            exit: false,
            download_scroll: 0,
        };
        assert(state@.roms_list =~= seq![]);
        assert(state@.selected_roms =~= seq![]);
        state
    }

    /// Whether the ROM `rom_title` of `console` is picked for download.
    pub fn is_selected_rom(&self, rom_title: &str, console: &str) -> (selected: bool)
        ensures
            selected == spec_is_selected_rom(self@.selected_roms, rom_title@, console@),
    {
        let title = rom_title.to_owned();
        let console_name = console.to_owned();
        let mut i: usize = 0;
        while i < self.selected_roms.len()
            invariant
                i <= self.selected_roms.len(),
                title@ == rom_title@,
                console_name@ == console@,
                forall|j: int|
                    0 <= j < i ==> !(#[trigger] self@.selected_roms[j].rom_title == rom_title@
                        && self@.selected_roms[j].console == console@),
            decreases self.selected_roms.len() - i,
        {
            let r = &self.selected_roms[i];
            assert(self@.selected_roms[i as int] == r@);
            if same_text(&r.console, &console_name) && same_text(&r.rom_title, &title) {
                assert(self@.selected_roms[i as int].rom_title == rom_title@);
                return true;
            }
            i = i + 1;
        }
        false
    }

    /// The index of the first download of the ROM `rom_title` of `console`.
    fn position_of_selected(&self, rom_title: &String, console: &String) -> (pos: Option<usize>)
        ensures
            match pos {
                Some(i) => first_match(self@.selected_roms, same_rom(rom_title@, console@)) == Some(
                    i as int,
                ),
                None => first_match(self@.selected_roms, same_rom(rom_title@, console@)) is None,
            },
    {
        let ghost p = same_rom(rom_title@, console@);
        let mut i: usize = 0;
        while i < self.selected_roms.len()
            invariant
                i <= self.selected_roms.len(),
                p == same_rom(rom_title@, console@),
                forall|j: int| 0 <= j < i ==> !p(#[trigger] self@.selected_roms[j]),
            decreases self.selected_roms.len() - i,
        {
            let r = &self.selected_roms[i];
            assert(self@.selected_roms[i as int] == r@);
            if same_text(&r.rom_title, rom_title) && same_text(&r.console, console) {
                proof {
                    lemma_first_match(self@.selected_roms, p, i as int);
                }
                return Some(i);
            }
            i = i + 1;
        }
        proof {
            lemma_first_match(self@.selected_roms, p, i as int);
        }
        None
    }

    /// The index of the first download of a ROM named `rom_title`.
    fn position_of_title(&self, rom_title: &String) -> (pos: Option<usize>)
        ensures
            match pos {
                Some(i) => first_match(self@.selected_roms, same_title(rom_title@)) == Some(
                    i as int,
                ),
                None => first_match(self@.selected_roms, same_title(rom_title@)) is None,
            },
    {
        let ghost p = same_title(rom_title@);
        let mut i: usize = 0;
        while i < self.selected_roms.len()
            invariant
                i <= self.selected_roms.len(),
                p == same_title(rom_title@),
                forall|j: int| 0 <= j < i ==> !p(#[trigger] self@.selected_roms[j]),
            decreases self.selected_roms.len() - i,
        {
            let r = &self.selected_roms[i];
            assert(self@.selected_roms[i as int] == r@);
            if same_text(&r.rom_title, rom_title) {
                proof {
                    lemma_first_match(self@.selected_roms, p, i as int);
                }
                return Some(i);
            }
            i = i + 1;
        }
        proof {
            lemma_first_match(self@.selected_roms, p, i as int);
        }
        None
    }

    /// Switches to `new_mode`; opening a console (`SelectRom`) asks for its ROMs.
    pub fn set_mode(&mut self, new_mode: AppMode) -> (effect: Effect)
        requires
            new_mode == AppMode::SelectRom ==> highlights_item(
                old(self).highlighted_console,
                old(self).consoles_list.len() as nat,
            ),
        ensures
            (final(self)@, effect@) == old(self)@.with_mode(new_mode),
    {
        match new_mode {
            AppMode::SelectConsole => {
                self.mode = AppMode::SelectConsole;
                self.current_console = String::new();
                Effect::Nothing
            },
            AppMode::SelectRom => {
                self.mode = AppMode::SelectRom;
                let selected_index = self.highlighted_console.selected().unwrap();
                self.current_console = self.consoles_list[selected_index].clone();
                assert(self.current_console@ == old(self)@.consoles_list[selected_index as int]);
                Effect::ListRoms { console: self.current_console.clone() }
            },
            AppMode::Downloading => {
                self.mode = AppMode::Downloading;
                Effect::Nothing
            },
            _ => Effect::Nothing,
        }
    }

    /// Replaces the ROM list with the listed ROMs of the open console and
    /// highlights the first.
    pub fn load_roms(&mut self, existing_roms: Vec<String>)
        ensures
            final(self)@ == old(self)@.after_load_roms(string_views(existing_roms@)),
    {
        let ghost s = self@;
        let mut roms: Vec<RomItem> = Vec::new();
        let mut i: usize = 0;
        while i < existing_roms.len()
            invariant
                i <= existing_roms.len(),
                self@ == s,
                roms.len() == i,
                forall|j: int| 0 <= j < i ==> (#[trigger] roms@[j])@ == listed_rom(s, existing_roms@[j]@),
            decreases existing_roms.len() - i,
        {
            let r = &existing_roms[i];
            let is_selected = self.is_selected_rom(r.as_str(), self.current_console.as_str());
            roms.push(
                RomItem {
                    rom_title: r.clone(),
                    console: self.current_console.clone(),
                    is_selected,
                    download_percent: Fraction::zero(),
                },
            );
            i = i + 1;
        }
        self.roms_list = roms;
        self.highlighted_rom.select_first();
        assert(self@.roms_list =~= string_views(existing_roms@).map_values(
            |t: Seq<char>| listed_rom(s, t),
        ));
    }

    /// Adds a picked ROM of `total_size` bytes to the downloads.
    pub fn add_selected_rom(&mut self, console: String, rom_title: String, total_size: u64)
        ensures
            final(self)@ == old(self)@.after_add_selected(console@, rom_title@, total_size),
    {
        let new_rom_download = RomDownload {
            rom_title,
            console,
            total_size,
            total_received: 0,
            download_percent: Fraction::zero(),
        };
        self.selected_roms.push(new_rom_download);
        assert(self@.selected_roms =~= old(self)@.after_add_selected(console@, rom_title@, total_size).selected_roms);
    }

    /// Picks or unpicks the highlighted ROM.
    pub fn toggle_rom_selected(&mut self) -> (effect: Effect)
        requires
            highlights_item(old(self).highlighted_rom, old(self).roms_list.len() as nat),
        ensures
            (final(self)@, effect@) == old(self)@.after_toggle(),
    {
        let rom_index = self.highlighted_rom.selected().unwrap();
        let rom_title = self.roms_list[rom_index].rom_title.clone();
        let console = self.roms_list[rom_index].console.clone();
        let download_percent = self.roms_list[rom_index].download_percent;
        assert(old(self)@.roms_list[rom_index as int] == old(self).roms_list@[rom_index as int]@);
        if self.roms_list[rom_index].is_selected {
            let pos = self.position_of_selected(&rom_title, &console);
            if let Some(p) = pos {
                proof {
                    lemma_first_match_found(self@.selected_roms, same_rom(rom_title@, console@));
                }
                self.selected_roms.remove(p);
                assert(self@.selected_roms =~= old(self)@.selected_roms.remove(p as int));
            }
            self.roms_list.set(
                rom_index,
                RomItem { rom_title, console, is_selected: false, download_percent },
            );
            assert(self@.roms_list =~= old(self)@.after_toggle().0.roms_list);
            return Effect::Nothing;
        }
        self.roms_list.set(
            rom_index,
            RomItem {
                rom_title: rom_title.clone(),
                console: console.clone(),
                is_selected: true,
                download_percent,
            },
        );
        assert(self@.roms_list =~= old(self)@.after_toggle().0.roms_list);
        Effect::FetchRomSize { console, rom_title }
    }

    /// Shows the download screen and hands all picked ROMs over for download.
    pub fn download(&mut self) -> (effect: Effect)
        ensures
            (final(self)@, effect@) == old(self)@.after_download(),
    {
        self.set_mode(AppMode::Downloading);
        let mut roms: Vec<RomDownload> = Vec::new();
        let mut i: usize = 0;
        while i < self.selected_roms.len()
            invariant
                i <= self.selected_roms.len(),
                self@ == old(self)@.with_mode(AppMode::Downloading).0,
                download_views(roms@) == download_views(self.selected_roms@).take(i as int),
            decreases self.selected_roms.len() - i,
        {
            let r = self.selected_roms[i].duplicate();
            assert(download_views(self.selected_roms@)[i as int] == self.selected_roms@[i as int]@);
            let ghost before = roms@;
            roms.push(r);
            assert(download_views(roms@) =~= download_views(before).push(r@));
            i = i + 1;
            assert(download_views(self.selected_roms@).take(i as int) =~= download_views(
                self.selected_roms@,
            ).take(i - 1).push(download_views(self.selected_roms@)[i - 1]));
            assert(download_views(roms@) =~= download_views(self.selected_roms@).take(i as int));
        }
        assert(download_views(self.selected_roms@).take(i as int) =~= download_views(
            self.selected_roms@,
        ));
        Effect::StartDownload { roms }
    }

    /// Keys on the console list: `k`/Up and `j`/Down move the highlight,
    /// `l`/Enter opens the highlighted console.
    pub fn handle_console_select_controls(&mut self, key_event: KeyEvent) -> (effect: Effect)
        requires
            is_open_key(key_event.code) ==> highlights_item(
                old(self).highlighted_console,
                old(self).consoles_list.len() as nat,
            ),
        ensures
            (final(self)@, effect@) == old(self)@.after_console_controls(key_event),
    {
        match key_event.code {
            KeyCode::Char('k') | KeyCode::Up => {
                self.highlighted_console.select_previous();
                Effect::Nothing
            },
            KeyCode::Char('j') | KeyCode::Down => {
                self.highlighted_console.select_next();
                Effect::Nothing
            },
            KeyCode::Char('l') | KeyCode::Enter => self.set_mode(AppMode::SelectRom),
            _ => Effect::Nothing,
        }
    }

    /// Keys on the ROM list: `k`/Up and `j`/Down move the highlight,
    /// `h`/Backspace goes back to the consoles, Space picks or unpicks.
    pub fn handle_roms_select_controls(&mut self, key_event: KeyEvent) -> (effect: Effect)
        requires
            key_event.code == KeyCode::Char(' ') ==> highlights_item(
                old(self).highlighted_rom,
                old(self).roms_list.len() as nat,
            ),
        ensures
            (final(self)@, effect@) == old(self)@.after_roms_controls(key_event),
    {
        match key_event.code {
            KeyCode::Char('k') | KeyCode::Up => {
                self.highlighted_rom.select_previous();
                Effect::Nothing
            },
            KeyCode::Char('j') | KeyCode::Down => {
                self.highlighted_rom.select_next();
                Effect::Nothing
            },
            KeyCode::Char('h') | KeyCode::Backspace => self.set_mode(AppMode::SelectConsole),
            KeyCode::Char(' ') => self.toggle_rom_selected(),
            _ => Effect::Nothing,
        }
    }

    /// Keys on the download screen: `j`/Down and `k`/Up scroll.
    pub fn handle_download_controls(&mut self, key_event: KeyEvent)
        requires
            is_down_key(key_event.code) ==> old(self).download_scroll < usize::MAX,
        ensures
            final(self)@ == old(self)@.after_download_controls(key_event),
    {
        match key_event.code {
            KeyCode::Char('j') | KeyCode::Down => {
                let max = self.selected_roms.len().saturating_sub(1);
                let next = self.download_scroll + 1;
                self.download_scroll = if next < max { next } else { max };
            },
            KeyCode::Char('k') | KeyCode::Up => {
                self.download_scroll = self.download_scroll.saturating_sub(1);
            },
            _ => {},
        }
    }

    /// Keys on the selection: none does anything.
    pub fn handle_selection_select_controls(&mut self, key_event: KeyEvent)
        ensures
            final(self)@ == old(self)@,
    {
    }

    /// Handles a key: only presses count; `q` or Escape leaves, `d` starts the
    /// downloads, then the current mode handles the key.
    pub fn handle_key_event(&mut self, key_event: KeyEvent) -> (effect: Effect)
        requires
            old(self)@.key_allowed(key_event),
        ensures
            (final(self)@, effect@) == old(self)@.after_key(key_event),
    {
        if key_event.kind == KeyEventKind::Press {
            match key_event.code {
                KeyCode::Char('q') | KeyCode::Esc => {
                    self.exit = true;
                    return Effect::Nothing;
                },
                _ => {},
            }
            let mut effect = Effect::Nothing;
            if key_event.code == KeyCode::Char('d') {
                self.set_mode(AppMode::Downloading);
                effect = self.download();
            }
            let follow = match self.mode {
                AppMode::SelectConsole => self.handle_console_select_controls(key_event),
                AppMode::SelectRom => self.handle_roms_select_controls(key_event),
                AppMode::SelectSelection => {
                    self.handle_selection_select_controls(key_event);
                    Effect::Nothing
                },
                AppMode::Downloading => {
                    self.handle_download_controls(key_event);
                    Effect::Nothing
                },
            };
            match follow {
                Effect::Nothing => effect,
                other => other,
            }
        } else {
            Effect::Nothing
        }
    }

    /// Records a progress report on the first download of a ROM with the same name.
    pub fn apply_progress(&mut self, rom_download: RomDownload)
        ensures
            final(self)@ == old(self)@.after_progress(rom_download@),
    {
        let pos = self.position_of_title(&rom_download.rom_title);
        if let Some(i) = pos {
            proof {
                lemma_first_match_found(self@.selected_roms, same_title(rom_download@.rom_title));
            }
            let rom = self.selected_roms[i].duplicate();
            assert(rom@ == old(self)@.selected_roms[i as int]);
            self.selected_roms.set(
                i,
                RomDownload {
                    console: rom.console,
                    rom_title: rom.rom_title,
                    download_percent: rom_download.download_percent,
                    total_size: rom_download.total_size,
                    total_received: rom_download.total_received,
                },
            );
            assert(self@.selected_roms =~= old(self)@.after_progress(rom_download@).selected_roms);
        }
    }

    /// Once no download is below one, drops the downloads and shows the consoles.
    pub fn apply_download_complete(&mut self)
        ensures
            final(self)@ == old(self)@.after_download_complete(),
    {
        let mut i: usize = 0;
        while i < self.selected_roms.len()
            invariant
                i <= self.selected_roms.len(),
                forall|j: int|
                    0 <= j < i ==> !(#[trigger] self@.selected_roms[j]).download_percent.spec_below_one(),
            decreases self.selected_roms.len() - i,
        {
            assert(self@.selected_roms[i as int] == self.selected_roms@[i as int]@);
            if self.selected_roms[i].download_percent.is_below_one() {
                return;
            }
            i = i + 1;
        }
        self.selected_roms.clear();
        self.set_mode(AppMode::SelectConsole);
        assert(self@.selected_roms =~= seq![]);
    }

    /// Handles one event and says what the caller has to do next.
    pub fn handle_event(&mut self, event: DesEvent) -> (effect: Effect)
        requires
            old(self)@.event_allowed(event@),
        ensures
            (final(self)@, effect@) == old(self)@.after_event(event@),
    {
        match event {
            DesEvent::Input(key_event) => self.handle_key_event(key_event),
            DesEvent::Progress(rom_download) => {
                self.apply_progress(rom_download);
                Effect::Nothing
            },
            DesEvent::DownloadComplete => {
                self.apply_download_complete();
                Effect::Nothing
            },
            DesEvent::RomsListed(existing_roms) => {
                self.load_roms(existing_roms);
                Effect::Nothing
            },
            DesEvent::RomSize { console, rom_title, total_size } => {
                self.add_selected_rom(console, rom_title, total_size);
                Effect::Nothing
            },
        }
    }
}

impl View for DesEvent {
    type V = DesEventView;

    open spec fn view(&self) -> DesEventView {
        match self {
            DesEvent::Input(key) => DesEventView::Input(*key),
            DesEvent::Progress(update) => DesEventView::Progress(update@),
            DesEvent::DownloadComplete => DesEventView::DownloadComplete,
            DesEvent::RomsListed(listing) => DesEventView::RomsListed(string_views(listing@)),
            DesEvent::RomSize { console, rom_title, total_size } => DesEventView::RomSize {
                console: console@,
                rom_title: rom_title@,
                total_size: *total_size,
            },
        }
    }
}

impl AppState {
    /// Whether `handle_key_event` can handle `key_event` in this state.
    pub fn can_handle_key(&self, key_event: KeyEvent) -> (ok: bool)
        ensures
            ok == self@.key_allowed(key_event),
    {
        if key_event.kind != KeyEventKind::Press {
            return true;
        }
        let code = key_event.code;
        if code == KeyCode::Char('q') || code == KeyCode::Esc {
            return true;
        }
        let mode = if code == KeyCode::Char('d') {
            AppMode::Downloading
        } else {
            self.mode
        };
        match mode {
            AppMode::SelectConsole => {
                if code == KeyCode::Char('l') || code == KeyCode::Enter {
                    match self.highlighted_console.selected {
                        Some(i) => i < self.consoles_list.len(),
                        None => false,
                    }
                } else {
                    true
                }
            },
            AppMode::SelectRom => {
                if code == KeyCode::Char(' ') {
                    match self.highlighted_rom.selected {
                        Some(i) => i < self.roms_list.len(),
                        None => false,
                    }
                } else {
                    true
                }
            },
            AppMode::Downloading => {
                if code == KeyCode::Char('j') || code == KeyCode::Down {
                    self.download_scroll < usize::MAX
                } else {
                    true
                }
            },
            AppMode::SelectSelection => true,
        }
    }

    /// Whether `handle_event` can handle `event` in this state.
    pub fn can_handle_event(&self, event: &DesEvent) -> (ok: bool)
        ensures
            ok == self@.event_allowed(event@),
    {
        match event {
            DesEvent::Input(key_event) => self.can_handle_key(*key_event),
            _ => true,
        }
    }
}

} // verus!
