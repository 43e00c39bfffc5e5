use des::app_state::{
    AppMode, AppState, DesEvent, Effect, Fraction, KeyCode, KeyEvent, KeyEventKind, RomDownload,
    RomItem,
};
use des::list_cursor::ListCursor;

fn press(code: KeyCode) -> KeyEvent {
    KeyEvent { code, kind: KeyEventKind::Press }
}

fn ch(c: char) -> KeyEvent {
    press(KeyCode::Char(c))
}

fn consoles() -> Vec<String> {
    vec!["gba".to_string(), "snes".to_string()]
}

/// Opens the console at `index` and lists `roms` for it.
fn open_console(state: &mut AppState, index: usize, roms: &[&str]) {
    state.highlighted_console.select_first();
    for _ in 0..index {
        state.handle_key_event(ch('j'));
    }
    match state.handle_key_event(press(KeyCode::Enter)) {
        Effect::ListRoms { console } => assert_eq!(console, consoles()[index]),
        _ => panic!("opening a console lists its ROMs"),
    }
    let listing: Vec<String> = roms.iter().map(|r| r.to_string()).collect();
    state.handle_event(DesEvent::RomsListed(listing));
}

/// Picks the highlighted ROM and answers its size.
fn pick(state: &mut AppState, size: u64) {
    match state.handle_key_event(ch(' ')) {
        Effect::FetchRomSize { console, rom_title } => {
            state.handle_event(DesEvent::RomSize { console, rom_title, total_size: size });
        }
        _ => panic!("picking a ROM asks for its size"),
    }
}

#[test]
fn starts_on_the_console_list() {
    let state = AppState::new(consoles());
    assert_eq!(state.mode, AppMode::SelectConsole);
    assert_eq!(state.consoles_list, consoles());
    assert!(state.roms_list.is_empty());
    assert!(state.selected_roms.is_empty());
    assert_eq!(state.highlighted_console, ListCursor { offset: 0, selected: None });
    assert_eq!(state.current_console, "");
    assert!(!state.exit);
    assert_eq!(state.download_scroll, 0);
}

#[test]
fn opening_needs_a_highlighted_console() {
    let mut state = AppState::new(consoles());
    assert!(!state.can_handle_key(press(KeyCode::Enter)));
    assert!(state.can_handle_key(ch('j')));
    state.highlighted_console.select_first();
    assert!(state.can_handle_key(press(KeyCode::Enter)));
}

#[test]
fn opening_a_console_lists_its_roms() {
    let mut state = AppState::new(consoles());
    open_console(&mut state, 1, &["Zelda.zip", "Mario.zip"]);
    assert_eq!(state.mode, AppMode::SelectRom);
    assert_eq!(state.current_console, "snes");
    assert_eq!(state.roms_list.len(), 2);
    assert_eq!(state.roms_list[1].rom_title, "Mario.zip");
    assert_eq!(state.roms_list[1].console, "snes");
    assert!(!state.roms_list[0].is_selected);
    assert_eq!(state.highlighted_rom.selected, Some(0));
}

#[test]
fn picking_and_unpicking_a_rom() {
    let mut state = AppState::new(consoles());
    open_console(&mut state, 0, &["Metroid.zip", "Pokemon.zip"]);
    match state.handle_key_event(ch(' ')) {
        Effect::FetchRomSize { console, rom_title } => {
            assert_eq!(console, "gba");
            assert_eq!(rom_title, "Metroid.zip");
            assert!(state.roms_list[0].is_selected);
            assert!(state.selected_roms.is_empty());
            state.handle_event(DesEvent::RomSize { console, rom_title, total_size: 4096 });
        }
        _ => panic!("picking a ROM asks for its size"),
    }
    assert_eq!(state.selected_roms.len(), 1);
    assert_eq!(state.selected_roms[0].total_size, 4096);
    assert_eq!(state.selected_roms[0].total_received, 0);
    assert_eq!(state.selected_roms[0].download_percent, Fraction { numerator: 0, denominator: 1 });
    assert!(state.is_selected_rom("Metroid.zip", "gba"));
    assert!(!state.is_selected_rom("Metroid.zip", "snes"));
    assert!(matches!(state.handle_key_event(ch(' ')), Effect::Nothing));
    assert!(!state.roms_list[0].is_selected);
    assert!(state.selected_roms.is_empty());
}

#[test]
fn reopening_a_console_marks_picked_roms() {
    let mut state = AppState::new(consoles());
    open_console(&mut state, 0, &["A.zip", "B.zip"]);
    state.handle_key_event(ch('j'));
    pick(&mut state, 10);
    assert!(matches!(state.handle_key_event(ch('h')), Effect::Nothing));
    assert_eq!(state.mode, AppMode::SelectConsole);
    assert_eq!(state.current_console, "");
    open_console(&mut state, 0, &["A.zip", "B.zip", "C.zip"]);
    assert!(!state.roms_list[0].is_selected);
    assert!(state.roms_list[1].is_selected);
    assert!(!state.roms_list[2].is_selected);
}

#[test]
fn key_releases_are_ignored() {
    let mut state = AppState::new(consoles());
    let key = KeyEvent { code: KeyCode::Char('q'), kind: KeyEventKind::Release };
    assert!(matches!(state.handle_key_event(key), Effect::Nothing));
    assert!(!state.exit);
}

#[test]
fn quitting() {
    let mut state = AppState::new(consoles());
    state.handle_key_event(press(KeyCode::Esc));
    assert!(state.exit);
    let mut other = AppState::new(consoles());
    other.handle_key_event(ch('q'));
    assert!(other.exit);
    assert_eq!(other.mode, AppMode::SelectConsole);
}

#[test]
fn download_hands_over_the_picked_roms() {
    let mut state = AppState::new(consoles());
    open_console(&mut state, 1, &["A.zip", "B.zip"]);
    pick(&mut state, 100);
    state.handle_key_event(ch('j'));
    pick(&mut state, 300);
    match state.handle_key_event(ch('d')) {
        Effect::StartDownload { roms } => {
            assert_eq!(roms.len(), 2);
            assert_eq!(roms[0].rom_title, "A.zip");
            assert_eq!(roms[1].rom_title, "B.zip");
            assert_eq!(roms[1].total_size, 300);
        }
        _ => panic!("d starts the downloads"),
    }
    assert_eq!(state.mode, AppMode::Downloading);
    assert_eq!(state.selected_roms.len(), 2);
}

#[test]
fn progress_and_completion() {
    let mut state = AppState::new(consoles());
    open_console(&mut state, 1, &["A.zip", "B.zip"]);
    pick(&mut state, 100);
    state.handle_key_event(ch('j'));
    pick(&mut state, 300);
    state.handle_key_event(ch('d'));
    let a = RomDownload::progress(&"snes".to_string(), &"A.zip".to_string(), 100, 100);
    state.handle_event(DesEvent::Progress(a));
    assert_eq!(state.selected_roms[0].total_received, 100);
    assert_eq!(state.selected_roms[0].download_percent, Fraction { numerator: 100, denominator: 100 });
    state.handle_event(DesEvent::DownloadComplete);
    assert_eq!(state.mode, AppMode::Downloading);
    assert_eq!(state.selected_roms.len(), 2);
    let b = RomDownload::progress(&"snes".to_string(), &"B.zip".to_string(), 300, 150);
    state.handle_event(DesEvent::Progress(b));
    assert_eq!(state.selected_roms[1].total_received, 150);
    state.handle_event(DesEvent::DownloadComplete);
    assert_eq!(state.selected_roms.len(), 2);
    let b = RomDownload::progress(&"snes".to_string(), &"B.zip".to_string(), 300, 300);
    state.handle_event(DesEvent::Progress(b));
    state.handle_event(DesEvent::DownloadComplete);
    assert!(state.selected_roms.is_empty());
    assert_eq!(state.mode, AppMode::SelectConsole);
    assert_eq!(state.current_console, "");
}

#[test]
fn progress_for_an_unknown_rom_changes_nothing() {
    let mut state = AppState::new(consoles());
    open_console(&mut state, 0, &["A.zip"]);
    pick(&mut state, 50);
    let other = RomDownload::progress(&"gba".to_string(), &"Z.zip".to_string(), 9, 9);
    state.handle_event(DesEvent::Progress(other));
    assert_eq!(state.selected_roms[0].total_size, 50);
    assert_eq!(state.selected_roms[0].total_received, 0);
}

#[test]
fn progress_goes_to_the_first_rom_of_that_name() {
    let mut state = AppState::new(consoles());
    open_console(&mut state, 0, &["Same.zip"]);
    pick(&mut state, 10);
    state.handle_key_event(ch('h'));
    open_console(&mut state, 1, &["Same.zip"]);
    pick(&mut state, 20);
    let update = RomDownload::progress(&"snes".to_string(), &"Same.zip".to_string(), 20, 5);
    state.handle_event(DesEvent::Progress(update));
    assert_eq!(state.selected_roms[0].console, "gba");
    assert_eq!(state.selected_roms[0].total_received, 5);
    assert_eq!(state.selected_roms[0].total_size, 20);
    assert_eq!(state.selected_roms[1].total_received, 0);
}

#[test]
fn an_empty_rom_never_counts_as_done_before_progress() {
    let mut state = AppState::new(consoles());
    open_console(&mut state, 0, &["Empty.zip"]);
    pick(&mut state, 0);
    state.handle_key_event(ch('d'));
    state.handle_event(DesEvent::DownloadComplete);
    assert_eq!(state.selected_roms.len(), 1);
    assert_eq!(state.mode, AppMode::Downloading);
}

#[test]
fn scrolling_the_download_screen() {
    let mut state = AppState::new(consoles());
    open_console(&mut state, 0, &["A", "B", "C"]);
    pick(&mut state, 1);
    state.handle_key_event(ch('j'));
    pick(&mut state, 1);
    state.handle_key_event(ch('j'));
    pick(&mut state, 1);
    state.handle_key_event(ch('d'));
    state.handle_key_event(ch('j'));
    assert_eq!(state.download_scroll, 1);
    state.handle_key_event(press(KeyCode::Down));
    state.handle_key_event(press(KeyCode::Down));
    assert_eq!(state.download_scroll, 2);
    state.handle_key_event(ch('k'));
    state.handle_key_event(press(KeyCode::Up));
    state.handle_key_event(press(KeyCode::Up));
    assert_eq!(state.download_scroll, 0);
}

#[test]
fn download_screen_layout() {
    let mut state = AppState::new(consoles());
    assert_eq!(state.download_layout(30), None);
    open_console(&mut state, 0, &["A", "B", "C", "D", "E"]);
    for _ in 0..5 {
        pick(&mut state, 1);
        state.handle_key_event(ch('j'));
    }
    state.handle_key_event(ch('d'));
    state.download_scroll = 4;
    let layout = state.download_layout(7).unwrap();
    assert_eq!(layout.visible, 2);
    assert_eq!(layout.scroll, 3);
    assert!(layout.show_scrollbar);
    assert_eq!(state.download_scroll, 3);
    let all = state.download_layout(40).unwrap();
    assert_eq!(all.visible, 5);
    assert_eq!(all.scroll, 0);
    assert!(!all.show_scrollbar);
}

#[test]
fn titles_and_labels() {
    let mut state = AppState::new(consoles());
    assert_eq!(state.selected_roms_title(), " SELECTED ROMS (0.00MB) ");
    assert_eq!(state.roms_block_console_title(), "");
    open_console(&mut state, 1, &["A.zip", "B.zip"]);
    assert_eq!(state.roms_block_console_title(), " snes ");
    pick(&mut state, 1_048_576);
    state.handle_key_event(ch('j'));
    pick(&mut state, 2 * 1_048_576);
    assert_eq!(state.selected_total_size(), 3 * 1_048_576);
    assert_eq!(state.selected_total_size_checked(), Some(3 * 1_048_576));
    assert_eq!(state.selected_roms_title(), " SELECTED ROMS (3.00MB) ");
    assert_eq!(state.selected_rom_labels(), vec!["snes/A.zip", "snes/B.zip"]);
}

#[test]
fn oversized_totals_are_detected() {
    let mut state = AppState::new(consoles());
    open_console(&mut state, 0, &["A", "B"]);
    pick(&mut state, u64::MAX);
    state.handle_key_event(ch('j'));
    pick(&mut state, 1);
    assert_eq!(state.selected_total_size_checked(), None);
}

#[test]
fn fractions_below_one() {
    assert!(Fraction::zero().is_below_one());
    assert!(Fraction { numerator: 1, denominator: 2 }.is_below_one());
    assert!(!Fraction { numerator: 2, denominator: 2 }.is_below_one());
    assert!(!Fraction { numerator: 0, denominator: 0 }.is_below_one());
    assert!(!Fraction { numerator: 5, denominator: 0 }.is_below_one());
}

#[test]
fn download_from_item() {
    let item = RomItem {
        rom_title: "X.zip".to_string(),
        console: "nes".to_string(),
        is_selected: true,
        download_percent: Fraction::zero(),
    };
    let d = RomDownload::from(item);
    assert_eq!(d.rom_title, "X.zip");
    assert_eq!(d.console, "nes");
    assert_eq!(d.total_size, 0);
    assert_eq!(d.total_received, 0);
    assert_eq!(d.download_percent, Fraction { numerator: 0, denominator: 1 });
}

#[test]
fn picking_needs_a_highlighted_rom() {
    let mut state = AppState::new(consoles());
    open_console(&mut state, 0, &[]);
    assert!(!state.can_handle_key(ch(' ')));
    assert!(!state.can_handle_event(&DesEvent::Input(ch(' '))));
    assert!(state.can_handle_event(&DesEvent::DownloadComplete));
}
