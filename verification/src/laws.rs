//! Properties of the browser that hold across its operations.

use vstd::prelude::*;
use crate::app_state::{
    AppMode, AppStateView, EffectView, KeyCode, KeyEvent, KeyEventKind, RomDownloadView, RomItemView,
};
use crate::list_cursor::ListCursor;
use crate::screen::spec_download_layout;
use crate::remote::{last_dot, lines_from, strip_cr, without_extension};
use crate::transitions::{
    first_match, highlights_item, is_back_key, is_down_key, is_quit_key, is_up_key,
    lemma_first_match, lemma_first_match_found, same_rom, same_title, spec_is_selected_rom,
};

verus! {

/// The highlighted item of the ROM list.
pub open spec fn highlighted_item(s: AppStateView) -> RomItemView {
    s.roms_list[s.highlighted_rom.selected->0 as int]
}

/// Picking a ROM and, once its size is known, adding it to the downloads.
pub open spec fn pick_answered(s: AppStateView, total_size: u64) -> AppStateView {
    let item = highlighted_item(s);
    s.after_toggle().0.after_add_selected(item.console, item.rom_title, total_size)
}

/// Picking the highlighted ROM asks for its size, and toggling it again once
/// it is among the downloads brings the ROM list and the downloads back to
/// where they were.
pub proof fn law_pick_then_unpick_restores(s: AppStateView, total_size: u64)
    requires
        highlights_item(s.highlighted_rom, s.roms_list.len()),
        !highlighted_item(s).is_selected,
        !spec_is_selected_rom(
            s.selected_roms,
            highlighted_item(s).rom_title,
            highlighted_item(s).console,
        ),
    ensures
        s.after_toggle().1 == (EffectView::FetchRomSize {
            console: highlighted_item(s).console,
            rom_title: highlighted_item(s).rom_title,
        }),
        pick_answered(s, total_size).after_toggle() == (s, EffectView::Nothing),
{
    let i = s.highlighted_rom.selected->0 as int;
    let item = highlighted_item(s);
    let picked = pick_answered(s, total_size);
    let p = same_rom(item.rom_title, item.console);
    assert forall|j: int| 0 <= j < s.selected_roms.len() implies !p(
        #[trigger] picked.selected_roms[j],
    ) by {
        assert(picked.selected_roms[j] == s.selected_roms[j]);
        if p(s.selected_roms[j]) {
            assert(s.selected_roms[j].rom_title == item.rom_title);
        }
    }
    lemma_first_match(picked.selected_roms, p, s.selected_roms.len() as int);
    let back = picked.after_toggle().0;
    assert(back.selected_roms =~= s.selected_roms);
    assert(back.roms_list =~= s.roms_list);
}

/// Every listed ROM is marked picked exactly when it is among the downloads.
pub open spec fn marks_match(s: AppStateView) -> bool {
    forall|j: int|
        0 <= j < s.roms_list.len() ==> (#[trigger] s.roms_list[j]).is_selected == spec_is_selected_rom(
            s.selected_roms,
            s.roms_list[j].rom_title,
            s.roms_list[j].console,
        )
}

/// No ROM is twice among the downloads.
pub open spec fn downloads_distinct(s: AppStateView) -> bool {
    forall|a: int, b: int|
        0 <= a < b < s.selected_roms.len() ==> !(#[trigger] s.selected_roms[a].rom_title
            == #[trigger] s.selected_roms[b].rom_title && s.selected_roms[a].console
            == s.selected_roms[b].console)
}

/// No ROM is listed twice.
pub open spec fn roms_distinct(s: AppStateView) -> bool {
    forall|a: int, b: int|
        0 <= a < b < s.roms_list.len() ==> !(#[trigger] s.roms_list[a].rom_title
            == #[trigger] s.roms_list[b].rom_title && s.roms_list[a].console
            == s.roms_list[b].console)
}

/// The marks of the ROM list agree with the downloads, and neither list
/// holds a ROM twice.
pub open spec fn selection_consistent(s: AppStateView) -> bool {
    &&& marks_match(s)
    &&& downloads_distinct(s)
    &&& roms_distinct(s)
}

/// Adding a download of another ROM does not change whether a ROM is picked.
proof fn lemma_selected_after_push(
    roms: Seq<RomDownloadView>,
    r: RomDownloadView,
    title: Seq<char>,
    console: Seq<char>,
)
    ensures
        spec_is_selected_rom(roms.push(r), title, console) == (spec_is_selected_rom(
            roms,
            title,
            console,
        ) || (r.rom_title == title && r.console == console)),
{
    let pushed = roms.push(r);
    if spec_is_selected_rom(roms, title, console) {
        let k = choose|k: int|
            0 <= k < roms.len() && #[trigger] roms[k].rom_title == title && roms[k].console == console;
        assert(pushed[k] == roms[k]);
    }
    if r.rom_title == title && r.console == console {
        assert(pushed[roms.len() as int] == r);
    }
    if spec_is_selected_rom(pushed, title, console) {
        let k = choose|k: int|
            0 <= k < pushed.len() && #[trigger] pushed[k].rom_title == title && pushed[k].console
                == console;
        if k < roms.len() {
            assert(pushed[k] == roms[k]);
        }
    }
}

/// Removing the download at `k` takes away exactly that ROM when no ROM is
/// twice among the downloads.
proof fn lemma_selected_after_remove(
    roms: Seq<RomDownloadView>,
    k: int,
    title: Seq<char>,
    console: Seq<char>,
)
    requires
        0 <= k < roms.len(),
        forall|a: int, b: int|
            0 <= a < b < roms.len() ==> !(#[trigger] roms[a].rom_title == #[trigger] roms[b].rom_title
                && roms[a].console == roms[b].console),
    ensures
        spec_is_selected_rom(roms.remove(k), title, console) == (spec_is_selected_rom(
            roms,
            title,
            console,
        ) && !(roms[k].rom_title == title && roms[k].console == console)),
        forall|a: int, b: int|
            0 <= a < b < roms.remove(k).len() ==> !(#[trigger] roms.remove(k)[a].rom_title
                == #[trigger] roms.remove(k)[b].rom_title && roms.remove(k)[a].console
                == roms.remove(k)[b].console),
{
    let rest = roms.remove(k);
    assert forall|a: int| 0 <= a < rest.len() implies #[trigger] rest[a] == roms[if a < k {
        a
    } else {
        a + 1
    }] by {}
    if spec_is_selected_rom(rest, title, console) {
        let a = choose|a: int|
            0 <= a < rest.len() && #[trigger] rest[a].rom_title == title && rest[a].console == console;
        let orig = if a < k { a } else { a + 1 };
        assert(roms[orig] == rest[a]);
        if roms[k].rom_title == title && roms[k].console == console {
            if orig < k {
                assert(roms[orig].rom_title == roms[k].rom_title);
            } else {
                assert(roms[k].rom_title == roms[orig].rom_title);
            }
        }
    }
    if spec_is_selected_rom(roms, title, console) && !(roms[k].rom_title == title
        && roms[k].console == console) {
        let b = choose|b: int|
            0 <= b < roms.len() && #[trigger] roms[b].rom_title == title && roms[b].console == console;
        let at = if b < k { b } else { b - 1 };
        assert(rest[at] == roms[b]);
    }
    assert forall|a: int, b: int| 0 <= a < b < rest.len() implies !(#[trigger] rest[a].rom_title
        == #[trigger] rest[b].rom_title && rest[a].console == rest[b].console) by {
        let oa = if a < k { a } else { a + 1 };
        let ob = if b < k { b } else { b + 1 };
        assert(rest[a] == roms[oa]);
        assert(rest[b] == roms[ob]);
        assert(roms[oa].rom_title == roms[oa].rom_title);
    }
}

/// Picking the highlighted ROM and adding it to the downloads keeps the
/// selection consistent.
pub proof fn law_pick_keeps_consistency(s: AppStateView, total_size: u64)
    requires
        selection_consistent(s),
        highlights_item(s.highlighted_rom, s.roms_list.len()),
        !highlighted_item(s).is_selected,
    ensures
        selection_consistent(pick_answered(s, total_size)),
{
    let i = s.highlighted_rom.selected->0 as int;
    let item = highlighted_item(s);
    let t = pick_answered(s, total_size);
    let new = t.selected_roms.last();
    assert(t.selected_roms =~= s.selected_roms.push(new));
    assert(!spec_is_selected_rom(s.selected_roms, item.rom_title, item.console));
    assert forall|j: int| 0 <= j < t.roms_list.len() implies (#[trigger] t.roms_list[j]).is_selected
        == spec_is_selected_rom(t.selected_roms, t.roms_list[j].rom_title, t.roms_list[j].console) by {
        lemma_selected_after_push(s.selected_roms, new, t.roms_list[j].rom_title, t.roms_list[j].console);
        if j != i {
            assert(t.roms_list[j] == s.roms_list[j]);
            if j < i {
                assert(s.roms_list[j].rom_title == s.roms_list[i].rom_title ==> s.roms_list[j].console
                    != s.roms_list[i].console);
            } else {
                assert(s.roms_list[i].rom_title == s.roms_list[j].rom_title ==> s.roms_list[i].console
                    != s.roms_list[j].console);
            }
        }
    }
    assert forall|a: int, b: int| 0 <= a < b < t.selected_roms.len() implies !(
    #[trigger] t.selected_roms[a].rom_title == #[trigger] t.selected_roms[b].rom_title
        && t.selected_roms[a].console == t.selected_roms[b].console) by {
        if b == s.selected_roms.len() {
            assert(t.selected_roms[a] == s.selected_roms[a]);
            if t.selected_roms[a].rom_title == new.rom_title && t.selected_roms[a].console
                == new.console {
                assert(s.selected_roms[a].rom_title == item.rom_title);
            }
        } else {
            assert(t.selected_roms[a] == s.selected_roms[a]);
            assert(t.selected_roms[b] == s.selected_roms[b]);
        }
    }
    assert forall|a: int, b: int| 0 <= a < b < t.roms_list.len() implies !(
    #[trigger] t.roms_list[a].rom_title == #[trigger] t.roms_list[b].rom_title
        && t.roms_list[a].console == t.roms_list[b].console) by {
        assert(t.roms_list[a].rom_title == s.roms_list[a].rom_title);
        assert(t.roms_list[b].rom_title == s.roms_list[b].rom_title);
        assert(t.roms_list[a].console == s.roms_list[a].console);
        assert(t.roms_list[b].console == s.roms_list[b].console);
    }
}

/// Unpicking the highlighted ROM keeps the selection consistent.
pub proof fn law_unpick_keeps_consistency(s: AppStateView)
    requires
        selection_consistent(s),
        highlights_item(s.highlighted_rom, s.roms_list.len()),
        highlighted_item(s).is_selected,
    ensures
        s.after_toggle().1 == EffectView::Nothing,
        selection_consistent(s.after_toggle().0),
{
    let i = s.highlighted_rom.selected->0 as int;
    let item = highlighted_item(s);
    let t = s.after_toggle().0;
    let p = same_rom(item.rom_title, item.console);
    lemma_first_match_found(s.selected_roms, p);
    assert(spec_is_selected_rom(s.selected_roms, item.rom_title, item.console));
    if first_match(s.selected_roms, p) is None {
        let k = choose|k: int|
            0 <= k < s.selected_roms.len() && #[trigger] s.selected_roms[k].rom_title
                == item.rom_title && s.selected_roms[k].console == item.console;
        assert(p(s.selected_roms[k]));
    }
    let k = first_match(s.selected_roms, p)->0;
    assert(t.selected_roms == s.selected_roms.remove(k));
    assert forall|j: int| 0 <= j < t.roms_list.len() implies (#[trigger] t.roms_list[j]).is_selected
        == spec_is_selected_rom(t.selected_roms, t.roms_list[j].rom_title, t.roms_list[j].console) by {
        lemma_selected_after_remove(s.selected_roms, k, t.roms_list[j].rom_title, t.roms_list[j].console);
        if j != i {
            assert(t.roms_list[j] == s.roms_list[j]);
            if j < i {
                assert(s.roms_list[j].rom_title == s.roms_list[i].rom_title ==> s.roms_list[j].console
                    != s.roms_list[i].console);
            } else {
                assert(s.roms_list[i].rom_title == s.roms_list[j].rom_title ==> s.roms_list[i].console
                    != s.roms_list[j].console);
            }
        }
    }
    lemma_selected_after_remove(s.selected_roms, k, item.rom_title, item.console);
    assert forall|a: int, b: int| 0 <= a < b < t.roms_list.len() implies !(
    #[trigger] t.roms_list[a].rom_title == #[trigger] t.roms_list[b].rom_title
        && t.roms_list[a].console == t.roms_list[b].console) by {
        assert(t.roms_list[a].rom_title == s.roms_list[a].rom_title);
        assert(t.roms_list[b].rom_title == s.roms_list[b].rom_title);
        assert(t.roms_list[a].console == s.roms_list[a].console);
        assert(t.roms_list[b].console == s.roms_list[b].console);
    }
}

/// A key, followed, when it asks for the size of a ROM, by the answer
/// `total_size`.
pub open spec fn key_answered(s: AppStateView, key: KeyEvent, total_size: u64) -> AppStateView {
    match s.after_key(key) {
        (t, EffectView::FetchRomSize { console, rom_title }) => t.after_add_selected(
            console,
            rom_title,
            total_size,
        ),
        (t, _) => t,
    }
}

/// While the ROM list is shown, every key (with the size answered when a
/// pick asks for it) keeps the marks of the list in agreement with the
/// downloads.
pub proof fn law_rom_keys_keep_consistency(s: AppStateView, key: KeyEvent, total_size: u64)
    requires
        s.mode == AppMode::SelectRom,
        s.key_allowed(key),
        selection_consistent(s),
    ensures
        key_answered(s, key, total_size).mode == AppMode::SelectRom ==> selection_consistent(
            key_answered(s, key, total_size),
        ),
{
    if key.kind == KeyEventKind::Press && !is_quit_key(key.code)
        && key.code != KeyCode::Char('d') && !is_up_key(key.code)
        && !is_down_key(key.code) && !is_back_key(key.code)
        && key.code == KeyCode::Char(' ') {
        if highlighted_item(s).is_selected {
            law_unpick_keeps_consistency(s);
        } else {
            law_pick_keeps_consistency(s, total_size);
            assert(key_answered(s, key, total_size) == pick_answered(s, total_size));
        }
    }
}

/// Listing the ROMs of a console, when the listing names no ROM twice, makes
/// the marks of the list agree with the downloads.
pub proof fn law_listing_establishes_consistency(s: AppStateView, listing: Seq<Seq<char>>)
    requires
        downloads_distinct(s),
        forall|a: int, b: int| 0 <= a < b < listing.len() ==> #[trigger] listing[a] != #[trigger] listing[b],
    ensures
        selection_consistent(s.after_load_roms(listing)),
{
    let t = s.after_load_roms(listing);
    assert forall|a: int, b: int| 0 <= a < b < t.roms_list.len() implies !(
    #[trigger] t.roms_list[a].rom_title == #[trigger] t.roms_list[b].rom_title
        && t.roms_list[a].console == t.roms_list[b].console) by {
        assert(t.roms_list[a].rom_title == listing[a]);
        assert(t.roms_list[b].rom_title == listing[b]);
    }
}

/// A progress report changes neither which ROMs are among the downloads nor
/// their order, so it keeps the selection consistent.
pub proof fn law_progress_keeps_picked_roms(s: AppStateView, update: RomDownloadView)
    ensures
        s.after_progress(update).selected_roms.len() == s.selected_roms.len(),
        forall|i: int|
            0 <= i < s.selected_roms.len() ==> (#[trigger] s.after_progress(update).selected_roms[i]).rom_title
                == s.selected_roms[i].rom_title && s.after_progress(update).selected_roms[i].console
                == s.selected_roms[i].console,
        s.after_progress(update).roms_list == s.roms_list,
        s.after_progress(update).mode == s.mode,
        selection_consistent(s) ==> selection_consistent(s.after_progress(update)),
{
    let t = s.after_progress(update);
    lemma_first_match_found(s.selected_roms, same_title(update.rom_title));
    assert(t.selected_roms.len() == s.selected_roms.len());
    assert forall|k: int| 0 <= k < s.selected_roms.len() implies (#[trigger] t.selected_roms[k]).rom_title
        == s.selected_roms[k].rom_title && t.selected_roms[k].console == s.selected_roms[k].console by {}
    assert forall|title: Seq<char>, console: Seq<char>|
        spec_is_selected_rom(t.selected_roms, title, console) == spec_is_selected_rom(
            s.selected_roms,
            title,
            console,
        ) by {
        if spec_is_selected_rom(t.selected_roms, title, console) {
            let k = choose|k: int|
                0 <= k < t.selected_roms.len() && #[trigger] t.selected_roms[k].rom_title == title
                    && t.selected_roms[k].console == console;
            assert(s.selected_roms[k].rom_title == title);
        }
        if spec_is_selected_rom(s.selected_roms, title, console) {
            let k = choose|k: int|
                0 <= k < s.selected_roms.len() && #[trigger] s.selected_roms[k].rom_title == title
                    && s.selected_roms[k].console == console;
            assert(t.selected_roms[k].rom_title == title);
        }
    }
    if selection_consistent(s) {
        assert forall|a: int, b: int| 0 <= a < b < t.selected_roms.len() implies !(
        #[trigger] t.selected_roms[a].rom_title == #[trigger] t.selected_roms[b].rom_title
            && t.selected_roms[a].console == t.selected_roms[b].console) by {
            assert(s.selected_roms[a].rom_title == t.selected_roms[a].rom_title);
            assert(s.selected_roms[b].rom_title == t.selected_roms[b].rom_title);
        }
        assert forall|j: int| 0 <= j < t.roms_list.len() implies (#[trigger] t.roms_list[j]).is_selected
            == spec_is_selected_rom(t.selected_roms, t.roms_list[j].rom_title, t.roms_list[j].console) by {
            assert(t.roms_list[j] == s.roms_list[j]);
        }
    }
}

/// The index of the last download, or 0 when there is none.
pub open spec fn last_download_index(s: AppStateView) -> int {
    if s.selected_roms.len() == 0 { 0 } else { s.selected_roms.len() - 1 }
}

/// Scrolling down never goes past the last download, and no key of the
/// download screen takes the scroll position past it once it is within.
pub proof fn law_download_scroll_bounded(s: AppStateView, key: KeyEvent)
    requires
        is_down_key(key.code) ==> s.download_scroll < usize::MAX,
    ensures
        is_down_key(key.code) ==> s.after_download_controls(key).download_scroll
            <= last_download_index(s),
        s.download_scroll <= last_download_index(s) ==> s.after_download_controls(
            key,
        ).download_scroll <= last_download_index(s),
        s.after_download_controls(key).selected_roms == s.selected_roms,
{
}

/// The lines `ls` printed, each followed by a newline.
pub open spec fn joined_lines(lines: Seq<Seq<char>>) -> Seq<char>
    decreases lines.len(),
{
    if lines.len() == 0 {
        seq![]
    } else {
        lines[0] + seq!['\n'] + joined_lines(lines.drop_first())
    }
}

/// No line of the text holds a newline.
pub proof fn law_lines_hold_no_newline(rest: Seq<char>, line: Seq<char>)
    requires
        !line.contains('\n'),
    ensures
        forall|k: int|
            0 <= k < lines_from(rest, line).len() ==> !(#[trigger] lines_from(rest, line)[k]).contains(
                '\n',
            ),
    decreases rest.len(),
{
    if rest.len() > 0 {
        if rest[0] == '\n' {
            law_lines_hold_no_newline(rest.drop_first(), seq![]);
            let tail = lines_from(rest.drop_first(), seq![]);
            let all = lines_from(rest, line);
            assert(all == seq![strip_cr(line)] + tail);
            assert forall|k: int| 0 <= k < all.len() implies !(#[trigger] all[k]).contains('\n') by {
                if k == 0 {
                    if strip_cr(line).contains('\n') {
                        let m = choose|m: int| 0 <= m < strip_cr(line).len() && strip_cr(line)[m] == '\n';
                        assert(line[m] == '\n');
                    }
                } else {
                    assert(all[k] == tail[k - 1]);
                }
            }
        } else {
            let longer = line.push(rest[0]);
            assert(lines_from(rest, line) == lines_from(rest.drop_first(), longer));
            if longer.contains('\n') {
                let m = choose|m: int| 0 <= m < longer.len() && longer[m] == '\n';
                assert(m < line.len());
                assert(line[m] == '\n');
            }
            law_lines_hold_no_newline(rest.drop_first(), longer);
        }
    } else if line.len() > 0 {
        assert(lines_from(rest, line) == seq![line]);
        assert(lines_from(rest, line)[0] == line);
    }
}

/// For an output without carriage returns that ends with a newline (or is
/// empty), writing each entry back followed by a newline gives the output
/// again: listing loses and invents nothing.
pub proof fn law_lines_rejoin(rest: Seq<char>, line: Seq<char>)
    requires
        !rest.contains('\r'),
        !line.contains('\r'),
        (rest.len() > 0 && rest.last() == '\n') || (rest.len() == 0 && line.len() == 0),
    ensures
        joined_lines(lines_from(rest, line)) == line + rest,
    decreases rest.len(),
{
    if rest.len() > 0 {
        let tail = rest.drop_first();
        if tail.contains('\r') {
            let m = choose|m: int| 0 <= m < tail.len() && tail[m] == '\r';
            assert(rest[m + 1] == '\r');
        }
        if tail.len() > 0 {
            assert(tail.last() == rest.last());
        }
        if rest[0] == '\n' {
            if line.len() > 0 && line.last() == '\r' {
                assert(line.contains('\r'));
            }
            law_lines_rejoin(tail, seq![]);
            let ls = lines_from(rest, line);
            assert(ls == seq![line] + lines_from(tail, seq![]));
            assert(ls.drop_first() =~= lines_from(tail, seq![]));
            assert(Seq::<char>::empty() + tail =~= tail);
            assert(line + seq!['\n'] + tail =~= line + rest);
        } else {
            assert(rest.len() > 1);
            let longer = line.push(rest[0]);
            if longer.contains('\r') {
                let m = choose|m: int| 0 <= m < longer.len() && longer[m] == '\r';
                assert(m < line.len());
                assert(line[m] == '\r');
            }
            law_lines_rejoin(tail, longer);
            assert(longer + tail =~= line + rest);
        }
    }
}

/// `last_dot` is -1 or the index of a dot.
proof fn lemma_last_dot_bounds(s: Seq<char>)
    ensures
        -1 <= last_dot(s) < s.len(),
        last_dot(s) >= 0 ==> s[last_dot(s)] == '.',
    decreases s.len(),
{
    if s.len() > 0 && s.last() != '.' {
        lemma_last_dot_bounds(s.drop_last());
    }
}

/// A ROM's name is its name without extension, then, when it has one, a dot
/// and an extension that holds no dot.
pub proof fn law_extension_split(name: Seq<char>)
    ensures
        last_dot(name) < 0 ==> without_extension(name) == name && !name.contains('.'),
        last_dot(name) >= 0 ==> name == without_extension(name) + seq!['.'] + name.skip(
            last_dot(name) + 1,
        ) && !name.skip(last_dot(name) + 1).contains('.'),
    decreases name.len(),
{
    if name.len() > 0 && name.last() != '.' {
        let shorter = name.drop_last();
        law_extension_split(shorter);
        lemma_last_dot_bounds(shorter);
        if last_dot(name) < 0 {
            if name.contains('.') {
                let m = choose|m: int| 0 <= m < name.len() && name[m] == '.';
                assert(shorter[m] == '.');
            }
        } else {
            let d = last_dot(name);
            let ext = name.skip(d + 1);
            assert(ext =~= shorter.skip(d + 1).push(name.last()));
            if ext.contains('.') {
                let m = choose|m: int| 0 <= m < ext.len() && ext[m] == '.';
                if m < ext.len() - 1 {
                    assert(shorter.skip(d + 1)[m] == '.');
                }
            }
            assert(name =~= without_extension(name) + seq!['.'] + ext);
        }
    } else if name.len() > 0 {
        assert(name =~= without_extension(name) + seq!['.'] + name.skip(name.len() as int));
    }
}

/// The download screen draws only downloads that exist, no more bars than
/// fit on the screen, a scrollbar exactly when some are hidden, and it never
/// scrolls further down than the user did.
pub proof fn law_download_layout_in_bounds(s: AppStateView, height: u16)
    ensures
        spec_download_layout(s, height) is None <==> s.selected_roms.len() == 0,
        spec_download_layout(s, height) matches Some(l) ==> {
            &&& l.scroll + l.visible <= s.selected_roms.len()
            &&& l.visible <= height / 3
            &&& l.scroll <= s.download_scroll
            &&& l.show_scrollbar == (l.visible < s.selected_roms.len())
            &&& (height / 3 >= s.selected_roms.len() ==> l.scroll == 0 && !l.show_scrollbar)
        },
{
}

/// `q` or Escape, pressed on any screen, leaves: it sets `exit`, changes
/// nothing else and asks for nothing.
pub proof fn law_quit_keys_leave_from_any_screen(s: AppStateView, key: KeyEvent)
    requires
        key.kind == KeyEventKind::Press,
        key.code == KeyCode::Char('q') || key.code == KeyCode::Esc,
    ensures
        s.after_key(key).0 == (AppStateView { exit: true, ..s }),
        s.after_key(key).1 == EffectView::Nothing,
{
}

/// `d`, pressed on any screen, shows the download screen and hands over
/// every picked ROM, in order, whatever console is open; the picked ROMs
/// stay as they were.
pub proof fn law_d_downloads_every_picked_rom(s: AppStateView, key: KeyEvent)
    requires
        key.kind == KeyEventKind::Press,
        key.code == KeyCode::Char('d'),
    ensures
        s.after_key(key).1 == (EffectView::StartDownload { roms: s.selected_roms }),
        s.after_key(key).0.mode == AppMode::Downloading,
        s.after_key(key).0.selected_roms == s.selected_roms,
        s.after_key(key).0.roms_list == s.roms_list,
        s.after_key(key).0.exit == s.exit,
        s.after_download().1 == (EffectView::StartDownload { roms: s.selected_roms }),
        s.after_download().0.mode == AppMode::Downloading,
{
}

/// A progress report on the first picked ROM of its name replaces that
/// ROM's received bytes, size and progress by the report's, keeps its name
/// and console, and leaves every other download alone; a report on no
/// picked ROM changes nothing.
pub proof fn law_progress_replaces_counts(s: AppStateView, update: RomDownloadView, i: int)
    requires
        0 <= i < s.selected_roms.len(),
        s.selected_roms[i].rom_title == update.rom_title,
        forall|j: int| 0 <= j < i ==> (#[trigger] s.selected_roms[j]).rom_title != update.rom_title,
    ensures
        s.after_progress(update).selected_roms.len() == s.selected_roms.len(),
        s.after_progress(update).selected_roms[i].total_received == update.total_received,
        s.after_progress(update).selected_roms[i].total_size == update.total_size,
        s.after_progress(update).selected_roms[i].download_percent == update.download_percent,
        s.after_progress(update).selected_roms[i].rom_title == s.selected_roms[i].rom_title,
        s.after_progress(update).selected_roms[i].console == s.selected_roms[i].console,
        forall|j: int|
            0 <= j < s.selected_roms.len() && j != i ==> #[trigger] s.after_progress(
                update,
            ).selected_roms[j] == s.selected_roms[j],
{
    let p = same_title(update.rom_title);
    assert forall|j: int| 0 <= j < i implies !p(#[trigger] s.selected_roms[j]) by {
        assert(s.selected_roms[j].rom_title != update.rom_title);
    }
    lemma_first_match(s.selected_roms, p, i);
}

/// A progress report on a ROM that is not picked changes nothing.
pub proof fn law_progress_on_unknown_rom(s: AppStateView, update: RomDownloadView)
    requires
        forall|j: int|
            0 <= j < s.selected_roms.len() ==> (#[trigger] s.selected_roms[j]).rom_title != update.rom_title,
    ensures
        s.after_progress(update) == s,
{
    let p = same_title(update.rom_title);
    assert forall|j: int| 0 <= j < s.selected_roms.len() implies !p(#[trigger] s.selected_roms[j]) by {
        assert(s.selected_roms[j].rom_title != update.rom_title);
    }
    lemma_first_match(s.selected_roms, p, s.selected_roms.len() as int);
}

/// On the download screen `k` or Up scrolls up by exactly one, stopping at
/// the top, and changes nothing else.
pub proof fn law_download_up_scrolls_by_one(s: AppStateView, key: KeyEvent)
    requires
        s.mode == AppMode::Downloading,
        key.kind == KeyEventKind::Press,
        key.code == KeyCode::Char('k') || key.code == KeyCode::Up,
    ensures
        s.after_key(key).0 == (AppStateView {
            download_scroll: if s.download_scroll == 0 { 0 } else { (s.download_scroll - 1) as usize },
            ..s
        }),
        s.after_key(key).1 == EffectView::Nothing,
        s.after_download_controls(key).download_scroll == (if s.download_scroll == 0 {
            0
        } else {
            s.download_scroll - 1
        }),
{
}

/// On the download screen `j` or Down scrolls down by exactly one, stopping
/// at the last download, and changes nothing else.
pub proof fn law_download_down_scrolls_by_one(s: AppStateView, key: KeyEvent)
    requires
        s.mode == AppMode::Downloading,
        key.kind == KeyEventKind::Press,
        key.code == KeyCode::Char('j') || key.code == KeyCode::Down,
        s.download_scroll < usize::MAX,
    ensures
        s.after_key(key).0 == (AppStateView {
            download_scroll: if s.download_scroll + 1 < last_download_index(s) {
                (s.download_scroll + 1) as usize
            } else {
                last_download_index(s) as usize
            },
            ..s
        }),
        s.after_key(key).1 == EffectView::Nothing,
{
}

/// The highlight after moving up: the previous item, stopping at the first;
/// with nothing highlighted, `usize::MAX`, which drawing turns into the last item.
pub open spec fn moved_up(selected: Option<usize>) -> Option<usize> {
    match selected {
        Some(i) => Some(if i == 0 { 0 } else { (i - 1) as usize }),
        None => Some(usize::MAX),
    }
}

/// The highlight after moving down: the next item (stopping at `usize::MAX`),
/// or the first one when nothing is highlighted.
pub open spec fn moved_down(selected: Option<usize>) -> Option<usize> {
    match selected {
        Some(i) => Some(if i == usize::MAX { i } else { (i + 1) as usize }),
        None => Some(0),
    }
}

/// On the console list `k`/Up moves the highlight to the previous console
/// and `j`/Down to the next one, keeping the scroll offset, changing nothing
/// else and asking for nothing; the two moves never agree.
pub proof fn law_console_keys_move_highlight(s: AppStateView, key: KeyEvent)
    requires
        s.mode == AppMode::SelectConsole,
        key.kind == KeyEventKind::Press,
        key.code == KeyCode::Char('k') || key.code == KeyCode::Up || key.code == KeyCode::Char('j')
            || key.code == KeyCode::Down,
    ensures
        s.after_key(key).1 == EffectView::Nothing,
        s.after_key(key).0.highlighted_console.offset == s.highlighted_console.offset,
        (key.code == KeyCode::Char('k') || key.code == KeyCode::Up) ==> s.after_key(key).0
            == (AppStateView {
            highlighted_console: ListCursor {
                offset: s.highlighted_console.offset,
                selected: moved_up(s.highlighted_console.selected),
            },
            ..s
        }),
        (key.code == KeyCode::Char('j') || key.code == KeyCode::Down) ==> s.after_key(key).0
            == (AppStateView {
            highlighted_console: ListCursor {
                offset: s.highlighted_console.offset,
                selected: moved_down(s.highlighted_console.selected),
            },
            ..s
        }),
        forall|sel: Option<usize>| moved_up(sel) != moved_down(sel),
{
}

/// On the ROM list `k`/Up moves the highlight to the previous ROM and
/// `j`/Down to the next one, keeping the scroll offset, changing nothing
/// else and asking for nothing.
pub proof fn law_rom_keys_move_highlight(s: AppStateView, key: KeyEvent)
    requires
        s.mode == AppMode::SelectRom,
        key.kind == KeyEventKind::Press,
        key.code == KeyCode::Char('k') || key.code == KeyCode::Up || key.code == KeyCode::Char('j')
            || key.code == KeyCode::Down,
    ensures
        s.after_key(key).1 == EffectView::Nothing,
        (key.code == KeyCode::Char('k') || key.code == KeyCode::Up) ==> s.after_key(key).0
            == (AppStateView {
            highlighted_rom: ListCursor {
                offset: s.highlighted_rom.offset,
                selected: moved_up(s.highlighted_rom.selected),
            },
            ..s
        }),
        (key.code == KeyCode::Char('j') || key.code == KeyCode::Down) ==> s.after_key(key).0
            == (AppStateView {
            highlighted_rom: ListCursor {
                offset: s.highlighted_rom.offset,
                selected: moved_down(s.highlighted_rom.selected),
            },
            ..s
        }),
{
}

} // verus!
