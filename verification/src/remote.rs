//! What the client derives from the configuration and from ROM names: the
//! SSH address, the `ls` command that lists a remote directory, the lines of
//! its output, and the local and remote paths of a download.

use vstd::prelude::*;
use crate::text::{chars_of, join_path, string_from_chars, string_views};

verus! {

/// Index of the last `'.'` in `s`, or -1 when there is none.
pub open spec fn last_dot(s: Seq<char>) -> int
    decreases s.len(),
{
    if s.len() == 0 {
        -1
    } else if s.last() == '.' {
        s.len() - 1
    } else {
        last_dot(s.drop_last())
    }
}

/// `name` without its extension: the part before the last `'.'`, or all of
/// `name` when it holds no `'.'`.
pub open spec fn without_extension(name: Seq<char>) -> Seq<char> {
    if last_dot(name) < 0 {
        name
    } else {
        name.take(last_dot(name))
    }
}

/// The name of a ROM without its extension (`"Zelda.zip"` gives `"Zelda"`).
pub fn rom_without_extension(rom: &str) -> (stem: String)
    ensures
        stem@ == without_extension(rom@),
{
    let chars = chars_of(rom);
    let mut i = chars.len();
    assert(chars@.take(i as int) =~= chars@);
    while i > 0 && chars[i - 1] != '.'
        invariant
            i <= chars.len(),
            chars@ == rom@,
            last_dot(chars@) == last_dot(chars@.take(i as int)),
        decreases i,
    {
        assert(chars@.take(i as int).drop_last() =~= chars@.take(i - 1));
        i = i - 1;
    }
    if i == 0 {
        assert(chars@.take(0) =~= Seq::<char>::empty());
        string_from_chars(&chars, 0, chars.len())
    } else {
        string_from_chars(&chars, 0, i - 1)
    }
}

/// `user@host:22`, the address the SSH connection is opened to.
pub fn connect_address(username: &str, hostname: &str) -> (address: String)
    ensures
        address@ == username@ + "@"@ + hostname@ + ":22"@,
{
    let mut address = username.to_owned();
    address.append("@");
    address.append(hostname);
    address.append(":22");
    address
}

/// The directory that `ls` lists: the remote root, or a console's directory under it.
pub open spec fn listed_dir(remote_root: Seq<char>, console: Option<Seq<char>>) -> Seq<char> {
    match console {
        Some(c) => remote_root + "/"@ + c,
        None => remote_root,
    }
}

/// The shell command that lists the consoles (`console` is `None`) or the
/// ROMs of one console.
pub fn ls_command(remote_root: &str, console: Option<&str>) -> (cmd: String)
    ensures
        cmd@ == "ls "@ + listed_dir(
            remote_root@,
            match console {
                Some(c) => Some(c@),
                None => None,
            },
        ),
{
    let target = match console {
        Some(c) => join_path(remote_root, c),
        None => remote_root.to_owned(),
    };
    let mut cmd = "ls ".to_owned();
    cmd.append(target.as_str());
    cmd
}

/// `line` without a carriage return that ends it.
pub open spec fn strip_cr(line: Seq<char>) -> Seq<char> {
    if line.len() > 0 && line.last() == '\r' {
        line.drop_last()
    } else {
        line
    }
}

/// The lines of `rest`, given that the current line so far is `line`: a line
/// ends at `'\n'` (a `'\r'` before it is dropped); the last line needs no
/// `'\n'`, and nothing after a final `'\n'` makes a line.
pub open spec fn lines_from(rest: Seq<char>, line: Seq<char>) -> Seq<Seq<char>>
    decreases rest.len(),
{
    if rest.len() == 0 {
        if line.len() == 0 {
            seq![]
        } else {
            seq![line]
        }
    } else if rest[0] == '\n' {
        seq![strip_cr(line)] + lines_from(rest.drop_first(), seq![])
    } else {
        lines_from(rest.drop_first(), line.push(rest[0]))
    }
}

/// The lines of `text`, as std's `str::lines` splits them.
pub open spec fn text_lines(text: Seq<char>) -> Seq<Seq<char>> {
    lines_from(text, seq![])
}

/// Splits the output of `ls` into its entries, one per line.
pub fn parse_listing(output: &str) -> (entries: Vec<String>)
    ensures
        string_views(entries@) == text_lines(output@),
{
    let chars = chars_of(output);
    let mut entries: Vec<String> = Vec::new();
    let mut start: usize = 0;
    let mut i: usize = 0;
    assert(chars@.skip(0) =~= chars@);
    assert(chars@.subrange(0, 0) =~= Seq::<char>::empty());
    while i < chars.len()
        invariant
            start <= i <= chars.len(),
            chars@ == output@,
            string_views(entries@) + lines_from(
                chars@.skip(i as int),
                chars@.subrange(start as int, i as int),
            ) == text_lines(output@),
        decreases chars.len() - i,
    {
        let ghost before = string_views(entries@);
        let ghost cur = chars@.subrange(start as int, i as int);
        assert(chars@.skip(i as int).drop_first() =~= chars@.skip(i + 1));
        assert(chars@.skip(i as int)[0] == chars@[i as int]);
        if chars[i] == '\n' {
            let mut end = i;
            if end > start && chars[end - 1] == '\r' {
                end = end - 1;
            }
            let line = string_from_chars(&chars, start, end);
            assert(line@ =~= strip_cr(cur));
            entries.push(line);
            assert(string_views(entries@) =~= before.push(line@));
            i = i + 1;
            start = i;
            assert(chars@.subrange(start as int, i as int) =~= Seq::<char>::empty());
            assert(string_views(entries@) + lines_from(chars@.skip(i as int), seq![]) =~= before
                + (seq![strip_cr(cur)] + lines_from(chars@.skip(i as int), seq![])));
        } else {
            i = i + 1;
            assert(chars@.subrange(start as int, i as int) =~= cur.push(chars@[i - 1]));
        }
    }
    if start < i {
        let line = string_from_chars(&chars, start, i);
        let ghost before = string_views(entries@);
        entries.push(line);
        assert(string_views(entries@) =~= before.push(line@));
        assert(string_views(entries@) =~= before + seq![line@]);
    } else {
        assert(string_views(entries@) =~= string_views(entries@) + Seq::<Seq<char>>::empty());
    }
    entries
}

/// `/console/rom`, the path of a ROM below the remote root.
pub open spec fn spec_rom_path(console: Seq<char>, rom: Seq<char>) -> Seq<char> {
    "/"@ + console + "/"@ + rom
}

/// The remote path of a ROM: the remote root, a slash, then `/console/rom`.
pub fn remote_rom_path(remote_root: &str, console: &str, rom: &str) -> (path: String)
    ensures
        path@ == remote_root@ + "/"@ + spec_rom_path(console@, rom@),
{
    let mut rom_path = "/".to_owned();
    rom_path.append(console);
    rom_path.append("/");
    rom_path.append(rom);
    join_path(remote_root, rom_path.as_str())
}

/// The paths of one download: the ROM is fetched to `part_path` inside a
/// temporary directory of its console, unpacked to `completed_download`,
/// and moved to `dest_path`.
pub struct DownloadPaths {
    /// The ROM's name without its extension.
    pub rom_wo_extension: String,
    /// Where the unpacked ROM ends up: `local_root/console/stem`.
    pub dest_path: String,
    /// `/console/rom`.
    pub rom_path: String,
    /// The ROM's path on the server.
    pub remote_rom_path: String,
    /// `local_root/console`.
    pub local_console_path: String,
    /// `local_root/console/.downloading`.
    pub temp_download_dir: String,
    /// The archive while it downloads: `temp_dir/rom.part`.
    pub part_path: String,
    /// Where the archive is unpacked: `temp_dir/stem`.
    pub completed_download: String,
}

impl DownloadPaths {
    /// The paths for downloading `rom` of `console`.
    pub fn new(local_root: &str, remote_root: &str, console: &str, rom: &str) -> (paths: DownloadPaths)
        ensures
            paths.rom_wo_extension@ == without_extension(rom@),
            paths.dest_path@ == local_root@ + "/"@ + console@ + "/"@ + without_extension(rom@),
            paths.rom_path@ == spec_rom_path(console@, rom@),
            paths.remote_rom_path@ == remote_root@ + "/"@ + spec_rom_path(console@, rom@),
            paths.local_console_path@ == local_root@ + "/"@ + console@,
            paths.temp_download_dir@ == local_root@ + "/"@ + console@ + "/.downloading"@,
            paths.part_path@ == local_root@ + "/"@ + console@ + "/.downloading"@ + "/"@ + rom@
                + ".part"@,
            paths.completed_download@ == local_root@ + "/"@ + console@ + "/.downloading"@ + "/"@
                + without_extension(rom@),
    {
        let rom_wo_extension = rom_without_extension(rom);
        let local_console_path = join_path(local_root, console);
        let dest_path = join_path(local_console_path.as_str(), rom_wo_extension.as_str());
        let mut rom_path = "/".to_owned();
        rom_path.append(console);
        rom_path.append("/");
        rom_path.append(rom);
        let remote_rom_path = join_path(remote_root, rom_path.as_str());
        let mut temp_download_dir = local_console_path.clone();
        temp_download_dir.append("/.downloading");
        let mut part_path = join_path(temp_download_dir.as_str(), rom);
        part_path.append(".part");
        let completed_download = join_path(temp_download_dir.as_str(), rom_wo_extension.as_str());
        assert(dest_path@ =~= local_root@ + "/"@ + console@ + "/"@ + without_extension(rom@));
        assert(rom_path@ =~= spec_rom_path(console@, rom@));
        assert(part_path@ =~= local_root@ + "/"@ + console@ + "/.downloading"@ + "/"@ + rom@
            + ".part"@);
        assert(completed_download@ =~= local_root@ + "/"@ + console@ + "/.downloading"@ + "/"@
            + without_extension(rom@));
        DownloadPaths {
            rom_wo_extension,
            dest_path,
            rom_path,
            remote_rom_path,
            local_console_path,
            temp_download_dir,
            part_path,
            completed_download,
        }
    }
}

} // verus!
