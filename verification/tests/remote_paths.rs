use des::remote::{connect_address, ls_command, parse_listing, remote_rom_path, rom_without_extension, DownloadPaths};

#[test]
fn extension_is_removed() {
    assert_eq!(rom_without_extension("Zelda.zip"), "Zelda");
    assert_eq!(rom_without_extension("Super Mario (USA).v1.1.7z"), "Super Mario (USA).v1.1");
    assert_eq!(rom_without_extension("README"), "README");
    assert_eq!(rom_without_extension(".hidden"), "");
    assert_eq!(rom_without_extension("trailing."), "trailing");
    assert_eq!(rom_without_extension(""), "");
}

#[test]
fn extension_matches_rfind() {
    for rom in ["a.b.c", "no_dot", "ünïcödé.zip", "x.", ".", "..", "dir.v2/file"] {
        let expected = &rom[..rom.rfind('.').unwrap_or(rom.len())];
        assert_eq!(rom_without_extension(rom), expected);
    }
}

#[test]
fn download_paths_of_a_rom() {
    let p = DownloadPaths::new("/home/me/roms", "/srv/roms", "snes", "Zelda.zip");
    assert_eq!(p.rom_wo_extension, "Zelda");
    assert_eq!(p.dest_path, "/home/me/roms/snes/Zelda");
    assert_eq!(p.rom_path, "/snes/Zelda.zip");
    assert_eq!(p.remote_rom_path, "/srv/roms//snes/Zelda.zip");
    assert_eq!(p.local_console_path, "/home/me/roms/snes");
    assert_eq!(p.temp_download_dir, "/home/me/roms/snes/.downloading");
    assert_eq!(p.part_path, "/home/me/roms/snes/.downloading/Zelda.zip.part");
    assert_eq!(p.completed_download, "/home/me/roms/snes/.downloading/Zelda");
}

#[test]
fn remote_path_alone() {
    assert_eq!(remote_rom_path("/srv/roms", "gba", "Metroid.zip"), "/srv/roms//gba/Metroid.zip");
}

#[test]
fn listing_commands() {
    assert_eq!(ls_command("/srv/roms", None), "ls /srv/roms");
    assert_eq!(ls_command("/srv/roms", Some("snes")), "ls /srv/roms/snes");
}

#[test]
fn ssh_address() {
    assert_eq!(connect_address("pi", "homelab"), "pi@homelab:22");
}

#[test]
fn listing_lines() {
    assert_eq!(parse_listing("gba\nnes\nsnes\n"), vec!["gba", "nes", "snes"]);
    assert_eq!(parse_listing(""), Vec::<String>::new());
    assert_eq!(parse_listing("\n"), vec![""]);
    assert_eq!(parse_listing("a\r\nb"), vec!["a", "b"]);
    assert_eq!(parse_listing("a\n\nb\n"), vec!["a", "", "b"]);
    assert_eq!(parse_listing("only"), vec!["only"]);
}

#[test]
fn listing_matches_str_lines() {
    for text in ["x\ry\n", "a\r", "\r\n\r\n", "one\ntwo\r\nthree\r", "  spaced  \n", "é\nü\n", "\n\n\n"] {
        let expected: Vec<String> = text.lines().map(String::from).collect();
        assert_eq!(parse_listing(text), expected, "text = {:?}", text);
    }
}

#[test]
fn listing_rejoins_to_the_output() {
    let output = "gba\nsnes\n\nn64\n";
    let entries = parse_listing(output);
    let mut joined = String::new();
    for e in &entries {
        assert!(!e.contains('\n'));
        joined.push_str(e);
        joined.push('\n');
    }
    assert_eq!(joined, output);
}
