use dofus_multi_helper::text::trim;
use dofus_multi_helper::windows::api::{dofus_window_from_title, is_dofus_process, split_title, title_from_buffer};

#[test]
fn title_gives_name_and_class() {
    let w = dofus_window_from_title("Tiberius - Iop - 3.0.12 - Release".to_string(), 42).unwrap();
    assert_eq!(w.title, "Tiberius - Iop - 3.0.12 - Release");
    assert_eq!(w.hwnd, 42);
    assert_eq!(w.name, "Tiberius");
    assert_eq!(w.class, "Iop");
}

#[test]
fn title_without_separator_is_not_a_character_window() {
    assert!(dofus_window_from_title("Dofus".to_string(), 1).is_none());
    assert!(dofus_window_from_title("Tiberius-Iop".to_string(), 1).is_none());
    assert!(dofus_window_from_title(String::new(), 1).is_none());
}

#[test]
fn second_piece_runs_to_the_end_without_a_second_separator() {
    let w = dofus_window_from_title("  Ana   -  Cra  ".to_string(), 7).unwrap();
    assert_eq!(w.name, "Ana");
    assert_eq!(w.class, "Cra");
}

#[test]
fn split_matches_str_split() {
    for title in ["a - - b", "x -  - y - z", " - ", " -  - ", "é - ü - ö", "a - b", "- a - b"] {
        let parts: Vec<&str> = title.split(" - ").collect();
        let r = split_title(title);
        if parts.len() >= 2 {
            let (a, b) = r.unwrap();
            assert_eq!(a, parts[0]);
            assert_eq!(b, parts[1]);
        } else {
            assert!(r.is_none());
        }
    }
}

#[test]
fn trim_matches_str_trim() {
    for s in ["", "   ", " a ", "\t\n x y \u{3000}", "\u{a0}b\u{2028}", "c", "\u{200b}d"] {
        assert_eq!(trim(s), s.trim());
    }
}

#[test]
fn process_name_must_start_with_dofus() {
    let mut buf = [0u8; 260];
    buf[..9].copy_from_slice(b"Dofus.exe");
    assert!(is_dofus_process(&buf));
    assert!(is_dofus_process(b"Dofus"));
    assert!(!is_dofus_process(b"Dofu"));
    assert!(!is_dofus_process(b"dofus.exe"));
    assert!(!is_dofus_process(&[0u8; 260]));
    assert!(!is_dofus_process(&[0xff, b'D', b'o', b'f', b'u', b's']));
}

#[test]
fn window_title_is_decoded_from_the_reported_length() {
    let mut buf = [0u8; 512];
    let text = "Tib - Iop - 3.0".as_bytes();
    buf[..text.len()].copy_from_slice(text);
    assert_eq!(title_from_buffer(&buf, text.len() as i32), Some("Tib - Iop - 3.0".to_string()));
    assert_eq!(title_from_buffer(&buf, 3), Some("Tib".to_string()));
    assert_eq!(title_from_buffer(&buf, 0), None);
    let bad = [b'a', 0xff, 0xfe];
    assert_eq!(title_from_buffer(&bad, 3), None);
    assert_eq!(title_from_buffer(&bad, 1), Some("a".to_string()));
}
