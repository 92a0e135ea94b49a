use musicbox::audio::{filter_paths_for_audio_files, is_audio_path};

fn s(v: &str) -> String {
    v.to_string()
}

#[test]
fn audio_extensions_in_either_case() {
    for p in ["a.mp3", "dir/b.FLAC", "c.ogg", "d.Wav", "e.m4a", "f.opus", "g.aac", "x.y.mp3"] {
        assert!(is_audio_path(&s(p)), "{p}");
    }
}

#[test]
fn other_paths_are_not_audio() {
    for p in ["", "mp3", ".mp3", "dir/.mp3", "a.mp4", "a.mp3.txt", "a.mp", "song", "a.flac/"] {
        assert!(!is_audio_path(&s(p)), "{p}");
    }
}

#[test]
fn filter_keeps_audio_paths_in_order() {
    let got = filter_paths_for_audio_files(vec![s("b.ogg"), s("x.txt"), s("a.mp3"), s(".wav")]);
    assert_eq!(got, vec![s("b.ogg"), s("a.mp3")]);
}
