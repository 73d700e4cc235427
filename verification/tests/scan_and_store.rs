use n_player::runner::Runner;
use n_player::scan::{
    add_all_tracks_to_player, collect_audio_paths, is_audio_mime, sniff, ScannedFile,
};
use n_player::settings::Settings;
use n_player::store::{pack, packed, read_stored, unpack, StoreError};
use n_player::theme::Theme;
use n_player::track::FileTrack;
use n_player::window::WindowSize;

const MP3_HEAD: [u8; 5] = [0xff, 0xfb, 0x90, 0x44, 0x00];
const PNG_HEAD: [u8; 8] = [0x89, b'P', b'N', b'G', 0x0d, 0x0a, 0x1a, 0x0a];

fn entry(path: &str, is_file: bool, mime: Option<&str>) -> ScannedFile {
    ScannedFile { path: path.to_string(), is_file, mime: mime.map(|m| m.to_string()) }
}

#[test]
fn sniffing_reads_the_media_type_from_the_content() {
    assert_eq!(sniff(&MP3_HEAD), Some("audio/mpeg".to_string()));
    assert_eq!(sniff(&PNG_HEAD), Some("image/png".to_string()));
    assert_eq!(sniff(b"fLaC\x00\x00\x00\x22"), Some("audio/x-flac".to_string()));
    assert_eq!(sniff(&[]), None);
    assert_eq!(sniff(b"plain text"), None);
}

#[test]
fn audio_media_types() {
    assert!(is_audio_mime("audio/mpeg"));
    assert!(is_audio_mime("audio/x-flac"));
    assert!(is_audio_mime("application/x-audio"));
    assert!(!is_audio_mime("video/mp4"));
    assert!(!is_audio_mime("image/png"));
    assert!(!is_audio_mime(""));
    assert!(!is_audio_mime("AUDIO/MPEG"));
}

#[test]
fn only_regular_audio_files_are_collected() {
    let files = vec![
        entry("/m/b.mp3", true, Some("audio/mpeg")),
        entry("/m/cover.png", true, Some("image/png")),
        entry("/m/sub", false, None),
        entry("/m/link.mp3", false, Some("audio/mpeg")),
        entry("/m/notes.txt", true, None),
        entry("/m/a.flac", true, Some("audio/x-flac")),
    ];
    assert!(files[0].is_audio());
    assert!(!files[1].is_audio());
    assert!(!files[3].is_audio());
    assert_eq!(collect_audio_paths(&files), vec!["/m/b.mp3".to_string(), "/m/a.flac".to_string()]);
    assert_eq!(collect_audio_paths(&vec![]), Vec::<String>::new());
}

#[test]
fn sniffed_files_are_collected() {
    let files = vec![
        ScannedFile { path: "/m/a".to_string(), is_file: true, mime: sniff(&MP3_HEAD) },
        ScannedFile { path: "/m/b".to_string(), is_file: true, mime: sniff(&PNG_HEAD) },
        ScannedFile { path: "/m/c".to_string(), is_file: true, mime: sniff(&[]) },
    ];
    assert_eq!(collect_audio_paths(&files), vec!["/m/a".to_string()]);
}

#[test]
fn audio_files_are_loaded_into_the_queue_in_some_order() {
    let mut files = vec![entry("/m/readme", true, None)];
    let mut expected = vec![];
    for i in 0..20 {
        let path = format!("/m/{:02}.mp3", i);
        files.push(entry(&path, true, Some("audio/mpeg")));
        expected.push(path);
    }
    let mut runner = Runner::new("/m".to_string());
    add_all_tracks_to_player(&mut runner, &files);
    assert_eq!(runner.len(), 20);
    assert_eq!(runner.index(), None);
    assert!(!runner.playback());
    let mut queued = runner.queue();
    queued.sort();
    assert_eq!(queued, expected);
}

#[test]
fn packed_bytes_unpack_to_themselves() {
    let inputs: Vec<Vec<u8>> = vec![
        vec![],
        vec![0],
        b"settings".to_vec(),
        vec![7; 100_000],
        (0..=255u8).cycle().take(5_000).collect(),
    ];
    for data in inputs {
        let blob = pack(&data).unwrap();
        assert_eq!(unpack(&blob), Some(data.clone()));
        assert_eq!(read_stored(Some(blob)), Some(data));
    }
}

#[test]
fn packing_compresses_into_a_zstd_frame() {
    let data = vec![7u8; 100_000];
    let blob = pack(&data).unwrap();
    assert!(blob.len() < 1_000);
    assert_eq!(blob[..4], [0x28, 0xb5, 0x2f, 0xfd]);
    assert_ne!(pack(b"settings").unwrap(), b"settings".to_vec());
}

#[test]
fn damaged_or_missing_blobs_give_nothing() {
    assert_eq!(unpack(b"settings"), None);
    assert_eq!(unpack(&[0x28, 0xb5, 0x2f, 0xfd, 0xff]), None);
    let mut blob = pack(b"some stored record").unwrap();
    blob.truncate(blob.len() - 3);
    assert_eq!(unpack(&blob), None);
    assert_eq!(read_stored(None), None);
    assert_eq!(read_stored(Some(b"settings".to_vec())), None);
}

#[test]
fn default_settings_record() {
    let settings = Settings::with_music_dir("/home/me/Music".to_string());
    assert_eq!(
        settings,
        Settings {
            path: "/home/me/Music".to_string(),
            volume: 1000,
            theme: Theme::Black,
            window_size: WindowSize { width: 450, height: 625 },
            save_window_size: false,
            locale: None,
            timestamp: None,
        }
    );
}

#[test]
fn stored_settings_win_over_the_default() {
    let mut stored = Settings::with_music_dir("/stored".to_string());
    stored.volume = 300;
    stored.theme = Theme::Retro;
    stored.locale = Some("it".to_string());
    let read = Settings::read_saved(Some(stored), "/music".to_string());
    assert_eq!(read.path, "/stored");
    assert_eq!(read.volume, 300);
    assert_eq!(read.theme, Theme::Retro);
    assert_eq!(read.locale, Some("it".to_string()));
    assert_eq!(
        Settings::read_saved(None, "/music".to_string()),
        Settings::with_music_dir("/music".to_string())
    );
}

#[test]
fn fingerprint_is_compared_and_saved() {
    let mut settings = Settings::with_music_dir("/music".to_string());
    assert!(!settings.check_timestamp(Some(5)));
    assert!(!settings.check_timestamp(None));
    settings.save_timestamp(None);
    assert_eq!(settings.timestamp, None);
    settings.save_timestamp(Some(5));
    assert_eq!(settings.timestamp, Some(5));
    assert!(settings.check_timestamp(Some(5)));
    assert!(!settings.check_timestamp(Some(6)));
    assert!(!settings.check_timestamp(None));
    settings.save_timestamp(None);
    assert_eq!(settings.timestamp, Some(5));
    settings.save_timestamp(Some(0));
    assert!(settings.check_timestamp(Some(0)));
}

#[test]
fn closing_keeps_the_volume_and_the_window_where_asked() {
    let mut settings = Settings::with_music_dir("/music".to_string());
    settings.close(420, WindowSize { width: 800, height: 600 });
    assert_eq!(settings.volume, 420);
    assert_eq!(settings.window_size, WindowSize::default());
    settings.save_window_size = true;
    settings.close(0, WindowSize { width: 800, height: 600 });
    assert_eq!(settings.volume, 0);
    assert_eq!(settings.window_size, WindowSize { width: 800, height: 600 });
    settings.set_path("/elsewhere".to_string());
    assert_eq!(settings.path, "/elsewhere");
    assert!(settings.save_window_size);
}

#[test]
fn encoded_records_survive_the_store() {
    let record = (
        "/home/me/Music".to_string(),
        0.75f64,
        4u8,
        (450usize, 625usize),
        true,
        Some("it".to_string()),
        Some(0xdead_beef_u64),
    );
    let blob = pack(&bitcode::encode(&record)).unwrap();
    let data = read_stored(Some(blob)).unwrap();
    let decoded: (String, f64, u8, (usize, usize), bool, Option<String>, Option<u64>) =
        bitcode::decode(&data).unwrap();
    assert_eq!(decoded, record);
}

#[test]
fn encoded_track_tables_survive_the_store() {
    let table = vec![
        ("a".to_string(), "A".to_string(), "x".to_string(), 12.5f64, vec![1u8, 2, 3]),
        ("b".to_string(), "B".to_string(), String::new(), 0.0f64, vec![]),
    ];
    let blob = pack(&bitcode::encode(&table)).unwrap();
    let data = unpack(&blob).unwrap();
    let decoded: Vec<(String, String, String, f64, Vec<u8>)> = bitcode::decode(&data).unwrap();
    assert_eq!(decoded, table);
    let empty: Vec<(String, String, String, f64, Vec<u8>)> = vec![];
    let blob = pack(&bitcode::encode(&empty)).unwrap();
    let decoded: Vec<(String, String, String, f64, Vec<u8>)> =
        bitcode::decode(&unpack(&blob).unwrap()).unwrap();
    assert_eq!(decoded, empty);
}

#[test]
fn stored_tracks_win_over_the_empty_cache() {
    let stored = vec![FileTrack {
        path: "a".to_string(),
        title: "A".to_string(),
        artist: String::new(),
        length: 1,
        image: vec![],
    }];
    assert_eq!(Settings::read_tracks(Some(stored.clone())), stored);
    assert_eq!(Settings::read_tracks(None), vec![]);
}

#[test]
fn compressor_outcome_is_handed_on() {
    assert_eq!(packed(Ok(vec![1, 2, 3])), Ok(vec![1, 2, 3]));
    assert_eq!(packed(Ok(vec![])), Ok(vec![]));
    assert_eq!(
        packed(Err(std::io::Error::other("out of memory"))),
        Err(StoreError::Compression)
    );
}

#[test]
fn every_value_is_packed() {
    for len in [0usize, 1, 2, 255, 4096, 70_000] {
        let data: Vec<u8> = (0..len).map(|i| (i * 31 % 251) as u8).collect();
        let blob = pack(&data);
        assert!(blob.is_ok());
        assert_eq!(unpack(&blob.unwrap()), Some(data));
    }
}
