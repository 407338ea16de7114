use at_tui::video_player::{command_arguments, frame_files, MpvPlayer};

#[test]
fn command_uses_kitty_shared_memory_and_treats_url_as_data() {
    let player = MpvPlayer::new("/test/mpv".into());
    let args = player.arguments("--playlist-looking-url");

    assert_eq!(player.executable(), "/test/mpv");
    assert!(args.contains(&"--vo=kitty".to_owned()));
    assert!(args.contains(&"--vo-kitty-use-shm=yes".to_owned()));
    assert_eq!(
        &args[args.len() - 2..],
        &["--".to_owned(), "--playlist-looking-url".to_owned()]
    );
}

#[test]
fn player_arguments_start_with_the_fixed_options() {
    let args = command_arguments("https://video.test/playlist.m3u8");
    assert_eq!(args.len(), 10);
    assert_eq!(args[0], "--no-config");
    assert_eq!(args[7], "--msg-level=all=warn");
    assert_eq!(args[9], "https://video.test/playlist.m3u8");
}

#[test]
fn frame_decoder_reads_the_playlist_and_writes_numbered_frames() {
    let args = at_tui::video_player::frame_decode_arguments("https://v.test/p.m3u8", "/tmp/f/frame_%04d.jpg");
    assert_eq!(args.len(), 11);
    assert_eq!(args[4], "-i");
    assert_eq!(args[5], "https://v.test/p.m3u8");
    assert_eq!(args[9], "120");
    assert_eq!(args[10], "/tmp/f/frame_%04d.jpg");
    assert_eq!(at_tui::video_player::MAX_VIDEO_FRAMES, 120);
}

#[test]
fn frame_files_keeps_jpg_names_in_name_order() {
    let names: Vec<String> = ["frame_0003.jpg", "notes.txt", ".jpg", "frame_0001.jpg", "frame_0002.JPG", "frame_0002.jpg", "a.jpg.tmp"]
        .iter()
        .map(|n| n.to_string())
        .collect();
    assert_eq!(frame_files(&names), vec!["frame_0001.jpg", "frame_0002.jpg", "frame_0003.jpg"]);
    assert!(frame_files(&Vec::new()).is_empty());
}
