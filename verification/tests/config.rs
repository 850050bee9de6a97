use ffplayout::config::{
    address_in_use, audio_track_count, configure_text_overlay, decoder_settings,
    length_is_clock_time, logo_enabled, pre_audio_codec, Ingest, OutputMode, Out, ProcessMode,
    RpcServer, Text,
};

fn words(v: &[&str]) -> Vec<String> {
    v.iter().map(|s| s.to_string()).collect()
}

fn text_section(add_text: bool, from_filename: bool) -> Text {
    Text {
        help_text: "text".to_string(),
        add_text,
        node_pos: None,
        zmq_stream_socket: Some("old".to_string()),
        zmq_server_socket: Some("old".to_string()),
        fontfile: "font.ttf".to_string(),
        text_from_filename: from_filename,
        style: "x=0".to_string(),
        regex: "^.*".to_string(),
    }
}

fn rpc_section(enable: bool) -> RpcServer {
    RpcServer {
        help_text: "rpc".to_string(),
        enable,
        address: "127.0.0.1:7070".to_string(),
        authorization: "secret".to_string(),
    }
}

#[test]
fn output_mode_words() {
    assert_eq!("desktop".parse::<OutputMode>(), Ok(OutputMode::Desktop));
    assert_eq!("hls".parse::<OutputMode>(), Ok(OutputMode::HLS));
    assert_eq!("null".parse::<OutputMode>(), Ok(OutputMode::Null));
    assert_eq!("stream".parse::<OutputMode>(), Ok(OutputMode::Stream));
}

#[test]
fn output_mode_unknown_word() {
    assert_eq!(
        OutputMode::parse("Stream"),
        Err("Use 'desktop', 'hls', 'null' or 'stream'".to_string())
    );
    assert_eq!(
        "".parse::<OutputMode>(),
        Err("Use 'desktop', 'hls', 'null' or 'stream'".to_string())
    );
}

#[test]
fn process_mode_words_round_trip() {
    for m in [ProcessMode::Folder, ProcessMode::Playlist] {
        assert_eq!(m.to_string().parse::<ProcessMode>(), Ok(m));
    }
    assert_eq!(ProcessMode::Folder.to_string(), "folder");
    assert_eq!(ProcessMode::Playlist.to_string(), "playlist");
}

#[test]
fn process_mode_unknown_word() {
    assert_eq!(
        "list".parse::<ProcessMode>(),
        Err("Use 'folder' or 'playlist'".to_string())
    );
}

#[test]
fn audio_codec_without_loudnorm() {
    assert_eq!(
        pre_audio_codec(false),
        words(&["-c:a", "s302m", "-strict", "-2", "-sample_fmt", "s16"])
    );
}

#[test]
fn audio_codec_with_loudnorm() {
    assert_eq!(pre_audio_codec(true), words(&["-c:a", "mp2", "-b:a", "384k"]));
}

#[test]
fn decoder_settings_exact() {
    assert_eq!(
        decoder_settings("25", false),
        words(&[
            "-pix_fmt", "yuv420p", "-r", "25", "-c:v", "mpeg2video", "-g", "1", "-qscale:v", "2",
            "-c:a", "s302m", "-strict", "-2", "-sample_fmt", "s16", "-ar", "48000", "-ac", "2",
            "-f", "mpegts", "-"
        ])
    );
    assert_eq!(
        decoder_settings("29.97", true),
        words(&[
            "-pix_fmt", "yuv420p", "-r", "29.97", "-c:v", "mpeg2video", "-g", "1", "-qscale:v",
            "2", "-c:a", "mp2", "-b:a", "384k", "-ar", "48000", "-ac", "2", "-f", "mpegts", "-"
        ])
    );
}

#[test]
fn audio_tracks_at_least_one() {
    assert_eq!(audio_track_count(0), 1);
    assert_eq!(audio_track_count(-5), 1);
    assert_eq!(audio_track_count(i32::MIN), 1);
    assert_eq!(audio_track_count(1), 1);
    assert_eq!(audio_track_count(4), 4);
}

#[test]
fn logo_needs_its_file() {
    assert!(logo_enabled(true, true));
    assert!(!logo_enabled(true, false));
    assert!(!logo_enabled(false, true));
    assert!(!logo_enabled(false, false));
}

#[test]
fn playlist_length_as_clock_time() {
    assert!(length_is_clock_time("24:00:00"));
    assert!(length_is_clock_time(":"));
    assert!(!length_is_clock_time("86400"));
    assert!(!length_is_clock_time(""));
}

#[test]
fn ingest_command_split_like_a_shell() {
    let mut ingest = Ingest {
        help_text: "ingest".to_string(),
        enable: true,
        input_param: "-f live_flv -listen 1 -i 'rtmp://localhost:1936/live stream'".to_string(),
        input_cmd: None,
    };
    ingest.prepare_input_cmd();
    assert_eq!(
        ingest.input_cmd,
        Some(words(&["-f", "live_flv", "-listen", "1", "-i", "rtmp://localhost:1936/live stream"]))
    );
    assert_eq!(ingest.input_param, "-f live_flv -listen 1 -i 'rtmp://localhost:1936/live stream'");
}

#[test]
fn ingest_command_unterminated_quote() {
    let mut ingest = Ingest {
        help_text: String::new(),
        enable: false,
        input_param: "-i 'open".to_string(),
        input_cmd: Some(words(&["stale"])),
    };
    ingest.prepare_input_cmd();
    assert_eq!(ingest.input_cmd, None);
}

#[test]
fn null_output_ignores_parameters() {
    let mut out = Out {
        help_text: String::new(),
        mode: OutputMode::Null,
        output_param: "-c:v libx264 -f flv rtmp://localhost/live/stream".to_string(),
        output_cmd: None,
    };
    out.prepare_output_cmd();
    assert_eq!(out.output_cmd, Some(words(&["-f", "null", "-"])));
}

#[test]
fn stream_output_splits_parameters() {
    let mut out = Out {
        help_text: String::new(),
        mode: OutputMode::Stream,
        output_param: "-c:v libx264 -flags +global_header -f flv rtmp://localhost/live/stream"
            .to_string(),
        output_cmd: None,
    };
    out.prepare_output_cmd();
    assert_eq!(
        out.output_cmd,
        Some(words(&[
            "-c:v", "libx264", "-flags", "+global_header", "-f", "flv",
            "rtmp://localhost/live/stream"
        ]))
    );
}

#[test]
fn message_overlay_switches_rpc_on() {
    let mut text = text_section(true, false);
    let mut rpc = rpc_section(false);
    assert!(text.wants_messages());
    configure_text_overlay(
        &mut text,
        &mut rpc,
        Some("127.0.0.1:5555".to_string()),
        Some("127.0.0.1:5556".to_string()),
    );
    assert!(rpc.enable);
    assert_eq!(text.zmq_stream_socket.as_deref(), Some("127.0.0.1:5555"));
    assert_eq!(text.zmq_server_socket.as_deref(), Some("127.0.0.1:5556"));
    assert_eq!(text.node_pos, Some(2));
}

#[test]
fn filename_overlay_needs_no_sockets() {
    let mut text = text_section(true, true);
    let mut rpc = rpc_section(false);
    assert!(!text.wants_messages());
    configure_text_overlay(&mut text, &mut rpc, Some("x".to_string()), Some("y".to_string()));
    assert!(!rpc.enable);
    assert_eq!(text.zmq_stream_socket, None);
    assert_eq!(text.zmq_server_socket, None);
    assert_eq!(text.node_pos, None);

    let mut text = text_section(false, false);
    let mut rpc = rpc_section(true);
    configure_text_overlay(&mut text, &mut rpc, None, None);
    assert!(rpc.enable);
    assert_eq!(text.node_pos, None);
}

#[test]
fn server_socket_avoids_stream_socket() {
    assert_eq!(address_in_use(&Some("127.0.0.1:5555".to_string())), "127.0.0.1:5555");
    assert_eq!(address_in_use(&None), "");
}
