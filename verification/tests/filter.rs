use ffplayout::filter::{add_audio, custom, deinterlace, overlay, scale, FilterType, Filters};

fn words(v: &[&str]) -> Vec<String> {
    v.iter().map(|s| s.to_string()).collect()
}

#[test]
fn empty_graph_maps_inputs() {
    let mut f = Filters::default();
    assert_eq!(f.cmd(), Vec::<String>::new());
    assert_eq!(f.map(), words(&["-map", "0:v", "-map", "0:a:0"]));
    let mut f = Filters::new(3, 1);
    assert_eq!(
        f.map(),
        words(&["-map", "0:v", "-map", "1:a:0", "-map", "1:a:1", "-map", "1:a:2"])
    );
    let mut f = Filters::new(0, 0);
    assert_eq!(f.map(), words(&["-map", "0:v"]));
}

#[test]
fn dual_audio_chains() {
    let mut f = Filters::new(2, 0);
    f.add_filter("scale=1024:576", 0, FilterType::Video);
    f.add_filter("anull", 0, FilterType::Audio);
    f.add_filter("anull", 1, FilterType::Audio);
    assert_eq!(
        f.cmd(),
        words(&[
            "-filter_complex",
            "[0:v:0]scale=1024:576[vout0];[0:a:0]anull[aout0];[0:a:1]anull[aout1]"
        ])
    );
    assert_eq!(
        f.map(),
        words(&["-map", "[vout0]", "-map", "[aout0]", "-map", "[aout1]"])
    );
    assert_eq!(f.video_map, words(&["[vout0]"]));
    assert_eq!(f.audio_map, words(&["[aout0]", "[aout1]"]));
}

#[test]
fn generated_audio_source() {
    let mut f = Filters::new(2, 0);
    f.add_filter("scale=1024:576", 0, FilterType::Video);
    f.add_filter("anull", 0, FilterType::Audio);
    add_audio("30", &mut f, 1);
    f.add_filter("anull", 1, FilterType::Audio);
    assert_eq!(
        f.cmd(),
        words(&[
            "-filter_complex",
            "[0:v:0]scale=1024:576[vout0];[0:a:0]anull[aout0];aevalsrc=0:channel_layout=stereo:duration=30:sample_rate=48000,anull[aout1]"
        ])
    );
}

#[test]
fn separate_audio_input() {
    let mut f = Filters::new(1, 0);
    f.set_audio_position(1);
    f.add_filter("scale=1024:576", 0, FilterType::Video);
    f.add_filter("anull", 0, FilterType::Audio);
    assert_eq!(
        f.cmd(),
        words(&["-filter_complex", "[0:v:0]scale=1024:576[vout0];[1:a:0]anull[aout0]"])
    );
    assert_eq!(f.map(), words(&["-map", "[vout0]", "-map", "[aout0]"]));
}

#[test]
fn links_of_one_track() {
    let mut f = Filters::new(1, 0);
    f.add_filter("yadif=0:-1:0", 0, FilterType::Video);
    f.add_filter("scale=1024:576", 0, FilterType::Video);
    f.add_filter("[v]null", 0, FilterType::Video);
    f.add_filter(";movie=logo.png[l]", 0, FilterType::Video);
    assert_eq!(
        f.video_chain,
        "[0:v:0]yadif=0:-1:0,scale=1024:576[v]null;movie=logo.png[l]"
    );
    assert_eq!(f.output_map, words(&["-map", "[vout0]"]));
    assert_eq!(f.map(), words(&["-map", "[vout0]", "-map", "0:a:0"]));
}

#[test]
fn audio_only_graph() {
    let mut f = Filters::new(1, 0);
    f.add_filter("volume=0.2", 0, FilterType::Audio);
    assert_eq!(f.cmd(), words(&["-filter_complex", ";[0:a:0]volume=0.2[aout0]"]));
    assert_eq!(f.map(), words(&["-map", "[aout0]", "-map", "0:v"]));
}

#[test]
fn source_filter_reads_no_input() {
    let mut f = Filters::new(1, 0);
    f.add_filter("movie=intro.mp4", 0, FilterType::Video);
    f.add_filter("null", 1, FilterType::Video);
    assert_eq!(f.video_chain, "movie=intro.mp4[vout0];[0:v:1]null");
    assert_eq!(f.cmd(), words(&["-filter_complex", "movie=intro.mp4[vout0];[0:v:1]null[vout1]"]));
}

#[test]
fn deinterlace_unless_progressive() {
    let mut f = Filters::default();
    deinterlace(&Some("progressive".to_string()), &mut f);
    deinterlace(&None, &mut f);
    assert_eq!(f.video_chain, "");
    deinterlace(&Some("tt".to_string()), &mut f);
    assert_eq!(f.video_chain, "[0:v:0]yadif=0:-1:0");
}

#[test]
fn custom_filter_skips_empty() {
    let mut f = Filters::default();
    custom("", &mut f, 0, FilterType::Video);
    assert_eq!(f.cmd(), Vec::<String>::new());
    custom("gblur=2", &mut f, 0, FilterType::Video);
    custom("volume=0.2", &mut f, 0, FilterType::Audio);
    assert_eq!(
        f.cmd(),
        words(&["-filter_complex", "[0:v:0]gblur=2[vout0];[0:a:0]volume=0.2[aout0]"])
    );
}

#[test]
fn scaling_choices() {
    let mut f = Filters::default();
    scale(Some(1920), Some(1080), 1024, 576, &mut f);
    assert_eq!(f.video_chain, "[0:v:0]scale_npp=1024:576:format=yuv420p");
    let mut f = Filters::default();
    scale(Some(1024), Some(576), 1024, 576, &mut f);
    assert_eq!(f.video_chain, "[0:v:0]scale_npp=1280:720:format=yuv420p");
    let mut f = Filters::default();
    scale(None, Some(576), 1024, 576, &mut f);
    assert_eq!(f.video_chain, "[0:v:0]scale_npp=1024:576:format=yuv420p");
}

#[test]
fn logo_overlay_conditions() {
    let mut f = Filters::default();
    overlay(true, true, "/l.png", "advertisement", &mut f);
    overlay(true, false, "/l.png", "", &mut f);
    overlay(false, true, "/l.png", "", &mut f);
    assert_eq!(f.video_chain, "");
    overlay(true, true, "/l.png", "", &mut f);
    assert_eq!(
        f.video_chain,
        "[0:v:0]null[v];movie=/l.png[l0];[l0]format=rgba,colorchannelmixer=aa=0.4,hwupload_cuda[l];[v][l]overlay_cuda=main_w-overlay_w-50:33"
    );
}

#[test]
fn negative_track_numbers_print_sign() {
    let mut f = Filters::new(1, -2);
    f.add_filter("anull", 3, FilterType::Audio);
    f.add_filter("anull", -4, FilterType::Audio);
    assert_eq!(f.audio_chain, "[-2:a:3]anull[aout3];[-2:a:-4]anull");
    assert_eq!(FilterType::Audio.to_string(), "a");
    assert_eq!(FilterType::Video.to_string(), "v");
}
