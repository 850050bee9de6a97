//! The playout configuration: its modes, its sections, and the values
//! derived from what the configuration file holds.

use vstd::prelude::*;
use crate::shell::{shlex_words, split_words};
use crate::text::{
    contains_char, opt_str_view, opt_words_view, owned, push_word, append_words, str_eq,
    words_view,
};

verus! {

// ---------------------------------------------------------------------------
// Modes
// ---------------------------------------------------------------------------

/// Where the playout sends its output.
#[derive(Debug, Clone, Copy, PartialEq, Eq, Structural)]
pub enum OutputMode {
    Desktop,
    HLS,
    Null,
    Stream,
}

/// The output mode a configuration word names, if any.
pub open spec fn output_mode_named(s: Seq<char>) -> Option<OutputMode> {
    if s == "desktop"@ {
        Some(OutputMode::Desktop)
    } else if s == "hls"@ {
        Some(OutputMode::HLS)
    } else if s == "null"@ {
        Some(OutputMode::Null)
    } else if s == "stream"@ {
        Some(OutputMode::Stream)
    } else {
        None
    }
}

impl OutputMode {
    /// Reads an output mode from its configuration word.
    pub fn parse(input: &str) -> (r: Result<OutputMode, String>)
        ensures
            match output_mode_named(input@) {
                Some(m) => r == Ok::<OutputMode, String>(m),
                None => r is Err && r->Err_0@ == "Use 'desktop', 'hls', 'null' or 'stream'"@,
            },
    {
        if str_eq(input, "desktop") {
            Ok(OutputMode::Desktop)
        } else if str_eq(input, "hls") {
            Ok(OutputMode::HLS)
        } else if str_eq(input, "null") {
            Ok(OutputMode::Null)
        } else if str_eq(input, "stream") {
            Ok(OutputMode::Stream)
        } else {
            Err(owned("Use 'desktop', 'hls', 'null' or 'stream'"))
        }
    }
}

impl std::str::FromStr for OutputMode {
    type Err = String;

    fn from_str(input: &str) -> (r: Result<OutputMode, String>)
        ensures
            match output_mode_named(input@) {
                Some(m) => r == Ok::<OutputMode, String>(m),
                None => r is Err && r->Err_0@ == "Use 'desktop', 'hls', 'null' or 'stream'"@,
            },
    {
        OutputMode::parse(input)
    }
}

/// Where the playout takes its clips from.
#[derive(Debug, Clone, Copy, PartialEq, Eq, Structural)]
pub enum ProcessMode {
    Folder,
    Playlist,
}

/// The configuration word of a process mode.
pub open spec fn process_mode_word(m: ProcessMode) -> Seq<char> {
    match m {
        ProcessMode::Folder => "folder"@,
        ProcessMode::Playlist => "playlist"@,
    }
}

/// The process mode a configuration word names, if any.
pub open spec fn process_mode_named(s: Seq<char>) -> Option<ProcessMode> {
    if s == "folder"@ {
        Some(ProcessMode::Folder)
    } else if s == "playlist"@ {
        Some(ProcessMode::Playlist)
    } else {
        None
    }
}

impl ProcessMode {
    /// The configuration word of this mode.
    pub fn to_string(&self) -> (r: String)
        ensures
            r@ == process_mode_word(*self),
    {
        match self {
            ProcessMode::Folder => owned("folder"),
            ProcessMode::Playlist => owned("playlist"),
        }
    }

    /// Reads a process mode from its configuration word.
    pub fn parse(input: &str) -> (r: Result<ProcessMode, String>)
        ensures
            match process_mode_named(input@) {
                Some(m) => r == Ok::<ProcessMode, String>(m),
                None => r is Err && r->Err_0@ == "Use 'folder' or 'playlist'"@,
            },
    {
        if str_eq(input, "folder") {
            Ok(ProcessMode::Folder)
        } else if str_eq(input, "playlist") {
            Ok(ProcessMode::Playlist)
        } else {
            Err(owned("Use 'folder' or 'playlist'"))
        }
    }
}

impl std::str::FromStr for ProcessMode {
    type Err = String;

    fn from_str(input: &str) -> (r: Result<ProcessMode, String>)
        ensures
            match process_mode_named(input@) {
                Some(m) => r == Ok::<ProcessMode, String>(m),
                None => r is Err && r->Err_0@ == "Use 'folder' or 'playlist'"@,
            },
    {
        ProcessMode::parse(input)
    }
}

/// Writing a process mode and reading it back gives the same mode, and no
/// other mode has the same word.
pub proof fn process_mode_word_round_trip(m: ProcessMode, n: ProcessMode)
    ensures
        process_mode_named(process_mode_word(m)) == Some(m),
        process_mode_word(m) == process_mode_word(n) ==> m == n,
{
    reveal_strlit("folder");
    reveal_strlit("playlist");
    assert("folder"@ != "playlist"@) by {
        assert("folder"@[0] != "playlist"@[0]);
    }
}


// ---------------------------------------------------------------------------
// Sections of the configuration
// ---------------------------------------------------------------------------

/// Settings of the remote-control server.
#[derive(Debug, Clone)]
pub struct RpcServer {
    pub help_text: String,
    pub enable: bool,
    pub address: String,
    pub authorization: String,
}

/// Settings of the mail notifications.
#[derive(Debug, Clone)]
pub struct Mail {
    pub help_text: String,
    pub subject: String,
    pub smtp_server: String,
    pub starttls: bool,
    pub sender_addr: String,
    pub sender_pass: String,
    pub recipient: String,
    pub mail_level: String,
    pub interval: u64,
}

/// Settings of the logging.
#[derive(Debug, Clone)]
pub struct Logging {
    pub help_text: String,
    pub log_to_file: bool,
    pub backup_count: usize,
    pub local_time: bool,
    pub timestamp: bool,
    pub log_path: String,
    pub log_level: String,
    pub ffmpeg_level: String,
}

/// Settings of the live ingest.
#[derive(Debug, Clone)]
pub struct Ingest {
    pub help_text: String,
    pub enable: bool,
    pub input_param: String,
    pub input_cmd: Option<Vec<String>>,
}

/// Settings of the clip storage.
#[derive(Debug, Clone)]
pub struct Storage {
    pub help_text: String,
    pub path: String,
    pub filler_clip: String,
    pub extensions: Vec<String>,
    pub shuffle: bool,
}

/// Settings of the text overlay.
#[derive(Debug, Clone)]
pub struct Text {
    pub help_text: String,
    pub add_text: bool,
    pub node_pos: Option<usize>,
    pub zmq_stream_socket: Option<String>,
    pub zmq_server_socket: Option<String>,
    pub fontfile: String,
    pub text_from_filename: bool,
    pub style: String,
    pub regex: String,
}

/// Settings of the output.
#[derive(Debug, Clone)]
pub struct Out {
    pub help_text: String,
    pub mode: OutputMode,
    pub output_param: String,
    pub output_cmd: Option<Vec<String>>,
}

// ---------------------------------------------------------------------------
// Values derived from the configuration file
// ---------------------------------------------------------------------------

impl Ingest {
    /// Derives the ingest command: the parameters split into words as a
    /// shell would, or `None` where they cannot be split.
    pub fn prepare_input_cmd(&mut self)
        ensures
            opt_words_view(final(self).input_cmd) == shlex_words(old(self).input_param@),
            final(self).help_text == old(self).help_text,
            final(self).enable == old(self).enable,
            final(self).input_param == old(self).input_param,
    {
        self.input_cmd = split_words(self.input_param.as_str());
    }
}

/// The words of the output command when nothing is to be sent anywhere.
pub open spec fn null_output_words() -> Seq<Seq<char>> {
    seq!["-f"@, "null"@, "-"@]
}

/// The output command an output section stands for.
pub open spec fn output_command(mode: OutputMode, param: Seq<char>) -> Option<Seq<Seq<char>>> {
    if mode == OutputMode::Null {
        Some(null_output_words())
    } else {
        shlex_words(param)
    }
}

impl Out {
    /// Derives the output command: a fixed null sink in `Null` mode, else
    /// the output parameters split into words as a shell would.
    pub fn prepare_output_cmd(&mut self)
        ensures
            opt_words_view(final(self).output_cmd)
                == output_command(old(self).mode, old(self).output_param@),
            final(self).help_text == old(self).help_text,
            final(self).mode == old(self).mode,
            final(self).output_param == old(self).output_param,
            old(self).mode != OutputMode::Null ==> opt_words_view(final(self).output_cmd)
                == shlex_words(old(self).output_param@),
            old(self).mode == OutputMode::Null ==> opt_words_view(final(self).output_cmd) == Some(
                seq!["-f"@, "null"@, "-"@],
            ),
    {
        proof {
            output_command_follows_mode(self.mode, self.output_param@);
        }
        if self.mode == OutputMode::Null {
            let mut cmd: Vec<String> = Vec::new();
            push_word(&mut cmd, "-f");
            push_word(&mut cmd, "null");
            push_word(&mut cmd, "-");
            assert(words_view(cmd@) =~= null_output_words());
            self.output_cmd = Some(cmd);
        } else {
            self.output_cmd = split_words(self.output_param.as_str());
        }
    }
}

/// Only the `Null` output mode discards the output parameters and sends to
/// the null sink; every other mode runs exactly the parameters, split into
/// words as a shell would.
pub proof fn output_command_follows_mode(mode: OutputMode, param: Seq<char>)
    ensures
        mode != OutputMode::Null ==> output_command(mode, param) == shlex_words(param),
        mode == OutputMode::Null ==> output_command(mode, param) == Some(seq!["-f"@, "null"@, "-"@]),
{
}

impl Text {
    /// Whether the overlay takes its text from remote messages, which
    /// needs the remote-control server and a pair of message sockets.
    pub open spec fn spec_wants_messages(&self) -> bool {
        self.add_text && !self.text_from_filename
    }

    /// Whether the overlay takes its text from remote messages.
    pub fn wants_messages(&self) -> (r: bool)
        ensures
            r == self.spec_wants_messages(),
    {
        self.add_text && !self.text_from_filename
    }
}

/// Remote messages are wanted exactly when the overlay is on and does not
/// take its text from file names: with the overlay off they never are,
/// whatever the file-name setting says.
pub proof fn messages_need_text_not_from_filename(t: Text)
    ensures
        !t.add_text ==> !t.spec_wants_messages(),
        t.text_from_filename ==> !t.spec_wants_messages(),
        t.add_text && !t.text_from_filename ==> t.spec_wants_messages(),
{
}

/// The address the server socket must not take: the one the stream socket
/// took, or the empty string where it took none.
pub fn address_in_use(stream_socket: &Option<String>) -> (r: String)
    ensures
        r@ == match stream_socket {
            Some(s) => s@,
            None => Seq::<char>::empty(),
        },
{
    match stream_socket {
        Some(s) => s.clone(),
        None => String::new(),
    }
}

/// Settles the text overlay and the remote-control server. Where the
/// overlay takes its text from remote messages, the server is switched on,
/// the overlay takes the given sockets and its filter node sits at
/// position 2; else it has no sockets and no node position, and the server
/// stays as configured.
pub fn configure_text_overlay(
    text: &mut Text,
    rpc_server: &mut RpcServer,
    stream_socket: Option<String>,
    server_socket: Option<String>,
)
    ensures
        old(text).spec_wants_messages() ==> {
            &&& final(rpc_server).enable
            &&& opt_str_view(final(text).zmq_stream_socket) == opt_str_view(stream_socket)
            &&& opt_str_view(final(text).zmq_server_socket) == opt_str_view(server_socket)
            &&& final(text).node_pos == Some(2usize)
        },
        !old(text).spec_wants_messages() ==> {
            &&& final(rpc_server).enable == old(rpc_server).enable
            &&& final(text).zmq_stream_socket is None
            &&& final(text).zmq_server_socket is None
            &&& final(text).node_pos is None
        },
        final(rpc_server).address == old(rpc_server).address,
        final(rpc_server).authorization == old(rpc_server).authorization,
        final(rpc_server).help_text == old(rpc_server).help_text,
        final(text).add_text == old(text).add_text,
        final(text).text_from_filename == old(text).text_from_filename,
        final(text).help_text == old(text).help_text,
        final(text).fontfile == old(text).fontfile,
        final(text).style == old(text).style,
        final(text).regex == old(text).regex,
        old(text).add_text && !old(text).text_from_filename ==> final(rpc_server).enable
            && final(text).node_pos == Some(2usize),
        !old(text).add_text || old(text).text_from_filename ==> {
            &&& final(rpc_server).enable == old(rpc_server).enable
            &&& final(text).zmq_stream_socket is None
            &&& final(text).zmq_server_socket is None
            &&& final(text).node_pos is None
        },
{
    proof {
        messages_need_text_not_from_filename(*text);
    }
    if text.wants_messages() {
        rpc_server.enable = true;
        text.zmq_stream_socket = stream_socket;
        text.zmq_server_socket = server_socket;
        text.node_pos = Some(2);
    } else {
        text.zmq_stream_socket = None;
        text.zmq_server_socket = None;
        text.node_pos = None;
    }
}

/// The number of audio tracks to process: as configured, but at least one.
pub fn audio_track_count(configured: i32) -> (r: i32)
    ensures
        r == if configured < 1 { 1 } else { configured },
        r >= 1,
{
    if configured < 1 {
        1
    } else {
        configured
    }
}

/// Whether the logo is overlaid: only where it is asked for and its file
/// exists.
pub fn logo_enabled(add_logo: bool, logo_is_file: bool) -> (r: bool)
    ensures
        r == (add_logo && logo_is_file),
{
    if add_logo && !logo_is_file {
        false
    } else {
        add_logo
    }
}

/// Whether the playlist length is written as a time of day (`hh:mm:ss`),
/// which is then converted to seconds; otherwise a day's length applies.
pub fn length_is_clock_time(length: &str) -> (r: bool)
    ensures
        r == length@.contains(':'),
{
    contains_char(length, ':')
}

/// The audio encoder arguments for the intermediate stream.
pub open spec fn audio_codec_words(add_loudnorm: bool) -> Seq<Seq<char>> {
    if add_loudnorm {
        seq!["-c:a"@, "mp2"@, "-b:a"@, "384k"@]
    } else {
        seq!["-c:a"@, "s302m"@, "-strict"@, "-2"@, "-sample_fmt"@, "s16"@]
    }
}

/// The audio encoder arguments for the intermediate stream. Without the
/// loudness filter the higher-quality but experimental `s302m` encoder is
/// used; it does not work well together with that filter, so with it
/// `mp2` is used.
pub fn pre_audio_codec(add_loudnorm: bool) -> (r: Vec<String>)
    ensures
        words_view(r@) == audio_codec_words(add_loudnorm),
{
    let mut codec: Vec<String> = Vec::new();
    if add_loudnorm {
        push_word(&mut codec, "-c:a");
        push_word(&mut codec, "mp2");
        push_word(&mut codec, "-b:a");
        push_word(&mut codec, "384k");
    } else {
        push_word(&mut codec, "-c:a");
        push_word(&mut codec, "s302m");
        push_word(&mut codec, "-strict");
        push_word(&mut codec, "-2");
        push_word(&mut codec, "-sample_fmt");
        push_word(&mut codec, "s16");
    }
    assert(words_view(codec@) =~= audio_codec_words(add_loudnorm));
    codec
}

/// The decoder arguments of the intermediate stream, for the given frame
/// rate (as text) and loudness setting.
pub open spec fn decoder_words(fps: Seq<char>, add_loudnorm: bool) -> Seq<Seq<char>> {
    seq!["-pix_fmt"@, "yuv420p"@, "-r"@, fps, "-c:v"@, "mpeg2video"@, "-g"@, "1"@,
        "-qscale:v"@, "2"@]
        + audio_codec_words(add_loudnorm)
        + seq!["-ar"@, "48000"@, "-ac"@, "2"@, "-f"@, "mpegts"@, "-"@]
}

/// The decoder arguments of the intermediate stream, defined once for the
/// whole program: MPEG-2 video at the given frame rate, the audio encoder
/// that suits the loudness setting, 48 kHz stereo, MPEG-TS to stdout.
pub fn decoder_settings(fps: &str, add_loudnorm: bool) -> (r: Vec<String>)
    ensures
        words_view(r@) == decoder_words(fps@, add_loudnorm),
{
    let mut settings: Vec<String> = Vec::new();
    push_word(&mut settings, "-pix_fmt");
    push_word(&mut settings, "yuv420p");
    push_word(&mut settings, "-r");
    push_word(&mut settings, fps);
    push_word(&mut settings, "-c:v");
    push_word(&mut settings, "mpeg2video");
    push_word(&mut settings, "-g");
    push_word(&mut settings, "1");
    push_word(&mut settings, "-qscale:v");
    push_word(&mut settings, "2");
    let ghost head = words_view(settings@);
    append_words(&mut settings, pre_audio_codec(add_loudnorm));
    let ghost mid = words_view(settings@);
    let mut tail: Vec<String> = Vec::new();
    push_word(&mut tail, "-ar");
    push_word(&mut tail, "48000");
    push_word(&mut tail, "-ac");
    push_word(&mut tail, "2");
    push_word(&mut tail, "-f");
    push_word(&mut tail, "mpegts");
    push_word(&mut tail, "-");
    append_words(&mut settings, tail);
    assert(head =~= seq!["-pix_fmt"@, "yuv420p"@, "-r"@, fps@, "-c:v"@, "mpeg2video"@, "-g"@,
        "1"@, "-qscale:v"@, "2"@]);
    assert(words_view(settings@) =~= decoder_words(fps@, add_loudnorm));
    settings
}

} // verus!
