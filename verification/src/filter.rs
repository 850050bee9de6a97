//! The ffmpeg filter graph of a clip: one filter chain per stream type,
//! built link by link, and the `-filter_complex` and `-map` arguments that
//! it stands for.

use vstd::prelude::*;
use crate::text::{i32_text, i64_text, int_text, owned, push_word, starts_with, str_eq, words_view};

verus! {

/// The kind of stream a filter works on.
#[derive(Clone, Debug, Copy, PartialEq, Eq, Structural)]
pub enum FilterType {
    Audio,
    Video,
}

/// The letter that names a stream type in filter labels.
pub open spec fn type_letter(t: FilterType) -> Seq<char> {
    match t {
        FilterType::Audio => "a"@,
        FilterType::Video => "v"@,
    }
}

impl FilterType {
    /// The letter that names this stream type in filter labels.
    pub fn to_string(&self) -> (r: String)
        ensures
            r@ == type_letter(*self),
    {
        match self {
            FilterType::Audio => owned("a"),
            FilterType::Video => owned("v"),
        }
    }
}

/// Whether `s` begins with `p`.
pub open spec fn begins(s: Seq<char>, p: Seq<char>) -> bool {
    p.len() <= s.len() && s.subrange(0, p.len() as int) == p
}

/// The label of the output of the chain of type `t` for track `n`:
/// `[aout1]`, `[vout0]`.
pub open spec fn out_label(t: FilterType, n: int) -> Seq<char> {
    "["@ + type_letter(t) + "out"@ + int_text(n) + "]"@
}

/// The label of input stream `track` of type `t` of input `position`:
/// `[0:a:1]`.
pub open spec fn input_label(position: int, t: FilterType, track: int) -> Seq<char> {
    "["@ + int_text(position) + ":"@ + type_letter(t) + ":"@ + int_text(track) + "]"@
}

/// Whether a filter makes its own stream rather than reading an input.
pub open spec fn is_source_filter(f: Seq<char>) -> bool {
    begins(f, "aevalsrc"@) || begins(f, "movie"@)
}

/// Whether a filter is joined to its chain without a comma.
pub open spec fn joins_directly(f: Seq<char>) -> bool {
    begins(f, ";"@) || begins(f, "["@)
}

/// A chain of type `t` after `filter` has been added to it for `track`,
/// where `last` is the track the chain last worked on and `position` the
/// input the chain reads from. A new track closes the chain so far with its
/// output label and starts a new segment, which reads its input stream
/// unless the filter makes its own; the same track appends the filter with
/// a comma, or directly where the filter starts a new segment itself.
pub open spec fn chain_after(
    chain: Seq<char>,
    last: int,
    position: int,
    track: int,
    filter: Seq<char>,
    t: FilterType,
) -> Seq<char> {
    if last != track {
        let head = if chain.len() == 0 {
            chain
        } else {
            chain + out_label(t, last) + ";"@
        };
        if is_source_filter(filter) {
            head + filter
        } else {
            head + input_label(position, t, track) + filter
        }
    } else if joins_directly(filter) {
        chain + filter
    } else {
        chain + ","@ + filter
    }
}

/// The filter graph as values.
pub struct FiltersView {
    pub audio_chain: Seq<char>,
    pub video_chain: Seq<char>,
    pub audio_map: Seq<Seq<char>>,
    pub video_map: Seq<Seq<char>>,
    pub output_map: Seq<Seq<char>>,
    pub audio_track_count: int,
    pub audio_position: int,
    pub video_position: int,
    pub audio_last: int,
    pub video_last: int,
}

/// A graph with no filters yet.
pub open spec fn empty_filters(audio_track_count: int, audio_position: int) -> FiltersView {
    FiltersView {
        audio_chain: Seq::empty(),
        video_chain: Seq::empty(),
        audio_map: Seq::empty(),
        video_map: Seq::empty(),
        output_map: Seq::empty(),
        audio_track_count,
        audio_position,
        video_position: 0,
        audio_last: -1,
        video_last: -1,
    }
}

/// The graph after `filter` has been added for `track` to the chain of
/// type `t`. A new track also records the chain's output label in the
/// type's map and as a `-map` pair in the output map.
pub open spec fn filters_after(v: FiltersView, filter: Seq<char>, track: int, t: FilterType) -> FiltersView {
    match t {
        FilterType::Audio => {
            let label = out_label(t, track);
            let starts = v.audio_last != track;
            FiltersView {
                audio_chain: chain_after(
                    v.audio_chain,
                    v.audio_last,
                    v.audio_position,
                    track,
                    filter,
                    t,
                ),
                audio_map: if starts { v.audio_map.push(label) } else { v.audio_map },
                output_map: if starts { v.output_map + seq!["-map"@, label] } else { v.output_map },
                audio_last: track,
                ..v
            }
        },
        FilterType::Video => {
            let label = out_label(t, track);
            let starts = v.video_last != track;
            FiltersView {
                video_chain: chain_after(
                    v.video_chain,
                    v.video_last,
                    v.video_position,
                    track,
                    filter,
                    t,
                ),
                video_map: if starts { v.video_map.push(label) } else { v.video_map },
                output_map: if starts { v.output_map + seq!["-map"@, label] } else { v.output_map },
                video_last: track,
                ..v
            }
        },
    }
}

/// A chain closed with its output label, where it has worked on a track.
pub open spec fn closed_chain(chain: Seq<char>, last: int, t: FilterType) -> Seq<char> {
    if last >= 0 {
        chain + out_label(t, last)
    } else {
        chain
    }
}

/// The filter graph text: the closed video chain, then the closed audio
/// chain after a `;` where there is one.
pub open spec fn graph_text(v: FiltersView) -> Seq<char> {
    let v_chain = closed_chain(v.video_chain, v.video_last, FilterType::Video);
    let a_chain = closed_chain(v.audio_chain, v.audio_last, FilterType::Audio);
    if a_chain.len() > 0 {
        v_chain + ";"@ + a_chain
    } else {
        v_chain
    }
}

/// The `-filter_complex` arguments of a graph: none for an empty graph.
pub open spec fn cmd_words(v: FiltersView) -> Seq<Seq<char>> {
    if graph_text(v).len() > 0 {
        seq!["-filter_complex"@, graph_text(v)]
    } else {
        Seq::empty()
    }
}

/// A `-map` pair for `e` added to an output map that does not hold `e` yet.
pub open spec fn with_map_entry(o: Seq<Seq<char>>, e: Seq<char>) -> Seq<Seq<char>> {
    if o.contains(e) {
        o
    } else {
        o + seq!["-map"@, e]
    }
}

/// The stream `i` of the audio input at `position`: `0:a:1`.
pub open spec fn audio_stream(position: int, i: int) -> Seq<char> {
    int_text(position) + ":a:"@ + int_text(i)
}

/// An output map with the first `n` audio streams of the input at
/// `position` mapped, in order.
pub open spec fn with_audio_streams(o: Seq<Seq<char>>, position: int, n: int) -> Seq<Seq<char>>
    decreases n,
{
    if n <= 0 {
        o
    } else {
        with_map_entry(with_audio_streams(o, position, n - 1), audio_stream(position, n - 1))
    }
}

/// The `-map` arguments of a graph: the output labels of its chains; the
/// input's video stream where no video chain exists; and each audio track
/// of the audio input where no audio chain exists.
pub open spec fn map_words(v: FiltersView) -> Seq<Seq<char>> {
    let with_video = if v.video_last == -1 {
        with_map_entry(v.output_map, "0:v"@)
    } else {
        v.output_map
    };
    if v.audio_last == -1 {
        with_audio_streams(with_video, v.audio_position, v.audio_track_count)
    } else {
        with_video
    }
}

/// The output map pairs each label of a started chain with `-map`: its
/// even entries are `-map`, its odd entries labels of the type maps, and it
/// has one pair per started chain.
pub open spec fn map_pairs_ok(v: FiltersView) -> bool {
    &&& v.output_map.len() == 2 * (v.audio_map.len() + v.video_map.len())
    &&& forall|i: int| 0 <= i < v.audio_map.len() + v.video_map.len() ==> {
        &&& #[trigger] v.output_map[2 * i] == "-map"@
        &&& (v.audio_map.contains(v.output_map[2 * i + 1]) || v.video_map.contains(
            v.output_map[2 * i + 1],
        ))
    }
}

/// A filter graph under construction.
#[derive(Debug, Clone)]
pub struct Filters {
    pub audio_chain: String,
    pub video_chain: String,
    pub audio_map: Vec<String>,
    pub video_map: Vec<String>,
    pub output_map: Vec<String>,
    audio_track_count: i32,
    audio_position: i32,
    video_position: i32,
    audio_last: i32,
    video_last: i32,
}

impl View for Filters {
    type V = FiltersView;

    closed spec fn view(&self) -> FiltersView {
        FiltersView {
            audio_chain: self.audio_chain@,
            video_chain: self.video_chain@,
            audio_map: words_view(self.audio_map@),
            video_map: words_view(self.video_map@),
            output_map: words_view(self.output_map@),
            audio_track_count: self.audio_track_count as int,
            audio_position: self.audio_position as int,
            video_position: self.video_position as int,
            audio_last: self.audio_last as int,
            video_last: self.video_last as int,
        }
    }
}

/// The label text of the chain of type `t` for track `n`.
fn out_label_text(t: FilterType, n: i32) -> (r: String)
    ensures
        r@ == out_label(t, n as int),
{
    let letter = t.to_string();
    let number = i32_text(n);
    owned("[").concat(letter.as_str()).concat("out").concat(number.as_str()).concat("]")
}

/// The label text of input stream `track` of type `t` of input `position`.
fn input_label_text(position: i32, t: FilterType, track: i32) -> (r: String)
    ensures
        r@ == input_label(position as int, t, track as int),
{
    let pos = i32_text(position);
    let letter = t.to_string();
    let tr = i32_text(track);
    owned("[").concat(pos.as_str()).concat(":").concat(letter.as_str()).concat(":").concat(
        tr.as_str(),
    ).concat("]")
}

/// Adds `filter` for `track` to one chain, with the map of its type, the
/// output map and the track it last worked on.
fn extend_chain(
    chain: &mut String,
    map: &mut Vec<String>,
    output_map: &mut Vec<String>,
    last: &mut i32,
    position: i32,
    filter: &str,
    track: i32,
    t: FilterType,
)
    ensures
        final(chain)@ == chain_after(old(chain)@, *old(last) as int, position as int, track as int, filter@, t),
        words_view(final(map)@) == if *old(last) != track {
            words_view(old(map)@).push(out_label(t, track as int))
        } else {
            words_view(old(map)@)
        },
        words_view(final(output_map)@) == if *old(last) != track {
            words_view(old(output_map)@) + seq!["-map"@, out_label(t, track as int)]
        } else {
            words_view(old(output_map)@)
        },
        *final(last) == track,
{
    if *last != track {
        if !chain.as_str().is_empty() {
            let selector = out_label_text(t, *last);
            chain.append(selector.as_str());
            chain.append(";");
        }
        if starts_with(filter, "aevalsrc") || starts_with(filter, "movie") {
            chain.append(filter);
        } else {
            let input = input_label_text(position, t, track);
            chain.append(input.as_str());
            chain.append(filter);
        }
        let m = out_label_text(t, track);
        push_word(map, m.as_str());
        push_word(output_map, "-map");
        push_word(output_map, m.as_str());
        *last = track;
    } else if starts_with(filter, ";") || starts_with(filter, "[") {
        chain.append(filter);
    } else {
        chain.append(",");
        chain.append(filter);
    }
}

impl Filters {
    /// An empty filter graph for the given number of audio tracks, whose
    /// audio comes from input `audio_position`.
    pub fn new(audio_track_count: i32, audio_position: i32) -> (r: Filters)
        ensures
            r@ == empty_filters(audio_track_count as int, audio_position as int),
    {
        let r = Filters {
            audio_chain: String::new(),
            video_chain: String::new(),
            audio_map: Vec::new(),
            video_map: Vec::new(),
            output_map: Vec::new(),
            audio_track_count,
            audio_position,
            video_position: 0,
            audio_last: -1,
            video_last: -1,
        };
        assert(r@.audio_map =~= Seq::<Seq<char>>::empty());
        assert(r@.video_map =~= Seq::<Seq<char>>::empty());
        assert(r@.output_map =~= Seq::<Seq<char>>::empty());
        r
    }

    /// The input the audio chain reads from.
    pub fn set_audio_position(&mut self, position: i32)
        ensures
            final(self)@ == (FiltersView { audio_position: position as int, ..old(self)@ }),
    {
        self.audio_position = position;
    }

    /// Adds `filter` for `track` to the chain of type `filter_type`.
    pub fn add_filter(&mut self, filter: &str, track_nr: i32, filter_type: FilterType)
        ensures
            final(self)@ == filters_after(old(self)@, filter@, track_nr as int, filter_type),
            filter_type == FilterType::Audio && old(self)@.audio_last != track_nr ==> {
                &&& final(self)@.audio_map == old(self)@.audio_map.push(
                    out_label(FilterType::Audio, track_nr as int),
                )
                &&& final(self)@.output_map == old(self)@.output_map + seq![
                    "-map"@,
                    out_label(FilterType::Audio, track_nr as int),
                ]
            },
            filter_type == FilterType::Video && old(self)@.video_last != track_nr ==> {
                &&& final(self)@.video_map == old(self)@.video_map.push(
                    out_label(FilterType::Video, track_nr as int),
                )
                &&& final(self)@.output_map == old(self)@.output_map + seq![
                    "-map"@,
                    out_label(FilterType::Video, track_nr as int),
                ]
            },
    {
        proof {
            new_track_is_mapped(self@, filter@, track_nr as int, filter_type);
        }
        match filter_type {
            FilterType::Audio => {
                let position = self.audio_position;
                extend_chain(
                    &mut self.audio_chain,
                    &mut self.audio_map,
                    &mut self.output_map,
                    &mut self.audio_last,
                    position,
                    filter,
                    track_nr,
                    filter_type,
                );
            },
            FilterType::Video => {
                let position = self.video_position;
                extend_chain(
                    &mut self.video_chain,
                    &mut self.video_map,
                    &mut self.output_map,
                    &mut self.video_last,
                    position,
                    filter,
                    track_nr,
                    filter_type,
                );
            },
        }
    }

    /// The `-filter_complex` arguments of the graph: each chain closed with
    /// the output label of its last track, video first, audio after a `;`;
    /// nothing where the graph is empty.
    pub fn cmd(&mut self) -> (r: Vec<String>)
        ensures
            final(self)@ == old(self)@,
            words_view(r@) == cmd_words(old(self)@),
    {
        let mut v_chain = self.video_chain.clone();
        let mut a_chain = self.audio_chain.clone();
        if self.video_last >= 0 {
            let label = out_label_text(FilterType::Video, self.video_last);
            v_chain.append(label.as_str());
        }
        if self.audio_last >= 0 {
            let label = out_label_text(FilterType::Audio, self.audio_last);
            a_chain.append(label.as_str());
        }
        let mut f_chain = v_chain;
        let mut cmd: Vec<String> = Vec::new();
        if !a_chain.as_str().is_empty() {
            f_chain.append(";");
            f_chain.append(a_chain.as_str());
        }
        assert(f_chain@ == graph_text(self@));
        if !f_chain.as_str().is_empty() {
            push_word(&mut cmd, "-filter_complex");
            push_word(&mut cmd, f_chain.as_str());
        }
        assert(words_view(cmd@) =~= cmd_words(self@));
        cmd
    }

    /// The `-map` arguments of the graph: the output labels of its chains;
    /// where no video chain exists, the input's video stream; where no
    /// audio chain exists, each configured audio track of the audio input.
    /// An input stream is added only where the map does not hold it yet.
    pub fn map(&mut self) -> (r: Vec<String>)
        ensures
            final(self)@ == old(self)@,
            words_view(r@) == map_words(old(self)@),
            old(self)@.audio_last == -1 ==> forall|i: int|
                0 <= i < old(self)@.audio_track_count ==> words_view(r@).contains(
                    audio_stream(old(self)@.audio_position, i),
                ),
            old(self)@.video_last == -1 ==> words_view(r@).contains("0:v"@),
            words_view(r@).subrange(0, old(self)@.output_map.len() as int) == old(self)@.output_map,
    {
        proof {
            map_covers_unfiltered_streams(self@);
        }
        let mut o_map = self.output_map.clone();
        assert(words_view(o_map@) == self@.output_map);
        if self.video_last == -1 {
            add_map_entry(&mut o_map, "0:v");
        }
        if self.audio_last == -1 {
            let mut i: i32 = 0;
            let count = self.audio_track_count;
            let position = self.audio_position;
            let ghost base = words_view(o_map@);
            while i < count
                invariant
                    0 <= i,
                    count <= 0 ==> i == 0,
                    count > 0 ==> i <= count,
                    words_view(o_map@) == with_audio_streams(base, position as int, i as int),
                decreases count - i,
            {
                let pos = i32_text(position);
                let idx = i32_text(i);
                let a_map = pos.concat(":a:").concat(idx.as_str());
                add_map_entry(&mut o_map, a_map.as_str());
                i = i + 1;
            }
            assert(words_view(o_map@) == with_audio_streams(base, position as int, count as int));
        }
        o_map
    }
}

/// Whether the list holds the word `w`.
fn contains_word(v: &Vec<String>, w: &str) -> (r: bool)
    ensures
        r == words_view(v@).contains(w@),
{
    let mut i: usize = 0;
    while i < v.len()
        invariant
            i <= v@.len(),
            forall|k: int| 0 <= k < i ==> v@[k]@ != w@,
        decreases v@.len() - i,
    {
        if str_eq(v[i].as_str(), w) {
            assert(words_view(v@)[i as int] == w@);
            return true;
        }
        i = i + 1;
    }
    assert forall|k: int| 0 <= k < words_view(v@).len() implies words_view(v@)[k] != w@ by {
        assert(words_view(v@)[k] == v@[k]@);
    }
    false
}

/// Adds a `-map` pair for `e` unless the map already holds `e`.
fn add_map_entry(o: &mut Vec<String>, e: &str)
    ensures
        words_view(final(o)@) == with_map_entry(words_view(old(o)@), e@),
{
    if !contains_word(o, e) {
        push_word(o, "-map");
        push_word(o, e);
    }
    assert(words_view(o@) =~= with_map_entry(words_view(old(o)@), e@));
}

impl Default for Filters {
    /// A graph for one audio track read from the first input.
    fn default() -> (r: Filters)
        ensures
            r@ == empty_filters(1, 0),
    {
        Filters::new(1, 0)
    }
}

/// Adds a deinterlacing filter to the video chain unless the clip's field
/// order is known to be progressive.
pub fn deinterlace(field_order: &Option<String>, chain: &mut Filters)
    ensures
        match field_order {
            Some(order) if order@ != "progressive"@ => final(chain)@ == filters_after(
                old(chain)@,
                "yadif=0:-1:0"@,
                0,
                FilterType::Video,
            ),
            _ => final(chain)@ == old(chain)@,
        },
{
    if let Some(order) = field_order {
        if !str_eq(order.as_str(), "progressive") {
            chain.add_filter("yadif=0:-1:0", 0, FilterType::Video);
        }
    }
}

/// Adds a user-defined filter to the chain of the given type and track,
/// unless it is empty.
pub fn custom(filter: &str, chain: &mut Filters, nr: i32, filter_type: FilterType)
    ensures
        filter@.len() > 0 ==> final(chain)@ == filters_after(old(chain)@, filter@, nr as int, filter_type),
        filter@.len() == 0 ==> final(chain)@ == old(chain)@,
{
    if !filter.is_empty() {
        chain.add_filter(filter, nr, filter_type);
    }
}

/// The GPU scaling filter to the given frame size.
pub open spec fn scale_filter(width: int, height: int) -> Seq<char> {
    "scale_npp="@ + int_text(width) + ":"@ + int_text(height) + ":format=yuv420p"@
}

/// Adds the scaling filter to the video chain: to the target size where
/// the clip's size is unknown or differs from it, else to 1280x720.
pub fn scale(
    width: Option<i64>,
    height: Option<i64>,
    target_width: i64,
    target_height: i64,
    chain: &mut Filters,
)
    ensures
        final(chain)@ == filters_after(
            old(chain)@,
            match (width, height) {
                (Some(w), Some(h)) => if w != target_width || h != target_height {
                    scale_filter(target_width as int, target_height as int)
                } else {
                    "scale_npp=1280:720:format=yuv420p"@
                },
                _ => scale_filter(target_width as int, target_height as int),
            },
            0,
            FilterType::Video,
        ),
{
    let to_target = owned("scale_npp=").concat(i64_text(target_width).as_str()).concat(":").concat(
        i64_text(target_height).as_str(),
    ).concat(":format=yuv420p");
    match (width, height) {
        (Some(w), Some(h)) => {
            if w != target_width || h != target_height {
                chain.add_filter(to_target.as_str(), 0, FilterType::Video);
            } else {
                chain.add_filter("scale_npp=1280:720:format=yuv420p", 0, FilterType::Video);
            }
        },
        _ => {
            chain.add_filter(to_target.as_str(), 0, FilterType::Video);
        },
    }
}

/// The logo overlay filter for the logo file at `logo`.
pub open spec fn logo_filter(logo: Seq<char>) -> Seq<char> {
    "null[v];movie="@ + logo
        + "[l0];[l0]format=rgba,colorchannelmixer=aa=0.4,hwupload_cuda[l];[v][l]overlay_cuda=main_w-overlay_w-50:33"@
}

/// Adds the logo overlay to the video chain where a logo is asked for, its
/// file exists, and the clip is not an advertisement.
pub fn overlay(add_logo: bool, logo_is_file: bool, logo: &str, category: &str, chain: &mut Filters)
    ensures
        add_logo && logo_is_file && category@ != "advertisement"@ ==> final(chain)@ == filters_after(
            old(chain)@,
            logo_filter(logo@),
            0,
            FilterType::Video,
        ),
        !(add_logo && logo_is_file && category@ != "advertisement"@) ==> final(chain)@ == old(chain)@,
{
    if add_logo && logo_is_file && !str_eq(category, "advertisement") {
        let logo_chain = owned("null[v];movie=").concat(logo).concat(
            "[l0];[l0]format=rgba,colorchannelmixer=aa=0.4,hwupload_cuda[l];[v][l]overlay_cuda=main_w-overlay_w-50:33",
        );
        chain.add_filter(logo_chain.as_str(), 0, FilterType::Video);
    }
}

/// The silent audio source of the given duration (as text).
pub open spec fn silence_filter(duration: Seq<char>) -> Seq<char> {
    "aevalsrc=0:channel_layout=stereo:duration="@ + duration + ":sample_rate=48000"@
}

/// Adds a silent stereo source of the given duration (as text) to audio
/// track `nr`, for clips that lack that track.
pub fn add_audio(duration: &str, chain: &mut Filters, nr: i32)
    ensures
        final(chain)@ == filters_after(old(chain)@, silence_filter(duration@), nr as int, FilterType::Audio),
{
    let audio = owned("aevalsrc=0:channel_layout=stereo:duration=").concat(duration).concat(
        ":sample_rate=48000",
    );
    chain.add_filter(audio.as_str(), nr, FilterType::Audio);
}

/// Every filter that starts a new track, whatever its text, records the
/// track's output label: in the map of its type, and after a `-map` in the
/// output map. A filter for the chain's current track changes neither.
pub proof fn new_track_is_mapped(v: FiltersView, filter: Seq<char>, track: int, t: FilterType)
    ensures
        t == FilterType::Audio && v.audio_last != track ==> {
            &&& filters_after(v, filter, track, t).audio_map == v.audio_map.push(
                out_label(FilterType::Audio, track),
            )
            &&& filters_after(v, filter, track, t).output_map == v.output_map + seq![
                "-map"@,
                out_label(FilterType::Audio, track),
            ]
            &&& filters_after(v, filter, track, t).video_map == v.video_map
        },
        t == FilterType::Video && v.video_last != track ==> {
            &&& filters_after(v, filter, track, t).video_map == v.video_map.push(
                out_label(FilterType::Video, track),
            )
            &&& filters_after(v, filter, track, t).output_map == v.output_map + seq![
                "-map"@,
                out_label(FilterType::Video, track),
            ]
            &&& filters_after(v, filter, track, t).audio_map == v.audio_map
        },
        t == FilterType::Audio && v.audio_last == track ==> {
            &&& filters_after(v, filter, track, t).audio_map == v.audio_map
            &&& filters_after(v, filter, track, t).output_map == v.output_map
        },
        t == FilterType::Video && v.video_last == track ==> {
            &&& filters_after(v, filter, track, t).video_map == v.video_map
            &&& filters_after(v, filter, track, t).output_map == v.output_map
        },
{
}

/// Adding a `-map` entry keeps what the map held, in place, and then holds
/// the entry.
proof fn with_map_entry_holds(o: Seq<Seq<char>>, e: Seq<char>)
    ensures
        with_map_entry(o, e).contains(e),
        with_map_entry(o, e).len() >= o.len(),
        with_map_entry(o, e).subrange(0, o.len() as int) == o,
{
    if !o.contains(e) {
        let w = o + seq!["-map"@, e];
        assert(w[o.len() as int + 1] == e);
        assert(w.subrange(0, o.len() as int) =~= o);
    } else {
        assert(o.subrange(0, o.len() as int) =~= o);
    }
}

/// Mapping the first `n` audio streams keeps what the map held, in place,
/// and then holds each of those streams.
proof fn with_audio_streams_holds(o: Seq<Seq<char>>, position: int, n: int)
    ensures
        forall|i: int| 0 <= i < n ==> with_audio_streams(o, position, n).contains(
            #[trigger] audio_stream(position, i),
        ),
        with_audio_streams(o, position, n).len() >= o.len(),
        with_audio_streams(o, position, n).subrange(0, o.len() as int) == o,
    decreases n,
{
    if n <= 0 {
        assert(o.subrange(0, o.len() as int) =~= o);
    } else {
        let prev = with_audio_streams(o, position, n - 1);
        with_audio_streams_holds(o, position, n - 1);
        with_map_entry_holds(prev, audio_stream(position, n - 1));
        let next = with_audio_streams(o, position, n);
        assert(next == with_map_entry(prev, audio_stream(position, n - 1)));
        assert forall|i: int| 0 <= i < n implies next.contains(#[trigger] audio_stream(position, i)) by {
            if i < n - 1 {
                assert(prev.contains(audio_stream(position, i)));
                let k = choose|k: int| 0 <= k < prev.len() && prev[k] == audio_stream(position, i);
                assert(next.subrange(0, prev.len() as int)[k] == prev[k]);
                assert(next[k] == audio_stream(position, i));
            }
        }
        assert(next.subrange(0, o.len() as int) =~= next.subrange(0, prev.len() as int).subrange(
            0,
            o.len() as int,
        ));
    }
}

/// The `-map` arguments start with the output map and, where no audio chain
/// exists, map every configured audio track of the audio input, whether or
/// not a video chain exists; where no video chain exists they map the
/// input's video stream.
pub proof fn map_covers_unfiltered_streams(v: FiltersView)
    ensures
        v.audio_last == -1 ==> forall|i: int|
            0 <= i < v.audio_track_count ==> map_words(v).contains(
                #[trigger] audio_stream(v.audio_position, i),
            ),
        v.video_last == -1 ==> map_words(v).contains("0:v"@),
        map_words(v).subrange(0, v.output_map.len() as int) == v.output_map,
{
    let with_video = if v.video_last == -1 {
        with_map_entry(v.output_map, "0:v"@)
    } else {
        v.output_map
    };
    with_map_entry_holds(v.output_map, "0:v"@);
    if v.video_last != -1 {
        assert(v.output_map.subrange(0, v.output_map.len() as int) =~= v.output_map);
    }
    with_audio_streams_holds(with_video, v.audio_position, v.audio_track_count);
    if v.audio_last == -1 {
        let m = map_words(v);
        assert(m.subrange(0, v.output_map.len() as int) =~= m.subrange(
            0,
            with_video.len() as int,
        ).subrange(0, v.output_map.len() as int));
        if v.video_last == -1 {
            let k = choose|k: int| 0 <= k < with_video.len() && with_video[k] == "0:v"@;
            assert(m.subrange(0, with_video.len() as int)[k] == with_video[k]);
            assert(m[k] == "0:v"@);
        }
    }
}

/// A new graph pairs every label of its output map with `-map`, and adding
/// a filter keeps it so: each chain that is started adds its output label
/// both to its type's map and, after a `-map`, to the output map.
pub proof fn add_filter_keeps_map_pairs(
    v: FiltersView,
    filter: Seq<char>,
    track: int,
    t: FilterType,
    audio_track_count: int,
    audio_position: int,
)
    ensures
        map_pairs_ok(empty_filters(audio_track_count, audio_position)),
        map_pairs_ok(v) ==> map_pairs_ok(filters_after(v, filter, track, t)),
{
    if map_pairs_ok(v) {
        let w = filters_after(v, filter, track, t);
        let n = v.audio_map.len() + v.video_map.len();
        assert forall|i: int| 0 <= i < w.audio_map.len() + w.video_map.len() implies {
            &&& #[trigger] w.output_map[2 * i] == "-map"@
            &&& (w.audio_map.contains(w.output_map[2 * i + 1]) || w.video_map.contains(
                w.output_map[2 * i + 1],
            ))
        } by {
            if i < n {
                assert(w.output_map[2 * i] == v.output_map[2 * i]);
                assert(w.output_map[2 * i + 1] == v.output_map[2 * i + 1]);
                let e = v.output_map[2 * i + 1];
                if v.audio_map.contains(e) {
                    let k = choose|k: int| 0 <= k < v.audio_map.len() && v.audio_map[k] == e;
                    assert(w.audio_map[k] == e);
                } else {
                    let k = choose|k: int| 0 <= k < v.video_map.len() && v.video_map[k] == e;
                    assert(w.video_map[k] == e);
                }
            } else {
                let label = out_label(t, track);
                assert(i == n);
                assert(w.output_map == v.output_map + seq!["-map"@, label]);
                assert(w.output_map[2 * i] == "-map"@);
                assert(w.output_map[2 * i + 1] == label);
                match t {
                    FilterType::Audio => {
                        assert(w.audio_map[w.audio_map.len() - 1] == label);
                    },
                    FilterType::Video => {
                        assert(w.video_map[w.video_map.len() - 1] == label);
                    },
                }
            }
        }
    }
}

} // verus!
