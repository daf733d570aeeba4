//! The invocations of the external tools: what each operation announces, and
//! the arguments it hands to the tool.
//!
//! The library never sees a path. Where an argument is a path, the list holds
//! a place for it, and the caller puts the path there.

pub use crate::progress::ProgressInfo;
use crate::text::{lossy_text, push_decimal, utf8_lossy, decimal_digits};
use crate::text::chars_of;
use crate::words::{blank, is_blank};
use vstd::prelude::*;
use vstd::string::StringExecFns;

verus! {

/// One argument of an invocation.
#[derive(Clone, Debug)]
pub enum Arg {
    /// The argument is this text.
    Text(String),
    /// The argument is the path of the input with this number, from zero.
    Input(usize),
    /// The argument is the path of the output.
    Output,
}

/// An [`Arg`] as the contracts see it.
pub enum ArgView {
    Text(Seq<char>),
    Input(nat),
    Output,
}

impl View for Arg {
    type V = ArgView;

    open spec fn view(&self) -> ArgView {
        match self {
            Arg::Text(text) => ArgView::Text(text@),
            Arg::Input(index) => ArgView::Input(*index as nat),
            Arg::Output => ArgView::Output,
        }
    }
}

impl DeepView for Arg {
    type V = ArgView;

    open spec fn deep_view(&self) -> ArgView {
        self@
    }
}

/// Why an operation could not be carried out, apart from a failure of the
/// media tool itself.
#[derive(Debug, PartialEq, Eq, Structural, Clone, Copy)]
pub enum CommandError {
    /// There is nothing to combine.
    NoInputs,
    /// The probing tool could not be started to look for audio.
    ProbeNotStarted,
    /// The probing tool exited with failure.
    ProbeFailed,
    /// The probing tool could not be started to describe a file.
    InfoNotStarted,
}

impl CommandError {
    /// What the error says.
    pub open spec fn text(self) -> Seq<char> {
        match self {
            CommandError::NoInputs => "No input files provided"@,
            CommandError::ProbeNotStarted => "Failed to run ffprobe"@,
            CommandError::ProbeFailed => "ffprobe failed"@,
            CommandError::InfoNotStarted => "Failed to execute ffprobe"@,
        }
    }

    /// What the error says.
    pub fn message(&self) -> (message: String)
        ensures
            message@ == self.text(),
    {
        match self {
            CommandError::NoInputs => "No input files provided".to_owned(),
            CommandError::ProbeNotStarted => "Failed to run ffprobe".to_owned(),
            CommandError::ProbeFailed => "ffprobe failed".to_owned(),
            CommandError::InfoNotStarted => "Failed to execute ffprobe".to_owned(),
        }
    }
}

/// The operations.
#[derive(Debug, PartialEq, Eq, Structural, Clone, Copy)]
pub enum Operation {
    Combine,
    Compress,
    AddMusic,
    Timelapse,
    Info,
}

impl Operation {
    /// What the operation logs before anything else, if it logs anything.
    pub open spec fn announcement_text(self) -> Option<Seq<char>> {
        match self {
            Operation::Combine => Some("Combining videos using ffmpeg filter..."@),
            Operation::Compress => Some("Compressing video..."@),
            Operation::AddMusic => Some("Adding music..."@),
            Operation::Timelapse => Some("Creating timelapse..."@),
            Operation::Info => None,
        }
    }

    /// What the operation logs before anything else, if it logs anything.
    pub fn announcement(self) -> (event: Option<ProgressInfo>)
        ensures
            match self.announcement_text() {
                Some(text) => event matches Some(ProgressInfo::Log(line)) && line@ == text,
                None => event is None,
            },
    {
        match self {
            Operation::Combine => Some(
                ProgressInfo::Log("Combining videos using ffmpeg filter...".to_owned()),
            ),
            Operation::Compress => Some(ProgressInfo::Log("Compressing video...".to_owned())),
            Operation::AddMusic => Some(ProgressInfo::Log("Adding music...".to_owned())),
            Operation::Timelapse => Some(ProgressInfo::Log("Creating timelapse...".to_owned())),
            Operation::Info => None,
        }
    }
}

/// An argument that is a text.
pub open spec fn text(s: Seq<char>) -> ArgView {
    ArgView::Text(s)
}

/// The arguments with which the probing tool lists the audio streams of
/// input 0.
pub open spec fn probe_args() -> Seq<ArgView> {
    seq![
        text("-v"@),
        text("error"@),
        text("-select_streams"@),
        text("a"@),
        text("-show_entries"@),
        text("stream=codec_type"@),
        text("-of"@),
        text("csv=p=0"@),
        ArgView::Input(0),
    ]
}

/// `-i` and the path, for each of the first `count` inputs.
pub open spec fn input_args(count: nat) -> Seq<ArgView>
    decreases count,
{
    if count == 0 {
        Seq::empty()
    } else {
        input_args((count - 1) as nat).push(text("-i"@)).push(ArgView::Input((count - 1) as nat))
    }
}

/// The pads of the first `count` inputs: `[i:v]` for each, followed by `[i:a]`
/// where there is audio.
pub open spec fn input_pads(count: nat, has_audio: bool) -> Seq<char>
    decreases count,
{
    if count == 0 {
        Seq::empty()
    } else {
        let index = decimal_digits((count - 1) as nat);
        let video = input_pads((count - 1) as nat, has_audio) + "["@ + index + ":v]"@;
        if has_audio {
            video + "["@ + index + ":a]"@
        } else {
            video
        }
    }
}

/// The filter that joins `count` inputs end to end.
pub open spec fn combine_filter(count: nat, has_audio: bool) -> Seq<char> {
    input_pads(count, has_audio) + "concat=n="@ + decimal_digits(count) + if has_audio {
        ":v=1:a=1[outv][outa]"@
    } else {
        ":v=1:a=0[outv]"@
    }
}

/// The arguments that join `count` inputs end to end.
pub open spec fn combine_args(count: nat, has_audio: bool) -> Seq<ArgView> {
    input_args(count) + seq![
        text("-filter_complex"@),
        text(combine_filter(count, has_audio)),
        text("-map"@),
        text("[outv]"@),
    ] + if has_audio {
        seq![text("-map"@), text("[outa]"@)]
    } else {
        Seq::empty()
    } + seq![text("-y"@), ArgView::Output]
}

/// The arguments that compress input 0 at the given rate factor.
pub open spec fn compress_args(crf: u8) -> Seq<ArgView> {
    seq![
        text("-i"@),
        ArgView::Input(0),
        text("-vcodec"@),
        text("libx264"@),
        text("-crf"@),
        text(decimal_digits(crf as nat)),
        text("-y"@),
        ArgView::Output,
    ]
}

/// The filter that mixes the audio of input 0, at the given volume, with that
/// of input 1.
pub open spec fn mix_filter(reduce_original: Seq<char>) -> Seq<char> {
    "[0:a]volume="@ + reduce_original
        + "[a0];[1:a]volume=1.0[a1];[a0][a1]amix=inputs=2:duration=first[out]"@
}

/// The arguments that put the audio of input 1 to the video of input 0:
/// mixed with its own audio where it has some, in its place otherwise.
pub open spec fn music_args(has_audio: bool, reduce_original: Seq<char>) -> Seq<ArgView> {
    if has_audio {
        seq![
            text("-i"@),
            ArgView::Input(0),
            text("-i"@),
            ArgView::Input(1),
            text("-filter_complex"@),
            text(mix_filter(reduce_original)),
            text("-map"@),
            text("0:v"@),
            text("-map"@),
            text("[out]"@),
            text("-y"@),
            ArgView::Output,
        ]
    } else {
        seq![
            text("-i"@),
            ArgView::Input(0),
            text("-i"@),
            ArgView::Input(1),
            text("-map"@),
            text("0:v"@),
            text("-map"@),
            text("1:a"@),
            text("-shortest"@),
            text("-y"@),
            ArgView::Output,
        ]
    }
}

/// The arguments that speed input 0 up by the factor written in `speed`,
/// without audio.
pub open spec fn timelapse_args(speed: Seq<char>) -> Seq<ArgView> {
    seq![
        text("-i"@),
        ArgView::Input(0),
        text("-filter:v"@),
        text("setpts=PTS/"@ + speed),
        text("-an"@),
        text("-y"@),
        ArgView::Output,
    ]
}

/// The arguments with which the probing tool describes input 0.
pub open spec fn info_args() -> Seq<ArgView> {
    seq![text("-hide_banner"@), text("-i"@), ArgView::Input(0)]
}

/// Whether the probing tool found audio: it did where it listed anything but
/// white space.
pub open spec fn audio_found(success: bool, stdout: Seq<u8>) -> Result<bool, CommandError> {
    if success {
        Ok(!is_blank(utf8_lossy(stdout)))
    } else {
        Err(CommandError::ProbeFailed)
    }
}

fn word(s: &str) -> (arg: Arg)
    ensures
        arg@ == text(s@),
{
    Arg::Text(s.to_owned())
}

/// The arguments with which the probing tool lists the audio streams of
/// input 0.
pub fn probe_has_audio() -> (args: Vec<Arg>)
    ensures
        args.deep_view() == probe_args(),
{
    let mut args: Vec<Arg> = Vec::new();
    args.push(word("-v"));
    args.push(word("error"));
    args.push(word("-select_streams"));
    args.push(word("a"));
    args.push(word("-show_entries"));
    args.push(word("stream=codec_type"));
    args.push(word("-of"));
    args.push(word("csv=p=0"));
    args.push(Arg::Input(0));
    assert(args.deep_view() =~= probe_args());
    args
}

/// What the probing tool found: `success` says whether it exited with
/// success, `stdout` is what it wrote.
pub fn has_audio(success: bool, stdout: &[u8]) -> (found: Result<bool, CommandError>)
    ensures
        found == audio_found(success, stdout@),
{
    if !success {
        return Err(CommandError::ProbeFailed);
    }
    let listing = lossy_text(stdout);
    let chars = chars_of(listing.as_str());
    Ok(!blank(chars.as_slice()))
}

/// The filter that joins `count` inputs end to end.
pub fn build_combine_filter(count: usize, has_audio: bool) -> (filter: String)
    ensures
        filter@ == combine_filter(count as nat, has_audio),
{
    let mut filter = String::new();
    let mut i: usize = 0;
    while i < count
        invariant
            i <= count,
            filter@ == input_pads(i as nat, has_audio),
        decreases count - i,
    {
        let ghost before = filter@;
        filter.append("[");
        push_decimal(&mut filter, i);
        filter.append(":v]");
        if has_audio {
            filter.append("[");
            push_decimal(&mut filter, i);
            filter.append(":a]");
        }
        i = i + 1;
        assert(filter@ =~= input_pads(i as nat, has_audio));
    }
    filter.append("concat=n=");
    push_decimal(&mut filter, count);
    if has_audio {
        filter.append(":v=1:a=1[outv][outa]");
    } else {
        filter.append(":v=1:a=0[outv]");
    }
    assert(filter@ =~= combine_filter(count as nat, has_audio));
    filter
}

/// The arguments that join `count` inputs end to end, of which the first has
/// audio or not. Without inputs there is nothing to join.
pub fn combine_videos(count: usize, has_audio: bool) -> (args: Result<Vec<Arg>, CommandError>)
    ensures
        count == 0 <==> args is Err,
        args matches Err(e) ==> e == CommandError::NoInputs,
        args matches Ok(list) ==> list.deep_view() == combine_args(count as nat, has_audio),
{
    if count == 0 {
        return Err(CommandError::NoInputs);
    }
    let mut list: Vec<Arg> = Vec::new();
    let mut i: usize = 0;
    assert(list.deep_view() =~= input_args(0));
    while i < count
        invariant
            i <= count,
            list.deep_view() == input_args(i as nat),
        decreases count - i,
    {
        list.push(word("-i"));
        list.push(Arg::Input(i));
        i = i + 1;
        assert(list.deep_view() =~= input_args(i as nat));
    }
    list.push(word("-filter_complex"));
    list.push(Arg::Text(build_combine_filter(count, has_audio)));
    list.push(word("-map"));
    list.push(word("[outv]"));
    if has_audio {
        list.push(word("-map"));
        list.push(word("[outa]"));
    }
    list.push(word("-y"));
    list.push(Arg::Output);
    assert(list.deep_view() =~= combine_args(count as nat, has_audio));
    Ok(list)
}

/// The arguments that compress input 0 at the given rate factor.
pub fn compress_video(crf: u8) -> (args: Vec<Arg>)
    ensures
        args.deep_view() == compress_args(crf),
{
    let mut rate = String::new();
    push_decimal(&mut rate, crf as usize);
    assert(rate@ =~= decimal_digits(crf as nat));
    let mut args: Vec<Arg> = Vec::new();
    args.push(word("-i"));
    args.push(Arg::Input(0));
    args.push(word("-vcodec"));
    args.push(word("libx264"));
    args.push(word("-crf"));
    args.push(Arg::Text(rate));
    args.push(word("-y"));
    args.push(Arg::Output);
    assert(args.deep_view() =~= compress_args(crf));
    args
}

/// The arguments that put the audio of input 1 to the video of input 0.
/// `has_audio` says whether input 0 has audio of its own; `reduce_original` is
/// the volume at which that audio is kept.
pub fn add_music(has_audio: bool, reduce_original: &str) -> (args: Vec<Arg>)
    ensures
        args.deep_view() == music_args(has_audio, reduce_original@),
{
    let mut args: Vec<Arg> = Vec::new();
    args.push(word("-i"));
    args.push(Arg::Input(0));
    args.push(word("-i"));
    args.push(Arg::Input(1));
    if has_audio {
        let mut filter = "[0:a]volume=".to_owned();
        filter.append(reduce_original);
        filter.append("[a0];[1:a]volume=1.0[a1];[a0][a1]amix=inputs=2:duration=first[out]");
        args.push(word("-filter_complex"));
        args.push(Arg::Text(filter));
        args.push(word("-map"));
        args.push(word("0:v"));
        args.push(word("-map"));
        args.push(word("[out]"));
    } else {
        args.push(word("-map"));
        args.push(word("0:v"));
        args.push(word("-map"));
        args.push(word("1:a"));
        args.push(word("-shortest"));
    }
    args.push(word("-y"));
    args.push(Arg::Output);
    assert(args.deep_view() =~= music_args(has_audio, reduce_original@));
    args
}

/// The arguments that speed input 0 up by the factor written in `speed`,
/// without audio.
pub fn timelapse(speed: &str) -> (args: Vec<Arg>)
    ensures
        args.deep_view() == timelapse_args(speed@),
{
    let mut filter = "setpts=PTS/".to_owned();
    filter.append(speed);
    let mut args: Vec<Arg> = Vec::new();
    args.push(word("-i"));
    args.push(Arg::Input(0));
    args.push(word("-filter:v"));
    args.push(Arg::Text(filter));
    args.push(word("-an"));
    args.push(word("-y"));
    args.push(Arg::Output);
    assert(args.deep_view() =~= timelapse_args(speed@));
    args
}

/// The arguments with which the probing tool describes input 0.
pub fn get_info() -> (args: Vec<Arg>)
    ensures
        args.deep_view() == info_args(),
{
    let mut args: Vec<Arg> = Vec::new();
    args.push(word("-hide_banner"));
    args.push(word("-i"));
    args.push(Arg::Input(0));
    assert(args.deep_view() =~= info_args());
    args
}

/// What the description of a file comes to: the tool's diagnostic output is
/// logged as one entry, whether the tool succeeded or not, and its failure is
/// the operation's.
pub fn describe(success: bool, stderr: &[u8]) -> (report: (ProgressInfo, Result<(), CommandError>))
    ensures
        report.0@ == crate::progress::ProgressView::Log(utf8_lossy(stderr@)),
        success <==> report.1 is Ok,
        report.1 matches Err(e) ==> e == CommandError::ProbeFailed,
{
    let entry = ProgressInfo::Log(lossy_text(stderr));
    if success {
        (entry, Ok(()))
    } else {
        (entry, Err(CommandError::ProbeFailed))
    }
}

} // verus!
