//! The run that the form in view asks for.

use crate::text::{chars_of, string_of};
use crate::timestamp::{decimal, digits_only, parse_count_in};
use crate::tui::app::{ActiveTab, App, AppView};
use crate::words::{split_words, words};
use vstd::prelude::*;

verus! {

/// The rate factor that is used where the form holds none.
pub const DEFAULT_CRF: u8 = 23;

/// One run of the media tool, with what the form held when it was asked for.
#[derive(Clone, Debug)]
pub enum Job {
    Combine { inputs: Vec<String>, output: String },
    Compress { input: String, output: String, crf: u8 },
    AddMusic { video: String, audio: String, output: String, reduce: String },
    /// `speed` is the text of the speed factor, as it stood in the form.
    Timelapse { input: String, output: String, speed: String },
    Info { input: String },
}

/// A [`Job`] as the contracts see it.
pub enum JobView {
    Combine { inputs: Seq<Seq<char>>, output: Seq<char> },
    Compress { input: Seq<char>, output: Seq<char>, crf: u8 },
    AddMusic { video: Seq<char>, audio: Seq<char>, output: Seq<char>, reduce: Seq<char> },
    Timelapse { input: Seq<char>, output: Seq<char>, speed: Seq<char> },
    Info { input: Seq<char> },
}

impl View for Job {
    type V = JobView;

    open spec fn view(&self) -> JobView {
        match self {
            Job::Combine { inputs, output } => JobView::Combine {
                inputs: inputs.deep_view(),
                output: output@,
            },
            Job::Compress { input, output, crf } => JobView::Compress {
                input: input@,
                output: output@,
                crf: *crf,
            },
            Job::AddMusic { video, audio, output, reduce } => JobView::AddMusic {
                video: video@,
                audio: audio@,
                output: output@,
                reduce: reduce@,
            },
            Job::Timelapse { input, output, speed } => JobView::Timelapse {
                input: input@,
                output: output@,
                speed: speed@,
            },
            Job::Info { input } => JobView::Info { input: input@ },
        }
    }
}

/// The digits of a number that may be written with a `+` before it.
pub open spec fn unsigned_digits(text: Seq<char>) -> Seq<char> {
    if text.len() > 0 && text[0] == '+' {
        text.skip(1)
    } else {
        text
    }
}

/// The number from 0 to 255 that `text` is: digits, with or without a `+`
/// before them, and nothing else.
pub open spec fn small_number(text: Seq<char>) -> Option<u8> {
    let digits = unsigned_digits(text);
    if digits.len() > 0 && digits_only(digits) && decimal(digits) <= u8::MAX {
        Some(decimal(digits) as u8)
    } else {
        None
    }
}

/// The rate factor that a form holds: the number written in it, or the
/// default where it holds no number from 0 to 255.
pub open spec fn crf_of(text: Seq<char>) -> u8 {
    match small_number(text) {
        Some(crf) => crf,
        None => DEFAULT_CRF,
    }
}

impl AppView {
    /// The run that the form in view asks for.
    pub open spec fn job(self) -> JobView {
        match self.active_tab {
            ActiveTab::Combine => JobView::Combine {
                inputs: words(self.combine_inputs.value),
                output: self.combine_output.value,
            },
            ActiveTab::Compress => JobView::Compress {
                input: self.compress_input.value,
                output: self.compress_output.value,
                crf: crf_of(self.compress_crf.value),
            },
            ActiveTab::AddMusic => JobView::AddMusic {
                video: self.music_video.value,
                audio: self.music_audio.value,
                output: self.music_output.value,
                reduce: self.music_reduce.value,
            },
            ActiveTab::Timelapse => JobView::Timelapse {
                input: self.time_input.value,
                output: self.time_output.value,
                speed: self.time_speed.value,
            },
            ActiveTab::Info => JobView::Info { input: self.info_input.value },
        }
    }
}

/// The number from 0 to 255 that `text` is, if it is one.
pub fn parse_small_number(text: &[char]) -> (number: Option<u8>)
    ensures
        number == small_number(text@),
{
    let from: usize = if text.len() > 0 && text[0] == '+' {
        1
    } else {
        0
    };
    assert(text@.subrange(from as int, text@.len() as int) =~= unsigned_digits(text@));
    match parse_count_in(text, from, text.len()) {
        Some(value) => if value <= 255 {
            Some(value as u8)
        } else {
            None
        },
        None => None,
    }
}

/// The strings of some words.
pub fn strings_of(list: &Vec<Vec<char>>) -> (strings: Vec<String>)
    ensures
        strings.deep_view() == list.deep_view(),
{
    let mut strings: Vec<String> = Vec::new();
    let mut i: usize = 0;
    while i < list.len()
        invariant
            i <= list.len(),
            strings.len() == i,
            forall|k: int| 0 <= k < i ==> (#[trigger] strings@[k])@ == list@[k]@,
        decreases list.len() - i,
    {
        strings.push(string_of(list[i].as_slice()));
        i = i + 1;
    }
    assert(strings.deep_view() =~= list.deep_view()) by {
        assert forall|k: int| 0 <= k < list.len() implies strings.deep_view()[k]
            == list.deep_view()[k] by {
            assert(strings@[k]@ == list@[k]@);
            assert(list@[k].deep_view() =~= list@[k]@);
        }
    }
    strings
}

impl App {
    /// The run that the form in view asks for.
    pub fn job(&self) -> (job: Job)
        ensures
            job@ == self@.job(),
    {
        match self.active_tab {
            ActiveTab::Combine => {
                let chars = chars_of(self.combine_inputs.value.as_str());
                let list = split_words(chars.as_slice());
                Job::Combine {
                    inputs: strings_of(&list),
                    output: self.combine_output.value.clone(),
                }
            },
            ActiveTab::Compress => {
                let chars = chars_of(self.compress_crf.value.as_str());
                let crf: u8 = match parse_small_number(chars.as_slice()) {
                    Some(crf) => crf,
                    None => DEFAULT_CRF,
                };
                Job::Compress {
                    input: self.compress_input.value.clone(),
                    output: self.compress_output.value.clone(),
                    crf,
                }
            },
            ActiveTab::AddMusic => Job::AddMusic {
                video: self.music_video.value.clone(),
                audio: self.music_audio.value.clone(),
                output: self.music_output.value.clone(),
                reduce: self.music_reduce.value.clone(),
            },
            ActiveTab::Timelapse => Job::Timelapse {
                input: self.time_input.value.clone(),
                output: self.time_output.value.clone(),
                speed: self.time_speed.value.clone(),
            },
            ActiveTab::Info => Job::Info { input: self.info_input.value.clone() },
        }
    }
}

} // verus!
