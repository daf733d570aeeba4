//! The front-end as it starts.

use crate::fraction::{Fraction, Ratio};
use crate::tui::app::{ActiveTab, App, AppView, FieldView, InputField};
use vstd::prelude::*;

verus! {

/// A field with its label and what it holds at the start.
pub open spec fn field(label: Seq<char>, value: Seq<char>) -> FieldView {
    FieldView { value, label }
}

impl AppView {
    /// The front-end with nothing in it: not running, no labels, no text.
    pub open spec fn blank() -> AppView {
        let empty = field(Seq::empty(), Seq::empty());
        AppView {
            active_tab: ActiveTab::Combine,
            running: false,
            combine_inputs: empty,
            combine_output: empty,
            compress_input: empty,
            compress_output: empty,
            compress_crf: empty,
            music_video: empty,
            music_audio: empty,
            music_output: empty,
            music_reduce: empty,
            time_input: empty,
            time_output: empty,
            time_speed: empty,
            info_input: empty,
            message: Seq::empty(),
            selected_field: 0,
            progress: Ratio::zero(),
            is_processing: false,
            is_complete: false,
            logs: Seq::empty(),
        }
    }

    /// The front-end at its start: running, the first tab in view, every field
    /// labelled, and the rate factor, the volume and the speed at their
    /// defaults.
    pub open spec fn initial() -> AppView {
        AppView {
            active_tab: ActiveTab::Combine,
            running: true,
            combine_inputs: field("Inputs (space separated)"@, Seq::empty()),
            combine_output: field("Output Path"@, Seq::empty()),
            compress_input: field("Input Video"@, Seq::empty()),
            compress_output: field("Output Path"@, Seq::empty()),
            compress_crf: field("CRF (0-51, Default: 23)"@, "23"@),
            music_video: field("Video Path"@, Seq::empty()),
            music_audio: field("Audio Path"@, Seq::empty()),
            music_output: field("Output Path"@, Seq::empty()),
            music_reduce: field("Original Volume (0.0-1.0)"@, "1.0"@),
            time_input: field("Input Video"@, Seq::empty()),
            time_output: field("Output Path"@, Seq::empty()),
            time_speed: field("Speed Factor"@, "10.0"@),
            info_input: field("Video Path"@, Seq::empty()),
            message: Seq::empty(),
            selected_field: 0,
            progress: Ratio::zero(),
            is_processing: false,
            is_complete: false,
            logs: Seq::empty(),
        }
    }
}

fn labelled(label: &str) -> (f: InputField)
    ensures
        f@ == field(label@, Seq::empty()),
{
    InputField { label: label.to_owned(), value: String::new() }
}

fn preset(label: &str, value: &str) -> (f: InputField)
    ensures
        f@ == field(label@, value@),
{
    InputField { label: label.to_owned(), value: value.to_owned() }
}

impl Default for App {
    fn default() -> (app: App)
        ensures
            app@ == AppView::blank(),
    {
        let app = App {
            active_tab: ActiveTab::Combine,
            running: false,
            combine_inputs: InputField::default(),
            combine_output: InputField::default(),
            compress_input: InputField::default(),
            compress_output: InputField::default(),
            compress_crf: InputField::default(),
            music_video: InputField::default(),
            music_audio: InputField::default(),
            music_output: InputField::default(),
            music_reduce: InputField::default(),
            time_input: InputField::default(),
            time_output: InputField::default(),
            time_speed: InputField::default(),
            info_input: InputField::default(),
            message: String::new(),
            selected_field: 0,
            progress: Fraction::zero(),
            is_processing: false,
            is_complete: false,
            logs: Vec::new(),
        };
        assert(app.logs.deep_view() =~= Seq::<Seq<char>>::empty());
        app
    }
}

impl App {
    /// The front-end at its start.
    pub fn new() -> (app: App)
        ensures
            app@ == AppView::initial(),
    {
        let app = App {
            running: true,
            active_tab: ActiveTab::Combine,
            combine_inputs: labelled("Inputs (space separated)"),
            combine_output: labelled("Output Path"),
            compress_input: labelled("Input Video"),
            compress_output: labelled("Output Path"),
            compress_crf: preset("CRF (0-51, Default: 23)", "23"),
            music_video: labelled("Video Path"),
            music_audio: labelled("Audio Path"),
            music_output: labelled("Output Path"),
            music_reduce: preset("Original Volume (0.0-1.0)", "1.0"),
            time_input: labelled("Input Video"),
            time_output: labelled("Output Path"),
            time_speed: preset("Speed Factor", "10.0"),
            info_input: labelled("Video Path"),
            message: String::new(),
            selected_field: 0,
            progress: Fraction::zero(),
            is_processing: false,
            is_complete: false,
            logs: Vec::new(),
        };
        assert(app.logs.deep_view() =~= Seq::<Seq<char>>::empty());
        app
    }
}

} // verus!
