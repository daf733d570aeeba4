//! The state of the interactive front-end: the tab in view, the text fields of
//! each tab, and what is shown of the run in progress.

use crate::fraction::{Fraction, Ratio};
use crate::text::{pop_char, push_char};
use vstd::prelude::*;

verus! {

/// The operation whose form is in view.
#[derive(Debug, PartialEq, Eq, Structural, Clone, Copy)]
pub enum ActiveTab {
    Combine,
    Compress,
    AddMusic,
    Timelapse,
    Info,
}

impl Default for ActiveTab {
    fn default() -> (tab: ActiveTab)
        ensures
            tab == ActiveTab::Combine,
    {
        ActiveTab::Combine
    }
}

impl ActiveTab {
    /// The tab to the right, going round from the last to the first.
    pub open spec fn following(self) -> ActiveTab {
        match self {
            ActiveTab::Combine => ActiveTab::Compress,
            ActiveTab::Compress => ActiveTab::AddMusic,
            ActiveTab::AddMusic => ActiveTab::Timelapse,
            ActiveTab::Timelapse => ActiveTab::Info,
            ActiveTab::Info => ActiveTab::Combine,
        }
    }

    /// The tab to the left, going round from the first to the last.
    pub open spec fn preceding(self) -> ActiveTab {
        match self {
            ActiveTab::Combine => ActiveTab::Info,
            ActiveTab::Compress => ActiveTab::Combine,
            ActiveTab::AddMusic => ActiveTab::Compress,
            ActiveTab::Timelapse => ActiveTab::AddMusic,
            ActiveTab::Info => ActiveTab::Timelapse,
        }
    }

    /// How many text fields the tab's form has.
    pub open spec fn field_count(self) -> nat {
        match self {
            ActiveTab::Combine => 2,
            ActiveTab::Compress => 3,
            ActiveTab::AddMusic => 4,
            ActiveTab::Timelapse => 3,
            ActiveTab::Info => 1,
        }
    }

    /// Where the tab stands in the row of tabs, from the left.
    pub open spec fn position(self) -> nat {
        match self {
            ActiveTab::Combine => 0,
            ActiveTab::Compress => 1,
            ActiveTab::AddMusic => 2,
            ActiveTab::Timelapse => 3,
            ActiveTab::Info => 4,
        }
    }

    /// Where the tab stands in the row of tabs, from the left.
    pub fn index(self) -> (i: usize)
        ensures
            i == self.position(),
    {
        match self {
            ActiveTab::Combine => 0,
            ActiveTab::Compress => 1,
            ActiveTab::AddMusic => 2,
            ActiveTab::Timelapse => 3,
            ActiveTab::Info => 4,
        }
    }
}

/// One text field of a form.
#[derive(Debug, Clone)]
pub struct InputField {
    pub value: String,
    pub label: String,
}

/// An [`InputField`] as the contracts see it.
pub struct FieldView {
    pub value: Seq<char>,
    pub label: Seq<char>,
}

impl View for InputField {
    type V = FieldView;

    open spec fn view(&self) -> FieldView {
        FieldView { value: self.value@, label: self.label@ }
    }
}

impl Default for InputField {
    fn default() -> (field: InputField)
        ensures
            field@ == (FieldView { value: Seq::empty(), label: Seq::empty() }),
    {
        InputField { value: String::new(), label: String::new() }
    }
}

/// The text fields of all the forms.
#[derive(Debug, PartialEq, Eq, Structural, Clone, Copy)]
pub enum Slot {
    CombineInputs,
    CombineOutput,
    CompressInput,
    CompressOutput,
    CompressCrf,
    MusicVideo,
    MusicAudio,
    MusicOutput,
    MusicReduce,
    TimeInput,
    TimeOutput,
    TimeSpeed,
    InfoInput,
}

/// The field that is being edited: the one selected in the tab in view, and
/// the tab's first field where the selection lies beyond its fields.
pub open spec fn slot_of(tab: ActiveTab, selected: usize) -> Slot {
    match tab {
        ActiveTab::Combine => if selected == 1 {
            Slot::CombineOutput
        } else {
            Slot::CombineInputs
        },
        ActiveTab::Compress => if selected == 1 {
            Slot::CompressOutput
        } else if selected == 2 {
            Slot::CompressCrf
        } else {
            Slot::CompressInput
        },
        ActiveTab::AddMusic => if selected == 1 {
            Slot::MusicAudio
        } else if selected == 2 {
            Slot::MusicOutput
        } else if selected == 3 {
            Slot::MusicReduce
        } else {
            Slot::MusicVideo
        },
        ActiveTab::Timelapse => if selected == 1 {
            Slot::TimeOutput
        } else if selected == 2 {
            Slot::TimeSpeed
        } else {
            Slot::TimeInput
        },
        ActiveTab::Info => Slot::InfoInput,
    }
}

/// The state of the front-end.
#[derive(Debug)]
pub struct App {
    pub active_tab: ActiveTab,
    pub running: bool,
    pub combine_inputs: InputField,
    pub combine_output: InputField,
    pub compress_input: InputField,
    pub compress_output: InputField,
    pub compress_crf: InputField,
    pub music_video: InputField,
    pub music_audio: InputField,
    pub music_output: InputField,
    pub music_reduce: InputField,
    pub time_input: InputField,
    pub time_output: InputField,
    pub time_speed: InputField,
    pub info_input: InputField,
    pub message: String,
    pub selected_field: usize,
    pub progress: Fraction,
    pub is_processing: bool,
    pub is_complete: bool,
    pub logs: Vec<String>,
}

/// An [`App`] as the contracts see it.
pub struct AppView {
    pub active_tab: ActiveTab,
    pub running: bool,
    pub combine_inputs: FieldView,
    pub combine_output: FieldView,
    pub compress_input: FieldView,
    pub compress_output: FieldView,
    pub compress_crf: FieldView,
    pub music_video: FieldView,
    pub music_audio: FieldView,
    pub music_output: FieldView,
    pub music_reduce: FieldView,
    pub time_input: FieldView,
    pub time_output: FieldView,
    pub time_speed: FieldView,
    pub info_input: FieldView,
    pub message: Seq<char>,
    pub selected_field: usize,
    pub progress: Ratio,
    pub is_processing: bool,
    pub is_complete: bool,
    pub logs: Seq<Seq<char>>,
}

impl View for App {
    type V = AppView;

    open spec fn view(&self) -> AppView {
        AppView {
            active_tab: self.active_tab,
            running: self.running,
            combine_inputs: self.combine_inputs@,
            combine_output: self.combine_output@,
            compress_input: self.compress_input@,
            compress_output: self.compress_output@,
            compress_crf: self.compress_crf@,
            music_video: self.music_video@,
            music_audio: self.music_audio@,
            music_output: self.music_output@,
            music_reduce: self.music_reduce@,
            time_input: self.time_input@,
            time_output: self.time_output@,
            time_speed: self.time_speed@,
            info_input: self.info_input@,
            message: self.message@,
            selected_field: self.selected_field,
            progress: self.progress@,
            is_processing: self.is_processing,
            is_complete: self.is_complete,
            logs: self.logs.deep_view(),
        }
    }
}

impl AppView {
    /// The field that stands in `slot`.
    pub open spec fn field(self, slot: Slot) -> FieldView {
        match slot {
            Slot::CombineInputs => self.combine_inputs,
            Slot::CombineOutput => self.combine_output,
            Slot::CompressInput => self.compress_input,
            Slot::CompressOutput => self.compress_output,
            Slot::CompressCrf => self.compress_crf,
            Slot::MusicVideo => self.music_video,
            Slot::MusicAudio => self.music_audio,
            Slot::MusicOutput => self.music_output,
            Slot::MusicReduce => self.music_reduce,
            Slot::TimeInput => self.time_input,
            Slot::TimeOutput => self.time_output,
            Slot::TimeSpeed => self.time_speed,
            Slot::InfoInput => self.info_input,
        }
    }

    /// The state with `field` in `slot` and all else as it is.
    pub open spec fn with_field(self, slot: Slot, field: FieldView) -> AppView {
        match slot {
            Slot::CombineInputs => AppView { combine_inputs: field, ..self },
            Slot::CombineOutput => AppView { combine_output: field, ..self },
            Slot::CompressInput => AppView { compress_input: field, ..self },
            Slot::CompressOutput => AppView { compress_output: field, ..self },
            Slot::CompressCrf => AppView { compress_crf: field, ..self },
            Slot::MusicVideo => AppView { music_video: field, ..self },
            Slot::MusicAudio => AppView { music_audio: field, ..self },
            Slot::MusicOutput => AppView { music_output: field, ..self },
            Slot::MusicReduce => AppView { music_reduce: field, ..self },
            Slot::TimeInput => AppView { time_input: field, ..self },
            Slot::TimeOutput => AppView { time_output: field, ..self },
            Slot::TimeSpeed => AppView { time_speed: field, ..self },
            Slot::InfoInput => AppView { info_input: field, ..self },
        }
    }

    /// The slot of the field that is being edited.
    pub open spec fn active_slot(self) -> Slot {
        slot_of(self.active_tab, self.selected_field)
    }

    /// The field that is being edited.
    pub open spec fn active_field(self) -> FieldView {
        self.field(self.active_slot())
    }

    /// The state with `value` in the field that is being edited.
    pub open spec fn with_value(self, value: Seq<char>) -> AppView {
        self.with_field(
            self.active_slot(),
            FieldView { value: value, label: self.active_field().label },
        )
    }

    /// The tab on the right in view, its first field selected, no message.
    pub open spec fn next_tab(self) -> AppView {
        AppView {
            active_tab: self.active_tab.following(),
            selected_field: 0,
            message: Seq::empty(),
            ..self
        }
    }

    /// The tab on the left in view, its first field selected, no message.
    pub open spec fn prev_tab(self) -> AppView {
        AppView {
            active_tab: self.active_tab.preceding(),
            selected_field: 0,
            message: Seq::empty(),
            ..self
        }
    }

    /// The field below selected, or the first after the last.
    pub open spec fn next_field(self) -> AppView {
        AppView {
            selected_field: if self.selected_field + 1 < self.active_tab.field_count() {
                (self.selected_field + 1) as usize
            } else {
                0
            },
            ..self
        }
    }

    /// The field above selected, or the last before the first.
    pub open spec fn prev_field(self) -> AppView {
        AppView {
            selected_field: if self.selected_field > 0 {
                (self.selected_field - 1) as usize
            } else {
                (self.active_tab.field_count() - 1) as usize
            },
            ..self
        }
    }

    /// `c` typed at the end of the field that is being edited.
    pub open spec fn input(self, c: char) -> AppView {
        self.with_value(self.active_field().value.push(c))
    }

    /// The last character of the field that is being edited removed, if it
    /// has one.
    pub open spec fn backspace(self) -> AppView {
        let value = self.active_field().value;
        self.with_value(
            if value.len() > 0 {
                value.drop_last()
            } else {
                value
            },
        )
    }
}

impl App {
    /// Goes to the tab on the right, selects its first field and clears the
    /// message.
    pub fn next_tab(&mut self)
        ensures
            final(self)@ == old(self)@.next_tab(),
    {
        self.active_tab =
        match self.active_tab {
            ActiveTab::Combine => ActiveTab::Compress,
            ActiveTab::Compress => ActiveTab::AddMusic,
            ActiveTab::AddMusic => ActiveTab::Timelapse,
            ActiveTab::Timelapse => ActiveTab::Info,
            ActiveTab::Info => ActiveTab::Combine,
        };
        self.selected_field = 0;
        self.message = String::new();
    }

    /// Goes to the tab on the left, selects its first field and clears the
    /// message.
    pub fn prev_tab(&mut self)
        ensures
            final(self)@ == old(self)@.prev_tab(),
    {
        self.active_tab =
        match self.active_tab {
            ActiveTab::Combine => ActiveTab::Info,
            ActiveTab::Compress => ActiveTab::Combine,
            ActiveTab::AddMusic => ActiveTab::Compress,
            ActiveTab::Timelapse => ActiveTab::AddMusic,
            ActiveTab::Info => ActiveTab::Timelapse,
        };
        self.selected_field = 0;
        self.message = String::new();
    }

    /// How many text fields the form in view has.
    pub fn get_field_count(&self) -> (count: usize)
        ensures
            count == self.active_tab.field_count(),
    {
        match self.active_tab {
            ActiveTab::Combine => 2,
            ActiveTab::Compress => 3,
            ActiveTab::AddMusic => 4,
            ActiveTab::Timelapse => 3,
            ActiveTab::Info => 1,
        }
    }

    /// Selects the field below, going round from the last to the first.
    pub fn next_field(&mut self)
        ensures
            final(self)@ == old(self)@.next_field(),
    {
        let max_fields: usize = self.get_field_count();
        if self.selected_field < max_fields - 1 {
            self.selected_field += 1;
        } else {
            self.selected_field = 0;
        }
    }

    /// Selects the field above, going round from the first to the last.
    pub fn prev_field(&mut self)
        ensures
            final(self)@ == old(self)@.prev_field(),
    {
        let max_fields: usize = self.get_field_count();
        if self.selected_field > 0 {
            self.selected_field -= 1;
        } else {
            self.selected_field = max_fields - 1;
        }
    }

    /// The field that is being edited.
    pub fn get_active_field_mut(&mut self) -> (field: &mut InputField)
        ensures
            field@ == old(self)@.active_field(),
            final(self)@ == old(self)@.with_field(old(self)@.active_slot(), final(field)@),
    {
        match self.active_tab {
            ActiveTab::Combine => match self.selected_field {
                0 => &mut self.combine_inputs,
                1 => &mut self.combine_output,
                _ => &mut self.combine_inputs,
            },
            ActiveTab::Compress => match self.selected_field {
                0 => &mut self.compress_input,
                1 => &mut self.compress_output,
                2 => &mut self.compress_crf,
                _ => &mut self.compress_input,
            },
            ActiveTab::AddMusic => match self.selected_field {
                0 => &mut self.music_video,
                1 => &mut self.music_audio,
                2 => &mut self.music_output,
                3 => &mut self.music_reduce,
                _ => &mut self.music_video,
            },
            ActiveTab::Timelapse => match self.selected_field {
                0 => &mut self.time_input,
                1 => &mut self.time_output,
                2 => &mut self.time_speed,
                _ => &mut self.time_input,
            },
            ActiveTab::Info => &mut self.info_input,
        }
    }

    /// Types `c` at the end of the field that is being edited.
    pub fn input(&mut self, c: char)
        ensures
            final(self)@ == old(self)@.input(c),
    {
        let field = self.get_active_field_mut();
        push_char(&mut field.value, c);
    }

    /// Removes the last character of the field that is being edited, if it has
    /// one.
    pub fn backspace(&mut self)
        ensures
            final(self)@ == old(self)@.backspace(),
    {
        let field = self.get_active_field_mut();
        let _ = pop_char(&mut field.value);
    }
}

} // verus!
