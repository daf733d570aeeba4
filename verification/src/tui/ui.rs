//! What the front-end shows: the row of tabs, the fields of the form in view,
//! and the status of the run. How it is drawn is left to the caller.

use crate::text::push_char;
use crate::tui::app::{ActiveTab, App, AppView, FieldView, InputField};
use vstd::prelude::*;
use vstd::string::StringExecFns;

verus! {

/// How many tabs there are.
pub const TAB_COUNT: usize = 5;

/// One field of the form in view.
#[derive(Clone, Debug)]
pub struct FieldPanel {
    pub label: String,
    pub value: String,
    pub selected: bool,
}

/// A [`FieldPanel`] as the contracts see it.
pub struct PanelView {
    pub label: Seq<char>,
    pub value: Seq<char>,
    pub selected: bool,
}

impl View for FieldPanel {
    type V = PanelView;

    open spec fn view(&self) -> PanelView {
        PanelView { label: self.label@, value: self.value@, selected: self.selected }
    }
}

impl DeepView for FieldPanel {
    type V = PanelView;

    open spec fn deep_view(&self) -> PanelView {
        self@
    }
}

/// The status line.
#[derive(Clone, Debug)]
pub enum Status {
    /// A run is shown: a gauge with a title, a label and the percents reached.
    Gauge { title: String, label: String, percent: u16, complete: bool },
    /// No run is shown: a note under the title `Status`.
    Note { text: String },
}

/// A [`Status`] as the contracts see it.
pub enum StatusView {
    Gauge { title: Seq<char>, label: Seq<char>, percent: nat, complete: bool },
    Note { text: Seq<char> },
}

impl View for Status {
    type V = StatusView;

    open spec fn view(&self) -> StatusView {
        match self {
            Status::Gauge { title, label, percent, complete } => StatusView::Gauge {
                title: title@,
                label: label@,
                percent: *percent as nat,
                complete: *complete,
            },
            Status::Note { text } => StatusView::Note { text: text@ },
        }
    }
}

/// All that is shown.
#[derive(Debug)]
pub struct Screen {
    /// The titles of the tabs, each centred in the width of a tab.
    pub tab_titles: Vec<String>,
    /// Which tab is in view, counted from the left.
    pub active_tab: usize,
    /// The fields of the form in view, from the top.
    pub fields: Vec<FieldPanel>,
    pub status: Status,
}

/// The title of a tab.
pub open spec fn tab_title(index: int) -> Seq<char> {
    if index == 0 {
        "Combine"@
    } else if index == 1 {
        "Compress"@
    } else if index == 2 {
        "Add Music"@
    } else if index == 3 {
        "Fast Forward"@
    } else {
        "Info"@
    }
}

/// `count` spaces.
pub open spec fn spaces(count: nat) -> Seq<char> {
    Seq::new(count, |i: int| ' ')
}

/// `text` in the middle of `width` places: the spaces that are missing go
/// half before it and the rest after it. A longer text stays as it is.
pub open spec fn centered(text: Seq<char>, width: nat) -> Seq<char> {
    if text.len() >= width {
        text
    } else {
        let missing = (width - text.len()) as nat;
        spaces(missing / 2) + text + spaces((missing - missing / 2) as nat)
    }
}

/// The width of one tab where the row of tabs, with its border, is `width`
/// wide.
pub open spec fn tab_width(width: u16) -> nat {
    if width < 2 {
        0
    } else {
        ((width - 2) / TAB_COUNT as int) as nat
    }
}

/// The titles of the tabs as they are shown in a row that is `width` wide.
pub open spec fn tab_titles(width: u16) -> Seq<Seq<char>> {
    Seq::new(TAB_COUNT as nat, |i: int| centered(tab_title(i), tab_width(width)))
}

/// A field as it is shown.
pub open spec fn panel(field: FieldView, selected: bool) -> PanelView {
    PanelView { label: field.label, value: field.value, selected }
}

impl AppView {
    /// The fields of the form in view, from the top; the one that is
    /// selected is marked.
    pub open spec fn panels(self) -> Seq<PanelView> {
        let at = self.selected_field;
        match self.active_tab {
            ActiveTab::Combine => seq![
                panel(self.combine_inputs, at == 0),
                panel(self.combine_output, at == 1),
            ],
            ActiveTab::Compress => seq![
                panel(self.compress_input, at == 0),
                panel(self.compress_output, at == 1),
                panel(self.compress_crf, at == 2),
            ],
            ActiveTab::AddMusic => seq![
                panel(self.music_video, at == 0),
                panel(self.music_audio, at == 1),
                panel(self.music_output, at == 2),
                panel(self.music_reduce, at == 3),
            ],
            ActiveTab::Timelapse => seq![
                panel(self.time_input, at == 0),
                panel(self.time_output, at == 1),
                panel(self.time_speed, at == 2),
            ],
            ActiveTab::Info => seq![panel(self.info_input, at == 0)],
        }
    }

    /// The status line. While a run is shown it is a gauge: of a completed
    /// run with the message as its label, of a run in progress with the last
    /// line logged, or `Processing...` before the first. Otherwise it is the
    /// message.
    pub open spec fn status(self) -> StatusView {
        if self.is_processing {
            if self.is_complete {
                StatusView::Gauge {
                    title: "Completed"@,
                    label: self.message,
                    percent: self.progress.percent(),
                    complete: true,
                }
            } else {
                StatusView::Gauge {
                    title: "Processing"@,
                    label: if self.logs.len() > 0 {
                        self.logs.last()
                    } else {
                        "Processing..."@
                    },
                    percent: self.progress.percent(),
                    complete: false,
                }
            }
        } else {
            StatusView::Note { text: self.message }
        }
    }
}

/// `text` in the middle of `width` places.
pub fn center(text: &str, width: usize) -> (line: String)
    ensures
        line@ == centered(text@, width as nat),
{
    let length: usize = text.unicode_len();
    if length >= width {
        return text.to_owned();
    }
    let missing: usize = width - length;
    let before: usize = missing / 2;
    let after: usize = missing - before;
    let mut line = String::new();
    let mut i: usize = 0;
    while i < before
        invariant
            i <= before,
            line@ == spaces(i as nat),
        decreases before - i,
    {
        push_char(&mut line, ' ');
        i = i + 1;
        assert(line@ =~= spaces(i as nat));
    }
    line.append(text);
    let mut k: usize = 0;
    while k < after
        invariant
            k <= after,
            line@ == spaces(before as nat) + text@ + spaces(k as nat),
        decreases after - k,
    {
        push_char(&mut line, ' ');
        k = k + 1;
        assert(line@ =~= spaces(before as nat) + text@ + spaces(k as nat));
    }
    line
}

/// The titles of the tabs as they are shown in a row that is `width` wide.
pub fn render_tabs(width: u16) -> (titles: Vec<String>)
    ensures
        titles.deep_view() == tab_titles(width),
{
    let inner: usize = if width < 2 {
        0
    } else {
        (width - 2) as usize
    };
    let each: usize = inner / TAB_COUNT;
    let mut titles: Vec<String> = Vec::new();
    titles.push(center("Combine", each));
    titles.push(center("Compress", each));
    titles.push(center("Add Music", each));
    titles.push(center("Fast Forward", each));
    titles.push(center("Info", each));
    assert(titles.deep_view() =~= tab_titles(width));
    titles
}

fn show(field: &InputField, selected: bool) -> (p: FieldPanel)
    ensures
        p@ == panel(field@, selected),
{
    FieldPanel { label: field.label.clone(), value: field.value.clone(), selected }
}

/// The fields of the form in view, from the top.
pub fn render_content(app: &App) -> (fields: Vec<FieldPanel>)
    ensures
        fields.deep_view() == app@.panels(),
{
    let at: usize = app.selected_field;
    let mut fields: Vec<FieldPanel> = Vec::new();
    match app.active_tab {
        ActiveTab::Combine => {
            fields.push(show(&app.combine_inputs, at == 0));
            fields.push(show(&app.combine_output, at == 1));
        },
        ActiveTab::Compress => {
            fields.push(show(&app.compress_input, at == 0));
            fields.push(show(&app.compress_output, at == 1));
            fields.push(show(&app.compress_crf, at == 2));
        },
        ActiveTab::AddMusic => {
            fields.push(show(&app.music_video, at == 0));
            fields.push(show(&app.music_audio, at == 1));
            fields.push(show(&app.music_output, at == 2));
            fields.push(show(&app.music_reduce, at == 3));
        },
        ActiveTab::Timelapse => {
            fields.push(show(&app.time_input, at == 0));
            fields.push(show(&app.time_output, at == 1));
            fields.push(show(&app.time_speed, at == 2));
        },
        ActiveTab::Info => {
            fields.push(show(&app.info_input, at == 0));
        },
    }
    assert(fields.deep_view() =~= app@.panels());
    fields
}

/// The status line.
pub fn render_message(app: &App) -> (status: Status)
    ensures
        status@ == app@.status(),
{
    if app.is_processing {
        let percent: u16 = app.progress.percent();
        if app.is_complete {
            Status::Gauge {
                title: "Completed".to_owned(),
                label: app.message.clone(),
                percent,
                complete: true,
            }
        } else {
            let label = if app.logs.len() > 0 {
                let last = app.logs[app.logs.len() - 1].clone();
                assert(last@ == app@.logs.last());
                last
            } else {
                "Processing...".to_owned()
            };
            Status::Gauge { title: "Processing".to_owned(), label, percent, complete: false }
        }
    } else {
        Status::Note { text: app.message.clone() }
    }
}

/// All that is shown, for a row of tabs that is `width` wide.
pub fn render(app: &App, width: u16) -> (screen: Screen)
    ensures
        screen.tab_titles.deep_view() == tab_titles(width),
        screen.active_tab == app.active_tab.position(),
        screen.fields.deep_view() == app@.panels(),
        screen.status@ == app@.status(),
{
    Screen {
        tab_titles: render_tabs(width),
        active_tab: app.active_tab.index(),
        fields: render_content(app),
        status: render_message(app),
    }
}

} // verus!
