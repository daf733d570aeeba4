//! Completion of the path that is being typed.
//!
//! The caller lists the directory and asks the file system whether the
//! completed path is a directory; what to look for, which name to take and
//! what to put into the field is decided here.

use crate::text::{chars_of, push_char, string_of};
use crate::tui::app::{ActiveTab, App, AppView};
use crate::words::{find_last_white_space, last_white_space};
use vstd::prelude::*;
use vstd::string::StringExecFns;

verus! {

/// Where the last `mark` of `text` stands, if it has any.
pub open spec fn last_index_of(text: Seq<char>, mark: char) -> Option<int>
    decreases text.len(),
{
    if text.len() == 0 {
        None
    } else if text.last() == mark {
        Some(text.len() - 1)
    } else {
        last_index_of(text.drop_last(), mark)
    }
}

/// What stands before and after a place in a text, the place itself going to
/// the part before. Without a place all of the text comes after.
pub open spec fn cut_after(text: Seq<char>, at: Option<int>) -> (Seq<char>, Seq<char>) {
    match at {
        Some(i) => (text.take(i + 1), text.skip(i + 1)),
        None => (Seq::empty(), text),
    }
}

/// `part` stands at the start of `name`.
pub open spec fn starts_with(name: Seq<char>, part: Seq<char>) -> bool {
    part.len() <= name.len() && name.take(part.len() as int) == part
}

/// `a` comes no later than `b` in the order of strings: `a` is the start of
/// `b`, or at the first place where they differ `a` has the smaller character.
pub open spec fn comes_no_later(a: Seq<char>, b: Seq<char>) -> bool {
    exists|k: int|
        0 <= k <= a.len() && k <= b.len() && #[trigger] a.take(k) == b.take(k) && (k == a.len() || (
        k < b.len() && a[k] < b[k]))
}

/// What a completion looks for.
pub struct QueryView {
    /// What stands in the field before the path that is being typed.
    pub prefix: Seq<char>,
    /// The directory part of the path, with its separator.
    pub dir: Seq<char>,
    /// The start of the name that is looked for.
    pub file_part: Seq<char>,
}

impl QueryView {
    /// The directory to list: the directory part, or `.` where there is none.
    pub open spec fn search_dir(self) -> Seq<char> {
        if self.dir.len() == 0 {
            "."@
        } else {
            self.dir
        }
    }

    /// `names[k]` is the name to take: it starts with what is looked for, and
    /// no other such name comes before it.
    pub open spec fn takes(self, names: Seq<Seq<char>>, k: int) -> bool {
        &&& 0 <= k < names.len()
        &&& starts_with(names[k], self.file_part)
        &&& forall|j: int|
            0 <= j < names.len() && starts_with(#[trigger] names[j], self.file_part)
                ==> comes_no_later(names[k], names[j])
    }
}

impl AppView {
    /// Whether the field that is being edited holds several paths.
    pub open spec fn edits_list(self) -> bool {
        self.active_tab == ActiveTab::Combine && self.selected_field == 0
    }

    /// What a completion of the field that is being edited looks for. In a
    /// field of several paths only the last one, after the last white space,
    /// is completed.
    pub open spec fn query(self, separator: char) -> QueryView {
        let value = self.active_field().value;
        let (prefix, current) = if self.edits_list() {
            cut_after(value, last_white_space(value))
        } else {
            (Seq::empty(), value)
        };
        let (dir, file_part) = cut_after(current, last_index_of(current, separator));
        QueryView { prefix, dir, file_part }
    }

    /// The state once the path `path` is put into the field that is being
    /// edited, after what stood before the path that was typed. A directory
    /// gets its separator.
    pub open spec fn completed(
        self,
        prefix: Seq<char>,
        path: Seq<char>,
        is_directory: bool,
        separator: char,
    ) -> AppView {
        self.with_value(
            prefix + path + if is_directory {
                seq![separator]
            } else {
                Seq::empty()
            },
        )
    }
}

/// What a completion looks for.
#[derive(Clone, Debug)]
pub struct Query {
    pub prefix: String,
    pub dir: String,
    pub file_part: String,
}

impl View for Query {
    type V = QueryView;

    open spec fn view(&self) -> QueryView {
        QueryView { prefix: self.prefix@, dir: self.dir@, file_part: self.file_part@ }
    }
}

/// Where the last `mark` of `text` stands, if it has any.
pub fn find_last(text: &[char], mark: char) -> (at: Option<usize>)
    ensures
        match at {
            Some(i) => last_index_of(text@, mark) == Some(i as int) && i < text@.len(),
            None => last_index_of(text@, mark) is None,
        },
{
    let mut i: usize = text.len();
    assert(text@.take(i as int) =~= text@);
    while i > 0
        invariant
            i <= text@.len(),
            last_index_of(text@, mark) == last_index_of(text@.take(i as int), mark),
        decreases i,
    {
        assert(text@.take(i as int).drop_last() =~= text@.take(i - 1));
        assert(text@.take(i as int).last() == text@[i - 1]);
        if text[i - 1] == mark {
            return Some(i - 1);
        }
        i = i - 1;
    }
    None
}

/// The string of `text[from..to]`.
pub fn string_between(text: &[char], from: usize, to: usize) -> (s: String)
    requires
        from <= to <= text@.len(),
    ensures
        s@ == text@.subrange(from as int, to as int),
{
    let mut s = String::new();
    let mut i: usize = from;
    while i < to
        invariant
            from <= i <= to <= text@.len(),
            s@ == text@.subrange(from as int, i as int),
        decreases to - i,
    {
        push_char(&mut s, text[i]);
        assert(text@.subrange(from as int, i + 1) =~= text@.subrange(from as int, i as int).push(
            text@[i as int],
        ));
        i = i + 1;
    }
    s
}

/// Whether `part` stands at the start of `name`.
pub fn has_start(name: &[char], part: &[char]) -> (b: bool)
    ensures
        b == starts_with(name@, part@),
{
    if part.len() > name.len() {
        return false;
    }
    let mut i: usize = 0;
    while i < part.len()
        invariant
            i <= part@.len() <= name@.len(),
            name@.take(i as int) == part@.take(i as int),
        decreases part@.len() - i,
    {
        if name[i] != part[i] {
            assert(name@.take(part@.len() as int)[i as int] != part@[i as int]);
            return false;
        }
        assert(name@.take(i + 1) =~= name@.take(i as int).push(name@[i as int]));
        assert(part@.take(i + 1) =~= part@.take(i as int).push(part@[i as int]));
        i = i + 1;
    }
    assert(part@.take(i as int) =~= part@);
    true
}

/// Whether `a` comes no later than `b` in the order of strings.
pub fn no_later(a: &[char], b: &[char]) -> (r: bool)
    ensures
        r == comes_no_later(a@, b@),
{
    let mut i: usize = 0;
    while i < a.len() && i < b.len()
        invariant
            i <= a@.len(),
            i <= b@.len(),
            a@.take(i as int) == b@.take(i as int),
        decreases a@.len() - i,
    {
        if a[i] != b[i] {
            let smaller = a[i] < b[i];
            proof {
                if !smaller {
                    assert forall|k: int|
                        0 <= k <= a@.len() && k <= b@.len() && #[trigger] a@.take(k) == b@.take(
                            k,
                        ) implies !(k == a@.len() || (k < b@.len() && a@[k] < b@[k])) by {
                        if k > i {
                            assert(a@.take(k)[i as int] == b@.take(k)[i as int]);
                        } else if k < i {
                            assert(a@.take(i as int)[k] == b@.take(i as int)[k]);
                        }
                    }
                }
            }
            return smaller;
        }
        assert(a@.take(i + 1) =~= a@.take(i as int).push(a@[i as int]));
        assert(b@.take(i + 1) =~= b@.take(i as int).push(b@[i as int]));
        i = i + 1;
    }
    let r = a.len() <= b.len();
    proof {
        if !r {
            assert forall|k: int|
                0 <= k <= a@.len() && k <= b@.len() && #[trigger] a@.take(k) == b@.take(
                    k,
                ) implies !(k == a@.len() || (k < b@.len() && a@[k] < b@[k])) by {
                if k < i {
                    assert(a@.take(i as int)[k] == b@.take(i as int)[k]);
                }
            }
        }
    }
    r
}

/// The order of strings puts any two strings one way or the other, and
/// follows through.
pub proof fn lemma_order_of_strings(a: Seq<char>, b: Seq<char>, c: Seq<char>)
    ensures
        comes_no_later(a, a),
        comes_no_later(a, b) || comes_no_later(b, a),
        comes_no_later(a, b) && comes_no_later(b, c) ==> comes_no_later(a, c),
{
    assert(a.take(a.len() as int) == a.take(a.len() as int));
    assert(a.take(0) =~= b.take(0));
    lemma_some_order(a, b, 0);
    if comes_no_later(a, b) && comes_no_later(b, c) {
        let k = choose|k: int|
            0 <= k <= a.len() && k <= b.len() && #[trigger] a.take(k) == b.take(k) && (k == a.len()
                || (k < b.len() && a[k] < b[k]));
        let m = choose|m: int|
            0 <= m <= b.len() && m <= c.len() && #[trigger] b.take(m) == c.take(m) && (m == b.len()
                || (m < c.len() && b[m] < c[m]));
        let n = if k <= m {
            k
        } else {
            m
        };
        assert(a.take(n) =~= c.take(n)) by {
            assert forall|i: int| 0 <= i < n implies a[i] == c[i] by {
                assert(a.take(k)[i] == b.take(k)[i]);
                assert(b.take(m)[i] == c.take(m)[i]);
            }
        }
        if k < m {
            if k < a.len() {
                assert(b.take(m)[k] == c.take(m)[k]);
            }
        } else if k == m {
        } else {
            assert(a.take(k)[m] == b.take(k)[m]);
        }
    }
}

/// From a place up to which two strings agree, one of them comes no later
/// than the other.
proof fn lemma_some_order(a: Seq<char>, b: Seq<char>, k: int)
    requires
        0 <= k <= a.len(),
        k <= b.len(),
        a.take(k) == b.take(k),
    ensures
        comes_no_later(a, b) || comes_no_later(b, a),
    decreases a.len() - k,
{
    if k == a.len() {
    } else if k == b.len() {
        assert(b.take(k) == a.take(k));
    } else if a[k] == b[k] {
        assert(a.take(k + 1) =~= a.take(k).push(a[k]));
        assert(b.take(k + 1) =~= b.take(k).push(b[k]));
        lemma_some_order(a, b, k + 1);
    } else if a[k] < b[k] {
    } else {
        assert(b.take(k) == a.take(k));
    }
}

impl Query {
    /// The directory to list.
    pub fn search_dir(&self) -> (dir: String)
        ensures
            dir@ == self@.search_dir(),
    {
        if self.dir.as_str().unicode_len() == 0 {
            ".".to_owned()
        } else {
            self.dir.clone()
        }
    }

    /// The path that completes what was typed: the directory part and, of the
    /// names that start with what is looked for, the one that comes first in
    /// the order of strings. There is none where no name starts so.
    pub fn candidate(&self, names: &Vec<String>) -> (path: Option<String>)
        ensures
            path is None <==> forall|j: int|
                0 <= j < names.len() ==> !starts_with(
                    #[trigger] names.deep_view()[j],
                    self@.file_part,
                ),
            path matches Some(p) ==> exists|k: int|
                #[trigger] self@.takes(names.deep_view(), k) && p@ == self@.dir
                    + names.deep_view()[k],
    {
        let part = chars_of(self.file_part.as_str());
        let ghost listed = names.deep_view();
        let mut best: Option<Vec<char>> = None;
        let ghost mut at: int = 0;
        let mut i: usize = 0;
        while i < names.len()
            invariant
                i <= names.len(),
                listed == names.deep_view(),
                part@ == self@.file_part,
                best is None ==> forall|j: int|
                    0 <= j < i ==> !starts_with(#[trigger] listed[j], part@),
                best matches Some(b) ==> 0 <= at < i && b@ == listed[at] && starts_with(
                    listed[at],
                    part@,
                ) && forall|j: int|
                    0 <= j < i && starts_with(#[trigger] listed[j], part@) ==> comes_no_later(
                        listed[at],
                        listed[j],
                    ),
            decreases names.len() - i,
        {
            let name = chars_of(names[i].as_str());
            assert(name@ == listed[i as int]);
            if has_start(name.as_slice(), part.as_slice()) {
                let ghost old_at = at;
                let better: bool = match &best {
                    Some(b) => !no_later(b.as_slice(), name.as_slice()),
                    None => true,
                };
                if better {
                    proof {
                        if best is Some {
                            assert forall|j: int|
                                0 <= j < i + 1 && starts_with(
                                    #[trigger] listed[j],
                                    part@,
                                ) implies comes_no_later(listed[i as int], listed[j]) by {
                                lemma_order_of_strings(
                                    listed[i as int],
                                    listed[old_at],
                                    listed[j],
                                );
                                lemma_order_of_strings(
                                    listed[old_at],
                                    listed[i as int],
                                    listed[j],
                                );
                            }
                        } else {
                            lemma_order_of_strings(
                                listed[i as int],
                                listed[i as int],
                                listed[i as int],
                            );
                        }
                        at = i as int;
                    }
                    best = Some(name);
                }
            }
            i = i + 1;
        }
        match best {
            None => None,
            Some(name) => {
                let mut path = self.dir.clone();
                let tail = string_of(name.as_slice());
                path.append(tail.as_str());
                assert(self@.takes(listed, at));
                Some(path)
            },
        }
    }
}

impl App {
    /// What a completion of the field that is being edited looks for.
    /// `separator` is the character that separates the parts of a path.
    pub fn query(&self, separator: char) -> (query: Query)
        ensures
            query@ == self@.query(separator),
    {
        let list: bool = match self.active_tab {
            ActiveTab::Combine => self.selected_field == 0,
            _ => false,
        };
        let chars = chars_of(self.active_value());
        let text = chars.as_slice();
        let start: usize = if list {
            match find_last_white_space(text) {
                Some(i) => {
                    assert(i < text.len());
                    i + 1
                },
                None => 0,
            }
        } else {
            0
        };
        let ghost current = text@.skip(start as int);
        let mut word: Vec<char> = Vec::new();
        let mut i: usize = start;
        while i < text.len()
            invariant
                start <= i <= text@.len(),
                word@ == text@.subrange(start as int, i as int),
            decreases text@.len() - i,
        {
            word.push(text[i]);
            assert(text@.subrange(start as int, i + 1) =~= text@.subrange(
                start as int,
                i as int,
            ).push(text@[i as int]));
            i = i + 1;
        }
        assert(word@ =~= current);
        let split: usize = match find_last(word.as_slice(), separator) {
            Some(i) => {
                assert(i < word.len());
                i + 1
            },
            None => 0,
        };
        let prefix = string_between(text, 0, start);
        let dir = string_between(word.as_slice(), 0, split);
        let file_part = string_between(word.as_slice(), split, word.len());
        proof {
            let value = self@.active_field().value;
            assert(value == text@);
            assert(text@.subrange(0, start as int) =~= text@.take(start as int));
            assert(word@.subrange(0, split as int) =~= word@.take(split as int));
            assert(word@.subrange(split as int, word@.len() as int) =~= word@.skip(split as int));
            if start == 0 {
                assert(text@.take(0) =~= Seq::<char>::empty());
                assert(text@.skip(0) =~= text@);
            }
            if split == 0 {
                assert(word@.take(0) =~= Seq::<char>::empty());
                assert(word@.skip(0) =~= word@);
            }
        }
        Query { prefix, dir, file_part }
    }

    /// The text of the field that is being edited.
    pub fn active_value(&self) -> (value: &str)
        ensures
            value@ == self@.active_field().value,
    {
        match self.active_tab {
            ActiveTab::Combine => match self.selected_field {
                1 => self.combine_output.value.as_str(),
                _ => self.combine_inputs.value.as_str(),
            },
            ActiveTab::Compress => match self.selected_field {
                1 => self.compress_output.value.as_str(),
                2 => self.compress_crf.value.as_str(),
                _ => self.compress_input.value.as_str(),
            },
            ActiveTab::AddMusic => match self.selected_field {
                1 => self.music_audio.value.as_str(),
                2 => self.music_output.value.as_str(),
                3 => self.music_reduce.value.as_str(),
                _ => self.music_video.value.as_str(),
            },
            ActiveTab::Timelapse => match self.selected_field {
                1 => self.time_output.value.as_str(),
                2 => self.time_speed.value.as_str(),
                _ => self.time_input.value.as_str(),
            },
            ActiveTab::Info => self.info_input.value.as_str(),
        }
    }

    /// Puts the completed path into the field that is being edited. `prefix`
    /// is what stood before the path that was typed, `path` the completed
    /// path, `is_directory` whether it names a directory.
    pub fn autocomplete(&mut self, prefix: &str, path: &str, is_directory: bool, separator: char)
        ensures
            final(self)@ == old(self)@.completed(prefix@, path@, is_directory, separator),
    {
        let mut value = prefix.to_owned();
        value.append(path);
        if is_directory {
            push_char(&mut value, separator);
        }
        assert(value@ =~= prefix@ + path@ + if is_directory {
            seq![separator]
        } else {
            Seq::empty()
        });
        let field = self.get_active_field_mut();
        field.value = value;
    }
}

} // verus!
