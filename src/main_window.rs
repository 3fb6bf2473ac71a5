use vstd::prelude::*;

use crate::analyzer::{analyze, report_of, StrengthReport};
use crate::engine::{fits_selection, suggest};
use crate::policy::{length_in_range, length_or_default, level_or_default, selected_or_default, PasswordLevel, DEFAULT_LENGTH};

verus! {

/// A user event on the form.
#[derive(Debug, Clone)]
pub enum FormMessage {
    PickChanged(PasswordLevel),
    SuggestionChanged(String),
    PwdLenChanged(u32),
    Roll,
    Copy2Clipboard,
}

/// What a message may carry: the slider yields lengths in range only.
pub open spec fn form_message_ok(msg: FormMessage) -> bool {
    msg matches FormMessage::PwdLenChanged(n) ==> length_in_range(n as int)
}

/// The form's state as mathematical values.
pub ghost struct FormView {
    pub selected: Option<PasswordLevel>,
    pub suggestion: Option<Seq<char>>,
    pub score: Option<StrengthReport>,
    pub length: Option<u32>,
}

/// The score after the suggestion became `s`: an empty suggestion keeps the
/// previous score, any other is rated anew.
pub open spec fn rescored(score: Option<StrengthReport>, s: Seq<char>) -> Option<StrengthReport> {
    if s.len() == 0 {
        score
    } else {
        Some(report_of(s))
    }
}

/// `new` holds `old`'s selection and the given length, with a fresh
/// suggestion for them and that suggestion's report.
pub open spec fn regenerated(old: FormView, new: FormView, length: Option<u32>) -> bool {
    &&& new.selected == old.selected
    &&& new.length == length
    &&& new.suggestion matches Some(s) && fits_selection(new.selected, length, s)
        && new.score == Some(report_of(s))
}

/// The password form: the chosen level and length, the current suggestion
/// and its strength report.
pub struct Form {
    current_selected: Option<PasswordLevel>,
    current_suggestions: Option<String>,
    pwd_score: Option<StrengthReport>,
    pwd_len: Option<u32>,
}

impl View for Form {
    type V = FormView;

    closed spec fn view(&self) -> FormView {
        FormView {
            selected: self.current_selected,
            suggestion: match self.current_suggestions {
                Some(s) => Some(s@),
                None => None,
            },
            score: self.pwd_score,
            length: self.pwd_len,
        }
    }
}

impl Form {
    /// The chosen length, when there is one, is in range.
    pub open spec fn wf(&self) -> bool {
        self@.length matches Some(n) ==> length_in_range(n as int)
    }

    /// A form with the default level and length, a first suggestion and its
    /// report.
    pub fn new() -> (r: Form)
        ensures
            r.wf(),
            r@.selected == None::<PasswordLevel>,
            r@.length == None::<u32>,
            r@.suggestion matches Some(s) && fits_selection(None, None, s) && r@.score == Some(
                report_of(s),
            ),
    {
        let mut o = Form {
            current_selected: None,
            current_suggestions: None,
            pwd_score: None,
            pwd_len: None,
        };
        o.update_suggestion_password();
        o.update_password_score();
        o
    }

    /// A suggestion for the current level and length.
    fn generate_pwd(&self) -> (r: String)
        requires
            self.wf(),
        ensures
            fits_selection(self@.selected, self@.length, r@),
    {
        suggest(self.current_selected, self.pwd_len)
    }

    fn update_suggestion_password(&mut self)
        requires
            old(self).wf(),
        ensures
            final(self)@ == (FormView { suggestion: final(self)@.suggestion, ..old(self)@ }),
            final(self)@.suggestion matches Some(s) && fits_selection(
                old(self)@.selected,
                old(self)@.length,
                s,
            ),
    {
        self.current_suggestions = Some(self.generate_pwd());
    }

    fn update_password_score(&mut self)
        ensures
            final(self)@ == (FormView {
                score: rescored(
                    old(self)@.score,
                    match old(self)@.suggestion {
                        Some(s) => s,
                        None => Seq::empty(),
                    },
                ),
                ..old(self)@
            }),
    {
        match &self.current_suggestions {
            Some(s) => {
                if s.as_str().is_empty() {
                    return;
                }
                self.pwd_score = Some(analyze(s.as_str()));
            },
            None => {},
        }
    }

    /// Regenerates the suggestion and rates it.
    fn refresh(&mut self)
        requires
            old(self).wf(),
        ensures
            regenerated(old(self)@, final(self)@, old(self)@.length),
    {
        self.update_suggestion_password();
        proof {
            crate::engine::resolved_spec_generates(
                level_or_default(self@.selected),
                length_or_default(self@.length) as usize,
            );
        }
        self.update_password_score();
    }

    /// Handles one user event. Returns the text to put on the clipboard, if
    /// the event asks for a copy and there is a suggestion.
    pub fn update(&mut self, message: FormMessage) -> (r: Option<String>)
        requires
            old(self).wf(),
            form_message_ok(message),
        ensures
            final(self).wf(),
            match message {
                FormMessage::PickChanged(v) => {
                    &&& regenerated(
                        FormView { selected: Some(v), ..old(self)@ },
                        final(self)@,
                        old(self)@.length,
                    )
                    &&& r is None
                },
                FormMessage::SuggestionChanged(t) => {
                    &&& final(self)@ == (FormView {
                        suggestion: Some(t@),
                        score: rescored(old(self)@.score, t@),
                        ..old(self)@
                    })
                    &&& r is None
                },
                FormMessage::PwdLenChanged(n) => {
                    &&& (match old(self)@.length {
                        Some(m) => m,
                        None => 0,
                    }) != n ==> regenerated(old(self)@, final(self)@, Some(n))
                    &&& (match old(self)@.length {
                        Some(m) => m,
                        None => 0,
                    }) == n ==> final(self)@ == old(self)@
                    &&& r is None
                },
                FormMessage::Roll => {
                    &&& regenerated(old(self)@, final(self)@, old(self)@.length)
                    &&& r is None
                },
                FormMessage::Copy2Clipboard => {
                    &&& final(self)@ == old(self)@
                    &&& match r {
                        Some(t) => old(self)@.suggestion == Some(t@),
                        None => old(self)@.suggestion is None,
                    }
                },
            },
    {
        match message {
            FormMessage::PickChanged(v) => {
                self.current_selected = Some(v);
                self.refresh();
                None
            },
            FormMessage::SuggestionChanged(s) => {
                self.current_suggestions = Some(s);
                self.update_password_score();
                None
            },
            FormMessage::PwdLenChanged(pwd_len) => {
                let current: u32 = match self.pwd_len {
                    Some(m) => m,
                    None => 0,
                };
                if current != pwd_len {
                    self.pwd_len = Some(pwd_len);
                    self.refresh();
                }
                None
            },
            FormMessage::Roll => {
                self.refresh();
                None
            },
            FormMessage::Copy2Clipboard => {
                match &self.current_suggestions {
                    Some(s) => Some(s.clone()),
                    None => None,
                }
            },
        }
    }

    /// The entry shown in the picker: the chosen one, else the first.
    pub fn selected_level(&self) -> (r: PasswordLevel)
        ensures
            r.0 == level_or_default(self@.selected),
            self@.selected matches Some(l) ==> r == l,
    {
        selected_or_default(self.current_selected)
    }

    /// The suggestion shown in the text field, empty when there is none.
    pub fn suggestion(&self) -> (r: String)
        ensures
            r@ == match self@.suggestion {
                Some(s) => s,
                None => Seq::empty(),
            },
    {
        match &self.current_suggestions {
            Some(s) => s.clone(),
            None => String::new(),
        }
    }

    /// The length shown beside the slider.
    pub fn password_length(&self) -> (r: u32)
        ensures
            r == length_or_default(self@.length),
    {
        match self.pwd_len {
            Some(n) => n,
            None => DEFAULT_LENGTH,
        }
    }

    /// The report of the last rated suggestion, if any.
    pub fn score(&self) -> (r: Option<StrengthReport>)
        ensures
            r == self@.score,
    {
        self.pwd_score
    }
}

} // verus!
