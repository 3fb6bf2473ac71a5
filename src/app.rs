use vstd::prelude::*;

use crate::engine::{fits_selection, suggest};
use crate::policy::{length_in_range, length_or_default, level_or_default, selected_or_default, PasswordLevel, DEFAULT_LENGTH};

verus! {

/// A user event on the plain form, which suggests passwords without rating
/// them.
#[derive(Debug, Clone)]
pub enum AppMsg {
    PickChanged(PasswordLevel),
    SuggestionChanged(String),
    PwdLenChanged(u32),
    Roll,
    Copy2Clipboard,
}

/// What a message may carry: the slider yields lengths in range only.
pub open spec fn app_msg_ok(msg: AppMsg) -> bool {
    msg matches AppMsg::PwdLenChanged(n) ==> length_in_range(n as int)
}

/// The plain form's state as mathematical values.
pub ghost struct AppView {
    pub selected: Option<PasswordLevel>,
    pub suggestion: Option<Seq<char>>,
    pub length: Option<u32>,
}

/// `new` holds the given selection and length, with a fresh suggestion for
/// them.
pub open spec fn app_regenerated(new: AppView, level: Option<PasswordLevel>, length: Option<u32>) -> bool {
    &&& new.selected == level
    &&& new.length == length
    &&& new.suggestion matches Some(s) && fits_selection(level, length, s)
}

/// The plain password form: the chosen level and length and the current
/// suggestion.
pub struct App {
    current_selected: Option<PasswordLevel>,
    current_suggestions: Option<String>,
    pwd_len: Option<u32>,
}

impl View for App {
    type V = AppView;

    closed spec fn view(&self) -> AppView {
        AppView {
            selected: self.current_selected,
            suggestion: match self.current_suggestions {
                Some(s) => Some(s@),
                None => None,
            },
            length: self.pwd_len,
        }
    }
}

impl App {
    /// The chosen length, when there is one, is in range.
    pub open spec fn wf(&self) -> bool {
        self@.length matches Some(n) ==> length_in_range(n as int)
    }

    /// A form with the default level and length and a first suggestion.
    pub fn new() -> (r: App)
        ensures
            r.wf(),
            app_regenerated(r@, None, None),
    {
        let mut o = App { current_selected: None, current_suggestions: None, pwd_len: None };
        o.current_suggestions = Some(o.generate_pwd());
        o
    }

    /// A suggestion for the current level and length.
    fn generate_pwd(&self) -> (r: String)
        requires
            self.wf(),
        ensures
            fits_selection(self@.selected, self@.length, r@),
    {
        suggest(self.current_selected, self.pwd_len)
    }

    /// Handles one user event. Returns the text to put on the clipboard, if
    /// the event asks for a copy and there is a suggestion.
    pub fn update(&mut self, message: AppMsg) -> (r: Option<String>)
        requires
            old(self).wf(),
            app_msg_ok(message),
        ensures
            final(self).wf(),
            match message {
                AppMsg::PickChanged(v) => {
                    &&& app_regenerated(final(self)@, Some(v), old(self)@.length)
                    &&& r is None
                },
                AppMsg::SuggestionChanged(t) => {
                    &&& final(self)@ == (AppView { suggestion: Some(t@), ..old(self)@ })
                    &&& r is None
                },
                AppMsg::PwdLenChanged(n) => {
                    &&& app_regenerated(final(self)@, old(self)@.selected, Some(n))
                    &&& r is None
                },
                AppMsg::Roll => {
                    &&& app_regenerated(final(self)@, old(self)@.selected, old(self)@.length)
                    &&& r is None
                },
                AppMsg::Copy2Clipboard => {
                    &&& final(self)@ == old(self)@
                    &&& match r {
                        Some(t) => old(self)@.suggestion == Some(t@),
                        None => old(self)@.suggestion is None,
                    }
                },
            },
    {
        match message {
            AppMsg::PickChanged(v) => {
                self.current_selected = Some(v);
                self.current_suggestions = Some(self.generate_pwd());
                None
            },
            AppMsg::SuggestionChanged(s) => {
                self.current_suggestions = Some(s);
                None
            },
            AppMsg::PwdLenChanged(pwd_len) => {
                self.pwd_len = Some(pwd_len);
                self.current_suggestions = Some(self.generate_pwd());
                None
            },
            AppMsg::Roll => {
                self.current_suggestions = Some(self.generate_pwd());
                None
            },
            AppMsg::Copy2Clipboard => {
                match &self.current_suggestions {
                    Some(s) => Some(s.clone()),
                    None => None,
                }
            },
        }
    }

    /// The entry shown in the picker: the chosen one, else the first.
    pub fn selected_level(&self) -> (r: PasswordLevel)
        ensures
            r.0 == level_or_default(self@.selected),
            self@.selected matches Some(l) ==> r == l,
    {
        selected_or_default(self.current_selected)
    }

    /// The suggestion shown in the text field, empty when there is none.
    pub fn suggestion(&self) -> (r: String)
        ensures
            r@ == match self@.suggestion {
                Some(s) => s,
                None => Seq::empty(),
            },
    {
        match &self.current_suggestions {
            Some(s) => s.clone(),
            None => String::new(),
        }
    }

    /// The length shown beside the slider.
    pub fn password_length(&self) -> (r: u32)
        ensures
            r == length_or_default(self@.length),
    {
        match self.pwd_len {
            Some(n) => n,
            None => DEFAULT_LENGTH,
        }
    }
}

} // verus!
