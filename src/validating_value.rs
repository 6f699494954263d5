//! A numeric field that is shown as text and edited as text: every text the user
//! types is handed to a validater, and only what it accepts reaches the value.
use vstd::prelude::*;

verus! {

/// The value accepted by the end of a frame that began with `prev`, where the
/// stored text gave `a` and the edited text gave `b`: the last one accepted.
pub open spec fn frame_value<T>(prev: Option<T>, a: Option<T>, b: Option<T>) -> Option<T> {
    match b {
        Some(v) => Some(v),
        None => match a {
            Some(v) => Some(v),
            None => prev,
        },
    }
}

/// A value edited through its text.
///
/// The field shows `formatter(current)`, where `current` is the value accepted
/// during this frame if any, else the caller's value. At the end of the frame
/// (`commit`) an accepted value is written back to the caller's value.
#[verifier::reject_recursive_types(T)]
#[must_use]
pub struct ValidatingValue<'a, T, F: Fn(&T) -> String, V: Fn(&str) -> Option<T>> {
    pub external_value: &'a mut T,
    pub updated_value: Option<T>,
    pub formatter: F,
    pub validater: V,
    pub update_while_editing: bool,
}

impl<'a, T, F: Fn(&T) -> String, V: Fn(&str) -> Option<T>> ValidatingValue<'a, T, F, V> {
    /// The value the field shows now.
    pub open spec fn current_spec(&self) -> T {
        match self.updated_value {
            Some(v) => v,
            None => *self.external_value,
        }
    }

    /// The formatter and the validater can be called on any input.
    pub open spec fn callable(&self) -> bool {
        &&& forall|t: &T| #[trigger] self.formatter.requires((t,))
        &&& forall|s: &str| #[trigger] self.validater.requires((s,))
    }

    /// A field over `value`, shown by `formatter`, that takes what `validater`
    /// accepts; it updates on every edit.
    pub fn new(value: &'a mut T, formatter: F, validater: V) -> (r: Self)
        ensures
            *r.external_value == *old(value),
            *final(value) == *final(r.external_value),
            r.updated_value is None,
            r.formatter == formatter,
            r.validater == validater,
            r.update_while_editing,
    {
        ValidatingValue {
            external_value: value,
            updated_value: None,
            formatter,
            validater,
            update_while_editing: true,
        }
    }

    /// Update the value on each key press when text-editing the value.
    ///
    /// If `false`, the value is only updated when the user presses enter or
    /// leaves the field.
    pub fn update_while_editing(self, update: bool) -> (r: Self)
        ensures
            *r.external_value == *old(self.external_value),
            *final(self.external_value) == *final(r.external_value),
            r.updated_value == self.updated_value,
            r.formatter == self.formatter,
            r.validater == self.validater,
            r.update_while_editing == update,
    {
        let mut s = self;
        s.update_while_editing = update;
        s
    }

    /// The value the field shows now: the one accepted during this frame, if any.
    pub fn current(&self) -> (r: &T)
        ensures
            *r == self.current_spec(),
    {
        match &self.updated_value {
            Some(v) => v,
            None => &*self.external_value,
        }
    }

    /// The text of the value the field shows now.
    pub fn current_text(&self) -> (r: String)
        requires
            self.callable(),
        ensures
            self.formatter.ensures((&self.current_spec(),), r),
    {
        let cur = self.current();
        (self.formatter)(cur)
    }

    /// Hands `text` to the validater and keeps what it accepts; a rejected text
    /// leaves the field as it was.
    pub fn offer_text(&mut self, text: &str) -> (accepted: bool)
        requires
            old(self).callable(),
        ensures
            final(self).external_value == old(self).external_value,
            final(self).formatter == old(self).formatter,
            final(self).validater == old(self).validater,
            final(self).update_while_editing == old(self).update_while_editing,
            exists|p: Option<T>|
                #[trigger] old(self).validater.ensures((text,), p) && accepted == (p is Some) && (
                match p {
                    Some(v) => final(self).updated_value == Some(v),
                    None => final(self).updated_value == old(self).updated_value,
                }),
    {
        let parsed = (self.validater)(text);
        match parsed {
            Some(v) => {
                self.updated_value = Some(v);
                true
            },
            None => false,
        }
    }

    /// `p` is what the validater gave for `text` where the text was handed over
    /// (`applies`), and `None` where nothing was.
    pub open spec fn validated(&self, text: Option<&str>, applies: bool, p: Option<T>) -> bool {
        match text {
            Some(t) => if applies {
                self.validater.ensures((t,), p)
            } else {
                p is None
            },
            None => p is None,
        }
    }

    pub open spec fn edit_applies_spec(&self, text_changed: bool, lost_focus: bool, escape_pressed: bool) -> bool {
        if self.update_while_editing {
            text_changed
        } else {
            lost_focus && !escape_pressed
        }
    }

    /// Whether an edit of this frame is handed to the validater: on every change of
    /// the text when the field updates while editing, else only when the field was
    /// left without escape.
    pub fn edit_applies(&self, text_changed: bool, lost_focus: bool, escape_pressed: bool) -> (r: bool)
        ensures
            r == self.edit_applies_spec(text_changed, lost_focus, escape_pressed),
    {
        if self.update_while_editing {
            text_changed
        } else {
            lost_focus && !escape_pressed
        }
    }

    /// Whether the text edited in an earlier frame is handed to the validater now:
    /// when the field was left this frame, other than by escape.
    pub fn stored_text_applies(&self, lost_focus: bool, escape_pressed: bool) -> (r: bool)
        ensures
            r == (lost_focus && !escape_pressed),
    {
        lost_focus && !escape_pressed
    }

    /// The edits of one frame, in their order: first the text stored by an earlier
    /// frame, handed over where the field was left this frame other than by escape;
    /// then the text being edited now, if any, handed over where `edit_applies`
    /// says so. What the validater rejects changes nothing; the last text it
    /// accepts decides the value.
    pub fn apply_frame(
        &mut self,
        stored_text: Option<&str>,
        lost_focus: bool,
        edited_text: Option<&str>,
        text_changed: bool,
        edit_lost_focus: bool,
        escape_pressed: bool,
    )
        requires
            old(self).callable(),
        ensures
            final(self).external_value == old(self).external_value,
            final(self).formatter == old(self).formatter,
            final(self).validater == old(self).validater,
            final(self).update_while_editing == old(self).update_while_editing,
            exists|a: Option<T>, b: Option<T>|
                old(self).validated(stored_text, lost_focus && !escape_pressed, a)
                    && old(self).validated(
                    edited_text,
                    old(self).edit_applies_spec(text_changed, edit_lost_focus, escape_pressed),
                    b,
                ) && final(self).updated_value == #[trigger] frame_value(old(self).updated_value, a, b),
    {
        let ghost prev = self.updated_value;
        let ghost mut a: Option<T> = None;
        if let Some(t) = stored_text {
            if self.stored_text_applies(lost_focus, escape_pressed) {
                let parsed = (self.validater)(t);
                proof {
                    a = parsed;
                }
                if let Some(v) = parsed {
                    self.updated_value = Some(v);
                }
            }
        }
        let ghost mut b: Option<T> = None;
        if let Some(t) = edited_text {
            if self.edit_applies(text_changed, edit_lost_focus, escape_pressed) {
                let parsed = (self.validater)(t);
                proof {
                    b = parsed;
                }
                if let Some(v) = parsed {
                    self.updated_value = Some(v);
                }
            }
        }
        assert(self.updated_value == frame_value(prev, a, b));
    }

    /// Whether the text shown now differs from `before`, the text shown when the
    /// frame began.
    pub fn changed_since(&self, before: &String) -> (r: bool)
        requires
            self.callable(),
        ensures
            exists|t: String| #[trigger] self.formatter.ensures((&self.current_spec(),), t) && r == (t@ != before@),
    {
        let now = self.current_text();
        !(now == *before)
    }

    /// Ends the frame: a value accepted during it replaces the caller's value.
    pub fn commit(self)
        ensures
            *final(self.external_value) == self.current_spec(),
    {
        let ValidatingValue { external_value, updated_value, .. } = self;
        match updated_value {
            Some(v) => {
                *external_value = v;
            },
            None => {},
        }
    }
}

} // verus!
