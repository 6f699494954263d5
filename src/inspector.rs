//! The state of the window inspector and what each of its buttons does to it.
//! The calls into the windowing system are made by the caller, which hands the
//! results in as plain values.
use vstd::prelude::*;

use crate::numeral::{
    address_hex, address_text, decimal_text, parse_usize, signed_decimal, usize_from_text,
    usize_parse_error_text,
};

verus! {

/// A handle a windowing call returned, or `None` where it returned the null
/// handle, which stands for failure.
pub fn non_null(raw: usize) -> (r: Option<usize>)
    ensures
        r == if raw == 0 {
            None
        } else {
            Some(raw)
        },
{
    if raw == 0 {
        None
    } else {
        Some(raw)
    }
}

/// A window handle, by its address.
#[derive(Clone, Copy, Debug, PartialEq, Eq, Structural)]
pub struct Hwnd {
    pub raw: usize,
}

impl Hwnd {
    /// The handle a lookup returned, or `None` where it returned the null handle,
    /// which stands for failure.
    pub fn from_raw(raw: usize) -> (r: Option<Hwnd>)
        ensures
            r == if raw == 0 {
                None
            } else {
                Some(Hwnd { raw })
            },
    {
        match non_null(raw) {
            Some(raw) => Some(Hwnd { raw }),
            None => None,
        }
    }
}

/// A window's rectangle in screen coordinates.
#[derive(Clone, Copy, Debug, PartialEq, Eq, Structural)]
pub struct WindowRect {
    pub left: i32,
    pub top: i32,
    pub right: i32,
    pub bottom: i32,
}

impl WindowRect {
    /// Width and height are both representable as `i32`.
    pub open spec fn size_fits(&self) -> bool {
        &&& i32::MIN <= self.right - self.left <= i32::MAX
        &&& i32::MIN <= self.bottom - self.top <= i32::MAX
    }
}

/// The extended window style bit that keeps a window above all others.
pub const WS_EX_TOPMOST: u32 = 0x0000_0008;

/// Where a window goes in the Z-order when its stay-on-top attribute is toggled.
#[derive(Clone, Copy, Debug, PartialEq, Eq, Structural)]
pub enum ZPlacement {
    /// Above all windows that are not topmost, and topmost itself.
    Topmost,
    /// Below all topmost windows, and no longer topmost itself.
    NoTopmost,
}

/// The placement that toggles the stay-on-top attribute of a window whose extended
/// style is `ex_style`.
pub fn toggled_topmost(ex_style: u32) -> (r: ZPlacement)
    ensures
        r == if ex_style & WS_EX_TOPMOST != 0 {
            ZPlacement::NoTopmost
        } else {
            ZPlacement::Topmost
        },
{
    if ex_style & WS_EX_TOPMOST != 0 {
        ZPlacement::NoTopmost
    } else {
        ZPlacement::Topmost
    }
}

/// How an optional handle is shown: `None`, or `Some(` its address `)`.
pub open spec fn selection_text(h: Option<Hwnd>) -> Seq<char> {
    match h {
        None => "None"@,
        Some(w) => "Some("@ + address_text(w.raw as nat) + ")"@,
    }
}

/// The inspector's state.
pub struct MyApp {
    /// The window the buttons act on.
    pub selected_hwnd: Option<Hwnd>,
    /// What the last actions reported.
    pub log_text: String,
    pub x: i32,
    pub y: i32,
    /// Width.
    pub sx: i32,
    /// Height.
    pub sy: i32,
    /// The text typed as a handle.
    pub temp_string: String,
}

impl Default for MyApp {
    fn default() -> (r: Self)
        ensures
            r.selected_hwnd is None,
            r.log_text@ == Seq::<char>::empty(),
            r.x == 0 && r.y == 0 && r.sx == 0 && r.sy == 0,
            r.temp_string@ == Seq::<char>::empty(),
    {
        MyApp {
            selected_hwnd: None,
            log_text: String::new(),
            x: 0,
            y: 0,
            sx: 0,
            sy: 0,
            temp_string: String::new(),
        }
    }
}

impl MyApp {
    /// The one-line summary of the state: selection, position and size,
    /// separated by commas.
    pub open spec fn summary(&self) -> Seq<char> {
        selection_text(self.selected_hwnd) + ","@ + signed_decimal(self.x as int) + ","@
            + signed_decimal(self.y as int) + ","@ + signed_decimal(self.sx as int) + ","@
            + signed_decimal(self.sy as int)
    }

    /// All fields but the log are as in `other`.
    pub open spec fn same_but_log(&self, other: &MyApp) -> bool {
        &&& self.selected_hwnd == other.selected_hwnd
        &&& self.x == other.x && self.y == other.y
        &&& self.sx == other.sx && self.sy == other.sy
        &&& self.temp_string == other.temp_string
    }

    /// How the selection is shown.
    pub fn selection_label(&self) -> (r: String)
        ensures
            r@ == selection_text(self.selected_hwnd),
    {
        match self.selected_hwnd {
            None => String::from_str("None"),
            Some(w) => {
                let mut t = String::from_str("Some(");
                let a = address_hex(w.raw);
                t.append(a.as_str());
                t.append(")");
                t
            },
        }
    }

    /// The one-line summary of the state.
    pub fn describe(&self) -> (r: String)
        ensures
            r@ == self.summary(),
    {
        let mut out = self.selection_label();
        let x = decimal_text(self.x);
        let y = decimal_text(self.y);
        let sx = decimal_text(self.sx);
        let sy = decimal_text(self.sy);
        out.append(",");
        out.append(x.as_str());
        out.append(",");
        out.append(y.as_str());
        out.append(",");
        out.append(sx.as_str());
        out.append(",");
        out.append(sy.as_str());
        proof {
            assert(out@ =~= self.summary());
        }
        out
    }

    /// Adds `s` and a line break to the log.
    pub fn logln(&mut self, s: &str)
        ensures
            final(self).log_text@ == old(self).log_text@ + s@ + "\n"@,
            final(self).same_but_log(old(self)),
    {
        self.log_text.append(s);
        self.log_text.append("\n");
    }

    /// Empties the log.
    pub fn clear_log(&mut self)
        ensures
            final(self).log_text@ == Seq::<char>::empty(),
            final(self).same_but_log(old(self)),
    {
        self.log_text = String::new();
    }

    /// Takes the outcome of a lookup: a found window becomes the selection and
    /// empties the log; a failure clears the selection and puts its message in
    /// the log.
    pub fn select(&mut self, found: Result<Hwnd, String>)
        ensures
            match found {
                Ok(h) => final(self).selected_hwnd == Some(h) && final(self).log_text@ == Seq::<
                    char,
                >::empty(),
                Err(m) => final(self).selected_hwnd is None && final(self).log_text@ == m@,
            },
            final(self).x == old(self).x && final(self).y == old(self).y,
            final(self).sx == old(self).sx && final(self).sy == old(self).sy,
            final(self).temp_string == old(self).temp_string,
    {
        match found {
            Ok(h) => {
                self.selected_hwnd = Some(h);
                self.log_text = String::new();
            },
            Err(m) => {
                self.selected_hwnd = None;
                self.log_text = m;
            },
        }
    }

    /// Selects the handle whose address is typed in `temp_string`, or reports why
    /// the text is not one.
    pub fn set_hwnd_from_text(&mut self)
        ensures
            match usize_from_text(old(self).temp_string@) {
                Some(v) => final(self).selected_hwnd == Some(Hwnd { raw: v as usize })
                    && final(self).log_text@ == Seq::<char>::empty(),
                None => final(self).selected_hwnd is None && final(self).log_text@
                    == usize_parse_error_text(old(self).temp_string@),
            },
            final(self).x == old(self).x && final(self).y == old(self).y,
            final(self).sx == old(self).sx && final(self).sy == old(self).sy,
            final(self).temp_string == old(self).temp_string,
    {
        let parsed = parse_usize(self.temp_string.as_str());
        let found = match parsed {
            Ok(raw) => Ok(Hwnd { raw }),
            Err(m) => Err(m),
        };
        self.select(found);
    }

    /// Takes the outcome of the parent lookup: a found parent becomes the selection
    /// and the log stays; a failure clears the selection and puts its message in
    /// the log.
    pub fn select_parent(&mut self, found: Result<Hwnd, String>)
        ensures
            match found {
                Ok(h) => final(self).selected_hwnd == Some(h) && final(self).log_text
                    == old(self).log_text,
                Err(m) => final(self).selected_hwnd is None && final(self).log_text@ == m@,
            },
            final(self).x == old(self).x && final(self).y == old(self).y,
            final(self).sx == old(self).sx && final(self).sy == old(self).sy,
            final(self).temp_string == old(self).temp_string,
    {
        match found {
            Ok(h) => {
                self.selected_hwnd = Some(h);
            },
            Err(m) => {
                self.select(Err(m));
            },
        }
    }

    /// Takes the outcome of the rectangle lookup: a rectangle becomes position and
    /// size as `apply_window_rect` does; a failure adds its message to the log and
    /// changes nothing else.
    pub fn take_window_rect(&mut self, found: Result<WindowRect, String>)
        requires
            found is Ok ==> found->Ok_0.size_fits(),
        ensures
            match found {
                Ok(rect) => final(self).x == rect.left && final(self).y == rect.top
                    && final(self).sx == rect.right - rect.left && final(self).sy == rect.bottom
                    - rect.top && final(self).selected_hwnd == old(self).selected_hwnd
                    && final(self).temp_string == old(self).temp_string && final(self).log_text@
                    == old(self).log_text@ + "self: "@ + final(self).summary() + "\n"@,
                Err(m) => final(self).same_but_log(old(self)) && final(self).log_text@
                    == old(self).log_text@ + m@ + "\n"@,
            },
    {
        match found {
            Ok(rect) => self.apply_window_rect(rect),
            Err(m) => self.logln(m.as_str()),
        }
    }

    /// Takes the selected window's rectangle as position and size, and logs the
    /// new summary after `self: `.
    pub fn apply_window_rect(&mut self, rect: WindowRect)
        requires
            rect.size_fits(),
        ensures
            final(self).x == rect.left && final(self).y == rect.top,
            final(self).sx == rect.right - rect.left,
            final(self).sy == rect.bottom - rect.top,
            final(self).selected_hwnd == old(self).selected_hwnd,
            final(self).temp_string == old(self).temp_string,
            final(self).log_text@ == old(self).log_text@ + "self: "@ + final(self).summary()
                + "\n"@,
    {
        self.x = rect.left;
        self.y = rect.top;
        self.sx = rect.right - rect.left;
        self.sy = rect.bottom - rect.top;
        let mut line = String::from_str("self: ");
        let summary = self.describe();
        line.append(summary.as_str());
        self.logln(line.as_str());
    }

    /// Position and size to give the selected window: `(x, y, width, height)`.
    pub fn placement(&self) -> (r: (i32, i32, i32, i32))
        ensures
            r == (self.x, self.y, self.sx, self.sy),
    {
        (self.x, self.y, self.sx, self.sy)
    }
}

} // verus!
