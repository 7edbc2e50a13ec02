use vstd::prelude::*;
use vstd::string::*;

use crate::ansi_string::{
    bg_256_set, bg_rgb_set, cursor_move_code, decimal, fg_256_set, fg_rgb_set, spaces, ShAnsiString,
};
use crate::escape_sequence::{
    CRLF, ESC0K, ESC0M, ESC1K, ESC1M, ESC22M, ESC23M, ESC24M, ESC25M, ESC29M, ESC2K, ESC3M, ESC4M,
    ESC5M, ESC9M, ESCS, ESCU, SPACE, TAB,
};

verus! {

/// The scripting-facing styled text builder: the same building steps as
/// [`ShAnsiString`], applied in place.
pub struct AnsiString {
    pub inner: ShAnsiString,
}

impl AnsiString {
    /// Empty text, no color set.
    pub fn new() -> (r: Self)
        ensures
            r.inner.text() == Seq::<char>::empty(),
            r.inner.no_colors(),
    {
        AnsiString { inner: ShAnsiString::new() }
    }

    /// Moves the builder out, leaving an empty one in its place.
    fn take(&mut self) -> (r: ShAnsiString)
        ensures
            r == old(self).inner,
    {
        let mut s = ShAnsiString::new();
        core::mem::swap(&mut s, &mut self.inner);
        s
    }

    /// A copy of the text built so far.
    pub fn as_str(&self) -> (r: String)
        ensures
            r@ == self.inner.text(),
    {
        String::from_str(self.inner.as_str())
    }

    /// Length of the text in bytes, as an `i32`.
    pub fn len(&self) -> (r: i32)
        ensures
            r == crate::ansi_string::encode_utf8_len(self.inner.text()) as usize as i32,
    {
        self.inner.len() as i32
    }

    pub fn is_empty(&self) -> (r: bool)
        ensures
            r == (self.inner.text().len() == 0),
    {
        self.inner.is_empty()
    }

    /// See [`ShAnsiString::foreground_256`].
    pub fn foreground_256(&mut self, color: i16)
        ensures
            fg_256_set(&final(self).inner, &old(self).inner, color),
    {
        self.inner = self.take().foreground_256(color);
    }

    /// See [`ShAnsiString::background_256`].
    pub fn background_256(&mut self, color: i16)
        ensures
            bg_256_set(&final(self).inner, &old(self).inner, color),
    {
        self.inner = self.take().background_256(color);
    }

    /// See [`ShAnsiString::foreground_rgb`].
    pub fn foreground_rgb(&mut self, r: i16, g: i16, b: i16)
        ensures
            fg_rgb_set(&final(self).inner, &old(self).inner, r, g, b),
    {
        self.inner = self.take().foreground_rgb(r, g, b);
    }

    /// See [`ShAnsiString::background_rgb`].
    pub fn background_rgb(&mut self, r: i16, g: i16, b: i16)
        ensures
            bg_rgb_set(&final(self).inner, &old(self).inner, r, g, b),
    {
        self.inner = self.take().background_rgb(r, g, b);
    }

    /// Appends the reset sequence and unsets every color.
    pub fn clear_style(&mut self)
        ensures
            final(self).inner.text() == old(self).inner.text() + ESC0M@,
            final(self).inner.no_colors(),
    {
        self.inner = self.take().clear_style();
    }

    /// Appends `s` in the current colors; an empty `s` appends nothing.
    pub fn append(&mut self, s: &str)
        ensures
            s@.len() == 0 ==> final(self).inner.text() == old(self).inner.text(),
            s@.len() > 0 ==> final(self).inner.text() == old(self).inner.text() + old(
                self,
            ).inner.colored(s@),
            final(self).inner.same_colors(&old(self).inner),
    {
        self.inner = self.take().append(s);
    }

    /// Appends the sequence that moves the cursor to (`line`, `column`).
    pub fn cursor_move_to(&mut self, line: i32, column: i32)
        ensures
            final(self).inner.text() == old(self).inner.text() + cursor_move_code(line, column),
            final(self).inner.same_colors(&old(self).inner),
    {
        self.inner = self.take().cursor_move_to(line, column);
    }

    /// Appends the decimal text of `val` in the current colors.
    pub fn append_int(&mut self, val: i32)
        ensures
            final(self).inner.text() == old(self).inner.text() + old(self).inner.colored(
                decimal(val as int),
            ),
            final(self).inner.same_colors(&old(self).inner),
    {
        self.inner = self.take().append_i32(val);
    }

    /// Appends `true` or `false` in the current colors.
    pub fn append_bool(&mut self, val: bool)
        ensures
            final(self).inner.text() == old(self).inner.text() + old(self).inner.colored(
                if val {
                    "true"@
                } else {
                    "false"@
                },
            ),
            final(self).inner.same_colors(&old(self).inner),
    {
        self.inner = self.take().append_bool(val);
    }

    /// Appends `cnt` spaces.
    pub fn space_in(&mut self, cnt: u32)
        ensures
            final(self).inner.text() == old(self).inner.text() + spaces(cnt as nat),
            final(self).inner.same_colors(&old(self).inner),
    {
        self.inner = self.take().space_in(cnt as usize);
    }

    /// Empties the text, colors unchanged.
    pub fn clear_str(&mut self)
        ensures
            final(self).inner.text() == Seq::<char>::empty(),
            final(self).inner.same_colors(&old(self).inner),
    {
        self.inner = self.take().clear_str();
    }

    /// See [`ShAnsiString::bold`].
    pub fn bold(&mut self)
        ensures
            final(self).inner.text() == old(self).inner.text() + ESC1M@,
            final(self).inner.same_colors(&old(self).inner),
    {
        self.inner = self.take().bold();
    }

    /// See [`ShAnsiString::de_bold`].
    pub fn de_bold(&mut self)
        ensures
            final(self).inner.text() == old(self).inner.text() + ESC22M@,
            final(self).inner.same_colors(&old(self).inner),
    {
        self.inner = self.take().de_bold();
    }

    /// See [`ShAnsiString::italic`].
    pub fn italic(&mut self)
        ensures
            final(self).inner.text() == old(self).inner.text() + ESC3M@,
            final(self).inner.same_colors(&old(self).inner),
    {
        self.inner = self.take().italic();
    }

    /// See [`ShAnsiString::de_italic`].
    pub fn de_italic(&mut self)
        ensures
            final(self).inner.text() == old(self).inner.text() + ESC23M@,
            final(self).inner.same_colors(&old(self).inner),
    {
        self.inner = self.take().de_italic();
    }

    /// See [`ShAnsiString::underline`].
    pub fn underline(&mut self)
        ensures
            final(self).inner.text() == old(self).inner.text() + ESC4M@,
            final(self).inner.same_colors(&old(self).inner),
    {
        self.inner = self.take().underline();
    }

    /// See [`ShAnsiString::de_underline`].
    pub fn de_underline(&mut self)
        ensures
            final(self).inner.text() == old(self).inner.text() + ESC24M@,
            final(self).inner.same_colors(&old(self).inner),
    {
        self.inner = self.take().de_underline();
    }

    /// See [`ShAnsiString::blinking`].
    pub fn blinking(&mut self)
        ensures
            final(self).inner.text() == old(self).inner.text() + ESC5M@,
            final(self).inner.same_colors(&old(self).inner),
    {
        self.inner = self.take().blinking();
    }

    /// See [`ShAnsiString::de_blinking`].
    pub fn de_blinking(&mut self)
        ensures
            final(self).inner.text() == old(self).inner.text() + ESC25M@,
            final(self).inner.same_colors(&old(self).inner),
    {
        self.inner = self.take().de_blinking();
    }

    /// See [`ShAnsiString::strikethrough`].
    pub fn strikethrough(&mut self)
        ensures
            final(self).inner.text() == old(self).inner.text() + ESC9M@,
            final(self).inner.same_colors(&old(self).inner),
    {
        self.inner = self.take().strikethrough();
    }

    /// See [`ShAnsiString::de_strikethrough`].
    pub fn de_strikethrough(&mut self)
        ensures
            final(self).inner.text() == old(self).inner.text() + ESC29M@,
            final(self).inner.same_colors(&old(self).inner),
    {
        self.inner = self.take().de_strikethrough();
    }

    /// See [`ShAnsiString::save_cursor_position`].
    pub fn save_cursor_position(&mut self)
        ensures
            final(self).inner.text() == old(self).inner.text() + ESCS@,
            final(self).inner.same_colors(&old(self).inner),
    {
        self.inner = self.take().save_cursor_position();
    }

    /// See [`ShAnsiString::restore_cursor_position`].
    pub fn restore_cursor_position(&mut self)
        ensures
            final(self).inner.text() == old(self).inner.text() + ESCU@,
            final(self).inner.same_colors(&old(self).inner),
    {
        self.inner = self.take().restore_cursor_position();
    }

    /// See [`ShAnsiString::crlf`].
    pub fn crlf(&mut self)
        ensures
            final(self).inner.text() == old(self).inner.text() + CRLF@,
            final(self).inner.same_colors(&old(self).inner),
    {
        self.inner = self.take().crlf();
    }

    /// See [`ShAnsiString::tab`].
    pub fn tab(&mut self)
        ensures
            final(self).inner.text() == old(self).inner.text() + TAB@,
            final(self).inner.same_colors(&old(self).inner),
    {
        self.inner = self.take().tab();
    }

    /// See [`ShAnsiString::space`].
    pub fn space(&mut self)
        ensures
            final(self).inner.text() == old(self).inner.text() + SPACE@,
            final(self).inner.same_colors(&old(self).inner),
    {
        self.inner = self.take().space();
    }

    /// See [`ShAnsiString::clear_cursor_to_end`].
    pub fn clear_cursor_to_end(&mut self)
        ensures
            final(self).inner.text() == old(self).inner.text() + ESC0K@,
            final(self).inner.same_colors(&old(self).inner),
    {
        self.inner = self.take().clear_cursor_to_end();
    }

    /// See [`ShAnsiString::clear_cursor_to_start`].
    pub fn clear_cursor_to_start(&mut self)
        ensures
            final(self).inner.text() == old(self).inner.text() + ESC1K@,
            final(self).inner.same_colors(&old(self).inner),
    {
        self.inner = self.take().clear_cursor_to_start();
    }

    /// See [`ShAnsiString::clear_line`].
    pub fn clear_line(&mut self)
        ensures
            final(self).inner.text() == old(self).inner.text() + ESC2K@,
            final(self).inner.same_colors(&old(self).inner),
    {
        self.inner = self.take().clear_line();
    }
}

impl From<AnsiString> for ShAnsiString {
    fn from(value: AnsiString) -> (r: ShAnsiString)
        ensures
            r == value.inner,
    {
        value.inner
    }
}

impl vstd::std_specs::convert::FromSpecImpl<AnsiString> for ShAnsiString {
    open spec fn obeys_from_spec() -> bool {
        true
    }

    open spec fn from_spec(v: AnsiString) -> ShAnsiString {
        v.inner
    }
}

} // verus!
