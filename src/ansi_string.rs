use vstd::prelude::*;
use vstd::string::*;

use crate::escape_sequence::{
    CRLF, ESC0K, ESC0M, ESC1K, ESC1M, ESC22M, ESC23M, ESC24M, ESC25M, ESC29M, ESC2J, ESC2K, ESC3M,
    ESC4M, ESC5M, ESC9M, ESCS, ESCU, SPACE, TAB,
};

verus! {

/// The decimal digit `d` as a character.
pub open spec fn digit_char(d: int) -> char {
    if d == 0 {
        '0'
    } else if d == 1 {
        '1'
    } else if d == 2 {
        '2'
    } else if d == 3 {
        '3'
    } else if d == 4 {
        '4'
    } else if d == 5 {
        '5'
    } else if d == 6 {
        '6'
    } else if d == 7 {
        '7'
    } else if d == 8 {
        '8'
    } else {
        '9'
    }
}

/// Decimal digits of `n`, most significant first, without leading zeros.
pub open spec fn digits(n: nat) -> Seq<char>
    decreases n,
{
    if n < 10 {
        seq![digit_char(n as int)]
    } else {
        digits(n / 10).push(digit_char((n % 10) as int))
    }
}

/// Decimal text of an integer, as `to_string` writes it.
pub open spec fn decimal(n: int) -> Seq<char> {
    if n < 0 {
        seq!['-'] + digits((-n) as nat)
    } else {
        digits(n as nat)
    }
}

fn digit_to_char(d: u64) -> (c: char)
    requires
        d < 10,
    ensures
        c == digit_char(d as int),
{
    if d == 0 {
        '0'
    } else if d == 1 {
        '1'
    } else if d == 2 {
        '2'
    } else if d == 3 {
        '3'
    } else if d == 4 {
        '4'
    } else if d == 5 {
        '5'
    } else if d == 6 {
        '6'
    } else if d == 7 {
        '7'
    } else if d == 8 {
        '8'
    } else {
        '9'
    }
}

/// Relies on std's `String::push`: the character is appended at the end.
#[verifier::external_body]
fn push_char(s: &mut String, c: char)
    ensures
        final(s)@ == old(s)@.push(c),
{
    s.push(c)
}

/// Relies on std's `String::push_str`: the text is appended at the end.
#[verifier::external_body]
fn push_str(s: &mut String, t: &str)
    ensures
        final(s)@ == old(s)@ + t@,
{
    s.push_str(t)
}

/// Relies on std's `String::clear`: the string becomes empty.
#[verifier::external_body]
fn clear_string(s: &mut String)
    ensures
        final(s)@ == Seq::<char>::empty(),
{
    s.clear()
}

fn push_digits(s: &mut String, n: u64)
    ensures
        final(s)@ == old(s)@ + digits(n as nat),
    decreases n,
{
    if n >= 10 {
        push_digits(s, n / 10);
    }
    push_char(s, digit_to_char(n % 10));
    proof {
        if n < 10 {
            assert(n % 10 == n);
        }
        assert(final(s)@ =~= old(s)@ + digits(n as nat));
    }
}

/// Appends the decimal text of `n`.
pub(crate) fn push_decimal(s: &mut String, n: i128)
    requires
        -0x1_0000_0000_0000_0000 < n < 0x1_0000_0000_0000_0000,
    ensures
        final(s)@ == old(s)@ + decimal(n as int),
{
    if n < 0 {
        push_char(s, '-');
        push_digits(s, (-n) as u64);
    } else {
        push_digits(s, n as u64);
    }
    proof {
        assert(final(s)@ =~= old(s)@ + decimal(n as int));
    }
}

/// A color component or palette index is set when it is in `0..=255`.
pub open spec fn in_color_range(c: i16) -> bool {
    0 <= c <= 255
}

pub open spec fn fg_256_code(c: i16) -> Seq<char> {
    "\u{1b}[38;5;"@ + decimal(c as int) + "m"@
}

pub open spec fn bg_256_code(c: i16) -> Seq<char> {
    "\u{1b}[48;5;"@ + decimal(c as int) + "m"@
}

pub open spec fn fg_rgb_code(r: i16, g: i16, b: i16) -> Seq<char> {
    "\u{1b}[38;2;"@ + decimal(r as int) + ";"@ + decimal(g as int) + ";"@ + decimal(b as int)
        + "m"@
}

pub open spec fn bg_rgb_code(r: i16, g: i16, b: i16) -> Seq<char> {
    "\u{1b}[48;2;"@ + decimal(r as int) + ";"@ + decimal(g as int) + ";"@ + decimal(b as int)
        + "m"@
}

/// Cursor-move sequence to (`line`, `column`).
pub open spec fn cursor_move_code(line: i32, column: i32) -> Seq<char> {
    "\u{1b}["@ + decimal(line as int) + ";"@ + decimal(column as int) + "H"@
}

/// `n` spaces.
pub open spec fn spaces(n: nat) -> Seq<char> {
    Seq::new(n, |i: int| ' ')
}

/// `text` fitted to `len` columns: cut to its first `len` characters when its
/// UTF-8 encoding is longer than `len` bytes, padded with spaces to `len`
/// characters otherwise.
pub open spec fn fixed_text(text: Seq<char>, byte_len: nat, len: nat) -> Seq<char> {
    if byte_len > len {
        if text.len() > len {
            text.subrange(0, len as int)
        } else {
            text
        }
    } else if text.len() < len {
        text + spaces((len - text.len()) as nat)
    } else {
        text
    }
}

/// `r` is `s` after setting the 256-color foreground to `color`.
pub open spec fn fg_256_set(r: &ShAnsiString, s: &ShAnsiString, color: i16) -> bool {
    &&& r.text() == s.text()
    &&& !in_color_range(color) ==> r.same_colors(s)
    &&& in_color_range(color) ==> r.fg_256 == color && r.fg_r == -1 && r.fg_g == -1 && r.fg_b == -1
        && r.same_background(s)
}

/// `r` is `s` after setting the 256-color background to `color`.
pub open spec fn bg_256_set(r: &ShAnsiString, s: &ShAnsiString, color: i16) -> bool {
    &&& r.text() == s.text()
    &&& !in_color_range(color) ==> r.same_colors(s)
    &&& in_color_range(color) ==> r.bg_256 == color && r.bg_r == -1 && r.bg_g == -1 && r.bg_b == -1
        && r.same_foreground(s)
}

/// `res` is `s` after setting the RGB foreground to (`r`, `g`, `b`).
pub open spec fn fg_rgb_set(res: &ShAnsiString, s: &ShAnsiString, r: i16, g: i16, b: i16) -> bool {
    &&& res.text() == s.text()
    &&& !(in_color_range(r) && in_color_range(g) && in_color_range(b)) ==> res.same_colors(s)
    &&& in_color_range(r) && in_color_range(g) && in_color_range(b) ==> res.fg_256 == -1 && res.fg_r
        == r && res.fg_g == g && res.fg_b == b && res.same_background(s)
}

/// `res` is `s` after setting the RGB background to (`r`, `g`, `b`).
pub open spec fn bg_rgb_set(res: &ShAnsiString, s: &ShAnsiString, r: i16, g: i16, b: i16) -> bool {
    &&& res.text() == s.text()
    &&& !(in_color_range(r) && in_color_range(g) && in_color_range(b)) ==> res.same_colors(s)
    &&& in_color_range(r) && in_color_range(g) && in_color_range(b) ==> res.bg_256 == -1 && res.bg_r
        == r && res.bg_g == g && res.bg_b == b && res.same_foreground(s)
}

/// Builder of styled terminal text made of ANSI escape sequences: colors that
/// apply to appended text, style switches, cursor movement and erasure.
///
/// A color field of `-1` means the color is not set.
pub struct ShAnsiString {
    pub builder: String,
    pub bg_256: i16,
    pub fg_256: i16,
    pub bg_r: i16,
    pub bg_g: i16,
    pub bg_b: i16,
    pub fg_r: i16,
    pub fg_g: i16,
    pub fg_b: i16,
}

impl ShAnsiString {
    /// The text built so far.
    pub open spec fn text(&self) -> Seq<char> {
        self.builder@
    }

    /// The two builders have the same background colors set.
    pub open spec fn same_background(&self, other: &ShAnsiString) -> bool {
        &&& self.bg_256 == other.bg_256
        &&& self.bg_r == other.bg_r
        &&& self.bg_g == other.bg_g
        &&& self.bg_b == other.bg_b
    }

    /// The two builders have the same foreground colors set.
    pub open spec fn same_foreground(&self, other: &ShAnsiString) -> bool {
        &&& self.fg_256 == other.fg_256
        &&& self.fg_r == other.fg_r
        &&& self.fg_g == other.fg_g
        &&& self.fg_b == other.fg_b
    }

    /// The two builders have the same colors set.
    pub open spec fn same_colors(&self, other: &ShAnsiString) -> bool {
        self.same_background(other) && self.same_foreground(other)
    }

    /// `msg` wrapped in the escape sequences of the colors that are set: the
    /// 256-color foreground innermost, then the 256-color background, the RGB
    /// foreground, and the RGB background outermost.
    pub open spec fn colored(&self, msg: Seq<char>) -> Seq<char> {
        let a = if self.fg_256 != -1 {
            fg_256_code(self.fg_256) + msg
        } else {
            msg
        };
        let b = if self.bg_256 != -1 {
            bg_256_code(self.bg_256) + a
        } else {
            a
        };
        let c = if self.fg_r != -1 && self.fg_g != -1 && self.fg_b != -1 {
            fg_rgb_code(self.fg_r, self.fg_g, self.fg_b) + b
        } else {
            b
        };
        if self.bg_r != -1 && self.bg_g != -1 && self.bg_b != -1 {
            bg_rgb_code(self.bg_r, self.bg_g, self.bg_b) + c
        } else {
            c
        }
    }

    /// No color set.
    pub open spec fn no_colors(&self) -> bool {
        &&& self.bg_256 == -1
        &&& self.fg_256 == -1
        &&& self.bg_r == -1
        &&& self.bg_g == -1
        &&& self.bg_b == -1
        &&& self.fg_r == -1
        &&& self.fg_g == -1
        &&& self.fg_b == -1
    }

    /// Empty text, no color set.
    pub fn new() -> (r: Self)
        ensures
            r.text() == Seq::<char>::empty(),
            r.no_colors(),
    {
        ShAnsiString {
            builder: String::new(),
            bg_256: -1,
            fg_256: -1,
            bg_r: -1,
            bg_g: -1,
            bg_b: -1,
            fg_r: -1,
            fg_g: -1,
            fg_b: -1,
        }
    }

    pub fn as_str(&self) -> (r: &str)
        ensures
            r@ == self.text(),
    {
        self.builder.as_str()
    }

    /// Length of the text in bytes.
    pub fn len(&self) -> (r: usize)
        ensures
            r == encode_utf8_len(self.text()) as usize,
    {
        self.builder.as_str().len()
    }

    pub fn is_empty(&self) -> (r: bool)
        ensures
            r == (self.text().len() == 0),
    {
        self.builder.as_str().is_empty()
    }

    /// Appends `s` to the text, colors unchanged.
    fn push_raw(self, s: &str) -> (r: Self)
        ensures
            r.text() == self.text() + s@,
            r.same_colors(&self),
    {
        let mut this = self;
        push_str(&mut this.builder, s);
        this
    }

    /// Sets the 256-color foreground (clearing an RGB foreground); ignored when
    /// `color` is outside `0..=255`.
    pub fn foreground_256(self, color: i16) -> (r: Self)
        ensures
            fg_256_set(&r, &self, color),
    {
        if !(0 <= color && color <= 255) {
            return self;
        }
        let mut this = self;
        this.fg_r = -1;
        this.fg_g = -1;
        this.fg_b = -1;
        this.fg_256 = color;
        this
    }

    /// Sets the 256-color background (clearing an RGB background); ignored when
    /// `color` is outside `0..=255`.
    pub fn background_256(self, color: i16) -> (r: Self)
        ensures
            bg_256_set(&r, &self, color),
    {
        if !(0 <= color && color <= 255) {
            return self;
        }
        let mut this = self;
        this.bg_r = -1;
        this.bg_g = -1;
        this.bg_b = -1;
        this.bg_256 = color;
        this
    }

    /// Sets the RGB foreground (clearing a 256-color foreground); ignored when
    /// a component is outside `0..=255`.
    pub fn foreground_rgb(self, r: i16, g: i16, b: i16) -> (res: Self)
        ensures
            fg_rgb_set(&res, &self, r, g, b),
    {
        if !(0 <= r && r <= 255) || !(0 <= g && g <= 255) || !(0 <= b && b <= 255) {
            return self;
        }
        let mut this = self;
        this.fg_r = r;
        this.fg_g = g;
        this.fg_b = b;
        this.fg_256 = -1;
        this
    }

    /// Sets the RGB background (clearing a 256-color background); ignored when
    /// a component is outside `0..=255`.
    pub fn background_rgb(self, r: i16, g: i16, b: i16) -> (res: Self)
        ensures
            bg_rgb_set(&res, &self, r, g, b),
    {
        if !(0 <= r && r <= 255) || !(0 <= g && g <= 255) || !(0 <= b && b <= 255) {
            return self;
        }
        let mut this = self;
        this.bg_r = r;
        this.bg_g = g;
        this.bg_b = b;
        this.bg_256 = -1;
        this
    }

    /// Appends the reset sequence and unsets every color.
    pub fn clear_style(self) -> (r: Self)
        ensures
            r.text() == self.text() + ESC0M@,
            r.no_colors(),
    {
        let mut this = self.push_raw(ESC0M);
        this.bg_256 = -1;
        this.fg_256 = -1;
        this.bg_r = -1;
        this.bg_g = -1;
        this.bg_b = -1;
        this.fg_r = -1;
        this.fg_g = -1;
        this.fg_b = -1;
        this
    }

    /// `msg` wrapped in the escape sequences of the colors that are set.
    pub fn fill_color(&self, msg: &str) -> (r: String)
        ensures
            r@ == self.colored(msg@),
    {
        let mut filled = String::from_str(msg);
        if self.fg_256 != -1 {
            let mut s = String::from_str("\u{1b}[38;5;");
            push_decimal(&mut s, self.fg_256 as i128);
            push_str(&mut s, "m");
            push_str(&mut s, filled.as_str());
            filled = s;
        }
        if self.bg_256 != -1 {
            let mut s = String::from_str("\u{1b}[48;5;");
            push_decimal(&mut s, self.bg_256 as i128);
            push_str(&mut s, "m");
            push_str(&mut s, filled.as_str());
            filled = s;
        }
        if self.fg_r != -1 && self.fg_g != -1 && self.fg_b != -1 {
            let mut s = String::from_str("\u{1b}[38;2;");
            push_decimal(&mut s, self.fg_r as i128);
            push_str(&mut s, ";");
            push_decimal(&mut s, self.fg_g as i128);
            push_str(&mut s, ";");
            push_decimal(&mut s, self.fg_b as i128);
            push_str(&mut s, "m");
            push_str(&mut s, filled.as_str());
            filled = s;
        }
        if self.bg_r != -1 && self.bg_g != -1 && self.bg_b != -1 {
            let mut s = String::from_str("\u{1b}[48;2;");
            push_decimal(&mut s, self.bg_r as i128);
            push_str(&mut s, ";");
            push_decimal(&mut s, self.bg_g as i128);
            push_str(&mut s, ";");
            push_decimal(&mut s, self.bg_b as i128);
            push_str(&mut s, "m");
            push_str(&mut s, filled.as_str());
            filled = s;
        }
        proof {
            assert(filled@ =~= self.colored(msg@));
        }
        filled
    }

    /// Appends `s` in the current colors; an empty `s` appends nothing.
    pub fn append(self, s: &str) -> (r: Self)
        ensures
            s@.len() == 0 ==> r.text() == self.text(),
            s@.len() > 0 ==> r.text() == self.text() + self.colored(s@),
            r.same_colors(&self),
    {
        if s.is_empty() {
            return self;
        }
        let filled = self.fill_color(s);
        self.push_raw(filled.as_str())
    }

    /// Appends `text` fitted to `len` columns, in the current colors.
    pub fn append_fixed_text(self, text: &str, len: usize) -> (r: Self)
        ensures
            r.text() == self.text() + self.colored(
                fixed_text(text@, text.len() as nat, len as nat),
            ),
            r.same_colors(&self),
    {
        let n = text.unicode_len();
        let mut fitted = String::new();
        if text.len() > len {
            if n > len {
                push_str(&mut fitted, text.substring_char(0, len));
            } else {
                push_str(&mut fitted, text);
            }
        } else {
            push_str(&mut fitted, text);
            proof {
                assert(fitted@ =~= text@ + spaces(0));
            }
            let mut k: usize = n;
            while k < len
                invariant
                    n == text@.len(),
                    n <= k,
                    k <= len || k == n,
                    fitted@ == text@ + spaces((k - n) as nat),
                decreases len - k,
            {
                push_char(&mut fitted, ' ');
                k += 1;
                proof {
                    assert(fitted@ =~= text@ + spaces((k - n) as nat));
                }
            }
            proof {
                if n < len {
                    assert(fitted@ == text@ + spaces((len - n) as nat));
                } else {
                    assert(fitted@ =~= text@ + spaces(0));
                    assert(fitted@ =~= text@);
                }
            }
        }
        let filled = self.fill_color(fitted.as_str());
        self.push_raw(filled.as_str())
    }

    /// Appends the sequence that moves the cursor to (`line`, `column`).
    pub fn cursor_move_to(self, line: i32, column: i32) -> (r: Self)
        ensures
            r.text() == self.text() + cursor_move_code(line, column),
            r.same_colors(&self),
    {
        let mut s = String::from_str("\u{1b}[");
        push_decimal(&mut s, line as i128);
        push_str(&mut s, ";");
        push_decimal(&mut s, column as i128);
        push_str(&mut s, "H");
        proof {
            assert(s@ =~= cursor_move_code(line, column));
        }
        self.push_raw(s.as_str())
    }
    /// Switches bold on.
    pub fn bold(self) -> (r: Self)
        ensures
            r.text() == self.text() + ESC1M@,
            r.same_colors(&self),
    {
        self.push_raw(ESC1M)
    }

    /// Switches bold off.
    pub fn de_bold(self) -> (r: Self)
        ensures
            r.text() == self.text() + ESC22M@,
            r.same_colors(&self),
    {
        self.push_raw(ESC22M)
    }

    /// Switches italic on.
    pub fn italic(self) -> (r: Self)
        ensures
            r.text() == self.text() + ESC3M@,
            r.same_colors(&self),
    {
        self.push_raw(ESC3M)
    }

    /// Switches italic off.
    pub fn de_italic(self) -> (r: Self)
        ensures
            r.text() == self.text() + ESC23M@,
            r.same_colors(&self),
    {
        self.push_raw(ESC23M)
    }

    /// Switches underline on.
    pub fn underline(self) -> (r: Self)
        ensures
            r.text() == self.text() + ESC4M@,
            r.same_colors(&self),
    {
        self.push_raw(ESC4M)
    }

    /// Switches underline off.
    pub fn de_underline(self) -> (r: Self)
        ensures
            r.text() == self.text() + ESC24M@,
            r.same_colors(&self),
    {
        self.push_raw(ESC24M)
    }

    /// Switches blinking on.
    pub fn blinking(self) -> (r: Self)
        ensures
            r.text() == self.text() + ESC5M@,
            r.same_colors(&self),
    {
        self.push_raw(ESC5M)
    }

    /// Switches blinking off.
    pub fn de_blinking(self) -> (r: Self)
        ensures
            r.text() == self.text() + ESC25M@,
            r.same_colors(&self),
    {
        self.push_raw(ESC25M)
    }

    /// Switches strikethrough on.
    pub fn strikethrough(self) -> (r: Self)
        ensures
            r.text() == self.text() + ESC9M@,
            r.same_colors(&self),
    {
        self.push_raw(ESC9M)
    }

    /// Switches strikethrough off.
    pub fn de_strikethrough(self) -> (r: Self)
        ensures
            r.text() == self.text() + ESC29M@,
            r.same_colors(&self),
    {
        self.push_raw(ESC29M)
    }

    /// Saves the cursor position.
    pub fn save_cursor_position(self) -> (r: Self)
        ensures
            r.text() == self.text() + ESCS@,
            r.same_colors(&self),
    {
        self.push_raw(ESCS)
    }

    /// Restores the saved cursor position.
    pub fn restore_cursor_position(self) -> (r: Self)
        ensures
            r.text() == self.text() + ESCU@,
            r.same_colors(&self),
    {
        self.push_raw(ESCU)
    }

    /// Appends a carriage return and a line feed.
    pub fn crlf(self) -> (r: Self)
        ensures
            r.text() == self.text() + CRLF@,
            r.same_colors(&self),
    {
        self.push_raw(CRLF)
    }

    /// Appends a tab.
    pub fn tab(self) -> (r: Self)
        ensures
            r.text() == self.text() + TAB@,
            r.same_colors(&self),
    {
        self.push_raw(TAB)
    }

    /// Appends a space.
    pub fn space(self) -> (r: Self)
        ensures
            r.text() == self.text() + SPACE@,
            r.same_colors(&self),
    {
        self.push_raw(SPACE)
    }

    /// Erases from the cursor to the end of the line.
    pub fn clear_cursor_to_end(self) -> (r: Self)
        ensures
            r.text() == self.text() + ESC0K@,
            r.same_colors(&self),
    {
        self.push_raw(ESC0K)
    }

    /// Erases from the start of the line to the cursor.
    pub fn clear_cursor_to_start(self) -> (r: Self)
        ensures
            r.text() == self.text() + ESC1K@,
            r.same_colors(&self),
    {
        self.push_raw(ESC1K)
    }

    /// Erases the whole line.
    pub fn clear_line(self) -> (r: Self)
        ensures
            r.text() == self.text() + ESC2K@,
            r.same_colors(&self),
    {
        self.push_raw(ESC2K)
    }

    /// Erases the whole screen.
    pub fn clear_entire_screen(self) -> (r: Self)
        ensures
            r.text() == self.text() + ESC2J@,
            r.same_colors(&self),
    {
        self.push_raw(ESC2J)
    }

    /// Appends the decimal text of `val` in the current colors.
    pub fn append_i8(self, val: i8) -> (r: Self)
        ensures
            r.text() == self.text() + self.colored(decimal(val as int)),
            r.same_colors(&self),
    {
        self.append_decimal(val as i128)
    }

    /// Appends the decimal text of `val` in the current colors.
    pub fn append_u8(self, val: u8) -> (r: Self)
        ensures
            r.text() == self.text() + self.colored(decimal(val as int)),
            r.same_colors(&self),
    {
        self.append_decimal(val as i128)
    }

    /// Appends the decimal text of `val` in the current colors.
    pub fn append_i16(self, val: i16) -> (r: Self)
        ensures
            r.text() == self.text() + self.colored(decimal(val as int)),
            r.same_colors(&self),
    {
        self.append_decimal(val as i128)
    }

    /// Appends the decimal text of `val` in the current colors.
    pub fn append_u16(self, val: u16) -> (r: Self)
        ensures
            r.text() == self.text() + self.colored(decimal(val as int)),
            r.same_colors(&self),
    {
        self.append_decimal(val as i128)
    }

    /// Appends the decimal text of `val` in the current colors.
    pub fn append_i32(self, val: i32) -> (r: Self)
        ensures
            r.text() == self.text() + self.colored(decimal(val as int)),
            r.same_colors(&self),
    {
        self.append_decimal(val as i128)
    }

    /// Appends the decimal text of `val` in the current colors.
    pub fn append_u32(self, val: u32) -> (r: Self)
        ensures
            r.text() == self.text() + self.colored(decimal(val as int)),
            r.same_colors(&self),
    {
        self.append_decimal(val as i128)
    }

    /// Appends the decimal text of `val` in the current colors.
    pub fn append_i64(self, val: i64) -> (r: Self)
        ensures
            r.text() == self.text() + self.colored(decimal(val as int)),
            r.same_colors(&self),
    {
        self.append_decimal(val as i128)
    }

    /// Appends the decimal text of `val` in the current colors.
    pub fn append_u64(self, val: u64) -> (r: Self)
        ensures
            r.text() == self.text() + self.colored(decimal(val as int)),
            r.same_colors(&self),
    {
        self.append_decimal(val as i128)
    }

    fn append_decimal(self, val: i128) -> (r: Self)
        requires
            -0x1_0000_0000_0000_0000 < val < 0x1_0000_0000_0000_0000,
        ensures
            r.text() == self.text() + self.colored(decimal(val as int)),
            r.same_colors(&self),
    {
        let mut s = String::new();
        push_decimal(&mut s, val);
        proof {
            lemma_decimal_nonempty(val as int);
        }
        self.append(s.as_str())
    }

    /// Appends `ch` in the current colors.
    pub fn append_char(self, ch: char) -> (r: Self)
        ensures
            r.text() == self.text() + self.colored(seq![ch]),
            r.same_colors(&self),
    {
        let mut s = String::new();
        push_char(&mut s, ch);
        proof {
            assert(s@ =~= seq![ch]);
        }
        self.append(s.as_str())
    }

    /// Appends `true` or `false` in the current colors.
    pub fn append_bool(self, val: bool) -> (r: Self)
        ensures
            r.text() == self.text() + self.colored(
                if val {
                    "true"@
                } else {
                    "false"@
                },
            ),
            r.same_colors(&self),
    {
        proof {
            reveal_strlit("true");
            reveal_strlit("false");
        }
        if val {
            self.append("true")
        } else {
            self.append("false")
        }
    }

    /// Appends `cnt` spaces.
    pub fn space_in(self, cnt: usize) -> (r: Self)
        ensures
            r.text() == self.text() + spaces(cnt as nat),
            r.same_colors(&self),
    {
        let mut this = self;
        let mut k: usize = 0;
        while k < cnt
            invariant
                k <= cnt,
                this.text() == self.text() + spaces(k as nat),
                this.same_colors(&self),
            decreases cnt - k,
        {
            push_char(&mut this.builder, ' ');
            k += 1;
            proof {
                assert(this.text() =~= self.text() + spaces(k as nat));
            }
        }
        this
    }

    /// Empties the text, colors unchanged.
    pub fn clear_str(self) -> (r: Self)
        ensures
            r.text() == Seq::<char>::empty(),
            r.same_colors(&self),
    {
        let mut this = self;
        clear_string(&mut this.builder);
        this
    }
}

impl Default for ShAnsiString {
    fn default() -> (r: Self)
        ensures
            r.text() == Seq::<char>::empty(),
            r.no_colors(),
    {
        Self::new()
    }
}

/// The decimal text of an integer is never empty.
proof fn lemma_decimal_nonempty(n: int)
    ensures
        decimal(n).len() > 0,
{
    let m: nat = if n < 0 { (-n) as nat } else { n as nat };
    if m >= 10 {
        assert(digits(m) == digits(m / 10).push(digit_char((m % 10) as int)));
    }
}


/// Length in bytes of the UTF-8 encoding of `s`.
pub open spec fn encode_utf8_len(s: Seq<char>) -> nat {
    vstd::utf8::encode_utf8(s).len()
}

} // verus!
